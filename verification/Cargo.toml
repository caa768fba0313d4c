[package]
name = "xp_md2html"
version = "0.1.0"
edition = "2021"

[dependencies]
anyhow = "1"
clap = { version = "4", features = ["derive"] }
markdown = "1"
tempfile = "3"
tokio = { version = "1", features = ["macros", "rt-multi-thread"] }
