use std::path::PathBuf;

use xp_md2html::render::command::{CommandLine, ProcessOutput};
use xp_md2html::render::error::RenderError;
use xp_md2html::render::format::OutputFormat;
use xp_md2html::render::with_chrome::{
    Search, StagedFile, WithChrome, CHROME_NAMES, IMAGE_TOOLS, MAC_CHROME, META_TAG,
};

#[test]
fn test_setup_html_context() {
    let input = "<html><body>Hello</body></html>";
    let result = WithChrome::setup_html_page_context(input, None);

    assert!(result.contains(r#"<meta http-equiv="Content-Type""#));
    assert!(result.contains("Hello"));
}

#[test]
fn test_setup_html_context_with_base() {
    let input = "<html><body>Hello</body></html>";
    let base_path = PathBuf::from("/tmp/assets");
    let result = WithChrome::setup_html_page_context(input, base_path.to_str());

    assert!(result.contains(r#"<base href="file:///tmp/assets/">"#));
}

#[test]
fn test_get_file_suffix() {
    // Test known MIME types
    assert_eq!(WithChrome::get_file_suffix("text/html"), "html");

    // Test fallback
    assert_eq!(WithChrome::get_file_suffix("custom"), "custom");
}

#[test]
fn html_context_is_meta_then_base_then_markup() {
    let input = "<p>Hello</p>";
    assert_eq!(
        WithChrome::setup_html_page_context(input, None),
        "<meta http-equiv=\"Content-Type\" content=\"text/html; charset=utf-8\"/><p>Hello</p>"
    );
    assert_eq!(
        WithChrome::setup_html_page_context(input, Some("/tmp/assets")),
        "<meta http-equiv=\"Content-Type\" content=\"text/html; charset=utf-8\"/><base href=\"file:///tmp/assets/\"><p>Hello</p>"
    );
    assert_eq!(WithChrome::setup_html_page_context("", None), META_TAG);
}

#[test]
fn file_suffix_of_short_forms_and_pinned_types() {
    assert_eq!(WithChrome::get_file_suffix("image/svg+xml"), "svg");
    assert_eq!(WithChrome::get_file_suffix("image/jpeg"), "jpg");
    assert_eq!(WithChrome::get_file_suffix("svg"), "svg");
    assert_eq!(WithChrome::get_file_suffix("application/octet-stream"), "");
    assert_eq!(WithChrome::get_file_suffix(""), "");
}

#[test]
fn staging_html_wraps_the_markup() {
    let staged = WithChrome::create_markup_file("/tmp/w", "<p>Hi</p>", "text/html", Some("/a"));
    assert_eq!(
        staged,
        StagedFile {
            path: "/tmp/w/input.html".to_string(),
            content: format!("{}<base href=\"file:///a/\"><p>Hi</p>", META_TAG),
        }
    );
    let staged = WithChrome::create_markup_file("/tmp/w", "<p>Hi</p>", "text/html", None);
    assert_eq!(staged.content, format!("{}<p>Hi</p>", META_TAG));
    // The short form counts as HTML too, and is its own suffix.
    let staged = WithChrome::create_markup_file("/tmp/w", "<p>Hi</p>", "html", None);
    assert_eq!(staged.path, "/tmp/w/input.html");
    assert_eq!(staged.content, format!("{}<p>Hi</p>", META_TAG));
    let staged = WithChrome::create_markup_file("w", "x", "application/xhtml+xml", None);
    assert_eq!(staged.path, "w/input.xhtml");
    assert_eq!(staged.content, format!("{}x", META_TAG));
    // A short form is HTML where the MIME type that it stands for is.
    let staged = WithChrome::create_markup_file("w", "x", "htm", None);
    assert_eq!(staged.path, "w/input.htm");
    assert_eq!(staged.content, format!("{}x", META_TAG));
}

#[test]
fn staging_other_markup_keeps_it_byte_for_byte() {
    let svg = "<svg xmlns=\"http://www.w3.org/2000/svg\"><text>h\u{e9}llo</text></svg>";
    let staged = WithChrome::create_markup_file("/tmp/w", svg, "image/svg+xml", Some("/a"));
    assert_eq!(staged.path, "/tmp/w/input.svg");
    assert_eq!(staged.content.as_bytes(), svg.as_bytes());
    let staged = WithChrome::create_markup_file("/tmp/w", svg, "svg", Some("/a"));
    assert_eq!(staged.path, "/tmp/w/input.svg");
    assert_eq!(staged.content, svg);
    let staged = WithChrome::create_markup_file("/tmp/w", svg, "text/plain", None);
    assert_eq!(staged.path, "/tmp/w/input.txt");
    assert_eq!(staged.content, svg);
    let staged = WithChrome::create_markup_file("/tmp/w", "", "HTML", None);
    assert_eq!(staged.path, "/tmp/w/input.HTML");
    assert_eq!(staged.content, "");
}

#[test]
fn staged_path_names_the_file_input_with_the_suffix() {
    assert_eq!(WithChrome::staged_file_path("/tmp/x", "image/png"), "/tmp/x/input.png");
    assert_eq!(WithChrome::staged_file_path("", "custom"), "/input.custom");
    assert_eq!(
        WithChrome::staged_file_path("/tmp/x", "application/octet-stream"),
        "/tmp/x/input."
    );
}

fn owned(texts: &[&str]) -> Vec<String> {
    texts.iter().map(|t| t.to_string()).collect()
}

#[test]
fn chrome_command_has_the_fixed_arguments() {
    let cmd = WithChrome::build_chrome_snapshot_cmd(
        "chromium",
        "/tmp/w/input.html",
        Some(800),
        Some(600),
        "/tmp/w",
    );
    assert_eq!(
        cmd,
        CommandLine {
            program: "chromium".to_string(),
            args: owned(&[
                "--headless",
                "--disable-gpu",
                "--no-sandbox",
                "--disable-dev-shm-usage",
                "--disable-background-timer-throttling",
                "--disable-backgrounding-occluded-windows",
                "--disable-renderer-backgrounding",
                "--disable-features=TranslateUI",
                "--disable-ipc-flooding-protection",
                "--disable-extensions",
                "--no-first-run",
                "--no-default-browser-check",
                "--disable-web-security",
                "--disable-features=VizDisplayCompositor",
                "--screenshot",
                "--window-size=800,600",
                "--default-background-color=00000000",
                "/tmp/w/input.html",
            ]),
            current_dir: Some("/tmp/w".to_string()),
            env: vec![],
        }
    );
}

#[test]
fn chrome_window_defaults_to_1000_by_2000() {
    let cmd = WithChrome::build_chrome_snapshot_cmd("chrome", "f", None, None, "d");
    assert_eq!(cmd.args[15], "--window-size=1000,2000");
    let cmd = WithChrome::build_chrome_snapshot_cmd("chrome", "f", Some(0), None, "d");
    assert_eq!(cmd.args[15], "--window-size=0,2000");
    let cmd = WithChrome::build_chrome_snapshot_cmd("chrome", "f", None, Some(u32::MAX), "d");
    assert_eq!(cmd.args[15], "--window-size=1000,4294967295");
    assert_eq!(cmd.args.len(), 18);
    assert_eq!(cmd.args[17], "f");
}

#[test]
fn trim_command_keeps_transparency_only_for_png() {
    let cmd = WithChrome::build_trim_image_cmd("magick", "/tmp/w/screenshot.png", OutputFormat::Png);
    assert_eq!(
        cmd,
        CommandLine {
            program: "magick".to_string(),
            args: owned(&["/tmp/w/screenshot.png", "-trim", "+repage", "png:-"]),
            current_dir: None,
            env: vec![],
        }
    );
    for (format, target) in [
        (OutputFormat::Jpg, "jpg:-"),
        (OutputFormat::Jpeg, "jpeg:-"),
        (OutputFormat::Pdf, "pdf:-"),
    ] {
        let cmd = WithChrome::build_trim_image_cmd("convert", "s.png", format);
        assert_eq!(cmd.program, "convert");
        assert_eq!(
            cmd.args,
            owned(&[
                "s.png",
                "-trim",
                "+repage",
                "-background",
                "white",
                "-flatten",
                "-alpha",
                "off",
                target,
            ])
        );
    }
}

#[test]
fn search_probes_in_order_and_takes_the_first_that_resolves() {
    let tools: &[&str] = &IMAGE_TOOLS;
    assert_eq!(
        WithChrome::find_available_command(tools, &[]),
        Search::Probe("magick".to_string())
    );
    assert_eq!(
        WithChrome::find_available_command(tools, &[true]),
        Search::Found("magick".to_string())
    );
    assert_eq!(
        WithChrome::find_available_command(tools, &[false]),
        Search::Probe("convert".to_string())
    );
    assert_eq!(
        WithChrome::find_available_command(tools, &[false, true]),
        Search::Found("convert".to_string())
    );
    assert_eq!(
        WithChrome::find_available_command(tools, &[true, true]),
        Search::Found("magick".to_string())
    );
    assert_eq!(
        WithChrome::find_available_command(tools, &[false, false]),
        Search::Missing(owned(&["magick", "convert"]))
    );
    assert_eq!(
        WithChrome::find_available_command(tools, &[false, false, true]),
        Search::Missing(owned(&["magick", "convert"]))
    );
    assert_eq!(WithChrome::find_available_command(&[], &[]), Search::Missing(vec![]));
    assert_eq!(WithChrome::find_available_command(&[], &[true]), Search::Missing(vec![]));
}

#[test]
fn chrome_search_checks_the_mac_path_first() {
    assert_eq!(
        WithChrome::find_chrome_executable(&[]),
        Search::CheckPath(MAC_CHROME.to_string())
    );
    assert_eq!(
        WithChrome::find_chrome_executable(&[true]),
        Search::Found("/Applications/Google Chrome.app/Contents/MacOS/Google Chrome".to_string())
    );
    assert_eq!(
        WithChrome::find_chrome_executable(&[false]),
        Search::Probe("google-chrome".to_string())
    );
    assert_eq!(
        WithChrome::find_chrome_executable(&[false, false]),
        Search::Probe("google-chrome-stable".to_string())
    );
    assert_eq!(
        WithChrome::find_chrome_executable(&[false, false, false, true]),
        Search::Found("chromium".to_string())
    );
    assert_eq!(
        WithChrome::find_chrome_executable(&[false, false, false, false, false, true]),
        Search::Found("chrome".to_string())
    );
    assert_eq!(
        WithChrome::find_chrome_executable(&[false; 6]),
        Search::Missing(owned(&CHROME_NAMES))
    );
}

#[test]
fn trim_image_hands_out_what_the_tool_wrote() {
    let output = ProcessOutput { exit_code: Some(0), stdout: vec![0x89, b'P', b'N', b'G'], stderr: vec![] };
    assert_eq!(WithChrome::trim_image(output), Ok(vec![0x89, b'P', b'N', b'G']));
    // What the tool said on standard error does not matter where it succeeded.
    let output = ProcessOutput { exit_code: Some(0), stdout: vec![1], stderr: b"warning".to_vec() };
    assert_eq!(WithChrome::trim_image(output), Ok(vec![1]));
}

#[test]
fn trim_image_fails_on_exit_code_signal_and_empty_output() {
    let output = ProcessOutput { exit_code: Some(1), stdout: vec![1, 2], stderr: b"no such file".to_vec() };
    assert_eq!(
        WithChrome::trim_image(output),
        Err(RenderError::PostProcess { stderr: "no such file".to_string() })
    );
    let output = ProcessOutput { exit_code: None, stdout: vec![1, 2], stderr: vec![] };
    assert_eq!(
        WithChrome::trim_image(output),
        Err(RenderError::PostProcess { stderr: String::new() })
    );
    let output = ProcessOutput { exit_code: Some(0), stdout: vec![], stderr: b"empty".to_vec() };
    assert_eq!(
        WithChrome::trim_image(output),
        Err(RenderError::PostProcess { stderr: "empty".to_string() })
    );
    let output = ProcessOutput { exit_code: Some(-1), stdout: vec![], stderr: vec![] };
    assert!(WithChrome::trim_image(output).is_err());
}

#[test]
fn trim_image_decodes_standard_error_with_replacement() {
    let output = ProcessOutput {
        exit_code: Some(2),
        stdout: vec![],
        stderr: vec![b'a', 0xff, b'b', 0xc3, 0xa9],
    };
    assert_eq!(
        WithChrome::trim_image(output),
        Err(RenderError::PostProcess { stderr: "a\u{fffd}b\u{e9}".to_string() })
    );
}
