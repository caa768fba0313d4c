//! One render of markup to an image: what to stage, which programs to run
//! with which arguments, and what to make of how they ended.

pub mod command;
pub mod error;
pub mod format;
pub mod guarantees;
pub mod job;
pub mod source;
pub mod with_chrome;
