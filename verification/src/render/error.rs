//! Why a render failed, and how to say so.

use vstd::prelude::*;
use crate::text::{signed_decimal, signed_decimal_text};
use super::command::{command_text, join, joined, CommandLine, CommandLineView};

verus! {

/// A failed render. None of these carries image bytes: a render that
/// failed at any stage gives none.
#[derive(Debug, PartialEq, Eq)]
pub enum RenderError {
    /// No scratch directory could be made.
    Resource { detail: String },
    /// A file could not be written, the scratch directory could not be
    /// removed, or the driver answered something that was not asked.
    Io { detail: String },
    /// None of the candidate programs was found; all of them are listed.
    ExecutableNotFound { candidates: Vec<String> },
    /// The browser could not be run, was killed, or ended with an exit
    /// code other than zero.
    Render { command: CommandLine, exit_code: Option<i32>, detail: String },
    /// The image tool could not be run, failed, or wrote no image.
    PostProcess { stderr: String },
}

/// A failed render as texts.
pub ghost enum RenderErrorView {
    Resource { detail: Seq<char> },
    Io { detail: Seq<char> },
    ExecutableNotFound { candidates: Seq<Seq<char>> },
    Render { command: CommandLineView, exit_code: Option<i32>, detail: Seq<char> },
    PostProcess { stderr: Seq<char> },
}

impl View for RenderError {
    type V = RenderErrorView;

    open spec fn view(&self) -> RenderErrorView {
        match self {
            RenderError::Resource { detail } => RenderErrorView::Resource { detail: detail@ },
            RenderError::Io { detail } => RenderErrorView::Io { detail: detail@ },
            RenderError::ExecutableNotFound { candidates } => RenderErrorView::ExecutableNotFound {
                candidates: candidates.deep_view(),
            },
            RenderError::Render { command, exit_code, detail } => RenderErrorView::Render {
                command: command@,
                exit_code: *exit_code,
                detail: detail@,
            },
            RenderError::PostProcess { stderr } => RenderErrorView::PostProcess { stderr: stderr@ },
        }
    }
}

/// What to install, for the two programs that a render needs.
pub const INSTALL_HINT: &'static str =
    "Failed to render content. Make sure Chrome/Chromium and ImageMagick are installed and accessible.\n\
     Chrome: On macOS: Install from https://www.google.com/chrome/\n\
     Chrome: On Linux: sudo apt install chromium-browser (Ubuntu/Debian) or equivalent\n\
     Chrome: On Windows: Install from https://www.google.com/chrome/\n\
     ImageMagick: On macOS: brew install imagemagick\n\
     ImageMagick: On Linux: sudo apt install imagemagick\n\
     ImageMagick: On Windows: Install from https://imagemagick.org/";

/// The exit code in words.
pub open spec fn exit_code_text(exit_code: Option<i32>) -> Seq<char> {
    match exit_code {
        Some(code) => signed_decimal(code as int),
        None => "none"@,
    }
}

/// The directory of a command line, empty where it has none.
pub open spec fn directory_text(command: CommandLineView) -> Seq<char> {
    match command.current_dir {
        Some(dir) => dir,
        None => Seq::empty(),
    }
}

/// The message of a failure.
pub open spec fn message_of(error: RenderErrorView) -> Seq<char> {
    match error {
        RenderErrorView::Resource { detail } => "Failed to create the workspace: "@ + detail,
        RenderErrorView::Io { detail } => "I/O failure: "@ + detail,
        RenderErrorView::ExecutableNotFound { candidates } => "No available command found in PATH: "@
            + joined(candidates, ", "@),
        RenderErrorView::Render { command, exit_code, detail } => {
            let head = "Failed take snapshot with chrome: "@ + command_text(command) + "; cwd: "@
                + directory_text(command) + ": exit code: "@ + exit_code_text(exit_code);
            if detail.len() == 0 {
                head
            } else {
                head + ": "@ + detail
            }
        },
        RenderErrorView::PostProcess { stderr } => "ImageMagick convert failed: "@ + stderr,
    }
}

/// The report of a failure: the hint on what to install, then the message.
pub open spec fn report_of(error: RenderErrorView) -> Seq<char> {
    INSTALL_HINT@ + "\n"@ + message_of(error)
}

impl RenderError {
    /// The message of this failure: what was tried and how it ended.
    pub fn message(&self) -> (r: String)
        ensures
            r@ == message_of(self@),
    {
        match self {
            RenderError::Resource { detail } => {
                let mut r: String = "Failed to create the workspace: ".to_owned();
                r.append(detail.as_str());
                r
            },
            RenderError::Io { detail } => {
                let mut r: String = "I/O failure: ".to_owned();
                r.append(detail.as_str());
                r
            },
            RenderError::ExecutableNotFound { candidates } => {
                let mut r: String = "No available command found in PATH: ".to_owned();
                r.append(join(candidates, ", ").as_str());
                r
            },
            RenderError::Render { command, exit_code, detail } => {
                let mut r: String = "Failed take snapshot with chrome: ".to_owned();
                r.append(command.text().as_str());
                r.append("; cwd: ");
                match &command.current_dir {
                    Some(dir) => {
                        r.append(dir.as_str());
                    },
                    None => {
                        assert(r@ + Seq::<char>::empty() =~= r@);
                    },
                }
                r.append(": exit code: ");
                match exit_code {
                    Some(code) => {
                        r.append(signed_decimal_text(*code).as_str());
                    },
                    None => {
                        r.append("none");
                    },
                }
                if !detail.as_str().is_empty() {
                    r.append(": ");
                    r.append(detail.as_str());
                }
                r
            },
            RenderError::PostProcess { stderr } => {
                let mut r: String = "ImageMagick convert failed: ".to_owned();
                r.append(stderr.as_str());
                r
            },
        }
    }

    /// The report of this failure for a reader: the hint on what to
    /// install, a line break, and the message.
    pub fn report(&self) -> (r: String)
        ensures
            r@ == report_of(self@),
    {
        let mut r: String = INSTALL_HINT.to_owned();
        r.append("\n");
        r.append(self.message().as_str());
        r
    }
}

} // verus!
