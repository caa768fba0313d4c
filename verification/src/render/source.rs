//! The MIME type of a source file, told by its extension.

use vstd::prelude::*;
use crate::text::{lowercase, optional_text, same_text, to_lowercase};

verus! {

/// The MIME type taken where the extension says nothing else.
pub const DEFAULT_MIME: &'static str = "text/html";

/// The MIME type for an extension that is in lower case already: SVG and
/// XML have their own, everything else is taken for HTML.
pub open spec fn mime_of_lowered(extension: Seq<char>) -> Seq<char> {
    if extension == "svg"@ {
        "image/svg+xml"@
    } else if extension == "xml"@ {
        "application/xml"@
    } else {
        DEFAULT_MIME@
    }
}

/// The MIME type of a source file with the given extension, if it has one.
pub open spec fn source_mime(extension: Option<Seq<char>>) -> Seq<char> {
    match extension {
        Some(e) => mime_of_lowered(lowercase(e)),
        None => DEFAULT_MIME@,
    }
}

/// The MIME type for an extension in lower case.
pub fn mime_for_lowered_extension(extension: &str) -> (r: &'static str)
    ensures
        r@ == mime_of_lowered(extension@),
{
    if same_text(extension, "svg") {
        "image/svg+xml"
    } else if same_text(extension, "xml") {
        "application/xml"
    } else {
        DEFAULT_MIME
    }
}

/// The MIME type of a source file, told by its extension without regard to
/// case; `text/html` where the file has no extension or another one.
pub fn mime_for_extension(extension: Option<&str>) -> (r: &'static str)
    ensures
        r@ == source_mime(optional_text(extension)),
{
    match extension {
        Some(e) => {
            let lowered = to_lowercase(e);
            mime_for_lowered_extension(lowered.as_str())
        },
        None => DEFAULT_MIME,
    }
}

} // verus!
