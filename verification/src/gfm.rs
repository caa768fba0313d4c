//! Markdown to HTML, in the GitHub flavour.
//!
//! The conversion itself is the work of the `markdown` crate; this module
//! hands the text over and turns the crate's error into one of its own.

use vstd::prelude::*;
use ::markdown::message::Message;

verus! {

/// The HTML that the `markdown` crate makes of a text with its options for
/// GitHub-flavoured markdown; `None` where it reports an error instead.
pub uninterp spec fn gfm_html(text: Seq<char>) -> Option<Seq<char>>;

/// The error of the `markdown` crate.
#[verifier::external_type_specification]
#[verifier::external_body]
pub struct ExMessage(::markdown::message::Message);

/// `markdown::to_html_with_options` with `markdown::Options::gfm()`. The
/// contract only names the result: the same text always gives the same
/// HTML, or an error each time.
#[verifier::external_body]
fn to_html_gfm(text: &str) -> (r: Result<String, Message>)
    ensures
        match r {
            Ok(html) => gfm_html(text@) == Some(html@),
            Err(_) => gfm_html(text@) is None,
        },
{
    ::markdown::to_html_with_options(text, &::markdown::Options::gfm())
}

/// The `Display` text of the `markdown` crate's error: place, reason and
/// rule. Nothing is claimed of it.
#[verifier::external_body]
fn message_text(message: &Message) -> (r: String) {
    message.to_string()
}

/// A text that could not be converted, with the converter's message.
#[derive(Debug, PartialEq, Eq)]
pub struct MarkdownError {
    pub message: String,
}

/// Converts GitHub-flavoured markdown to HTML.
pub fn markdown_to_html(text: &str) -> (r: Result<String, MarkdownError>)
    ensures
        match r {
            Ok(html) => gfm_html(text@) == Some(html@),
            Err(_) => gfm_html(text@) is None,
        },
{
    match to_html_gfm(text) {
        Ok(html) => Ok(html),
        Err(message) => Err(MarkdownError { message: message_text(&message) }),
    }
}

} // verus!
