//! The formats a render can come out in.

use vstd::prelude::*;
use crate::text::{lowercase, same_text, to_lowercase};

verus! {

/// The format of the final image or document.
#[derive(Clone, Copy, Debug, PartialEq, Eq, Structural)]
pub enum OutputFormat {
    Png,
    Jpg,
    Jpeg,
    Pdf,
}

impl OutputFormat {
    /// The name of the format, as the image tool takes it.
    pub open spec fn name(self) -> Seq<char> {
        match self {
            OutputFormat::Png => "png"@,
            OutputFormat::Jpg => "jpg"@,
            OutputFormat::Jpeg => "jpeg"@,
            OutputFormat::Pdf => "pdf"@,
        }
    }

    /// The format with the given name, letter for letter.
    pub open spec fn named(text: Seq<char>) -> Option<OutputFormat> {
        if text == "png"@ {
            Some(OutputFormat::Png)
        } else if text == "jpg"@ {
            Some(OutputFormat::Jpg)
        } else if text == "jpeg"@ {
            Some(OutputFormat::Jpeg)
        } else if text == "pdf"@ {
            Some(OutputFormat::Pdf)
        } else {
            None
        }
    }

    /// Only PNG carries transparency; every other format is flattened.
    pub open spec fn keeps_transparency(self) -> bool {
        self == OutputFormat::Png
    }

    /// The name of the format, as the image tool takes it.
    pub fn as_str(self) -> (r: &'static str)
        ensures
            r@ == self.name(),
    {
        match self {
            OutputFormat::Png => "png",
            OutputFormat::Jpg => "jpg",
            OutputFormat::Jpeg => "jpeg",
            OutputFormat::Pdf => "pdf",
        }
    }

    /// The format with the given name, letter for letter; `None` for any
    /// other text.
    pub fn exact(text: &str) -> (r: Option<OutputFormat>)
        ensures
            r == OutputFormat::named(text@),
    {
        if same_text(text, "png") {
            Some(OutputFormat::Png)
        } else if same_text(text, "jpg") {
            Some(OutputFormat::Jpg)
        } else if same_text(text, "jpeg") {
            Some(OutputFormat::Jpeg)
        } else if same_text(text, "pdf") {
            Some(OutputFormat::Pdf)
        } else {
            None
        }
    }

    /// The format that a text names once it is put in lower case; `None`
    /// where it names none.
    pub fn parse(text: &str) -> (r: Option<OutputFormat>)
        ensures
            r == OutputFormat::named(lowercase(text@)),
    {
        let lowered = to_lowercase(text);
        OutputFormat::exact(lowered.as_str())
    }
}

/// Every format is found again under its own name.
pub proof fn lemma_format_named(format: OutputFormat)
    ensures
        OutputFormat::named(format.name()) == Some(format),
{
    reveal_strlit("png");
    reveal_strlit("jpg");
    reveal_strlit("jpeg");
    reveal_strlit("pdf");
    assert("png"@[0] == 'p' && "jpg"@[0] == 'j' && "jpeg"@[0] == 'j' && "pdf"@[1] == 'd');
    assert("png"@.len() == 3 && "jpg"@.len() == 3 && "jpeg"@.len() == 4 && "pdf"@.len() == 3);
    assert("png"@[1] == 'n');
}

} // verus!
