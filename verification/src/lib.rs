//! Rendering of HTML and SVG markup to images, as a verified core.
//!
//! The crate decides; a driver around it acts. [`mime`] is the registry that
//! maps file extensions to MIME types and back. [`render`] stages markup,
//! builds the command lines of headless Chrome and of ImageMagick, and
//! sequences one render as a state machine: the crate says what to do next,
//! the driver does it and reports, and every step has a contract. [`gfm`]
//! turns markdown into HTML. [`text`] holds what the others need of texts.

pub mod gfm;
pub mod mime;
pub mod render;
pub mod text;
