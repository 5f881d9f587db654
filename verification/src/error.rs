//! The error taxonomy of the conversion engine.

use vstd::prelude::*;
use vstd::string::StringExecFns;

verus! {

/// Everything that can go wrong while converting one image.
///
/// - `Decode`: the input bytes were not a recognizable or well-formed image;
///   carries the decoder's own description.
/// - `InvalidColor`: a background color string was not 6 hex digits,
///   optionally preceded by `#`.
/// - `MissingBackground`: the image has translucent pixels, the target format
///   needs opacity, and no background color could be resolved.
/// - `UnsupportedFormat`: the requested target format tag is unknown.
/// - `Io`: a path could not be derived, a directory could not be created, or
///   a file could not be read or written; carries a description.
#[derive(Debug, Clone, PartialEq, Eq)]
pub enum ConvertError {
    Decode(String),
    InvalidColor,
    MissingBackground,
    UnsupportedFormat,
    Io(String),
}

impl ConvertError {
    /// The human-readable message for this error, as handed to callers
    /// and to progress events.
    pub fn message(&self) -> (r: String)
        ensures
            r@ == self.spec_message(),
    {
        match self {
            ConvertError::Decode(d) => String::from_str("Failed to decode image: ").concat(
                d.as_str(),
            ),
            ConvertError::InvalidColor => String::from_str("Invalid hex color format"),
            ConvertError::MissingBackground => String::from_str(
                "Image has transparency. Please provide a background color.",
            ),
            ConvertError::UnsupportedFormat => String::from_str("Unsupported output format"),
            ConvertError::Io(d) => String::from_str("I/O error: ").concat(d.as_str()),
        }
    }

    /// What `message` returns, variant by variant.
    pub open spec fn spec_message(&self) -> Seq<char> {
        match self {
            ConvertError::Decode(d) => "Failed to decode image: "@ + d@,
            ConvertError::InvalidColor => "Invalid hex color format"@,
            ConvertError::MissingBackground =>
                "Image has transparency. Please provide a background color."@,
            ConvertError::UnsupportedFormat => "Unsupported output format"@,
            ConvertError::Io(d) => "I/O error: "@ + d@,
        }
    }
}

} // verus!
