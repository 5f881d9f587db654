//! Target formats and their tags.

use vstd::prelude::*;
use vstd::string::StringExecFns;

use crate::error::ConvertError;

verus! {

/// A format an image can be converted to.
#[derive(Debug, Clone, Copy, PartialEq, Eq, Structural)]
pub enum TargetFormat {
    Png,
    Jpeg,
    Webp,
}

impl TargetFormat {
    /// The file extension written for this format.
    pub open spec fn spec_extension(self) -> Seq<char> {
        match self {
            TargetFormat::Png => "png"@,
            TargetFormat::Jpeg => "jpg"@,
            TargetFormat::Webp => "webp"@,
        }
    }

    /// The file extension written for this format; `jpeg` inputs share the
    /// `jpg` extension.
    pub fn extension(self) -> (r: &'static str)
        ensures
            r@ == self.spec_extension(),
    {
        match self {
            TargetFormat::Png => "png",
            TargetFormat::Jpeg => "jpg",
            TargetFormat::Webp => "webp",
        }
    }
}

/// The format a tag string denotes: `png`, `jpg` or `jpeg`, and `webp`;
/// every other tag is unknown.
pub open spec fn spec_parse_format(s: Seq<char>) -> Option<TargetFormat> {
    if s == "png"@ {
        Some(TargetFormat::Png)
    } else if s == "jpg"@ || s == "jpeg"@ {
        Some(TargetFormat::Jpeg)
    } else if s == "webp"@ {
        Some(TargetFormat::Webp)
    } else {
        None
    }
}

/// Parse a target-format tag. Unknown tags are rejected with
/// `ConvertError::UnsupportedFormat`.
pub fn parse_format(s: &str) -> (r: Result<TargetFormat, ConvertError>)
    ensures
        spec_parse_format(s@) is Some ==> r is Ok && Some(r->Ok_0) == spec_parse_format(s@),
        spec_parse_format(s@) is None ==> r == Err::<TargetFormat, ConvertError>(
            ConvertError::UnsupportedFormat,
        ),
{
    let t = s.to_owned();
    if t == String::from_str("png") {
        Ok(TargetFormat::Png)
    } else if t == String::from_str("jpg") || t == String::from_str("jpeg") {
        Ok(TargetFormat::Jpeg)
    } else if t == String::from_str("webp") {
        Ok(TargetFormat::Webp)
    } else {
        Err(ConvertError::UnsupportedFormat)
    }
}

} // verus!
