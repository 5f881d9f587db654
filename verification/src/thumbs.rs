//! Thumbnail listing support: which files count as images, and the base64
//! data URL a preview carries.

use vstd::prelude::*;
use vstd::string::{StrSliceExecFns, StringExecFns};

use crate::resolve::{contains_char, find_last, last_index_of};

verus! {

/// What `base64::engine::general_purpose::STANDARD.encode` produces for a
/// byte sequence: standard-alphabet base64 with padding. The result depends
/// on the bytes alone.
pub uninterp spec fn base64_of(bytes: Seq<u8>) -> Seq<char>;

/// Relies on `base64::engine::general_purpose::STANDARD.encode`: four
/// output characters for every three input bytes, the tail padded. The
/// encoder panics when that length overflows `usize`, so such inputs are
/// excluded.
#[verifier::external_body]
fn base64_encode(bytes: &Vec<u8>) -> (r: String)
    requires
        4 * ((bytes@.len() + 2) / 3) <= usize::MAX,
    ensures
        r@ == base64_of(bytes@),
        r@.len() == 4 * ((bytes@.len() + 2) / 3),
{
    base64::Engine::encode(&base64::engine::general_purpose::STANDARD, bytes.as_slice())
}

/// The extension of a filename: what follows the last `.`, provided the
/// `.` is neither missing nor the first character.
pub open spec fn spec_extension_of(name: Seq<char>) -> Option<Seq<char>> {
    if contains_char(name, '.') && 0 < last_index_of(name, '.') {
        Some(name.skip(last_index_of(name, '.') + 1))
    } else {
        None
    }
}

/// The MIME type of an image file extension; only the exact lowercase
/// extensions `png`, `jpg`, `jpeg` and `webp` count as images.
pub open spec fn spec_mime_for(ext: Seq<char>) -> Option<Seq<char>> {
    if ext == "png"@ {
        Some("image/png"@)
    } else if ext == "jpg"@ || ext == "jpeg"@ {
        Some("image/jpeg"@)
    } else if ext == "webp"@ {
        Some("image/webp"@)
    } else {
        None
    }
}

/// The preview payload of an image: a data URL holding its MIME type and
/// its bytes in base64.
pub open spec fn spec_data_url(mime: Seq<char>, bytes: Seq<u8>) -> Seq<char> {
    "data:"@ + mime + ";base64,"@ + base64_of(bytes)
}

/// The extension of `name`; see `spec_extension_of`.
pub fn extension_of(name: &str) -> (r: Option<&str>)
    ensures
        match r {
            Some(e) => spec_extension_of(name@) == Some(e@),
            None => spec_extension_of(name@) is None,
        },
{
    let n = name.unicode_len();
    match find_last(name, '.') {
        Some(k) => {
            if k == 0 {
                return None;
            }
            Some(name.substring_char(k + 1, n))
        },
        None => None,
    }
}

/// The MIME type of an image file extension; see `spec_mime_for`.
pub fn mime_for_extension(ext: &str) -> (r: Option<&'static str>)
    ensures
        match r {
            Some(m) => spec_mime_for(ext@) == Some(m@),
            None => spec_mime_for(ext@) is None,
        },
{
    let t = ext.to_owned();
    if t == String::from_str("png") {
        Some("image/png")
    } else if t == String::from_str("jpg") || t == String::from_str("jpeg") {
        Some("image/jpeg")
    } else if t == String::from_str("webp") {
        Some("image/webp")
    } else {
        None
    }
}

/// One directory entry of the thumbnail listing: the file's name and the
/// data URL of its preview.
#[derive(Debug, Clone, PartialEq, Eq)]
pub struct Thumbnail {
    pub name: String,
    pub data_url: String,
}

/// Whether a file named `name` belongs in the thumbnail listing, and the
/// bytes are few enough for base64 to encode.
pub open spec fn spec_thumbnail_ok(name: Seq<char>, bytes: Seq<u8>) -> bool {
    &&& spec_extension_of(name) is Some
    &&& spec_mime_for(spec_extension_of(name)->0) is Some
    &&& 4 * ((bytes.len() + 2) / 3) <= usize::MAX
}

/// The thumbnail of the file `name` with contents `bytes`: its name and a
/// base64 data URL of its bytes, or `None` when the extension is not an
/// image's.
pub fn thumbnail_for(name: &str, bytes: &Vec<u8>) -> (r: Option<Thumbnail>)
    ensures
        r is Some <==> spec_thumbnail_ok(name@, bytes@),
        r is Some ==> r->0.name@ == name@ && r->0.data_url@ == spec_data_url(
            spec_mime_for(spec_extension_of(name@)->0)->0,
            bytes@,
        ),
{
    let ext = match extension_of(name) {
        Some(e) => e,
        None => {
            return None;
        },
    };
    let mime = match mime_for_extension(ext) {
        Some(m) => m,
        None => {
            return None;
        },
    };
    if bytes.len() > usize::MAX / 4 * 3 {
        return None;
    }
    let encoded = base64_encode(bytes);
    let data_url = String::from_str("data:").concat(mime).concat(";base64,").concat(
        encoded.as_str(),
    );
    Some(Thumbnail { name: name.to_owned(), data_url })
}

} // verus!
