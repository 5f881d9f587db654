//! Decoding and encoding of image byte streams, through the `image` and
//! `webp` crates. Every call into those crates sits behind a small trusted
//! wrapper whose contract names what the call returns.

use vstd::prelude::*;

use crate::error::ConvertError;
use crate::format::TargetFormat;
use crate::pixel::{Channels, PixelBuffer};

verus! {

/// What `image::load_from_memory` decodes a byte stream to, converted to
/// 8-bit RGBA: width, height and the pixel bytes, or `None` when the bytes
/// are not a decodable image. The result depends on the bytes alone.
pub uninterp spec fn decoded_rgba(bytes: Seq<u8>) -> Option<(nat, nat, Seq<u8>)>;

/// The PNG byte stream the `image` crate encodes an RGBA buffer to.
pub uninterp spec fn png_rgba_bytes(width: nat, height: nat, pixels: Seq<u8>) -> Seq<u8>;

/// The PNG byte stream the `image` crate encodes an RGB buffer to.
pub uninterp spec fn png_rgb_bytes(width: nat, height: nat, pixels: Seq<u8>) -> Seq<u8>;

/// The JPEG byte stream the `image` crate encodes an RGB buffer to, at the
/// crate's default quality of 75.
pub uninterp spec fn jpeg_rgb_bytes(width: nat, height: nat, pixels: Seq<u8>) -> Seq<u8>;

/// The WebP byte stream the `webp` crate encodes an RGBA buffer to, lossy,
/// at quality 75, when libwebp accepts the image.
pub uninterp spec fn webp_rgba_bytes(width: nat, height: nat, pixels: Seq<u8>) -> Seq<u8>;

/// Whether libwebp's lossy encode at quality 75 accepts an RGBA buffer:
/// false for a zero or over-16383 dimension, and for the rare image whose
/// first partition overflows its fixed cap. Like the bytes, this depends on
/// the dimensions and pixels alone.
pub uninterp spec fn webp_encodable(width: nat, height: nat, pixels: Seq<u8>) -> bool;

/// The WebP quality every encode uses, on a scale of 0 to 100.
pub const WEBP_QUALITY: u8 = 75;

/// Relies on `image::load_from_memory`: format detection by content
/// signature, then decode; and on `DynamicImage::to_rgba8`: conversion to
/// 8-bit RGBA, four bytes per pixel.
#[verifier::external_body]
fn decode_rgba_raw(bytes: &[u8]) -> (r: Result<(u32, u32, Vec<u8>), String>)
    ensures
        match decoded_rgba(bytes@) {
            Some(t) => r is Ok && r->Ok_0.0 as nat == t.0 && r->Ok_0.1 as nat == t.1
                && r->Ok_0.2@ == t.2 && t.2.len() == t.0 * t.1 * 4,
            None => r is Err,
        },
{
    match image::load_from_memory(bytes) {
        Ok(img) => {
            let rgba = img.to_rgba8();
            Ok((rgba.width(), rgba.height(), rgba.into_raw()))
        },
        Err(e) => Err(format!("{}", e)),
    }
}

/// Relies on `DynamicImage::write_to` with `ImageFormat::Png` on an RGBA
/// image rebuilt from the raw bytes: a lossless encode whose output depends
/// on the dimensions and pixels alone, and which, given this exact buffer
/// length, fails exactly on a zero dimension.
#[verifier::external_body]
fn encode_png_rgba(width: u32, height: u32, data: &Vec<u8>) -> (r: Result<Vec<u8>, String>)
    requires
        data@.len() == width as nat * height as nat * 4,
    ensures
        r is Ok <==> (width >= 1 && height >= 1),
        r is Ok ==> r->Ok_0@ == png_rgba_bytes(width as nat, height as nat, data@),
{
    let img = match image::RgbaImage::from_raw(width, height, data.clone()) {
        Some(i) => i,
        None => return Err("pixel buffer does not match its dimensions".to_string()),
    };
    let mut cursor = std::io::Cursor::new(Vec::new());
    match image::DynamicImage::ImageRgba8(img).write_to(&mut cursor, image::ImageFormat::Png) {
        Ok(()) => Ok(cursor.into_inner()),
        Err(e) => Err(format!("{}", e)),
    }
}

/// Relies on `DynamicImage::write_to` with `ImageFormat::Png` on an RGB
/// image rebuilt from the raw bytes: a lossless encode whose output depends
/// on the dimensions and pixels alone, and which, given this exact buffer
/// length, fails exactly on a zero dimension.
#[verifier::external_body]
fn encode_png_rgb(width: u32, height: u32, data: &Vec<u8>) -> (r: Result<Vec<u8>, String>)
    requires
        data@.len() == width as nat * height as nat * 3,
    ensures
        r is Ok <==> (width >= 1 && height >= 1),
        r is Ok ==> r->Ok_0@ == png_rgb_bytes(width as nat, height as nat, data@),
{
    let img = match image::RgbImage::from_raw(width, height, data.clone()) {
        Some(i) => i,
        None => return Err("pixel buffer does not match its dimensions".to_string()),
    };
    let mut cursor = std::io::Cursor::new(Vec::new());
    match image::DynamicImage::ImageRgb8(img).write_to(&mut cursor, image::ImageFormat::Png) {
        Ok(()) => Ok(cursor.into_inner()),
        Err(e) => Err(format!("{}", e)),
    }
}

/// Relies on `DynamicImage::write_to` with `ImageFormat::Jpeg` on an RGB
/// image rebuilt from the raw bytes: a lossy encode at the `image` crate's
/// default quality of 75, whose output depends on the dimensions and pixels
/// alone, and which fails exactly when a dimension falls outside 1 to 65535.
#[verifier::external_body]
fn encode_jpeg_rgb(width: u32, height: u32, data: &Vec<u8>) -> (r: Result<Vec<u8>, String>)
    requires
        data@.len() == width as nat * height as nat * 3,
    ensures
        r is Ok <==> (1 <= width <= 65535 && 1 <= height <= 65535),
        r is Ok ==> r->Ok_0@ == jpeg_rgb_bytes(width as nat, height as nat, data@),
{
    let img = match image::RgbImage::from_raw(width, height, data.clone()) {
        Some(i) => i,
        None => return Err("pixel buffer does not match its dimensions".to_string()),
    };
    let mut cursor = std::io::Cursor::new(Vec::new());
    match image::DynamicImage::ImageRgb8(img).write_to(&mut cursor, image::ImageFormat::Jpeg) {
        Ok(()) => Ok(cursor.into_inner()),
        Err(e) => Err(format!("{}", e)),
    }
}

/// Relies on `webp::Encoder::from_rgba` and `encode_simple` (lossy, at
/// `WEBP_QUALITY`): a function of the dimensions and pixels alone, with
/// every libwebp refusal (a zero dimension, or a partition overflowing its
/// fixed cap) returned as an error. `from_rgba` panics when the buffer is
/// shorter than the dimensions demand, and the row stride is computed in
/// 32-bit arithmetic, so the exact length and the dimension bound below
/// exclude those inputs.
#[verifier::external_body]
fn encode_webp_rgba(width: u32, height: u32, data: &Vec<u8>) -> (r: Result<Vec<u8>, String>)
    requires
        data@.len() == width as nat * height as nat * 4,
        width <= 16383,
        height <= 16383,
    ensures
        r is Ok <==> webp_encodable(width as nat, height as nat, data@),
        r is Ok ==> r->Ok_0@ == webp_rgba_bytes(width as nat, height as nat, data@),
{
    let encoder = webp::Encoder::from_rgba(data.as_slice(), width, height);
    match encoder.encode_simple(false, WEBP_QUALITY.into()) {
        Ok(memory) => Ok(memory.to_vec()),
        Err(e) => Err(format!("{:?}", e)),
    }
}

/// Decode an image from raw bytes, detecting the source format from the
/// byte content, into an RGBA pixel buffer. Undecodable bytes are rejected
/// with `ConvertError::Decode`.
pub fn decode(bytes: &[u8]) -> (r: Result<PixelBuffer, ConvertError>)
    ensures
        match decoded_rgba(bytes@) {
            Some(t) => r is Ok && r->Ok_0.wf() && r->Ok_0.channels == Channels::Rgba
                && r->Ok_0.width as nat == t.0 && r->Ok_0.height as nat == t.1
                && r->Ok_0.data@ == t.2,
            None => r is Err && r->Err_0 is Decode,
        },
{
    match decode_rgba_raw(bytes) {
        Ok((width, height, data)) => Ok(
            PixelBuffer { width, height, channels: Channels::Rgba, data },
        ),
        Err(m) => Err(ConvertError::Decode(m)),
    }
}

/// Encode a pixel buffer as PNG: lossless, the buffer written as it is,
/// alpha channel included when it has one. An encoder failure is reported
/// as `ConvertError::Io`.
pub fn encode_png(buf: &PixelBuffer) -> (r: Result<Vec<u8>, ConvertError>)
    requires
        buf.wf(),
    ensures
        buf.channels == Channels::Rgba && r is Ok ==> r->Ok_0@ == png_rgba_bytes(
            buf.width as nat,
            buf.height as nat,
            buf.data@,
        ),
        buf.channels == Channels::Rgb && r is Ok ==> r->Ok_0@ == png_rgb_bytes(
            buf.width as nat,
            buf.height as nat,
            buf.data@,
        ),
        r is Ok <==> buf.width >= 1 && buf.height >= 1,
        r is Err ==> r->Err_0 is Io,
{
    let encoded = match buf.channels {
        Channels::Rgba => encode_png_rgba(buf.width, buf.height, &buf.data),
        Channels::Rgb => encode_png_rgb(buf.width, buf.height, &buf.data),
    };
    match encoded {
        Ok(bytes) => Ok(bytes),
        Err(m) => Err(ConvertError::Io(m)),
    }
}

/// Encode an opaque RGB pixel buffer as JPEG at quality 75. An encoder
/// failure is reported as `ConvertError::Io`.
pub fn encode_jpeg(buf: &PixelBuffer) -> (r: Result<Vec<u8>, ConvertError>)
    requires
        buf.wf(),
        buf.channels == Channels::Rgb,
    ensures
        r is Ok <==> 1 <= buf.width <= 65535 && 1 <= buf.height <= 65535,
        r is Ok ==> r->Ok_0@ == jpeg_rgb_bytes(buf.width as nat, buf.height as nat, buf.data@),
        r is Err ==> r->Err_0 is Io,
{
    match encode_jpeg_rgb(buf.width, buf.height, &buf.data) {
        Ok(bytes) => Ok(bytes),
        Err(m) => Err(ConvertError::Io(m)),
    }
}

/// Encode an RGBA pixel buffer as WebP at `WEBP_QUALITY`, alpha kept.
/// Every image libwebp refuses — an over-16383 or zero dimension, or the
/// rare partition overflow — is reported as `ConvertError::Io`.
pub fn encode_webp(buf: &PixelBuffer) -> (r: Result<Vec<u8>, ConvertError>)
    requires
        buf.wf(),
        buf.channels == Channels::Rgba,
    ensures
        r is Ok <==> buf.width <= 16383 && buf.height <= 16383 && webp_encodable(
            buf.width as nat,
            buf.height as nat,
            buf.data@,
        ),
        r is Ok ==> r->Ok_0@ == webp_rgba_bytes(buf.width as nat, buf.height as nat, buf.data@),
        r is Err ==> r->Err_0 is Io,
{
    if buf.width > 16383 || buf.height > 16383 {
        return Err(
            ConvertError::Io(String::from_str("image dimensions not encodable as WebP")),
        );
    }
    match encode_webp_rgba(buf.width, buf.height, &buf.data) {
        Ok(bytes) => Ok(bytes),
        Err(m) => Err(ConvertError::Io(m)),
    }
}

/// Whether the encoder behind `format` accepts an RGBA image of these
/// dimensions and pixels: PNG refuses only a zero dimension, JPEG any
/// dimension outside 1 to 65535, and WebP any dimension over 16383 plus
/// whatever libwebp itself refuses.
pub open spec fn spec_encoder_accepts(
    width: nat,
    height: nat,
    data: Seq<u8>,
    format: TargetFormat,
) -> bool {
    match format {
        TargetFormat::Png => width >= 1 && height >= 1,
        TargetFormat::Jpeg => 1 <= width <= 65535 && 1 <= height <= 65535,
        TargetFormat::Webp => width <= 16383 && height <= 16383 && webp_encodable(
            width,
            height,
            data,
        ),
    }
}

} // verus!
