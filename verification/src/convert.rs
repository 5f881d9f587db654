//! The conversion pipeline: background policy, format dispatch, and the two
//! entry points that turn raw bytes into encoded output plus a destination.

use vstd::prelude::*;

use crate::codec::{
    decode, decoded_rgba, encode_jpeg, encode_png, encode_webp, jpeg_rgb_bytes, png_rgb_bytes,
    png_rgba_bytes, spec_encoder_accepts, webp_rgba_bytes,
};
use crate::color::{parse_hex_color, spec_hex_color, valid_hex_color, Rgb};
use crate::composite::{alpha_added, alpha_dropped, composited, spec_has_transparency};
use crate::error::ConvertError;
use crate::format::{parse_format, spec_parse_format, TargetFormat};
use crate::pixel::{Channels, PixelBuffer};
use crate::resolve::{
    derive_batch_output, derive_single_output, join_path, spec_batch_dir, spec_batch_file_name,
    spec_path_file_name, spec_single_dir, spec_single_file_name, batch_path_ok,
};

verus! {

/// The default background of batch mode: opaque white.
pub open spec fn white() -> Rgb {
    Rgb { r: 255, g: 255, b: 255 }
}

/// The background-resolution policy: an explicit color always wins; with
/// none, batch mode falls back to opaque white, and single mode has no
/// background at all.
pub open spec fn spec_resolve_background(bg: Option<Rgb>, is_batch: bool) -> Option<Rgb> {
    match bg {
        Some(c) => Some(c),
        None => if is_batch {
            Some(white())
        } else {
            None
        },
    }
}

/// Resolve the background to composite over; single mode without an
/// explicit color fails with `ConvertError::MissingBackground`.
pub fn resolve_background(bg: Option<Rgb>, is_batch: bool) -> (r: Result<Rgb, ConvertError>)
    ensures
        spec_resolve_background(bg, is_batch) is Some ==> r is Ok && Some(r->Ok_0)
            == spec_resolve_background(bg, is_batch),
        spec_resolve_background(bg, is_batch) is None ==> r == Err::<Rgb, ConvertError>(
            ConvertError::MissingBackground,
        ),
{
    match bg {
        Some(c) => Ok(c),
        None => {
            if is_batch {
                Ok(Rgb { r: 255, g: 255, b: 255 })
            } else {
                Err(ConvertError::MissingBackground)
            }
        },
    }
}

/// What encoding an RGBA buffer to `format` produces: the encoded byte
/// stream, or `None` when the pixels are translucent, the format demands
/// opacity, and no background can be resolved. Compositing happens only for
/// JPEG, and only when some pixel is translucent; PNG and WebP keep the
/// alpha channel.
pub open spec fn spec_encoded_rgba(
    width: nat,
    height: nat,
    data: Seq<u8>,
    format: TargetFormat,
    bg: Option<Rgb>,
    is_batch: bool,
) -> Option<Seq<u8>> {
    match format {
        TargetFormat::Png => Some(png_rgba_bytes(width, height, data)),
        TargetFormat::Jpeg => if spec_has_transparency(data) {
            match spec_resolve_background(bg, is_batch) {
                Some(c) => Some(jpeg_rgb_bytes(width, height, composited(data, c))),
                None => None,
            }
        } else {
            Some(jpeg_rgb_bytes(width, height, alpha_dropped(data)))
        },
        TargetFormat::Webp => Some(webp_rgba_bytes(width, height, data)),
    }
}

/// Encode a pixel buffer to the target format, compositing translucent
/// RGBA pixels over the resolved background when (and only when) the target
/// is JPEG. `Io` reports an encoder failure.
pub fn encode_buffer(
    buf: &PixelBuffer,
    format: TargetFormat,
    bg: Option<Rgb>,
    is_batch: bool,
) -> (r: Result<Vec<u8>, ConvertError>)
    requires
        buf.wf(),
    ensures
        buf.channels == Channels::Rgba ==> {
            &&& (r is Err && r->Err_0 is MissingBackground <==> spec_encoded_rgba(
                buf.width as nat,
                buf.height as nat,
                buf.data@,
                format,
                bg,
                is_batch,
            ) is None)
            &&& (r is Ok ==> Some(r->Ok_0@) == spec_encoded_rgba(
                buf.width as nat,
                buf.height as nat,
                buf.data@,
                format,
                bg,
                is_batch,
            ))
            &&& (r is Ok <==> spec_encoded_rgba(
                buf.width as nat,
                buf.height as nat,
                buf.data@,
                format,
                bg,
                is_batch,
            ) is Some && spec_encoder_accepts(
                buf.width as nat,
                buf.height as nat,
                buf.data@,
                format,
            ))
        },
        buf.channels == Channels::Rgb ==> {
            &&& (format == TargetFormat::Png && r is Ok ==> r->Ok_0@ == png_rgb_bytes(
                buf.width as nat,
                buf.height as nat,
                buf.data@,
            ))
            &&& (format == TargetFormat::Jpeg && r is Ok ==> r->Ok_0@ == jpeg_rgb_bytes(
                buf.width as nat,
                buf.height as nat,
                buf.data@,
            ))
            &&& (format == TargetFormat::Webp && r is Ok ==> r->Ok_0@ == webp_rgba_bytes(
                buf.width as nat,
                buf.height as nat,
                alpha_added(buf.data@),
            ))
            &&& (r is Err ==> r->Err_0 is Io)
            &&& (r is Ok <==> spec_encoder_accepts(
                buf.width as nat,
                buf.height as nat,
                alpha_added(buf.data@),
                format,
            ))
        },
        r is Err ==> r->Err_0 is MissingBackground || r->Err_0 is Io,
{
    match format {
        TargetFormat::Png => encode_png(buf),
        TargetFormat::Jpeg => {
            match buf.channels {
                Channels::Rgb => encode_jpeg(buf),
                Channels::Rgba => {
                    if buf.has_transparency() {
                        match resolve_background(bg, is_batch) {
                            Ok(c) => {
                                let rgb = buf.composite_over(c);
                                encode_jpeg(&rgb)
                            },
                            Err(e) => Err(e),
                        }
                    } else {
                        let rgb = buf.drop_alpha();
                        encode_jpeg(&rgb)
                    }
                },
            }
        },
        TargetFormat::Webp => {
            match buf.channels {
                Channels::Rgba => encode_webp(buf),
                Channels::Rgb => {
                    let rgba = buf.add_alpha();
                    encode_webp(&rgba)
                },
            }
        },
    }
}

/// With a translucent image bound for JPEG and no explicit color, the
/// background policy fails single mode and resolves batch mode to opaque
/// white.
pub proof fn lemma_background_policy(width: nat, height: nat, data: Seq<u8>)
    requires
        spec_has_transparency(data),
    ensures
        spec_encoded_rgba(width, height, data, TargetFormat::Jpeg, None, false) is None,
        spec_encoded_rgba(width, height, data, TargetFormat::Jpeg, None, true) == Some(
            jpeg_rgb_bytes(width, height, composited(data, white())),
        ),
{
}

/// What one conversion hands back: the encoded bytes and where to write
/// them. Writing is the caller's job.
#[derive(Debug)]
pub struct ConversionOutput {
    pub dir: String,
    pub file_name: String,
    pub bytes: Vec<u8>,
}

impl ConversionOutput {
    /// The full output path: directory and filename joined with one `/`.
    pub fn output_path(&self) -> (r: String)
        ensures
            r@ == self.dir@ + "/"@ + self.file_name@,
    {
        join_path(self.dir.as_str(), self.file_name.as_str())
    }
}

/// The color an optional hex string resolves to, provided it parses.
pub open spec fn spec_bg_of(bg_color: Option<&str>) -> Option<Rgb> {
    match bg_color {
        Some(h) => Some(spec_hex_color(h@)),
        None => None,
    }
}

/// The optional hex string parses: either there is none, or it is a
/// well-formed hex color.
pub open spec fn bg_color_ok(bg_color: Option<&str>) -> bool {
    bg_color is Some ==> valid_hex_color(bg_color->0@)
}

/// Single-file conversion: decode `file_bytes`, composite if the target
/// needs it, encode, and derive the destination under
/// `<base_dir>/ImageConverter`. Errors come in this order: a malformed
/// background color, then undecodable bytes, then an unknown format tag,
/// then a missing background, then an encoder failure.
pub fn convert_image(
    file_bytes: &Vec<u8>,
    filename: &str,
    format: &str,
    bg_color: Option<&str>,
    base_dir: &str,
) -> (r: Result<ConversionOutput, ConvertError>)
    ensures
        r is Err && r->Err_0 is InvalidColor <==> !bg_color_ok(bg_color),
        r is Err && r->Err_0 is Decode <==> bg_color_ok(bg_color) && decoded_rgba(file_bytes@)
            is None,
        r is Err && r->Err_0 is UnsupportedFormat <==> bg_color_ok(bg_color) && decoded_rgba(
            file_bytes@,
        ) is Some && spec_parse_format(format@) is None,
        r is Err && r->Err_0 is MissingBackground <==> bg_color_ok(bg_color) && decoded_rgba(
            file_bytes@,
        ) is Some && spec_parse_format(format@) is Some && ({
            let t = decoded_rgba(file_bytes@)->0;
            spec_encoded_rgba(t.0, t.1, t.2, spec_parse_format(format@)->0, spec_bg_of(bg_color), false) is None
        }),
        r is Err && r->Err_0 is Io <==> bg_color_ok(bg_color) && decoded_rgba(file_bytes@)
            is Some && spec_parse_format(format@) is Some && ({
            let t = decoded_rgba(file_bytes@)->0;
            spec_encoded_rgba(t.0, t.1, t.2, spec_parse_format(format@)->0, spec_bg_of(bg_color), false) is Some
                && !spec_encoder_accepts(t.0, t.1, t.2, spec_parse_format(format@)->0)
        }),
        r is Ok <==> bg_color_ok(bg_color) && decoded_rgba(file_bytes@) is Some
            && spec_parse_format(format@) is Some && ({
            let t = decoded_rgba(file_bytes@)->0;
            spec_encoded_rgba(t.0, t.1, t.2, spec_parse_format(format@)->0, spec_bg_of(bg_color), false) is Some
                && spec_encoder_accepts(t.0, t.1, t.2, spec_parse_format(format@)->0)
        }),
        r is Ok ==> {
            &&& bg_color_ok(bg_color)
            &&& decoded_rgba(file_bytes@) is Some
            &&& spec_parse_format(format@) is Some
            &&& ({
                let t = decoded_rgba(file_bytes@)->0;
                Some(r->Ok_0.bytes@) == spec_encoded_rgba(t.0, t.1, t.2, spec_parse_format(format@)->0, spec_bg_of(bg_color), false)
            })
            &&& r->Ok_0.dir@ == spec_single_dir(base_dir@)
            &&& r->Ok_0.file_name@ == spec_single_file_name(
                filename@,
                spec_parse_format(format@)->0.spec_extension(),
            )
        },
{
    let bg: Option<Rgb> = match bg_color {
        Some(h) => match parse_hex_color(h) {
            Ok(c) => Some(c),
            Err(e) => {
                return Err(e);
            },
        },
        None => None,
    };
    let buf = match decode(file_bytes.as_slice()) {
        Ok(b) => b,
        Err(e) => {
            return Err(e);
        },
    };
    let fmt = match parse_format(format) {
        Ok(f) => f,
        Err(e) => {
            return Err(e);
        },
    };
    let bytes = match encode_buffer(&buf, fmt, bg, false) {
        Ok(b) => b,
        Err(e) => {
            return Err(e);
        },
    };
    let (dir, file_name) = derive_single_output(base_dir, filename, fmt.extension());
    Ok(ConversionOutput { dir, file_name, bytes })
}

/// Batch-entry conversion: decode the bytes read from `path`, composite if
/// the target needs it (over white when no color is given), encode, and
/// derive the destination beside the source folder. Never fails for want of
/// a background: batch mode always resolves one.
pub fn convert_image_from_path(
    path: &str,
    file_bytes: &Vec<u8>,
    format: &str,
    bg_color: Option<&str>,
) -> (r: Result<ConversionOutput, ConvertError>)
    ensures
        r is Err && r->Err_0 is InvalidColor <==> !bg_color_ok(bg_color),
        r is Err && r->Err_0 is Decode <==> bg_color_ok(bg_color) && decoded_rgba(file_bytes@)
            is None,
        r is Err && r->Err_0 is UnsupportedFormat <==> bg_color_ok(bg_color) && decoded_rgba(
            file_bytes@,
        ) is Some && spec_parse_format(format@) is None,
        r is Err && r->Err_0 is Io <==> bg_color_ok(bg_color) && decoded_rgba(file_bytes@)
            is Some && spec_parse_format(format@) is Some && ({
            let t = decoded_rgba(file_bytes@)->0;
            !batch_path_ok(path@) || !spec_encoder_accepts(
                t.0,
                t.1,
                t.2,
                spec_parse_format(format@)->0,
            )
        }),
        r is Ok <==> bg_color_ok(bg_color) && decoded_rgba(file_bytes@) is Some
            && spec_parse_format(format@) is Some && batch_path_ok(path@) && ({
            let t = decoded_rgba(file_bytes@)->0;
            spec_encoded_rgba(t.0, t.1, t.2, spec_parse_format(format@)->0, spec_bg_of(bg_color), true) is Some
                && spec_encoder_accepts(t.0, t.1, t.2, spec_parse_format(format@)->0)
        }),
        r is Err ==> !(r->Err_0 is MissingBackground),
        r is Ok ==> {
            &&& bg_color_ok(bg_color)
            &&& batch_path_ok(path@)
            &&& decoded_rgba(file_bytes@) is Some
            &&& spec_parse_format(format@) is Some
            &&& ({
                let t = decoded_rgba(file_bytes@)->0;
                Some(r->Ok_0.bytes@) == spec_encoded_rgba(t.0, t.1, t.2, spec_parse_format(format@)->0, spec_bg_of(bg_color), true)
            })
            &&& r->Ok_0.dir@ == spec_batch_dir(path@)
            &&& r->Ok_0.file_name@ == spec_batch_file_name(
                spec_path_file_name(path@),
                spec_parse_format(format@)->0.spec_extension(),
            )
        },
{
    let bg: Option<Rgb> = match bg_color {
        Some(h) => match parse_hex_color(h) {
            Ok(c) => Some(c),
            Err(e) => {
                return Err(e);
            },
        },
        None => None,
    };
    let buf = match decode(file_bytes.as_slice()) {
        Ok(b) => b,
        Err(e) => {
            return Err(e);
        },
    };
    let fmt = match parse_format(format) {
        Ok(f) => f,
        Err(e) => {
            return Err(e);
        },
    };
    let (dir, file_name) = match derive_batch_output(path, fmt.extension()) {
        Ok(p) => p,
        Err(e) => {
            return Err(e);
        },
    };
    let bytes = match encode_buffer(&buf, fmt, bg, true) {
        Ok(b) => b,
        Err(e) => {
            return Err(e);
        },
    };
    Ok(ConversionOutput { dir, file_name, bytes })
}

} // verus!
