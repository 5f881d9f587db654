use image_converter::codec::encode_png;
use image_converter::convert::{convert_image, convert_image_from_path};
use image_converter::error::ConvertError;
use image_converter::pixel::{Channels, PixelBuffer};

fn transparent_png() -> Vec<u8> {
    let buf = PixelBuffer {
        width: 2,
        height: 1,
        channels: Channels::Rgba,
        data: vec![200, 100, 50, 0, 10, 20, 30, 255],
    };
    encode_png(&buf).expect("png encode")
}

fn opaque_png() -> Vec<u8> {
    let buf = PixelBuffer {
        width: 2,
        height: 1,
        channels: Channels::Rgba,
        data: vec![200, 100, 50, 255, 10, 20, 30, 255],
    };
    encode_png(&buf).expect("png encode")
}

#[test]
fn single_mode_transparent_jpeg_needs_background() {
    let r = convert_image(&transparent_png(), "img.png", "jpg", None, "/desk");
    assert_eq!(r.unwrap_err(), ConvertError::MissingBackground);
}

#[test]
fn missing_background_message() {
    assert_eq!(
        ConvertError::MissingBackground.message(),
        "Image has transparency. Please provide a background color.".to_string()
    );
}

#[test]
fn batch_mode_transparent_jpeg_defaults_to_white() {
    let r = convert_image_from_path("/a/b/img.png", &transparent_png(), "jpg", None);
    let out = r.expect("batch conversion succeeds with white background");
    assert_eq!(out.dir, "/a/b_converted");
    assert_eq!(out.file_name, "img.jpg");
    assert_eq!(&out.bytes[..2], &[0xFF, 0xD8]);
}

#[test]
fn single_mode_transparent_jpeg_with_color_succeeds() {
    let r = convert_image(&transparent_png(), "img.png", "jpg", Some("#ff8000"), "/desk");
    let out = r.expect("conversion with explicit background succeeds");
    assert_eq!(out.dir, "/desk/ImageConverter");
    assert_eq!(out.file_name, "img_converted.jpg");
    assert_eq!(&out.bytes[..2], &[0xFF, 0xD8]);
}

#[test]
fn single_mode_opaque_jpeg_needs_no_background() {
    let r = convert_image(&opaque_png(), "img.png", "jpg", None, "/desk");
    assert!(r.is_ok());
}

#[test]
fn invalid_color_beats_everything() {
    let r = convert_image(&transparent_png(), "img.png", "jpg", Some("nope"), "/desk");
    assert_eq!(r.unwrap_err(), ConvertError::InvalidColor);
}

#[test]
fn unknown_format_is_unsupported() {
    let r = convert_image(&opaque_png(), "img.png", "gif", None, "/desk");
    assert_eq!(r.unwrap_err(), ConvertError::UnsupportedFormat);
    assert_eq!(
        ConvertError::UnsupportedFormat.message(),
        "Unsupported output format".to_string()
    );
}

#[test]
fn undecodable_bytes_fail_with_decode() {
    let r = convert_image(&vec![0, 1, 2, 3], "img.png", "png", None, "/desk");
    match r {
        Err(ConvertError::Decode(_)) => {},
        other => panic!("expected Decode error, got {:?}", other),
    }
}

#[test]
fn bad_batch_path_fails_with_io() {
    let r = convert_image_from_path("no-slashes.png", &opaque_png(), "png", None);
    match r {
        Err(ConvertError::Io(_)) => {},
        other => panic!("expected Io error, got {:?}", other),
    }
}

#[test]
fn single_output_path_derivation() {
    let r = convert_image(&opaque_png(), "photo.jpg", "png", None, "/desk");
    let out = r.expect("conversion succeeds");
    assert_eq!(out.dir, "/desk/ImageConverter");
    assert_eq!(out.file_name, "photo_converted.png");
    assert_eq!(out.output_path(), "/desk/ImageConverter/photo_converted.png");
}

#[test]
fn batch_output_path_derivation() {
    let r = convert_image_from_path("/a/b/photo.jpg", &opaque_png(), "webp", None);
    let out = r.expect("conversion succeeds");
    assert_eq!(out.dir, "/a/b_converted");
    assert_eq!(out.file_name, "photo.webp");
    assert_eq!(out.output_path(), "/a/b_converted/photo.webp");
}

#[test]
fn png_target_keeps_alpha() {
    // Converting to PNG never composites: decoding the output again shows
    // the translucent pixel untouched.
    let r = convert_image(&transparent_png(), "img.png", "png", None, "/desk");
    let out = r.expect("png conversion succeeds");
    let back = image_converter::codec::decode(&out.bytes).expect("decode");
    assert_eq!(back.data, vec![200, 100, 50, 0, 10, 20, 30, 255]);
}

#[test]
fn jpeg_and_jpg_tags_are_the_same_format() {
    let a = convert_image(&opaque_png(), "img.png", "jpg", None, "/desk").unwrap();
    let b = convert_image(&opaque_png(), "img.png", "jpeg", None, "/desk").unwrap();
    assert_eq!(a.bytes, b.bytes);
    assert_eq!(a.file_name, "img_converted.jpg");
    assert_eq!(b.file_name, "img_converted.jpg");
}
