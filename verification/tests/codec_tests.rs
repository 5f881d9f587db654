use image_converter::codec::{decode, encode_jpeg, encode_png, encode_webp};
use image_converter::error::ConvertError;
use image_converter::pixel::{Channels, PixelBuffer};

fn sample_rgba() -> PixelBuffer {
    PixelBuffer {
        width: 2,
        height: 2,
        channels: Channels::Rgba,
        data: vec![
            255, 0, 0, 255, 0, 255, 0, 128, //
            0, 0, 255, 0, 9, 10, 11, 200,
        ],
    }
}

#[test]
fn png_round_trip_is_lossless() {
    // PNG is lossless: encoding and decoding again yields the pixels
    // bit-identically. This must not be asserted for JPEG or WebP.
    let buf = sample_rgba();
    let bytes = encode_png(&buf).expect("png encode");
    let back = decode(&bytes).expect("png decode");
    assert_eq!(back.width, buf.width);
    assert_eq!(back.height, buf.height);
    assert_eq!(back.channels, Channels::Rgba);
    assert_eq!(back.data, buf.data);
}

#[test]
fn png_bytes_carry_png_signature() {
    let bytes = encode_png(&sample_rgba()).expect("png encode");
    assert_eq!(&bytes[..8], &[0x89, b'P', b'N', b'G', b'\r', b'\n', 0x1A, b'\n']);
}

#[test]
fn jpeg_bytes_carry_jpeg_signature() {
    let rgb = PixelBuffer {
        width: 2,
        height: 1,
        channels: Channels::Rgb,
        data: vec![10, 20, 30, 40, 50, 60],
    };
    let bytes = encode_jpeg(&rgb).expect("jpeg encode");
    assert_eq!(&bytes[..2], &[0xFF, 0xD8]);
}

#[test]
fn webp_bytes_carry_riff_signature() {
    let bytes = encode_webp(&sample_rgba()).expect("webp encode");
    assert_eq!(&bytes[..4], b"RIFF");
    assert_eq!(&bytes[8..12], b"WEBP");
}

#[test]
fn webp_rejects_zero_dimensions() {
    let empty = PixelBuffer { width: 0, height: 0, channels: Channels::Rgba, data: vec![] };
    match encode_webp(&empty) {
        Err(ConvertError::Io(_)) => {},
        other => panic!("expected Io error, got {:?}", other),
    }
}

#[test]
fn png_rejects_zero_dimensions() {
    let empty = PixelBuffer { width: 0, height: 0, channels: Channels::Rgba, data: vec![] };
    match encode_png(&empty) {
        Err(ConvertError::Io(_)) => {},
        other => panic!("expected Io error, got {:?}", other),
    }
}

#[test]
fn jpeg_rejects_out_of_range_dimensions() {
    let empty = PixelBuffer { width: 0, height: 0, channels: Channels::Rgb, data: vec![] };
    match encode_jpeg(&empty) {
        Err(ConvertError::Io(_)) => {},
        other => panic!("expected Io error, got {:?}", other),
    }
    let wide = PixelBuffer {
        width: 65536,
        height: 1,
        channels: Channels::Rgb,
        data: vec![0; 65536 * 3],
    };
    match encode_jpeg(&wide) {
        Err(ConvertError::Io(_)) => {},
        other => panic!("expected Io error, got {:?}", other),
    }
}

#[test]
fn webp_rejects_oversize_dimensions() {
    let wide = PixelBuffer {
        width: 16384,
        height: 1,
        channels: Channels::Rgba,
        data: vec![0; 16384 * 4],
    };
    match encode_webp(&wide) {
        Err(ConvertError::Io(_)) => {},
        other => panic!("expected Io error, got {:?}", other),
    }
}

#[test]
fn jpeg_accepts_the_largest_size() {
    let tall = PixelBuffer {
        width: 1,
        height: 65535,
        channels: Channels::Rgb,
        data: vec![128; 65535 * 3],
    };
    assert!(encode_jpeg(&tall).is_ok());
}

#[test]
fn decode_rejects_garbage() {
    match decode(&[1, 2, 3, 4, 5, 6, 7, 8]) {
        Err(ConvertError::Decode(_)) => {},
        other => panic!("expected Decode error, got {:?}", other),
    }
}

#[test]
fn decode_reads_dimensions_from_content() {
    let buf = PixelBuffer {
        width: 3,
        height: 1,
        channels: Channels::Rgba,
        data: vec![1, 2, 3, 255, 4, 5, 6, 255, 7, 8, 9, 255],
    };
    let bytes = encode_png(&buf).expect("png encode");
    let back = decode(&bytes).expect("png decode");
    assert_eq!((back.width, back.height), (3, 1));
}
