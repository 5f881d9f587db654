use image_converter::color::Rgb;
use image_converter::pixel::{Channels, PixelBuffer};

fn rgba_buffer(width: u32, height: u32, data: Vec<u8>) -> PixelBuffer {
    assert_eq!(data.len(), (width * height * 4) as usize);
    PixelBuffer { width, height, channels: Channels::Rgba, data }
}

#[test]
fn opaque_composite_equals_drop_alpha() {
    // Every alpha is 255: compositing must be bit-identical to dropping
    // the alpha channel, whatever the background.
    let buf = rgba_buffer(2, 2, vec![
        1, 2, 3, 255, 100, 150, 200, 255, //
        7, 8, 9, 255, 250, 251, 252, 255,
    ]);
    let over_black = buf.composite_over(Rgb { r: 0, g: 0, b: 0 });
    let over_white = buf.composite_over(Rgb { r: 255, g: 255, b: 255 });
    let dropped = buf.drop_alpha();
    assert_eq!(over_black.data, dropped.data);
    assert_eq!(over_white.data, dropped.data);
    assert_eq!(dropped.data, vec![1, 2, 3, 100, 150, 200, 7, 8, 9, 250, 251, 252]);
    assert_eq!(over_black.channels, Channels::Rgb);
}

#[test]
fn transparent_pixel_over_white_is_white() {
    let buf = rgba_buffer(1, 1, vec![12, 34, 56, 0]);
    let out = buf.composite_over(Rgb { r: 255, g: 255, b: 255 });
    assert_eq!(out.data, vec![255, 255, 255]);
}

#[test]
fn opaque_pixel_keeps_source_rgb() {
    let buf = rgba_buffer(1, 1, vec![12, 34, 56, 255]);
    let out = buf.composite_over(Rgb { r: 0, g: 255, b: 7 });
    assert_eq!(out.data, vec![12, 34, 56]);
}

#[test]
fn half_alpha_is_within_one_of_midpoint() {
    let buf = rgba_buffer(1, 1, vec![0, 255, 100, 128]);
    let bg = Rgb { r: 255, g: 0, b: 0 };
    let out = buf.composite_over(bg);
    let mids = [(0u8, 255u8), (255u8, 0u8), (100u8, 0u8)];
    for (i, (src, bgc)) in mids.iter().enumerate() {
        let mid2 = *src as i32 + *bgc as i32;
        let got2 = 2 * out.data[i] as i32;
        assert!((got2 - mid2).abs() <= 2, "channel {i}: {got2} vs {mid2}");
    }
    // Exact values of the rounded integer blend.
    assert_eq!(out.data, vec![127, 128, 50]);
}

#[test]
fn has_transparency_detects_any_translucent_pixel() {
    let opaque = rgba_buffer(2, 1, vec![1, 2, 3, 255, 4, 5, 6, 255]);
    assert!(!opaque.has_transparency());
    let translucent = rgba_buffer(2, 1, vec![1, 2, 3, 255, 4, 5, 6, 254]);
    assert!(translucent.has_transparency());
}

#[test]
fn add_alpha_interleaves_opaque_alpha() {
    let buf = PixelBuffer {
        width: 2,
        height: 1,
        channels: Channels::Rgb,
        data: vec![1, 2, 3, 4, 5, 6],
    };
    let out = buf.add_alpha();
    assert_eq!(out.channels, Channels::Rgba);
    assert_eq!(out.data, vec![1, 2, 3, 255, 4, 5, 6, 255]);
}
