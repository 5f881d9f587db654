use image_converter::resolve::{derive_batch_output, derive_single_output, file_stem, find_last};
use image_converter::thumbs::{extension_of, mime_for_extension, thumbnail_for};

#[test]
fn stem_is_everything_before_the_first_dot() {
    assert_eq!(file_stem("photo.jpg"), "photo");
    assert_eq!(file_stem("archive.tar.gz"), "archive");
    assert_eq!(file_stem("noext"), "noext");
    assert_eq!(file_stem(".hidden"), "");
    assert_eq!(file_stem(""), "");
}

#[test]
fn find_last_finds_the_last_occurrence() {
    assert_eq!(find_last("/a/b/c.png", '/'), Some(4));
    assert_eq!(find_last("abc", '/'), None);
    assert_eq!(find_last("a.b.c", '.'), Some(3));
}

#[test]
fn single_mode_destination() {
    let (dir, name) = derive_single_output("/home/u/Desktop", "photo.jpg", "png");
    assert_eq!(dir, "/home/u/Desktop/ImageConverter");
    assert_eq!(name, "photo_converted.png");
}

#[test]
fn batch_mode_destination() {
    let (dir, name) = derive_batch_output("/a/b/photo.jpg", "webp").expect("path ok");
    assert_eq!(dir, "/a/b_converted");
    assert_eq!(name, "photo.webp");
}

#[test]
fn batch_mode_rejects_rootless_paths() {
    assert!(derive_batch_output("photo.jpg", "png").is_err());
    assert!(derive_batch_output("/photo.jpg", "png").is_err());
    assert!(derive_batch_output("/a/b/", "png").is_err());
}

#[test]
fn extension_is_everything_after_the_last_dot() {
    assert_eq!(extension_of("a.png"), Some("png"));
    assert_eq!(extension_of("a.tar.gz"), Some("gz"));
    assert_eq!(extension_of("noext"), None);
    assert_eq!(extension_of(".png"), None);
}

#[test]
fn mime_types_for_image_extensions() {
    assert_eq!(mime_for_extension("png"), Some("image/png"));
    assert_eq!(mime_for_extension("jpg"), Some("image/jpeg"));
    assert_eq!(mime_for_extension("jpeg"), Some("image/jpeg"));
    assert_eq!(mime_for_extension("webp"), Some("image/webp"));
    assert_eq!(mime_for_extension("txt"), None);
    assert_eq!(mime_for_extension("PNG"), None);
}

#[test]
fn thumbnail_data_url_is_base64_of_the_bytes() {
    let t = thumbnail_for("x.png", &b"hello".to_vec()).expect("is an image");
    assert_eq!(t.name, "x.png");
    assert_eq!(t.data_url, "data:image/png;base64,aGVsbG8=");
}

#[test]
fn thumbnail_skips_non_images() {
    assert!(thumbnail_for("x.txt", &b"hello".to_vec()).is_none());
    assert!(thumbnail_for("x", &b"hello".to_vec()).is_none());
}
