//! A verified image-conversion engine: format-aware decoding, alpha-aware
//! compositing over a background color, re-encoding to PNG, JPEG or WebP,
//! and derivation of output paths, with a batch driver that reports
//! per-file progress and never aborts the whole batch on one failure.

pub mod batch;
pub mod codec;
pub mod color;
pub mod composite;
pub mod convert;
pub mod error;
pub mod format;
pub mod pixel;
pub mod resolve;
pub mod thumbs;

pub use color::Rgb;
pub use color::parse_hex_color;
pub use error::ConvertError;
