//! In-memory pixel buffers: a flat byte sequence with known dimensions and
//! channel layout.

use vstd::prelude::*;

verus! {

/// The channel layout of a pixel buffer: three opaque channels, or three
/// color channels and one alpha channel.
#[derive(Debug, Clone, Copy, PartialEq, Eq, Structural)]
pub enum Channels {
    Rgb,
    Rgba,
}

impl Channels {
    /// How many bytes one pixel occupies.
    pub open spec fn spec_count(self) -> nat {
        match self {
            Channels::Rgb => 3,
            Channels::Rgba => 4,
        }
    }
}

/// An 8-bit-per-channel image held in memory: `width * height` pixels, laid
/// out row-major as `data`, each pixel `channels.spec_count()` bytes.
#[derive(Debug, Clone, PartialEq, Eq)]
pub struct PixelBuffer {
    pub width: u32,
    pub height: u32,
    pub channels: Channels,
    pub data: Vec<u8>,
}

impl PixelBuffer {
    /// The one invariant of a pixel buffer: the byte sequence holds exactly
    /// one entry per channel of every pixel.
    pub open spec fn wf(self) -> bool {
        self.data@.len() == self.width as nat * self.height as nat * self.channels.spec_count()
    }
}

} // verus!
