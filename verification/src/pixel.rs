//! Pixel formats offered during buffer-format negotiation.

use vstd::prelude::*;

verus! {

/// A pixel format carried by the server's buffer-format event.
///
/// Only the two mandatory 32-bit shared-memory formats are supported by
/// this client; every other format code is carried as `Other` and ignored
/// during negotiation.
#[derive(Clone, Copy, Debug, PartialEq, Eq, Structural)]
pub enum PixelFormat {
    Argb8888,
    Xrgb8888,
    Other(u32),
}

impl PixelFormat {
    /// Bytes per pixel, for the formats this client can lay out in memory.
    pub open spec fn bytes_per_pixel_spec(self) -> Option<u32> {
        match self {
            PixelFormat::Argb8888 => Some(4u32),
            PixelFormat::Xrgb8888 => Some(4u32),
            PixelFormat::Other(_) => None,
        }
    }

    pub fn bytes_per_pixel(self) -> (r: Option<u32>)
        ensures
            r == self.bytes_per_pixel_spec(),
    {
        match self {
            PixelFormat::Argb8888 => Some(4u32),
            PixelFormat::Xrgb8888 => Some(4u32),
            PixelFormat::Other(_) => None,
        }
    }

    /// Whether this client can consume a buffer in this format.
    pub open spec fn supported_spec(self) -> bool {
        self.bytes_per_pixel_spec() is Some
    }

    pub fn supported(self) -> (r: bool)
        ensures
            r == self.supported_spec(),
    {
        match self {
            PixelFormat::Argb8888 => true,
            PixelFormat::Xrgb8888 => true,
            PixelFormat::Other(_) => false,
        }
    }
}

} // verus!
