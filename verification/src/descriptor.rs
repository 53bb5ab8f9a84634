//! Negotiated buffer geometry and the exact sizing of its backing memory.

use vstd::prelude::*;

use crate::pixel::PixelFormat;

verus! {

/// The geometry the server offered for a shared-memory capture buffer:
/// pixel format, size in pixels, and the byte stride of one row.
///
/// A descriptor is `valid_spec` when this client can actually back it:
/// positive size, a supported format, a stride that covers a full row,
/// and a total byte size that fits the pool-size field of the protocol
/// (a signed 32-bit count).
#[derive(Clone, Copy, Debug, PartialEq, Eq, Structural)]
pub struct BufferDescriptor {
    pub format: PixelFormat,
    pub width: u32,
    pub height: u32,
    pub stride: u32,
}

/// The request parameters for carving a buffer object out of a memory
/// pool: always at offset 0, with the descriptor's own geometry, carried
/// in the signed 32-bit fields the protocol uses.
#[derive(Clone, Copy, Debug, PartialEq, Eq, Structural)]
pub struct BufferParams {
    pub offset: i32,
    pub width: i32,
    pub height: i32,
    pub stride: i32,
    pub format: PixelFormat,
}

impl BufferDescriptor {
    /// The exact number of bytes of backing memory this descriptor needs.
    pub open spec fn byte_size_spec(self) -> int {
        self.stride * self.height
    }

    pub open spec fn valid_spec(self) -> bool {
        &&& self.width > 0
        &&& self.height > 0
        &&& self.format.bytes_per_pixel_spec() matches Some(bpp)
            && self.stride >= self.width * bpp
        &&& self.byte_size_spec() <= i32::MAX
    }

    pub fn new(format: PixelFormat, width: u32, height: u32, stride: u32) -> (d: BufferDescriptor)
        ensures
            d == (BufferDescriptor { format, width, height, stride }),
    {
        BufferDescriptor { format, width, height, stride }
    }

    /// `stride * height`, exactly; always representable in 64 bits.
    pub fn byte_size(&self) -> (n: u64)
        ensures
            n == self.byte_size_spec(),
    {
        proof {
            assert((self.stride as int) * (self.height as int) <= u64::MAX) by (nonlinear_arith)
                requires
                    self.stride <= u32::MAX,
                    self.height <= u32::MAX,
            ;
        }
        (self.stride as u64) * (self.height as u64)
    }

    pub fn valid(&self) -> (r: bool)
        ensures
            r == self.valid_spec(),
    {
        let bpp = match self.format.bytes_per_pixel() {
            Some(b) => b,
            None => {
                return false;
            },
        };
        if self.width == 0 || self.height == 0 {
            return false;
        }
        let row: u64 = (self.width as u64) * (bpp as u64);
        if (self.stride as u64) < row {
            return false;
        }
        let total: u64 = self.byte_size();
        total <= i32::MAX as u64
    }

    /// Every bound a valid descriptor guarantees on its raw fields.
    pub proof fn lemma_valid_bounds(self)
        requires
            self.valid_spec(),
        ensures
            self.width <= i32::MAX,
            self.height <= i32::MAX,
            self.stride <= i32::MAX,
            0 <= self.byte_size_spec() <= i32::MAX,
    {
        let bpp = self.format.bytes_per_pixel_spec().unwrap();
        assert(self.stride <= self.stride * self.height) by (nonlinear_arith)
            requires
                self.height >= 1,
                self.stride >= 0,
        ;
        assert(self.width * bpp <= self.stride);
        assert(self.height <= self.stride * self.height) by (nonlinear_arith)
            requires
                self.stride >= 1,
                self.height >= 0,
        ;
        assert(self.stride >= 1) by (nonlinear_arith)
            requires
                self.stride >= self.width * bpp,
                self.width >= 1,
                bpp == 4,
        ;
        assert(self.byte_size_spec() >= 0) by (nonlinear_arith)
            requires
                self.stride >= 0,
                self.height >= 0,
        ;
    }

    /// The pool size handed to the memory-pool factory: the exact byte
    /// size, as the protocol's signed 32-bit count.
    pub fn pool_size(&self) -> (n: i32)
        requires
            self.valid_spec(),
        ensures
            n == self.byte_size_spec(),
    {
        proof {
            self.lemma_valid_bounds();
        }
        let total: u64 = self.byte_size();
        total as i32
    }

    /// The buffer-object request parameters: offset 0 and this
    /// descriptor's geometry, unchanged.
    pub fn buffer_params(&self) -> (p: BufferParams)
        requires
            self.valid_spec(),
        ensures
            p.offset == 0,
            p.width == self.width,
            p.height == self.height,
            p.stride == self.stride,
            p.format == self.format,
    {
        proof {
            self.lemma_valid_bounds();
        }
        BufferParams {
            offset: 0,
            width: self.width as i32,
            height: self.height as i32,
            stride: self.stride as i32,
            format: self.format,
        }
    }
}

} // verus!
