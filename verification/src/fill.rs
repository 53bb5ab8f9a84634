//! The placeholder pixel fill for the shared-memory region.

use vstd::prelude::*;

verus! {

/// The placeholder pixel: opaque white in a 32-bit-per-pixel format.
pub const WHITE_PIXEL: u32 = 0xFFFF_FFFF;

/// The little-endian 32-bit word starting at byte `4 * j` of `s`.
pub open spec fn le_word_at(s: Seq<u8>, j: int) -> int {
    s[4 * j] + s[4 * j + 1] * 0x100 + s[4 * j + 2] * 0x1_0000 + s[4 * j + 3] * 0x100_0000
}

/// The placeholder contents of a shared-memory region of `len` bytes:
/// every byte is 0xFF, so every complete 4-byte little-endian word reads
/// as the opaque-white pixel.
pub fn placeholder_bytes(len: usize) -> (r: Vec<u8>)
    ensures
        r@.len() == len,
        forall|k: int| 0 <= k < len ==> r@[k] == 0xFFu8,
        forall|j: int| 0 <= j < len as int / 4 ==> le_word_at(r@, j) == WHITE_PIXEL,
{
    let mut r: Vec<u8> = Vec::new();
    let mut i: usize = 0;
    while i < len
        invariant
            i <= len,
            r@.len() == i,
            forall|k: int| 0 <= k < i ==> r@[k] == 0xFFu8,
        decreases len - i,
    {
        r.push(0xFF);
        i += 1;
    }
    proof {
        assert forall|j: int| 0 <= j < len as int / 4 implies le_word_at(r@, j)
            == WHITE_PIXEL by {
            assert(r@[4 * j] == 0xFFu8);
            assert(r@[4 * j + 1] == 0xFFu8);
            assert(r@[4 * j + 2] == 0xFFu8);
            assert(r@[4 * j + 3] == 0xFFu8);
        }
    }
    r
}

} // verus!
