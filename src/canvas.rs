//! The placeholder picture every frame carries: two bands of fixed byte values.

use vstd::prelude::*;

verus! {

/// Byte value of the first band.
pub const TOP_BYTE: u8 = 255;

/// Byte value of the second band.
pub const BOTTOM_BYTE: u8 = 100;

/// Bytes in the first band of a `width` x `height` ARGB canvas: half of its pixels.
pub open spec fn split_point(width: u32, height: u32) -> int {
    width * height * 2
}

/// The byte at `index` of a filled `width` x `height` canvas.
pub open spec fn canvas_byte(width: u32, height: u32, index: int) -> u8 {
    if index < split_point(width, height) {
        TOP_BYTE
    } else {
        BOTTOM_BYTE
    }
}

/// Fills a `width` x `height` ARGB canvas (rows of `width * 4` bytes): the
/// first `width * height * 2` bytes with `TOP_BYTE`, the rest with `BOTTOM_BYTE`.
pub fn fill_canvas(canvas: &mut [u8], width: u32, height: u32)
    requires
        old(canvas)@.len() == width * height * 4,
    ensures
        final(canvas)@.len() == old(canvas)@.len(),
        forall|i: int|
            0 <= i < final(canvas)@.len() ==> final(canvas)@[i] == canvas_byte(width, height, i),
{
    let len = canvas.len();
    let split = len / 2;
    assert(split == split_point(width, height)) by (nonlinear_arith)
        requires
            len == width * height * 4,
            split == len / 2,
    ;
    let mut i: usize = 0;
    while i < len
        invariant
            len == canvas@.len(),
            split == split_point(width, height),
            i <= len,
            forall|j: int| 0 <= j < i ==> canvas@[j] == canvas_byte(width, height, j),
        decreases len - i,
    {
        if i < split {
            canvas[i] = TOP_BYTE;
        } else {
            canvas[i] = BOTTOM_BYTE;
        }
        i += 1;
    }
}

} // verus!
