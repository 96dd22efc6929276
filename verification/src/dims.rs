use vstd::prelude::*;

verus! {

/// Width of the fixed-resolution bitmap frame, in pixels.
pub const FRAME_WIDTH: u16 = 240;

/// Height of the fixed-resolution bitmap frame, in pixels.
pub const FRAME_HEIGHT: u16 = 160;

/// Number of pixels in the frame: `FRAME_WIDTH * FRAME_HEIGHT`.
pub const FRAME_PIXELS: usize = 240 * 160;

/// The pixel count is the product of the two dimensions.
pub proof fn lemma_frame_pixels()
    ensures
        FRAME_PIXELS == FRAME_WIDTH as int * FRAME_HEIGHT as int,
{
}

/// The valid coordinate domain for the cursor and for pixel plots:
/// `0 <= x < FRAME_WIDTH` and `0 <= y < FRAME_HEIGHT`.
pub open spec fn in_frame(x: int, y: int) -> bool {
    0 <= x < FRAME_WIDTH && 0 <= y < FRAME_HEIGHT
}

} // verus!
