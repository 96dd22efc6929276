use vstd::prelude::*;
use vstd::pervasive::VecAdditionalExecFns;

use crate::dims::{lemma_frame_pixels, FRAME_HEIGHT, FRAME_PIXELS, FRAME_WIDTH};

verus! {

/// Linear index of the pixel at (x, y) in row-major pixel memory.
pub open spec fn pixel_index(x: int, y: int) -> int {
    y * FRAME_WIDTH + x
}

/// The directly addressable pixel memory forming the displayed image, one
/// packed color value per pixel, rows stored one after another.
pub struct FrameBuffer {
    pub data: Vec<u16>,
}

impl FrameBuffer {
    /// The memory covers the whole frame.
    pub open spec fn wf(self) -> bool {
        self.data@.len() == FRAME_WIDTH as int * FRAME_HEIGHT as int
    }

    /// A frame of all-zero pixels.
    pub fn new() -> (fb: Self)
        ensures
            fb.wf(),
            forall|i: int| 0 <= i < fb.data@.len() ==> fb.data@[i] == 0,
    {
        let mut data: Vec<u16> = Vec::new();
        while data.len() < FRAME_PIXELS
            invariant
                data@.len() <= FRAME_PIXELS,
                forall|i: int| 0 <= i < data@.len() ==> data@[i] == 0,
            decreases FRAME_PIXELS - data@.len(),
        {
            data.push(0);
        }
        proof {
            lemma_frame_pixels();
        }
        FrameBuffer { data }
    }

    /// Commits one packed color value at an in-bounds coordinate: exactly one
    /// pixel changes, every other coordinate keeps its value. Validation is
    /// the caller's duty; writing an in-bounds pixel cannot fail.
    pub fn plot(&mut self, x: u16, y: u16, color: u16)
        requires
            old(self).wf(),
            x < FRAME_WIDTH,
            y < FRAME_HEIGHT,
        ensures
            final(self).wf(),
            final(self).data@ == old(self).data@.update(pixel_index(x as int, y as int), color),
    {
        let idx: usize = y as usize * FRAME_WIDTH as usize + x as usize;
        self.data.set(idx, color);
    }

    /// Reads back one in-bounds pixel.
    pub fn pixel(&self, x: u16, y: u16) -> (c: u16)
        requires
            self.wf(),
            x < FRAME_WIDTH,
            y < FRAME_HEIGHT,
        ensures
            c == self.data@[pixel_index(x as int, y as int)],
    {
        let idx: usize = y as usize * FRAME_WIDTH as usize + x as usize;
        self.data[idx]
    }
}

/// Plotting the same color at the same coordinate twice is indistinguishable
/// from plotting it once.
pub proof fn lemma_plot_idempotent(s: Seq<u16>, i: int, color: u16)
    requires
        0 <= i < s.len(),
    ensures
        s.update(i, color).update(i, color) == s.update(i, color),
{
    assert(s.update(i, color).update(i, color) =~= s.update(i, color));
}

} // verus!
