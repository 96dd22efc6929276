use vstd::prelude::*;

use crate::dims::{in_frame, FRAME_HEIGHT, FRAME_WIDTH};
use crate::input::StepVector;

verus! {

/// The cursor's position. It is never published outside its own validation
/// step in an invalid state: every value handed out satisfies [`Cursor::wf`].
pub struct Cursor {
    pub x: u16,
    pub y: u16,
}

impl Cursor {
    /// The position lies inside the frame.
    pub open spec fn wf(self) -> bool {
        in_frame(self.x as int, self.y as int)
    }

    /// The state-machine transition: the offset position when it lies inside
    /// the frame, the old position unchanged otherwise. Both axes are
    /// validated jointly — a step that would leave either axis out of bounds
    /// is discarded whole, never clamped per axis.
    pub open spec fn stepped(self, delta: StepVector) -> Cursor {
        if in_frame(self.x + delta.dx, self.y + delta.dy) {
            Cursor { x: (self.x + delta.dx) as u16, y: (self.y + delta.dy) as u16 }
        } else {
            self
        }
    }

    /// The initial position: the center of the frame, by floor division.
    pub fn center() -> (c: Cursor)
        ensures
            c.wf(),
            c.x == FRAME_WIDTH / 2,
            c.y == FRAME_HEIGHT / 2,
    {
        Cursor { x: FRAME_WIDTH / 2, y: FRAME_HEIGHT / 2 }
    }

    /// Applies one step vector: commits the candidate position and reports
    /// success when it is in bounds, otherwise leaves the position unchanged
    /// and reports the step as rejected (an expected outcome, not an error).
    pub fn step(&mut self, delta: StepVector) -> (moved: bool)
        requires
            old(self).wf(),
            delta.wf(),
        ensures
            *final(self) == old(self).stepped(delta),
            final(self).wf(),
            moved == in_frame(old(self).x + delta.dx, old(self).y + delta.dy),
    {
        let cx: i32 = self.x as i32 + delta.dx as i32;
        let cy: i32 = self.y as i32 + delta.dy as i32;
        if 0 <= cx && cx < FRAME_WIDTH as i32 && 0 <= cy && cy < FRAME_HEIGHT as i32 {
            self.x = cx as u16;
            self.y = cy as u16;
            true
        } else {
            false
        }
    }
}

/// For every in-bounds position and every unit step vector, the transition
/// yields either the offset position (when that is in bounds) or the same
/// position unchanged — never a value outside the frame.
pub proof fn lemma_step_in_bounds(p: Cursor, d: StepVector)
    requires
        p.wf(),
        d.wf(),
    ensures
        p.stepped(d).wf(),
        in_frame(p.x + d.dx, p.y + d.dy) ==> p.stepped(d).x == p.x + d.dx && p.stepped(d).y == p.y
            + d.dy,
        !in_frame(p.x + d.dx, p.y + d.dy) ==> p.stepped(d) == p,
{
}

/// Diagonal rejection: a (+1, +1) step taken at the right edge, with room
/// below, is discarded whole — the cursor does not move along y alone.
pub proof fn lemma_diagonal_rejected(p: Cursor, d: StepVector)
    requires
        p.wf(),
        d.dx == 1,
        d.dy == 1,
        p.x + 1 == FRAME_WIDTH,
        p.y + 1 < FRAME_HEIGHT,
    ensures
        p.stepped(d) == p,
{
}

} // verus!
