use vstd::prelude::*;

use crate::cursor::Cursor;
use crate::dims::in_frame;
use crate::framebuffer::{pixel_index, FrameBuffer};
use crate::input::{sample, step_of, RawKeys};
use crate::overlay::{presented, OverlayTable};

verus! {

/// One full iteration of the main loop, after the wait primitive resumed:
/// translate the raw reading, advance the cursor, and on success present the
/// overlay at the new position and, when the action flag is set, commit one
/// `stamp`-colored pixel there. On a rejected step nothing at all changes —
/// neither the overlay record nor the framebuffer.
pub fn tick(
    cursor: &mut Cursor,
    overlay: &mut OverlayTable,
    fb: &mut FrameBuffer,
    keys: &RawKeys,
    stamp: u16,
) -> (moved: bool)
    requires
        old(cursor).wf(),
        old(fb).wf(),
    ensures
        final(cursor).wf(),
        final(fb).wf(),
        *final(cursor) == old(cursor).stepped(step_of(*keys)),
        moved == in_frame(
            old(cursor).x + step_of(*keys).dx,
            old(cursor).y + step_of(*keys).dy,
        ),
        *final(overlay) == (if moved {
            presented(*old(overlay), *final(cursor))
        } else {
            *old(overlay)
        }),
        final(fb).data@ == (if moved && keys.action {
            old(fb).data@.update(
                pixel_index(final(cursor).x as int, final(cursor).y as int),
                stamp,
            )
        } else {
            old(fb).data@
        }),
{
    let (delta, action) = sample(keys);
    let moved = cursor.step(delta);
    if moved {
        overlay.present(cursor);
        if action {
            fb.plot(cursor.x, cursor.y, stamp);
        }
    }
    moved
}

} // verus!
