use reticle::cursor::Cursor;
use reticle::driver::tick;
use reticle::framebuffer::FrameBuffer;
use reticle::input::{sample, RawKeys, StepVector};
use reticle::overlay::OverlayTable;

fn keys(up: bool, down: bool, left: bool, right: bool, action: bool) -> RawKeys {
    RawKeys { up, down, left, right, action }
}

#[test]
fn center_is_frame_center() {
    let c = Cursor::center();
    assert_eq!(c.x, 120);
    assert_eq!(c.y, 80);
}

#[test]
fn step_commits_in_bounds_candidate() {
    let mut c = Cursor::center();
    let moved = c.step(StepVector { dx: 1, dy: 0 });
    assert!(moved);
    assert_eq!((c.x, c.y), (121, 80));
    let moved = c.step(StepVector { dx: -1, dy: -1 });
    assert!(moved);
    assert_eq!((c.x, c.y), (120, 79));
    let moved = c.step(StepVector { dx: 0, dy: 0 });
    assert!(moved);
    assert_eq!((c.x, c.y), (120, 79));
}

#[test]
fn step_rejects_out_of_bounds_candidate() {
    let mut c = Cursor { x: 0, y: 0 };
    let moved = c.step(StepVector { dx: -1, dy: 0 });
    assert!(!moved);
    assert_eq!((c.x, c.y), (0, 0));
    let moved = c.step(StepVector { dx: 0, dy: -1 });
    assert!(!moved);
    assert_eq!((c.x, c.y), (0, 0));
}

#[test]
fn diagonal_step_rejected_whole_at_right_edge() {
    // room below, but the x axis would leave the frame: no movement at all
    let mut c = Cursor { x: 239, y: 50 };
    let moved = c.step(StepVector { dx: 1, dy: 1 });
    assert!(!moved);
    assert_eq!((c.x, c.y), (239, 50));
}

#[test]
fn walk_right_from_center_stops_at_edge() {
    let mut c = Cursor::center();
    for _ in 0..120 {
        c.step(StepVector { dx: 1, dy: 0 });
    }
    assert_eq!((c.x, c.y), (239, 80));
    let moved = c.step(StepVector { dx: 1, dy: 0 });
    assert!(!moved);
    assert_eq!((c.x, c.y), (239, 80));
}

#[test]
fn sample_translates_axis_signs() {
    let (s, a) = sample(&keys(false, false, false, true, false));
    assert_eq!((s.dx, s.dy), (1, 0));
    assert!(!a);
    let (s, _) = sample(&keys(true, false, true, false, false));
    assert_eq!((s.dx, s.dy), (-1, -1));
    let (s, _) = sample(&keys(false, true, false, false, false));
    assert_eq!((s.dx, s.dy), (0, 1));
    // opposing lines cancel
    let (s, a) = sample(&keys(true, true, true, true, true));
    assert_eq!((s.dx, s.dy), (0, 0));
    assert!(a);
}

#[test]
fn tick_moves_presents_and_plots() {
    let mut c = Cursor::center();
    let mut ov = OverlayTable::new();
    let mut fb = FrameBuffer::new();
    let moved = tick(&mut c, &mut ov, &mut fb, &keys(false, false, false, true, true), 0x7C00);
    assert!(moved);
    assert_eq!((c.x, c.y), (121, 80));
    assert_eq!(ov.slot.row, ((80 + 253) % 256) as u8);
    assert_eq!(ov.slot.col, (121 + 509) % 512);
    assert_eq!(ov.slot.tile, 514);
    assert!(ov.slot.bpp8);
    assert_eq!(fb.pixel(121, 80), 0x7C00);
}

#[test]
fn rejected_tick_changes_nothing() {
    let mut c = Cursor { x: 239, y: 80 };
    let mut ov = OverlayTable::new();
    let mut fb = FrameBuffer::new();
    let moved = tick(&mut c, &mut ov, &mut fb, &keys(false, false, false, true, true), 0x7C00);
    assert!(!moved);
    assert_eq!((c.x, c.y), (239, 80));
    // overlay record still the zeroed startup record, framebuffer untouched
    assert_eq!(ov.slot.row, 0);
    assert_eq!(ov.slot.col, 0);
    assert_eq!(ov.slot.tile, 0);
    assert!(!ov.slot.bpp8);
    for y in 0..160 {
        for x in 0..240 {
            assert_eq!(fb.pixel(x, y), 0);
        }
    }
}
