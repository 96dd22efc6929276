use reticle::colors::stamp_color;
use reticle::config::{DisplayControl, DisplayStatus};
use reticle::cursor::Cursor;
use reticle::framebuffer::FrameBuffer;
use reticle::overlay::OverlayTable;
use reticle::palette::{register_palette, PaletteMemory};
use reticle::refresh::RefreshFlag;

#[test]
fn present_twice_equals_present_once() {
    let p = Cursor { x: 57, y: 19 };
    let mut once = OverlayTable::new();
    once.present(&p);
    let mut twice = OverlayTable::new();
    twice.present(&p);
    twice.present(&p);
    assert_eq!(once.slot.row, twice.slot.row);
    assert_eq!(once.slot.col, twice.slot.col);
    assert_eq!(once.slot.bpp8, twice.slot.bpp8);
    assert_eq!(once.slot.tile, twice.slot.tile);
}

#[test]
fn present_centers_overlay_on_cursor() {
    let mut ov = OverlayTable::new();
    ov.present(&Cursor { x: 120, y: 80 });
    assert_eq!(ov.slot.row, 77); // 80 - 3
    assert_eq!(ov.slot.col, 117); // 120 - 3
    assert_eq!(ov.slot.tile, 514);
    assert!(ov.slot.bpp8);
    assert_eq!(ov.slot.attr0(), 0x204D); // row | 8bpp flag in bit 13
    assert_eq!(ov.slot.attr1(), 117);
    assert_eq!(ov.slot.attr2(), 514);
}

#[test]
fn present_near_origin_wraps_fields() {
    let mut ov = OverlayTable::new();
    ov.present(&Cursor { x: 0, y: 0 });
    // a -3 offset wraps into the 8-bit row and 9-bit column fields
    assert_eq!(ov.slot.row, 253);
    assert_eq!(ov.slot.col, 509);
}

#[test]
fn refresh_flag_lifecycle() {
    let mut f = RefreshFlag::new();
    assert!(!f.try_take_refresh()); // cleared at startup
    assert_eq!(f.handle_irq(0x1), Some(0x1)); // refresh fired: ack same bit
    assert!(f.try_take_refresh()); // wait resumes ...
    assert!(!f.try_take_refresh()); // ... and the flag reads cleared
    assert_eq!(f.handle_irq(0x0), None); // no source at all
    assert!(!f.try_take_refresh());
    assert_eq!(f.handle_irq(0x2), None); // spurious wakeup, other source
    assert!(!f.try_take_refresh()); // never set spontaneously
    assert_eq!(f.handle_irq(0x3), Some(0x1)); // refresh among others
    assert!(f.try_take_refresh());
}

#[test]
fn palette_registrar_writes_named_colors_in_order() {
    let mut pal = PaletteMemory::new();
    pal.data[0] = 0x1234; // pre-existing transparent entry must survive
    register_palette(&mut pal);
    assert_eq!(pal.entry(0), 0x1234);
    let expected = [
        0x0000, 0x001F, 0x03E0, 0x7C00, 0x03FF, 0x7C1F, 0x7FE0, 0x7FFF,
    ];
    for (i, want) in expected.iter().enumerate() {
        assert_eq!(pal.entry(i + 1), *want);
    }
    for i in 9..256 {
        assert_eq!(pal.entry(i), 0);
    }
}

#[test]
fn display_words_serialize_to_register_layout() {
    let startup = DisplayControl::bitmap_startup();
    assert_eq!(startup.raw(), 0x14C3); // mode 3, 1-D overlay, blank, bg, overlay
    assert_eq!(startup.with_blank_cleared().raw(), 0x1443);
    assert_eq!(DisplayStatus { refresh_irq_enabled: true }.raw(), 0x8);
    assert_eq!(DisplayStatus { refresh_irq_enabled: false }.raw(), 0x0);
}

#[test]
fn stamp_color_is_full_blue() {
    assert_eq!(stamp_color(), 0x7C00);
}

#[test]
fn plot_writes_exactly_one_pixel() {
    let mut fb = FrameBuffer::new();
    let red = 0x001F;
    fb.plot(50, 50, red);
    for y in 0..160 {
        for x in 0..240 {
            if (x, y) == (50, 50) {
                assert_eq!(fb.pixel(x, y), red);
            } else {
                assert_eq!(fb.pixel(x, y), 0);
            }
        }
    }
    // plotting the same color at the same coordinate again changes nothing
    fb.plot(50, 50, red);
    for y in 0..160 {
        for x in 0..240 {
            if (x, y) == (50, 50) {
                assert_eq!(fb.pixel(x, y), red);
            } else {
                assert_eq!(fb.pixel(x, y), 0);
            }
        }
    }
}
