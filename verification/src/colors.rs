use vstd::prelude::*;

use embedded_graphics::pixelcolor::Bgr555;
use embedded_graphics::pixelcolor::IntoStorage;

verus! {

/// Relies on `embedded_graphics::pixelcolor::Bgr555::new` and
/// `IntoStorage::into_storage`: each channel is masked to its five bits,
/// then red is stored in bits 0-4, green in bits 5-9 and blue in bits 10-14
/// of the packed halfword.
#[verifier::external_body]
pub(crate) fn bgr555_raw(red: u8, green: u8, blue: u8) -> (raw: u16)
    ensures
        raw == ((red & 0x1F) as u16) | (((green & 0x1F) as u16) << 5) | (((blue & 0x1F) as u16)
            << 10),
{
    Bgr555::new(red, green, blue).into_storage()
}

/// The packed color that the pixel plotter commits on an action tick:
/// full-intensity blue.
pub fn stamp_color() -> (c: u16)
    ensures
        c == 0x7C00,
{
    let c = bgr555_raw(0, 0, 31);
    proof {
        assert(((0u8 & 0x1F) as u16) | (((0u8 & 0x1F) as u16) << 5) | (((31u8 & 0x1F) as u16)
            << 10) == 0x7C00) by (bit_vector);
    }
    c
}

} // verus!
