use vstd::prelude::*;
use vstd::pervasive::VecAdditionalExecFns;

use crate::colors::bgr555_raw;

verus! {

/// Number of entries in the hardware color-lookup memory.
pub const PALETTE_SIZE: usize = 256;

/// Number of named colors the registrar assigns, at indices 1 through 8.
pub const NAMED_COLOR_COUNT: usize = 8;

/// The fixed named-color list, in declared order, as packed values: black,
/// red, green, blue, yellow, magenta, cyan, white. Index 0 is reserved to
/// mean "transparent" and is assigned nothing.
pub open spec fn palette_color(i: int) -> u16 {
    if i == 1 {
        0x0000
    } else if i == 2 {
        0x001F
    } else if i == 3 {
        0x03E0
    } else if i == 4 {
        0x7C00
    } else if i == 5 {
        0x03FF
    } else if i == 6 {
        0x7C1F
    } else if i == 7 {
        0x7FE0
    } else if i == 8 {
        0x7FFF
    } else {
        0
    }
}

/// Model of the indexed color-lookup memory that translates small integer
/// indices into full color values.
pub struct PaletteMemory {
    pub data: Vec<u16>,
}

impl PaletteMemory {
    /// The memory holds every lookup index.
    pub open spec fn wf(self) -> bool {
        self.data@.len() == PALETTE_SIZE
    }

    /// Lookup memory as the hardware starts: all zero.
    pub fn new() -> (pal: Self)
        ensures
            pal.wf(),
            forall|i: int| 0 <= i < PALETTE_SIZE ==> pal.data@[i] == 0,
    {
        let mut data: Vec<u16> = Vec::new();
        while data.len() < PALETTE_SIZE
            invariant
                data@.len() <= PALETTE_SIZE,
                forall|i: int| 0 <= i < data@.len() ==> data@[i] == 0,
            decreases PALETTE_SIZE - data@.len(),
        {
            data.push(0);
        }
        PaletteMemory { data }
    }

    /// Reads back one lookup entry.
    pub fn entry(&self, i: usize) -> (c: u16)
        requires
            self.wf(),
            i < PALETTE_SIZE,
        ensures
            c == self.data@[i as int],
    {
        self.data[i]
    }
}

/// Writes the fixed named-color list into lookup indices 1 through 8, in
/// declared order. Index 0 — reserved transparent — is never assigned, and
/// every index above the list keeps its value. Runs once, before the loop
/// starts.
pub fn register_palette(pal: &mut PaletteMemory)
    requires
        old(pal).wf(),
    ensures
        final(pal).wf(),
        final(pal).data@[0] == old(pal).data@[0],
        forall|i: int|
            1 <= i <= NAMED_COLOR_COUNT ==> final(pal).data@[i] == palette_color(i),
        forall|i: int|
            NAMED_COLOR_COUNT < i < PALETTE_SIZE ==> final(pal).data@[i] == old(pal).data@[i],
{
    let black = bgr555_raw(0, 0, 0);
    let red = bgr555_raw(31, 0, 0);
    let green = bgr555_raw(0, 31, 0);
    let blue = bgr555_raw(0, 0, 31);
    let yellow = bgr555_raw(31, 31, 0);
    let magenta = bgr555_raw(31, 0, 31);
    let cyan = bgr555_raw(0, 31, 31);
    let white = bgr555_raw(31, 31, 31);
    proof {
        assert(((0u8 & 0x1F) as u16) | (((0u8 & 0x1F) as u16) << 5) | (((0u8 & 0x1F) as u16) << 10)
            == 0x0000) by (bit_vector);
        assert(((31u8 & 0x1F) as u16) | (((0u8 & 0x1F) as u16) << 5) | (((0u8 & 0x1F) as u16)
            << 10) == 0x001F) by (bit_vector);
        assert(((0u8 & 0x1F) as u16) | (((31u8 & 0x1F) as u16) << 5) | (((0u8 & 0x1F) as u16)
            << 10) == 0x03E0) by (bit_vector);
        assert(((0u8 & 0x1F) as u16) | (((0u8 & 0x1F) as u16) << 5) | (((31u8 & 0x1F) as u16)
            << 10) == 0x7C00) by (bit_vector);
        assert(((31u8 & 0x1F) as u16) | (((31u8 & 0x1F) as u16) << 5) | (((0u8 & 0x1F) as u16)
            << 10) == 0x03FF) by (bit_vector);
        assert(((31u8 & 0x1F) as u16) | (((0u8 & 0x1F) as u16) << 5) | (((31u8 & 0x1F) as u16)
            << 10) == 0x7C1F) by (bit_vector);
        assert(((0u8 & 0x1F) as u16) | (((31u8 & 0x1F) as u16) << 5) | (((31u8 & 0x1F) as u16)
            << 10) == 0x7FE0) by (bit_vector);
        assert(((31u8 & 0x1F) as u16) | (((31u8 & 0x1F) as u16) << 5) | (((31u8 & 0x1F) as u16)
            << 10) == 0x7FFF) by (bit_vector);
    }
    pal.data.set(1, black);
    pal.data.set(2, red);
    pal.data.set(3, green);
    pal.data.set(4, blue);
    pal.data.set(5, yellow);
    pal.data.set(6, magenta);
    pal.data.set(7, cyan);
    pal.data.set(8, white);
}

} // verus!
