use vstd::prelude::*;

use crate::cursor::Cursor;

verus! {

/// Shape/tile identity of the cursor overlay; 8-bit-depth tiles occupy even
/// tile indices, so the second 8bpp tile of the character block is 514.
pub const OVERLAY_TILE: u16 = 514;

/// Fixed negative bias from the cursor position to the overlay's top-left
/// corner: half the overlay's visible size, so it appears centered.
pub const OVERLAY_BIAS: u16 = 3;

/// The hardware-addressed overlay attribute record: screen row and column of
/// the top-left corner, color-depth mode, and tile identity. The row field
/// is 8 bits wide, the column field 9 bits, the tile field 10 bits.
pub struct OverlaySlot {
    pub row: u8,
    pub col: u16,
    pub bpp8: bool,
    pub tile: u16,
}

impl OverlaySlot {
    /// The column and tile values fit their hardware fields.
    pub open spec fn wf(self) -> bool {
        self.col < 512 && self.tile < 1024
    }

    /// Raw first attribute halfword: row in bits 0-7, color-depth flag in
    /// bit 13.
    pub fn attr0(&self) -> (r: u16)
        ensures
            r == (self.row as u16) | (if self.bpp8 { 0x2000u16 } else { 0u16 }),
            r & 0xFF == self.row,
    {
        let r: u16 = (self.row as u16) | (if self.bpp8 { 0x2000 } else { 0 });
        proof {
            let row: u8 = self.row;
            assert(((row as u16) | 0x2000) & 0xFF == row) by (bit_vector);
            assert(((row as u16) | 0) & 0xFF == row) by (bit_vector);
        }
        r
    }

    /// Raw second attribute halfword: column in bits 0-8.
    pub fn attr1(&self) -> (r: u16)
        ensures
            r == self.col & 0x1FF,
            self.wf() ==> r == self.col,
    {
        proof {
            let c: u16 = self.col;
            assert(c < 512 ==> c & 0x1FF == c) by (bit_vector);
        }
        self.col & 0x1FF
    }

    /// Raw third attribute halfword: tile identity in bits 0-9.
    pub fn attr2(&self) -> (r: u16)
        ensures
            r == self.tile & 0x3FF,
            self.wf() ==> r == self.tile,
    {
        proof {
            let t: u16 = self.tile;
            assert(t < 1024 ==> t & 0x3FF == t) by (bit_vector);
        }
        self.tile & 0x3FF
    }
}

/// The overlay record that presents the cursor at `p`: the top-left corner
/// sits `OVERLAY_BIAS` pixels up and left of `p`, wrapped into the row and
/// column fields exactly as the hardware masks a two's-complement offset.
pub open spec fn slot_for(p: Cursor) -> OverlaySlot {
    OverlaySlot {
        row: ((p.y + 256 - OVERLAY_BIAS) % 256) as u8,
        col: ((p.x + 512 - OVERLAY_BIAS) % 512) as u16,
        bpp8: true,
        tile: OVERLAY_TILE,
    }
}

/// The single reserved overlay slot of the attribute table. Exactly one
/// overlay is ever used; the presenter rewrites the whole record each tick
/// and never reads it back.
pub struct OverlayTable {
    pub slot: OverlaySlot,
}

/// The table state after presenting the cursor at `p`: the previous record
/// is overwritten whole, whatever it held.
pub open spec fn presented(t: OverlayTable, p: Cursor) -> OverlayTable {
    OverlayTable { slot: slot_for(p) }
}

impl OverlayTable {
    /// The table before anything was presented: a zeroed record.
    pub fn new() -> (t: Self)
        ensures
            t.slot == (OverlaySlot { row: 0u8, col: 0u16, bpp8: false, tile: 0u16 }),
    {
        OverlayTable { slot: OverlaySlot { row: 0, col: 0, bpp8: false, tile: 0 } }
    }

    /// Moves the visible overlay so that it is centered on `p`. The caller
    /// must pass a validated position: no bounds check happens here.
    pub fn present(&mut self, p: &Cursor)
        requires
            p.wf(),
        ensures
            *final(self) == presented(*old(self), *p),
            final(self).slot.wf(),
    {
        let row: u8 = ((p.y + (256 - OVERLAY_BIAS)) % 256) as u8;
        let col: u16 = (p.x + (512 - OVERLAY_BIAS)) % 512;
        self.slot = OverlaySlot { row, col, bpp8: true, tile: OVERLAY_TILE };
    }
}

/// Presenting the same position twice leaves exactly the overlay record that
/// presenting it once leaves.
pub proof fn lemma_present_idempotent(t: OverlayTable, p: Cursor)
    ensures
        presented(presented(t, p), p) == presented(t, p),
{
}

} // verus!
