use vstd::prelude::*;

verus! {

/// Tagged model of the display control word that the one-shot initialization
/// writes: display mode in bits 0-2, 1-D overlay addressing in bit 6, forced
/// blanking in bit 7, background enable in bit 10, overlay enable in bit 12.
pub struct DisplayControl {
    pub mode: u8,
    pub overlay_1d: bool,
    pub force_blank: bool,
    pub background_enabled: bool,
    pub overlay_enabled: bool,
}

impl DisplayControl {
    /// The setting the driver starts from: bitmap mode 3 with background and
    /// overlay enabled, 1-D overlay addressing, and blanking forced on until
    /// the one-shot drawing is done.
    pub fn bitmap_startup() -> (c: Self)
        ensures
            c == (DisplayControl {
                mode: 3u8,
                overlay_1d: true,
                force_blank: true,
                background_enabled: true,
                overlay_enabled: true,
            }),
    {
        DisplayControl {
            mode: 3,
            overlay_1d: true,
            force_blank: true,
            background_enabled: true,
            overlay_enabled: true,
        }
    }

    /// The same setting with blanking cleared: issued once all one-shot
    /// drawing has completed, to switch the display on.
    pub fn with_blank_cleared(self) -> (c: Self)
        ensures
            c == (DisplayControl { force_blank: false, ..self }),
    {
        DisplayControl { force_blank: false, ..self }
    }

    /// Serializes the setting to the raw register layout.
    pub fn raw(&self) -> (r: u16)
        ensures
            r == ((self.mode & 7) as u16) | (if self.overlay_1d { 0x40u16 } else { 0u16 }) | (
            if self.force_blank { 0x80u16 } else { 0u16 }) | (if self.background_enabled {
                0x400u16
            } else {
                0u16
            }) | (if self.overlay_enabled { 0x1000u16 } else { 0u16 }),
    {
        ((self.mode & 7) as u16) | (if self.overlay_1d { 0x40 } else { 0 }) | (if self.force_blank {
            0x80
        } else {
            0
        }) | (if self.background_enabled { 0x400 } else { 0 }) | (if self.overlay_enabled {
            0x1000
        } else {
            0
        })
    }
}

/// Tagged model of the display status word: enabling the refresh interrupt
/// sets bit 3.
pub struct DisplayStatus {
    pub refresh_irq_enabled: bool,
}

impl DisplayStatus {
    /// Serializes the setting to the raw register layout.
    pub fn raw(&self) -> (r: u16)
        ensures
            r == (if self.refresh_irq_enabled { 0x8u16 } else { 0u16 }),
    {
        if self.refresh_irq_enabled { 0x8 } else { 0 }
    }
}

} // verus!
