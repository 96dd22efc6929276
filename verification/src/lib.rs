//! A minimal real-time display-driver core for a fixed-resolution bitmap
//! framebuffer with a single hardware sprite overlay, synchronized to a
//! periodic refresh interrupt.
//!
//! The crate models the device state that the driver owns — cursor position,
//! overlay attribute slot, framebuffer, color-lookup memory, and the shared
//! refresh-pending flag — and verifies the per-frame update loop over those
//! models. The raw register reads and writes themselves happen outside this
//! library, on values the library computed and validated.

pub mod config;
pub mod dims;
pub mod input;
pub mod cursor;
pub mod overlay;
pub mod refresh;
pub mod framebuffer;
pub mod colors;
pub mod palette;
pub mod driver;
pub mod reticle;
