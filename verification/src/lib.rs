//! Display-and-input core of a minimal bare-metal kernel.
//!
//! The crate renders text directly into a raw pixel framebuffer, derives a
//! safe heap region from the boot-supplied memory map, models the table of
//! hardware trap handlers, and turns raw keyboard scan codes into characters.
//! Everything that decides or computes lives here with a proved contract;
//! the thin hardware edges (port reads, loading the trap table into the
//! processor, the allocator call) stay with the binary around this crate.

pub mod glyph;
pub mod keyboard;
pub mod memory;
pub mod palette;
pub mod traps;
pub mod writer;
