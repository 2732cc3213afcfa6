//! The fixed numbers of the memory map and the device sizes.

use vstd::prelude::*;

verus! {

/// The size of work RAM.
pub const LO_RAM_SIZE: usize = 8 * 1024;

/// The size of high RAM.
pub const HI_RAM_SIZE: usize = 0x7F;

/// The size of work RAM and high RAM together.
pub const TOTAL_RAM_SIZE: usize = LO_RAM_SIZE + HI_RAM_SIZE;

/// The first address of the cartridge ROM window.
pub const ROM_START: u16 = 0x0000;

/// The last address of the cartridge ROM window.
pub const ROM_END: u16 = 0x7FFF;

/// The first address of the video RAM window.
pub const VRAM_START: u16 = 0x8000;

/// The last address of the video RAM window.
pub const VRAM_END: u16 = 0x9FFF;

/// The size of video RAM.
pub const VRAM_SIZE: usize = 0x2000;

/// The first address of work RAM.
pub const LO_RAM_START: u16 = 0xC000;

/// The last address of work RAM.
pub const LO_RAM_END: u16 = 0xDFFF;

/// The first address of the I/O register page.
pub const IO_START: u16 = 0xFF00;

/// The video "current line" stub register.
pub const IO_REG_LY: u16 = 0xFF44;

/// The last address of the I/O register window.
pub const IO_END: u16 = 0xFF4B;

/// The first address of high RAM.
pub const HI_RAM_START: u16 = 0xFF80;

/// The last address of high RAM.
pub const HI_RAM_END: u16 = 0xFFFE;

/// The interrupt-enable register.
pub const INTERRUPT_ENABLE_REGISTER: u16 = 0xFFFF;

} // verus!
