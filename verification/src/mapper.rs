//! The flat (bank-free) address mapper: a direct map from the 16-bit
//! address space onto a plain ROM image and one combined RAM buffer
//! (work RAM followed by high RAM). It predates the device bus and
//! serves setups without bank switching.

use vstd::prelude::*;

verus! {

/// The size of the work RAM portion of the combined RAM buffer.
pub const FLAT_LO_RAM_SIZE: u16 = 8192;

/// The size of the high RAM portion of the combined RAM buffer.
pub const FLAT_HI_RAM_SIZE: u16 = 0x7F;

/// The size of the combined RAM buffer the flat mapper expects.
pub const FLAT_TOTAL_RAM_SIZE: u16 = FLAT_LO_RAM_SIZE + FLAT_HI_RAM_SIZE;

/// The addresses the flat mapper maps: ROM, work RAM, the I/O register
/// window, high RAM, and the interrupt-enable register. Anything else
/// is a mapping error, with no read or write rule.
pub open spec fn flat_mapped(addr: u16) -> bool {
    ||| addr <= 0x7FFF
    ||| 0xC000 <= addr <= 0xDFFF
    ||| 0xFF00 <= addr <= 0xFF4B
    ||| 0xFF80 <= addr <= 0xFFFF
}

/// The byte a flat-mapped read returns: ROM bytes below 0x8000 (0xFF
/// past the end of the image), work RAM at its offset, 0 for the
/// unmodeled I/O window and interrupt-enable register, and high RAM
/// just past work RAM in the combined buffer.
pub open spec fn spec_flat_read(rom: Seq<u8>, ram: Seq<u8>, addr: u16) -> u8 {
    if addr <= 0x7FFF {
        if addr < rom.len() {
            rom[addr as int]
        } else {
            0xFF
        }
    } else if 0xC000 <= addr <= 0xDFFF {
        ram[addr - 0xC000]
    } else if 0xFF00 <= addr <= 0xFF4B {
        0
    } else if 0xFF80 <= addr <= 0xFFFE {
        ram[addr - 0xFF80 + FLAT_LO_RAM_SIZE]
    } else {
        0
    }
}

/// The combined RAM buffer after a flat-mapped write: ROM, the I/O
/// window and the interrupt-enable register ignore writes; work RAM and
/// high RAM take the byte at their offsets.
pub open spec fn spec_flat_write(ram: Seq<u8>, addr: u16, value: u8) -> Seq<u8> {
    if 0xC000 <= addr <= 0xDFFF {
        ram.update(addr - 0xC000, value)
    } else if 0xFF80 <= addr <= 0xFFFE {
        ram.update(addr - 0xFF80 + FLAT_LO_RAM_SIZE, value)
    } else {
        ram
    }
}

fn read_u8_rom(rom: &[u8], ram: &[u8], addr: u16) -> (r: u8)
    requires
        flat_mapped(addr),
        ram@.len() == FLAT_TOTAL_RAM_SIZE,
    ensures
        r == spec_flat_read(rom@, ram@, addr),
{
    if addr <= 0x7FFF {
        if (addr as usize) < rom.len() {
            rom[addr as usize]
        } else {
            0xFF
        }
    } else if 0xC000 <= addr && addr <= 0xDFFF {
        ram[(addr - 0xC000) as usize]
    } else if 0xFF00 <= addr && addr <= 0xFF4B {
        0
    } else if 0xFF80 <= addr && addr <= 0xFFFE {
        ram[(addr - 0xFF80 + FLAT_LO_RAM_SIZE) as usize]
    } else {
        0
    }
}

fn write_u8_rom(ram: &mut [u8], addr: u16, value: u8)
    requires
        flat_mapped(addr),
        old(ram)@.len() == FLAT_TOTAL_RAM_SIZE,
    ensures
        final(ram)@ == spec_flat_write(old(ram)@, addr, value),
{
    if 0xC000 <= addr && addr <= 0xDFFF {
        ram[(addr - 0xC000) as usize] = value;
    } else if 0xFF80 <= addr && addr <= 0xFFFE {
        ram[(addr - 0xFF80 + FLAT_LO_RAM_SIZE) as usize] = value;
    }
}

/// The mapper kinds of the flat scheme; only the plain ROM layout
/// exists.
pub enum Mapper {
    Rom,
}

impl Mapper {
    /// Read without side effects (the flat map has none to avoid).
    pub fn peek_u8(&self, rom: &[u8], ram: &[u8], addr: u16) -> (r: u8)
        requires
            flat_mapped(addr),
            ram@.len() == FLAT_TOTAL_RAM_SIZE,
        ensures
            r == spec_flat_read(rom@, ram@, addr),
    {
        match self {
            Mapper::Rom => read_u8_rom(rom, ram, addr),
        }
    }

    /// A true read.
    pub fn read_u8(&mut self, rom: &[u8], ram: &[u8], addr: u16) -> (r: u8)
        requires
            flat_mapped(addr),
            ram@.len() == FLAT_TOTAL_RAM_SIZE,
        ensures
            r == spec_flat_read(rom@, ram@, addr),
    {
        match self {
            Mapper::Rom => read_u8_rom(rom, ram, addr),
        }
    }

    /// A write into the combined RAM buffer.
    pub fn write_u8(&mut self, ram: &mut [u8], addr: u16, value: u8)
        requires
            flat_mapped(addr),
            old(ram)@.len() == FLAT_TOTAL_RAM_SIZE,
        ensures
            final(ram)@ == spec_flat_write(old(ram)@, addr, value),
    {
        match self {
            Mapper::Rom => write_u8_rom(ram, addr, value),
        }
    }
}

} // verus!
