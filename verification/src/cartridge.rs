//! The cartridge and its bank-switched ROM mapper. The mapper owns the
//! raw ROM bytes and a current bank index; the fixed window
//! 0x0000-0x3FFF always reads bank 0, and the switchable window
//! 0x4000-0x7FFF reads the selected bank. Writing to the bank-select
//! control region 0x2000-0x3FFF picks the bank from the low five bits of
//! the written value, with the hardware quirk that 0x00, 0x20, 0x40 and
//! 0x60 select banks 1, 0x21, 0x41 and 0x61 instead (the real chip
//! cannot select bank 0 through this path).

use vstd::prelude::*;
use crate::fault::Fault;

verus! {

/// The size of one ROM bank: 16 KiB.
pub const BANK_SIZE: usize = 0x4000;

/// The abstract state of a cartridge: the ROM image and the selected
/// bank index.
pub struct CartridgeView {
    pub rom: Seq<u8>,
    pub bank: int,
}

/// The bank index selected by writing `value` to the bank-select region:
/// the low five bits, except that the quirk values 0x00, 0x20, 0x40 and
/// 0x60 alias the next bank up.
pub open spec fn spec_effective_bank(value: u8) -> int {
    if value == 0x20 {
        0x21
    } else if value == 0x40 {
        0x41
    } else if value == 0x60 {
        0x61
    } else if value & 0x1F == 0 {
        1
    } else {
        (value & 0x1F) as int
    }
}

/// The byte a cartridge read returns: bank 0 below 0x4000, the selected
/// bank at 0x4000-0x7FFF, and 0 past the end of the ROM image
/// (undersized images are tolerated rather than failing).
pub open spec fn spec_cartridge_read(c: CartridgeView, addr: u16) -> u8 {
    if addr < 0x4000 {
        if addr < c.rom.len() {
            c.rom[addr as int]
        } else {
            0
        }
    } else {
        let index = c.bank * BANK_SIZE + (addr - 0x4000);
        if index < c.rom.len() {
            c.rom[index]
        } else {
            0
        }
    }
}

/// The cartridge state after a write, or the fault it raises: only the
/// bank-select control region 0x2000-0x3FFF has write semantics.
pub open spec fn spec_cartridge_write(c: CartridgeView, addr: u16, value: u8) -> Result<
    CartridgeView,
    Fault,
> {
    if 0x2000 <= addr && addr <= 0x3FFF {
        Ok(CartridgeView { bank: spec_effective_bank(value), ..c })
    } else {
        Err(Fault::UnimplementedWrite(addr))
    }
}

/// The bank-switched ROM mapper: the ROM image and the selected bank.
pub struct MBC1 {
    rom_bank: usize,
    rom: Vec<u8>,
}

impl View for MBC1 {
    type V = CartridgeView;

    closed spec fn view(&self) -> CartridgeView {
        CartridgeView { rom: self.rom@, bank: self.rom_bank as int }
    }
}

impl MBC1 {
    /// The bank index is always in range: at least 1 (bank 0 aliases
    /// bank 1) and at most 0x61 (the largest quirk alias).
    pub open spec fn wf(&self) -> bool {
        1 <= self@.bank <= 0x61
    }

    /// A fresh mapper over a ROM image, with bank 1 selected.
    pub fn new(rom: Vec<u8>) -> (r: MBC1)
        ensures
            r.wf(),
            r@.rom == rom@,
            r@.bank == 1,
    {
        MBC1 { rom_bank: 1, rom }
    }

    /// Select the active ROM bank from a byte written to the
    /// bank-select control region.
    pub fn select_rom_bank(&mut self, bank: u8)
        ensures
            final(self).wf(),
            final(self)@.rom == old(self)@.rom,
            final(self)@.bank == spec_effective_bank(bank),
    {
        self.rom_bank = if bank == 0x20 {
            0x21
        } else if bank == 0x40 {
            0x41
        } else if bank == 0x60 {
            0x61
        } else if bank & 0x1F == 0 {
            1
        } else {
            (bank & 0x1F) as usize
        };
        proof {
            assert(bank & 0x1F <= 0x1F) by (bit_vector);
        }
    }

    /// Read the switchable bank window at base address 0x4000.
    pub fn read_rom(&self, addr: u16) -> (r: u8)
        requires
            self.wf(),
            0x4000 <= addr <= 0x7FFF,
        ensures
            r == spec_cartridge_read(self@, addr),
    {
        let offset = addr as usize - 0x4000;
        let start = self.rom_bank * BANK_SIZE;
        let index = start + offset;
        if index < self.rom.len() {
            self.rom[index]
        } else {
            0
        }
    }

    /// Read anywhere in the cartridge window 0x0000-0x7FFF.
    pub fn read(&self, addr: u16) -> (r: u8)
        requires
            self.wf(),
            addr <= 0x7FFF,
        ensures
            r == spec_cartridge_read(self@, addr),
    {
        if addr < 0x4000 {
            let index = addr as usize;
            if index < self.rom.len() {
                self.rom[index]
            } else {
                0
            }
        } else {
            self.read_rom(addr)
        }
    }

    /// Write into the cartridge window: only bank selection is modeled.
    pub fn write(&mut self, addr: u16, value: u8) -> (r: Result<(), Fault>)
        requires
            old(self).wf(),
        ensures
            final(self).wf(),
            match spec_cartridge_write(old(self)@, addr, value) {
                Ok(c) => r is Ok && final(self)@ == c,
                Err(f) => r == Err::<(), Fault>(f) && final(self)@ == old(self)@,
            },
    {
        if 0x2000 <= addr && addr <= 0x3FFF {
            self.select_rom_bank(value);
            Ok(())
        } else {
            Err(Fault::UnimplementedWrite(addr))
        }
    }
}

/// The mapper kinds a cartridge can carry; only the bank-switched ROM
/// mapper is modeled so far.
enum CartridgeMapper {
    MBC1(MBC1),
}

/// A cartridge: the loaded ROM image behind its mapper.
pub struct Cartridge {
    mapper: CartridgeMapper,
}

impl View for Cartridge {
    type V = CartridgeView;

    closed spec fn view(&self) -> CartridgeView {
        match self.mapper {
            CartridgeMapper::MBC1(ref m) => m@,
        }
    }
}

impl Cartridge {
    /// See `MBC1::wf`.
    pub open spec fn wf(&self) -> bool {
        1 <= self@.bank <= 0x61
    }

    /// Build a cartridge from a loaded ROM image. Every image is given
    /// the bank-switched ROM mapper, with bank 1 selected.
    pub fn load(rom: Vec<u8>) -> (r: Cartridge)
        ensures
            r.wf(),
            r@.rom == rom@,
            r@.bank == 1,
    {
        Cartridge { mapper: CartridgeMapper::MBC1(MBC1::new(rom)) }
    }

    /// Read anywhere in the cartridge window 0x0000-0x7FFF.
    pub fn read(&self, addr: u16) -> (r: u8)
        requires
            self.wf(),
            addr <= 0x7FFF,
        ensures
            r == spec_cartridge_read(self@, addr),
    {
        match &self.mapper {
            CartridgeMapper::MBC1(m) => m.read(addr),
        }
    }

    /// Write into the cartridge window: only bank selection is modeled.
    pub fn write(&mut self, addr: u16, value: u8) -> (r: Result<(), Fault>)
        requires
            old(self).wf(),
        ensures
            final(self).wf(),
            match spec_cartridge_write(old(self)@, addr, value) {
                Ok(c) => r is Ok && final(self)@ == c,
                Err(f) => r == Err::<(), Fault>(f) && final(self)@ == old(self)@,
            },
    {
        match &mut self.mapper {
            CartridgeMapper::MBC1(m) => m.write(addr, value),
        }
    }
}

} // verus!
