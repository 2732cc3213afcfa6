//! The global laws of the machine, proved once and for all states:
//! the standard memory map partitions the whole address space (every
//! address resolves, and the specific rows are pairwise disjoint), the
//! work-RAM mirror really aliases work RAM, a push followed by a pop
//! restores the pushed word and the stack pointer, and an increment
//! followed by a decrement of a register restores it with the
//! documented flag outcomes at each step.

use vstd::prelude::*;
use crate::bits::{lemma_word_bytes, spec_hi, spec_lo};
use crate::bus::{
    bus_wf, entry_wf, map_wf, spec_bus_peek, spec_bus_read, spec_bus_write, spec_resolve,
    spec_resolve_from,
    spec_standard_map, BusView, MapEntry, Region,
};
use crate::cartridge::spec_effective_bank;
use crate::fault::Fault;
use crate::instruction::{Instruction, Operand, Reg8};
use crate::semantics::{
    spec_execute, spec_get_reg8, spec_pop16, spec_push16, spec_step, CoreView,
};

verus! {

/// Whether a table row's range contains an address.
pub open spec fn entry_contains(e: MapEntry, addr: u16) -> bool {
    e.start <= addr <= e.end
}

/// The device the standard memory map gives each address, written as a
/// direct partition of the address space.
pub open spec fn spec_region_of(addr: u16) -> Region {
    if addr <= 0x7FFF {
        Region::Cartridge
    } else if addr <= 0x9FFF {
        Region::VideoRam
    } else if 0xC000 <= addr && addr <= 0xDFFF {
        Region::WorkRam
    } else if 0xE000 <= addr && addr <= 0xFDFF {
        Region::WorkRamMirror
    } else if 0xFF01 <= addr && addr <= 0xFF02 {
        Region::Serial
    } else if addr == 0xFF44 {
        Region::VideoLine
    } else if 0xFF80 <= addr && addr <= 0xFFFE {
        Region::HighRam
    } else if addr == 0xFFFF {
        Region::InterruptEnable
    } else {
        Region::Placeholder
    }
}

/// The standard map is total and routes exactly as the direct partition
/// says: every 16-bit address resolves to a device, none is left
/// unmapped.
pub proof fn lemma_standard_map_resolves(addr: u16)
    ensures
        spec_resolve(spec_standard_map(), addr) == Some(spec_region_of(addr)),
{
    reveal_with_fuel(spec_resolve_from, 11);
}

/// The standard map is well formed: every row sits inside its region's
/// window.
pub proof fn lemma_standard_map_wf()
    ensures
        map_wf(spec_standard_map()),
{
    assert forall|i: int| 0 <= i < spec_standard_map().len() implies entry_wf(
        #[trigger] spec_standard_map()[i],
    ) by {
        if i == 0 {
            assert(entry_wf(spec_standard_map()[0]));
        } else if i == 1 {
            assert(entry_wf(spec_standard_map()[1]));
        } else if i == 2 {
            assert(entry_wf(spec_standard_map()[2]));
        } else if i == 3 {
            assert(entry_wf(spec_standard_map()[3]));
        } else if i == 4 {
            assert(entry_wf(spec_standard_map()[4]));
        } else if i == 5 {
            assert(entry_wf(spec_standard_map()[5]));
        } else if i == 6 {
            assert(entry_wf(spec_standard_map()[6]));
        } else if i == 7 {
            assert(entry_wf(spec_standard_map()[7]));
        } else {
            assert(entry_wf(spec_standard_map()[8]));
        }
    }
}

/// The specific rows of the standard map (all but the final catch-all)
/// are pairwise disjoint: no address is owned by two devices.
pub proof fn lemma_standard_map_disjoint(i: int, j: int, addr: u16)
    requires
        0 <= i < j < spec_standard_map().len() - 1,
        entry_contains(spec_standard_map()[i], addr),
    ensures
        !entry_contains(spec_standard_map()[j], addr),
{
}

/// On the standard map no address halts the machine on inspection: a
/// peek never faults, and a true read faults only at the serial control
/// register, whose read side is not modeled. In particular a read of an
/// unknown region lands in the catch-all placeholder row and returns its
/// filler byte instead of failing.
pub proof fn lemma_standard_map_read_total(b: BusView, addr: u16)
    requires
        bus_wf(b),
        b.map == spec_standard_map(),
    ensures
        spec_bus_peek(b, addr) is Ok,
        addr != 0xFF02 ==> spec_bus_read(b, addr) is Ok,
        spec_bus_read(b, 0xFF02) == Err::<u8, Fault>(Fault::UnimplementedRead(0xFF02)),
{
    lemma_standard_map_resolves(addr);
    lemma_standard_map_resolves(0xFF02);
}

/// The bank-index invariant: whatever byte a program writes to the
/// bank-select region, the effective bank is at least 1 (bank 0 aliases
/// bank 1) and at most 0x61 (the largest quirk alias), and never one of
/// the quirk values 0x20, 0x40 or 0x60 themselves.
pub proof fn lemma_effective_bank_range(value: u8)
    ensures
        1 <= spec_effective_bank(value) <= 0x61,
        spec_effective_bank(value) != 0x20,
        spec_effective_bank(value) != 0x40,
        spec_effective_bank(value) != 0x60,
{
    assert(value & 0x1F <= 0x1F) by (bit_vector);
}

/// The interpreter is deterministic: a step is a function of the
/// machine state alone, so replaying the same ROM and inputs from the
/// same state reaches the same outcome — the same next state, or the
/// same fault.
pub proof fn lemma_step_deterministic(s1: CoreView, s2: CoreView)
    requires
        s1 == s2,
    ensures
        spec_step(s1) == spec_step(s2),
{
}

/// Whether an address is served by plain readable-and-writable RAM in
/// the standard map: video RAM, work RAM, the work-RAM mirror, or high
/// RAM.
pub open spec fn ram_backed(addr: u16) -> bool {
    ||| 0x8000 <= addr <= 0x9FFF
    ||| 0xC000 <= addr <= 0xFDFF
    ||| 0xFF80 <= addr <= 0xFFFE
}

/// The backing cell a RAM-backed address names. The work-RAM mirror
/// shares cells with work RAM: that sharing is the mirroring law.
pub open spec fn ram_cell(addr: u16) -> int {
    if 0x8000 <= addr <= 0x9FFF {
        addr - 0x8000
    } else if 0xC000 <= addr <= 0xDFFF {
        0x10000 + (addr - 0xC000)
    } else if 0xE000 <= addr <= 0xFDFF {
        0x10000 + (addr - 0xE000)
    } else {
        0x20000 + (addr - 0xFF80)
    }
}

/// Writing a RAM-backed address on the standard map always succeeds,
/// keeps the bus well formed, and afterwards every RAM-backed read
/// returns the new byte on the same backing cell and the old byte on
/// every other cell.
pub proof fn lemma_ram_write(b: BusView, addr: u16, v: u8)
    requires
        bus_wf(b),
        b.map == spec_standard_map(),
        ram_backed(addr),
    ensures
        spec_bus_write(b, addr, v) is Ok,
        ({
            let b1 = spec_bus_write(b, addr, v)->Ok_0;
            &&& bus_wf(b1)
            &&& b1.map == b.map
            &&& b1.cartridge == b.cartridge
            &&& b1.serial_data == b.serial_data
            &&& b1.serial_log == b.serial_log
            &&& b1.interrupt_enable == b.interrupt_enable
            &&& forall|a2: u16|
                ram_backed(a2) ==> spec_bus_read(b1, a2) == (if ram_cell(a2) == ram_cell(addr) {
                    Ok::<u8, Fault>(v)
                } else {
                    spec_bus_read(b, a2)
                })
        }),
{
    lemma_standard_map_resolves(addr);
    let b1 = spec_bus_write(b, addr, v)->Ok_0;
    assert forall|a2: u16| ram_backed(a2) implies spec_bus_read(b1, a2) == (if ram_cell(a2)
        == ram_cell(addr) {
        Ok::<u8, Fault>(v)
    } else {
        spec_bus_read(b, a2)
    }) by {
        lemma_standard_map_resolves(a2);
    }
}

/// The memory-mirroring law: a byte written to a work-RAM address is
/// read back, unchanged, through the mirror range one 0x2000 up, and a
/// byte written through the mirror is read back at the work-RAM
/// address.
pub proof fn lemma_work_ram_mirroring(b: BusView, addr: u16, v: u8)
    requires
        bus_wf(b),
        b.map == spec_standard_map(),
        0xC000 <= addr <= 0xDDFF,
    ensures
        spec_bus_write(b, addr, v) is Ok,
        spec_bus_read(spec_bus_write(b, addr, v)->Ok_0, (addr + 0x2000) as u16) == Ok::<
            u8,
            Fault,
        >(v),
        spec_bus_write(b, (addr + 0x2000) as u16, v) is Ok,
        spec_bus_read(spec_bus_write(b, (addr + 0x2000) as u16, v)->Ok_0, addr) == Ok::<
            u8,
            Fault,
        >(v),
{
    let mirror = (addr + 0x2000) as u16;
    assert(ram_backed(addr) && ram_backed(mirror));
    assert(ram_cell(mirror) == ram_cell(addr));
    lemma_ram_write(b, addr, v);
    lemma_ram_write(b, mirror, v);
}

/// The push/pop round-trip law: for any word and any stack pointer
/// whose two stack slots lie in RAM-backed memory, a push followed by a
/// pop returns exactly the pushed word, restores the stack pointer, and
/// leaves every register and flag as it was (only the two stack bytes
/// in memory have changed).
pub proof fn lemma_push_pop_round_trip(s: CoreView, v: u16)
    requires
        bus_wf(s.bus),
        s.bus.map == spec_standard_map(),
        ram_backed(s.sp),
        ram_backed(s.sp.wrapping_sub(1)),
    ensures
        spec_push16(s, v) is Ok,
        ({
            let s1 = spec_push16(s, v)->Ok_0;
            &&& spec_pop16(s1) is Ok
            &&& spec_pop16(s1)->Ok_0.1 == v
            &&& spec_pop16(s1)->Ok_0.0 == (CoreView { bus: s1.bus, ..s })
        }),
{
    let sp1 = s.sp.wrapping_sub(1);
    lemma_ram_write(s.bus, s.sp, spec_hi(v));
    let b1 = spec_bus_write(s.bus, s.sp, spec_hi(v))->Ok_0;
    lemma_ram_write(b1, sp1, spec_lo(v));
    let b2 = spec_bus_write(b1, sp1, spec_lo(v))->Ok_0;
    assert(ram_cell(s.sp) != ram_cell(sp1));
    assert(s.sp.wrapping_sub(2).wrapping_add(1) == sp1);
    assert(s.sp.wrapping_sub(2).wrapping_add(2) == s.sp);
    assert(spec_bus_read(b2, sp1) == Ok::<u8, Fault>(spec_lo(v)));
    assert(spec_bus_read(b2, s.sp) == Ok::<u8, Fault>(spec_hi(v)));
    lemma_word_bytes(v, spec_hi(v), spec_lo(v));
    let s1 = spec_push16(s, v)->Ok_0;
    assert(spec_pop16(s1)->Ok_0.0 =~= (CoreView { bus: s1.bus, ..s }));
}

/// The INC/DEC round-trip law: for any state and any 8-bit register,
/// INC then DEC restores the register's original value; after the
/// increment the flags follow the increment rules (half-carry exactly
/// when the low nibble was 0xF, carry untouched), and after the
/// decrement they follow the decrement rules. Both instructions always
/// execute (register operands touch no memory).
pub proof fn lemma_inc_dec_round_trip(s: CoreView, r: Reg8)
    ensures
        spec_execute(s, Instruction::Inc(Operand::Reg8(r))) is Ok,
        ({
            let v = spec_get_reg8(s, r);
            let s1 = spec_execute(s, Instruction::Inc(Operand::Reg8(r)))->Ok_0;
            &&& spec_get_reg8(s1, r) == v.wrapping_add(1)
            &&& s1.zf == (v.wrapping_add(1) == 0)
            &&& s1.nf == false
            &&& s1.hf == (v & 0xF == 0xF)
            &&& s1.cf == s.cf
            &&& spec_execute(s1, Instruction::Dec(Operand::Reg8(r))) is Ok
            &&& ({
                let s2 = spec_execute(s1, Instruction::Dec(Operand::Reg8(r)))->Ok_0;
                &&& spec_get_reg8(s2, r) == v
                &&& s2.zf == (v == 0)
                &&& s2.nf == true
                &&& s2.hf == (v & 0xF == 0xF)
                &&& s2.cf == s.cf
                &&& s2.bus == s.bus
                &&& s2.sp == s.sp
            })
        }),
{
    let v = spec_get_reg8(s, r);
    assert(v.wrapping_add(1).wrapping_sub(1) == v);
    assert((v.wrapping_add(1).wrapping_sub(1)) & 0xF == v & 0xF);
}

} // verus!
