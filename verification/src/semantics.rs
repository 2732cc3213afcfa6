//! The mathematical model of the processor core: the architectural state
//! (registers, flags, stack pointer, program counter, and the bus behind
//! them) and a specification-level interpreter giving every instruction's
//! exact data, flag and control-flow effect. The executable core in
//! `core` is verified against these functions: each execution routine
//! either returns the state this interpreter gives, or reports exactly
//! the fault this interpreter assigns.

use vstd::prelude::*;
use crate::bits::{spec_hi, spec_lo, spec_word};
use crate::bus::{spec_bus_peek, spec_bus_read, spec_bus_write, BusView};
use crate::fault::Fault;
use crate::instruction::{
    spec_decode_extended, Cond, ExtendedInstruction, Instruction, Operand, Reg16, Reg8,
};

verus! {

/// A value moved by a load, increment or decrement: the tagged union
/// that makes those operations generic over operand width.
#[derive(Clone, Copy, Debug, PartialEq, Eq, Structural)]
pub enum Value {
    U8(u8),
    U16(u16),
}

impl Value {
    /// The value widened to 16 bits.
    pub fn as_u16(self) -> (r: u16)
        ensures
            match self {
                Value::U8(v) => r == v as u16,
                Value::U16(v) => r == v,
            },
    {
        match self {
            Value::U8(value) => value as u16,
            Value::U16(value) => value,
        }
    }
}

/// The full architectural state: program counter, stack pointer, the
/// six general 8-bit registers, the accumulator, the four named flag
/// bits of the flags register (its bottom four bits are always zero,
/// so the flags are carried as the four named booleans), the
/// interrupt-enable flag, and the bus.
#[verifier::ext_equal]
pub struct CoreView {
    pub pc: u16,
    pub sp: u16,
    pub a: u8,
    pub b: u8,
    pub c: u8,
    pub d: u8,
    pub e: u8,
    pub h: u8,
    pub l: u8,
    /// The zero flag (bit 7 of the flags register).
    pub zf: bool,
    /// The subtract flag (bit 6).
    pub nf: bool,
    /// The half-carry flag (bit 5).
    pub hf: bool,
    /// The carry flag (bit 4).
    pub cf: bool,
    /// The master interrupt-enable flag.
    pub ime: bool,
    pub bus: BusView,
}

/// How a state-changing execution routine relates to its model: on the
/// model's success the routine succeeds and leaves exactly the model
/// state; on a fault it reports exactly that fault (the machine state is
/// then kept only for diagnosis, and nothing further is promised of it).
pub open spec fn steps_to(post: CoreView, r: Result<(), Fault>, out: Result<CoreView, Fault>) -> bool {
    match out {
        Ok(s) => r is Ok && post == s,
        Err(f) => r == Err::<(), Fault>(f),
    }
}

/// As `steps_to`, for a routine that also produces a value.
pub open spec fn yields<T>(post: CoreView, r: Result<T, Fault>, out: Result<(CoreView, T), Fault>) -> bool {
    match out {
        Ok((s, v)) => r == Ok::<T, Fault>(v) && post == s,
        Err(f) => r == Err::<T, Fault>(f),
    }
}

/// The flags register byte: the four named bits packed into the top
/// nibble, bottom nibble zero.
pub open spec fn spec_flags_byte(s: CoreView) -> u8 {
    ((if s.zf {
        0x80int
    } else {
        0int
    }) + (if s.nf {
        0x40int
    } else {
        0int
    }) + (if s.hf {
        0x20int
    } else {
        0int
    }) + (if s.cf {
        0x10int
    } else {
        0int
    })) as u8
}

/// The state with the flags register set from a byte: each named flag
/// from its bit, the bottom nibble discarded (it always reads zero).
pub open spec fn spec_set_flags_byte(s: CoreView, f: u8) -> CoreView {
    CoreView {
        zf: f & 0x80 != 0,
        nf: f & 0x40 != 0,
        hf: f & 0x20 != 0,
        cf: f & 0x10 != 0,
        ..s
    }
}

/// An 8-bit register's value.
pub open spec fn spec_get_reg8(s: CoreView, r: Reg8) -> u8 {
    match r {
        Reg8::A => s.a,
        Reg8::B => s.b,
        Reg8::C => s.c,
        Reg8::D => s.d,
        Reg8::E => s.e,
        Reg8::H => s.h,
        Reg8::L => s.l,
    }
}

/// The state with an 8-bit register set.
pub open spec fn spec_set_reg8(s: CoreView, r: Reg8, v: u8) -> CoreView {
    match r {
        Reg8::A => CoreView { a: v, ..s },
        Reg8::B => CoreView { b: v, ..s },
        Reg8::C => CoreView { c: v, ..s },
        Reg8::D => CoreView { d: v, ..s },
        Reg8::E => CoreView { e: v, ..s },
        Reg8::H => CoreView { h: v, ..s },
        Reg8::L => CoreView { l: v, ..s },
    }
}

/// A 16-bit register or pair read as a word. Every pair is defined
/// purely in terms of its two 8-bit halves; AF packs the accumulator
/// with the flags byte. The post-increment/decrement variants read HL.
pub open spec fn spec_get_pair(s: CoreView, r: Reg16) -> u16 {
    match r {
        Reg16::AF => spec_word(s.a, spec_flags_byte(s)),
        Reg16::BC => spec_word(s.b, s.c),
        Reg16::DE => spec_word(s.d, s.e),
        Reg16::HL => spec_word(s.h, s.l),
        Reg16::HLInc => spec_word(s.h, s.l),
        Reg16::HLDec => spec_word(s.h, s.l),
        Reg16::SP => s.sp,
    }
}

/// The state with a 16-bit register or pair set from a word, high byte
/// to the high register. Setting AF sets the flags from the low byte.
pub open spec fn spec_set_pair(s: CoreView, r: Reg16, v: u16) -> CoreView {
    match r {
        Reg16::AF => CoreView { a: spec_hi(v), ..spec_set_flags_byte(s, spec_lo(v)) },
        Reg16::BC => CoreView { b: spec_hi(v), c: spec_lo(v), ..s },
        Reg16::DE => CoreView { d: spec_hi(v), e: spec_lo(v), ..s },
        Reg16::HL => CoreView { h: spec_hi(v), l: spec_lo(v), ..s },
        Reg16::HLInc => CoreView { h: spec_hi(v), l: spec_lo(v), ..s },
        Reg16::HLDec => CoreView { h: spec_hi(v), l: spec_lo(v), ..s },
        Reg16::SP => CoreView { sp: v, ..s },
    }
}

/// Whether a branch condition holds in a state.
pub open spec fn spec_cond_holds(s: CoreView, c: Cond) -> bool {
    match c {
        Cond::Always => true,
        Cond::ZSet => s.zf,
        Cond::ZReset => !s.zf,
        Cond::CSet => s.cf,
        Cond::CReset => !s.cf,
    }
}

/// The state with the program counter advanced by `n`, wrapping at the
/// top of the address space.
pub open spec fn spec_inc_pc(s: CoreView, n: u16) -> CoreView {
    CoreView { pc: s.pc.wrapping_add(n), ..s }
}

/// A 16-bit read: the low byte at `addr`, the high byte just above it.
pub open spec fn spec_read_mem16(b: BusView, addr: u16) -> Result<u16, Fault> {
    match spec_bus_read(b, addr) {
        Err(f) => Err(f),
        Ok(lo) => match spec_bus_read(b, addr.wrapping_add(1)) {
            Err(f) => Err(f),
            Ok(hi) => Ok(spec_word(hi, lo)),
        },
    }
}

/// A 16-bit peek: as `spec_read_mem16`, without side effects.
pub open spec fn spec_peek_mem16(b: BusView, addr: u16) -> Result<u16, Fault> {
    match spec_bus_peek(b, addr) {
        Err(f) => Err(f),
        Ok(lo) => match spec_bus_peek(b, addr.wrapping_add(1)) {
            Err(f) => Err(f),
            Ok(hi) => Ok(spec_word(hi, lo)),
        },
    }
}

/// The state after an 8-bit memory write.
pub open spec fn spec_write_mem8(s: CoreView, addr: u16, v: u8) -> Result<CoreView, Fault> {
    match spec_bus_write(s.bus, addr, v) {
        Err(f) => Err(f),
        Ok(b) => Ok(CoreView { bus: b, ..s }),
    }
}

/// The state after a 16-bit memory write: the low byte at `addr`, the
/// high byte just above it.
pub open spec fn spec_write_mem16(s: CoreView, addr: u16, v: u16) -> Result<CoreView, Fault> {
    match spec_write_mem8(s, addr, spec_lo(v)) {
        Err(f) => Err(f),
        Ok(s1) => spec_write_mem8(s1, addr.wrapping_add(1), spec_hi(v)),
    }
}

/// Fetch one immediate byte from the instruction stream: read at the
/// program counter, then advance it past the byte.
pub open spec fn spec_fetch8(s: CoreView) -> Result<(CoreView, u8), Fault> {
    match spec_bus_read(s.bus, s.pc) {
        Err(f) => Err(f),
        Ok(v) => Ok((spec_inc_pc(s, 1), v)),
    }
}

/// Fetch a 16-bit immediate from the instruction stream.
pub open spec fn spec_fetch16(s: CoreView) -> Result<(CoreView, u16), Fault> {
    match spec_read_mem16(s.bus, s.pc) {
        Err(f) => Err(f),
        Ok(v) => Ok((spec_inc_pc(s, 2), v)),
    }
}

/// Read a 16-bit register for operand resolution. The post-increment
/// and post-decrement variants yield HL and step it afterwards.
pub open spec fn spec_load_reg16(s: CoreView, r: Reg16) -> (CoreView, u16) {
    match r {
        Reg16::HLInc => (
            spec_set_pair(s, Reg16::HL, spec_word(s.h, s.l).wrapping_add(1)),
            spec_word(s.h, s.l),
        ),
        Reg16::HLDec => (
            spec_set_pair(s, Reg16::HL, spec_word(s.h, s.l).wrapping_sub(1)),
            spec_word(s.h, s.l),
        ),
        _ => (s, spec_get_pair(s, r)),
    }
}

/// Resolve an operand as a source, producing a width-tagged value.
/// Memory references read the bus; immediates consume instruction
/// bytes. The high-page modes have no rule on this path.
pub open spec fn spec_load_operand(s: CoreView, op: Operand) -> Result<(CoreView, Value), Fault> {
    match op {
        Operand::Imm8 => match spec_fetch8(s) {
            Err(f) => Err(f),
            Ok((s1, v)) => Ok((s1, Value::U8(v))),
        },
        Operand::Imm16 => match spec_fetch16(s) {
            Err(f) => Err(f),
            Ok((s1, v)) => Ok((s1, Value::U16(v))),
        },
        Operand::Reg8(r) => Ok((s, Value::U8(spec_get_reg8(s, r)))),
        Operand::Reg16(r) => {
            let (s1, v) = spec_load_reg16(s, r);
            Ok((s1, Value::U16(v)))
        },
        Operand::RegRef16(r) => {
            let (s1, addr) = spec_load_reg16(s, r);
            match spec_bus_read(s1.bus, addr) {
                Err(f) => Err(f),
                Ok(v) => Ok((s1, Value::U8(v))),
            }
        },
        Operand::Imm16Ref => match spec_fetch16(s) {
            Err(f) => Err(f),
            Ok((s1, addr)) => match spec_bus_read(s1.bus, addr) {
                Err(f) => Err(f),
                Ok(v) => Ok((s1, Value::U8(v))),
            },
        },
        _ => Err(Fault::UnimplementedOperand(op)),
    }
}

/// Resolve an operand known to be 8 bits wide. Only immediates,
/// 8-bit registers and register-indirect references have a rule here.
pub open spec fn spec_load_u8_operand(s: CoreView, op: Operand) -> Result<(CoreView, u8), Fault> {
    match op {
        Operand::Imm8 => spec_fetch8(s),
        Operand::Reg8(r) => Ok((s, spec_get_reg8(s, r))),
        Operand::RegRef16(r) => {
            let (s1, addr) = spec_load_reg16(s, r);
            match spec_bus_read(s1.bus, addr) {
                Err(f) => Err(f),
                Ok(v) => Ok((s1, v)),
            }
        },
        _ => Err(Fault::UnimplementedOperand(op)),
    }
}

/// Resolve an operand known to be 16 bits wide.
pub open spec fn spec_load_u16_operand(s: CoreView, op: Operand) -> Result<(CoreView, u16), Fault> {
    match op {
        Operand::Imm16 => spec_fetch16(s),
        Operand::RegRef16(r) => {
            let (s1, addr) = spec_load_reg16(s, r);
            match spec_read_mem16(s1.bus, addr) {
                Err(f) => Err(f),
                Ok(v) => Ok((s1, v)),
            }
        },
        _ => Err(Fault::UnimplementedOperand(op)),
    }
}

/// Store an 8-bit value through an operand used as a destination.
pub open spec fn spec_store_u8(s: CoreView, op: Operand, v: u8) -> Result<CoreView, Fault> {
    match op {
        Operand::Reg8(r) => Ok(spec_set_reg8(s, r, v)),
        Operand::RegRef16(r) => {
            let (s1, addr) = spec_load_reg16(s, r);
            spec_write_mem8(s1, addr, v)
        },
        Operand::Imm16Ref => match spec_fetch16(s) {
            Err(f) => Err(f),
            Ok((s1, addr)) => spec_write_mem8(s1, addr, v),
        },
        Operand::RegRef8(r) => spec_write_mem8(s, (0xFF00 + spec_get_reg8(s, r)) as u16, v),
        _ => Err(Fault::UnimplementedOperand(op)),
    }
}

/// Store a 16-bit value through an operand used as a destination: only
/// the plain 16-bit registers BC, DE, HL and SP have a rule.
pub open spec fn spec_store_u16(s: CoreView, op: Operand, v: u16) -> Result<CoreView, Fault> {
    match op {
        Operand::Reg16(Reg16::BC) => Ok(spec_set_pair(s, Reg16::BC, v)),
        Operand::Reg16(Reg16::DE) => Ok(spec_set_pair(s, Reg16::DE, v)),
        Operand::Reg16(Reg16::HL) => Ok(spec_set_pair(s, Reg16::HL, v)),
        Operand::Reg16(Reg16::SP) => Ok(spec_set_pair(s, Reg16::SP, v)),
        _ => Err(Fault::UnimplementedOperand(op)),
    }
}

/// Store a width-tagged value through an operand.
pub open spec fn spec_store_value(s: CoreView, op: Operand, v: Value) -> Result<CoreView, Fault> {
    match v {
        Value::U8(v8) => spec_store_u8(s, op, v8),
        Value::U16(v16) => spec_store_u16(s, op, v16),
    }
}

/// Push a word: the high byte at the stack pointer, the low byte one
/// below, the stack pointer two lower afterwards (the stack grows
/// downward).
pub open spec fn spec_push16(s: CoreView, v: u16) -> Result<CoreView, Fault> {
    match spec_bus_write(s.bus, s.sp, spec_hi(v)) {
        Err(f) => Err(f),
        Ok(b1) => match spec_bus_write(b1, s.sp.wrapping_sub(1), spec_lo(v)) {
            Err(f) => Err(f),
            Ok(b2) => Ok(CoreView { sp: s.sp.wrapping_sub(2), bus: b2, ..s }),
        },
    }
}

/// Pop a word: the mirror image of `spec_push16`.
pub open spec fn spec_pop16(s: CoreView) -> Result<(CoreView, u16), Fault> {
    match spec_bus_read(s.bus, s.sp.wrapping_add(1)) {
        Err(f) => Err(f),
        Ok(lo) => match spec_bus_read(s.bus, s.sp.wrapping_add(2)) {
            Err(f) => Err(f),
            Ok(hi) => Ok((CoreView { sp: s.sp.wrapping_add(2), ..s }, spec_word(hi, lo))),
        },
    }
}

/// CP: compare the accumulator with an 8-bit operand. Zero if equal,
/// subtract set, half-carry on a borrow from bit 4, carry on unsigned
/// underflow. The accumulator is not changed.
pub open spec fn spec_exec_cp(s: CoreView, op: Operand) -> Result<CoreView, Fault> {
    match spec_load_u8_operand(s, op) {
        Err(f) => Err(f),
        Ok((s1, v)) => Ok(
            CoreView {
                zf: s1.a == v,
                nf: true,
                hf: (s1.a & 0xF) < (v & 0xF),
                cf: s1.a < v,
                ..s1
            },
        ),
    }
}

/// SUB: as CP, but the difference lands in the accumulator.
pub open spec fn spec_exec_sub(s: CoreView, op: Operand) -> Result<CoreView, Fault> {
    match spec_load_u8_operand(s, op) {
        Err(f) => Err(f),
        Ok((s1, v)) => {
            let r = s1.a.wrapping_sub(v);
            Ok(
                CoreView {
                    a: r,
                    zf: r == 0,
                    nf: true,
                    hf: (s1.a & 0xF) < (v & 0xF),
                    cf: s1.a < v,
                    ..s1
                },
            )
        },
    }
}

/// ADD: 8-bit when both operands are 8 bits (half-carry out of bit 3),
/// 16-bit when both are 16 bits (half-carry out of bit 11); any other
/// pairing has no rule. The sum lands back in the target operand.
pub open spec fn spec_exec_add(s: CoreView, target: Operand, value: Operand) -> Result<
    CoreView,
    Fault,
> {
    match spec_load_operand(s, target) {
        Err(f) => Err(f),
        Ok((s1, av)) => match spec_load_operand(s1, value) {
            Err(f) => Err(f),
            Ok((s2, bv)) => match (av, bv) {
                (Value::U8(x), Value::U8(y)) => {
                    let r = x.wrapping_add(y);
                    let s3 = CoreView {
                        zf: r == 0,
                        nf: false,
                        hf: (x & 0xF) + (y & 0xF) > 0xF,
                        cf: x + y > 0xFF,
                        ..s2
                    };
                    spec_store_u8(s3, target, r)
                },
                (Value::U16(x), Value::U16(y)) => {
                    let r = x.wrapping_add(y);
                    let s3 = CoreView {
                        zf: r == 0,
                        nf: false,
                        hf: (x & 0xFFF) + (y & 0xFFF) > 0xFFF,
                        cf: x + y > 0xFFFF,
                        ..s2
                    };
                    spec_store_u16(s3, target, r)
                },
                _ => Err(Fault::UnimplementedInstruction(Instruction::Add(target, value))),
            },
        },
    }
}

/// ADC: add the operand, then add the carry-in, as two sequential
/// additions whose half-carry and carry outcomes are OR-ed; the
/// accumulator holds the final sum.
pub open spec fn spec_exec_adc(s: CoreView, op: Operand) -> Result<CoreView, Fault> {
    match spec_load_u8_operand(s, op) {
        Err(f) => Err(f),
        Ok((s1, v)) => {
            let carry_in: u8 = if s1.cf {
                1
            } else {
                0
            };
            let r1 = s1.a.wrapping_add(v);
            let r2 = r1.wrapping_add(carry_in);
            Ok(
                CoreView {
                    a: r2,
                    zf: r2 == 0,
                    nf: false,
                    hf: (s1.a & 0xF) + (v & 0xF) > 0xF || (r1 & 0xF) + carry_in > 0xF,
                    cf: s1.a + v > 0xFF || r1 + carry_in > 0xFF,
                    ..s1
                },
            )
        },
    }
}

/// AND into the accumulator: half-carry is architecturally forced true,
/// carry false.
pub open spec fn spec_exec_and(s: CoreView, op: Operand) -> Result<CoreView, Fault> {
    match spec_load_u8_operand(s, op) {
        Err(f) => Err(f),
        Ok((s1, v)) => {
            let r = s1.a & v;
            Ok(CoreView { a: r, zf: r == 0, nf: false, hf: true, cf: false, ..s1 })
        },
    }
}

/// OR into the accumulator: subtract, half-carry and carry all cleared.
pub open spec fn spec_exec_or(s: CoreView, op: Operand) -> Result<CoreView, Fault> {
    match spec_load_u8_operand(s, op) {
        Err(f) => Err(f),
        Ok((s1, v)) => {
            let r = s1.a | v;
            Ok(CoreView { a: r, zf: r == 0, nf: false, hf: false, cf: false, ..s1 })
        },
    }
}

/// XOR into the accumulator: subtract, half-carry and carry all cleared.
pub open spec fn spec_exec_xor(s: CoreView, op: Operand) -> Result<CoreView, Fault> {
    match spec_load_u8_operand(s, op) {
        Err(f) => Err(f),
        Ok((s1, v)) => {
            let r = s1.a ^ v;
            Ok(CoreView { a: r, zf: r == 0, nf: false, hf: false, cf: false, ..s1 })
        },
    }
}

/// INC: 8-bit operands set zero/subtract/half-carry by the increment
/// rules (half-carry exactly when the low nibble was 0xF) and never
/// touch carry; 16-bit operands follow the same shape one byte up.
pub open spec fn spec_exec_inc(s: CoreView, target: Operand) -> Result<CoreView, Fault> {
    match spec_load_operand(s, target) {
        Err(f) => Err(f),
        Ok((s1, Value::U8(v))) => {
            let r = v.wrapping_add(1);
            let s2 = CoreView { zf: r == 0, nf: false, hf: v & 0xF == 0xF, ..s1 };
            spec_store_u8(s2, target, r)
        },
        Ok((s1, Value::U16(v))) => {
            let r = v.wrapping_add(1);
            let s2 = CoreView { zf: r == 0, nf: false, hf: v & 0xFF == 0xFF, ..s1 };
            spec_store_u16(s2, target, r)
        },
    }
}

/// DEC: 8-bit operands set zero, subtract, and half-carry exactly when
/// the low nibble of the result is 0xF (a borrow from bit 4), never
/// touching carry; 16-bit operands are decremented with no flag effect.
pub open spec fn spec_exec_dec(s: CoreView, target: Operand) -> Result<CoreView, Fault> {
    match spec_load_operand(s, target) {
        Err(f) => Err(f),
        Ok((s1, Value::U8(v))) => {
            let r = v.wrapping_sub(1);
            let s2 = CoreView { zf: r == 0, nf: true, hf: r & 0xF == 0xF, ..s1 };
            spec_store_u8(s2, target, r)
        },
        Ok((s1, Value::U16(v))) => spec_store_u16(s1, target, v.wrapping_sub(1)),
    }
}

/// BIT: zero is set exactly when the tested bit is clear; subtract
/// cleared, half-carry forced true, carry untouched. Defined for bit
/// indices 0 through 7.
pub open spec fn spec_exec_bit(s: CoreView, bit: u8, target: Operand) -> Result<CoreView, Fault> {
    match spec_load_u8_operand(s, target) {
        Err(f) => Err(f),
        Ok((s1, v)) => Ok(CoreView { zf: v & (1u8 << bit) == 0, nf: false, hf: true, ..s1 }),
    }
}

/// SRL: shift right logical. Carry takes the old bit 0, bit 7 becomes
/// zero, zero is set from the result.
pub open spec fn spec_exec_srl(s: CoreView, target: Operand) -> Result<CoreView, Fault> {
    match spec_load_u8_operand(s, target) {
        Err(f) => Err(f),
        Ok((s1, v)) => {
            let r = v >> 1u8;
            let s2 = CoreView { zf: r == 0, nf: false, hf: false, cf: v & 1 == 1, ..s1 };
            spec_store_u8(s2, target, r)
        },
    }
}

/// RR: rotate right through carry. Carry takes the old bit 0, the old
/// carry enters at bit 7, zero is set from the result.
pub open spec fn spec_exec_rr(s: CoreView, target: Operand) -> Result<CoreView, Fault> {
    match spec_load_u8_operand(s, target) {
        Err(f) => Err(f),
        Ok((s1, v)) => {
            let r = (v >> 1u8) | (if s1.cf {
                0x80u8
            } else {
                0u8
            });
            let s2 = CoreView { zf: r == 0, nf: false, hf: false, cf: v & 1 == 1, ..s1 };
            spec_store_u8(s2, target, r)
        },
    }
}

/// RL: rotate left through carry, the mirror of `spec_exec_rr`. Carry
/// takes the old bit 7.
pub open spec fn spec_exec_rl(s: CoreView, target: Operand) -> Result<CoreView, Fault> {
    match spec_load_u8_operand(s, target) {
        Err(f) => Err(f),
        Ok((s1, v)) => {
            let r = (v << 1u8) | (if s1.cf {
                1u8
            } else {
                0u8
            });
            let s2 = CoreView { zf: r == 0, nf: false, hf: false, cf: v & 0x80 != 0, ..s1 };
            spec_store_u8(s2, target, r)
        },
    }
}

/// RRA: rotate the accumulator right through carry; the accumulator
/// rotate forces zero false regardless of the result.
pub open spec fn spec_exec_rra(s: CoreView) -> Result<CoreView, Fault> {
    match spec_exec_rr(s, Operand::Reg8(Reg8::A)) {
        Err(f) => Err(f),
        Ok(s1) => Ok(CoreView { zf: false, ..s1 }),
    }
}

/// RLA: rotate the accumulator left through carry; zero forced false.
pub open spec fn spec_exec_rla(s: CoreView) -> Result<CoreView, Fault> {
    match spec_exec_rl(s, Operand::Reg8(Reg8::A)) {
        Err(f) => Err(f),
        Ok(s1) => Ok(CoreView { zf: false, ..s1 }),
    }
}

/// JR: consume the signed 8-bit offset, then, if the condition holds,
/// move the program counter by it (backward offsets wrap downward).
pub open spec fn spec_exec_jr(s: CoreView, cond: Cond, offset: Operand) -> Result<CoreView, Fault> {
    let taken = spec_cond_holds(s, cond);
    match spec_load_u8_operand(s, offset) {
        Err(f) => Err(f),
        Ok((s1, off)) => if taken {
            Ok(CoreView { pc: s1.pc.wrapping_add_signed((off as i8) as i16), ..s1 })
        } else {
            Ok(s1)
        },
    }
}

/// JP: consume the 16-bit target, then, if the condition holds, jump.
pub open spec fn spec_exec_jp(s: CoreView, cond: Cond, addr: Operand) -> Result<CoreView, Fault> {
    let taken = spec_cond_holds(s, cond);
    match spec_load_u16_operand(s, addr) {
        Err(f) => Err(f),
        Ok((s1, target)) => if taken {
            Ok(CoreView { pc: target, ..s1 })
        } else {
            Ok(s1)
        },
    }
}

/// CALL: consume the 16-bit target; if the condition holds, push the
/// return address (the already-advanced program counter) and jump.
pub open spec fn spec_exec_call(s: CoreView, cond: Cond, addr: Operand) -> Result<CoreView, Fault> {
    let taken = spec_cond_holds(s, cond);
    match spec_load_u16_operand(s, addr) {
        Err(f) => Err(f),
        Ok((s1, target)) => if taken {
            match spec_push16(s1, s1.pc) {
                Err(f) => Err(f),
                Ok(s2) => Ok(CoreView { pc: target, ..s2 }),
            }
        } else {
            Ok(s1)
        },
    }
}

/// RET: if the condition holds, pop the return address into the
/// program counter.
pub open spec fn spec_exec_ret(s: CoreView, cond: Cond) -> Result<CoreView, Fault> {
    if spec_cond_holds(s, cond) {
        match spec_pop16(s) {
            Err(f) => Err(f),
            Ok((s1, target)) => Ok(CoreView { pc: target, ..s1 }),
        }
    } else {
        Ok(s)
    }
}

/// DI: clear the interrupt-enable flag; nothing else.
pub open spec fn spec_exec_di(s: CoreView) -> Result<CoreView, Fault> {
    Ok(CoreView { ime: false, ..s })
}

/// LD: resolve the source, then store through the target.
pub open spec fn spec_exec_ld(s: CoreView, target: Operand, source: Operand) -> Result<
    CoreView,
    Fault,
> {
    match spec_load_operand(s, source) {
        Err(f) => Err(f),
        Ok((s1, v)) => spec_store_value(s1, target, v),
    }
}

/// LDH: high-page load, restricted to moving the accumulator to or
/// from 0xFF00 plus an 8-bit immediate offset.
pub open spec fn spec_exec_ldh(s: CoreView, target: Operand, source: Operand) -> Result<
    CoreView,
    Fault,
> {
    match (target, source) {
        (Operand::Reg8(Reg8::A), Operand::Imm8Ref) => match spec_fetch8(s) {
            Err(f) => Err(f),
            Ok((s1, n)) => match spec_bus_read(s1.bus, (n as u16 + 0xFF00) as u16) {
                Err(f) => Err(f),
                Ok(v) => Ok(CoreView { a: v, ..s1 }),
            },
        },
        (Operand::Imm8Ref, Operand::Reg8(Reg8::A)) => match spec_fetch8(s) {
            Err(f) => Err(f),
            Ok((s1, n)) => spec_write_mem8(s1, (n as u16 + 0xFF00) as u16, s1.a),
        },
        _ => Err(Fault::UnimplementedInstruction(Instruction::Ldh(target, source))),
    }
}

/// PUSH: push one of the four architectural pairs.
pub open spec fn spec_exec_push(s: CoreView, source: Reg16) -> Result<CoreView, Fault> {
    match source {
        Reg16::AF => spec_push16(s, spec_get_pair(s, Reg16::AF)),
        Reg16::BC => spec_push16(s, spec_get_pair(s, Reg16::BC)),
        Reg16::DE => spec_push16(s, spec_get_pair(s, Reg16::DE)),
        Reg16::HL => spec_push16(s, spec_get_pair(s, Reg16::HL)),
        _ => Err(Fault::UnimplementedInstruction(Instruction::Push(source))),
    }
}

/// POP: pop into one of the four architectural pairs.
pub open spec fn spec_exec_pop(s: CoreView, target: Reg16) -> Result<CoreView, Fault> {
    match target {
        Reg16::AF | Reg16::BC | Reg16::DE | Reg16::HL => match spec_pop16(s) {
            Err(f) => Err(f),
            Ok((s1, v)) => Ok(spec_set_pair(s1, target, v)),
        },
        _ => Err(Fault::UnimplementedInstruction(Instruction::Pop(target))),
    }
}

/// The effect of an extended instruction, from the state just after the
/// extended opcode byte was read: advance the program counter past it,
/// then apply the operation. A bit index outside 0-7 has no rule.
pub open spec fn spec_exec_extended(s: CoreView, instr: ExtendedInstruction) -> Result<
    CoreView,
    Fault,
> {
    let s1 = spec_inc_pc(s, 1);
    match instr {
        ExtendedInstruction::Srl(target) => spec_exec_srl(s1, target),
        ExtendedInstruction::Rr(target) => spec_exec_rr(s1, target),
        ExtendedInstruction::Rl(target) => spec_exec_rl(s1, target),
        ExtendedInstruction::Bit(bit, target) => if bit < 8 {
            spec_exec_bit(s1, bit, target)
        } else {
            Err(Fault::UnimplementedExtended(instr))
        },
        ExtendedInstruction::Unimplemented(_) => Err(Fault::UnimplementedExtended(instr)),
    }
}

/// The effect of an instruction's rule, from the state just past the
/// opcode byte. An instruction without a rule is a fault, never a
/// silent guess.
pub open spec fn spec_execute_inner(s1: CoreView, instr: Instruction) -> Result<CoreView, Fault> {
    match instr {
        Instruction::Nop => Ok(s1),
        Instruction::Jr(cond, offset) => spec_exec_jr(s1, cond, offset),
        Instruction::Jp(cond, addr) => spec_exec_jp(s1, cond, addr),
        Instruction::Call(cond, addr) => spec_exec_call(s1, cond, addr),
        Instruction::Ret(cond) => spec_exec_ret(s1, cond),
        Instruction::Di => spec_exec_di(s1),
        Instruction::Ld(target, source) => spec_exec_ld(s1, target, source),
        Instruction::Ldh(target, source) => spec_exec_ldh(s1, target, source),
        Instruction::Push(source) => spec_exec_push(s1, source),
        Instruction::Pop(target) => spec_exec_pop(s1, target),
        Instruction::Cp(source) => spec_exec_cp(s1, source),
        Instruction::Add(target, value) => spec_exec_add(s1, target, value),
        Instruction::Adc(value) => spec_exec_adc(s1, value),
        Instruction::Sub(value) => spec_exec_sub(s1, value),
        Instruction::Inc(target) => spec_exec_inc(s1, target),
        Instruction::Dec(target) => spec_exec_dec(s1, target),
        Instruction::And(value) => spec_exec_and(s1, value),
        Instruction::Or(value) => spec_exec_or(s1, value),
        Instruction::Xor(value) => spec_exec_xor(s1, value),
        Instruction::Rra => spec_exec_rra(s1),
        Instruction::Rla => spec_exec_rla(s1),
        Instruction::Extended => match spec_bus_read(s1.bus, s1.pc) {
            Err(f) => Err(f),
            Ok(code) => spec_exec_extended(s1, spec_decode_extended(code)),
        },
        Instruction::Unimplemented(_) => Err(Fault::UnimplementedInstruction(instr)),
    }
}

/// The effect of one decoded instruction: advance the program counter
/// past the opcode byte, then apply the instruction's rule.
pub open spec fn spec_execute(s: CoreView, instr: Instruction) -> Result<CoreView, Fault> {
    spec_execute_inner(spec_inc_pc(s, 1), instr)
}

/// One fetch-decode-execute step: peek the opcode at the program
/// counter (the bus charges no cost for the fetch), decode it, execute.
pub open spec fn spec_step(s: CoreView) -> Result<CoreView, Fault> {
    match spec_bus_peek(s.bus, s.pc) {
        Err(f) => Err(f),
        Ok(code) => spec_execute(s, crate::instruction::spec_decode(code)),
    }
}

} // verus!
