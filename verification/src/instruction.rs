//! Instruction decoding: a total map from a raw opcode byte to a typed
//! instruction value, and a second total map for the extended opcodes
//! reached through the 0xCB escape byte.
//!
//! Decoding only recognizes the opcode byte; immediate operand bytes are
//! fetched later, during execution, from the addresses that follow the
//! opcode. An opcode that has not been given execution semantics decodes
//! to an explicit placeholder variant instead of failing, so decoding is
//! total over all 256 byte values.

use vstd::prelude::*;

verus! {

/// An individually addressable 8-bit register.
#[derive(Clone, Copy, Debug, PartialEq, Eq, Structural)]
pub enum Reg8 {
    A,
    B,
    C,
    D,
    E,
    H,
    L,
}

/// A 16-bit register, or a pair of 8-bit registers read and written
/// through their high/low packing. `HLInc` and `HLDec` name the HL pair
/// with a post-increment or post-decrement of HL when used as a memory
/// reference.
#[derive(Clone, Copy, Debug, PartialEq, Eq, Structural)]
pub enum Reg16 {
    AF,
    BC,
    DE,
    HL,
    HLInc,
    HLDec,
    SP,
}

/// A branch condition for conditional jumps, calls and returns.
#[derive(Clone, Copy, Debug, PartialEq, Eq, Structural)]
pub enum Cond {
    Always,
    ZSet,
    ZReset,
    CSet,
    CReset,
}

/// An addressing-mode descriptor. Operands never carry a decoded value;
/// they say where a value comes from or goes to, and are resolved at
/// execution time.
#[derive(Clone, Copy, Debug, PartialEq, Eq, Structural)]
pub enum Operand {
    /// An 8-bit immediate read from the instruction stream.
    Imm8,
    /// A 16-bit immediate read from the instruction stream.
    Imm16,
    /// An 8-bit register.
    Reg8(Reg8),
    /// A 16-bit register or register pair.
    Reg16(Reg16),
    /// A memory reference through a 16-bit register (optionally with
    /// post-increment or post-decrement of that register).
    RegRef16(Reg16),
    /// A memory reference through an 8-bit register offset into the
    /// high I/O page 0xFF00-0xFFFF.
    RegRef8(Reg8),
    /// A memory reference through an 8-bit immediate offset into the
    /// high I/O page (used by the high-page loads).
    Imm8Ref,
    /// A memory reference through a 16-bit immediate address.
    Imm16Ref,
}

/// A decoded primary instruction.
#[derive(Clone, Copy, Debug, PartialEq, Eq, Structural)]
pub enum Instruction {
    Nop,
    Jr(Cond, Operand),
    Jp(Cond, Operand),
    Call(Cond, Operand),
    Ret(Cond),
    Di,
    Ld(Operand, Operand),
    Ldh(Operand, Operand),
    Push(Reg16),
    Pop(Reg16),
    Add(Operand, Operand),
    Adc(Operand),
    Sub(Operand),
    Cp(Operand),
    Inc(Operand),
    Dec(Operand),
    And(Operand),
    Or(Operand),
    Xor(Operand),
    Rra,
    Rla,
    /// Escape opcode 0xCB: the next byte selects an extended instruction.
    Extended,
    /// An opcode that is not yet modeled, carrying the raw byte.
    Unimplemented(u8),
}

/// A decoded extended (0xCB-prefixed) instruction.
#[derive(Clone, Copy, Debug, PartialEq, Eq, Structural)]
pub enum ExtendedInstruction {
    Rl(Operand),
    Rr(Operand),
    Srl(Operand),
    Bit(u8, Operand),
    /// An extended opcode that is not yet modeled, carrying the raw byte.
    Unimplemented(u8),
}

/// The operand selected by the low three bits of an opcode in the
/// regular register grids (loads, arithmetic, extended operations):
/// B, C, D, E, H, L, memory at HL, A.
pub open spec fn spec_grid_operand(i: u8) -> Operand {
    if i == 0 {
        Operand::Reg8(Reg8::B)
    } else if i == 1 {
        Operand::Reg8(Reg8::C)
    } else if i == 2 {
        Operand::Reg8(Reg8::D)
    } else if i == 3 {
        Operand::Reg8(Reg8::E)
    } else if i == 4 {
        Operand::Reg8(Reg8::H)
    } else if i == 5 {
        Operand::Reg8(Reg8::L)
    } else if i == 6 {
        Operand::RegRef16(Reg16::HL)
    } else {
        Operand::Reg8(Reg8::A)
    }
}

fn grid_operand(i: u8) -> (r: Operand)
    ensures
        r == spec_grid_operand(i),
{
    if i == 0 {
        Operand::Reg8(Reg8::B)
    } else if i == 1 {
        Operand::Reg8(Reg8::C)
    } else if i == 2 {
        Operand::Reg8(Reg8::D)
    } else if i == 3 {
        Operand::Reg8(Reg8::E)
    } else if i == 4 {
        Operand::Reg8(Reg8::H)
    } else if i == 5 {
        Operand::Reg8(Reg8::L)
    } else if i == 6 {
        Operand::RegRef16(Reg16::HL)
    } else {
        Operand::Reg8(Reg8::A)
    }
}

/// The meaning of every primary opcode byte. Total: bytes without
/// modeled semantics map to the placeholder variant.
pub open spec fn spec_decode(code: u8) -> Instruction {
    if 0x40 <= code && code <= 0x7F {
        // The 8-bit load grid; 0x76 is the halt slot, not a load.
        if code == 0x76 {
            Instruction::Unimplemented(code)
        } else {
            Instruction::Ld(
                spec_grid_operand(((code - 0x40) / 8) as u8),
                spec_grid_operand((code % 8) as u8),
            )
        }
    } else if 0x80 <= code && code <= 0xBF {
        // The 8-bit arithmetic/logic grid over the accumulator.
        let src = spec_grid_operand((code % 8) as u8);
        if code <= 0x87 {
            Instruction::Add(Operand::Reg8(Reg8::A), src)
        } else if code <= 0x8F {
            Instruction::Adc(src)
        } else if code <= 0x97 {
            Instruction::Sub(src)
        } else if code <= 0x9F {
            Instruction::Unimplemented(code)
        } else if code <= 0xA7 {
            Instruction::And(src)
        } else if code <= 0xAF {
            Instruction::Xor(src)
        } else if code <= 0xB7 {
            Instruction::Or(src)
        } else {
            Instruction::Cp(src)
        }
    } else {
        match code {
            0x00 => Instruction::Nop,
            0x01 => Instruction::Ld(Operand::Reg16(Reg16::BC), Operand::Imm16),
            0x02 => Instruction::Ld(Operand::RegRef16(Reg16::BC), Operand::Reg8(Reg8::A)),
            0x03 => Instruction::Inc(Operand::Reg16(Reg16::BC)),
            0x04 => Instruction::Inc(Operand::Reg8(Reg8::B)),
            0x05 => Instruction::Dec(Operand::Reg8(Reg8::B)),
            0x06 => Instruction::Ld(Operand::Reg8(Reg8::B), Operand::Imm8),
            0x09 => Instruction::Add(Operand::Reg16(Reg16::HL), Operand::Reg16(Reg16::BC)),
            0x0A => Instruction::Ld(Operand::Reg8(Reg8::A), Operand::RegRef16(Reg16::BC)),
            0x0B => Instruction::Dec(Operand::Reg16(Reg16::BC)),
            0x0C => Instruction::Inc(Operand::Reg8(Reg8::C)),
            0x0D => Instruction::Dec(Operand::Reg8(Reg8::C)),
            0x0E => Instruction::Ld(Operand::Reg8(Reg8::C), Operand::Imm8),
            0x11 => Instruction::Ld(Operand::Reg16(Reg16::DE), Operand::Imm16),
            0x12 => Instruction::Ld(Operand::RegRef16(Reg16::DE), Operand::Reg8(Reg8::A)),
            0x13 => Instruction::Inc(Operand::Reg16(Reg16::DE)),
            0x14 => Instruction::Inc(Operand::Reg8(Reg8::D)),
            0x15 => Instruction::Dec(Operand::Reg8(Reg8::D)),
            0x16 => Instruction::Ld(Operand::Reg8(Reg8::D), Operand::Imm8),
            0x17 => Instruction::Rla,
            0x18 => Instruction::Jr(Cond::Always, Operand::Imm8),
            0x19 => Instruction::Add(Operand::Reg16(Reg16::HL), Operand::Reg16(Reg16::DE)),
            0x1A => Instruction::Ld(Operand::Reg8(Reg8::A), Operand::RegRef16(Reg16::DE)),
            0x1B => Instruction::Dec(Operand::Reg16(Reg16::DE)),
            0x1C => Instruction::Inc(Operand::Reg8(Reg8::E)),
            0x1D => Instruction::Dec(Operand::Reg8(Reg8::E)),
            0x1E => Instruction::Ld(Operand::Reg8(Reg8::E), Operand::Imm8),
            0x1F => Instruction::Rra,
            0x20 => Instruction::Jr(Cond::ZReset, Operand::Imm8),
            0x21 => Instruction::Ld(Operand::Reg16(Reg16::HL), Operand::Imm16),
            0x22 => Instruction::Ld(Operand::RegRef16(Reg16::HLInc), Operand::Reg8(Reg8::A)),
            0x23 => Instruction::Inc(Operand::Reg16(Reg16::HL)),
            0x24 => Instruction::Inc(Operand::Reg8(Reg8::H)),
            0x25 => Instruction::Dec(Operand::Reg8(Reg8::H)),
            0x26 => Instruction::Ld(Operand::Reg8(Reg8::H), Operand::Imm8),
            0x28 => Instruction::Jr(Cond::ZSet, Operand::Imm8),
            0x29 => Instruction::Add(Operand::Reg16(Reg16::HL), Operand::Reg16(Reg16::HL)),
            0x2A => Instruction::Ld(Operand::Reg8(Reg8::A), Operand::RegRef16(Reg16::HLInc)),
            0x2B => Instruction::Dec(Operand::Reg16(Reg16::HL)),
            0x2C => Instruction::Inc(Operand::Reg8(Reg8::L)),
            0x2D => Instruction::Dec(Operand::Reg8(Reg8::L)),
            0x2E => Instruction::Ld(Operand::Reg8(Reg8::L), Operand::Imm8),
            0x30 => Instruction::Jr(Cond::CReset, Operand::Imm8),
            0x31 => Instruction::Ld(Operand::Reg16(Reg16::SP), Operand::Imm16),
            0x32 => Instruction::Ld(Operand::RegRef16(Reg16::HLDec), Operand::Reg8(Reg8::A)),
            0x33 => Instruction::Inc(Operand::Reg16(Reg16::SP)),
            0x34 => Instruction::Inc(Operand::RegRef16(Reg16::HL)),
            0x35 => Instruction::Dec(Operand::RegRef16(Reg16::HL)),
            0x36 => Instruction::Ld(Operand::RegRef16(Reg16::HL), Operand::Imm8),
            0x38 => Instruction::Jr(Cond::CSet, Operand::Imm8),
            0x39 => Instruction::Add(Operand::Reg16(Reg16::HL), Operand::Reg16(Reg16::SP)),
            0x3A => Instruction::Ld(Operand::Reg8(Reg8::A), Operand::RegRef16(Reg16::HLDec)),
            0x3B => Instruction::Dec(Operand::Reg16(Reg16::SP)),
            0x3C => Instruction::Inc(Operand::Reg8(Reg8::A)),
            0x3D => Instruction::Dec(Operand::Reg8(Reg8::A)),
            0x3E => Instruction::Ld(Operand::Reg8(Reg8::A), Operand::Imm8),
            0xC0 => Instruction::Ret(Cond::ZReset),
            0xC1 => Instruction::Pop(Reg16::BC),
            0xC2 => Instruction::Jp(Cond::ZReset, Operand::Imm16),
            0xC3 => Instruction::Jp(Cond::Always, Operand::Imm16),
            0xC4 => Instruction::Call(Cond::ZReset, Operand::Imm16),
            0xC5 => Instruction::Push(Reg16::BC),
            0xC6 => Instruction::Add(Operand::Reg8(Reg8::A), Operand::Imm8),
            0xC8 => Instruction::Ret(Cond::ZSet),
            0xC9 => Instruction::Ret(Cond::Always),
            0xCA => Instruction::Jp(Cond::ZSet, Operand::Imm16),
            0xCB => Instruction::Extended,
            0xCC => Instruction::Call(Cond::ZSet, Operand::Imm16),
            0xCD => Instruction::Call(Cond::Always, Operand::Imm16),
            0xCE => Instruction::Adc(Operand::Imm8),
            0xD0 => Instruction::Ret(Cond::CReset),
            0xD1 => Instruction::Pop(Reg16::DE),
            0xD2 => Instruction::Jp(Cond::CReset, Operand::Imm16),
            0xD4 => Instruction::Call(Cond::CReset, Operand::Imm16),
            0xD5 => Instruction::Push(Reg16::DE),
            0xD6 => Instruction::Sub(Operand::Imm8),
            0xD8 => Instruction::Ret(Cond::CSet),
            0xDA => Instruction::Jp(Cond::CSet, Operand::Imm16),
            0xDC => Instruction::Call(Cond::CSet, Operand::Imm16),
            0xE0 => Instruction::Ldh(Operand::Imm8Ref, Operand::Reg8(Reg8::A)),
            0xE1 => Instruction::Pop(Reg16::HL),
            0xE2 => Instruction::Ld(Operand::RegRef8(Reg8::C), Operand::Reg8(Reg8::A)),
            0xE5 => Instruction::Push(Reg16::HL),
            0xE6 => Instruction::And(Operand::Imm8),
            0xEA => Instruction::Ld(Operand::Imm16Ref, Operand::Reg8(Reg8::A)),
            0xEE => Instruction::Xor(Operand::Imm8),
            0xF0 => Instruction::Ldh(Operand::Reg8(Reg8::A), Operand::Imm8Ref),
            0xF1 => Instruction::Pop(Reg16::AF),
            0xF3 => Instruction::Di,
            0xF5 => Instruction::Push(Reg16::AF),
            0xF6 => Instruction::Or(Operand::Imm8),
            0xFA => Instruction::Ld(Operand::Reg8(Reg8::A), Operand::Imm16Ref),
            0xFE => Instruction::Cp(Operand::Imm8),
            _ => Instruction::Unimplemented(code),
        }
    }
}

/// The meaning of every extended opcode byte (the byte after the 0xCB
/// escape). Total, as `spec_decode` is.
pub open spec fn spec_decode_extended(code: u8) -> ExtendedInstruction {
    if 0x10 <= code && code <= 0x17 {
        ExtendedInstruction::Rl(spec_grid_operand((code % 8) as u8))
    } else if 0x18 <= code && code <= 0x1F {
        ExtendedInstruction::Rr(spec_grid_operand((code % 8) as u8))
    } else if 0x38 <= code && code <= 0x3F {
        ExtendedInstruction::Srl(spec_grid_operand((code % 8) as u8))
    } else if 0x40 <= code && code <= 0x7F {
        ExtendedInstruction::Bit(((code - 0x40) / 8) as u8, spec_grid_operand((code % 8) as u8))
    } else {
        ExtendedInstruction::Unimplemented(code)
    }
}

impl Instruction {
    /// Decode a primary opcode byte. Pure and total: every byte value
    /// yields a defined variant, with unmodeled opcodes carried in the
    /// placeholder variant.
    pub fn decode(code: u8) -> (r: Instruction)
        ensures
            r == spec_decode(code),
    {
        if 0x40 <= code && code <= 0x7F {
            if code == 0x76 {
                Instruction::Unimplemented(code)
            } else {
                Instruction::Ld(grid_operand((code - 0x40) / 8), grid_operand(code % 8))
            }
        } else if 0x80 <= code && code <= 0xBF {
            let src = grid_operand(code % 8);
            if code <= 0x87 {
                Instruction::Add(Operand::Reg8(Reg8::A), src)
            } else if code <= 0x8F {
                Instruction::Adc(src)
            } else if code <= 0x97 {
                Instruction::Sub(src)
            } else if code <= 0x9F {
                Instruction::Unimplemented(code)
            } else if code <= 0xA7 {
                Instruction::And(src)
            } else if code <= 0xAF {
                Instruction::Xor(src)
            } else if code <= 0xB7 {
                Instruction::Or(src)
            } else {
                Instruction::Cp(src)
            }
        } else {
            match code {
                0x00 => Instruction::Nop,
                0x01 => Instruction::Ld(Operand::Reg16(Reg16::BC), Operand::Imm16),
                0x02 => Instruction::Ld(Operand::RegRef16(Reg16::BC), Operand::Reg8(Reg8::A)),
                0x03 => Instruction::Inc(Operand::Reg16(Reg16::BC)),
                0x04 => Instruction::Inc(Operand::Reg8(Reg8::B)),
                0x05 => Instruction::Dec(Operand::Reg8(Reg8::B)),
                0x06 => Instruction::Ld(Operand::Reg8(Reg8::B), Operand::Imm8),
                0x09 => Instruction::Add(Operand::Reg16(Reg16::HL), Operand::Reg16(Reg16::BC)),
                0x0A => Instruction::Ld(Operand::Reg8(Reg8::A), Operand::RegRef16(Reg16::BC)),
                0x0B => Instruction::Dec(Operand::Reg16(Reg16::BC)),
                0x0C => Instruction::Inc(Operand::Reg8(Reg8::C)),
                0x0D => Instruction::Dec(Operand::Reg8(Reg8::C)),
                0x0E => Instruction::Ld(Operand::Reg8(Reg8::C), Operand::Imm8),
                0x11 => Instruction::Ld(Operand::Reg16(Reg16::DE), Operand::Imm16),
                0x12 => Instruction::Ld(Operand::RegRef16(Reg16::DE), Operand::Reg8(Reg8::A)),
                0x13 => Instruction::Inc(Operand::Reg16(Reg16::DE)),
                0x14 => Instruction::Inc(Operand::Reg8(Reg8::D)),
                0x15 => Instruction::Dec(Operand::Reg8(Reg8::D)),
                0x16 => Instruction::Ld(Operand::Reg8(Reg8::D), Operand::Imm8),
                0x17 => Instruction::Rla,
                0x18 => Instruction::Jr(Cond::Always, Operand::Imm8),
                0x19 => Instruction::Add(Operand::Reg16(Reg16::HL), Operand::Reg16(Reg16::DE)),
                0x1A => Instruction::Ld(Operand::Reg8(Reg8::A), Operand::RegRef16(Reg16::DE)),
                0x1B => Instruction::Dec(Operand::Reg16(Reg16::DE)),
                0x1C => Instruction::Inc(Operand::Reg8(Reg8::E)),
                0x1D => Instruction::Dec(Operand::Reg8(Reg8::E)),
                0x1E => Instruction::Ld(Operand::Reg8(Reg8::E), Operand::Imm8),
                0x1F => Instruction::Rra,
                0x20 => Instruction::Jr(Cond::ZReset, Operand::Imm8),
                0x21 => Instruction::Ld(Operand::Reg16(Reg16::HL), Operand::Imm16),
                0x22 => Instruction::Ld(Operand::RegRef16(Reg16::HLInc), Operand::Reg8(Reg8::A)),
                0x23 => Instruction::Inc(Operand::Reg16(Reg16::HL)),
                0x24 => Instruction::Inc(Operand::Reg8(Reg8::H)),
                0x25 => Instruction::Dec(Operand::Reg8(Reg8::H)),
                0x26 => Instruction::Ld(Operand::Reg8(Reg8::H), Operand::Imm8),
                0x28 => Instruction::Jr(Cond::ZSet, Operand::Imm8),
                0x29 => Instruction::Add(Operand::Reg16(Reg16::HL), Operand::Reg16(Reg16::HL)),
                0x2A => Instruction::Ld(Operand::Reg8(Reg8::A), Operand::RegRef16(Reg16::HLInc)),
                0x2B => Instruction::Dec(Operand::Reg16(Reg16::HL)),
                0x2C => Instruction::Inc(Operand::Reg8(Reg8::L)),
                0x2D => Instruction::Dec(Operand::Reg8(Reg8::L)),
                0x2E => Instruction::Ld(Operand::Reg8(Reg8::L), Operand::Imm8),
                0x30 => Instruction::Jr(Cond::CReset, Operand::Imm8),
                0x31 => Instruction::Ld(Operand::Reg16(Reg16::SP), Operand::Imm16),
                0x32 => Instruction::Ld(Operand::RegRef16(Reg16::HLDec), Operand::Reg8(Reg8::A)),
                0x33 => Instruction::Inc(Operand::Reg16(Reg16::SP)),
                0x34 => Instruction::Inc(Operand::RegRef16(Reg16::HL)),
                0x35 => Instruction::Dec(Operand::RegRef16(Reg16::HL)),
                0x36 => Instruction::Ld(Operand::RegRef16(Reg16::HL), Operand::Imm8),
                0x38 => Instruction::Jr(Cond::CSet, Operand::Imm8),
                0x39 => Instruction::Add(Operand::Reg16(Reg16::HL), Operand::Reg16(Reg16::SP)),
                0x3A => Instruction::Ld(Operand::Reg8(Reg8::A), Operand::RegRef16(Reg16::HLDec)),
                0x3B => Instruction::Dec(Operand::Reg16(Reg16::SP)),
                0x3C => Instruction::Inc(Operand::Reg8(Reg8::A)),
                0x3D => Instruction::Dec(Operand::Reg8(Reg8::A)),
                0x3E => Instruction::Ld(Operand::Reg8(Reg8::A), Operand::Imm8),
                0xC0 => Instruction::Ret(Cond::ZReset),
                0xC1 => Instruction::Pop(Reg16::BC),
                0xC2 => Instruction::Jp(Cond::ZReset, Operand::Imm16),
                0xC3 => Instruction::Jp(Cond::Always, Operand::Imm16),
                0xC4 => Instruction::Call(Cond::ZReset, Operand::Imm16),
                0xC5 => Instruction::Push(Reg16::BC),
                0xC6 => Instruction::Add(Operand::Reg8(Reg8::A), Operand::Imm8),
                0xC8 => Instruction::Ret(Cond::ZSet),
                0xC9 => Instruction::Ret(Cond::Always),
                0xCA => Instruction::Jp(Cond::ZSet, Operand::Imm16),
                0xCB => Instruction::Extended,
                0xCC => Instruction::Call(Cond::ZSet, Operand::Imm16),
                0xCD => Instruction::Call(Cond::Always, Operand::Imm16),
                0xCE => Instruction::Adc(Operand::Imm8),
                0xD0 => Instruction::Ret(Cond::CReset),
                0xD1 => Instruction::Pop(Reg16::DE),
                0xD2 => Instruction::Jp(Cond::CReset, Operand::Imm16),
                0xD4 => Instruction::Call(Cond::CReset, Operand::Imm16),
                0xD5 => Instruction::Push(Reg16::DE),
                0xD6 => Instruction::Sub(Operand::Imm8),
                0xD8 => Instruction::Ret(Cond::CSet),
                0xDA => Instruction::Jp(Cond::CSet, Operand::Imm16),
                0xDC => Instruction::Call(Cond::CSet, Operand::Imm16),
                0xE0 => Instruction::Ldh(Operand::Imm8Ref, Operand::Reg8(Reg8::A)),
                0xE1 => Instruction::Pop(Reg16::HL),
                0xE2 => Instruction::Ld(Operand::RegRef8(Reg8::C), Operand::Reg8(Reg8::A)),
                0xE5 => Instruction::Push(Reg16::HL),
                0xE6 => Instruction::And(Operand::Imm8),
                0xEA => Instruction::Ld(Operand::Imm16Ref, Operand::Reg8(Reg8::A)),
                0xEE => Instruction::Xor(Operand::Imm8),
                0xF0 => Instruction::Ldh(Operand::Reg8(Reg8::A), Operand::Imm8Ref),
                0xF1 => Instruction::Pop(Reg16::AF),
                0xF3 => Instruction::Di,
                0xF5 => Instruction::Push(Reg16::AF),
                0xF6 => Instruction::Or(Operand::Imm8),
                0xFA => Instruction::Ld(Operand::Reg8(Reg8::A), Operand::Imm16Ref),
                0xFE => Instruction::Cp(Operand::Imm8),
                _ => Instruction::Unimplemented(code),
            }
        }
    }
}

impl ExtendedInstruction {
    /// Decode the byte after the 0xCB escape. Pure and total over all
    /// 256 extended opcode values.
    pub fn decode(code: u8) -> (r: ExtendedInstruction)
        ensures
            r == spec_decode_extended(code),
    {
        if 0x10 <= code && code <= 0x17 {
            ExtendedInstruction::Rl(grid_operand(code % 8))
        } else if 0x18 <= code && code <= 0x1F {
            ExtendedInstruction::Rr(grid_operand(code % 8))
        } else if 0x38 <= code && code <= 0x3F {
            ExtendedInstruction::Srl(grid_operand(code % 8))
        } else if 0x40 <= code && code <= 0x7F {
            ExtendedInstruction::Bit((code - 0x40) / 8, grid_operand(code % 8))
        } else {
            ExtendedInstruction::Unimplemented(code)
        }
    }
}

} // verus!
