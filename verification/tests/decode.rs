use gbemu::instruction::{Cond, ExtendedInstruction, Instruction, Operand, Reg16, Reg8};

#[test]
fn decode_is_total_over_all_bytes() {
    for code in 0..=255u8 {
        // Every byte must yield a defined variant; the calls must not fail.
        let _ = Instruction::decode(code);
        let _ = ExtendedInstruction::decode(code);
    }
}

#[test]
fn decode_control_flow_opcodes() {
    assert_eq!(Instruction::decode(0x00), Instruction::Nop);
    assert_eq!(Instruction::decode(0x18), Instruction::Jr(Cond::Always, Operand::Imm8));
    assert_eq!(Instruction::decode(0x20), Instruction::Jr(Cond::ZReset, Operand::Imm8));
    assert_eq!(Instruction::decode(0x28), Instruction::Jr(Cond::ZSet, Operand::Imm8));
    assert_eq!(Instruction::decode(0x30), Instruction::Jr(Cond::CReset, Operand::Imm8));
    assert_eq!(Instruction::decode(0x38), Instruction::Jr(Cond::CSet, Operand::Imm8));
    assert_eq!(Instruction::decode(0xC3), Instruction::Jp(Cond::Always, Operand::Imm16));
    assert_eq!(Instruction::decode(0xCD), Instruction::Call(Cond::Always, Operand::Imm16));
    assert_eq!(Instruction::decode(0xC9), Instruction::Ret(Cond::Always));
    assert_eq!(Instruction::decode(0xC0), Instruction::Ret(Cond::ZReset));
    assert_eq!(Instruction::decode(0xF3), Instruction::Di);
    assert_eq!(Instruction::decode(0xCB), Instruction::Extended);
}

#[test]
fn decode_load_grid() {
    assert_eq!(
        Instruction::decode(0x41),
        Instruction::Ld(Operand::Reg8(Reg8::B), Operand::Reg8(Reg8::C))
    );
    assert_eq!(
        Instruction::decode(0x7E),
        Instruction::Ld(Operand::Reg8(Reg8::A), Operand::RegRef16(Reg16::HL))
    );
    assert_eq!(
        Instruction::decode(0x70),
        Instruction::Ld(Operand::RegRef16(Reg16::HL), Operand::Reg8(Reg8::B))
    );
    assert_eq!(
        Instruction::decode(0x6C),
        Instruction::Ld(Operand::Reg8(Reg8::L), Operand::Reg8(Reg8::H))
    );
    // The halt slot in the middle of the grid is not a load.
    assert_eq!(Instruction::decode(0x76), Instruction::Unimplemented(0x76));
}

#[test]
fn decode_loads_and_autoincrement() {
    assert_eq!(
        Instruction::decode(0x22),
        Instruction::Ld(Operand::RegRef16(Reg16::HLInc), Operand::Reg8(Reg8::A))
    );
    assert_eq!(
        Instruction::decode(0x2A),
        Instruction::Ld(Operand::Reg8(Reg8::A), Operand::RegRef16(Reg16::HLInc))
    );
    assert_eq!(
        Instruction::decode(0x32),
        Instruction::Ld(Operand::RegRef16(Reg16::HLDec), Operand::Reg8(Reg8::A))
    );
    assert_eq!(
        Instruction::decode(0x31),
        Instruction::Ld(Operand::Reg16(Reg16::SP), Operand::Imm16)
    );
    assert_eq!(
        Instruction::decode(0xEA),
        Instruction::Ld(Operand::Imm16Ref, Operand::Reg8(Reg8::A))
    );
    assert_eq!(
        Instruction::decode(0xE2),
        Instruction::Ld(Operand::RegRef8(Reg8::C), Operand::Reg8(Reg8::A))
    );
    assert_eq!(Instruction::decode(0xE0), Instruction::Ldh(Operand::Imm8Ref, Operand::Reg8(Reg8::A)));
    assert_eq!(Instruction::decode(0xF0), Instruction::Ldh(Operand::Reg8(Reg8::A), Operand::Imm8Ref));
}

#[test]
fn decode_arithmetic_grid() {
    assert_eq!(
        Instruction::decode(0x80),
        Instruction::Add(Operand::Reg8(Reg8::A), Operand::Reg8(Reg8::B))
    );
    assert_eq!(
        Instruction::decode(0x86),
        Instruction::Add(Operand::Reg8(Reg8::A), Operand::RegRef16(Reg16::HL))
    );
    assert_eq!(Instruction::decode(0x88), Instruction::Adc(Operand::Reg8(Reg8::B)));
    assert_eq!(Instruction::decode(0x90), Instruction::Sub(Operand::Reg8(Reg8::B)));
    // The subtract-with-carry row is not yet modeled.
    assert_eq!(Instruction::decode(0x98), Instruction::Unimplemented(0x98));
    assert_eq!(Instruction::decode(0xA1), Instruction::And(Operand::Reg8(Reg8::C)));
    assert_eq!(Instruction::decode(0xAF), Instruction::Xor(Operand::Reg8(Reg8::A)));
    assert_eq!(Instruction::decode(0xB2), Instruction::Or(Operand::Reg8(Reg8::D)));
    assert_eq!(Instruction::decode(0xB8), Instruction::Cp(Operand::Reg8(Reg8::B)));
    assert_eq!(Instruction::decode(0xFE), Instruction::Cp(Operand::Imm8));
    assert_eq!(Instruction::decode(0x09), Instruction::Add(Operand::Reg16(Reg16::HL), Operand::Reg16(Reg16::BC)));
    assert_eq!(Instruction::decode(0x34), Instruction::Inc(Operand::RegRef16(Reg16::HL)));
    assert_eq!(Instruction::decode(0x3D), Instruction::Dec(Operand::Reg8(Reg8::A)));
    assert_eq!(Instruction::decode(0x17), Instruction::Rla);
    assert_eq!(Instruction::decode(0x1F), Instruction::Rra);
}

#[test]
fn decode_stack_opcodes() {
    assert_eq!(Instruction::decode(0xC5), Instruction::Push(Reg16::BC));
    assert_eq!(Instruction::decode(0xD5), Instruction::Push(Reg16::DE));
    assert_eq!(Instruction::decode(0xE5), Instruction::Push(Reg16::HL));
    assert_eq!(Instruction::decode(0xF5), Instruction::Push(Reg16::AF));
    assert_eq!(Instruction::decode(0xC1), Instruction::Pop(Reg16::BC));
    assert_eq!(Instruction::decode(0xF1), Instruction::Pop(Reg16::AF));
}

#[test]
fn decode_extended_rows() {
    assert_eq!(
        ExtendedInstruction::decode(0x11),
        ExtendedInstruction::Rl(Operand::Reg8(Reg8::C))
    );
    assert_eq!(
        ExtendedInstruction::decode(0x19),
        ExtendedInstruction::Rr(Operand::Reg8(Reg8::C))
    );
    assert_eq!(
        ExtendedInstruction::decode(0x3F),
        ExtendedInstruction::Srl(Operand::Reg8(Reg8::A))
    );
    assert_eq!(
        ExtendedInstruction::decode(0x7C),
        ExtendedInstruction::Bit(7, Operand::Reg8(Reg8::H))
    );
    assert_eq!(
        ExtendedInstruction::decode(0x46),
        ExtendedInstruction::Bit(0, Operand::RegRef16(Reg16::HL))
    );
    // Rotate-left-circular row: not yet modeled.
    assert_eq!(ExtendedInstruction::decode(0x00), ExtendedInstruction::Unimplemented(0x00));
    // The set/reset rows: not yet modeled.
    assert_eq!(ExtendedInstruction::decode(0x80), ExtendedInstruction::Unimplemented(0x80));
    assert_eq!(ExtendedInstruction::decode(0xC0), ExtendedInstruction::Unimplemented(0xC0));
}
