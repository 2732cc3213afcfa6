use gbemu::bus::Bus;
use gbemu::cartridge::Cartridge;
use gbemu::cpu::Core;
use gbemu::fault::Fault;
use gbemu::instruction::{Cond, ExtendedInstruction, Instruction, Operand, Reg16, Reg8};
use gbemu::semantics::Value;

/// A core whose ROM holds `program` starting at the boot program
/// counter 0x0100.
fn core_with_program(program: &[u8]) -> Core {
    let mut rom = vec![0u8; 0x8000];
    for (i, byte) in program.iter().enumerate() {
        rom[0x100 + i] = *byte;
    }
    Core::new(Bus::new(Cartridge::load(rom)))
}

fn step_ok(core: &mut Core) {
    assert_eq!(core.step(), Ok(()));
}

#[test]
fn boot_state_matches_architecture() {
    let mut core = core_with_program(&[]);
    assert_eq!(core.pc(), 0x0100);
    assert_eq!(core.sp(), 0xFFFE);
    assert_eq!(core.reg_af(), 0x1180);
    assert_eq!(core.reg_bc(), 0x0000);
    assert_eq!(core.reg_de(), 0xFF56);
    assert_eq!(core.reg_hl(), 0x000D);
    assert!(core.flag_z());
    assert!(!core.flag_n());
    assert!(!core.flag_h());
    assert!(!core.flag_c());
    assert!(core.interrupts_enabled());
    // A NOP (the zeroed ROM byte) only moves the program counter.
    step_ok(&mut core);
    assert_eq!(core.pc(), 0x0101);
}

#[test]
fn push_pop_round_trip_restores_value_and_sp() {
    let mut core = core_with_program(&[]);
    let sp = core.sp();
    assert_eq!(core.push_u16(0xBEEF), Ok(()));
    assert_eq!(core.sp(), sp - 2);
    assert_eq!(core.pop_u16(), Ok(0xBEEF));
    assert_eq!(core.sp(), sp);
}

#[test]
fn push_pop_round_trip_in_work_ram() {
    let mut core = core_with_program(&[]);
    // Point the stack into work RAM and push through the instruction.
    assert_eq!(core.store_operand_u16(Operand::Reg16(Reg16::SP), 0xD000), Ok(()));
    core.set_reg_bc(0x1234);
    assert_eq!(core.execute(Instruction::Push(Reg16::BC)), Ok(()));
    assert_eq!(core.sp(), 0xCFFE);
    core.set_reg_bc(0x0000);
    assert_eq!(core.execute(Instruction::Pop(Reg16::BC)), Ok(()));
    assert_eq!(core.reg_bc(), 0x1234);
    assert_eq!(core.sp(), 0xD000);
    // The pushed bytes sit at the documented offsets: high at the old
    // stack pointer, low one below.
    assert_eq!(core.peek_mem_u8(0xD000), Ok(0x12));
    assert_eq!(core.peek_mem_u8(0xCFFF), Ok(0x34));
}

#[test]
fn push_onto_rom_is_fatal() {
    let mut core = core_with_program(&[]);
    assert_eq!(core.store_operand_u16(Operand::Reg16(Reg16::SP), 0x4000), Ok(()));
    assert_eq!(core.push_u16(0x1234), Err(Fault::UnimplementedWrite(0x4000)));
}

#[test]
fn inc_flag_rules() {
    let mut core = core_with_program(&[]);
    // INC on 0x0F: half-carry set, zero clear.
    core.set_reg_bc(0x0F00);
    assert_eq!(core.execute(Instruction::Inc(Operand::Reg8(Reg8::B))), Ok(()));
    assert_eq!(core.reg_bc(), 0x1000);
    assert!(core.flag_h());
    assert!(!core.flag_z());
    assert!(!core.flag_n());
    // INC on 0xFF: wraps to zero, both zero and half-carry set; carry
    // untouched.
    core.set_flag_c(true);
    core.set_reg_bc(0xFF00);
    assert_eq!(core.execute(Instruction::Inc(Operand::Reg8(Reg8::B))), Ok(()));
    assert_eq!(core.reg_bc(), 0x0000);
    assert!(core.flag_z());
    assert!(core.flag_h());
    assert!(core.flag_c());
}

#[test]
fn inc_then_dec_restores_register() {
    let mut core = core_with_program(&[]);
    core.set_reg_de(0x3700);
    assert_eq!(core.execute(Instruction::Inc(Operand::Reg8(Reg8::D))), Ok(()));
    assert_eq!(core.reg_de(), 0x3800);
    assert_eq!(core.execute(Instruction::Dec(Operand::Reg8(Reg8::D))), Ok(()));
    assert_eq!(core.reg_de(), 0x3700);
    // DEC flags: subtract set; half-carry exactly on a borrow from bit 4.
    assert!(core.flag_n());
    assert!(!core.flag_z());
    assert!(!core.flag_h());
    // DEC on 0x10 borrows from bit 4: the result's low nibble is 0xF.
    core.set_reg_de(0x1000);
    assert_eq!(core.execute(Instruction::Dec(Operand::Reg8(Reg8::D))), Ok(()));
    assert_eq!(core.reg_de(), 0x0F00);
    assert!(core.flag_h());
    // DEC on 0x01 reaches zero.
    core.set_reg_de(0x0100);
    assert_eq!(core.execute(Instruction::Dec(Operand::Reg8(Reg8::D))), Ok(()));
    assert!(core.flag_z());
}

#[test]
fn relative_jump_lands_where_documented() {
    // Offset byte -5 at 0x0150: consuming it and applying the offset
    // lands at 0x014C. Reach 0x0150 through an absolute jump placed at
    // the boot address.
    let mut rom = vec![0u8; 0x8000];
    rom[0x100] = 0xC3;
    rom[0x101] = 0x50;
    rom[0x102] = 0x01;
    rom[0x150] = 0xFB;
    let mut taken = Core::new(Bus::new(Cartridge::load(rom)));
    step_ok(&mut taken);
    assert_eq!(taken.pc(), 0x0150);
    assert_eq!(taken.execute_jr(Cond::Always, Operand::Imm8), Ok(()));
    assert_eq!(taken.pc(), 0x014C);
    // Offset +10 from the same spot lands at 0x015B.
    let mut rom2 = vec![0u8; 0x8000];
    rom2[0x100] = 0xC3;
    rom2[0x101] = 0x50;
    rom2[0x102] = 0x01;
    rom2[0x150] = 10;
    let mut forward = Core::new(Bus::new(Cartridge::load(rom2)));
    step_ok(&mut forward);
    assert_eq!(forward.execute_jr(Cond::Always, Operand::Imm8), Ok(()));
    assert_eq!(forward.pc(), 0x015B);
}

#[test]
fn relative_jump_not_taken_just_consumes_offset() {
    // JR NZ with the zero flag set (the boot state) falls through.
    let mut core = core_with_program(&[0x20, 0xFB]);
    step_ok(&mut core);
    assert_eq!(core.pc(), 0x0102);
}

#[test]
fn cp_flag_rules() {
    // CP 0x2F against A=0x3C: zero clear, carry clear, half-carry set
    // (0xC borrows against 0xF).
    let mut core = core_with_program(&[0xFE, 0x2F, 0xFE, 0x3C]);
    core.set_reg_af(0x3C00);
    step_ok(&mut core);
    assert!(!core.flag_z());
    assert!(!core.flag_c());
    assert!(core.flag_h());
    assert!(core.flag_n());
    // CP 0x3C against A=0x3C: zero set, carry clear.
    step_ok(&mut core);
    assert!(core.flag_z());
    assert!(!core.flag_c());
    // The accumulator itself is untouched by CP.
    assert_eq!(core.reg_af() >> 8, 0x3C);
}

#[test]
fn add_sets_carries() {
    let mut core = core_with_program(&[]);
    core.set_reg_af(0x0F00);
    core.set_reg_bc(0x0100);
    assert_eq!(
        core.execute(Instruction::Add(Operand::Reg8(Reg8::A), Operand::Reg8(Reg8::B))),
        Ok(())
    );
    assert_eq!(core.reg_af() >> 8, 0x10);
    assert!(core.flag_h());
    assert!(!core.flag_c());
    assert!(!core.flag_z());
    // 0x80 + 0x80 overflows: carry set, result zero.
    core.set_reg_af(0x8000);
    core.set_reg_bc(0x8000);
    assert_eq!(
        core.execute(Instruction::Add(Operand::Reg8(Reg8::A), Operand::Reg8(Reg8::B))),
        Ok(())
    );
    assert_eq!(core.reg_af() >> 8, 0x00);
    assert!(core.flag_c());
    assert!(core.flag_z());
    assert!(!core.flag_h());
}

#[test]
fn add_16_bit_uses_bit_11_half_carry() {
    let mut core = core_with_program(&[]);
    core.set_reg_hl(0x0FFF);
    core.set_reg_bc(0x0001);
    assert_eq!(
        core.execute(Instruction::Add(Operand::Reg16(Reg16::HL), Operand::Reg16(Reg16::BC))),
        Ok(())
    );
    assert_eq!(core.reg_hl(), 0x1000);
    assert!(core.flag_h());
    assert!(!core.flag_c());
    // 0xFFFF + 1 wraps: carry out of the full width.
    core.set_reg_hl(0xFFFF);
    core.set_reg_bc(0x0001);
    assert_eq!(
        core.execute(Instruction::Add(Operand::Reg16(Reg16::HL), Operand::Reg16(Reg16::BC))),
        Ok(())
    );
    assert_eq!(core.reg_hl(), 0x0000);
    assert!(core.flag_c());
}

#[test]
fn adc_ors_the_two_additions() {
    // A=0xFF plus 0x00 with carry-in: result 0x00, both carry and
    // half-carry come from the second addition.
    let mut core = core_with_program(&[]);
    core.set_reg_af(0xFF00);
    core.set_flag_c(true);
    core.set_reg_bc(0x0000);
    assert_eq!(core.execute(Instruction::Adc(Operand::Reg8(Reg8::B))), Ok(()));
    assert_eq!(core.reg_af() >> 8, 0x00);
    assert!(core.flag_z());
    assert!(core.flag_c());
    assert!(core.flag_h());
    // Without carry-in the same addition is a plain ADD.
    core.set_reg_af(0x0100);
    core.set_flag_c(false);
    core.set_reg_bc(0x0200);
    assert_eq!(core.execute(Instruction::Adc(Operand::Reg8(Reg8::B))), Ok(()));
    assert_eq!(core.reg_af() >> 8, 0x03);
    assert!(!core.flag_c());
}

#[test]
fn sub_and_logic_flag_rules() {
    let mut core = core_with_program(&[]);
    core.set_reg_af(0x3C00);
    core.set_reg_bc(0x4000);
    assert_eq!(core.execute(Instruction::Sub(Operand::Reg8(Reg8::B))), Ok(()));
    // 0x3C - 0x40 underflows: carry set, wrapped result.
    assert_eq!(core.reg_af() >> 8, 0xFC);
    assert!(core.flag_c());
    assert!(core.flag_n());
    assert!(!core.flag_h());
    // AND forces half-carry, clears carry.
    core.set_reg_af(0xF000);
    core.set_reg_bc(0x0F00);
    assert_eq!(core.execute(Instruction::And(Operand::Reg8(Reg8::B))), Ok(()));
    assert_eq!(core.reg_af() >> 8, 0x00);
    assert!(core.flag_z());
    assert!(core.flag_h());
    assert!(!core.flag_c());
    // XOR of a value with itself is zero with all of subtract,
    // half-carry and carry cleared.
    core.set_reg_af(0x5A00);
    assert_eq!(core.execute(Instruction::Xor(Operand::Reg8(Reg8::A))), Ok(()));
    assert_eq!(core.reg_af() >> 8, 0x00);
    assert!(core.flag_z());
    assert!(!core.flag_h());
    // OR recovers bits.
    core.set_reg_bc(0x2400);
    assert_eq!(core.execute(Instruction::Or(Operand::Reg8(Reg8::B))), Ok(()));
    assert_eq!(core.reg_af() >> 8, 0x24);
    assert!(!core.flag_z());
}

#[test]
fn rotates_and_shifts() {
    let mut core = core_with_program(&[]);
    // RRA: bit 0 leaves into carry, the old carry enters at bit 7, and
    // the accumulator rotate always reports zero clear.
    core.set_reg_af(0x0100);
    core.set_flag_c(false);
    assert_eq!(core.execute(Instruction::Rra), Ok(()));
    assert_eq!(core.reg_af() >> 8, 0x00);
    assert!(core.flag_c());
    assert!(!core.flag_z());
    // RLA mirrors it leftward.
    core.set_reg_af(0x8000);
    core.set_flag_c(false);
    assert_eq!(core.execute(Instruction::Rla), Ok(()));
    assert_eq!(core.reg_af() >> 8, 0x00);
    assert!(core.flag_c());
    assert!(!core.flag_z());
    // The extended RR sets zero normally.
    core.set_reg_bc(0x0100);
    core.set_flag_c(false);
    assert_eq!(
        core.execute_rotate_left(Operand::Reg8(Reg8::B)),
        Ok(())
    );
    assert_eq!(core.reg_bc() >> 8, 0x02);
    // SRL: logical shift right, bit 7 forced clear.
    core.set_reg_bc(0x8100);
    let extended = ExtendedInstruction::decode(0x38);
    assert_eq!(extended, ExtendedInstruction::Srl(Operand::Reg8(Reg8::B)));
    let mut srl_core = core_with_program(&[0xCB, 0x38]);
    srl_core.set_reg_bc(0x8100);
    step_ok(&mut srl_core);
    assert_eq!(srl_core.reg_bc() >> 8, 0x40);
    assert!(srl_core.flag_c());
    assert!(!srl_core.flag_z());
}

#[test]
fn extended_rr_through_full_step() {
    // CB 19: RR C with carry set going in.
    let mut core = core_with_program(&[0xCB, 0x19]);
    core.set_reg_bc(0x0002);
    core.set_flag_c(true);
    step_ok(&mut core);
    assert_eq!(core.pc(), 0x0102);
    assert_eq!(core.reg_bc() & 0xFF, 0x81);
    assert!(!core.flag_c());
    assert!(!core.flag_z());
}

#[test]
fn bit_test_sets_zero_from_the_tested_bit() {
    // CB 7C: BIT 7, H.
    let mut core = core_with_program(&[0xCB, 0x7C, 0xCB, 0x7C]);
    core.set_reg_hl(0x8000);
    core.set_flag_c(true);
    step_ok(&mut core);
    assert!(!core.flag_z());
    assert!(core.flag_h());
    assert!(!core.flag_n());
    // Carry is unaffected by BIT.
    assert!(core.flag_c());
    core.set_reg_hl(0x0000);
    step_ok(&mut core);
    assert!(core.flag_z());
}

#[test]
fn unimplemented_extended_opcode_is_fatal() {
    // CB 00 selects the rotate-left-circular row, which has no rule.
    let mut core = core_with_program(&[0xCB, 0x00]);
    assert_eq!(
        core.step(),
        Err(Fault::UnimplementedExtended(ExtendedInstruction::Unimplemented(0x00)))
    );
}

#[test]
fn unimplemented_opcode_is_fatal() {
    let mut core = core_with_program(&[0xD3]);
    assert_eq!(
        core.step(),
        Err(Fault::UnimplementedInstruction(Instruction::Unimplemented(0xD3)))
    );
    // The halt slot is likewise unmodeled.
    let mut halt = core_with_program(&[0x76]);
    assert_eq!(
        halt.step(),
        Err(Fault::UnimplementedInstruction(Instruction::Unimplemented(0x76)))
    );
}

#[test]
fn unimplemented_operand_combinations_are_fatal() {
    let mut core = core_with_program(&[]);
    assert_eq!(
        core.load_u8_operand(Operand::Imm16Ref),
        Err(Fault::UnimplementedOperand(Operand::Imm16Ref))
    );
    assert_eq!(
        core.store_operand_u16(Operand::Reg16(Reg16::AF), 1),
        Err(Fault::UnimplementedOperand(Operand::Reg16(Reg16::AF)))
    );
    assert_eq!(
        core.execute(Instruction::Ldh(Operand::Imm8Ref, Operand::Reg8(Reg8::B))),
        Err(Fault::UnimplementedInstruction(Instruction::Ldh(
            Operand::Imm8Ref,
            Operand::Reg8(Reg8::B)
        )))
    );
    assert_eq!(
        core.execute(Instruction::Push(Reg16::SP)),
        Err(Fault::UnimplementedInstruction(Instruction::Push(Reg16::SP)))
    );
}

#[test]
fn call_and_ret_round_trip() {
    // CALL 0x0200; at 0x0200, RET.
    let mut rom = vec![0u8; 0x8000];
    rom[0x100] = 0xCD;
    rom[0x101] = 0x00;
    rom[0x102] = 0x02;
    rom[0x200] = 0xC9;
    let mut core = Core::new(Bus::new(Cartridge::load(rom)));
    // Keep the stack in work RAM so the return address is readable back.
    assert_eq!(core.store_operand_u16(Operand::Reg16(Reg16::SP), 0xD000), Ok(()));
    step_ok(&mut core);
    assert_eq!(core.pc(), 0x0200);
    // The pushed return address is the byte after the call instruction.
    assert_eq!(core.peek_mem_u16(0xCFFF), Ok(0x0103));
    step_ok(&mut core);
    assert_eq!(core.pc(), 0x0103);
    assert_eq!(core.sp(), 0xD000);
}

#[test]
fn conditional_jumps_follow_flags() {
    // JP NZ, 0x0200 with zero set falls through; JP Z takes it.
    let mut core = core_with_program(&[0xC2, 0x00, 0x02, 0xCA, 0x00, 0x02]);
    core.set_flag_z(true);
    step_ok(&mut core);
    assert_eq!(core.pc(), 0x0103);
    step_ok(&mut core);
    assert_eq!(core.pc(), 0x0200);
}

#[test]
fn di_clears_interrupt_enable() {
    let mut core = core_with_program(&[0xF3]);
    assert!(core.interrupts_enabled());
    step_ok(&mut core);
    assert!(!core.interrupts_enabled());
    assert_eq!(core.pc(), 0x0101);
}

#[test]
fn loads_and_autoincrement_references() {
    // LD HL,0xC000; LD A,0x42; LD (HL+),A; LD (HL),A
    let mut core = core_with_program(&[0x21, 0x00, 0xC0, 0x3E, 0x42, 0x22, 0x77]);
    step_ok(&mut core);
    assert_eq!(core.reg_hl(), 0xC000);
    step_ok(&mut core);
    step_ok(&mut core);
    // The auto-increment reference wrote through the old HL, then
    // stepped HL.
    assert_eq!(core.peek_mem_u8(0xC000), Ok(0x42));
    assert_eq!(core.reg_hl(), 0xC001);
    step_ok(&mut core);
    assert_eq!(core.peek_mem_u8(0xC001), Ok(0x42));
    assert_eq!(core.reg_hl(), 0xC001);
    // LD A,(HL-) reads back and steps HL down.
    let mut down = core_with_program(&[0x21, 0x10, 0xC0, 0x3A]);
    step_ok(&mut down);
    step_ok(&mut down);
    assert_eq!(down.reg_af() >> 8, 0x11);
    assert_eq!(down.reg_hl(), 0xC00F);
}

#[test]
fn load_through_immediate_address() {
    // LD (0xC123),A then LD A,(0xC123) on a changed accumulator.
    let mut core = core_with_program(&[0xEA, 0x23, 0xC1, 0x3E, 0x00, 0xFA, 0x23, 0xC1]);
    core.set_reg_af(0x7700);
    step_ok(&mut core);
    assert_eq!(core.peek_mem_u8(0xC123), Ok(0x77));
    step_ok(&mut core);
    assert_eq!(core.reg_af() >> 8, 0x00);
    step_ok(&mut core);
    assert_eq!(core.reg_af() >> 8, 0x77);
}

#[test]
fn high_page_loads() {
    // LDH (0x80),A writes high RAM; LDH A,(0x44) reads the video line
    // stub through a true read.
    let mut core = core_with_program(&[0xE0, 0x80, 0xF0, 0x44]);
    core.set_reg_af(0x6600);
    step_ok(&mut core);
    assert_eq!(core.peek_mem_u8(0xFF80), Ok(0x66));
    step_ok(&mut core);
    assert_eq!(core.reg_af() >> 8, 0x94);
    // LD (C),A reaches the same page through a register offset.
    let mut reg_offset = core_with_program(&[0xE2]);
    reg_offset.set_reg_af(0x2500);
    reg_offset.set_reg_bc(0x0081);
    step_ok(&mut reg_offset);
    assert_eq!(reg_offset.peek_mem_u8(0xFF81), Ok(0x25));
}

#[test]
fn serial_program_emits_bytes() {
    // LD A,'O'; LDH (0x01),A; LD A,0x81; LDH (0x02),A
    let mut core = core_with_program(&[0x3E, b'O', 0xE0, 0x01, 0x3E, 0x81, 0xE0, 0x02]);
    for _ in 0..4 {
        step_ok(&mut core);
    }
    assert_eq!(core.peek_mem_u8(0xFF01), Ok(b'O'));
    assert_eq!(core.serial_emitted().as_slice(), b"O");
}

#[test]
fn pop_af_masks_the_low_flag_bits() {
    let mut core = core_with_program(&[]);
    assert_eq!(core.store_operand_u16(Operand::Reg16(Reg16::SP), 0xD000), Ok(()));
    assert_eq!(core.push_u16(0x12FF), Ok(()));
    assert_eq!(core.execute_pop(Reg16::AF), Ok(()));
    // The bottom nibble of the flags register always reads zero.
    assert_eq!(core.reg_af(), 0x12F0);
    assert!(core.flag_z());
    assert!(core.flag_n());
    assert!(core.flag_h());
    assert!(core.flag_c());
}

#[test]
fn value_widens_to_16_bits() {
    assert_eq!(Value::U8(0xAB).as_u16(), 0x00AB);
    assert_eq!(Value::U16(0xABCD).as_u16(), 0xABCD);
}

#[test]
fn current_instruction_peeks_without_side_effects() {
    let mut core = core_with_program(&[0xCB, 0x7C]);
    assert_eq!(core.current_instruction(), Ok(Instruction::Extended));
    assert_eq!(
        core.current_extended_instruction(),
        Ok(ExtendedInstruction::Bit(7, Operand::Reg8(Reg8::H)))
    );
    // Peeking decoded nothing away: the program counter is unmoved.
    assert_eq!(core.pc(), 0x0100);
    step_ok(&mut core);
    assert_eq!(core.pc(), 0x0102);
}

#[test]
fn memory_inc_through_hl_reference() {
    // LD HL,0xC050; INC (HL): the increment flag rules apply to the
    // byte in memory.
    let mut core = core_with_program(&[0x21, 0x50, 0xC0, 0x34, 0x35]);
    step_ok(&mut core);
    // Work RAM boots to 0x11; INC makes it 0x12.
    step_ok(&mut core);
    assert_eq!(core.peek_mem_u8(0xC050), Ok(0x12));
    assert!(!core.flag_z());
    assert!(!core.flag_h());
    // DEC (HL) brings it back.
    step_ok(&mut core);
    assert_eq!(core.peek_mem_u8(0xC050), Ok(0x11));
    assert!(core.flag_n());
}
