//! The processor core: the architectural register file and the
//! fetch-decode-execute engine, verified instruction by instruction
//! against the model in `semantics`. Every routine either leaves the
//! machine in exactly the state the model gives, or reports exactly the
//! fault the model assigns (an unimplemented opcode, operand combination
//! or device operation, or a truly invalid address); it never guesses a
//! value silently.

use vstd::prelude::*;
use crate::bits::{hi, lo, word, spec_word};
use crate::bus::{bus_wf, spec_bus_peek, spec_bus_read, Bus};
use crate::fault::Fault;
use crate::instruction::{
    spec_decode, spec_decode_extended, Cond, ExtendedInstruction, Instruction, Operand, Reg16,
    Reg8,
};
pub use crate::semantics::Value;
use crate::semantics::{
    spec_cond_holds, spec_exec_adc, spec_exec_add, spec_exec_and, spec_exec_bit, spec_exec_call,
    spec_exec_cp, spec_exec_dec, spec_exec_extended, spec_exec_inc, spec_exec_jp, spec_exec_jr,
    spec_exec_ld, spec_exec_ldh, spec_exec_or, spec_exec_pop, spec_exec_push, spec_exec_ret,
    spec_exec_rl, spec_exec_rla, spec_exec_rr, spec_exec_rra, spec_exec_srl, spec_exec_sub,
    spec_exec_xor, spec_execute, spec_execute_inner, spec_fetch16, spec_fetch8, spec_flags_byte,
    spec_get_pair, spec_get_reg8, spec_load_operand, spec_load_reg16, spec_load_u16_operand,
    spec_load_u8_operand, spec_peek_mem16, spec_pop16, spec_push16, spec_set_flags_byte,
    spec_set_pair, spec_step, spec_store_u16, spec_store_u8, spec_store_value, spec_write_mem16,
    spec_write_mem8, steps_to, yields, CoreView,
};

verus! {

/// The processor core: registers, flags, stack pointer, program counter,
/// the interrupt-enable flag, and the bus it fetches and addresses
/// through.
pub struct Core {
    pc: u16,
    sp: u16,
    reg_a: u8,
    reg_b: u8,
    reg_c: u8,
    reg_d: u8,
    reg_e: u8,
    reg_h: u8,
    reg_l: u8,
    flag_zf: bool,
    flag_nf: bool,
    flag_hf: bool,
    flag_cf: bool,
    interrupts_enabled: bool,
    bus: Bus,
}

impl View for Core {
    type V = CoreView;

    closed spec fn view(&self) -> CoreView {
        CoreView {
            pc: self.pc,
            sp: self.sp,
            a: self.reg_a,
            b: self.reg_b,
            c: self.reg_c,
            d: self.reg_d,
            e: self.reg_e,
            h: self.reg_h,
            l: self.reg_l,
            zf: self.flag_zf,
            nf: self.flag_nf,
            hf: self.flag_hf,
            cf: self.flag_cf,
            ime: self.interrupts_enabled,
            bus: self.bus@,
        }
    }
}

impl Core {
    /// A well-formed core: its bus is well formed.
    pub open spec fn wf(&self) -> bool {
        bus_wf(self@.bus)
    }

    /// A fresh core over a bus, in the documented boot state: execution
    /// starts at 0x0100, the stack at 0xFFFE, and the accumulator and
    /// flags hold the non-zero defaults that signal a successful
    /// internal self-test (only the zero flag is set).
    pub fn new(bus: Bus) -> (r: Core)
        requires
            bus.wf(),
        ensures
            r.wf(),
            r@ == (CoreView {
                pc: 0x100,
                sp: 0xFFFE,
                a: 0x11,
                b: 0x00,
                c: 0x00,
                d: 0xFF,
                e: 0x56,
                h: 0x00,
                l: 0x0D,
                zf: true,
                nf: false,
                hf: false,
                cf: false,
                ime: true,
                bus: bus@,
            }),
    {
        Core {
            pc: 0x100,
            sp: 0xFFFE,
            reg_a: 0x11,
            reg_b: 0x00,
            reg_c: 0x00,
            reg_d: 0xFF,
            reg_e: 0x56,
            reg_h: 0x00,
            reg_l: 0x0D,
            flag_zf: true,
            flag_nf: false,
            flag_hf: false,
            flag_cf: false,
            interrupts_enabled: true,
            bus,
        }
    }

    /// The program counter.
    pub fn pc(&self) -> (r: u16)
        ensures
            r == self@.pc,
    {
        self.pc
    }

    /// The stack pointer.
    pub fn sp(&self) -> (r: u16)
        ensures
            r == self@.sp,
    {
        self.sp
    }

    /// Whether the master interrupt-enable flag is set.
    pub fn interrupts_enabled(&self) -> (r: bool)
        ensures
            r == self@.ime,
    {
        self.interrupts_enabled
    }

    /// The bytes the running program has emitted through the serial
    /// control register, oldest first, for a caller to deliver.
    pub fn serial_emitted(&self) -> (r: &Vec<u8>)
        ensures
            r@ == self@.bus.serial_log,
    {
        self.bus.serial_emitted()
    }

    /// The instruction at the program counter, decoded fresh from a
    /// side-effect-free peek.
    pub fn current_instruction(&self) -> (r: Result<Instruction, Fault>)
        requires
            self.wf(),
        ensures
            match spec_bus_peek(self@.bus, self@.pc) {
                Ok(code) => r == Ok::<Instruction, Fault>(spec_decode(code)),
                Err(f) => r == Err::<Instruction, Fault>(f),
            },
    {
        let code = match self.bus.peek(self.pc) {
            Ok(c) => c,
            Err(f) => return Err(f),
        };
        Ok(Instruction::decode(code))
    }

    /// The extended instruction selected by the byte after the escape
    /// opcode at the program counter.
    pub fn current_extended_instruction(&self) -> (r: Result<ExtendedInstruction, Fault>)
        requires
            self.wf(),
        ensures
            match spec_bus_peek(self@.bus, self@.pc.wrapping_add(1)) {
                Ok(code) => r == Ok::<ExtendedInstruction, Fault>(spec_decode_extended(code)),
                Err(f) => r == Err::<ExtendedInstruction, Fault>(f),
            },
    {
        let code = match self.bus.peek(self.pc.wrapping_add(1)) {
            Ok(c) => c,
            Err(f) => return Err(f),
        };
        Ok(ExtendedInstruction::decode(code))
    }

    /// One fetch-decode-execute step.
    pub fn step(&mut self) -> (r: Result<(), Fault>)
        requires
            old(self).wf(),
        ensures
            final(self).wf(),
            steps_to(final(self)@, r, spec_step(old(self)@)),
    {
        let instruction = match self.current_instruction() {
            Ok(i) => i,
            Err(f) => return Err(f),
        };
        self.execute(instruction)
    }

    /// The HL pair.
    pub fn reg_hl(&self) -> (r: u16)
        ensures
            r == spec_word(self@.h, self@.l),
    {
        word(self.reg_h, self.reg_l)
    }

    /// Set the HL pair.
    pub fn set_reg_hl(&mut self, value: u16)
        ensures
            final(self)@ == spec_set_pair(old(self)@, Reg16::HL, value),
    {
        self.reg_h = hi(value);
        self.reg_l = lo(value);
    }

    /// The AF pair: the accumulator packed with the flags byte.
    pub fn reg_af(&self) -> (r: u16)
        ensures
            r == spec_get_pair(self@, Reg16::AF),
    {
        word(self.reg_a, self.flags_byte())
    }

    /// Set the AF pair: the accumulator from the high byte, the four
    /// named flags from the top nibble of the low byte (the bottom
    /// nibble of the flags register always reads zero).
    pub fn set_reg_af(&mut self, value: u16)
        ensures
            final(self)@ == spec_set_pair(old(self)@, Reg16::AF, value),
    {
        self.reg_a = hi(value);
        self.set_flags_from_byte(lo(value));
    }

    /// The BC pair.
    pub fn reg_bc(&self) -> (r: u16)
        ensures
            r == spec_word(self@.b, self@.c),
    {
        word(self.reg_b, self.reg_c)
    }

    /// Set the BC pair.
    pub fn set_reg_bc(&mut self, value: u16)
        ensures
            final(self)@ == spec_set_pair(old(self)@, Reg16::BC, value),
    {
        self.reg_b = hi(value);
        self.reg_c = lo(value);
    }

    /// The DE pair.
    pub fn reg_de(&self) -> (r: u16)
        ensures
            r == spec_word(self@.d, self@.e),
    {
        word(self.reg_d, self.reg_e)
    }

    /// Set the DE pair.
    pub fn set_reg_de(&mut self, value: u16)
        ensures
            final(self)@ == spec_set_pair(old(self)@, Reg16::DE, value),
    {
        self.reg_d = hi(value);
        self.reg_e = lo(value);
    }

    /// The zero flag.
    pub fn flag_z(&self) -> (r: bool)
        ensures
            r == self@.zf,
    {
        self.flag_zf
    }

    /// Set the zero flag.
    pub fn set_flag_z(&mut self, set: bool)
        ensures
            final(self)@ == (CoreView { zf: set, ..old(self)@ }),
    {
        self.flag_zf = set;
    }

    /// The subtract flag.
    pub fn flag_n(&self) -> (r: bool)
        ensures
            r == self@.nf,
    {
        self.flag_nf
    }

    /// Set the subtract flag.
    pub fn set_flag_n(&mut self, set: bool)
        ensures
            final(self)@ == (CoreView { nf: set, ..old(self)@ }),
    {
        self.flag_nf = set;
    }

    /// The half-carry flag.
    pub fn flag_h(&self) -> (r: bool)
        ensures
            r == self@.hf,
    {
        self.flag_hf
    }

    /// Set the half-carry flag.
    pub fn set_flag_h(&mut self, set: bool)
        ensures
            final(self)@ == (CoreView { hf: set, ..old(self)@ }),
    {
        self.flag_hf = set;
    }

    /// The carry flag.
    pub fn flag_c(&self) -> (r: bool)
        ensures
            r == self@.cf,
    {
        self.flag_cf
    }

    /// Set the carry flag.
    pub fn set_flag_c(&mut self, set: bool)
        ensures
            final(self)@ == (CoreView { cf: set, ..old(self)@ }),
    {
        self.flag_cf = set;
    }

    /// The flags register byte: the named flags packed into the top
    /// nibble.
    fn flags_byte(&self) -> (r: u8)
        ensures
            r == spec_flags_byte(self@),
    {
        (if self.flag_zf {
            0x80u8
        } else {
            0u8
        }) + (if self.flag_nf {
            0x40u8
        } else {
            0u8
        }) + (if self.flag_hf {
            0x20u8
        } else {
            0u8
        }) + (if self.flag_cf {
            0x10u8
        } else {
            0u8
        })
    }

    /// Set the named flags from a flags register byte.
    fn set_flags_from_byte(&mut self, f: u8)
        ensures
            final(self)@ == spec_set_flags_byte(old(self)@, f),
    {
        self.flag_zf = f & 0x80 != 0;
        self.flag_nf = f & 0x40 != 0;
        self.flag_hf = f & 0x20 != 0;
        self.flag_cf = f & 0x10 != 0;
    }

    /// Read HL, then step it up by one (the auto-increment memory
    /// reference).
    fn reg_hl_postincrement(&mut self) -> (r: u16)
        ensures
            (final(self)@, r) == spec_load_reg16(old(self)@, Reg16::HLInc),
    {
        let value = self.reg_hl();
        self.set_reg_hl(value.wrapping_add(1));
        value
    }

    /// Read HL, then step it down by one (the auto-decrement memory
    /// reference).
    fn reg_hl_postdecrement(&mut self) -> (r: u16)
        ensures
            (final(self)@, r) == spec_load_reg16(old(self)@, Reg16::HLDec),
    {
        let value = self.reg_hl();
        self.set_reg_hl(value.wrapping_sub(1));
        value
    }

    /// Execute one decoded instruction: the program counter first moves
    /// past the opcode byte, then the instruction's rule runs (fetching
    /// any immediate bytes itself).
    pub fn execute(&mut self, instruction: Instruction) -> (r: Result<(), Fault>)
        requires
            old(self).wf(),
        ensures
            final(self).wf(),
            steps_to(final(self)@, r, spec_execute(old(self)@, instruction)),
    {
        self.pc = self.pc.wrapping_add(1);
        match instruction {
            Instruction::Nop
            | Instruction::Jr(_, _)
            | Instruction::Jp(_, _)
            | Instruction::Call(_, _)
            | Instruction::Ret(_)
            | Instruction::Di
            | Instruction::Extended
            | Instruction::Unimplemented(_) => self.execute_control_flow(instruction),
            Instruction::Cp(_)
            | Instruction::Add(_, _)
            | Instruction::Adc(_)
            | Instruction::Sub(_)
            | Instruction::Inc(_)
            | Instruction::Dec(_)
            | Instruction::And(_)
            | Instruction::Or(_)
            | Instruction::Xor(_)
            | Instruction::Rra
            | Instruction::Rla => self.execute_arithmetic(instruction),
            Instruction::Ld(_, _)
            | Instruction::Ldh(_, _)
            | Instruction::Push(_)
            | Instruction::Pop(_) => self.execute_data_move(instruction),
        }
    }

    /// Dispatch the control-flow group: no-op, jumps, calls, returns,
    /// interrupt disabling, the extended escape, and the unimplemented
    /// placeholder.
    fn execute_control_flow(&mut self, instruction: Instruction) -> (r: Result<(), Fault>)
        requires
            old(self).wf(),
            instruction is Nop || instruction is Jr || instruction is Jp || instruction is Call
                || instruction is Ret || instruction is Di || instruction is Extended
                || instruction is Unimplemented,
        ensures
            final(self).wf(),
            steps_to(final(self)@, r, spec_execute_inner(old(self)@, instruction)),
    {
        match instruction {
            Instruction::Nop => Ok(()),
            Instruction::Jr(cond, offset) => self.execute_jr(cond, offset),
            Instruction::Jp(cond, addr) => self.execute_jp(cond, addr),
            Instruction::Call(cond, addr) => self.execute_call(cond, addr),
            Instruction::Ret(cond) => self.execute_ret(cond),
            Instruction::Di => {
                self.execute_di();
                Ok(())
            },
            Instruction::Extended => {
                let code = match self.read_mem_u8(self.pc) {
                    Ok(c) => c,
                    Err(f) => return Err(f),
                };
                let extended = ExtendedInstruction::decode(code);
                self.execute_extended(extended)
            },
            _ => Err(Fault::UnimplementedInstruction(instruction)),
        }
    }

    /// Dispatch the arithmetic/logic group: compares, additions,
    /// subtraction, increments and decrements, the bitwise operations
    /// and the accumulator rotates.
    fn execute_arithmetic(&mut self, instruction: Instruction) -> (r: Result<(), Fault>)
        requires
            old(self).wf(),
            instruction is Cp || instruction is Add || instruction is Adc || instruction is Sub
                || instruction is Inc || instruction is Dec || instruction is And
                || instruction is Or || instruction is Xor || instruction is Rra
                || instruction is Rla,
        ensures
            final(self).wf(),
            steps_to(final(self)@, r, spec_execute_inner(old(self)@, instruction)),
    {
        match instruction {
            Instruction::Cp(source) => self.execute_cp(source),
            Instruction::Add(target, value) => self.execute_add(target, value),
            Instruction::Adc(value) => self.execute_add_carry(value),
            Instruction::Sub(value) => self.execute_sub(value),
            Instruction::Inc(target) => self.execute_inc(target),
            Instruction::Dec(target) => self.execute_dec(target),
            Instruction::And(value) => self.execute_and(value),
            Instruction::Or(value) => self.execute_or(value),
            Instruction::Xor(value) => self.execute_xor(value),
            Instruction::Rra => self.execute_rotate_right_a(),
            _ => self.execute_rotate_left_a(),
        }
    }

    /// Dispatch the data-movement group: loads, high-page loads, pushes
    /// and pops.
    fn execute_data_move(&mut self, instruction: Instruction) -> (r: Result<(), Fault>)
        requires
            old(self).wf(),
            instruction is Ld || instruction is Ldh || instruction is Push
                || instruction is Pop,
        ensures
            final(self).wf(),
            steps_to(final(self)@, r, spec_execute_inner(old(self)@, instruction)),
    {
        match instruction {
            Instruction::Ld(target, source) => self.execute_ld(target, source),
            Instruction::Ldh(target, source) => self.execute_ldh(target, source),
            Instruction::Push(source) => self.execute_push(source),
            Instruction::Pop(target) => self.execute_pop(target),
            _ => {
                proof {
                    assert(false);
                }
                Err(Fault::UnimplementedInstruction(instruction))
            },
        }
    }

    /// ADD, 8- or 16-bit by the operands' widths.
    fn execute_add(&mut self, target: Operand, value: Operand) -> (r: Result<(), Fault>)
        requires
            old(self).wf(),
        ensures
            final(self).wf(),
            steps_to(final(self)@, r, spec_exec_add(old(self)@, target, value)),
    {
        let a = match self.load_operand(target) {
            Ok(v) => v,
            Err(f) => return Err(f),
        };
        let b = match self.load_operand(value) {
            Ok(v) => v,
            Err(f) => return Err(f),
        };
        match (a, b) {
            (Value::U8(x), Value::U8(y)) => {
                let result = x.wrapping_add(y);
                let half_carry = ((x & 0xF) as u16) + ((y & 0xF) as u16) > 0xF;
                let carry = (x as u16) + (y as u16) > 0xFF;
                self.set_flag_z(result == 0);
                self.set_flag_n(false);
                self.set_flag_h(half_carry);
                self.set_flag_c(carry);
                self.store_operand_u8(target, result)
            },
            (Value::U16(x), Value::U16(y)) => {
                let result = x.wrapping_add(y);
                let half_carry = ((x & 0xFFF) as u32) + ((y & 0xFFF) as u32) > 0xFFF;
                let carry = (x as u32) + (y as u32) > 0xFFFF;
                self.set_flag_z(result == 0);
                self.set_flag_n(false);
                self.set_flag_h(half_carry);
                self.set_flag_c(carry);
                self.store_operand_u16(target, result)
            },
            _ => Err(Fault::UnimplementedInstruction(Instruction::Add(target, value))),
        }
    }

    /// ADC: the operand and the carry-in added in sequence, half-carry
    /// and carry OR-ed across the two additions.
    fn execute_add_carry(&mut self, operand: Operand) -> (r: Result<(), Fault>)
        requires
            old(self).wf(),
        ensures
            final(self).wf(),
            steps_to(final(self)@, r, spec_exec_adc(old(self)@, operand)),
    {
        let value = match self.load_u8_operand(operand) {
            Ok(v) => v,
            Err(f) => return Err(f),
        };
        let carry_in: u8 = if self.flag_cf {
            1
        } else {
            0
        };
        let a = self.reg_a;
        let r1 = a.wrapping_add(value);
        let half1 = ((a & 0xF) as u16) + ((value & 0xF) as u16) > 0xF;
        let carry1 = (a as u16) + (value as u16) > 0xFF;
        let r2 = r1.wrapping_add(carry_in);
        let half2 = ((r1 & 0xF) as u16) + (carry_in as u16) > 0xF;
        let carry2 = (r1 as u16) + (carry_in as u16) > 0xFF;
        self.reg_a = r2;
        self.set_flag_z(r2 == 0);
        self.set_flag_n(false);
        self.set_flag_h(half1 || half2);
        self.set_flag_c(carry1 || carry2);
        Ok(())
    }

    /// SUB: the difference lands in the accumulator.
    fn execute_sub(&mut self, value: Operand) -> (r: Result<(), Fault>)
        requires
            old(self).wf(),
        ensures
            final(self).wf(),
            steps_to(final(self)@, r, spec_exec_sub(old(self)@, value)),
    {
        let b = match self.load_u8_operand(value) {
            Ok(v) => v,
            Err(f) => return Err(f),
        };
        let a = self.reg_a;
        let result = a.wrapping_sub(b);
        self.set_flag_z(result == 0);
        self.set_flag_n(true);
        self.set_flag_h((a & 0xF) < (b & 0xF));
        self.set_flag_c(a < b);
        self.reg_a = result;
        Ok(())
    }

    /// OR into the accumulator.
    fn execute_or(&mut self, value: Operand) -> (r: Result<(), Fault>)
        requires
            old(self).wf(),
        ensures
            final(self).wf(),
            steps_to(final(self)@, r, spec_exec_or(old(self)@, value)),
    {
        let v = match self.load_u8_operand(value) {
            Ok(v) => v,
            Err(f) => return Err(f),
        };
        self.reg_a = self.reg_a | v;
        let zero = self.reg_a == 0;
        self.set_flag_z(zero);
        self.set_flag_n(false);
        self.set_flag_h(false);
        self.set_flag_c(false);
        Ok(())
    }

    /// XOR into the accumulator.
    fn execute_xor(&mut self, value: Operand) -> (r: Result<(), Fault>)
        requires
            old(self).wf(),
        ensures
            final(self).wf(),
            steps_to(final(self)@, r, spec_exec_xor(old(self)@, value)),
    {
        let v = match self.load_u8_operand(value) {
            Ok(v) => v,
            Err(f) => return Err(f),
        };
        self.reg_a = self.reg_a ^ v;
        let zero = self.reg_a == 0;
        self.set_flag_z(zero);
        self.set_flag_n(false);
        self.set_flag_h(false);
        self.set_flag_c(false);
        Ok(())
    }

    /// AND into the accumulator (half-carry architecturally true).
    fn execute_and(&mut self, value: Operand) -> (r: Result<(), Fault>)
        requires
            old(self).wf(),
        ensures
            final(self).wf(),
            steps_to(final(self)@, r, spec_exec_and(old(self)@, value)),
    {
        let v = match self.load_u8_operand(value) {
            Ok(v) => v,
            Err(f) => return Err(f),
        };
        self.reg_a = self.reg_a & v;
        let zero = self.reg_a == 0;
        self.set_flag_z(zero);
        self.set_flag_n(false);
        self.set_flag_h(true);
        self.set_flag_c(false);
        Ok(())
    }

    /// RET: conditionally pop the return address into the program
    /// counter.
    fn execute_ret(&mut self, cond: Cond) -> (r: Result<(), Fault>)
        requires
            old(self).wf(),
        ensures
            final(self).wf(),
            steps_to(final(self)@, r, spec_exec_ret(old(self)@, cond)),
    {
        let taken = self.evaluate_cond(cond);
        if taken {
            let addr = match self.pop_u16() {
                Ok(v) => v,
                Err(f) => return Err(f),
            };
            self.pc = addr;
        }
        Ok(())
    }

    /// RRA: rotate the accumulator right through carry; zero forced
    /// false.
    fn execute_rotate_right_a(&mut self) -> (r: Result<(), Fault>)
        requires
            old(self).wf(),
        ensures
            final(self).wf(),
            steps_to(final(self)@, r, spec_exec_rra(old(self)@)),
    {
        match self.execute_rotate_right(Operand::Reg8(Reg8::A)) {
            Ok(()) => {
                self.set_flag_z(false);
                Ok(())
            },
            Err(f) => Err(f),
        }
    }

    /// RLA: rotate the accumulator left through carry; zero forced
    /// false.
    fn execute_rotate_left_a(&mut self) -> (r: Result<(), Fault>)
        requires
            old(self).wf(),
        ensures
            final(self).wf(),
            steps_to(final(self)@, r, spec_exec_rla(old(self)@)),
    {
        match self.execute_rotate_left(Operand::Reg8(Reg8::A)) {
            Ok(()) => {
                self.set_flag_z(false);
                Ok(())
            },
            Err(f) => Err(f),
        }
    }

    /// Execute one extended instruction: the program counter first moves
    /// past the extended opcode byte.
    fn execute_extended(&mut self, instruction: ExtendedInstruction) -> (r: Result<(), Fault>)
        requires
            old(self).wf(),
        ensures
            final(self).wf(),
            steps_to(final(self)@, r, spec_exec_extended(old(self)@, instruction)),
    {
        self.pc = self.pc.wrapping_add(1);
        match instruction {
            ExtendedInstruction::Srl(target) => self.execute_shift_right_logical(target),
            ExtendedInstruction::Rr(target) => self.execute_rotate_right(target),
            ExtendedInstruction::Rl(target) => self.execute_rotate_left(target),
            ExtendedInstruction::Bit(bit, target) => {
                if bit < 8 {
                    self.execute_bit(bit, target)
                } else {
                    Err(Fault::UnimplementedExtended(instruction))
                }
            },
            ExtendedInstruction::Unimplemented(_) => Err(
                Fault::UnimplementedExtended(instruction),
            ),
        }
    }

    /// SRL: shift right logical.
    fn execute_shift_right_logical(&mut self, target: Operand) -> (r: Result<(), Fault>)
        requires
            old(self).wf(),
        ensures
            final(self).wf(),
            steps_to(final(self)@, r, spec_exec_srl(old(self)@, target)),
    {
        let value = match self.load_u8_operand(target) {
            Ok(v) => v,
            Err(f) => return Err(f),
        };
        let carry = value & 1 == 1;
        let result = value >> 1u8;
        self.set_flag_z(result == 0);
        self.set_flag_n(false);
        self.set_flag_h(false);
        self.set_flag_c(carry);
        self.store_operand_u8(target, result)
    }

    /// RR: rotate right through carry.
    fn execute_rotate_right(&mut self, target: Operand) -> (r: Result<(), Fault>)
        requires
            old(self).wf(),
        ensures
            final(self).wf(),
            steps_to(final(self)@, r, spec_exec_rr(old(self)@, target)),
    {
        let value = match self.load_u8_operand(target) {
            Ok(v) => v,
            Err(f) => return Err(f),
        };
        let carry = value & 1 == 1;
        let result = (value >> 1u8) | (if self.flag_cf {
            0x80u8
        } else {
            0u8
        });
        self.set_flag_z(result == 0);
        self.set_flag_n(false);
        self.set_flag_h(false);
        self.set_flag_c(carry);
        self.store_operand_u8(target, result)
    }

    /// RL: rotate left through carry.
    pub fn execute_rotate_left(&mut self, target: Operand) -> (r: Result<(), Fault>)
        requires
            old(self).wf(),
        ensures
            final(self).wf(),
            steps_to(final(self)@, r, spec_exec_rl(old(self)@, target)),
    {
        let value = match self.load_u8_operand(target) {
            Ok(v) => v,
            Err(f) => return Err(f),
        };
        let carry = value & 0x80 != 0;
        let result = (value << 1u8) | (if self.flag_cf {
            1u8
        } else {
            0u8
        });
        self.set_flag_z(result == 0);
        self.set_flag_n(false);
        self.set_flag_h(false);
        self.set_flag_c(carry);
        self.store_operand_u8(target, result)
    }

    /// Write one byte through the bus.
    pub fn write_mem_u8(&mut self, addr: u16, value: u8) -> (r: Result<(), Fault>)
        requires
            old(self).wf(),
        ensures
            final(self).wf(),
            steps_to(final(self)@, r, spec_write_mem8(old(self)@, addr, value)),
            r is Err ==> final(self)@ == old(self)@,
    {
        match self.bus.write(addr, value) {
            Ok(()) => Ok(()),
            Err(f) => Err(f),
        }
    }

    /// Write a 16-bit value: the low byte at `addr`, the high byte just
    /// above it.
    pub fn write_mem_u16(&mut self, addr: u16, value: u16) -> (r: Result<(), Fault>)
        requires
            old(self).wf(),
        ensures
            final(self).wf(),
            steps_to(final(self)@, r, spec_write_mem16(old(self)@, addr, value)),
    {
        match self.write_mem_u8(addr, lo(value)) {
            Ok(()) => {},
            Err(f) => return Err(f),
        }
        self.write_mem_u8(addr.wrapping_add(1), hi(value))
    }

    /// Peek one byte: a read without side effects, for debugger display.
    pub fn peek_mem_u8(&self, addr: u16) -> (r: Result<u8, Fault>)
        requires
            self.wf(),
        ensures
            r == spec_bus_peek(self@.bus, addr),
    {
        self.bus.peek(addr)
    }

    /// Read one byte through the bus.
    fn read_mem_u8(&self, addr: u16) -> (r: Result<u8, Fault>)
        requires
            self.wf(),
        ensures
            r == spec_bus_read(self@.bus, addr),
    {
        self.bus.read(addr)
    }

    /// Peek a 16-bit value: low byte at `addr`, high byte just above.
    pub fn peek_mem_u16(&self, addr: u16) -> (r: Result<u16, Fault>)
        requires
            self.wf(),
        ensures
            r == spec_peek_mem16(self@.bus, addr),
    {
        let lo_byte = match self.bus.peek(addr) {
            Ok(v) => v,
            Err(f) => return Err(f),
        };
        let hi_byte = match self.bus.peek(addr.wrapping_add(1)) {
            Ok(v) => v,
            Err(f) => return Err(f),
        };
        Ok(word(hi_byte, lo_byte))
    }

    /// Read a 16-bit value: low byte at `addr`, high byte just above.
    fn read_mem_u16(&self, addr: u16) -> (r: Result<u16, Fault>)
        requires
            self.wf(),
        ensures
            r == crate::semantics::spec_read_mem16(self@.bus, addr),
    {
        let lo_byte = match self.bus.read(addr) {
            Ok(v) => v,
            Err(f) => return Err(f),
        };
        let hi_byte = match self.bus.read(addr.wrapping_add(1)) {
            Ok(v) => v,
            Err(f) => return Err(f),
        };
        Ok(word(hi_byte, lo_byte))
    }

    /// CP: compare the accumulator with the operand; flags only.
    pub fn execute_cp(&mut self, source: Operand) -> (r: Result<(), Fault>)
        requires
            old(self).wf(),
        ensures
            final(self).wf(),
            steps_to(final(self)@, r, spec_exec_cp(old(self)@, source)),
    {
        let value = match self.load_u8_operand(source) {
            Ok(v) => v,
            Err(f) => return Err(f),
        };
        let a = self.reg_a;
        self.set_flag_z(a == value);
        self.set_flag_n(true);
        self.set_flag_h((a & 0xF) < (value & 0xF));
        self.set_flag_c(a < value);
        Ok(())
    }

    /// JR: conditional relative jump by a signed 8-bit offset.
    pub fn execute_jr(&mut self, cond: Cond, offset: Operand) -> (r: Result<(), Fault>)
        requires
            old(self).wf(),
        ensures
            final(self).wf(),
            steps_to(final(self)@, r, spec_exec_jr(old(self)@, cond, offset)),
    {
        let taken = self.evaluate_cond(cond);
        let off = match self.load_u8_operand(offset) {
            Ok(v) => v,
            Err(f) => return Err(f),
        };
        if taken {
            self.pc = self.pc.wrapping_add_signed((off as i8) as i16);
        }
        Ok(())
    }

    /// JP: conditional absolute jump.
    pub fn execute_jp(&mut self, cond: Cond, addr: Operand) -> (r: Result<(), Fault>)
        requires
            old(self).wf(),
        ensures
            final(self).wf(),
            steps_to(final(self)@, r, spec_exec_jp(old(self)@, cond, addr)),
    {
        let taken = self.evaluate_cond(cond);
        let target = match self.load_u16_operand(addr) {
            Ok(v) => v,
            Err(f) => return Err(f),
        };
        if taken {
            self.pc = target;
        }
        Ok(())
    }

    /// CALL: conditional call; pushes the return address (the already
    /// advanced program counter) before jumping.
    pub fn execute_call(&mut self, cond: Cond, addr: Operand) -> (r: Result<(), Fault>)
        requires
            old(self).wf(),
        ensures
            final(self).wf(),
            steps_to(final(self)@, r, spec_exec_call(old(self)@, cond, addr)),
    {
        let taken = self.evaluate_cond(cond);
        let target = match self.load_u16_operand(addr) {
            Ok(v) => v,
            Err(f) => return Err(f),
        };
        if taken {
            let ret = self.pc;
            match self.push_u16(ret) {
                Ok(()) => {},
                Err(f) => return Err(f),
            }
            self.pc = target;
        }
        Ok(())
    }

    /// DI: clear the interrupt-enable flag.
    pub fn execute_di(&mut self)
        ensures
            final(self)@ == (CoreView { ime: false, ..old(self)@ }),
    {
        self.interrupts_enabled = false;
    }

    /// LD: move a value from the source operand to the target operand.
    pub fn execute_ld(&mut self, target: Operand, source: Operand) -> (r: Result<(), Fault>)
        requires
            old(self).wf(),
        ensures
            final(self).wf(),
            steps_to(final(self)@, r, spec_exec_ld(old(self)@, target, source)),
    {
        let value = match self.load_operand(source) {
            Ok(v) => v,
            Err(f) => return Err(f),
        };
        self.store_operand(target, value)
    }

    /// LDH: high-page load between the accumulator and 0xFF00 plus an
    /// 8-bit immediate offset.
    pub fn execute_ldh(&mut self, target: Operand, source: Operand) -> (r: Result<(), Fault>)
        requires
            old(self).wf(),
        ensures
            final(self).wf(),
            steps_to(final(self)@, r, spec_exec_ldh(old(self)@, target, source)),
    {
        match (target, source) {
            (Operand::Reg8(Reg8::A), Operand::Imm8Ref) => {
                let n = match self.decode_imm8() {
                    Ok(v) => v,
                    Err(f) => return Err(f),
                };
                let ptr = (n as u16) + 0xFF00;
                let value = match self.read_mem_u8(ptr) {
                    Ok(v) => v,
                    Err(f) => return Err(f),
                };
                self.reg_a = value;
                Ok(())
            },
            (Operand::Imm8Ref, Operand::Reg8(Reg8::A)) => {
                let n = match self.decode_imm8() {
                    Ok(v) => v,
                    Err(f) => return Err(f),
                };
                let ptr = (n as u16) + 0xFF00;
                let value = self.reg_a;
                self.write_mem_u8(ptr, value)
            },
            _ => Err(Fault::UnimplementedInstruction(Instruction::Ldh(target, source))),
        }
    }

    /// PUSH: push one of the four architectural pairs.
    pub fn execute_push(&mut self, source: Reg16) -> (r: Result<(), Fault>)
        requires
            old(self).wf(),
        ensures
            final(self).wf(),
            steps_to(final(self)@, r, spec_exec_push(old(self)@, source)),
    {
        let value = match source {
            Reg16::AF => self.reg_af(),
            Reg16::BC => self.reg_bc(),
            Reg16::DE => self.reg_de(),
            Reg16::HL => self.reg_hl(),
            _ => {
                return Err(Fault::UnimplementedInstruction(Instruction::Push(source)));
            },
        };
        self.push_u16(value)
    }

    /// POP: pop into one of the four architectural pairs.
    pub fn execute_pop(&mut self, target: Reg16) -> (r: Result<(), Fault>)
        requires
            old(self).wf(),
        ensures
            final(self).wf(),
            steps_to(final(self)@, r, spec_exec_pop(old(self)@, target)),
    {
        match target {
            Reg16::AF => {
                let value = match self.pop_u16() {
                    Ok(v) => v,
                    Err(f) => return Err(f),
                };
                self.set_reg_af(value);
                Ok(())
            },
            Reg16::BC => {
                let value = match self.pop_u16() {
                    Ok(v) => v,
                    Err(f) => return Err(f),
                };
                self.set_reg_bc(value);
                Ok(())
            },
            Reg16::DE => {
                let value = match self.pop_u16() {
                    Ok(v) => v,
                    Err(f) => return Err(f),
                };
                self.set_reg_de(value);
                Ok(())
            },
            Reg16::HL => {
                let value = match self.pop_u16() {
                    Ok(v) => v,
                    Err(f) => return Err(f),
                };
                self.set_reg_hl(value);
                Ok(())
            },
            _ => Err(Fault::UnimplementedInstruction(Instruction::Pop(target))),
        }
    }

    /// INC: increment the operand in place, setting zero, subtract and
    /// half-carry by the increment rules; carry is never touched.
    pub fn execute_inc(&mut self, target: Operand) -> (r: Result<(), Fault>)
        requires
            old(self).wf(),
        ensures
            final(self).wf(),
            steps_to(final(self)@, r, spec_exec_inc(old(self)@, target)),
    {
        match self.load_operand(target) {
            Err(f) => Err(f),
            Ok(Value::U8(value)) => {
                let half_carry = value & 0xF == 0xF;
                let result = value.wrapping_add(1);
                self.set_flag_z(result == 0);
                self.set_flag_n(false);
                self.set_flag_h(half_carry);
                self.store_operand_u8(target, result)
            },
            Ok(Value::U16(value)) => {
                let half_carry = value & 0xFF == 0xFF;
                let result = value.wrapping_add(1);
                self.set_flag_z(result == 0);
                self.set_flag_n(false);
                self.set_flag_h(half_carry);
                self.store_operand_u16(target, result)
            },
        }
    }

    /// DEC: decrement the operand in place; 8-bit operands set zero,
    /// subtract and half-carry (borrow from bit 4), 16-bit operands set
    /// no flags.
    pub fn execute_dec(&mut self, target: Operand) -> (r: Result<(), Fault>)
        requires
            old(self).wf(),
        ensures
            final(self).wf(),
            steps_to(final(self)@, r, spec_exec_dec(old(self)@, target)),
    {
        match self.load_operand(target) {
            Err(f) => Err(f),
            Ok(Value::U8(value)) => {
                let result = value.wrapping_sub(1);
                let half_carry = result & 0xF == 0xF;
                self.set_flag_z(result == 0);
                self.set_flag_n(true);
                self.set_flag_h(half_carry);
                self.store_operand_u8(target, result)
            },
            Ok(Value::U16(value)) => self.store_operand_u16(target, value.wrapping_sub(1)),
        }
    }

    /// BIT: test one bit of the operand; zero is set exactly when the
    /// bit is clear, carry is untouched.
    pub fn execute_bit(&mut self, bit: u8, target: Operand) -> (r: Result<(), Fault>)
        requires
            old(self).wf(),
            bit < 8,
        ensures
            final(self).wf(),
            steps_to(final(self)@, r, spec_exec_bit(old(self)@, bit, target)),
    {
        let value = match self.load_u8_operand(target) {
            Ok(v) => v,
            Err(f) => return Err(f),
        };
        let res = value & (1u8 << bit);
        self.set_flag_z(res == 0);
        self.set_flag_n(false);
        self.set_flag_h(true);
        Ok(())
    }

    /// Push a word: high byte at the stack pointer, low byte one below,
    /// the stack pointer two lower afterwards.
    pub fn push_u16(&mut self, value: u16) -> (r: Result<(), Fault>)
        requires
            old(self).wf(),
        ensures
            final(self).wf(),
            steps_to(final(self)@, r, spec_push16(old(self)@, value)),
    {
        match self.write_mem_u8(self.sp, hi(value)) {
            Ok(()) => {},
            Err(f) => return Err(f),
        }
        self.sp = self.sp.wrapping_sub(1);
        match self.write_mem_u8(self.sp, lo(value)) {
            Ok(()) => {},
            Err(f) => return Err(f),
        }
        self.sp = self.sp.wrapping_sub(1);
        Ok(())
    }

    /// Pop a word: the mirror image of `push_u16`.
    pub fn pop_u16(&mut self) -> (r: Result<u16, Fault>)
        requires
            old(self).wf(),
        ensures
            final(self).wf(),
            yields(final(self)@, r, spec_pop16(old(self)@)),
    {
        self.sp = self.sp.wrapping_add(1);
        let lo_byte = match self.read_mem_u8(self.sp) {
            Ok(v) => v,
            Err(f) => return Err(f),
        };
        self.sp = self.sp.wrapping_add(1);
        let hi_byte = match self.read_mem_u8(self.sp) {
            Ok(v) => v,
            Err(f) => return Err(f),
        };
        Ok(word(hi_byte, lo_byte))
    }

    /// Whether a branch condition holds of the current flags.
    pub fn evaluate_cond(&self, cond: Cond) -> (r: bool)
        ensures
            r == spec_cond_holds(self@, cond),
    {
        match cond {
            Cond::Always => true,
            Cond::ZSet => self.flag_zf,
            Cond::ZReset => !self.flag_zf,
            Cond::CSet => self.flag_cf,
            Cond::CReset => !self.flag_cf,
        }
    }

    /// Resolve an operand as a source, producing a width-tagged value.
    pub fn load_operand(&mut self, source: Operand) -> (r: Result<Value, Fault>)
        requires
            old(self).wf(),
        ensures
            final(self).wf(),
            yields(final(self)@, r, spec_load_operand(old(self)@, source)),
    {
        match source {
            Operand::Imm8 => match self.decode_imm8() {
                Ok(v) => Ok(Value::U8(v)),
                Err(f) => Err(f),
            },
            Operand::Imm16 => match self.decode_imm16() {
                Ok(v) => Ok(Value::U16(v)),
                Err(f) => Err(f),
            },
            Operand::Reg8(reg8) => Ok(Value::U8(self.load_u8_register(reg8))),
            Operand::Reg16(reg16) => Ok(Value::U16(self.load_u16_register(reg16))),
            Operand::RegRef16(reg16) => {
                let addr = self.load_u16_register(reg16);
                match self.read_mem_u8(addr) {
                    Ok(v) => Ok(Value::U8(v)),
                    Err(f) => Err(f),
                }
            },
            Operand::Imm16Ref => {
                let addr = match self.decode_imm16() {
                    Ok(v) => v,
                    Err(f) => return Err(f),
                };
                match self.read_mem_u8(addr) {
                    Ok(v) => Ok(Value::U8(v)),
                    Err(f) => Err(f),
                }
            },
            _ => Err(Fault::UnimplementedOperand(source)),
        }
    }

    /// An 8-bit register's value.
    fn load_u8_register(&self, reg8: Reg8) -> (r: u8)
        ensures
            r == spec_get_reg8(self@, reg8),
    {
        match reg8 {
            Reg8::A => self.reg_a,
            Reg8::B => self.reg_b,
            Reg8::C => self.reg_c,
            Reg8::D => self.reg_d,
            Reg8::E => self.reg_e,
            Reg8::H => self.reg_h,
            Reg8::L => self.reg_l,
        }
    }

    /// A 16-bit register's value; the auto-increment and auto-decrement
    /// variants step HL after reading it.
    fn load_u16_register(&mut self, reg16: Reg16) -> (r: u16)
        ensures
            (final(self)@, r) == spec_load_reg16(old(self)@, reg16),
    {
        match reg16 {
            Reg16::AF => self.reg_af(),
            Reg16::BC => self.reg_bc(),
            Reg16::DE => self.reg_de(),
            Reg16::HL => self.reg_hl(),
            Reg16::HLInc => self.reg_hl_postincrement(),
            Reg16::HLDec => self.reg_hl_postdecrement(),
            Reg16::SP => self.sp,
        }
    }

    /// Store a width-tagged value through an operand.
    pub fn store_operand(&mut self, target: Operand, value: Value) -> (r: Result<(), Fault>)
        requires
            old(self).wf(),
        ensures
            final(self).wf(),
            steps_to(final(self)@, r, spec_store_value(old(self)@, target, value)),
    {
        match value {
            Value::U8(v) => self.store_operand_u8(target, v),
            Value::U16(v) => self.store_operand_u16(target, v),
        }
    }

    /// Store an 8-bit value through an operand used as a destination.
    pub fn store_operand_u8(&mut self, target: Operand, value: u8) -> (r: Result<(), Fault>)
        requires
            old(self).wf(),
        ensures
            final(self).wf(),
            steps_to(final(self)@, r, spec_store_u8(old(self)@, target, value)),
    {
        match target {
            Operand::Reg8(Reg8::A) => {
                self.reg_a = value;
                Ok(())
            },
            Operand::Reg8(Reg8::B) => {
                self.reg_b = value;
                Ok(())
            },
            Operand::Reg8(Reg8::C) => {
                self.reg_c = value;
                Ok(())
            },
            Operand::Reg8(Reg8::D) => {
                self.reg_d = value;
                Ok(())
            },
            Operand::Reg8(Reg8::E) => {
                self.reg_e = value;
                Ok(())
            },
            Operand::Reg8(Reg8::H) => {
                self.reg_h = value;
                Ok(())
            },
            Operand::Reg8(Reg8::L) => {
                self.reg_l = value;
                Ok(())
            },
            Operand::RegRef16(reg16) => {
                let addr = self.load_u16_register(reg16);
                self.write_mem_u8(addr, value)
            },
            Operand::Imm16Ref => {
                let ptr = match self.decode_imm16() {
                    Ok(v) => v,
                    Err(f) => return Err(f),
                };
                self.write_mem_u8(ptr, value)
            },
            Operand::RegRef8(reg) => {
                let addr = 0xFF00 + (self.load_u8_register(reg) as u16);
                self.write_mem_u8(addr, value)
            },
            _ => Err(Fault::UnimplementedOperand(target)),
        }
    }

    /// Store a 16-bit value through an operand used as a destination:
    /// only the plain 16-bit registers BC, DE, HL and SP have a rule.
    pub fn store_operand_u16(&mut self, target: Operand, value: u16) -> (r: Result<(), Fault>)
        requires
            old(self).wf(),
        ensures
            final(self).wf(),
            steps_to(final(self)@, r, spec_store_u16(old(self)@, target, value)),
    {
        match target {
            Operand::Reg16(Reg16::BC) => {
                self.set_reg_bc(value);
                Ok(())
            },
            Operand::Reg16(Reg16::DE) => {
                self.set_reg_de(value);
                Ok(())
            },
            Operand::Reg16(Reg16::HL) => {
                self.set_reg_hl(value);
                Ok(())
            },
            Operand::Reg16(Reg16::SP) => {
                self.sp = value;
                Ok(())
            },
            _ => Err(Fault::UnimplementedOperand(target)),
        }
    }

    /// Resolve an operand known to be 8 bits wide.
    pub fn load_u8_operand(&mut self, operand: Operand) -> (r: Result<u8, Fault>)
        requires
            old(self).wf(),
        ensures
            final(self).wf(),
            yields(final(self)@, r, spec_load_u8_operand(old(self)@, operand)),
    {
        match operand {
            Operand::Imm8 => self.decode_imm8(),
            Operand::Reg8(reg8) => Ok(self.load_u8_register(reg8)),
            Operand::RegRef16(reg16) => {
                let addr = self.load_u16_register(reg16);
                self.read_mem_u8(addr)
            },
            _ => Err(Fault::UnimplementedOperand(operand)),
        }
    }

    /// Resolve an operand known to be 16 bits wide.
    pub fn load_u16_operand(&mut self, operand: Operand) -> (r: Result<u16, Fault>)
        requires
            old(self).wf(),
        ensures
            final(self).wf(),
            yields(final(self)@, r, spec_load_u16_operand(old(self)@, operand)),
    {
        match operand {
            Operand::Imm16 => self.decode_imm16(),
            Operand::RegRef16(reg16) => {
                let addr = self.load_u16_register(reg16);
                self.read_mem_u16(addr)
            },
            _ => Err(Fault::UnimplementedOperand(operand)),
        }
    }

    /// Fetch one immediate byte from the instruction stream, advancing
    /// the program counter past it.
    pub fn decode_imm8(&mut self) -> (r: Result<u8, Fault>)
        requires
            old(self).wf(),
        ensures
            final(self).wf(),
            yields(final(self)@, r, spec_fetch8(old(self)@)),
    {
        let value = match self.read_mem_u8(self.pc) {
            Ok(v) => v,
            Err(f) => return Err(f),
        };
        self.pc = self.pc.wrapping_add(1);
        Ok(value)
    }

    /// Fetch a 16-bit immediate from the instruction stream, advancing
    /// the program counter past it.
    pub fn decode_imm16(&mut self) -> (r: Result<u16, Fault>)
        requires
            old(self).wf(),
        ensures
            final(self).wf(),
            yields(final(self)@, r, spec_fetch16(old(self)@)),
    {
        let value = match self.read_mem_u16(self.pc) {
            Ok(v) => v,
            Err(f) => return Err(f),
        };
        self.pc = self.pc.wrapping_add(2);
        Ok(value)
    }
}

} // verus!
