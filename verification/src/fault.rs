//! The fatal, unrecoverable conditions of the emulator. There are two
//! kinds: behavior that is not yet modeled (an opcode, an operand
//! combination, a device operation without semantics), and a truly
//! invalid address, one that no declared bus range owns. Neither is ever
//! guessed around: the faulting operation reports which condition it hit
//! and the machine state is kept only for diagnosis.

use vstd::prelude::*;
use crate::instruction::{ExtendedInstruction, Instruction, Operand};

verus! {

/// A fatal condition raised during decoding, dispatch or execution.
#[derive(Clone, Copy, Debug, PartialEq, Eq, Structural)]
pub enum Fault {
    /// A bus access that no declared address range owns: a mapping error,
    /// distinct from the recoverable catch-all placeholder region.
    InvalidAddress(u16),
    /// A read of a device register whose read side is not yet modeled.
    UnimplementedRead(u16),
    /// A write to a device or region whose write side is not yet modeled.
    UnimplementedWrite(u16),
    /// An instruction variant without an execution rule.
    UnimplementedInstruction(Instruction),
    /// An extended instruction variant without an execution rule.
    UnimplementedExtended(ExtendedInstruction),
    /// An operand/addressing-mode combination without an execution rule.
    UnimplementedOperand(Operand),
}

} // verus!
