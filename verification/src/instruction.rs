//! Instructions: an opcode together with one operand word.

use vstd::prelude::*;
use crate::word::Word;

verus! {

/// The opcodes of the machine.
#[allow(non_camel_case_types)]
#[derive(Clone, Copy, Debug, PartialEq, Eq, Structural)]
pub enum InstructionType {
    /// Push the operand.
    Push,
    /// Discard the top of the stack.
    Pop,
    /// Push a copy of the element that lies operand-many slots below the top.
    Dup,
    /// Replace the two topmost elements by top + second.
    Plus,
    /// Replace the two topmost elements by top - second.
    Minus,
    /// Replace the two topmost elements by top * second.
    Mult,
    /// Replace the two topmost elements by top / second.
    Div,
    /// Continue at the instruction whose index is the operand.
    JMP,
    /// Pop a condition, and jump to the operand if it is not zero.
    JMP_IF,
    /// Jump to the operand if the two topmost elements are equal, then
    /// discard the top.
    JMP_EQ,
    /// Stop the machine.
    Halt,
}

/// One unit of program storage. What the operand means depends on the
/// opcode: the value to push, the depth to duplicate from, or a jump target.
/// Opcodes that need no operand ignore it.
#[derive(Clone, Copy, Debug, PartialEq, Eq, Structural)]
pub struct Instruction {
    pub inst_type: InstructionType,
    pub operand: Word,
}

impl Instruction {
    pub fn new(inst_type: InstructionType, operand: Word) -> (inst: Instruction)
        ensures
            inst.inst_type == inst_type,
            inst.operand == operand,
    {
        Instruction { inst_type, operand }
    }
}

} // verus!
