//! A minimal stack-based bytecode virtual machine, verified with Verus.
//!
//! The machine has a fixed-capacity operand stack of 32-bit words, a linear
//! program of instructions, an instruction pointer and a halted flag.
//! [`VM::execute`] interprets one instruction per call and reports the
//! outcome as a [`Trap`]; it never panics. Arithmetic on words wraps.
//!
//! The meaning of every operation is given by the model in [`state`]:
//! each executable function is proved to compute exactly what the model
//! says. The module [`laws`] states and proves what holds of the model for
//! every state and input.

pub mod instruction;
pub mod laws;
pub mod machine;
pub mod state;
pub mod trap;
pub mod word;

pub use crate::instruction::{Instruction, InstructionType};
pub use crate::machine::VM;
pub use crate::state::{MachineState, STACK_CAPACITY};
pub use crate::trap::Trap;
pub use crate::word::Word;
