//! Traps: what one execution step reports to its caller.

use vstd::prelude::*;

verus! {

/// The outcome of one step. `NoTrap` means the step succeeded and the run
/// may continue; every other value is a fault. A trap carries no payload.
#[derive(Clone, Copy, Debug, PartialEq, Eq, Structural)]
pub enum Trap {
    /// A push found the stack full.
    TrapStackOverflow,
    /// A pop found the stack empty, or an instruction found fewer elements
    /// than it needs.
    TrapStackUnderflow,
    /// The step succeeded.
    NoTrap,
    /// A division found a zero divisor.
    TrapDivisionByZero,
    /// The instruction pointer lies outside the program, or a `Dup` reached
    /// below the bottom of the stack.
    TrapIllegalAccess,
}

impl Trap {
    /// Whether the trap reports a fault.
    pub open spec fn is_fault(self) -> bool {
        self != Trap::NoTrap
    }

    /// The text that describes a fault to a person; `NoTrap` has none.
    pub open spec fn describe(self) -> Option<Seq<char>> {
        match self {
            Trap::TrapStackOverflow => Some("Stack overflow"@),
            Trap::TrapStackUnderflow => Some("Stack underflow"@),
            Trap::NoTrap => None,
            Trap::TrapDivisionByZero => Some("Division by zero"@),
            Trap::TrapIllegalAccess => Some("Illegal access"@),
        }
    }

    /// The human-readable message of a fault, or `None` for `NoTrap`.
    pub fn message(&self) -> (text: Option<&'static str>)
        ensures
            text is Some == self.is_fault(),
            match text {
                Some(s) => self.describe() == Some(s@),
                None => self.describe() is None,
            },
    {
        match self {
            Trap::TrapStackOverflow => Some("Stack overflow"),
            Trap::TrapStackUnderflow => Some("Stack underflow"),
            Trap::NoTrap => None,
            Trap::TrapDivisionByZero => Some("Division by zero"),
            Trap::TrapIllegalAccess => Some("Illegal access"),
        }
    }
}

} // verus!
