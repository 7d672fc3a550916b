//! The mathematical model of the machine: its state as plain values, and the
//! effect of every operation as a function from state to state.

use vstd::prelude::*;
use crate::instruction::{Instruction, InstructionType};
use crate::trap::Trap;
use crate::word::Word;

verus! {

/// The number of words the operand stack can hold.
pub const STACK_CAPACITY: usize = 1024;

/// What a machine is, seen from outside: the live part of its stack (bottom
/// first, top last), its program, its instruction pointer and its halted
/// flag.
pub struct MachineState {
    pub stack: Seq<Word>,
    pub program: Seq<Instruction>,
    pub instruction_pointer: Word,
    pub halted: bool,
}

impl MachineState {
    /// A fresh machine: empty stack, empty program, pointer at 0, running.
    pub open spec fn initial() -> MachineState {
        MachineState {
            stack: Seq::empty(),
            program: Seq::empty(),
            instruction_pointer: Word { value: 0 },
            halted: false,
        }
    }

    /// The stack never holds more than `STACK_CAPACITY` words.
    pub open spec fn wf(self) -> bool {
        self.stack.len() <= STACK_CAPACITY
    }

    /// The element `depth` slots below the top; depth 0 is the top itself.
    pub open spec fn peek(self, depth: int) -> Word
        recommends
            0 <= depth < self.stack.len(),
    {
        self.stack[self.stack.len() - 1 - depth]
    }

    /// The state with `stack` in place of the stack.
    pub open spec fn with_stack(self, stack: Seq<Word>) -> MachineState {
        MachineState { stack, ..self }
    }

    /// The state with `program` in place of the program.
    pub open spec fn with_program(self, program: Seq<Instruction>) -> MachineState {
        MachineState { program, ..self }
    }

    /// The state with the instruction pointer set to `target`. No bound is
    /// checked here: a target outside the program is found at the next fetch.
    pub open spec fn jump(self, target: Word) -> MachineState {
        MachineState { instruction_pointer: target, ..self }
    }

    /// The state with the instruction pointer moved to the next instruction.
    pub open spec fn advance(self) -> MachineState {
        self.jump(self.instruction_pointer.successor())
    }

    /// Pushing `word`: refused on a full stack, which is left as it was;
    /// otherwise `word` becomes the new top.
    pub open spec fn push(self, word: Word) -> (MachineState, Option<()>) {
        if self.stack.len() >= STACK_CAPACITY {
            (self, None)
        } else {
            (self.with_stack(self.stack.push(word)), Some(()))
        }
    }

    /// Popping: refused on an empty stack, which is left as it was; otherwise
    /// the top is removed and returned.
    pub open spec fn pop(self) -> (MachineState, Option<Word>) {
        if self.stack.len() == 0 {
            (self, None)
        } else {
            (self.with_stack(self.stack.drop_last()), Some(self.stack.last()))
        }
    }

    /// Pushing the words of `words` one after another, first to last,
    /// whether or not each push is accepted.
    pub open spec fn push_all(self, words: Seq<Word>) -> MachineState
        decreases words.len(),
    {
        if words.len() == 0 {
            self
        } else {
            self.push_all(words.drop_last()).push(words.last()).0
        }
    }

    /// Popping `count` times: the state that is left, and the words that
    /// came out, in the order in which they came out.
    pub open spec fn pop_many(self, count: nat) -> (MachineState, Seq<Word>)
        decreases count,
    {
        if count == 0 {
            (self, Seq::empty())
        } else {
            let (next, popped) = self.pop();
            let (last, later) = next.pop_many((count - 1) as nat);
            match popped {
                Some(word) => (last, seq![word] + later),
                None => (last, later),
            }
        }
    }

    /// The instruction the pointer designates, if it designates one. A
    /// negative pointer designates none.
    pub open spec fn fetch(self) -> Option<Instruction> {
        let ip = self.instruction_pointer.value;
        if 0 <= ip < self.program.len() {
            Some(self.program[ip as int])
        } else {
            None
        }
    }

    /// The result of an arithmetic opcode on `top` and `second`, the first
    /// and the second word popped. The divisor of `Div` is `second`.
    pub open spec fn arithmetic(op: InstructionType, top: Word, second: Word) -> Word
        recommends
            op is Plus || op is Minus || op is Mult || (op is Div && second.value != 0),
    {
        match op {
            InstructionType::Plus => top.sum(second),
            InstructionType::Minus => top.difference(second),
            InstructionType::Mult => top.product(second),
            _ => top.quotient(second),
        }
    }

    /// `Push(v)`: a full stack overflows.
    pub open spec fn perform_push(self, operand: Word) -> (MachineState, Trap) {
        if self.stack.len() >= STACK_CAPACITY {
            (self, Trap::TrapStackOverflow)
        } else {
            (self.with_stack(self.stack.push(operand)), Trap::NoTrap)
        }
    }

    /// `Pop`: an empty stack underflows.
    pub open spec fn perform_pop(self) -> (MachineState, Trap) {
        if self.stack.len() == 0 {
            (self, Trap::TrapStackUnderflow)
        } else {
            (self.with_stack(self.stack.drop_last()), Trap::NoTrap)
        }
    }

    /// `Dup(n)`: a depth that is negative or reaches below the bottom is an
    /// illegal access, found before the stack is touched; a full stack then
    /// overflows.
    pub open spec fn perform_dup(self, operand: Word) -> (MachineState, Trap) {
        let depth = operand.value as int;
        if !(0 <= depth < self.stack.len()) {
            (self, Trap::TrapIllegalAccess)
        } else if self.stack.len() >= STACK_CAPACITY {
            (self, Trap::TrapStackOverflow)
        } else {
            (self.with_stack(self.stack.push(self.peek(depth))), Trap::NoTrap)
        }
    }

    /// `Plus`, `Minus`, `Mult`, `Div`: both operands are popped before
    /// anything else is looked at. With fewer than two elements the stack
    /// underflows and whatever it held is consumed; a zero divisor is found
    /// only after both operands are gone.
    pub open spec fn perform_arithmetic(self, op: InstructionType) -> (MachineState, Trap)
        recommends
            op is Plus || op is Minus || op is Mult || op is Div,
    {
        let n = self.stack.len() as int;
        if n < 2 {
            (self.with_stack(Seq::empty()), Trap::TrapStackUnderflow)
        } else {
            let top = self.stack[n - 1];
            let second = self.stack[n - 2];
            let rest = self.stack.take(n - 2);
            if op is Div && second.value == 0 {
                (self.with_stack(rest), Trap::TrapDivisionByZero)
            } else {
                (self.with_stack(rest.push(Self::arithmetic(op, top, second))), Trap::NoTrap)
            }
        }
    }

    /// `JMP_IF(target)`: an empty stack underflows and nothing changes;
    /// otherwise the condition is popped and decides between the target and
    /// the next instruction.
    pub open spec fn perform_jump_if(self, target: Word) -> (MachineState, Trap) {
        if self.stack.len() == 0 {
            (self, Trap::TrapStackUnderflow)
        } else {
            let rest = self.with_stack(self.stack.drop_last());
            if self.stack.last().value != 0 {
                (rest.jump(target), Trap::NoTrap)
            } else {
                (rest.advance(), Trap::NoTrap)
            }
        }
    }

    /// `JMP_EQ(target)`: with fewer than two elements the stack underflows
    /// and nothing changes; otherwise the two topmost elements decide between
    /// the target and the next instruction, and the top alone is popped.
    pub open spec fn perform_jump_eq(self, target: Word) -> (MachineState, Trap) {
        if self.stack.len() < 2 {
            (self, Trap::TrapStackUnderflow)
        } else {
            let rest = self.with_stack(self.stack.drop_last());
            if self.peek(0).value == self.peek(1).value {
                (rest.jump(target), Trap::NoTrap)
            } else {
                (rest.advance(), Trap::NoTrap)
            }
        }
    }

    /// The effect of `inst` on a running machine. Instructions that do not
    /// set the pointer themselves move it to the next instruction before
    /// they touch the stack, so it has moved even when they then trap.
    pub open spec fn perform(self, inst: Instruction) -> (MachineState, Trap) {
        match inst.inst_type {
            InstructionType::Push => self.advance().perform_push(inst.operand),
            InstructionType::Pop => self.advance().perform_pop(),
            InstructionType::Dup => self.advance().perform_dup(inst.operand),
            InstructionType::Plus
            | InstructionType::Minus
            | InstructionType::Mult
            | InstructionType::Div => self.advance().perform_arithmetic(inst.inst_type),
            InstructionType::JMP => (self.jump(inst.operand), Trap::NoTrap),
            InstructionType::JMP_IF => self.perform_jump_if(inst.operand),
            InstructionType::JMP_EQ => self.perform_jump_eq(inst.operand),
            InstructionType::Halt => (MachineState { halted: true, ..self }, Trap::NoTrap),
        }
    }

    /// One execution step. A halted machine does nothing and reports
    /// `NoTrap`. A pointer outside the program is an illegal access and
    /// changes nothing. Otherwise the designated instruction is performed.
    pub open spec fn step(self) -> (MachineState, Trap) {
        if self.halted {
            (self, Trap::NoTrap)
        } else {
            match self.fetch() {
                None => (self, Trap::TrapIllegalAccess),
                Some(inst) => self.perform(inst),
            }
        }
    }

    /// Stepping until the machine halts, a step traps, or `budget` steps
    /// have been taken, whichever comes first: the state that is left, the
    /// trap of the last step taken (`NoTrap` if none was), and the number of
    /// steps taken.
    pub open spec fn run(self, budget: nat) -> (MachineState, Trap, nat)
        decreases budget,
    {
        if self.halted || budget == 0 {
            (self, Trap::NoTrap, 0)
        } else {
            let (next, trap) = self.step();
            if trap.is_fault() {
                (next, trap, 1)
            } else {
                let (last, last_trap, steps) = next.run((budget - 1) as nat);
                (last, last_trap, steps + 1)
            }
        }
    }
}

} // verus!
