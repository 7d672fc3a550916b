//! The machine itself: a fixed-capacity operand stack, a program, an
//! instruction pointer and a halted flag, with the operations that act on
//! them.

use vstd::prelude::*;
use crate::instruction::{Instruction, InstructionType};
use crate::state::{MachineState, STACK_CAPACITY};
use crate::trap::Trap;
use crate::word::Word;

verus! {

/// A stack machine. The stack lives in a fixed buffer; `size` alone says
/// which slots are live. Slots at `size` and above hold stale words that no
/// operation reads.
pub struct VM {
    data: [Word; STACK_CAPACITY],
    size: usize,
    program: Vec<Instruction>,
    instruction_pointer: Word,
    is_halted: bool,
}

impl View for VM {
    type V = MachineState;

    closed spec fn view(&self) -> MachineState {
        MachineState {
            stack: self.data@.take(self.size as int),
            program: self.program@,
            instruction_pointer: self.instruction_pointer,
            halted: self.is_halted,
        }
    }
}

/// Two pops in a row take the two topmost elements, or whatever there is if
/// there are fewer.
proof fn lemma_pop_twice(s: MachineState)
    ensures
        s.pop().0.pop().0 == s.with_stack(
            if s.stack.len() < 2 {
                Seq::empty()
            } else {
                s.stack.take(s.stack.len() - 2)
            },
        ),
{
    let twice = s.pop().0.pop().0;
    if s.stack.len() < 2 {
        assert(twice.stack =~= Seq::empty());
    } else {
        assert(twice.stack =~= s.stack.take(s.stack.len() - 2));
    }
}

impl VM {
    #[verifier::type_invariant]
    spec fn inv(self) -> bool {
        self.size <= STACK_CAPACITY
    }

    /// A fresh machine with an empty stack and an empty program.
    pub fn new() -> (vm: VM)
        ensures
            vm@ == MachineState::initial(),
    {
        let vm = VM {
            data: [Word { value: 0 }; STACK_CAPACITY],
            instruction_pointer: Word { value: 0 },
            program: Vec::new(),
            size: 0,
            is_halted: false,
        };
        assert(vm@.stack =~= Seq::empty());
        assert(vm@.program =~= Seq::empty());
        vm
    }

    /// Pushes `word`, or returns `None` and changes nothing if the stack is
    /// full.
    pub fn push(&mut self, word: Word) -> (r: Option<()>)
        ensures
            (final(self)@, r) == old(self)@.push(word),
            final(self)@.wf(),
    {
        proof {
            use_type_invariant(&*self);
        }
        if self.size == STACK_CAPACITY {
            return None;
        }
        self.data[self.size] = word;
        self.size += 1;
        assert(self@.stack =~= old(self)@.stack.push(word));
        Some(())
    }

    /// Pops the top of the stack, or returns `None` and changes nothing if
    /// the stack is empty.
    pub fn pop(&mut self) -> (r: Option<Word>)
        ensures
            (final(self)@, r) == old(self)@.pop(),
            final(self)@.wf(),
    {
        proof {
            use_type_invariant(&*self);
        }
        if self.size == 0 {
            return None;
        }
        self.size -= 1;
        assert(self@.stack =~= old(self)@.stack.drop_last());
        Some(self.data[self.size])
    }

    /// Attaches `program` in place of the current one. Nothing is validated
    /// here: a jump target outside the program is found when it is fetched.
    pub fn load(&mut self, program: Vec<Instruction>)
        ensures
            final(self)@ == old(self)@.with_program(program@),
    {
        proof {
            use_type_invariant(&*self);
        }
        self.program = program;
    }

    /// Executes one instruction and reports how it went. A halted machine
    /// executes nothing and reports `NoTrap`.
    pub fn execute(&mut self) -> (trap: Trap)
        ensures
            (final(self)@, trap) == old(self)@.step(),
            final(self)@.wf(),
    {
        proof {
            use_type_invariant(&*self);
        }
        if self.is_halted {
            return Trap::NoTrap;
        }
        let ip = self.instruction_pointer.value;
        if ip < 0 || ip as usize >= self.program.len() {
            return Trap::TrapIllegalAccess;
        }
        let inst = self.program[ip as usize];
        match inst.inst_type {
            InstructionType::Push => {
                self.instruction_pointer = self.instruction_pointer.wrapping_next();
                if self.push(inst.operand).is_none() {
                    return Trap::TrapStackOverflow;
                }
                Trap::NoTrap
            },
            InstructionType::Plus => {
                self.instruction_pointer = self.instruction_pointer.wrapping_next();
                let a = self.pop();
                let b = self.pop();
                proof {
                    lemma_pop_twice(old(self)@.advance());
                }
                match (a, b) {
                    (Some(a), Some(b)) => {
                        let result = a.wrapping_add(b);
                        if self.push(result).is_none() {
                            return Trap::TrapStackOverflow;
                        }
                        Trap::NoTrap
                    },
                    (None, _) => Trap::TrapStackUnderflow,
                    (_, None) => Trap::TrapStackUnderflow,
                }
            },
            InstructionType::Pop => {
                self.instruction_pointer = self.instruction_pointer.wrapping_next();
                if self.pop().is_none() {
                    return Trap::TrapStackUnderflow;
                }
                Trap::NoTrap
            },
            InstructionType::Dup => {
                self.instruction_pointer = self.instruction_pointer.wrapping_next();
                let depth = inst.operand.value;
                if depth < 0 || depth as usize >= self.size {
                    return Trap::TrapIllegalAccess;
                }
                let word = self.data[self.size - 1 - depth as usize];
                if self.push(word).is_none() {
                    return Trap::TrapStackOverflow;
                }
                Trap::NoTrap
            },
            InstructionType::Minus => {
                self.instruction_pointer = self.instruction_pointer.wrapping_next();
                let a = self.pop();
                let b = self.pop();
                proof {
                    lemma_pop_twice(old(self)@.advance());
                }
                match (a, b) {
                    (Some(a), Some(b)) => {
                        let result = a.wrapping_sub(b);
                        if self.push(result).is_none() {
                            return Trap::TrapStackOverflow;
                        }
                        Trap::NoTrap
                    },
                    (None, _) => Trap::TrapStackUnderflow,
                    (_, None) => Trap::TrapStackUnderflow,
                }
            },
            InstructionType::Mult => {
                self.instruction_pointer = self.instruction_pointer.wrapping_next();
                let a = self.pop();
                let b = self.pop();
                proof {
                    lemma_pop_twice(old(self)@.advance());
                }
                match (a, b) {
                    (Some(a), Some(b)) => {
                        let result = a.wrapping_mul(b);
                        if self.push(result).is_none() {
                            return Trap::TrapStackOverflow;
                        }
                        Trap::NoTrap
                    },
                    (None, _) => Trap::TrapStackUnderflow,
                    (_, None) => Trap::TrapStackUnderflow,
                }
            },
            InstructionType::Div => {
                self.instruction_pointer = self.instruction_pointer.wrapping_next();
                let a = self.pop();
                let b = self.pop();
                proof {
                    lemma_pop_twice(old(self)@.advance());
                }
                match (a, b) {
                    (Some(a), Some(b)) => {
                        if b.value == 0 {
                            return Trap::TrapDivisionByZero;
                        }
                        let result = a.wrapping_div(b);
                        if self.push(result).is_none() {
                            return Trap::TrapStackOverflow;
                        }
                        Trap::NoTrap
                    },
                    (None, _) => Trap::TrapStackUnderflow,
                    (_, None) => Trap::TrapStackUnderflow,
                }
            },
            InstructionType::JMP => {
                self.instruction_pointer = inst.operand;
                Trap::NoTrap
            },
            InstructionType::JMP_IF => {
                let condition = self.pop();
                match condition {
                    Some(condition) => {
                        proof {
                            use_type_invariant(&*self);
                        }
                        if condition.value != 0 {
                            self.instruction_pointer = inst.operand;
                        } else {
                            self.instruction_pointer = self.instruction_pointer.wrapping_next();
                        }
                        Trap::NoTrap
                    },
                    None => Trap::TrapStackUnderflow,
                }
            },
            InstructionType::JMP_EQ => {
                if self.size < 2 {
                    return Trap::TrapStackUnderflow;
                }
                let a = self.data[self.size - 1];
                let b = self.data[self.size - 2];
                if a.value == b.value {
                    self.instruction_pointer = inst.operand;
                } else {
                    self.instruction_pointer = self.instruction_pointer.wrapping_next();
                }
                self.pop();
                Trap::NoTrap
            },
            InstructionType::Halt => {
                self.is_halted = true;
                Trap::NoTrap
            },
        }
    }

    /// Executes instructions until the machine halts, a step traps, or
    /// `step_budget` steps have been taken. Returns the trap of the last
    /// step (`NoTrap` if the machine halted, the budget ran out, or no step
    /// was taken) and the number of steps taken.
    pub fn run(&mut self, step_budget: u128) -> (outcome: (Trap, u128))
        ensures
            (final(self)@, outcome.0, outcome.1 as nat) == old(self)@.run(step_budget as nat),
            outcome.1 <= step_budget,
            final(self)@.wf(),
    {
        proof {
            use_type_invariant(&*self);
        }
        let ghost start = self@;
        let mut steps: u128 = 0;
        let mut last = Trap::NoTrap;
        while !self.is_halted && steps < step_budget
            invariant_except_break
                last == Trap::NoTrap,
                start.run(step_budget as nat) == ({
                    let rest = self@.run((step_budget - steps) as nat);
                    (rest.0, rest.1, (rest.2 + steps) as nat)
                }),
            invariant
                steps <= step_budget,
                self@.wf(),
            ensures
                start.run(step_budget as nat) == (self@, last, steps as nat),
            decreases step_budget - steps,
        {
            steps += 1;
            let trap = self.execute();
            match trap {
                Trap::NoTrap => {},
                _ => {
                    last = trap;
                    break;
                },
            }
        }
        (last, steps)
    }

    /// The number of live words on the stack.
    pub fn size(&self) -> (n: usize)
        ensures
            n == self@.stack.len(),
            n <= STACK_CAPACITY,
    {
        proof {
            use_type_invariant(self);
        }
        self.size
    }

    /// The index of the instruction that the next step will fetch.
    pub fn instruction_pointer(&self) -> (ip: Word)
        ensures
            ip == self@.instruction_pointer,
    {
        self.instruction_pointer
    }

    /// Whether a `Halt` instruction has stopped the machine.
    pub fn is_halted(&self) -> (halted: bool)
        ensures
            halted == self@.halted,
    {
        self.is_halted
    }

    /// The live contents of the stack, bottom first: each index from 0 up
    /// to the size, with the value of the word in that slot.
    pub fn dump(&self) -> (entries: Vec<(usize, i32)>)
        ensures
            entries@.len() == self@.stack.len(),
            forall|i: int|
                0 <= i < entries@.len() ==> entries@[i] == (i as usize, self@.stack[i].value),
    {
        proof {
            use_type_invariant(self);
        }
        let mut entries: Vec<(usize, i32)> = Vec::new();
        let mut i: usize = 0;
        while i < self.size
            invariant
                i <= self.size <= STACK_CAPACITY,
                entries@.len() == i,
                forall|k: int|
                    0 <= k < i ==> entries@[k] == (k as usize, self@.stack[k].value),
            decreases self.size - i,
        {
            entries.push((i, self.data[i].value));
            i += 1;
        }
        entries
    }
}

} // verus!
