//! Laws of the machine, proved over its model. Whatever holds here of
//! `MachineState::push`, `pop` and `step` holds of `VM::push`, `VM::pop` and
//! `VM::execute`, whose contracts are stated through them.

use vstd::prelude::*;
use crate::instruction::{Instruction, InstructionType};
use crate::state::{MachineState, STACK_CAPACITY};
use crate::trap::Trap;
use crate::word::{truncated_quotient, word_range, wrap, Word};

verus! {

/// Pushes that fit are all accepted and land on the stack in the order in
/// which they were made.
pub proof fn law_pushes_append(s: MachineState, words: Seq<Word>)
    requires
        s.stack.len() + words.len() <= STACK_CAPACITY,
    ensures
        s.push_all(words) == s.with_stack(s.stack + words),
    decreases words.len(),
{
    if words.len() == 0 {
        assert(s.stack + words =~= s.stack);
    } else {
        law_pushes_append(s, words.drop_last());
        assert((s.stack + words.drop_last()).push(words.last()) =~= s.stack + words);
    }
}

/// Last in, first out: after any pushes that fit, as many pops return the
/// pushed words in reverse order and leave the machine as it was before the
/// pushes.
pub proof fn law_lifo(s: MachineState, words: Seq<Word>)
    requires
        s.stack.len() + words.len() <= STACK_CAPACITY,
    ensures
        s.push_all(words).pop_many(words.len()) == (s, words.reverse()),
    decreases words.len(),
{
    if words.len() == 0 {
        assert(words.reverse() =~= Seq::empty());
    } else {
        let front = words.drop_last();
        let before = s.push_all(front);
        law_pushes_append(s, front);
        law_lifo(s, front);
        let full = before.push(words.last()).0;
        assert(full.pop() == (before, Some(words.last()))) by {
            assert(full.stack.drop_last() =~= before.stack);
        }
        assert(seq![words.last()] + front.reverse() =~= words.reverse());
    }
}

/// A push on a full stack is refused and leaves the machine as it was.
pub proof fn law_push_on_full_stack(s: MachineState, word: Word)
    requires
        s.stack.len() == STACK_CAPACITY,
    ensures
        s.push(word) == (s, None::<()>),
{
}

/// A `Push` instruction on a full stack reports `TrapStackOverflow` and
/// leaves every element of the stack as it was.
pub proof fn law_push_instruction_on_full_stack(s: MachineState, operand: Word)
    requires
        !s.halted,
        s.fetch() == Some(Instruction { inst_type: InstructionType::Push, operand }),
        s.stack.len() == STACK_CAPACITY,
    ensures
        s.step().1 == Trap::TrapStackOverflow,
        s.step().0.stack == s.stack,
{
}

/// A pop on an empty stack is refused and leaves the machine as it was.
pub proof fn law_pop_on_empty_stack(s: MachineState)
    requires
        s.stack.len() == 0,
    ensures
        s.pop() == (s, None::<Word>),
{
}

/// A `Pop` instruction on an empty stack reports `TrapStackUnderflow` and
/// leaves the stack empty.
pub proof fn law_pop_instruction_on_empty_stack(s: MachineState, operand: Word)
    requires
        !s.halted,
        s.fetch() == Some(Instruction { inst_type: InstructionType::Pop, operand }),
        s.stack.len() == 0,
    ensures
        s.step().1 == Trap::TrapStackUnderflow,
        s.step().0.stack == s.stack,
{
}

/// `Dup(n)` with `n` negative or not below the stack's size reports
/// `TrapIllegalAccess` and leaves the stack as it was.
pub proof fn law_dup_out_of_reach(s: MachineState, n: Word)
    requires
        !s.halted,
        s.fetch() == Some(Instruction { inst_type: InstructionType::Dup, operand: n }),
        n.value < 0 || n.value >= s.stack.len(),
    ensures
        s.step().1 == Trap::TrapIllegalAccess,
        s.step().0.stack == s.stack,
{
}

/// `Dup(n)` within reach, on a stack that is not full, succeeds, grows the
/// stack by exactly one element, keeps what was there, and puts on top the
/// element that lay `n` slots below the old top.
pub proof fn law_dup_within_reach(s: MachineState, n: Word)
    requires
        !s.halted,
        s.fetch() == Some(Instruction { inst_type: InstructionType::Dup, operand: n }),
        0 <= n.value < s.stack.len(),
        s.stack.len() < STACK_CAPACITY,
    ensures
        s.step().1 == Trap::NoTrap,
        s.step().0.stack.len() == s.stack.len() + 1,
        s.step().0.stack.last() == s.peek(n.value as int),
        s.step().0.stack.drop_last() == s.stack,
{
    assert(s.step().0.stack.drop_last() =~= s.stack);
}

/// `Div` with a zero divisor reports `TrapDivisionByZero`, and both
/// operands are gone from the stack all the same.
pub proof fn law_division_by_zero_consumes_operands(s: MachineState, operand: Word)
    requires
        !s.halted,
        s.fetch() == Some(Instruction { inst_type: InstructionType::Div, operand }),
        s.stack.len() >= 2,
        s.peek(1).value == 0,
    ensures
        s.step().1 == Trap::TrapDivisionByZero,
        s.step().0.stack == s.stack.take(s.stack.len() - 2),
        s.step().0.stack.len() == s.stack.len() - 2,
{
}

/// `JMP_EQ` on at least two elements succeeds and removes exactly the top,
/// whichever way it branches.
pub proof fn law_jump_if_equal_pops_one(s: MachineState, target: Word)
    requires
        !s.halted,
        s.fetch() == Some(Instruction { inst_type: InstructionType::JMP_EQ, operand: target }),
        s.stack.len() >= 2,
    ensures
        s.step().1 == Trap::NoTrap,
        s.step().0.stack == s.stack.drop_last(),
        s.step().0.stack.len() == s.stack.len() - 1,
{
}

/// A halted machine executes nothing: a step leaves it as it was and reports
/// `NoTrap`, so once halted it stays halted.
pub proof fn law_halted_step_is_noop(s: MachineState)
    requires
        s.halted,
    ensures
        s.step() == (s, Trap::NoTrap),
{
}

/// A step keeps the stack within its capacity and never touches the program.
pub proof fn law_step_preserves_bounds(s: MachineState)
    requires
        s.wf(),
    ensures
        s.step().0.wf(),
        s.step().0.program == s.program,
{
}

/// A step that finds the pointer outside the program changes nothing, so a
/// jump to a target that is out of range is only found at the next step.
pub proof fn law_fetch_out_of_range(s: MachineState)
    requires
        !s.halted,
        s.instruction_pointer.value < 0 || s.instruction_pointer.value >= s.program.len(),
    ensures
        s.step() == (s, Trap::TrapIllegalAccess),
{
}

/// The run stops for one of three reasons only: a fault, a halted machine,
/// or a spent budget. It never takes more steps than the budget allows,
/// keeps the stack within its capacity and never touches the program.
pub proof fn law_run_outcome(s: MachineState, budget: nat)
    requires
        s.wf(),
    ensures
        s.run(budget).1.is_fault() || s.run(budget).0.halted || s.run(budget).2 == budget,
        s.run(budget).2 <= budget,
        s.run(budget).0.wf(),
        s.run(budget).0.program == s.program,
    decreases budget,
{
    if !s.halted && budget > 0 && !s.step().1.is_fault() {
        law_run_outcome(s.step().0, (budget - 1) as nat);
    }
}

/// A run that reaches `Halt` takes that one step and no more, however much
/// of the budget is left.
pub proof fn law_run_stops_at_halt(s: MachineState, operand: Word, budget: nat)
    requires
        !s.halted,
        s.fetch() == Some(Instruction { inst_type: InstructionType::Halt, operand }),
        budget >= 1,
    ensures
        s.run(budget) == (MachineState { halted: true, ..s }, Trap::NoTrap, 1nat),
{
    reveal_with_fuel(MachineState::run, 2);
}

/// A run of a halted machine takes no step.
pub proof fn law_run_of_halted_machine(s: MachineState, budget: nat)
    requires
        s.halted,
    ensures
        s.run(budget) == (s, Trap::NoTrap, 0nat),
{
}

/// Wrapping stores a value that fits in a word unchanged, and changes any
/// other by a multiple of the word range.
pub proof fn law_wrap(x: int)
    ensures
        i32::MIN <= x <= i32::MAX ==> wrap(x) == x,
        (wrap(x) - x) % word_range() == 0,
{
}

/// Sum, difference and product are exact whenever the exact result fits in
/// a word.
pub proof fn law_arithmetic_exact_when_it_fits(a: Word, b: Word)
    ensures
        i32::MIN <= a.value + b.value <= i32::MAX ==> a.sum(b).value == a.value + b.value,
        i32::MIN <= a.value - b.value <= i32::MAX ==> a.difference(b).value == a.value
            - b.value,
        i32::MIN <= a.value * b.value <= i32::MAX ==> a.product(b).value == a.value
            * b.value,
{
}

/// The truncated quotient is the one whose remainder is smaller in magnitude
/// than the divisor and has the sign of the dividend.
pub proof fn law_truncated_quotient_remainder(a: int, b: int)
    requires
        b != 0,
    ensures
        ({
            let r = a - truncated_quotient(a, b) * b;
            &&& a >= 0 ==> r >= 0
            &&& a <= 0 ==> r <= 0
            &&& b > 0 ==> -b < r < b
            &&& b < 0 ==> b < r < -b
        }),
{
    let x = if a >= 0 { a } else { -a };
    let d = if b > 0 { b } else { -b };
    let k = x / d;
    vstd::arithmetic::div_mod::lemma_fundamental_div_mod(x, d);
    vstd::arithmetic::div_mod::lemma_mod_bound(x, d);
    vstd::arithmetic::mul::lemma_mul_is_commutative(d, k);
    vstd::arithmetic::mul::lemma_mul_unary_negation(k, d);
    vstd::arithmetic::mul::lemma_mul_unary_negation(-k, d);
}

/// The quotient of two words is exact except for the least word divided by
/// -1, which wraps to the least word.
pub proof fn law_quotient(a: Word, b: Word)
    requires
        b.value != 0,
    ensures
        !(a.value == i32::MIN && b.value == -1) ==> a.quotient(b).value == truncated_quotient(
            a.value as int,
            b.value as int,
        ),
        a.value == i32::MIN && b.value == -1 ==> a.quotient(b).value == i32::MIN,
{
    crate::word::lemma_truncated_quotient_bounds(a.value as int, b.value as int);
    if b.value == -1 || b.value == 1 {
        let x: int = if a.value >= 0 { a.value as int } else { -(a.value as int) };
        assert(x / 1 == x) by (nonlinear_arith);
    } else {
        let x: int = if a.value >= 0 { a.value as int } else { -(a.value as int) };
        let d: int = if b.value > 0 { b.value as int } else { -(b.value as int) };
        assert(x / d < 0x8000_0000) by (nonlinear_arith)
            requires
                0 <= x <= 0x8000_0000,
                d >= 2,
        ;
    }
}

} // verus!
