use stack_vm::{Instruction, InstructionType, Trap, Word, STACK_CAPACITY, VM};

fn word(value: i32) -> Word {
    Word { value }
}

fn inst(inst_type: InstructionType, operand: i32) -> Instruction {
    Instruction::new(inst_type, word(operand))
}

fn values(vm: &VM) -> Vec<i32> {
    vm.dump().into_iter().map(|(_, v)| v).collect()
}

fn fibonacci_program() -> Vec<Instruction> {
    vec![
        inst(InstructionType::Push, 0),
        inst(InstructionType::Push, 1),
        inst(InstructionType::Dup, 1),
        inst(InstructionType::Dup, 1),
        inst(InstructionType::Plus, 0),
        inst(InstructionType::JMP, 2),
    ]
}

/// The first `count` Fibonacci numbers, in 32-bit wrapping arithmetic.
fn fibonacci(count: usize) -> Vec<i32> {
    let mut out: Vec<i32> = Vec::new();
    for i in 0..count {
        let next = if i < 2 { i as i32 } else { out[i - 1].wrapping_add(out[i - 2]) };
        out.push(next);
    }
    out
}

#[test]
fn fibonacci_program_after_69_steps() {
    let mut vm = VM::new();
    vm.load(fibonacci_program());
    assert_eq!(vm.run(69), (Trap::NoTrap, 69));
    assert!(!vm.is_halted());
    assert_eq!(
        values(&vm),
        vec![0, 1, 1, 2, 3, 5, 8, 13, 21, 34, 55, 89, 144, 233, 377, 610, 987, 1597, 2584]
    );
    assert_eq!(vm.instruction_pointer(), word(5));
}

#[test]
fn fibonacci_program_step_by_step() {
    let mut vm = VM::new();
    vm.load(fibonacci_program());
    let expected: [&[i32]; 10] = [
        &[0],
        &[0, 1],
        &[0, 1, 0],
        &[0, 1, 0, 1],
        &[0, 1, 1],
        &[0, 1, 1],
        &[0, 1, 1, 1],
        &[0, 1, 1, 1, 1],
        &[0, 1, 1, 2],
        &[0, 1, 1, 2],
    ];
    for stack in expected {
        assert_eq!(vm.execute(), Trap::NoTrap);
        assert_eq!(values(&vm), stack.to_vec());
    }
}

#[test]
fn fibonacci_program_grows_one_word_every_four_steps_until_the_stack_is_full() {
    let mut vm = VM::new();
    vm.load(fibonacci_program());
    // Two pushes, then one more word per round of four, until a round starts
    // on 1023 words: its first `Dup` fills the stack.
    let steps_without_trap: u128 = 2 + 4 * (STACK_CAPACITY as u128 - 3) + 1;
    assert_eq!(steps_without_trap, 4087);
    assert_eq!(vm.run(steps_without_trap), (Trap::NoTrap, steps_without_trap));
    assert_eq!(vm.size(), STACK_CAPACITY);
    assert_eq!(vm.execute(), Trap::TrapStackOverflow);
    assert_eq!(vm.size(), STACK_CAPACITY);
    let stack = values(&vm);
    assert_eq!(stack[..1023], fibonacci(1023)[..]);
    assert_eq!(stack[1023], stack[1021]);
}

#[test]
fn fibonacci_program_run_without_bound_ends_in_stack_overflow() {
    let mut vm = VM::new();
    vm.load(fibonacci_program());
    assert_eq!(vm.run(u128::MAX), (Trap::TrapStackOverflow, 4088));
    assert_eq!(vm.size(), STACK_CAPACITY);
}

#[test]
fn push_5_push_0_div_divides_zero_by_five() {
    // The divisor is the second word popped, the one below the top: here 5.
    let mut vm = VM::new();
    vm.load(vec![
        inst(InstructionType::Push, 5),
        inst(InstructionType::Push, 0),
        inst(InstructionType::Div, 0),
    ]);
    assert_eq!(vm.execute(), Trap::NoTrap);
    assert_eq!(vm.execute(), Trap::NoTrap);
    assert_eq!(vm.execute(), Trap::NoTrap);
    assert_eq!(vm.dump(), vec![(0, 0)]);
}

#[test]
fn push_0_push_5_div_traps_once_and_empties_the_stack() {
    let mut vm = VM::new();
    vm.load(vec![
        inst(InstructionType::Push, 0),
        inst(InstructionType::Push, 5),
        inst(InstructionType::Div, 0),
    ]);
    assert_eq!(vm.execute(), Trap::NoTrap);
    assert_eq!(vm.execute(), Trap::NoTrap);
    assert_eq!(vm.size(), 2);
    assert_eq!(vm.execute(), Trap::TrapDivisionByZero);
    assert_eq!(vm.size(), 0);
}

#[test]
fn push_0_push_5_div_under_the_driver() {
    let mut vm = VM::new();
    vm.load(vec![
        inst(InstructionType::Push, 0),
        inst(InstructionType::Push, 5),
        inst(InstructionType::Div, 0),
    ]);
    assert_eq!(vm.run(69), (Trap::TrapDivisionByZero, 3));
    assert_eq!(vm.size(), 0);
}

#[test]
fn pop_program_on_empty_machine_underflows_at_once() {
    let mut vm = VM::new();
    vm.load(vec![inst(InstructionType::Pop, 0)]);
    assert_eq!(vm.execute(), Trap::TrapStackUnderflow);
    assert_eq!(vm.size(), 0);
    assert!(!vm.is_halted());
    // The pointer moves before the pop is tried.
    assert_eq!(vm.instruction_pointer(), word(1));
}

#[test]
fn halt_program_stops_after_exactly_one_step() {
    let mut vm = VM::new();
    vm.load(vec![inst(InstructionType::Halt, 0)]);
    assert_eq!(vm.run(69), (Trap::NoTrap, 1));
    assert!(vm.is_halted());
    assert_eq!(vm.size(), 0);
    assert_eq!(vm.instruction_pointer(), word(0));
}

#[test]
fn nothing_after_halt_is_executed_while_budget_remains() {
    let mut vm = VM::new();
    vm.load(vec![
        inst(InstructionType::Halt, 0),
        inst(InstructionType::Push, 1),
    ]);
    assert_eq!(vm.run(u128::MAX), (Trap::NoTrap, 1));
    assert!(vm.is_halted());
    assert_eq!(vm.size(), 0);
    assert_eq!(vm.run(u128::MAX), (Trap::NoTrap, 0));
    assert_eq!(vm.size(), 0);
}
