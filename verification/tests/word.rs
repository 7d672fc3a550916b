use stack_vm::{Trap, Word};

fn word(value: i32) -> Word {
    Word { value }
}

#[test]
fn add_is_exact_when_it_fits() {
    assert_eq!(word(2).wrapping_add(word(3)), word(5));
    assert_eq!(word(-2).wrapping_add(word(-3)), word(-5));
    assert_eq!(word(i32::MAX).wrapping_add(word(0)), word(i32::MAX));
}

#[test]
fn add_wraps_at_both_ends() {
    assert_eq!(word(i32::MAX).wrapping_add(word(1)), word(i32::MIN));
    assert_eq!(word(i32::MIN).wrapping_add(word(-1)), word(i32::MAX));
    assert_eq!(word(i32::MAX).wrapping_add(word(i32::MAX)), word(-2));
}

#[test]
fn sub_is_exact_when_it_fits_and_wraps_otherwise() {
    assert_eq!(word(3).wrapping_sub(word(5)), word(-2));
    assert_eq!(word(5).wrapping_sub(word(3)), word(2));
    assert_eq!(word(i32::MIN).wrapping_sub(word(1)), word(i32::MAX));
    assert_eq!(word(0).wrapping_sub(word(i32::MIN)), word(i32::MIN));
}

#[test]
fn mul_is_exact_when_it_fits_and_wraps_otherwise() {
    assert_eq!(word(6).wrapping_mul(word(-7)), word(-42));
    assert_eq!(word(65536).wrapping_mul(word(65536)), word(0));
    assert_eq!(word(i32::MAX).wrapping_mul(word(2)), word(-2));
    assert_eq!(word(i32::MIN).wrapping_mul(word(-1)), word(i32::MIN));
}

#[test]
fn div_truncates_toward_zero() {
    assert_eq!(word(7).wrapping_div(word(2)), word(3));
    assert_eq!(word(-7).wrapping_div(word(2)), word(-3));
    assert_eq!(word(7).wrapping_div(word(-2)), word(-3));
    assert_eq!(word(-7).wrapping_div(word(-2)), word(3));
    assert_eq!(word(0).wrapping_div(word(5)), word(0));
    assert_eq!(word(1).wrapping_div(word(2)), word(0));
    assert_eq!(word(-1).wrapping_div(word(2)), word(0));
}

#[test]
fn div_of_least_word_by_minus_one_wraps() {
    assert_eq!(word(i32::MIN).wrapping_div(word(-1)), word(i32::MIN));
    assert_eq!(word(i32::MIN).wrapping_div(word(1)), word(i32::MIN));
    assert_eq!(word(i32::MAX).wrapping_div(word(-1)), word(-i32::MAX));
}

#[test]
fn next_counts_up_and_wraps() {
    assert_eq!(word(0).wrapping_next(), word(1));
    assert_eq!(word(-1).wrapping_next(), word(0));
    assert_eq!(word(i32::MAX).wrapping_next(), word(i32::MIN));
}

#[test]
fn every_fault_has_its_message() {
    assert_eq!(Trap::TrapStackOverflow.message(), Some("Stack overflow"));
    assert_eq!(Trap::TrapStackUnderflow.message(), Some("Stack underflow"));
    assert_eq!(Trap::TrapDivisionByZero.message(), Some("Division by zero"));
    assert_eq!(Trap::TrapIllegalAccess.message(), Some("Illegal access"));
}

#[test]
fn no_trap_has_no_message() {
    assert_eq!(Trap::NoTrap.message(), None);
}
