//! The machine word: a signed 32-bit integer with two's-complement
//! (wrapping) arithmetic.

use vstd::prelude::*;

verus! {

/// The single scalar type of the machine. Stack slots, instruction operands
/// and the instruction pointer are all words.
#[derive(Clone, Copy, Debug, PartialEq, Eq, Structural)]
pub struct Word {
    pub value: i32,
}

/// The number of distinct values of a word.
pub open spec fn word_range() -> int {
    0x1_0000_0000
}

/// The word value congruent to `x` modulo `word_range()`: what remains of a
/// mathematical integer when it is stored in 32 bits, two's complement.
pub open spec fn wrap(x: int) -> i32 {
    let r = x % word_range();
    if r > i32::MAX {
        (r - word_range()) as i32
    } else {
        r as i32
    }
}

/// The quotient of `a` by `b`, rounded toward zero.
pub open spec fn truncated_quotient(a: int, b: int) -> int
    recommends
        b != 0,
{
    if a >= 0 && b > 0 {
        a / b
    } else if a < 0 && b < 0 {
        (-a) / (-b)
    } else if a < 0 {
        -((-a) / b)
    } else {
        -(a / (-b))
    }
}

/// The magnitude of a truncated quotient never exceeds that of the dividend,
/// and its sign is the product of the signs.
pub proof fn lemma_truncated_quotient_bounds(a: int, b: int)
    requires
        b != 0,
    ensures
        a >= 0 ==> -a <= truncated_quotient(a, b) <= a,
        a <= 0 ==> a <= truncated_quotient(a, b) <= -a,
        (a >= 0) == (b > 0) ==> truncated_quotient(a, b) >= 0,
        (a > 0) != (b > 0) && a != 0 ==> truncated_quotient(a, b) <= 0,
{
    let x = if a >= 0 { a } else { -a };
    let d = if b > 0 { b } else { -b };
    assert(0 <= x / d <= x) by (nonlinear_arith)
        requires
            x >= 0,
            d >= 1,
    ;
}

impl Word {
    /// `self + rhs`, wrapped into a word.
    pub open spec fn sum(self, rhs: Word) -> Word {
        Word { value: wrap(self.value + rhs.value) }
    }

    /// `self - rhs`, wrapped into a word.
    pub open spec fn difference(self, rhs: Word) -> Word {
        Word { value: wrap(self.value - rhs.value) }
    }

    /// `self * rhs`, wrapped into a word.
    pub open spec fn product(self, rhs: Word) -> Word {
        Word { value: wrap(self.value * rhs.value) }
    }

    /// `self / rhs` rounded toward zero, wrapped into a word. Only
    /// `i32::MIN / -1` is out of range before wrapping.
    pub open spec fn quotient(self, rhs: Word) -> Word
        recommends
            rhs.value != 0,
    {
        Word { value: wrap(truncated_quotient(self.value as int, rhs.value as int)) }
    }

    /// The word that follows `self`; the greatest word is followed by the
    /// least.
    pub open spec fn successor(self) -> Word {
        Word { value: wrap(self.value + 1) }
    }

    /// Adds two words; the sum wraps around at either end of the range.
    pub fn wrapping_add(self, rhs: Word) -> (r: Word)
        ensures
            r == self.sum(rhs),
    {
        Word { value: self.value.wrapping_add(rhs.value) }
    }

    /// Subtracts `rhs` from `self`; the difference wraps around at either
    /// end of the range.
    pub fn wrapping_sub(self, rhs: Word) -> (r: Word)
        ensures
            r == self.difference(rhs),
    {
        Word { value: self.value.wrapping_sub(rhs.value) }
    }

    /// Multiplies two words; the product wraps around at either end of the
    /// range.
    pub fn wrapping_mul(self, rhs: Word) -> (r: Word)
        ensures
            r == self.product(rhs),
    {
        Word { value: self.value.wrapping_mul(rhs.value) }
    }

    /// Divides `self` by a nonzero `rhs`, rounding toward zero. The least
    /// word divided by -1 wraps to the least word.
    pub fn wrapping_div(self, rhs: Word) -> (r: Word)
        requires
            rhs.value != 0,
        ensures
            r == self.quotient(rhs),
    {
        proof {
            lemma_truncated_quotient_bounds(self.value as int, rhs.value as int);
        }
        match self.value.checked_div(rhs.value) {
            Some(q) => Word { value: q },
            None => Word { value: i32::MIN },
        }
    }

    /// The word after `self`, wrapping from the greatest to the least.
    pub fn wrapping_next(self) -> (r: Word)
        ensures
            r == self.successor(),
    {
        Word { value: self.value.wrapping_add(1) }
    }
}

} // verus!
