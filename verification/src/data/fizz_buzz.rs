//! A counter that client and server increment in turn, and what it prints.

use vstd::prelude::*;

verus! {

/// A counter value with the time it was produced.
#[derive(Debug, Clone, Copy, PartialEq)]
pub struct FizzBuzzCounter {
    pub time_stamp: std::time::SystemTime,
    pub value: u64,
}

/// What a counter value prints as.
#[derive(Debug, Clone, Copy, PartialEq, Eq)]
pub enum FizzBuzzLine {
    /// `Fizz Buzz`: the value is a multiple of 15.
    FizzBuzz,
    /// `Buzz`: the value is a multiple of 5 but not of 15.
    Buzz,
    /// `Fizz`: the value is a multiple of 3 but not of 15.
    Fizz,
    /// The value itself, in decimal.
    Number(u64),
}

/// What `value` prints as: `Fizz Buzz` for multiples of 15, `Buzz` for other
/// multiples of 5, `Fizz` for other multiples of 3, and the number otherwise.
pub open spec fn fizz_buzz_line(value: u64) -> FizzBuzzLine {
    if value % 15 == 0 {
        FizzBuzzLine::FizzBuzz
    } else if value % 5 == 0 {
        FizzBuzzLine::Buzz
    } else if value % 3 == 0 {
        FizzBuzzLine::Fizz
    } else {
        FizzBuzzLine::Number(value)
    }
}

impl FizzBuzzCounter {
    /// The line that printing this counter shows.
    pub fn line(&self) -> (line: FizzBuzzLine)
        ensures
            line == fizz_buzz_line(self.value),
            self.value % 3 != 0 && self.value % 5 != 0 ==> line == FizzBuzzLine::Number(self.value),
    {
        if self.value % 15 == 0 {
            FizzBuzzLine::FizzBuzz
        } else if self.value % 5 == 0 {
            FizzBuzzLine::Buzz
        } else if self.value % 3 == 0 {
            FizzBuzzLine::Fizz
        } else {
            FizzBuzzLine::Number(self.value)
        }
    }
}

/// A value that is a multiple of neither 3 nor 5 prints as itself, and a
/// value that prints as a number is that number.
pub proof fn lemma_other_values_print_as_themselves(value: u64)
    ensures
        value % 3 != 0 && value % 5 != 0 ==> fizz_buzz_line(value) == FizzBuzzLine::Number(value),
        forall|n: u64| fizz_buzz_line(value) == FizzBuzzLine::Number(n) ==> n == value,
{
}

/// A value prints `Fizz` exactly when it is a multiple of 3 and not of 5,
/// `Buzz` exactly when it is a multiple of 5 and not of 3, and `Fizz Buzz`
/// exactly when it is a multiple of both.
pub proof fn lemma_fizz_buzz_divisibility(value: u64)
    ensures
        (fizz_buzz_line(value) == FizzBuzzLine::Fizz) == (value % 3 == 0 && value % 5 != 0),
        (fizz_buzz_line(value) == FizzBuzzLine::Buzz) == (value % 5 == 0 && value % 3 != 0),
        (fizz_buzz_line(value) == FizzBuzzLine::FizzBuzz) == (value % 3 == 0 && value % 5 == 0),
{
    assert((value % 15 == 0) == (value % 3 == 0 && value % 5 == 0)) by (nonlinear_arith);
}

} // verus!
