use vstd::prelude::*;
use crate::error::RuntimeError;

verus! {

/// A number of the language: an exact integer, or a double held as its
/// IEEE-754 bit pattern.
#[derive(Clone, Copy, Debug, PartialEq, Eq, Structural)]
pub enum Number {
    Integer(i128),
    Float(u64),
}

/// Whether the mathematical sum of two integers fits an `i128`.
pub open spec fn sum_fits(a: int, b: int) -> bool {
    i128::MIN <= a + b <= i128::MAX
}

/// The sum of two numbers. Two integers give their exact sum, or
/// `IntegerOverflow` when it does not fit. A floating-point operand gives
/// `FloatArithmetic`.
pub open spec fn number_sum(a: Number, b: Number) -> Result<Number, RuntimeError> {
    match (a, b) {
        (Number::Integer(x), Number::Integer(y)) => if sum_fits(x as int, y as int) {
            Ok(Number::Integer((x + y) as i128))
        } else {
            Err(RuntimeError::IntegerOverflow)
        },
        _ => Err(RuntimeError::FloatArithmetic),
    }
}

impl Number {
    /// Adds two numbers; integers stay integers.
    pub fn add(self, other: Number) -> (r: Result<Number, RuntimeError>)
        ensures
            r == number_sum(self, other),
    {
        match (self, other) {
            (Number::Integer(x), Number::Integer(y)) => match x.checked_add(y) {
                Some(s) => Ok(Number::Integer(s)),
                None => Err(RuntimeError::IntegerOverflow),
            },
            _ => Err(RuntimeError::FloatArithmetic),
        }
    }
}

} // verus!
