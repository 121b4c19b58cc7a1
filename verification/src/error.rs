//! The errors of this crate.

use crate::value::numeric_types::floating::RandNotEnabled;
use crate::value::numeric_types::integer::IntError;
use crate::value::numeric_types::EvalexprNumericTypes;
use crate::value::Value;
use core::ops::RangeInclusive;
use vstd::prelude::*;

verus! {

/// What went wrong. Every error holds what is needed to say so precisely: the value
/// that had the wrong type, or the operands of the operation that failed.
#[derive(Debug, PartialEq)]
#[allow(inconsistent_fields)]
pub enum EvalexprError<N: EvalexprNumericTypes> {
    /// A string was expected.
    ExpectedString { actual: Value<N> },
    /// An integer was expected.
    ExpectedInt { actual: Value<N> },
    /// A float was expected.
    ExpectedFloat { actual: Value<N> },
    /// An integer or a float was expected.
    ExpectedNumber { actual: Value<N> },
    /// A boolean was expected.
    ExpectedBoolean { actual: Value<N> },
    /// A tuple was expected.
    ExpectedTuple { actual: Value<N> },
    /// A tuple of the given length was expected.
    ExpectedFixedLengthTuple { expected_length: usize, actual: Value<N> },
    /// A tuple with a length in the given range was expected.
    ExpectedRangedLengthTuple { expected_length: RangeInclusive<usize>, actual: Value<N> },
    /// The empty value was expected.
    ExpectedEmpty { actual: Value<N> },
    /// The sum of the two is not representable.
    AdditionError { augend: Value<N>, addend: Value<N> },
    /// The difference of the two is not representable.
    SubtractionError { minuend: Value<N>, subtrahend: Value<N> },
    /// The negation of the argument is not representable.
    NegationError { argument: Value<N> },
    /// The product of the two is not representable.
    MultiplicationError { multiplicand: Value<N>, multiplier: Value<N> },
    /// The divisor is zero, or the quotient is not representable.
    DivisionError { dividend: Value<N>, divisor: Value<N> },
    /// The divisor is zero, or the quotient is not representable.
    ModulationError { dividend: Value<N>, divisor: Value<N> },
    /// The argument has no representable absolute value.
    AbsOverflow { argument: Value<N> },
    /// The `usize` is too large for the integer type.
    IntFromUsize { usize_int: usize },
    /// The integer is negative or too large for a `usize`.
    IntIntoUsize { int: N::Int },
    /// The randomness capability is absent.
    RandNotEnabled,
    /// A number could not be cast to the float type.
    FloatCastError,
    /// A number could not be cast to the integer type.
    IntCastError,
    /// The float has no counterpart in the float type of the other backend.
    FloatCastFailed { float: N::Float, target_type: &'static str },
    /// The integer has no counterpart in the integer type of the other backend.
    IntCastFailed { int: N::Int, target_type: &'static str },
}

/// The result of an operation that can fail.
pub type EvalexprResult<T, N> = Result<T, EvalexprError<N>>;

/// The result of an operation that gives a value or fails.
pub type EvalexprResultValue<N> = EvalexprResult<Value<N>, N>;

impl<N: EvalexprNumericTypes> EvalexprError<N> {
    /// An error that says that `actual` is no string.
    pub fn expected_string(actual: Value<N>) -> (e: Self)
        ensures
            e == (EvalexprError::ExpectedString { actual }),
    {
        EvalexprError::ExpectedString { actual }
    }

    /// An error that says that `actual` is no integer.
    pub fn expected_int(actual: Value<N>) -> (e: Self)
        ensures
            e == (EvalexprError::ExpectedInt { actual }),
    {
        EvalexprError::ExpectedInt { actual }
    }

    /// An error that says that `actual` is no float.
    pub fn expected_float(actual: Value<N>) -> (e: Self)
        ensures
            e == (EvalexprError::ExpectedFloat { actual }),
    {
        EvalexprError::ExpectedFloat { actual }
    }

    /// An error that says that `actual` is neither an integer nor a float.
    pub fn expected_number(actual: Value<N>) -> (e: Self)
        ensures
            e == (EvalexprError::ExpectedNumber { actual }),
    {
        EvalexprError::ExpectedNumber { actual }
    }

    /// An error that says that `actual` is no boolean.
    pub fn expected_boolean(actual: Value<N>) -> (e: Self)
        ensures
            e == (EvalexprError::ExpectedBoolean { actual }),
    {
        EvalexprError::ExpectedBoolean { actual }
    }

    /// An error that says that `actual` is no tuple.
    pub fn expected_tuple(actual: Value<N>) -> (e: Self)
        ensures
            e == (EvalexprError::ExpectedTuple { actual }),
    {
        EvalexprError::ExpectedTuple { actual }
    }

    /// An error that says that `actual` is no tuple of the given length.
    pub fn expected_fixed_len_tuple(expected_length: usize, actual: Value<N>) -> (e: Self)
        ensures
            e == (EvalexprError::ExpectedFixedLengthTuple { expected_length, actual }),
    {
        EvalexprError::ExpectedFixedLengthTuple { expected_length, actual }
    }

    /// An error that says that `actual` is no tuple with a length in the given range.
    pub fn expected_ranged_len_tuple(
        expected_length: RangeInclusive<usize>,
        actual: Value<N>,
    ) -> (e: Self)
        ensures
            e == (EvalexprError::ExpectedRangedLengthTuple { expected_length, actual }),
    {
        EvalexprError::ExpectedRangedLengthTuple { expected_length, actual }
    }

    /// An error that says that `actual` is not the empty value.
    pub fn expected_empty(actual: Value<N>) -> (e: Self)
        ensures
            e == (EvalexprError::ExpectedEmpty { actual }),
    {
        EvalexprError::ExpectedEmpty { actual }
    }

    /// An error that says that the two could not be added.
    pub fn addition_error(augend: Value<N>, addend: Value<N>) -> (e: Self)
        ensures
            e == (EvalexprError::AdditionError { augend, addend }),
    {
        EvalexprError::AdditionError { augend, addend }
    }

    /// An error that says that the second could not be subtracted from the first.
    pub fn subtraction_error(minuend: Value<N>, subtrahend: Value<N>) -> (e: Self)
        ensures
            e == (EvalexprError::SubtractionError { minuend, subtrahend }),
    {
        EvalexprError::SubtractionError { minuend, subtrahend }
    }

    /// An error that says that the argument could not be negated.
    pub fn negation_error(argument: Value<N>) -> (e: Self)
        ensures
            e == (EvalexprError::NegationError { argument }),
    {
        EvalexprError::NegationError { argument }
    }

    /// An error that says that the two could not be multiplied.
    pub fn multiplication_error(multiplicand: Value<N>, multiplier: Value<N>) -> (e: Self)
        ensures
            e == (EvalexprError::MultiplicationError { multiplicand, multiplier }),
    {
        EvalexprError::MultiplicationError { multiplicand, multiplier }
    }

    /// An error that says that the first could not be divided by the second.
    pub fn division_error(dividend: Value<N>, divisor: Value<N>) -> (e: Self)
        ensures
            e == (EvalexprError::DivisionError { dividend, divisor }),
    {
        EvalexprError::DivisionError { dividend, divisor }
    }

    /// An error that says that the first has no remainder by the second.
    pub fn modulation_error(dividend: Value<N>, divisor: Value<N>) -> (e: Self)
        ensures
            e == (EvalexprError::ModulationError { dividend, divisor }),
    {
        EvalexprError::ModulationError { dividend, divisor }
    }

    /// The error of the backend `N` for a failure of its integer type: the same kind,
    /// with each operand as a value.
    pub fn from_int_error(error: IntError<N::Int>) -> (e: Self)
        ensures
            e == Self::of_int_error(error),
    {
        match error {
            IntError::Addition { augend, addend } => EvalexprError::AdditionError {
                augend: Value::Int(augend),
                addend: Value::Int(addend),
            },
            IntError::Subtraction { minuend, subtrahend } => EvalexprError::SubtractionError {
                minuend: Value::Int(minuend),
                subtrahend: Value::Int(subtrahend),
            },
            IntError::Negation { argument } => EvalexprError::NegationError {
                argument: Value::Int(argument),
            },
            IntError::Multiplication {
                multiplicand,
                multiplier,
            } => EvalexprError::MultiplicationError {
                multiplicand: Value::Int(multiplicand),
                multiplier: Value::Int(multiplier),
            },
            IntError::Division { dividend, divisor } => EvalexprError::DivisionError {
                dividend: Value::Int(dividend),
                divisor: Value::Int(divisor),
            },
            IntError::Modulation { dividend, divisor } => EvalexprError::ModulationError {
                dividend: Value::Int(dividend),
                divisor: Value::Int(divisor),
            },
            IntError::AbsOverflow { argument } => EvalexprError::AbsOverflow {
                argument: Value::Int(argument),
            },
            IntError::IntIntoUsize { int: i } => EvalexprError::IntIntoUsize { int: i },
            IntError::IntFromUsize { usize_int } => EvalexprError::IntFromUsize { usize_int },
        }
    }

    /// What [`from_int_error`](EvalexprError::from_int_error) gives.
    pub open spec fn of_int_error(error: IntError<N::Int>) -> Self {
        match error {
            IntError::Addition { augend, addend } => EvalexprError::AdditionError {
                augend: Value::Int(augend),
                addend: Value::Int(addend),
            },
            IntError::Subtraction { minuend, subtrahend } => EvalexprError::SubtractionError {
                minuend: Value::Int(minuend),
                subtrahend: Value::Int(subtrahend),
            },
            IntError::Negation { argument } => EvalexprError::NegationError {
                argument: Value::Int(argument),
            },
            IntError::Multiplication {
                multiplicand,
                multiplier,
            } => EvalexprError::MultiplicationError {
                multiplicand: Value::Int(multiplicand),
                multiplier: Value::Int(multiplier),
            },
            IntError::Division { dividend, divisor } => EvalexprError::DivisionError {
                dividend: Value::Int(dividend),
                divisor: Value::Int(divisor),
            },
            IntError::Modulation { dividend, divisor } => EvalexprError::ModulationError {
                dividend: Value::Int(dividend),
                divisor: Value::Int(divisor),
            },
            IntError::AbsOverflow { argument } => EvalexprError::AbsOverflow {
                argument: Value::Int(argument),
            },
            IntError::IntIntoUsize { int: i } => EvalexprError::IntIntoUsize { int: i },
            IntError::IntFromUsize { usize_int } => EvalexprError::IntFromUsize { usize_int },
        }
    }

    /// The error of the backend `N` for a float type without randomness.
    pub fn from_rand_error(error: RandNotEnabled) -> (e: Self)
        ensures
            e == EvalexprError::<N>::RandNotEnabled,
    {
        EvalexprError::RandNotEnabled
    }
}

} // verus!
