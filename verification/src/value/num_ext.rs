//! Casts between the scalars of two backends that cannot fail, as the `as` operator
//! casts.

use crate::value::numeric_types::floating::EvalexprFloat;
use crate::value::numeric_types::integer::EvalexprInt;
use crate::value::numeric_types::with_num::EvalexprNumericTypesWithCopy;
use crate::value::numeric_types::{DefaultNumericTypes, EvalexprNumericTypes};
use crate::value::{Value, ValueView};
use vstd::prelude::*;

verus! {

/// A backend whose integers can be cast to the integers of the backend `NumericType`
/// without a failure.
pub trait EvalexprNumericTypesIntCast<NumericType: EvalexprNumericTypes>: EvalexprNumericTypes {
    /// The integer of `NumericType` that the cast gives for `i`.
    open spec fn int_cast_to(i: Self::Int) -> NumericType::Int {
        arbitrary()
    }

    /// Casts an integer to the integer type of `NumericType`. The number stays where
    /// that type can hold it; what becomes of another number is the implementation's
    /// choice.
    fn cast_int_to(i: Self::Int) -> (r: NumericType::Int)
        ensures
            r == Self::int_cast_to(i),
            NumericType::Int::representable(i.value()) ==> r.value() == i.value(),
    ;
}

impl<A, B> EvalexprNumericTypesIntCast<B> for A where
    A: EvalexprNumericTypes<Int = i64>,
    B: EvalexprNumericTypes<Int = i64>,
 {
    /// Between two backends with `i64` the integer stays as it is.
    open spec fn int_cast_to(i: i64) -> i64 {
        i
    }

    fn cast_int_to(i: i64) -> (r: i64) {
        i
    }
}

/// A backend whose floats can be cast to the floats of the backend `NumericType`
/// without a failure.
pub trait EvalexprNumericTypesFloatCast<NumericType: EvalexprNumericTypes>: EvalexprNumericTypes {
    /// The float of `NumericType` that the cast gives for `float`.
    open spec fn float_cast_to(float: Self::Float) -> NumericType::Float {
        arbitrary()
    }

    /// Casts a float to the float type of `NumericType`. There is always a float; how
    /// near it is to `float` is the implementation's choice.
    fn cast_float_to(float: Self::Float) -> (r: NumericType::Float)
        ensures
            r == Self::float_cast_to(float),
    ;
}

impl<F: EvalexprFloat + 'static> EvalexprNumericTypesFloatCast<
    DefaultNumericTypes<F>,
> for DefaultNumericTypes<F> {
    /// From the default backend to itself the float stays as it is.
    open spec fn float_cast_to(float: F) -> F {
        float
    }

    fn cast_float_to(float: F) -> (r: F) {
        float
    }
}

/// A backend whose scalars can both be cast to those of the backend `NumericType`
/// without a failure.
pub trait EvalexprNumericTypesCast<NumericType: EvalexprNumericTypesWithCopy>:
    EvalexprNumericTypesIntCast<NumericType> + EvalexprNumericTypesFloatCast<NumericType>
{

}

impl<T, O> EvalexprNumericTypesCast<O> for T where
    T: EvalexprNumericTypesWithCopy + EvalexprNumericTypesIntCast<O>
        + EvalexprNumericTypesFloatCast<O>,
    O: EvalexprNumericTypesWithCopy,
 {

}

impl<N: EvalexprNumericTypes> Value<N> {
    /// The value that holds the float `float` of the backend `M`, cast to the float type
    /// of `N` without a failure.
    pub fn from_as_float<M: EvalexprNumericTypesFloatCast<N>>(float: M::Float) -> (r: Self)
        ensures
            r@ == ValueView::<N>::Float(M::float_cast_to(float)),
    {
        Value::Float(M::cast_float_to(float))
    }

    /// The value that holds the integer `i` of the backend `M`, cast to the integer type
    /// of `N` without a failure.
    pub fn from_as_int<M: EvalexprNumericTypesIntCast<N>>(i: M::Int) -> (r: Self)
        ensures
            r@ == ValueView::<N>::Int(M::int_cast_to(i)),
            N::Int::representable(i.value()) ==> r@->Int_0.value() == i.value(),
    {
        Value::Int(M::cast_int_to(i))
    }
}

} // verus!
