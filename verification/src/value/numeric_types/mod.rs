//! Numeric backends: the integer and the float that a value holds.

pub mod floating;
pub mod integer;
pub mod with_num;

use self::floating::EvalexprFloat;
use self::integer::EvalexprInt;
use vstd::prelude::*;

verus! {

/// A backend: one integer type, one float type, and the two conversions between them.
///
/// Both conversions are total. They may lose precision; they never fail.
pub trait EvalexprNumericTypes:
    'static + Sized + core::fmt::Debug + Clone + PartialEq + Sync + Send
{
    /// The integer type.
    type Int: EvalexprInt;

    /// The float type.
    type Float: EvalexprFloat;

    /// The float that the backend gives for an integer.
    open spec fn float_of_int(i: Self::Int) -> Self::Float {
        arbitrary()
    }

    /// The integer that the backend gives for a float.
    open spec fn int_of_float(f: Self::Float) -> Self::Int {
        arbitrary()
    }

    /// Converts an integer to a float, as the `as` operator does or in a similar way.
    fn int_as_float(i: &Self::Int) -> (r: Self::Float)
        ensures
            r == Self::float_of_int(*i),
    ;

    /// Converts a float to an integer, as the `as` operator does or in a similar way.
    fn float_as_int(f: &Self::Float) -> (r: Self::Int)
        ensures
            r == Self::int_of_float(*f),
    ;
}

/// The default backend: `i64` as its integer and `F` as its float.
///
/// The integer is the one of this crate. The float is the caller's, since which floats
/// there are is a matter of the machine.
#[derive(Debug, Eq, PartialEq, Ord, PartialOrd, Hash)]
pub struct DefaultNumericTypes<F> {
    float: core::marker::PhantomData<F>,
}

impl<F> Clone for DefaultNumericTypes<F> {
    fn clone(&self) -> (r: Self)
        ensures
            r == *self,
    {
        DefaultNumericTypes { float: core::marker::PhantomData }
    }
}

impl<F> Copy for DefaultNumericTypes<F> {

}

impl<F: EvalexprFloat + 'static> EvalexprNumericTypes for DefaultNumericTypes<F> {
    type Int = i64;

    type Float = F;

    open spec fn float_of_int(i: i64) -> F {
        F::of_i64(i)
    }

    open spec fn int_of_float(f: F) -> i64 {
        f.as_i64()
    }

    fn int_as_float(i: &i64) -> (r: F) {
        F::from_i64(*i)
    }

    fn float_as_int(f: &F) -> (r: i64) {
        f.to_i64()
    }
}

} // verus!
