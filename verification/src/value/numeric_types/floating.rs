//! What a float must offer to serve in a backend.

use vstd::prelude::*;

verus! {

/// The randomness capability is absent.
#[derive(Clone, Copy, Debug, PartialEq, Eq)]
pub struct RandNotEnabled;

/// A float type that a backend can use.
///
/// Arithmetic on floats never fails: what overflows becomes an infinity, what is
/// undefined becomes a NaN. So every operation returns a float, and only
/// [`random`](EvalexprFloat::random) can fail, where there is no source of randomness.
pub trait EvalexprFloat:
    Sized
    + Clone
    + core::fmt::Debug
    + PartialEq
    + PartialOrd
    + core::ops::Add<Output = Self>
    + core::ops::Sub<Output = Self>
    + core::ops::Neg<Output = Self>
    + core::ops::Mul<Output = Self>
    + core::ops::Div<Output = Self>
    + core::ops::Rem<Output = Self>
    + Send
    + Sync
{
    /// The text in which the float is displayed.
    open spec fn text(&self) -> Seq<char> {
        arbitrary()
    }

    /// Whether the float is not a number.
    open spec fn nan(&self) -> bool {
        arbitrary()
    }

    /// Whether the float is the positive or the negative infinity.
    open spec fn infinite(&self) -> bool {
        arbitrary()
    }

    /// Whether the float is at least zero and less than one.
    open spec fn in_unit_interval(&self) -> bool {
        arbitrary()
    }

    /// The float as a pattern of 64 bits, sign first, then eleven bits of exponent, in
    /// which floats of every backend are exchanged; nothing where the float has no such
    /// pattern.
    open spec fn binary64(&self) -> Option<u64> {
        arbitrary()
    }

    /// The float of this type that a pattern of 64 bits stands for; nothing where the
    /// type has none for it.
    open spec fn of_binary64(bits: u64) -> Option<Self> {
        arbitrary()
    }

    /// The name of the type, as errors give it.
    open spec fn label() -> Seq<char> {
        arbitrary()
    }

    /// The name of the type, for errors that have to mention it.
    fn name() -> (r: &'static str)
        ensures
            r@ == Self::label(),
    ;

    /// The smallest float that is a number. As a rule, the negative infinity.
    fn neg_infinity() -> (r: Self)
        ensures
            !r.nan(),
    ;

    /// The largest float that is a number. As a rule, the positive infinity.
    fn infinity() -> (r: Self)
        ensures
            !r.nan(),
    ;

    /// A copy of `self`, equal to it in every respect.
    fn duplicate(&self) -> (r: Self)
        ensures
            r == *self,
    ;

    /// The text of `self`, as it is displayed.
    fn to_text(&self) -> (r: String)
        ensures
            r@ == self.text(),
    ;

    /// Parses a float from its text.
    fn from_decimal_str(literal: &str) -> Result<Self, ()>;

    /// `self` as a pattern of 64 bits.
    fn to_binary64(&self) -> (r: Option<u64>)
        ensures
            r == self.binary64(),
    ;

    /// The float that a pattern of 64 bits stands for.
    fn from_binary64(bits: u64) -> (r: Option<Self>)
        ensures
            r == Self::of_binary64(bits),
    ;

    /// The float that [`from_i64`](EvalexprFloat::from_i64) gives for an integer.
    open spec fn of_i64(i: i64) -> Self {
        arbitrary()
    }

    /// The integer that [`to_i64`](EvalexprFloat::to_i64) gives for a float.
    open spec fn as_i64(&self) -> i64 {
        arbitrary()
    }

    /// The float for a 64-bit integer, as the `as` operator gives it or in a similar
    /// way: precision may be lost, but there is always a float.
    fn from_i64(i: i64) -> (r: Self)
        ensures
            r == Self::of_i64(i),
    ;

    /// The 64-bit integer for `self`, as the `as` operator gives it or in a similar
    /// way: the fraction is lost, and what lies outside the integers has an integer all
    /// the same.
    fn to_i64(&self) -> (r: i64)
        ensures
            r == self.as_i64(),
    ;

    /// `self` to the power of `exponent`.
    fn pow(&self, exponent: &Self) -> Self;

    /// The natural logarithm.
    fn ln(&self) -> Self;

    /// The logarithm to the given base.
    fn log(&self, base: &Self) -> Self;

    /// The logarithm to the base 2.
    fn log2(&self) -> Self;

    /// The logarithm to the base 10.
    fn log10(&self) -> Self;

    /// `e` to the power of `self`.
    fn exp(&self) -> Self;

    /// 2 to the power of `self`.
    fn exp2(&self) -> Self;

    /// The cosine.
    fn cos(&self) -> Self;

    /// The hyperbolic cosine.
    fn cosh(&self) -> Self;

    /// The arccosine.
    fn acos(&self) -> Self;

    /// The inverse hyperbolic cosine.
    fn acosh(&self) -> Self;

    /// The sine.
    fn sin(&self) -> Self;

    /// The hyperbolic sine.
    fn sinh(&self) -> Self;

    /// The arcsine.
    fn asin(&self) -> Self;

    /// The inverse hyperbolic sine.
    fn asinh(&self) -> Self;

    /// The tangent.
    fn tan(&self) -> Self;

    /// The hyperbolic tangent.
    fn tanh(&self) -> Self;

    /// The arctangent.
    fn atan(&self) -> Self;

    /// The inverse hyperbolic tangent.
    fn atanh(&self) -> Self;

    /// The arctangent of `self / x`, in the quadrant of the point `(x, self)`.
    fn atan2(&self, x: &Self) -> Self;

    /// The square root.
    fn sqrt(&self) -> Self;

    /// The cubic root.
    fn cbrt(&self) -> Self;

    /// The distance of the point `(self, other)` from the origin.
    fn hypot(&self, other: &Self) -> Self;

    /// The largest whole number that is not above `self`.
    fn floor(&self) -> Self;

    /// The whole number nearest to `self`; half-way cases go away from zero.
    fn round(&self) -> Self;

    /// The smallest whole number that is not below `self`.
    fn ceil(&self) -> Self;

    /// Whether `self` is not a number.
    fn is_nan(&self) -> (r: bool)
        ensures
            r == self.nan(),
    ;

    /// Whether `self` is a number and no infinity.
    fn is_finite(&self) -> (r: bool)
        ensures
            r == (!self.nan() && !self.infinite()),
    ;

    /// Whether `self` is an infinity.
    fn is_infinite(&self) -> (r: bool)
        ensures
            r == self.infinite(),
    ;

    /// Whether `self` is neither zero, subnormal, infinite nor a NaN.
    fn is_normal(&self) -> (r: bool)
        ensures
            r ==> !self.nan() && !self.infinite(),
    ;

    /// The absolute value.
    fn abs(&self) -> Self;

    /// The smaller of the two; a NaN only where both are.
    fn min(&self, other: &Self) -> (r: Self)
        ensures
            r.nan() ==> self.nan() && other.nan(),
    ;

    /// The larger of the two; a NaN only where both are.
    fn max(&self, other: &Self) -> (r: Self)
        ensures
            r.nan() ==> self.nan() && other.nan(),
    ;

    /// A random float that is at least zero and less than one, or
    /// [`RandNotEnabled`] where the implementation has no source of randomness.
    fn random() -> (r: Result<Self, RandNotEnabled>)
        ensures
            r is Ok ==> r->Ok_0.in_unit_interval(),
    ;
}

} // verus!
