//! Casts between the scalars of two backends, and the conversion of values with them.

use crate::error::EvalexprError;
use crate::value::numeric_types::floating::EvalexprFloat;
use crate::value::numeric_types::integer::EvalexprInt;
use crate::value::numeric_types::EvalexprNumericTypes;
use crate::value::{lemma_view_of_tuple, tuple_view, Value, ValueView};
use vstd::prelude::*;
use vstd::string::StringExecFns;

verus! {

/// Whether an integer of the mathematical value `v` can be cast to the type `B`: the
/// cast goes through the widest machine integers, and `B` must hold the value.
pub open spec fn int_castable<B: EvalexprInt>(v: int) -> bool {
    i128::MIN <= v <= u128::MAX && B::representable(v)
}

/// The float of type `B` that the float `a` is cast to: the one that `B` has for the
/// 64 bits of `a`, where both exist.
pub open spec fn float_cast<A: EvalexprFloat, B: EvalexprFloat>(a: A) -> Option<B> {
    match a.binary64() {
        Some(bits) => B::of_binary64(bits),
        None => None,
    }
}

/// Casts an integer of one type to another. The result stands for the same number;
/// there is none where the other type cannot hold it.
pub fn cast_int<A: EvalexprInt, B: EvalexprInt>(a: &A) -> (r: Option<B>)
    ensures
        match r {
            Some(b) => b.value() == a.value() && int_castable::<B>(a.value()),
            None => !int_castable::<B>(a.value()),
        },
{
    match a.to_i128() {
        Some(n) => B::from_i128(n),
        None => match a.to_u128() {
            Some(n) => B::from_u128(n),
            None => None,
        },
    }
}

/// Casts a float of one type to another: see [`float_cast`].
pub fn cast_float<A: EvalexprFloat, B: EvalexprFloat>(a: &A) -> (r: Option<B>)
    ensures
        r == float_cast::<A, B>(*a),
{
    match a.to_binary64() {
        Some(bits) => B::from_binary64(bits),
        None => None,
    }
}

/// A backend whose integer type is `Copy`.
pub trait EvalexprNumericTypesWithCopyInt: EvalexprNumericTypes {

}

impl<T> EvalexprNumericTypesWithCopyInt for T where T: EvalexprNumericTypes, T::Int: Copy {

}

/// A backend whose float type is `Copy`.
pub trait EvalexprNumericTypesWithCopyFloat: EvalexprNumericTypes {

}

impl<T> EvalexprNumericTypesWithCopyFloat for T where T: EvalexprNumericTypes, T::Float: Copy {

}

/// A backend whose scalars are both `Copy`.
pub trait EvalexprNumericTypesWithCopy:
    EvalexprNumericTypesWithCopyFloat + EvalexprNumericTypesWithCopyInt
{

}

impl<T> EvalexprNumericTypesWithCopy for T where
    T: EvalexprNumericTypesWithCopyFloat + EvalexprNumericTypesWithCopyInt,
 {

}

/// A backend whose integers can be cast to and from the integers of other backends.
pub trait EvalexprNumericTypesIntConvert: EvalexprNumericTypes {
    /// Casts an integer of another type to the integer of this backend.
    fn num_to_int<T: EvalexprInt>(num: T) -> (r: Option<Self::Int>)
        ensures
            match r {
                Some(i) => i.value() == num.value() && int_castable::<Self::Int>(num.value()),
                None => !int_castable::<Self::Int>(num.value()),
            },
    {
        cast_int::<T, Self::Int>(&num)
    }

    /// Casts the integer of this backend to an integer of another type.
    fn int_to_num<T: EvalexprInt>(i: Self::Int) -> (r: Option<T>)
        ensures
            match r {
                Some(n) => n.value() == i.value() && int_castable::<T>(i.value()),
                None => !int_castable::<T>(i.value()),
            },
    {
        cast_int::<Self::Int, T>(&i)
    }
}

impl<T> EvalexprNumericTypesIntConvert for T where T: EvalexprNumericTypes {

}

/// A backend whose floats can be cast to and from the floats of other backends.
pub trait EvalexprNumericTypesFloatConvert: EvalexprNumericTypes {
    /// Casts a float of another type to the float of this backend.
    fn num_to_float<T: EvalexprFloat>(num: T) -> (r: Option<Self::Float>)
        ensures
            r == float_cast::<T, Self::Float>(num),
    {
        cast_float::<T, Self::Float>(&num)
    }

    /// Casts the float of this backend to a float of another type.
    fn float_to_num<T: EvalexprFloat>(float: Self::Float) -> (r: Option<T>)
        ensures
            r == float_cast::<Self::Float, T>(float),
    {
        cast_float::<Self::Float, T>(&float)
    }
}

impl<T> EvalexprNumericTypesFloatConvert for T where T: EvalexprNumericTypes {

}

/// A backend whose scalars can be cast in both directions.
pub trait EvalexprNumericTypesConvert:
    EvalexprNumericTypesIntConvert + EvalexprNumericTypesFloatConvert
{

}

impl<T> EvalexprNumericTypesConvert for T where T: EvalexprNumericTypes {

}

/// The scalar at which the conversion of `v` from the backend `A` to the backend `B`
/// fails: the first integer or float, going through tuples from left to right and into
/// each element before the next, that has no counterpart in `B`. Nothing where every
/// scalar of `v` has one.
pub open spec fn conversion_failure<A: EvalexprNumericTypes, B: EvalexprNumericTypes>(
    v: ValueView<A>,
) -> Option<ValueView<A>>
    decreases v, 0nat,
{
    match v {
        ValueView::Float(f) => if float_cast::<A::Float, B::Float>(f) is Some {
            None
        } else {
            Some(v)
        },
        ValueView::Int(i) => if int_castable::<B::Int>(i.value()) {
            None
        } else {
            Some(v)
        },
        ValueView::Tuple(t) => conversion_failure_among::<A, B>(t, t.len()),
        _ => None,
    }
}

/// The scalar at which the conversion of the first `n` elements of `t` fails, or
/// nothing.
pub open spec fn conversion_failure_among<A: EvalexprNumericTypes, B: EvalexprNumericTypes>(
    t: Seq<ValueView<A>>,
    n: nat,
) -> Option<ValueView<A>>
    decreases t, n,
{
    if n == 0 || n > t.len() {
        None
    } else {
        match conversion_failure_among::<A, B>(t, (n - 1) as nat) {
            Some(leaf) => Some(leaf),
            None => conversion_failure::<A, B>(t[n - 1]),
        }
    }
}

/// Whether `w` is `v` in the backend `B`: of the same shape, with the same strings and
/// booleans, each integer standing for the same number and each float cast.
pub open spec fn converted<A: EvalexprNumericTypes, B: EvalexprNumericTypes>(
    v: ValueView<A>,
    w: ValueView<B>,
) -> bool
    decreases v,
{
    match v {
        ValueView::String(s) => w == ValueView::<B>::String(s),
        ValueView::Float(f) => w is Float && float_cast::<A::Float, B::Float>(f) == Some(
            w->Float_0,
        ),
        ValueView::Int(i) => w is Int && w->Int_0.value() == i.value(),
        ValueView::Boolean(b) => w == ValueView::<B>::Boolean(b),
        ValueView::Tuple(t) => w is Tuple && w->Tuple_0.len() == t.len() && forall|k: int|
            0 <= k < t.len() ==> converted::<A, B>(t[k], #[trigger] w->Tuple_0[k]),
        ValueView::Empty => w is Empty,
    }
}

/// A value converted to another backend and back is the value again.
///
/// This holds where the first backend tells its integers apart by the numbers they
/// stand for, and where a float of the first backend that is cast to the second and
/// back is the same float again.
pub proof fn lemma_conversion_round_trip<A: EvalexprNumericTypes, B: EvalexprNumericTypes>(
    v: ValueView<A>,
    w: ValueView<B>,
    back: ValueView<A>,
)
    requires
        converted::<A, B>(v, w),
        converted::<B, A>(w, back),
        forall|i: A::Int, j: A::Int| #[trigger] i.value() == #[trigger] j.value() ==> i == j,
        forall|f: A::Float|
            (#[trigger] float_cast::<A::Float, B::Float>(f)) matches Some(g) ==> (float_cast::<
                B::Float,
                A::Float,
            >(g) matches Some(h) ==> h == f),
    ensures
        back == v,
    decreases v,
{
    match v {
        ValueView::Tuple(t) => {
            let wt = w->Tuple_0;
            let bt = back->Tuple_0;
            assert forall|k: int| 0 <= k < t.len() implies bt[k] == t[k] by {
                assert(converted::<A, B>(t[k], wt[k]));
                assert(converted::<B, A>(wt[k], bt[k]));
                lemma_conversion_round_trip::<A, B>(t[k], wt[k], bt[k]);
            }
            assert(bt =~= t);
        },
        ValueView::Float(f) => {
            let g = w->Float_0;
            let h = back->Float_0;
            assert(float_cast::<A::Float, B::Float>(f) == Some(g));
            assert(float_cast::<B::Float, A::Float>(g) == Some(h));
        },
        _ => {},
    }
}

/// Whether the error `e` reports that the scalar `leaf` could not be cast to the
/// backend `B`: it holds the scalar and the name of the type that could not hold it.
pub open spec fn reports_failure<A: EvalexprNumericTypes, B: EvalexprNumericTypes>(
    e: EvalexprError<A>,
    leaf: ValueView<A>,
) -> bool {
    match leaf {
        ValueView::Float(f) => e matches EvalexprError::FloatCastFailed { float, target_type }
            && float == f && target_type@ == B::Float::label(),
        ValueView::Int(i) => e matches EvalexprError::IntCastFailed { int: source, target_type }
            && source == i && target_type@ == B::Int::label(),
        _ => false,
    }
}

/// Converts the elements of a tuple one by one, and stops at the first that fails.
fn try_convert_elements<A: EvalexprNumericTypes, B: EvalexprNumericTypes>(
    tuple: &Vec<Value<A>>,
) -> (r: Result<Vec<Value<B>>, EvalexprError<A>>)
    ensures
        match r {
            Ok(w) => conversion_failure_among::<A, B>(tuple_view(tuple@), tuple@.len()) is None
                && w@.len() == tuple@.len() && forall|k: int|
                0 <= k < tuple@.len() ==> converted::<A, B>(tuple@[k]@, #[trigger] w@[k]@),
            Err(e) => conversion_failure_among::<A, B>(tuple_view(tuple@), tuple@.len()) is Some
                && reports_failure::<A, B>(
                e,
                conversion_failure_among::<A, B>(tuple_view(tuple@), tuple@.len())->Some_0,
            ),
        },
    decreases tuple,
{
    let ghost views = tuple_view(tuple@);
    let mut out: Vec<Value<B>> = Vec::new();
    let mut i: usize = 0;
    while i < tuple.len()
        invariant
            i <= tuple.len(),
            views == tuple_view(tuple@),
            out@.len() == i,
            conversion_failure_among::<A, B>(views, i as nat) is None,
            forall|k: int| 0 <= k < i ==> converted::<A, B>(tuple@[k]@, #[trigger] out@[k]@),
        decreases tuple.len() - i,
    {
        match try_convert::<A, B>(&tuple[i]) {
            Ok(w) => {
                out.push(w);
            },
            Err(e) => {
                proof {
                    lemma_failure_stays::<A, B>(views, (i + 1) as nat, tuple@.len() as nat);
                }
                return Err(e);
            },
        }
        i += 1;
    }
    Ok(out)
}

/// A failure among the first `n` elements is the failure among the first `m`, for
/// every `m` from `n` on.
pub proof fn lemma_failure_stays<A: EvalexprNumericTypes, B: EvalexprNumericTypes>(
    t: Seq<ValueView<A>>,
    n: nat,
    m: nat,
)
    requires
        n <= m <= t.len(),
        conversion_failure_among::<A, B>(t, n) is Some,
    ensures
        conversion_failure_among::<A, B>(t, m) == conversion_failure_among::<A, B>(t, n),
    decreases m,
{
    if m > n {
        lemma_failure_stays::<A, B>(t, n, (m - 1) as nat);
    }
}

/// Converts `value` to the backend `B`.
///
/// Strings, booleans and the empty value stay as they are, integers and floats are
/// cast, tuples are converted element by element. Where a scalar has no counterpart in
/// `B`, the conversion stops there and the error holds that scalar.
pub fn try_convert<A: EvalexprNumericTypes, B: EvalexprNumericTypes>(value: &Value<A>) -> (r:
    Result<Value<B>, EvalexprError<A>>)
    ensures
        match r {
            Ok(w) => conversion_failure::<A, B>(value@) is None && converted::<A, B>(value@, w@),
            Err(e) => conversion_failure::<A, B>(value@) is Some && reports_failure::<A, B>(
                e,
                conversion_failure::<A, B>(value@)->Some_0,
            ),
        },
    decreases value,
{
    match value {
        Value::String(s) => Ok(Value::String(s.clone())),
        Value::Float(f) => match cast_float::<A::Float, B::Float>(f) {
            Some(g) => Ok(Value::Float(g)),
            None => Err(
                EvalexprError::FloatCastFailed {
                    float: f.duplicate(),
                    target_type: B::Float::name(),
                },
            ),
        },
        Value::Int(i) => match cast_int::<A::Int, B::Int>(i) {
            Some(j) => Ok(Value::Int(j)),
            None => Err(
                EvalexprError::IntCastFailed {
                    int: i.duplicate(),
                    target_type: B::Int::name(),
                },
            ),
        },
        Value::Boolean(b) => Ok(Value::Boolean(*b)),
        Value::Tuple(t) => {
            proof {
                lemma_view_of_tuple(*t);
            }
            match try_convert_elements::<A, B>(t) {
                Ok(w) => {
                    proof {
                        lemma_view_of_tuple(w);
                    }
                    Ok(Value::Tuple(w))
                },
                Err(e) => Err(e),
            }
        },
        Value::Empty => Ok(Value::Empty),
    }
}

impl<A: EvalexprNumericTypes> Value<A> {
    /// Converts `self` to the backend `B`: see [`try_convert`].
    pub fn try_as_<B: EvalexprNumericTypes>(&self) -> (r: Result<Value<B>, EvalexprError<A>>)
        ensures
            match r {
                Ok(w) => conversion_failure::<A, B>(self@) is None && converted::<A, B>(
                    self@,
                    w@,
                ),
                Err(e) => conversion_failure::<A, B>(self@) is Some && reports_failure::<A, B>(
                    e,
                    conversion_failure::<A, B>(self@)->Some_0,
                ),
            },
    {
        try_convert::<A, B>(self)
    }
}

/// Whether `r` is what taking in the number `n` under the backend `V` gives: the value
/// that holds `n` as an integer where the integer type of `V` can hold it, and nothing
/// where it cannot.
pub open spec fn ingested_int<V: EvalexprNumericTypes>(n: int, r: Option<Value<V>>) -> bool {
    match r {
        Some(w) => w@ is Int && w@->Int_0.value() == n && V::Int::representable(n),
        None => !V::Int::representable(n),
    }
}

/// Whether `r` is what taking in the value `v` of the backend `A` under the backend `V`
/// gives: `v` converted where every scalar of it has a counterpart in `V`, and nothing
/// where one has none.
pub open spec fn ingested_value<A: EvalexprNumericTypes, V: EvalexprNumericTypes>(
    v: ValueView<A>,
    r: Option<Value<V>>,
) -> bool {
    match r {
        Some(w) => conversion_failure::<A, V>(v) is None && converted::<A, V>(v, w@),
        None => conversion_failure::<A, V>(v) is Some,
    }
}

/// The value of the backend `V` that holds the number `n`, if its integer type can.
fn int_value_from_i128<V: EvalexprNumericTypes>(n: i128) -> (r: Option<Value<V>>)
    ensures
        ingested_int::<V>(n as int, r),
{
    match V::Int::from_i128(n) {
        Some(i) => Some(Value::Int(i)),
        None => None,
    }
}

/// The value of the backend `V` that holds the number `n`, if its integer type can.
fn int_value_from_u128<V: EvalexprNumericTypes>(n: u128) -> (r: Option<Value<V>>)
    ensures
        ingested_int::<V>(n as int, r),
{
    match V::Int::from_u128(n) {
        Some(i) => Some(Value::Int(i)),
        None => None,
    }
}

/// What can be taken in as a value under a backend of the caller's choice.
///
/// A failure is silent: where a number does not fit the backend, there is no value,
/// and no error says why.
pub trait ConvertibleWithEvalexprNumericTypes {
    /// `self` as a value of the backend `V`, or nothing where `V` cannot hold it.
    fn into_with<V: EvalexprNumericTypesConvert>(self) -> Option<Value<V>>;
}

impl ConvertibleWithEvalexprNumericTypes for String {
    fn into_with<V: EvalexprNumericTypesConvert>(self) -> (r: Option<Value<V>>)
        ensures
            r is Some && r->Some_0@ == ValueView::<V>::String(self@),
    {
        Some(Value::String(self))
    }
}

impl ConvertibleWithEvalexprNumericTypes for &str {
    fn into_with<V: EvalexprNumericTypesConvert>(self) -> (r: Option<Value<V>>)
        ensures
            r is Some && r->Some_0@ == ValueView::<V>::String(self@),
    {
        Some(Value::String(String::from_str(self)))
    }
}

impl ConvertibleWithEvalexprNumericTypes for bool {
    fn into_with<V: EvalexprNumericTypesConvert>(self) -> (r: Option<Value<V>>)
        ensures
            r is Some && r->Some_0@ == ValueView::<V>::Boolean(self),
    {
        Some(Value::Boolean(self))
    }
}

impl ConvertibleWithEvalexprNumericTypes for () {
    fn into_with<V: EvalexprNumericTypesConvert>(self) -> (r: Option<Value<V>>)
        ensures
            r is Some && r->Some_0@ == ValueView::<V>::Empty,
    {
        Some(Value::Empty)
    }
}

impl ConvertibleWithEvalexprNumericTypes for u8 {
    fn into_with<V: EvalexprNumericTypesConvert>(self) -> (r: Option<Value<V>>)
        ensures
            ingested_int::<V>(self as int, r),
    {
        int_value_from_i128::<V>(self as i128)
    }
}

impl ConvertibleWithEvalexprNumericTypes for i8 {
    fn into_with<V: EvalexprNumericTypesConvert>(self) -> (r: Option<Value<V>>)
        ensures
            ingested_int::<V>(self as int, r),
    {
        int_value_from_i128::<V>(self as i128)
    }
}

impl ConvertibleWithEvalexprNumericTypes for u16 {
    fn into_with<V: EvalexprNumericTypesConvert>(self) -> (r: Option<Value<V>>)
        ensures
            ingested_int::<V>(self as int, r),
    {
        int_value_from_i128::<V>(self as i128)
    }
}

impl ConvertibleWithEvalexprNumericTypes for i16 {
    fn into_with<V: EvalexprNumericTypesConvert>(self) -> (r: Option<Value<V>>)
        ensures
            ingested_int::<V>(self as int, r),
    {
        int_value_from_i128::<V>(self as i128)
    }
}

impl ConvertibleWithEvalexprNumericTypes for u32 {
    fn into_with<V: EvalexprNumericTypesConvert>(self) -> (r: Option<Value<V>>)
        ensures
            ingested_int::<V>(self as int, r),
    {
        int_value_from_i128::<V>(self as i128)
    }
}

impl ConvertibleWithEvalexprNumericTypes for i32 {
    fn into_with<V: EvalexprNumericTypesConvert>(self) -> (r: Option<Value<V>>)
        ensures
            ingested_int::<V>(self as int, r),
    {
        int_value_from_i128::<V>(self as i128)
    }
}

impl ConvertibleWithEvalexprNumericTypes for u64 {
    fn into_with<V: EvalexprNumericTypesConvert>(self) -> (r: Option<Value<V>>)
        ensures
            ingested_int::<V>(self as int, r),
    {
        int_value_from_i128::<V>(self as i128)
    }
}

impl ConvertibleWithEvalexprNumericTypes for i64 {
    fn into_with<V: EvalexprNumericTypesConvert>(self) -> (r: Option<Value<V>>)
        ensures
            ingested_int::<V>(self as int, r),
    {
        int_value_from_i128::<V>(self as i128)
    }
}

impl ConvertibleWithEvalexprNumericTypes for u128 {
    fn into_with<V: EvalexprNumericTypesConvert>(self) -> (r: Option<Value<V>>)
        ensures
            ingested_int::<V>(self as int, r),
    {
        int_value_from_u128::<V>(self)
    }
}

impl ConvertibleWithEvalexprNumericTypes for i128 {
    fn into_with<V: EvalexprNumericTypesConvert>(self) -> (r: Option<Value<V>>)
        ensures
            ingested_int::<V>(self as int, r),
    {
        int_value_from_i128::<V>(self)
    }
}

impl ConvertibleWithEvalexprNumericTypes for usize {
    fn into_with<V: EvalexprNumericTypesConvert>(self) -> (r: Option<Value<V>>)
        ensures
            ingested_int::<V>(self as int, r),
    {
        int_value_from_u128::<V>(self as u128)
    }
}

impl ConvertibleWithEvalexprNumericTypes for isize {
    fn into_with<V: EvalexprNumericTypesConvert>(self) -> (r: Option<Value<V>>)
        ensures
            ingested_int::<V>(self as int, r),
    {
        int_value_from_i128::<V>(self as i128)
    }
}

/// Takes in the elements of a tuple one by one, and stops at the first that fails.
fn ingest_elements<A: EvalexprNumericTypes, V: EvalexprNumericTypes>(tuple: &Vec<Value<A>>) -> (r:
    Option<Vec<Value<V>>>)
    ensures
        match r {
            Some(w) => conversion_failure_among::<A, V>(tuple_view(tuple@), tuple@.len()) is None
                && w@.len() == tuple@.len() && forall|k: int|
                0 <= k < tuple@.len() ==> converted::<A, V>(tuple@[k]@, #[trigger] w@[k]@),
            None => conversion_failure_among::<A, V>(tuple_view(tuple@), tuple@.len()) is Some,
        },
    decreases tuple,
{
    let ghost views = tuple_view(tuple@);
    let mut out: Vec<Value<V>> = Vec::new();
    let mut i: usize = 0;
    while i < tuple.len()
        invariant
            i <= tuple.len(),
            views == tuple_view(tuple@),
            out@.len() == i,
            conversion_failure_among::<A, V>(views, i as nat) is None,
            forall|k: int| 0 <= k < i ==> converted::<A, V>(tuple@[k]@, #[trigger] out@[k]@),
        decreases tuple.len() - i,
    {
        match ingest::<A, V>(&tuple[i]) {
            Some(w) => {
                out.push(w);
            },
            None => {
                proof {
                    lemma_failure_stays::<A, V>(views, (i + 1) as nat, tuple@.len() as nat);
                }
                return None;
            },
        }
        i += 1;
    }
    Some(out)
}

/// Takes in a value of the backend `A` under the backend `V`.
fn ingest<A: EvalexprNumericTypes, V: EvalexprNumericTypes>(value: &Value<A>) -> (r: Option<
    Value<V>,
>)
    ensures
        ingested_value::<A, V>(value@, r),
    decreases value,
{
    match value {
        Value::String(s) => Some(Value::String(s.clone())),
        Value::Float(f) => match cast_float::<A::Float, V::Float>(f) {
            Some(g) => Some(Value::Float(g)),
            None => None,
        },
        Value::Int(i) => match cast_int::<A::Int, V::Int>(i) {
            Some(j) => Some(Value::Int(j)),
            None => None,
        },
        Value::Boolean(b) => Some(Value::Boolean(*b)),
        Value::Tuple(t) => {
            proof {
                lemma_view_of_tuple(*t);
            }
            match ingest_elements::<A, V>(t) {
                Some(w) => {
                    proof {
                        lemma_view_of_tuple(w);
                    }
                    Some(Value::Tuple(w))
                },
                None => None,
            }
        },
        Value::Empty => Some(Value::Empty),
    }
}

impl<A: EvalexprNumericTypes> ConvertibleWithEvalexprNumericTypes for Vec<Value<A>> {
    /// The tuple of the elements, each taken in under `V`; nothing where one fails.
    fn into_with<V: EvalexprNumericTypesConvert>(self) -> (r: Option<Value<V>>)
        ensures
            ingested_value::<A, V>(ValueView::Tuple(tuple_view(self@)), r),
    {
        match ingest_elements::<A, V>(&self) {
            Some(w) => {
                proof {
                    lemma_view_of_tuple(w);
                }
                Some(Value::Tuple(w))
            },
            None => None,
        }
    }
}

impl<A: EvalexprNumericTypes> ConvertibleWithEvalexprNumericTypes for Value<A> {
    /// `self` under the backend `V`: strings, booleans and the empty value as they are,
    /// integers and floats cast, tuples element by element; nothing where a cast fails.
    fn into_with<V: EvalexprNumericTypesConvert>(self) -> (r: Option<Value<V>>)
        ensures
            ingested_value::<A, V>(self@, r),
    {
        ingest::<A, V>(&self)
    }
}

} // verus!
