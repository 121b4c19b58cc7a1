//! The value type and what it is built from.

pub mod display;
pub mod num_ext;
pub mod numeric_types;

use self::numeric_types::floating::EvalexprFloat;
use self::numeric_types::integer::EvalexprInt;
use self::numeric_types::with_num::{cast_float, cast_int, float_cast, int_castable};
use self::numeric_types::EvalexprNumericTypes;
use crate::error::{EvalexprError, EvalexprResult, EvalexprResultValue};
use core::ops::RangeInclusive;
use vstd::prelude::*;
use vstd::string::StringExecFns;

verus! {

/// The type of the elements of a `Value::Tuple`.
pub type TupleType<N> = Vec<Value<N>>;

/// The type that stands for the empty value.
pub type EmptyType = ();

/// The empty value, as Rust has it.
pub const EMPTY_VALUE: () = ();

/// A value: what an expression evaluates to.
///
/// The integer and the float are those of the backend `N`. A tuple owns its elements,
/// so a value is a finite tree.
#[derive(Debug, PartialEq)]
pub enum Value<N: EvalexprNumericTypes> {
    /// A string value.
    String(String),
    /// A float value.
    Float(N::Float),
    /// An integer value.
    Int(N::Int),
    /// A boolean value.
    Boolean(bool),
    /// A tuple value.
    Tuple(TupleType<N>),
    /// An empty value.
    Empty,
}

/// What a value is, told apart from how it is stored: a string is its characters, a
/// tuple the sequence of what its elements are.
pub enum ValueView<N: EvalexprNumericTypes> {
    /// A string, as its characters.
    String(Seq<char>),
    /// A float of the backend.
    Float(N::Float),
    /// An integer of the backend.
    Int(N::Int),
    /// A boolean.
    Boolean(bool),
    /// A tuple, as what its elements are, in their order.
    Tuple(Seq<ValueView<N>>),
    /// The empty value.
    Empty,
}

/// What the values of a sequence are, one by one.
pub open spec fn tuple_view<N: EvalexprNumericTypes>(tuple: Seq<Value<N>>) -> Seq<ValueView<N>> {
    Seq::new(tuple.len(), |i: int| tuple[i]@)
}

impl<N: EvalexprNumericTypes> Value<N> {
    /// What the value is: see [`ValueView`].
    pub open spec fn model(self) -> ValueView<N>
        decreases self,
    {
        match self {
            Value::String(s) => ValueView::String(s@),
            Value::Float(f) => ValueView::Float(f),
            Value::Int(i) => ValueView::Int(i),
            Value::Boolean(b) => ValueView::Boolean(b),
            Value::Tuple(t) => ValueView::Tuple(
                Seq::new(
                    t@.len(),
                    |i: int|
                        if 0 <= i < t@.len() {
                            t@[i].model()
                        } else {
                            ValueView::Empty
                        },
                ),
            ),
            Value::Empty => ValueView::Empty,
        }
    }
}

impl<N: EvalexprNumericTypes> View for Value<N> {
    type V = ValueView<N>;

    open spec fn view(&self) -> ValueView<N> {
        self.model()
    }
}

/// A tuple value is the sequence of what its elements are.
pub proof fn lemma_view_of_tuple<N: EvalexprNumericTypes>(tuple: Vec<Value<N>>)
    ensures
        Value::Tuple(tuple)@ == ValueView::Tuple(tuple_view(tuple@)),
{
    assert(Value::Tuple(tuple)@->Tuple_0 =~= tuple_view(tuple@));
}

/// Whether `len` lies in `range`, both ends included. A range that an iteration has
/// used up no longer includes its end.
pub open spec fn in_range(range: RangeInclusive<usize>, len: usize) -> bool {
    range@.start <= len && if range@.exhausted {
        len < range@.end
    } else {
        len <= range@.end
    }
}

/// A copy of a tuple's elements, element by element.
fn clone_tuple<N: EvalexprNumericTypes>(tuple: &Vec<Value<N>>) -> (r: Vec<Value<N>>)
    ensures
        tuple_view(r@) == tuple_view(tuple@),
    decreases tuple,
{
    let mut copy: Vec<Value<N>> = Vec::new();
    let mut i: usize = 0;
    while i < tuple.len()
        invariant
            i <= tuple.len(),
            copy.len() == i,
            forall|j: int| 0 <= j < i ==> copy@[j]@ == tuple@[j]@,
        decreases tuple.len() - i,
    {
        let element = tuple[i].clone();
        copy.push(element);
        i += 1;
    }
    assert(tuple_view(copy@) =~= tuple_view(tuple@));
    copy
}

impl<N: EvalexprNumericTypes> Clone for Value<N> {
    /// A copy of the whole value. A tuple is copied element by element; nothing is
    /// shared with `self`.
    fn clone(&self) -> (r: Self)
        ensures
            r@ == self@,
        decreases self,
    {
        match self {
            Value::String(s) => Value::String(s.clone()),
            Value::Float(f) => Value::Float(f.duplicate()),
            Value::Int(i) => Value::Int(i.duplicate()),
            Value::Boolean(b) => Value::Boolean(*b),
            Value::Tuple(t) => {
                let copy = clone_tuple(t);
                proof {
                    lemma_view_of_tuple(*t);
                    lemma_view_of_tuple(copy);
                }
                Value::Tuple(copy)
            },
            Value::Empty => Value::Empty,
        }
    }
}

impl<N: EvalexprNumericTypes> Value<N> {
    /// The string in `self`, or an error that holds `self` where it is no string.
    pub fn as_string(&self) -> (r: EvalexprResult<String, N>)
        ensures
            r is Ok <==> self.is_string(),
            self@ is String ==> r is Ok && r->Ok_0@ == self@->String_0,
            !(self@ is String) ==> (r matches Err(EvalexprError::ExpectedString { actual })
                && actual@ == self@),
    {
        match self {
            Value::String(string) => Ok(string.clone()),
            value => Err(EvalexprError::expected_string(value.clone())),
        }
    }

    /// The integer in `self`, or an error that holds `self` where it is no integer.
    pub fn as_int(&self) -> (r: EvalexprResult<N::Int, N>)
        ensures
            r is Ok <==> self.is_int(),
            self@ is Int ==> r is Ok && r->Ok_0 == self@->Int_0,
            !(self@ is Int) ==> (r matches Err(EvalexprError::ExpectedInt { actual }) && actual@
                == self@),
    {
        match self {
            Value::Int(i) => Ok(i.duplicate()),
            value => Err(EvalexprError::expected_int(value.clone())),
        }
    }

    /// The float in `self`, or an error that holds `self` where it is no float.
    pub fn as_float(&self) -> (r: EvalexprResult<N::Float, N>)
        ensures
            r is Ok <==> self.is_float(),
            self@ is Float ==> r is Ok && r->Ok_0 == self@->Float_0,
            !(self@ is Float) ==> (r matches Err(EvalexprError::ExpectedFloat { actual })
                && actual@ == self@),
    {
        match self {
            Value::Float(f) => Ok(f.duplicate()),
            value => Err(EvalexprError::expected_float(value.clone())),
        }
    }

    /// The float in `self`, or the float that the backend gives for the integer in
    /// `self`, or an error that holds `self` where it is neither.
    pub fn as_number(&self) -> (r: EvalexprResult<N::Float, N>)
        ensures
            r is Ok <==> self.is_number(),
            self@ is Float ==> r is Ok && r->Ok_0 == self@->Float_0,
            self@ is Int ==> r is Ok && r->Ok_0 == N::float_of_int(self@->Int_0),
            !(self@ is Float || self@ is Int) ==> (r matches Err(
                EvalexprError::ExpectedNumber { actual },
            ) && actual@ == self@),
    {
        match self {
            Value::Float(f) => Ok(f.duplicate()),
            Value::Int(i) => Ok(N::int_as_float(i)),
            value => Err(EvalexprError::expected_number(value.clone())),
        }
    }

    /// The boolean in `self`, or an error that holds `self` where it is no boolean.
    pub fn as_boolean(&self) -> (r: EvalexprResult<bool, N>)
        ensures
            r is Ok <==> self.is_boolean(),
            self@ is Boolean ==> r is Ok && r->Ok_0 == self@->Boolean_0,
            !(self@ is Boolean) ==> (r matches Err(EvalexprError::ExpectedBoolean { actual })
                && actual@ == self@),
    {
        match self {
            Value::Boolean(boolean) => Ok(*boolean),
            value => Err(EvalexprError::expected_boolean(value.clone())),
        }
    }

    /// The elements of the tuple in `self`, or an error that holds `self` where it is no
    /// tuple.
    pub fn as_tuple(&self) -> (r: EvalexprResult<TupleType<N>, N>)
        ensures
            r is Ok <==> self.is_tuple(),
            self@ is Tuple ==> r is Ok && tuple_view(r->Ok_0@) == self@->Tuple_0,
            !(self@ is Tuple) ==> (r matches Err(EvalexprError::ExpectedTuple { actual })
                && actual@ == self@),
    {
        match self {
            Value::Tuple(tuple) => {
                proof {
                    lemma_view_of_tuple(*tuple);
                }
                Ok(clone_tuple(tuple))
            },
            value => Err(EvalexprError::expected_tuple(value.clone())),
        }
    }

    /// The elements of the tuple in `self` where there are exactly `len` of them. Where
    /// `self` is a tuple of another length, an error that holds `len` and `self`; where
    /// it is no tuple, an error that holds `self`.
    pub fn as_fixed_len_tuple(&self, len: usize) -> (r: EvalexprResult<TupleType<N>, N>)
        ensures
            self@ is Tuple && self@->Tuple_0.len() == len ==> r is Ok && tuple_view(r->Ok_0@)
                == self@->Tuple_0,
            self@ is Tuple && self@->Tuple_0.len() != len ==> (r matches Err(
                EvalexprError::ExpectedFixedLengthTuple { expected_length, actual },
            ) && expected_length == len && actual@ == self@),
            !(self@ is Tuple) ==> (r matches Err(EvalexprError::ExpectedTuple { actual })
                && actual@ == self@),
    {
        match self {
            Value::Tuple(tuple) => {
                proof {
                    lemma_view_of_tuple(*tuple);
                }
                if tuple.len() == len {
                    Ok(clone_tuple(tuple))
                } else {
                    Err(EvalexprError::expected_fixed_len_tuple(len, self.clone()))
                }
            },
            value => Err(EvalexprError::expected_tuple(value.clone())),
        }
    }

    /// The elements of the tuple in `self` where their number lies in `range`. Where
    /// `self` is a tuple of another length, an error that holds `range` and `self`;
    /// where it is no tuple, an error that holds `self`.
    pub fn as_ranged_len_tuple(&self, range: RangeInclusive<usize>) -> (r: EvalexprResult<
        TupleType<N>,
        N,
    >)
        ensures
            self@ is Tuple && in_range(range, self@->Tuple_0.len() as usize) ==> r is Ok
                && tuple_view(r->Ok_0@) == self@->Tuple_0,
            self@ is Tuple && !in_range(range, self@->Tuple_0.len() as usize) ==> (r matches Err(
                EvalexprError::ExpectedRangedLengthTuple { expected_length, actual },
            ) && expected_length == range && actual@ == self@),
            !(self@ is Tuple) ==> (r matches Err(EvalexprError::ExpectedTuple { actual })
                && actual@ == self@),
    {
        match self {
            Value::Tuple(tuple) => {
                proof {
                    lemma_view_of_tuple(*tuple);
                }
                let len = tuple.len();
                if range.contains(&len) {
                    Ok(clone_tuple(tuple))
                } else {
                    Err(EvalexprError::expected_ranged_len_tuple(range, self.clone()))
                }
            },
            value => Err(EvalexprError::expected_tuple(value.clone())),
        }
    }

    /// `()` where `self` is the empty value, or else an error that holds `self`.
    pub fn as_empty(&self) -> (r: EvalexprResult<(), N>)
        ensures
            r is Ok <==> self.is_empty(),
            self@ is Empty ==> r is Ok,
            !(self@ is Empty) ==> (r matches Err(EvalexprError::ExpectedEmpty { actual })
                && actual@ == self@),
    {
        match self {
            Value::Empty => Ok(()),
            value => Err(EvalexprError::expected_empty(value.clone())),
        }
    }

    /// The value that holds the integer `number` cast to the integer type of the
    /// backend, or an error where that type cannot hold it.
    pub fn from_cast_int<T: EvalexprInt>(number: T) -> (r: EvalexprResult<Self, N>)
        ensures
            match r {
                Ok(v) => int_castable::<N::Int>(number.value()) && v@ is Int && v@->Int_0.value()
                    == number.value(),
                Err(e) => !int_castable::<N::Int>(number.value()) && e
                    == EvalexprError::<N>::IntCastError,
            },
    {
        match cast_int::<T, N::Int>(&number) {
            Some(v) => Ok(Value::Int(v)),
            None => Err(EvalexprError::IntCastError),
        }
    }

    /// The value that holds the float `number` cast to the float type of the backend, or
    /// an error where that type has no float for it.
    pub fn from_cast_float<T: EvalexprFloat>(number: T) -> (r: EvalexprResult<Self, N>)
        ensures
            match r {
                Ok(v) => v@ is Float && float_cast::<T, N::Float>(number) == Some(v@->Float_0),
                Err(e) => float_cast::<T, N::Float>(number) is None && e
                    == EvalexprError::<N>::FloatCastError,
            },
    {
        match cast_float::<T, N::Float>(&number) {
            Some(v) => Ok(Value::Float(v)),
            None => Err(EvalexprError::FloatCastError),
        }
    }

    /// The value that holds the given float.
    pub fn from_float(float: N::Float) -> (r: Self)
        ensures
            r@ == ValueView::<N>::Float(float),
    {
        Value::Float(float)
    }

    /// The value that holds the given integer.
    pub fn from_int(i: N::Int) -> (r: Self)
        ensures
            r@ == ValueView::<N>::Int(i),
    {
        Value::Int(i)
    }

    /// Whether `self` is a `Value::String`, for contracts and proofs.
    pub open spec fn spec_is_string(&self) -> bool {
        self@ is String
    }

    /// Whether `self` is a `Value::String`.
    #[verifier::when_used_as_spec(spec_is_string)]
    pub fn is_string(&self) -> (r: bool)
        ensures
            r == (self@ is String),
    {
        matches!(self, Value::String(_))
    }

    /// Whether `self` is a `Value::Int`, for contracts and proofs.
    pub open spec fn spec_is_int(&self) -> bool {
        self@ is Int
    }

    /// Whether `self` is a `Value::Int`.
    #[verifier::when_used_as_spec(spec_is_int)]
    pub fn is_int(&self) -> (r: bool)
        ensures
            r == (self@ is Int),
    {
        matches!(self, Value::Int(_))
    }

    /// Whether `self` is a `Value::Float`, for contracts and proofs.
    pub open spec fn spec_is_float(&self) -> bool {
        self@ is Float
    }

    /// Whether `self` is a `Value::Float`.
    #[verifier::when_used_as_spec(spec_is_float)]
    pub fn is_float(&self) -> (r: bool)
        ensures
            r == (self@ is Float),
    {
        matches!(self, Value::Float(_))
    }

    /// Whether `self` is a `Value::Int` or a `Value::Float`, for contracts and proofs.
    pub open spec fn spec_is_number(&self) -> bool {
        self@ is Int || self@ is Float
    }

    /// Whether `self` is a `Value::Int` or a `Value::Float`.
    #[verifier::when_used_as_spec(spec_is_number)]
    pub fn is_number(&self) -> (r: bool)
        ensures
            r == (self@ is Int || self@ is Float),
    {
        matches!(self, Value::Int(_) | Value::Float(_))
    }

    /// Whether `self` is a `Value::Boolean`, for contracts and proofs.
    pub open spec fn spec_is_boolean(&self) -> bool {
        self@ is Boolean
    }

    /// Whether `self` is a `Value::Boolean`.
    #[verifier::when_used_as_spec(spec_is_boolean)]
    pub fn is_boolean(&self) -> (r: bool)
        ensures
            r == (self@ is Boolean),
    {
        matches!(self, Value::Boolean(_))
    }

    /// Whether `self` is a `Value::Tuple`, for contracts and proofs.
    pub open spec fn spec_is_tuple(&self) -> bool {
        self@ is Tuple
    }

    /// Whether `self` is a `Value::Tuple`.
    #[verifier::when_used_as_spec(spec_is_tuple)]
    pub fn is_tuple(&self) -> (r: bool)
        ensures
            r == (self@ is Tuple),
    {
        matches!(self, Value::Tuple(_))
    }

    /// Whether `self` is a `Value::Empty`, for contracts and proofs.
    pub open spec fn spec_is_empty(&self) -> bool {
        self@ is Empty
    }

    /// Whether `self` is a `Value::Empty`.
    #[verifier::when_used_as_spec(spec_is_empty)]
    pub fn is_empty(&self) -> (r: bool)
        ensures
            r == (self@ is Empty),
    {
        matches!(self, Value::Empty)
    }
}

impl<N: EvalexprNumericTypes> From<String> for Value<N> {
    fn from(string: String) -> (r: Self) {
        Value::String(string)
    }
}

impl<N: EvalexprNumericTypes> vstd::std_specs::convert::FromSpecImpl<String> for Value<N> {
    open spec fn obeys_from_spec() -> bool {
        true
    }

    open spec fn from_spec(string: String) -> Self {
        Value::String(string)
    }
}

impl<N: EvalexprNumericTypes> From<&str> for Value<N> {
    fn from(string: &str) -> (r: Self)
        ensures
            r@ == ValueView::<N>::String(string@),
    {
        Value::String(String::from_str(string))
    }
}

impl<N: EvalexprNumericTypes> vstd::std_specs::convert::FromSpecImpl<&str> for Value<N> {
    open spec fn obeys_from_spec() -> bool {
        false
    }

    open spec fn from_spec(string: &str) -> Self {
        Value::Empty
    }
}

impl<N: EvalexprNumericTypes> From<bool> for Value<N> {
    fn from(boolean: bool) -> (r: Self) {
        Value::Boolean(boolean)
    }
}

impl<N: EvalexprNumericTypes> vstd::std_specs::convert::FromSpecImpl<bool> for Value<N> {
    open spec fn obeys_from_spec() -> bool {
        true
    }

    open spec fn from_spec(boolean: bool) -> Self {
        Value::Boolean(boolean)
    }
}

impl<N: EvalexprNumericTypes> From<TupleType<N>> for Value<N> {
    fn from(tuple: TupleType<N>) -> (r: Self) {
        Value::Tuple(tuple)
    }
}

impl<N: EvalexprNumericTypes> vstd::std_specs::convert::FromSpecImpl<TupleType<N>> for Value<N> {
    open spec fn obeys_from_spec() -> bool {
        true
    }

    open spec fn from_spec(tuple: TupleType<N>) -> Self {
        Value::Tuple(tuple)
    }
}

impl<N: EvalexprNumericTypes> From<()> for Value<N> {
    fn from(empty: ()) -> (r: Self) {
        Value::Empty
    }
}

impl<N: EvalexprNumericTypes> vstd::std_specs::convert::FromSpecImpl<()> for Value<N> {
    open spec fn obeys_from_spec() -> bool {
        true
    }

    open spec fn from_spec(empty: ()) -> Self {
        Value::Empty
    }
}

impl<N: EvalexprNumericTypes> From<Value<N>> for EvalexprResultValue<N> {
    fn from(value: Value<N>) -> (r: Self) {
        Ok(value)
    }
}

impl<N: EvalexprNumericTypes> vstd::std_specs::convert::FromSpecImpl<Value<N>> for EvalexprResultValue<N> {
    open spec fn obeys_from_spec() -> bool {
        true
    }

    open spec fn from_spec(value: Value<N>) -> Self {
        Ok(value)
    }
}

impl<N: EvalexprNumericTypes> TryFrom<Value<N>> for String {
    type Error = EvalexprError<N>;

    fn try_from(value: Value<N>) -> (r: Result<Self, Self::Error>) {
        if let Value::String(value) = value {
            Ok(value)
        } else {
            Err(EvalexprError::ExpectedString { actual: value })
        }
    }
}

impl<N: EvalexprNumericTypes> vstd::std_specs::convert::TryFromSpecImpl<Value<N>> for String {
    open spec fn obeys_try_from_spec() -> bool {
        true
    }

    open spec fn try_from_spec(value: Value<N>) -> Result<Self, Self::Error> {
        match value {
            Value::String(string) => Ok(string),
            _ => Err(EvalexprError::ExpectedString { actual: value }),
        }
    }
}

impl<N: EvalexprNumericTypes> TryFrom<Value<N>> for bool {
    type Error = EvalexprError<N>;

    fn try_from(value: Value<N>) -> (r: Result<Self, Self::Error>) {
        if let Value::Boolean(value) = value {
            Ok(value)
        } else {
            Err(EvalexprError::ExpectedBoolean { actual: value })
        }
    }
}

impl<N: EvalexprNumericTypes> vstd::std_specs::convert::TryFromSpecImpl<Value<N>> for bool {
    open spec fn obeys_try_from_spec() -> bool {
        true
    }

    open spec fn try_from_spec(value: Value<N>) -> Result<Self, Self::Error> {
        match value {
            Value::Boolean(boolean) => Ok(boolean),
            _ => Err(EvalexprError::ExpectedBoolean { actual: value }),
        }
    }
}

impl<N: EvalexprNumericTypes> TryFrom<Value<N>> for TupleType<N> {
    type Error = EvalexprError<N>;

    fn try_from(value: Value<N>) -> (r: Result<Self, Self::Error>) {
        if let Value::Tuple(value) = value {
            Ok(value)
        } else {
            Err(EvalexprError::ExpectedTuple { actual: value })
        }
    }
}

impl<N: EvalexprNumericTypes> vstd::std_specs::convert::TryFromSpecImpl<Value<N>> for TupleType<N> {
    open spec fn obeys_try_from_spec() -> bool {
        true
    }

    open spec fn try_from_spec(value: Value<N>) -> Result<Self, Self::Error> {
        match value {
            Value::Tuple(tuple) => Ok(tuple),
            _ => Err(EvalexprError::ExpectedTuple { actual: value }),
        }
    }
}

impl<N: EvalexprNumericTypes> TryFrom<Value<N>> for () {
    type Error = EvalexprError<N>;

    fn try_from(value: Value<N>) -> (r: Result<Self, Self::Error>) {
        if let Value::Empty = value {
            Ok(())
        } else {
            Err(EvalexprError::ExpectedEmpty { actual: value })
        }
    }
}

impl<N: EvalexprNumericTypes> vstd::std_specs::convert::TryFromSpecImpl<Value<N>> for () {
    open spec fn obeys_try_from_spec() -> bool {
        true
    }

    open spec fn try_from_spec(value: Value<N>) -> Result<Self, Self::Error> {
        match value {
            Value::Empty => Ok(()),
            _ => Err(EvalexprError::ExpectedEmpty { actual: value }),
        }
    }
}

} // verus!
