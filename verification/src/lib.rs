//! Values of an expression evaluator and the numeric backends they are built on.
//!
//! A [`Value`] is a string, an integer, a float, a boolean, a tuple of values or the
//! empty value. Which integer and which float it holds is decided by a backend, a type
//! that implements [`EvalexprNumericTypes`]. The integer of the default backend, `i64`,
//! is implemented here; a float is any type that implements [`EvalexprFloat`].

pub mod error;
pub mod value;

pub use error::{EvalexprError, EvalexprResult, EvalexprResultValue};
pub use value::display::{
    display_text, display_texts, join_texts, joined_display, lemma_display_of_tuple,
    lemma_join_next, lemma_joined_display, str_from_text,
};
pub use value::num_ext::{
    EvalexprNumericTypesCast, EvalexprNumericTypesFloatCast, EvalexprNumericTypesIntCast,
};
pub use value::numeric_types::floating::{EvalexprFloat, RandNotEnabled};
pub use value::numeric_types::integer::{
    decimal_digits, decimal_text, digit_value, digits_value, lemma_decimal_digits_value,
    lemma_decimal_text_value, lemma_truncated_quotient_bounds,
    lemma_truncated_remainder_cases, literal_value, truncated_quotient, truncated_remainder,
    EvalexprInt, IntError,
};
pub use value::numeric_types::with_num::{
    cast_float, cast_int, conversion_failure, conversion_failure_among, converted, float_cast,
    ingested_int, ingested_value, int_castable, lemma_conversion_round_trip, lemma_failure_stays,
    reports_failure, try_convert, ConvertibleWithEvalexprNumericTypes,
    EvalexprNumericTypesConvert, EvalexprNumericTypesFloatConvert,
    EvalexprNumericTypesIntConvert, EvalexprNumericTypesWithCopy,
    EvalexprNumericTypesWithCopyFloat, EvalexprNumericTypesWithCopyInt,
};
pub use value::numeric_types::{DefaultNumericTypes, EvalexprNumericTypes};
pub use value::{
    in_range, lemma_view_of_tuple, tuple_view, EmptyType, TupleType, Value,
    ValueView, EMPTY_VALUE,
};
