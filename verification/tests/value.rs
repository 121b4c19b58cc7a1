use evalexpr::{
    EvalexprError, EvalexprFloat, EvalexprNumericTypes, RandNotEnabled, TupleType, Value,
};

#[derive(Debug, Clone, Copy, PartialEq, PartialOrd)]
struct F64(f64);

impl std::ops::Add for F64 {
    type Output = F64;
    fn add(self, rhs: F64) -> F64 {
        F64(self.0 + rhs.0)
    }
}

impl std::ops::Sub for F64 {
    type Output = F64;
    fn sub(self, rhs: F64) -> F64 {
        F64(self.0 - rhs.0)
    }
}

impl std::ops::Neg for F64 {
    type Output = F64;
    fn neg(self) -> F64 {
        F64(-self.0)
    }
}

impl std::ops::Mul for F64 {
    type Output = F64;
    fn mul(self, rhs: F64) -> F64 {
        F64(self.0 * rhs.0)
    }
}

impl std::ops::Div for F64 {
    type Output = F64;
    fn div(self, rhs: F64) -> F64 {
        F64(self.0 / rhs.0)
    }
}

impl std::ops::Rem for F64 {
    type Output = F64;
    fn rem(self, rhs: F64) -> F64 {
        F64(self.0 % rhs.0)
    }
}

impl EvalexprFloat for F64 {
    fn name() -> &'static str {
        "f64"
    }
    fn neg_infinity() -> Self {
        F64(f64::NEG_INFINITY)
    }
    fn infinity() -> Self {
        F64(f64::INFINITY)
    }
    fn duplicate(&self) -> Self {
        *self
    }
    fn to_text(&self) -> String {
        self.0.to_string()
    }
    fn from_decimal_str(literal: &str) -> Result<Self, ()> {
        literal.parse::<f64>().map(F64).map_err(|_| ())
    }
    fn to_binary64(&self) -> Option<u64> {
        Some(self.0.to_bits())
    }
    fn from_binary64(bits: u64) -> Option<Self> {
        Some(F64(f64::from_bits(bits)))
    }
    fn from_i64(i: i64) -> Self {
        F64(i as f64)
    }
    fn to_i64(&self) -> i64 {
        self.0 as i64
    }
    fn pow(&self, exponent: &Self) -> Self {
        F64(self.0.powf(exponent.0))
    }
    fn ln(&self) -> Self {
        F64(self.0.ln())
    }
    fn log(&self, base: &Self) -> Self {
        F64(self.0.log(base.0))
    }
    fn log2(&self) -> Self {
        F64(self.0.log2())
    }
    fn log10(&self) -> Self {
        F64(self.0.log10())
    }
    fn exp(&self) -> Self {
        F64(self.0.exp())
    }
    fn exp2(&self) -> Self {
        F64(self.0.exp2())
    }
    fn cos(&self) -> Self {
        F64(self.0.cos())
    }
    fn cosh(&self) -> Self {
        F64(self.0.cosh())
    }
    fn acos(&self) -> Self {
        F64(self.0.acos())
    }
    fn acosh(&self) -> Self {
        F64(self.0.acosh())
    }
    fn sin(&self) -> Self {
        F64(self.0.sin())
    }
    fn sinh(&self) -> Self {
        F64(self.0.sinh())
    }
    fn asin(&self) -> Self {
        F64(self.0.asin())
    }
    fn asinh(&self) -> Self {
        F64(self.0.asinh())
    }
    fn tan(&self) -> Self {
        F64(self.0.tan())
    }
    fn tanh(&self) -> Self {
        F64(self.0.tanh())
    }
    fn atan(&self) -> Self {
        F64(self.0.atan())
    }
    fn atanh(&self) -> Self {
        F64(self.0.atanh())
    }
    fn atan2(&self, x: &Self) -> Self {
        F64(self.0.atan2(x.0))
    }
    fn sqrt(&self) -> Self {
        F64(self.0.sqrt())
    }
    fn cbrt(&self) -> Self {
        F64(self.0.cbrt())
    }
    fn hypot(&self, other: &Self) -> Self {
        F64(self.0.hypot(other.0))
    }
    fn floor(&self) -> Self {
        F64(self.0.floor())
    }
    fn round(&self) -> Self {
        F64(self.0.round())
    }
    fn ceil(&self) -> Self {
        F64(self.0.ceil())
    }
    fn is_nan(&self) -> bool {
        self.0.is_nan()
    }
    fn is_finite(&self) -> bool {
        self.0.is_finite()
    }
    fn is_infinite(&self) -> bool {
        self.0.is_infinite()
    }
    fn is_normal(&self) -> bool {
        self.0.is_normal()
    }
    fn abs(&self) -> Self {
        F64(self.0.abs())
    }
    fn min(&self, other: &Self) -> Self {
        F64(self.0.min(other.0))
    }
    fn max(&self, other: &Self) -> Self {
        F64(self.0.max(other.0))
    }
    fn random() -> Result<Self, RandNotEnabled> {
        Err(RandNotEnabled)
    }
}

type DefaultNumericTypes = evalexpr::DefaultNumericTypes<F64>;

type V = Value<DefaultNumericTypes>;

fn sample_tuple() -> V {
    V::from(TupleType::from([
        V::from("string"),
        V::from_float(F64(3.3)),
        V::from_int(3),
        V::from(TupleType::from([V::from_int(42), V::from_float(F64(4.2))])),
        V::from(()),
        V::from(true),
    ]))
}

#[test]
fn test_value_conversions() {
    assert_eq!(
        Value::<DefaultNumericTypes>::from("string").as_string(),
        Ok(String::from("string"))
    );
    assert_eq!(Value::<DefaultNumericTypes>::from_int(3).as_int(), Ok(3));
    assert_eq!(
        Value::<DefaultNumericTypes>::from_float(F64(3.3)).as_float(),
        Ok(F64(3.3))
    );
    assert_eq!(
        Value::<DefaultNumericTypes>::from(true).as_boolean(),
        Ok(true)
    );
    assert_eq!(
        Value::<DefaultNumericTypes>::from(TupleType::new()).as_tuple(),
        Ok(TupleType::new())
    );
}

#[test]
fn test_value_checks() {
    assert!(Value::<DefaultNumericTypes>::from("string").is_string());
    assert!(Value::<DefaultNumericTypes>::from_int(3).is_int());
    assert!(Value::<DefaultNumericTypes>::from_float(F64(3.3)).is_float());
    assert!(Value::<DefaultNumericTypes>::from(true).is_boolean());
    assert!(Value::<DefaultNumericTypes>::from(TupleType::new()).is_tuple());
}

#[test]
fn test_value_str_from() {
    assert_eq!(
        Value::<DefaultNumericTypes>::from("string").str_from(),
        "string"
    );
    assert_eq!(
        Value::<DefaultNumericTypes>::from_float(F64(3.3)).str_from(),
        "3.3"
    );
    assert_eq!(Value::<DefaultNumericTypes>::from_int(3).str_from(), "3");
    assert_eq!(Value::<DefaultNumericTypes>::from(true).str_from(), "true");
    assert_eq!(Value::<DefaultNumericTypes>::from(()).str_from(), "()");
    assert_eq!(
        Value::<DefaultNumericTypes>::from(TupleType::from([
            Value::<DefaultNumericTypes>::from("string"),
            Value::<DefaultNumericTypes>::from_float(F64(3.3)),
            Value::<DefaultNumericTypes>::from_int(3),
            Value::<DefaultNumericTypes>::from(TupleType::from([
                Value::<DefaultNumericTypes>::from_int(42),
                Value::<DefaultNumericTypes>::from_float(F64(4.2)),
            ])),
            Value::<DefaultNumericTypes>::from(()),
            Value::<DefaultNumericTypes>::from(true),
        ]))
        .str_from(),
        r#"("string", 3.3, 3, (42, 4.2), (), true)"#
    );
}

#[test]
fn display_quotes_strings_and_str_from_does_not() {
    assert_eq!(V::from("a b").to_string(), "\"a b\"");
    assert_eq!(V::from("a b").str_from(), "a b");
    assert_eq!(V::from("").to_string(), "\"\"");
    assert_eq!(V::from("").str_from(), "");
}

#[test]
fn display_of_scalars_and_tuples() {
    assert_eq!(V::from_int(-17).to_string(), "-17");
    assert_eq!(V::from_int(0).to_string(), "0");
    assert_eq!(V::from_int(i64::MIN).to_string(), "-9223372036854775808");
    assert_eq!(V::from_float(F64(4.2)).to_string(), "4.2");
    assert_eq!(V::from(false).to_string(), "false");
    assert_eq!(V::from(true).to_string(), "true");
    assert_eq!(V::from(()).to_string(), "()");
    assert_eq!(V::from(TupleType::new()).to_string(), "()");
    assert_eq!(V::from(TupleType::from([V::from_int(1)])).to_string(), "(1)");
    assert_eq!(
        V::from(TupleType::from([V::from_int(1), V::from_int(2)])).to_string(),
        "(1, 2)"
    );
    assert_eq!(
        V::from(TupleType::from([V::from(TupleType::new()), V::from("x")])).to_string(),
        "((), \"x\")"
    );
    assert_eq!(
        sample_tuple().to_string(),
        "(\"string\", 3.3, 3, (42, 4.2), (), true)"
    );
}

#[test]
fn predicates_agree_with_accessors() {
    let values = vec![
        V::from("s"),
        V::from_int(1),
        V::from_float(F64(1.5)),
        V::from(true),
        V::from(TupleType::from([V::from_int(1)])),
        V::from(()),
    ];
    for v in values.iter() {
        assert_eq!(v.is_string(), v.as_string().is_ok());
        assert_eq!(v.is_int(), v.as_int().is_ok());
        assert_eq!(v.is_float(), v.as_float().is_ok());
        assert_eq!(v.is_number(), v.as_number().is_ok());
        assert_eq!(v.is_boolean(), v.as_boolean().is_ok());
        assert_eq!(v.is_tuple(), v.as_tuple().is_ok());
        assert_eq!(v.is_empty(), v.as_empty().is_ok());
    }
}

#[test]
fn is_number_accepts_both_scalars() {
    assert!(V::from_int(3).is_number());
    assert!(V::from_float(F64(3.3)).is_number());
    assert!(!V::from("3").is_number());
    assert!(!V::from(()).is_number());
    assert!(V::from(()).is_empty());
    assert!(!V::from(TupleType::new()).is_empty());
}

#[test]
fn accessors_report_the_actual_value() {
    assert_eq!(
        V::from_int(3).as_string(),
        Err(EvalexprError::ExpectedString { actual: V::from_int(3) })
    );
    assert_eq!(
        V::from("x").as_int(),
        Err(EvalexprError::ExpectedInt { actual: V::from("x") })
    );
    assert_eq!(
        V::from_int(3).as_float(),
        Err(EvalexprError::ExpectedFloat { actual: V::from_int(3) })
    );
    assert_eq!(
        V::from(true).as_number(),
        Err(EvalexprError::ExpectedNumber { actual: V::from(true) })
    );
    assert_eq!(
        V::from(()).as_boolean(),
        Err(EvalexprError::ExpectedBoolean { actual: V::from(()) })
    );
    assert_eq!(
        sample_tuple().as_empty(),
        Err(EvalexprError::ExpectedEmpty { actual: sample_tuple() })
    );
    assert_eq!(
        V::from("x").as_tuple(),
        Err(EvalexprError::ExpectedTuple { actual: V::from("x") })
    );
    assert_eq!(V::from(()).as_empty(), Ok(()));
}

#[test]
fn as_number_converts_an_integer() {
    assert_eq!(V::from_int(3).as_number(), Ok(F64(3.0)));
    assert_eq!(V::from_float(F64(2.5)).as_number(), Ok(F64(2.5)));
    assert_eq!(V::from_int(-7).as_number(), Ok(F64(-7.0)));
}

#[test]
fn as_tuple_clones_every_element() {
    let t = sample_tuple();
    let elements = t.as_tuple().unwrap();
    assert_eq!(elements.len(), 6);
    assert_eq!(V::from(elements), sample_tuple());
    assert_eq!(t.clone(), sample_tuple());
}

#[test]
fn fixed_length_tuples() {
    let three = V::from(TupleType::from([V::from_int(1), V::from_int(2), V::from_int(3)]));
    assert_eq!(
        three.as_fixed_len_tuple(2),
        Err(EvalexprError::ExpectedFixedLengthTuple {
            expected_length: 2,
            actual: three.clone()
        })
    );
    assert_eq!(
        three.as_fixed_len_tuple(3),
        Ok(vec![V::from_int(1), V::from_int(2), V::from_int(3)])
    );
    assert_eq!(V::from(TupleType::new()).as_fixed_len_tuple(0), Ok(vec![]));
    assert_eq!(
        V::from_int(1).as_fixed_len_tuple(1),
        Err(EvalexprError::ExpectedTuple { actual: V::from_int(1) })
    );
}

#[test]
fn ranged_length_tuples() {
    let two = V::from(TupleType::from([V::from_int(1), V::from("b")]));
    assert_eq!(
        two.as_ranged_len_tuple(1..=3),
        Ok(vec![V::from_int(1), V::from("b")])
    );
    assert_eq!(two.as_ranged_len_tuple(2..=2), Ok(vec![V::from_int(1), V::from("b")]));
    assert_eq!(two.as_ranged_len_tuple(0..=2), Ok(vec![V::from_int(1), V::from("b")]));
    assert_eq!(
        two.as_ranged_len_tuple(3..=5),
        Err(EvalexprError::ExpectedRangedLengthTuple {
            expected_length: 3..=5,
            actual: two.clone()
        })
    );
    assert_eq!(
        two.as_ranged_len_tuple(0..=1),
        Err(EvalexprError::ExpectedRangedLengthTuple {
            expected_length: 0..=1,
            actual: two.clone()
        })
    );
    assert_eq!(
        V::from(()).as_ranged_len_tuple(0..=1),
        Err(EvalexprError::ExpectedTuple { actual: V::from(()) })
    );
}

#[test]
fn values_from_rust_values() {
    assert_eq!(V::from(String::from("s")), Value::String(String::from("s")));
    assert_eq!(V::from("s"), Value::String(String::from("s")));
    assert_eq!(V::from(false), Value::Boolean(false));
    assert_eq!(V::from(()), Value::Empty);
    assert_eq!(V::from(vec![V::from(())]), Value::Tuple(vec![Value::Empty]));
    assert_eq!(V::from_int(5), Value::Int(5));
    assert_eq!(V::from_float(F64(0.5)), Value::Float(F64(0.5)));
    let wrapped: Result<V, EvalexprError<DefaultNumericTypes>> = V::from_int(5).into();
    assert_eq!(wrapped, Ok(Value::Int(5)));
}

#[test]
fn rust_values_from_values() {
    assert_eq!(String::try_from(V::from("s")), Ok(String::from("s")));
    assert_eq!(
        String::try_from(V::from(true)),
        Err(EvalexprError::ExpectedString { actual: V::from(true) })
    );
    assert_eq!(bool::try_from(V::from(true)), Ok(true));
    assert_eq!(
        bool::try_from(V::from_int(1)),
        Err(EvalexprError::ExpectedBoolean { actual: V::from_int(1) })
    );
    assert_eq!(TupleType::try_from(V::from(vec![V::from_int(1)])), Ok(vec![V::from_int(1)]));
    assert_eq!(
        TupleType::try_from(V::from_int(1)),
        Err(EvalexprError::ExpectedTuple { actual: V::from_int(1) })
    );
    assert_eq!(<()>::try_from(V::from(())), Ok(()));
    assert_eq!(
        <()>::try_from(V::from("x")),
        Err(EvalexprError::ExpectedEmpty { actual: V::from("x") })
    );
}

#[test]
fn equality_is_structural() {
    assert_eq!(sample_tuple(), sample_tuple());
    assert_ne!(V::from_int(1), V::from_float(F64(1.0)));
    assert_ne!(V::from(()), V::from(TupleType::new()));
    assert_ne!(V::from("1"), V::from_int(1));
    assert_ne!(
        V::from(vec![V::from_int(1), V::from_int(2)]),
        V::from(vec![V::from_int(2), V::from_int(1)])
    );
}

#[test]
fn error_constructors() {
    type E = EvalexprError<DefaultNumericTypes>;
    assert_eq!(E::expected_string(V::from(())), E::ExpectedString { actual: V::from(()) });
    assert_eq!(E::expected_int(V::from(())), E::ExpectedInt { actual: V::from(()) });
    assert_eq!(E::expected_float(V::from(())), E::ExpectedFloat { actual: V::from(()) });
    assert_eq!(E::expected_number(V::from(())), E::ExpectedNumber { actual: V::from(()) });
    assert_eq!(E::expected_boolean(V::from(())), E::ExpectedBoolean { actual: V::from(()) });
    assert_eq!(E::expected_tuple(V::from(())), E::ExpectedTuple { actual: V::from(()) });
    assert_eq!(E::expected_empty(V::from(true)), E::ExpectedEmpty { actual: V::from(true) });
    assert_eq!(
        E::expected_fixed_len_tuple(2, V::from(())),
        E::ExpectedFixedLengthTuple { expected_length: 2, actual: V::from(()) }
    );
    assert_eq!(
        E::expected_ranged_len_tuple(1..=2, V::from(())),
        E::ExpectedRangedLengthTuple { expected_length: 1..=2, actual: V::from(()) }
    );
    assert_eq!(
        E::addition_error(V::from_int(1), V::from_int(2)),
        E::AdditionError { augend: V::from_int(1), addend: V::from_int(2) }
    );
    assert_eq!(
        E::subtraction_error(V::from_int(1), V::from_int(2)),
        E::SubtractionError { minuend: V::from_int(1), subtrahend: V::from_int(2) }
    );
    assert_eq!(
        E::negation_error(V::from_int(1)),
        E::NegationError { argument: V::from_int(1) }
    );
    assert_eq!(
        E::multiplication_error(V::from_int(1), V::from_int(2)),
        E::MultiplicationError { multiplicand: V::from_int(1), multiplier: V::from_int(2) }
    );
    assert_eq!(
        E::division_error(V::from_int(1), V::from_int(0)),
        E::DivisionError { dividend: V::from_int(1), divisor: V::from_int(0) }
    );
    assert_eq!(
        E::modulation_error(V::from_int(1), V::from_int(0)),
        E::ModulationError { dividend: V::from_int(1), divisor: V::from_int(0) }
    );
    assert_eq!(E::from_rand_error(RandNotEnabled), E::RandNotEnabled);
}

#[test]
fn random_without_a_source_fails() {
    assert_eq!(F64::random(), Err(RandNotEnabled));
    assert_eq!(
        F64::random().map_err(EvalexprError::<DefaultNumericTypes>::from_rand_error),
        Err(EvalexprError::RandNotEnabled)
    );
}
