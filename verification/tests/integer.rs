use evalexpr::{EvalexprInt, IntError};

fn add(a: i64, b: i64) -> Result<i64, IntError<i64>> {
    <i64 as EvalexprInt>::checked_add(&a, &b)
}

fn sub(a: i64, b: i64) -> Result<i64, IntError<i64>> {
    <i64 as EvalexprInt>::checked_sub(&a, &b)
}

fn mul(a: i64, b: i64) -> Result<i64, IntError<i64>> {
    <i64 as EvalexprInt>::checked_mul(&a, &b)
}

fn div(a: i64, b: i64) -> Result<i64, IntError<i64>> {
    <i64 as EvalexprInt>::checked_div(&a, &b)
}

fn rem(a: i64, b: i64) -> Result<i64, IntError<i64>> {
    <i64 as EvalexprInt>::checked_rem(&a, &b)
}

fn neg(a: i64) -> Result<i64, IntError<i64>> {
    <i64 as EvalexprInt>::checked_neg(&a)
}

fn abs(a: i64) -> Result<i64, IntError<i64>> {
    <i64 as EvalexprInt>::abs(&a)
}

fn hex(s: &str) -> Result<i64, ()> {
    <i64 as EvalexprInt>::from_hex_str(s)
}

fn dec(s: &str) -> Result<i64, ()> {
    <i64 as EvalexprInt>::from_decimal_str(s)
}

#[test]
fn limits_of_the_type() {
    assert_eq!(<i64 as EvalexprInt>::min_value(), i64::MIN);
    assert_eq!(<i64 as EvalexprInt>::max_value(), i64::MAX);
    assert_eq!(<i64 as EvalexprInt>::name(), "i64");
}

#[test]
fn addition_is_exact_or_fails() {
    assert_eq!(add(2, 3), Ok(5));
    assert_eq!(add(-2, -3), Ok(-5));
    assert_eq!(add(i64::MAX, 0), Ok(i64::MAX));
    assert_eq!(add(i64::MAX - 1, 1), Ok(i64::MAX));
    assert_eq!(add(i64::MIN, i64::MAX), Ok(-1));
    assert_eq!(
        add(i64::MAX, 1),
        Err(IntError::Addition { augend: i64::MAX, addend: 1 })
    );
    assert_eq!(
        add(i64::MIN, -1),
        Err(IntError::Addition { augend: i64::MIN, addend: -1 })
    );
}

#[test]
fn subtraction_is_exact_or_fails() {
    assert_eq!(sub(2, 3), Ok(-1));
    assert_eq!(sub(i64::MIN + 1, 1), Ok(i64::MIN));
    assert_eq!(sub(-1, i64::MAX), Ok(i64::MIN));
    assert_eq!(
        sub(i64::MIN, 1),
        Err(IntError::Subtraction { minuend: i64::MIN, subtrahend: 1 })
    );
    assert_eq!(
        sub(0, i64::MIN),
        Err(IntError::Subtraction { minuend: 0, subtrahend: i64::MIN })
    );
}

#[test]
fn negation_is_exact_or_fails() {
    assert_eq!(neg(5), Ok(-5));
    assert_eq!(neg(0), Ok(0));
    assert_eq!(neg(i64::MAX), Ok(i64::MIN + 1));
    assert_eq!(neg(i64::MIN), Err(IntError::Negation { argument: i64::MIN }));
}

#[test]
fn multiplication_is_exact_or_fails() {
    assert_eq!(mul(6, 7), Ok(42));
    assert_eq!(mul(-6, 7), Ok(-42));
    assert_eq!(mul(i64::MAX, 1), Ok(i64::MAX));
    assert_eq!(mul(i64::MIN, 1), Ok(i64::MIN));
    assert_eq!(mul(1 << 31, 1 << 31), Ok(1 << 62));
    assert_eq!(
        mul(i64::MAX, 2),
        Err(IntError::Multiplication { multiplicand: i64::MAX, multiplier: 2 })
    );
    assert_eq!(
        mul(i64::MIN, -1),
        Err(IntError::Multiplication { multiplicand: i64::MIN, multiplier: -1 })
    );
}

#[test]
fn division_rounds_towards_zero() {
    assert_eq!(div(7, 2), Ok(3));
    assert_eq!(div(-7, 2), Ok(-3));
    assert_eq!(div(7, -2), Ok(-3));
    assert_eq!(div(-7, -2), Ok(3));
    assert_eq!(div(0, 5), Ok(0));
    assert_eq!(div(i64::MIN, 1), Ok(i64::MIN));
    assert_eq!(div(i64::MAX, -1), Ok(i64::MIN + 1));
}

#[test]
fn division_by_zero_fails() {
    assert_eq!(div(1, 0), Err(IntError::Division { dividend: 1, divisor: 0 }));
    assert_eq!(div(0, 0), Err(IntError::Division { dividend: 0, divisor: 0 }));
    assert_eq!(
        div(i64::MIN, -1),
        Err(IntError::Division { dividend: i64::MIN, divisor: -1 })
    );
}

#[test]
fn remainder_has_the_sign_of_the_dividend() {
    assert_eq!(rem(7, 2), Ok(1));
    assert_eq!(rem(-7, 2), Ok(-1));
    assert_eq!(rem(7, -2), Ok(1));
    assert_eq!(rem(-7, -2), Ok(-1));
    assert_eq!(rem(6, 3), Ok(0));
    assert_eq!(rem(i64::MIN, 2), Ok(0));
    assert_eq!(rem(i64::MAX, i64::MIN), Ok(i64::MAX));
}

#[test]
fn remainder_by_zero_fails() {
    assert_eq!(rem(1, 0), Err(IntError::Modulation { dividend: 1, divisor: 0 }));
    assert_eq!(
        rem(i64::MIN, -1),
        Err(IntError::Modulation { dividend: i64::MIN, divisor: -1 })
    );
}

#[test]
fn absolute_value_fails_on_the_minimum() {
    assert_eq!(abs(5), Ok(5));
    assert_eq!(abs(-5), Ok(5));
    assert_eq!(abs(0), Ok(0));
    assert_eq!(abs(i64::MIN + 1), Ok(i64::MAX));
    assert_eq!(abs(i64::MIN), Err(IntError::AbsOverflow { argument: i64::MIN }));
}

#[test]
fn index_conversions() {
    assert_eq!(<i64 as EvalexprInt>::from_usize(0), Ok(0));
    assert_eq!(<i64 as EvalexprInt>::from_usize(42), Ok(42));
    assert_eq!(
        <i64 as EvalexprInt>::from_usize(i64::MAX as usize),
        Ok(i64::MAX)
    );
    assert_eq!(
        <i64 as EvalexprInt>::from_usize(usize::MAX),
        Err(IntError::IntFromUsize { usize_int: usize::MAX })
    );
    assert_eq!(<i64 as EvalexprInt>::into_usize(0), Ok(0));
    assert_eq!(<i64 as EvalexprInt>::into_usize(42), Ok(42));
    assert_eq!(
        <i64 as EvalexprInt>::into_usize(i64::MAX),
        Ok(i64::MAX as usize)
    );
    assert_eq!(
        <i64 as EvalexprInt>::into_usize(-1),
        Err(IntError::IntIntoUsize { int: -1 })
    );
    assert_eq!(
        <i64 as EvalexprInt>::into_usize(i64::MIN),
        Err(IntError::IntIntoUsize { int: i64::MIN })
    );
}

#[test]
fn hexadecimal_literals() {
    assert_eq!(hex("0"), Ok(0));
    assert_eq!(hex("ff"), Ok(255));
    assert_eq!(hex("FF"), Ok(255));
    assert_eq!(hex("fF"), Ok(255));
    assert_eq!(hex("10"), Ok(16));
    assert_eq!(hex("-10"), Ok(-16));
    assert_eq!(hex("+1a"), Ok(26));
    assert_eq!(hex("0010"), Ok(16));
    assert_eq!(hex("7fffffffffffffff"), Ok(i64::MAX));
    assert_eq!(hex("-8000000000000000"), Ok(i64::MIN));
    assert_eq!(hex("8000000000000000"), Err(()));
    assert_eq!(hex("-8000000000000001"), Err(()));
    assert_eq!(hex(""), Err(()));
    assert_eq!(hex("-"), Err(()));
    assert_eq!(hex("+"), Err(()));
    assert_eq!(hex("0x10"), Err(()));
    assert_eq!(hex("g"), Err(()));
    assert_eq!(hex(" 1"), Err(()));
    assert_eq!(hex("1 "), Err(()));
    assert_eq!(hex("--1"), Err(()));
}

#[test]
fn decimal_literals() {
    assert_eq!(dec("0"), Ok(0));
    assert_eq!(dec("42"), Ok(42));
    assert_eq!(dec("-42"), Ok(-42));
    assert_eq!(dec("+42"), Ok(42));
    assert_eq!(dec("007"), Ok(7));
    assert_eq!(dec("9223372036854775807"), Ok(i64::MAX));
    assert_eq!(dec("-9223372036854775808"), Ok(i64::MIN));
    assert_eq!(dec("9223372036854775808"), Err(()));
    assert_eq!(dec("ff"), Err(()));
    assert_eq!(dec("1.5"), Err(()));
    assert_eq!(dec(""), Err(()));
}

#[test]
fn decimal_text() {
    assert_eq!(<i64 as EvalexprInt>::to_text(&0), "0");
    assert_eq!(<i64 as EvalexprInt>::to_text(&7), "7");
    assert_eq!(<i64 as EvalexprInt>::to_text(&10), "10");
    assert_eq!(<i64 as EvalexprInt>::to_text(&-305), "-305");
    assert_eq!(<i64 as EvalexprInt>::to_text(&i64::MAX), "9223372036854775807");
    assert_eq!(<i64 as EvalexprInt>::to_text(&i64::MIN), "-9223372036854775808");
}

#[test]
fn text_and_literal_agree() {
    for i in [0i64, 1, -1, 9, 10, 99, 100, -100, i64::MAX, i64::MIN] {
        assert_eq!(dec(&<i64 as EvalexprInt>::to_text(&i)), Ok(i));
    }
}

#[test]
fn duplicate_is_the_same_integer() {
    assert_eq!(<i64 as EvalexprInt>::duplicate(&17), 17);
    assert_eq!(<i64 as EvalexprInt>::duplicate(&i64::MIN), i64::MIN);
}

#[test]
fn exchange_through_wide_integers() {
    assert_eq!(<i64 as EvalexprInt>::to_i128(&-5), Some(-5i128));
    assert_eq!(<i64 as EvalexprInt>::to_i128(&i64::MIN), Some(i64::MIN as i128));
    assert_eq!(<i64 as EvalexprInt>::to_u128(&5), Some(5u128));
    assert_eq!(<i64 as EvalexprInt>::to_u128(&0), Some(0u128));
    assert_eq!(<i64 as EvalexprInt>::to_u128(&-1), None);
    assert_eq!(<i64 as EvalexprInt>::from_i128(12), Some(12));
    assert_eq!(<i64 as EvalexprInt>::from_i128(i64::MIN as i128), Some(i64::MIN));
    assert_eq!(<i64 as EvalexprInt>::from_i128(i64::MAX as i128), Some(i64::MAX));
    assert_eq!(<i64 as EvalexprInt>::from_i128(i64::MAX as i128 + 1), None);
    assert_eq!(<i64 as EvalexprInt>::from_i128(i64::MIN as i128 - 1), None);
    assert_eq!(<i64 as EvalexprInt>::from_u128(12), Some(12));
    assert_eq!(<i64 as EvalexprInt>::from_u128(i64::MAX as u128), Some(i64::MAX));
    assert_eq!(<i64 as EvalexprInt>::from_u128(i64::MAX as u128 + 1), None);
    assert_eq!(<i64 as EvalexprInt>::from_u128(u128::MAX), None);
}

#[test]
fn bitwise_operations() {
    assert_eq!(<i64 as EvalexprInt>::bitand(&0b1100, &0b1010), 0b1000);
    assert_eq!(<i64 as EvalexprInt>::bitor(&0b1100, &0b1010), 0b1110);
    assert_eq!(<i64 as EvalexprInt>::bitxor(&0b1100, &0b1010), 0b0110);
    assert_eq!(<i64 as EvalexprInt>::not(&0), -1);
    assert_eq!(<i64 as EvalexprInt>::not(&i64::MAX), i64::MIN);
    assert_eq!(<i64 as EvalexprInt>::bitand(&-1, &i64::MIN), i64::MIN);
}

#[test]
fn shifts_use_the_low_six_bits() {
    assert_eq!(<i64 as EvalexprInt>::shl(&1, &3), 8);
    assert_eq!(<i64 as EvalexprInt>::shl(&1, &63), i64::MIN);
    assert_eq!(<i64 as EvalexprInt>::shl(&1, &64), 1);
    assert_eq!(<i64 as EvalexprInt>::shl(&1, &65), 2);
    assert_eq!(<i64 as EvalexprInt>::shl(&1, &-1), i64::MIN);
    assert_eq!(<i64 as EvalexprInt>::shl(&-1, &1), -2);
    assert_eq!(<i64 as EvalexprInt>::shr(&8, &3), 1);
    assert_eq!(<i64 as EvalexprInt>::shr(&-8, &1), -4);
    assert_eq!(<i64 as EvalexprInt>::shr(&-1, &63), -1);
    assert_eq!(<i64 as EvalexprInt>::shr(&8, &64), 8);
    assert_eq!(<i64 as EvalexprInt>::shr(&8, &67), 1);
    assert_eq!(<i64 as EvalexprInt>::shr(&i64::MIN, &-1), -1);
}
