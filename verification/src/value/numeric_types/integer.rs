//! What an integer must offer to serve in a backend, and `i64`, which offers it.

use vstd::prelude::*;
use vstd::string::StringExecFns;

verus! {

/// Why an operation on integers of type `I` failed. Each failure holds the operands it
/// failed on.
#[derive(Clone, Debug, PartialEq)]
pub enum IntError<I> {
    /// The sum of the two is not representable.
    Addition { augend: I, addend: I },
    /// The difference of the two is not representable.
    Subtraction { minuend: I, subtrahend: I },
    /// The negation of the argument is not representable.
    Negation { argument: I },
    /// The product of the two is not representable.
    Multiplication { multiplicand: I, multiplier: I },
    /// The divisor is zero, or the quotient is not representable.
    Division { dividend: I, divisor: I },
    /// The divisor is zero, or the quotient is not representable.
    Modulation { dividend: I, divisor: I },
    /// The argument has no representable absolute value.
    AbsOverflow { argument: I },
    /// The integer is negative or too large for a `usize`.
    IntIntoUsize { int: I },
    /// The `usize` is too large for the integer type.
    IntFromUsize { usize_int: usize },
}

/// The quotient of `a` by `b`, rounded towards zero. `b` is not zero.
pub open spec fn truncated_quotient(a: int, b: int) -> int
    recommends
        b != 0,
{
    if a >= 0 {
        if b > 0 {
            a / b
        } else {
            -(a / (-b))
        }
    } else {
        if b > 0 {
            -((-a) / b)
        } else {
            (-a) / (-b)
        }
    }
}

/// What is left of `a` after the truncated division by `b`. It has the sign of `a`.
pub open spec fn truncated_remainder(a: int, b: int) -> int
    recommends
        b != 0,
{
    a - b * truncated_quotient(a, b)
}

/// The value of the digit `c` in the given radix: `0`-`9`, then the letters in either
/// case.
pub open spec fn digit_value(c: char, radix: int) -> Option<int> {
    let d = if '0' <= c && c <= '9' {
        c as int - '0' as int
    } else if 'a' <= c && c <= 'z' {
        c as int - 'a' as int + 10
    } else if 'A' <= c && c <= 'Z' {
        c as int - 'A' as int + 10
    } else {
        radix
    };
    if d < radix {
        Some(d)
    } else {
        None
    }
}

/// The number that a non-empty run of digits writes in the given radix.
pub open spec fn digits_value(s: Seq<char>, radix: int) -> Option<int>
    decreases s.len(),
{
    if s.len() == 0 {
        None
    } else {
        match digit_value(s.last(), radix) {
            None => None,
            Some(d) => if s.len() == 1 {
                Some(d)
            } else {
                match digits_value(s.drop_last(), radix) {
                    None => None,
                    Some(high) => Some(high * radix + d),
                }
            },
        }
    }
}

/// The number that a literal writes: an optional `+` or `-`, then at least one digit,
/// and nothing else.
pub open spec fn literal_value(s: Seq<char>, radix: int) -> Option<int> {
    if s.len() > 0 && s[0] == '-' {
        match digits_value(s.skip(1), radix) {
            Some(v) => Some(-v),
            None => None,
        }
    } else if s.len() > 0 && s[0] == '+' {
        digits_value(s.skip(1), radix)
    } else {
        digits_value(s, radix)
    }
}

/// The decimal digits of a natural number, without leading zeros.
pub open spec fn decimal_digits(n: nat) -> Seq<char>
    decreases n,
{
    let last = (('0' as int + n % 10) as u8) as char;
    if n < 10 {
        seq![last]
    } else {
        decimal_digits(n / 10).push(last)
    }
}

/// The decimal text of an integer: a `-` for a negative one, then its digits.
pub open spec fn decimal_text(v: int) -> Seq<char> {
    if v < 0 {
        seq!['-'] + decimal_digits((-v) as nat)
    } else {
        decimal_digits(v as nat)
    }
}

/// The digits of a natural number write that number, and the first of them is a digit.
pub proof fn lemma_decimal_digits_value(n: nat)
    ensures
        decimal_digits(n).len() > 0,
        '0' <= decimal_digits(n)[0] <= '9',
        digits_value(decimal_digits(n), 10) == Some(n as int),
    decreases n,
{
    let last = (('0' as int + n % 10) as u8) as char;
    assert(digit_value(last, 10) == Some((n % 10) as int));
    if n >= 10 {
        lemma_decimal_digits_value(n / 10);
        let digits = decimal_digits(n);
        assert(digits.last() == last);
        assert(digits.drop_last() =~= decimal_digits(n / 10));
        assert(digits[0] == decimal_digits(n / 10)[0]);
    }
}

/// The decimal text of an integer is a literal that writes that integer: what is
/// displayed can be parsed again.
pub proof fn lemma_decimal_text_value(v: int)
    ensures
        literal_value(decimal_text(v), 10) == Some(v),
{
    if v < 0 {
        lemma_decimal_digits_value((-v) as nat);
        assert(decimal_text(v).skip(1) =~= decimal_digits((-v) as nat));
    } else {
        lemma_decimal_digits_value(v as nat);
    }
}

/// An integer type that a backend can use.
///
/// The type stands for a range of the mathematical integers. Every operation that can
/// leave the range says so in its result; none wraps silently, and none panics.
pub trait EvalexprInt:
    Sized + Clone + core::fmt::Debug + PartialEq + Eq + PartialOrd + Ord + Send + Sync
{
    /// The mathematical integer that `self` stands for. An implementation gives it a
    /// body; one that is not verified leaves it open.
    open spec fn value(&self) -> int {
        arbitrary()
    }

    /// The least integer of the type.
    open spec fn min_int() -> int {
        arbitrary()
    }

    /// The greatest integer of the type.
    open spec fn max_int() -> int {
        arbitrary()
    }

    /// Whether the type can hold `v`: whether `v` lies between the least and the
    /// greatest integer of the type.
    open spec fn representable(v: int) -> bool {
        Self::min_int() <= v <= Self::max_int()
    }

    /// The text in which the integer is displayed.
    open spec fn text(&self) -> Seq<char> {
        arbitrary()
    }

    /// The name of the type, as errors give it.
    open spec fn label() -> Seq<char> {
        arbitrary()
    }

    /// The name of the type, for errors that have to mention it.
    fn name() -> (r: &'static str)
        ensures
            r@ == Self::label(),
    ;

    /// The minimum value of the integer type.
    fn min_value() -> (r: Self)
        ensures
            r.value() == Self::min_int(),
    ;

    /// The maximum value of the integer type.
    fn max_value() -> (r: Self)
        ensures
            r.value() == Self::max_int(),
    ;

    /// A copy of `self`, equal to it in every respect.
    fn duplicate(&self) -> (r: Self)
        ensures
            r == *self,
    ;

    /// The text of `self`, as it is displayed.
    fn to_text(&self) -> (r: String)
        ensures
            r@ == self.text(),
    ;

    /// Parses a decimal literal. Fails on malformed input and on a number that the type
    /// cannot hold.
    fn from_decimal_str(literal: &str) -> (r: Result<Self, ()>)
        ensures
            match r {
                Ok(i) => literal_value(literal@, 10) == Some(i.value()) && Self::representable(
                    i.value(),
                ),
                Err(_) => match literal_value(literal@, 10) {
                    Some(v) => !Self::representable(v),
                    None => true,
                },
            },
    ;

    /// Converts a `usize` into `Self`. Unless an implementation has its own way, the
    /// number goes through `u128`.
    fn from_usize(i: usize) -> (r: Result<Self, IntError<Self>>)
        ensures
            match r {
                Ok(v) => v.value() == i && Self::representable(i as int),
                Err(e) => !Self::representable(i as int) && e == (IntError::<
                    Self,
                >::IntFromUsize { usize_int: i }),
            },
    {
        match Self::from_u128(i as u128) {
            Some(v) => Ok(v),
            None => Err(IntError::IntFromUsize { usize_int: i }),
        }
    }

    /// Converts `self` into a `usize`. Unless an implementation has its own way, the
    /// number goes through `u128`.
    fn into_usize(self) -> (r: Result<usize, IntError<Self>>)
        ensures
            match r {
                Ok(u) => u == self.value(),
                Err(e) => !(0 <= self.value() <= usize::MAX) && e == (IntError::IntIntoUsize {
                    int: self,
                }),
            },
    {
        match self.to_u128() {
            Some(n) => if n <= usize::MAX as u128 {
                Ok(n as usize)
            } else {
                Err(IntError::IntIntoUsize { int: self })
            },
            None => Err(IntError::IntIntoUsize { int: self }),
        }
    }

    /// Parses a hexadecimal literal. Fails on malformed input and on a number that the
    /// type cannot hold.
    fn from_hex_str(literal: &str) -> (r: Result<Self, ()>)
        ensures
            match r {
                Ok(i) => literal_value(literal@, 16) == Some(i.value()) && Self::representable(
                    i.value(),
                ),
                Err(_) => match literal_value(literal@, 16) {
                    Some(v) => !Self::representable(v),
                    None => true,
                },
            },
    ;

    /// The sum, or an error that holds both operands where the type cannot hold the sum.
    fn checked_add(&self, rhs: &Self) -> (r: Result<Self, IntError<Self>>)
        ensures
            match r {
                Ok(v) => v.value() == self.value() + rhs.value() && Self::representable(
                    v.value(),
                ),
                Err(e) => !Self::representable(self.value() + rhs.value()) && e == (
                IntError::Addition { augend: *self, addend: *rhs }),
            },
    ;

    /// The difference, or an error that holds both operands where the type cannot hold
    /// the difference.
    fn checked_sub(&self, rhs: &Self) -> (r: Result<Self, IntError<Self>>)
        ensures
            match r {
                Ok(v) => v.value() == self.value() - rhs.value() && Self::representable(
                    v.value(),
                ),
                Err(e) => !Self::representable(self.value() - rhs.value()) && e == (
                IntError::Subtraction { minuend: *self, subtrahend: *rhs }),
            },
    ;

    /// The negation, or an error that holds the operand where the type cannot hold the
    /// negation.
    fn checked_neg(&self) -> (r: Result<Self, IntError<Self>>)
        ensures
            match r {
                Ok(v) => v.value() == -self.value() && Self::representable(v.value()),
                Err(e) => !Self::representable(-self.value()) && e == (IntError::Negation {
                    argument: *self,
                }),
            },
    ;

    /// The product, or an error that holds both operands where the type cannot hold the
    /// product.
    fn checked_mul(&self, rhs: &Self) -> (r: Result<Self, IntError<Self>>)
        ensures
            match r {
                Ok(v) => v.value() == self.value() * rhs.value() && Self::representable(
                    v.value(),
                ),
                Err(e) => !Self::representable(self.value() * rhs.value()) && e == (
                IntError::Multiplication { multiplicand: *self, multiplier: *rhs }),
            },
    ;

    /// The quotient, rounded towards zero, or an error that holds both operands where
    /// the divisor is zero or the type cannot hold the quotient.
    fn checked_div(&self, rhs: &Self) -> (r: Result<Self, IntError<Self>>)
        ensures
            match r {
                Ok(v) => rhs.value() != 0 && v.value() == truncated_quotient(
                    self.value(),
                    rhs.value(),
                ) && Self::representable(v.value()),
                Err(e) => (rhs.value() == 0 || !Self::representable(
                    truncated_quotient(self.value(), rhs.value()),
                )) && e == (IntError::Division { dividend: *self, divisor: *rhs }),
            },
    ;

    /// The remainder of the division that rounds towards zero, or an error that holds
    /// both operands where the divisor is zero or the type cannot hold the quotient.
    fn checked_rem(&self, rhs: &Self) -> (r: Result<Self, IntError<Self>>)
        ensures
            match r {
                Ok(v) => rhs.value() != 0 && v.value() == truncated_remainder(
                    self.value(),
                    rhs.value(),
                ) && Self::representable(truncated_quotient(self.value(), rhs.value())),
                Err(e) => (rhs.value() == 0 || !Self::representable(
                    truncated_quotient(self.value(), rhs.value()),
                )) && e == (IntError::Modulation { dividend: *self, divisor: *rhs }),
            },
    ;

    /// The absolute value, or an error that holds the operand where the type cannot hold
    /// it.
    fn abs(&self) -> (r: Result<Self, IntError<Self>>)
        ensures
            match r {
                Ok(v) => v.value() == (if self.value() < 0 {
                    -self.value()
                } else {
                    self.value()
                }) && Self::representable(v.value()),
                Err(e) => self.value() < 0 && !Self::representable(-self.value()) && e == (
                IntError::AbsOverflow { argument: *self }),
            },
    ;

    /// `self` as an `i128`, or nothing where it does not fit.
    fn to_i128(&self) -> (r: Option<i128>)
        ensures
            r == (if i128::MIN <= self.value() <= i128::MAX {
                Some(self.value() as i128)
            } else {
                None
            }),
    ;

    /// `self` as a `u128`, or nothing where it does not fit.
    fn to_u128(&self) -> (r: Option<u128>)
        ensures
            r == (if 0 <= self.value() <= u128::MAX {
                Some(self.value() as u128)
            } else {
                None
            }),
    ;

    /// The integer of this type that equals `n`, or nothing where the type cannot hold it.
    fn from_i128(n: i128) -> (r: Option<Self>)
        ensures
            match r {
                Some(v) => v.value() == n && Self::representable(n as int),
                None => !Self::representable(n as int),
            },
    ;

    /// The integer of this type that equals `n`, or nothing where the type cannot hold it.
    fn from_u128(n: u128) -> (r: Option<Self>)
        ensures
            match r {
                Some(v) => v.value() == n && Self::representable(n as int),
                None => !Self::representable(n as int),
            },
    ;

    /// Bitwise and.
    fn bitand(&self, rhs: &Self) -> Self;

    /// Bitwise or.
    fn bitor(&self, rhs: &Self) -> Self;

    /// Bitwise exclusive or.
    fn bitxor(&self, rhs: &Self) -> Self;

    /// Bitwise complement.
    fn not(&self) -> Self;

    /// Shift to the left. What a shift by the type's width or more gives is the
    /// implementation's choice.
    fn shl(&self, rhs: &Self) -> Self;

    /// Shift to the right. What a shift by the type's width or more gives is the
    /// implementation's choice.
    fn shr(&self, rhs: &Self) -> Self;
}

/// `i64::from_str_radix` of std: the number that the literal writes in the given
/// radix, where the literal is an optional sign and at least one digit and the number
/// fits an `i64`; nothing otherwise. std panics on a radix outside 2 to 36.
#[verifier::external_body]
fn parse_i64(literal: &str, radix: u32) -> (r: Option<i64>)
    requires
        2 <= radix <= 36,
    ensures
        r == match literal_value(literal@, radix as int) {
            Some(v) => if i64::MIN <= v <= i64::MAX {
                Some(v as i64)
            } else {
                None
            },
            None => None,
        },
{
    i64::from_str_radix(literal, radix).ok()
}

/// The character of a decimal digit, as a string.
fn digit_str(d: u64) -> (r: &'static str)
    requires
        d < 10,
    ensures
        r@ == seq![(('0' as int + d) as u8) as char],
{
    proof {
        reveal_strlit("0");
        reveal_strlit("1");
        reveal_strlit("2");
        reveal_strlit("3");
        reveal_strlit("4");
        reveal_strlit("5");
        reveal_strlit("6");
        reveal_strlit("7");
        reveal_strlit("8");
        reveal_strlit("9");
    }
    let r = if d == 0 {
        "0"
    } else if d == 1 {
        "1"
    } else if d == 2 {
        "2"
    } else if d == 3 {
        "3"
    } else if d == 4 {
        "4"
    } else if d == 5 {
        "5"
    } else if d == 6 {
        "6"
    } else if d == 7 {
        "7"
    } else if d == 8 {
        "8"
    } else {
        "9"
    };
    assert(r@ =~= seq![(('0' as int + d) as u8) as char]);
    r
}

/// The decimal digits of `n`, without leading zeros.
fn digits_of(n: u64) -> (r: String)
    ensures
        r@ == decimal_digits(n as nat),
    decreases n,
{
    if n < 10 {
        String::from_str(digit_str(n))
    } else {
        let mut high = digits_of(n / 10);
        high.append(digit_str(n % 10));
        assert(high@ =~= decimal_digits(n as nat));
        high
    }
}

/// The decimal text of `i`: a `-` before a negative number, then the digits.
fn display_i64(i: i64) -> (r: String)
    ensures
        r@ == decimal_text(i as int),
{
    if i < 0 {
        proof {
            reveal_strlit("-");
        }
        let magnitude: u64 = if i == i64::MIN {
            9223372036854775808u64
        } else {
            (-i) as u64
        };
        let mut out = String::from_str("-");
        let digits = digits_of(magnitude);
        out.append(digits.as_str());
        assert(out@ =~= decimal_text(i as int));
        out
    } else {
        digits_of(i as u64)
    }
}

/// `ToPrimitive::to_i128` of num_traits on an `i64`: always the same number.
#[verifier::external_body]
fn i64_to_i128(i: i64) -> (r: Option<i128>)
    ensures
        r == Some(i as i128),
{
    num_traits::ToPrimitive::to_i128(&i)
}

/// `ToPrimitive::to_u128` of num_traits on an `i64`: the same number, or nothing for a
/// negative one.
#[verifier::external_body]
fn i64_to_u128(i: i64) -> (r: Option<u128>)
    ensures
        r == (if i >= 0 {
            Some(i as u128)
        } else {
            None
        }),
{
    num_traits::ToPrimitive::to_u128(&i)
}

/// `cast` of num_traits from `i128` to `i64`: the same number where it lies in the
/// range of `i64`, nothing otherwise.
#[verifier::external_body]
fn i64_from_i128(n: i128) -> (r: Option<i64>)
    ensures
        r == (if i64::MIN <= n <= i64::MAX {
            Some(n as i64)
        } else {
            None
        }),
{
    num_traits::cast::<i128, i64>(n)
}

/// `cast` of num_traits from `u128` to `i64`: the same number where it is at most the
/// greatest `i64`, nothing otherwise.
#[verifier::external_body]
fn i64_from_u128(n: u128) -> (r: Option<i64>)
    ensures
        r == (if n <= i64::MAX {
            Some(n as i64)
        } else {
            None
        }),
{
    num_traits::cast::<u128, i64>(n)
}

/// The quotient that rounds towards zero is no larger in magnitude than the dividend,
/// as large only where the divisor is 1 or -1, and has the sign of the two together.
pub proof fn lemma_truncated_quotient_bounds(a: int, b: int)
    requires
        b != 0,
    ensures
        a >= 0 ==> -a <= truncated_quotient(a, b) <= a,
        a < 0 ==> a <= truncated_quotient(a, b) <= -a,
        (a >= 0) == (b > 0) ==> truncated_quotient(a, b) >= 0,
        (a >= 0) != (b > 0) ==> truncated_quotient(a, b) <= 0,
        a != 0 && b != 1 && b != -1 ==> truncated_quotient(a, b) != a && truncated_quotient(a, b)
            != -a,
        b == -1 ==> truncated_quotient(a, b) == -a,
        b == 1 ==> truncated_quotient(a, b) == a,
{
    let m = if a >= 0 {
        a
    } else {
        -a
    };
    let d = if b > 0 {
        b
    } else {
        -b
    };
    assert(0 <= m / d <= m) by (nonlinear_arith)
        requires
            m >= 0,
            d >= 1,
    ;
    if d == 1 {
        assert(m / d == m) by (nonlinear_arith)
            requires
                d == 1,
        ;
    } else if m > 0 {
        assert(m / d < m) by (nonlinear_arith)
            requires
                m > 0,
                d >= 2,
        ;
    }
}

/// The remainder of the division that rounds towards zero, by cases on the signs.
pub proof fn lemma_truncated_remainder_cases(a: int, b: int)
    requires
        b != 0,
    ensures
        a >= 0 && b > 0 ==> truncated_remainder(a, b) == a % b,
        a >= 0 && b < 0 ==> truncated_remainder(a, b) == a % (-b),
        a < 0 && b > 0 ==> truncated_remainder(a, b) == -((-a) % b),
        a < 0 && b < 0 ==> truncated_remainder(a, b) == -((-a) % (-b)),
{
    let m = if a >= 0 {
        a
    } else {
        -a
    };
    let d = if b > 0 {
        b
    } else {
        -b
    };
    assert(m == d * (m / d) + m % d) by (nonlinear_arith)
        requires
            d >= 1,
    ;
    assert((-d) * (m / d) == -(d * (m / d))) by (nonlinear_arith);
    assert(d * (-(m / d)) == -(d * (m / d))) by (nonlinear_arith);
    assert((-d) * (-(m / d)) == d * (m / d)) by (nonlinear_arith);
}

impl EvalexprInt for i64 {
    open spec fn value(&self) -> int {
        *self as int
    }

    open spec fn min_int() -> int {
        i64::MIN as int
    }

    open spec fn max_int() -> int {
        i64::MAX as int
    }

    open spec fn text(&self) -> Seq<char> {
        decimal_text(*self as int)
    }

    open spec fn label() -> Seq<char> {
        "i64"@
    }

    fn name() -> (r: &'static str) {
        "i64"
    }

    fn min_value() -> (r: Self)
        ensures
            r == i64::MIN,
    {
        i64::MIN
    }

    fn max_value() -> (r: Self)
        ensures
            r == i64::MAX,
    {
        i64::MAX
    }

    fn duplicate(&self) -> (r: Self) {
        *self
    }

    fn to_text(&self) -> (r: String) {
        display_i64(*self)
    }

    fn from_decimal_str(literal: &str) -> (r: Result<Self, ()>)
        ensures
            r is Ok <==> (literal_value(literal@, 10) is Some && Self::representable(
                literal_value(literal@, 10)->Some_0,
            )),
    {
        match parse_i64(literal, 10) {
            Some(i) => Ok(i),
            None => Err(()),
        }
    }

    fn from_usize(i: usize) -> (r: Result<Self, IntError<Self>>)
        ensures
            r is Ok <==> i <= i64::MAX,
    {
        if i as u64 <= i64::MAX as u64 {
            Ok(i as i64)
        } else {
            Err(IntError::IntFromUsize { usize_int: i })
        }
    }

    fn into_usize(self) -> (r: Result<usize, IntError<Self>>)
        ensures
            r is Ok <==> 0 <= self <= usize::MAX,
    {
        if self >= 0 && self as u64 <= usize::MAX as u64 {
            Ok(self as usize)
        } else {
            Err(IntError::IntIntoUsize { int: self })
        }
    }

    fn from_hex_str(literal: &str) -> (r: Result<Self, ()>)
        ensures
            r is Ok <==> (literal_value(literal@, 16) is Some && Self::representable(
                literal_value(literal@, 16)->Some_0,
            )),
    {
        match parse_i64(literal, 16) {
            Some(i) => Ok(i),
            None => Err(()),
        }
    }

    fn checked_add(&self, rhs: &Self) -> (r: Result<Self, IntError<Self>>)
        ensures
            r is Ok <==> i64::MIN <= *self + *rhs <= i64::MAX,
    {
        match (*self).checked_add(*rhs) {
            Some(v) => Ok(v),
            None => Err(IntError::Addition { augend: *self, addend: *rhs }),
        }
    }

    fn checked_sub(&self, rhs: &Self) -> (r: Result<Self, IntError<Self>>)
        ensures
            r is Ok <==> i64::MIN <= *self - *rhs <= i64::MAX,
    {
        match (*self).checked_sub(*rhs) {
            Some(v) => Ok(v),
            None => Err(IntError::Subtraction { minuend: *self, subtrahend: *rhs }),
        }
    }

    fn checked_neg(&self) -> (r: Result<Self, IntError<Self>>)
        ensures
            r is Ok <==> *self != i64::MIN,
    {
        if *self == i64::MIN {
            Err(IntError::Negation { argument: *self })
        } else {
            Ok(-*self)
        }
    }

    fn checked_mul(&self, rhs: &Self) -> (r: Result<Self, IntError<Self>>)
        ensures
            r is Ok <==> i64::MIN <= *self * *rhs <= i64::MAX,
    {
        match (*self).checked_mul(*rhs) {
            Some(v) => Ok(v),
            None => Err(IntError::Multiplication { multiplicand: *self, multiplier: *rhs }),
        }
    }

    fn checked_div(&self, rhs: &Self) -> (r: Result<Self, IntError<Self>>)
        ensures
            r is Ok <==> *rhs != 0 && !(*self == i64::MIN && *rhs == -1),
    {
        proof {
            if *rhs != 0 {
                lemma_truncated_quotient_bounds(*self as int, *rhs as int);
            }
        }
        match (*self).checked_div(*rhs) {
            Some(v) => Ok(v),
            None => Err(IntError::Division { dividend: *self, divisor: *rhs }),
        }
    }

    fn checked_rem(&self, rhs: &Self) -> (r: Result<Self, IntError<Self>>)
        ensures
            r is Ok <==> *rhs != 0 && !(*self == i64::MIN && *rhs == -1),
    {
        proof {
            if *rhs != 0 {
                lemma_truncated_quotient_bounds(*self as int, *rhs as int);
                lemma_truncated_remainder_cases(*self as int, *rhs as int);
            }
        }
        match (*self).checked_rem(*rhs) {
            Some(v) => Ok(v),
            None => Err(IntError::Modulation { dividend: *self, divisor: *rhs }),
        }
    }

    fn abs(&self) -> (r: Result<Self, IntError<Self>>)
        ensures
            r is Ok <==> *self != i64::MIN,
    {
        if *self == i64::MIN {
            Err(IntError::AbsOverflow { argument: *self })
        } else if *self < 0 {
            Ok(-*self)
        } else {
            Ok(*self)
        }
    }

    fn to_i128(&self) -> (r: Option<i128>) {
        i64_to_i128(*self)
    }

    fn to_u128(&self) -> (r: Option<u128>) {
        i64_to_u128(*self)
    }

    fn from_i128(n: i128) -> (r: Option<Self>)
        ensures
            r is Some <==> i64::MIN <= n <= i64::MAX,
    {
        i64_from_i128(n)
    }

    fn from_u128(n: u128) -> (r: Option<Self>)
        ensures
            r is Some <==> n <= i64::MAX,
    {
        i64_from_u128(n)
    }

    fn bitand(&self, rhs: &Self) -> (r: Self)
        ensures
            r == *self & *rhs,
    {
        *self & *rhs
    }

    fn bitor(&self, rhs: &Self) -> (r: Self)
        ensures
            r == *self | *rhs,
    {
        *self | *rhs
    }

    fn bitxor(&self, rhs: &Self) -> (r: Self)
        ensures
            r == *self ^ *rhs,
    {
        *self ^ *rhs
    }

    fn not(&self) -> (r: Self)
        ensures
            r == !*self,
    {
        !*self
    }

    /// Shifts by the low six bits of `rhs`, as the machine does.
    fn shl(&self, rhs: &Self) -> (r: Self)
        ensures
            r == *self << ((*rhs & 63) as u32),
    {
        let amount: i64 = *rhs & 63;
        assert(0 <= amount < 64) by (bit_vector)
            requires
                amount == *rhs & 63,
        ;
        (*self).wrapping_shl(amount as u32)
    }

    /// Shifts by the low six bits of `rhs`, as the machine does, and keeps the sign.
    fn shr(&self, rhs: &Self) -> (r: Self)
        ensures
            r == *self >> ((*rhs & 63) as u32),
    {
        let amount: i64 = *rhs & 63;
        assert(0 <= amount < 64) by (bit_vector)
            requires
                amount == *rhs & 63,
        ;
        (*self).wrapping_shr(amount as u32)
    }
}

} // verus!
