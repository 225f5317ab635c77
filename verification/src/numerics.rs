//! The Lox number type: an IEEE-754 binary64 value, held as its 64 bit
//! pattern.  Sign tests, equality and ordering are defined here directly
//! over the bit pattern; rounding arithmetic, decimal parsing and decimal
//! formatting rely on the `rustc_apfloat` software implementation of the
//! same format.
use rustc_apfloat::Float;
use vstd::prelude::*;

verus! {

pub const SIGN_MASK: u64 = 0x8000_0000_0000_0000;

pub const MAG_MASK: u64 = 0x7FFF_FFFF_FFFF_FFFF;

/// Bit pattern of positive infinity; every larger magnitude is a NaN.
pub const INF_BITS: u64 = 0x7FF0_0000_0000_0000;

/// Bit pattern of -1.0, the factor the evaluator uses for unary minus.
pub const MINUS_ONE_BITS: u64 = 0xBFF0_0000_0000_0000;

pub open spec fn num_sign(b: u64) -> bool {
    b & SIGN_MASK != 0
}

pub open spec fn num_magnitude(b: u64) -> u64 {
    b & MAG_MASK
}

pub open spec fn num_is_nan(b: u64) -> bool {
    num_magnitude(b) > INF_BITS
}

pub open spec fn num_is_infinite(b: u64) -> bool {
    num_magnitude(b) == INF_BITS
}

pub open spec fn num_is_zero(b: u64) -> bool {
    num_magnitude(b) == 0
}

/// IEEE-754 equality on two binary64 bit patterns: a NaN equals nothing,
/// the two zeros are equal, and every other value is equal exactly to
/// itself.
pub open spec fn num_eq(a: u64, b: u64) -> bool {
    &&& !num_is_nan(a)
    &&& !num_is_nan(b)
    &&& (a == b || (num_is_zero(a) && num_is_zero(b)))
}

/// IEEE-754 `<` on two binary64 bit patterns.  Any comparison with a NaN
/// is false; the two zeros are equal; otherwise the patterns compare as
/// sign-magnitude integers.
pub open spec fn num_lt(a: u64, b: u64) -> bool {
    &&& !num_is_nan(a)
    &&& !num_is_nan(b)
    &&& !(num_is_zero(a) && num_is_zero(b))
    &&& if num_sign(a) != num_sign(b) {
        num_sign(a)
    } else if !num_sign(a) {
        num_magnitude(a) < num_magnitude(b)
    } else {
        num_magnitude(a) > num_magnitude(b)
    }
}

pub open spec fn num_le(a: u64, b: u64) -> bool {
    num_lt(a, b) || num_eq(a, b)
}

pub open spec fn num_gt(a: u64, b: u64) -> bool {
    num_lt(b, a)
}

pub open spec fn num_ge(a: u64, b: u64) -> bool {
    num_le(b, a)
}

/// A finite value with no fraction part.  For exponent field `e` the low
/// `1075 - e` mantissa bits hold the fraction, so they must all be clear.
pub open spec fn num_is_integral(b: u64) -> bool {
    if num_is_zero(b) {
        true
    } else if num_magnitude(b) >= INF_BITS {
        false
    } else {
        let e = (b >> 52) & 0x7FF;
        if e >= 1075 {
            true
        } else if e < 1023 {
            false
        } else {
            b & (((1u64 << ((1075 - e) as u64)) - 1) as u64) == 0
        }
    }
}

pub fn number_sign(b: u64) -> (r: bool)
    ensures
        r == num_sign(b),
{
    b & SIGN_MASK != 0
}

pub fn number_magnitude(b: u64) -> (r: u64)
    ensures
        r == num_magnitude(b),
{
    b & MAG_MASK
}

pub fn number_is_nan(b: u64) -> (r: bool)
    ensures
        r == num_is_nan(b),
{
    b & MAG_MASK > INF_BITS
}

pub fn number_is_infinite(b: u64) -> (r: bool)
    ensures
        r == num_is_infinite(b),
{
    b & MAG_MASK == INF_BITS
}

pub fn number_is_zero(b: u64) -> (r: bool)
    ensures
        r == num_is_zero(b),
{
    b & MAG_MASK == 0
}

pub fn number_eq(a: u64, b: u64) -> (r: bool)
    ensures
        r == num_eq(a, b),
{
    !number_is_nan(a) && !number_is_nan(b) && (a == b || (number_is_zero(a) && number_is_zero(
        b,
    )))
}

pub fn number_lt(a: u64, b: u64) -> (r: bool)
    ensures
        r == num_lt(a, b),
{
    if number_is_nan(a) || number_is_nan(b) {
        false
    } else if number_is_zero(a) && number_is_zero(b) {
        false
    } else if number_sign(a) != number_sign(b) {
        number_sign(a)
    } else if !number_sign(a) {
        number_magnitude(a) < number_magnitude(b)
    } else {
        number_magnitude(a) > number_magnitude(b)
    }
}

pub fn number_le(a: u64, b: u64) -> (r: bool)
    ensures
        r == num_le(a, b),
{
    number_lt(a, b) || number_eq(a, b)
}

pub fn number_gt(a: u64, b: u64) -> (r: bool)
    ensures
        r == num_gt(a, b),
{
    number_lt(b, a)
}

pub fn number_ge(a: u64, b: u64) -> (r: bool)
    ensures
        r == num_ge(a, b),
{
    number_le(b, a)
}

pub fn number_is_integral(b: u64) -> (r: bool)
    ensures
        r == num_is_integral(b),
{
    if number_is_zero(b) {
        true
    } else if number_magnitude(b) >= INF_BITS {
        false
    } else {
        let e: u64 = (b >> 52) & 0x7FF;
        if e >= 1075 {
            true
        } else if e < 1023 {
            false
        } else {
            let sh: u64 = 1075 - e;
            assert(1 <= sh <= 52);
            assert((1u64 << sh) >= 1) by (bit_vector)
                requires
                    1 <= sh <= 52,
            ;
            b & ((1u64 << sh) - 1) == 0
        }
    }
}

/// What binary64 addition of the two bit patterns yields.
pub uninterp spec fn add_of(a: u64, b: u64) -> u64;

/// What binary64 subtraction of the two bit patterns yields.
pub uninterp spec fn sub_of(a: u64, b: u64) -> u64;

/// What binary64 multiplication of the two bit patterns yields.
pub uninterp spec fn mul_of(a: u64, b: u64) -> u64;

/// What binary64 division of the two bit patterns yields.
pub uninterp spec fn div_of(a: u64, b: u64) -> u64;

/// Relies on `rustc_apfloat::ieee::Double` addition: IEEE-754 binary64,
/// round to nearest, ties to even, a function of the two bit patterns.
#[verifier::external_body]
pub fn number_add(a: u64, b: u64) -> (r: u64)
    ensures
        r == add_of(a, b),
{
    let x = rustc_apfloat::ieee::Double::from_bits(a as u128);
    let y = rustc_apfloat::ieee::Double::from_bits(b as u128);
    (x + y).value.to_bits() as u64
}

/// Relies on `rustc_apfloat::ieee::Double` subtraction: IEEE-754 binary64,
/// round to nearest, ties to even, a function of the two bit patterns.
#[verifier::external_body]
pub fn number_sub(a: u64, b: u64) -> (r: u64)
    ensures
        r == sub_of(a, b),
{
    let x = rustc_apfloat::ieee::Double::from_bits(a as u128);
    let y = rustc_apfloat::ieee::Double::from_bits(b as u128);
    (x - y).value.to_bits() as u64
}

/// Relies on `rustc_apfloat::ieee::Double` multiplication: IEEE-754
/// binary64, round to nearest, ties to even, a function of the two bit
/// patterns.
#[verifier::external_body]
pub fn number_mul(a: u64, b: u64) -> (r: u64)
    ensures
        r == mul_of(a, b),
{
    let x = rustc_apfloat::ieee::Double::from_bits(a as u128);
    let y = rustc_apfloat::ieee::Double::from_bits(b as u128);
    (x * y).value.to_bits() as u64
}

/// Relies on `rustc_apfloat::ieee::Double` division: IEEE-754 binary64,
/// round to nearest, ties to even, a function of the two bit patterns.
/// Division by zero gives an infinity or a NaN, as the format prescribes.
#[verifier::external_body]
pub fn number_div(a: u64, b: u64) -> (r: u64)
    ensures
        r == div_of(a, b),
{
    let x = rustc_apfloat::ieee::Double::from_bits(a as u128);
    let y = rustc_apfloat::ieee::Double::from_bits(b as u128);
    (x / y).value.to_bits() as u64
}

pub open spec fn is_digit_char(c: char) -> bool {
    '0' <= c && c <= '9'
}

pub open spec fn all_digits(s: Seq<char>) -> bool {
    forall|i: int| 0 <= i < s.len() ==> is_digit_char(#[trigger] s[i])
}

/// The shape of a numeric literal the scanner produces: one or more
/// digits, optionally followed by a dot and one or more digits.
pub open spec fn is_plain_number_lexeme(s: Seq<char>) -> bool {
    ||| (s.len() > 0 && all_digits(s))
    ||| (exists|k: int|
        1 <= k && k + 2 <= s.len() && #[trigger] s[k] == '.' && all_digits(s.subrange(0, k))
            && all_digits(s.subrange(k + 1, s.len() as int)))
}

/// What binary64 value, if any, the decimal text denotes.
pub uninterp spec fn parse_of(s: Seq<char>) -> Option<u64>;

/// Relies on `rustc_apfloat::ieee::Double::from_str`: decimal text to
/// IEEE-754 binary64, correctly rounded to nearest, a function of the
/// text alone.  Its source accepts any string of digits with at most one
/// dot and at least one digit, so a plain numeric lexeme always parses.
#[verifier::external_body]
pub fn number_parse(s: &str) -> (r: Option<u64>)
    ensures
        r == parse_of(s@),
        is_plain_number_lexeme(s@) ==> r.is_some(),
{
    match s.parse::<rustc_apfloat::ieee::Double>() {
        Ok(d) => Some(d.to_bits() as u64),
        Err(_) => None,
    }
}

/// The decimal text `rustc_apfloat` prints for the bit pattern at the
/// given number of significant digits, in scientific notation.
pub uninterp spec fn fmt_sci_of(b: u64, prec: u64) -> Seq<char>;

/// Relies on the `Display` implementation of `rustc_apfloat::ieee::Double`
/// at the given precision: `prec` significant decimal digits, in
/// scientific notation for large and small exponents and in fixed
/// notation near one (the `0` in the format string is the zero-pad
/// flag, so the implementation runs at its default width), a function
/// of the bit pattern alone.  The renderer accepts either shape.
#[verifier::external_body]
pub fn number_fmt_sci(b: u64, prec: u64) -> (r: String)
    ensures
        r@ == fmt_sci_of(b, prec),
{
    let d = rustc_apfloat::ieee::Double::from_bits(b as u128);
    format!("{:0.1$}", d, prec as usize)
}

/// What converting the unsigned integer to binary64 yields.
pub uninterp spec fn number_from_u64_of(n: u64) -> u64;

/// Relies on `rustc_apfloat::ieee::Double::from_u128`: unsigned integer
/// to IEEE-754 binary64, round to nearest, a function of the integer.
#[verifier::external_body]
pub fn number_from_u64(n: u64) -> (r: u64)
    ensures
        r == number_from_u64_of(n),
{
    rustc_apfloat::ieee::Double::from_u128(n as u128).value.to_bits() as u64
}

} // verus!
