//! Decimal rendering of Lox numbers.
//!
//! A finite, non-zero number is printed from its shortest decimal digit
//! string that parses back to the same bit pattern: the digits are taken
//! from the scientific form that `numerics` obtains at increasing
//! precision, and the decimal point is then placed here, in verified
//! code: plain digits for integral values, `0.00…d` forms for small ones,
//! never an exponent.
use crate::numerics::{
    all_digits, fmt_sci_of, is_digit_char, num_is_infinite, num_is_integral, num_is_nan,
    num_is_zero, num_magnitude, num_sign, number_fmt_sci, number_is_infinite, number_is_integral,
    number_is_nan, number_is_zero, number_magnitude, number_parse, number_sign, parse_of,
};
use vstd::prelude::*;

verus! {

/// First position at or after `i` holding `'E'`, or the length.
pub open spec fn e_index_from(s: Seq<char>, i: int) -> int
    decreases s.len() - i,
    when 0 <= i <= s.len()
{
    if i >= s.len() {
        i
    } else if s[i] == 'E' {
        i
    } else {
        e_index_from(s, i + 1)
    }
}

/// The digit characters of `s[i .. end]`, in order, anything else dropped.
pub open spec fn digits_in(s: Seq<char>, i: int, end: int) -> Seq<char>
    decreases end - i,
    when 0 <= i && i <= end && end <= s.len()
{
    if i >= end {
        Seq::empty()
    } else if is_digit_char(s[i]) {
        seq![s[i]] + digits_in(s, i + 1, end)
    } else {
        digits_in(s, i + 1, end)
    }
}

/// Digits with trailing zeros removed, keeping at least one character.
pub open spec fn trim_zeros(d: Seq<char>) -> Seq<char>
    decreases d.len(),
{
    if d.len() <= 1 {
        d
    } else if d.last() == '0' {
        trim_zeros(d.drop_last())
    } else {
        d
    }
}

/// Decimal value of the digits of `s[i..]`, accumulated left to right
/// onto `acc` and capped below one million; other characters are ignored.
pub open spec fn exp_mag_from(s: Seq<char>, i: int, acc: int) -> int
    decreases s.len() - i,
    when 0 <= i <= s.len()
{
    if i >= s.len() {
        acc
    } else {
        let acc2 = if is_digit_char(s[i]) && acc < 100000 {
            acc * 10 + (s[i] as int - '0' as int)
        } else {
            acc
        };
        exp_mag_from(s, i + 1, acc2)
    }
}

pub open spec fn zeros_seq(n: int) -> Seq<char> {
    Seq::new(if n >= 0 {
        n as nat
    } else {
        0
    }, |i: int| '0')
}

/// Where the scientific form `digits E exponent` puts its decimal point
/// when written plainly: after all digits (zero padded) for large
/// exponents, inside the digits, or as `0.0…digits` for negative ones.
pub open spec fn place_point(d: Seq<char>, neg: bool, mag: int) -> Seq<char> {
    let n = d.len() as int;
    if neg && mag > 0 {
        seq!['0', '.'] + zeros_seq(mag - 1) + d
    } else if !neg && mag >= n - 1 {
        d + zeros_seq(mag - (n - 1))
    } else if !neg {
        d.subrange(0, mag + 1) + seq!['.'] + d.subrange(mag + 1, n)
    } else {
        // `mag == 0` with a minus sign: the point sits after the first digit.
        if n <= 1 {
            d
        } else {
            d.subrange(0, 1) + seq!['.'] + d.subrange(1, n)
        }
    }
}

/// The plain decimal written for a string in scientific notation.  A
/// string without an `'E'` or without digits is returned unchanged.
pub open spec fn decimal_of_sci(s: Seq<char>) -> Seq<char> {
    let e = e_index_from(s, 0);
    let d = trim_zeros(digits_in(s, 0, e));
    if e >= s.len() || d.len() == 0 {
        s
    } else {
        let neg = e + 1 < s.len() && s[e + 1] == '-';
        let skip = if e + 1 < s.len() && (s[e + 1] == '-' || s[e + 1] == '+') {
            e + 2
        } else {
            e + 1
        };
        place_point(d, neg, exp_mag_from(s, skip, 0))
    }
}

/// The smallest precision in `p ..= 17` whose scientific form parses back
/// to the bit pattern `m`, or 17.
pub open spec fn prec_from(m: u64, p: u64) -> u64
    decreases 17 - p,
    when 1 <= p <= 17
{
    if p >= 17 {
        17
    } else if parse_of(fmt_sci_of(m, p)) == Option::<u64>::Some(m) {
        p
    } else {
        prec_from(m, (p + 1) as u64)
    }
}

/// How a number with the sign bit clear prints.
pub open spec fn render_mag_of(m: u64) -> Seq<char> {
    if num_is_zero(m) {
        seq!['0']
    } else if num_is_infinite(m) {
        seq!['i', 'n', 'f']
    } else {
        decimal_of_sci(fmt_sci_of(m, prec_from(m, 1)))
    }
}

/// How a Lox number prints: `NaN` without a sign, otherwise the sign
/// followed by the rendering of the magnitude.
pub open spec fn render_of(b: u64) -> Seq<char> {
    if num_is_nan(b) {
        seq!['N', 'a', 'N']
    } else if num_sign(b) {
        seq!['-'] + render_mag_of(num_magnitude(b))
    } else {
        render_mag_of(b)
    }
}

/// How a number literal prints in the token listing: integral values get
/// a trailing `.0`, every other value prints as usual.
pub open spec fn render_literal_of(b: u64) -> Seq<char> {
    if num_is_integral(b) {
        render_of(b) + seq!['.', '0']
    } else {
        render_of(b)
    }
}

proof fn lemma_magnitude_props(b: u64)
    ensures
        num_magnitude(num_magnitude(b)) == num_magnitude(b),
        !num_sign(b) ==> num_magnitude(b) == b,
        !num_sign(num_magnitude(b)),
{
    assert(((b & 0x7FFF_FFFF_FFFF_FFFF) & 0x7FFF_FFFF_FFFF_FFFF) == (b
        & 0x7FFF_FFFF_FFFF_FFFF)) by (bit_vector);
    assert((b & 0x8000_0000_0000_0000 == 0) ==> (b & 0x7FFF_FFFF_FFFF_FFFF) == b) by (bit_vector);
    assert(((b & 0x7FFF_FFFF_FFFF_FFFF) & 0x8000_0000_0000_0000) == 0) by (bit_vector);
}

fn digit_text(c: char) -> (r: &'static str)
    requires
        is_digit_char(c),
    ensures
        r@ == seq![c],
{
    let r: &'static str = match c {
        '0' => "0",
        '1' => "1",
        '2' => "2",
        '3' => "3",
        '4' => "4",
        '5' => "5",
        '6' => "6",
        '7' => "7",
        '8' => "8",
        _ => "9",
    };
    proof {
        reveal_strlit("0");
        reveal_strlit("1");
        reveal_strlit("2");
        reveal_strlit("3");
        reveal_strlit("4");
        reveal_strlit("5");
        reveal_strlit("6");
        reveal_strlit("7");
        reveal_strlit("8");
        reveal_strlit("9");
        assert(r@ =~= seq![c]);
    }
    r
}

fn find_e_from(s: &str, n: usize, i: usize) -> (r: usize)
    requires
        n == s@.len(),
        i <= n,
    ensures
        r == e_index_from(s@, i as int),
        i <= r <= n,
    decreases n - i,
{
    if i >= n {
        i
    } else if s.get_char(i) == 'E' {
        i
    } else {
        find_e_from(s, n, i + 1)
    }
}

fn collect_digits(s: &str, n: usize, i: usize, end: usize, v: &mut Vec<char>)
    requires
        n == s@.len(),
        i <= end,
        end <= n,
    ensures
        final(v)@ == old(v)@ + digits_in(s@, i as int, end as int),
    decreases end - i,
{
    if i >= end {
        assert(v@ =~= v@ + digits_in(s@, i as int, end as int));
    } else {
        let c = s.get_char(i);
        if '0' <= c && c <= '9' {
            v.push(c);
        }
        collect_digits(s, n, i + 1, end, v);
        proof {
            assert(v@ =~= old(v)@ + digits_in(s@, i as int, end as int));
        }
    }
}

proof fn lemma_digits_in_all_digits(s: Seq<char>, i: int, end: int)
    requires
        0 <= i <= end <= s.len(),
    ensures
        all_digits(digits_in(s, i, end)),
    decreases end - i,
{
    if i < end {
        lemma_digits_in_all_digits(s, i + 1, end);
    }
}

proof fn lemma_trim_zeros_all_digits(d: Seq<char>)
    requires
        all_digits(d),
    ensures
        all_digits(trim_zeros(d)),
        trim_zeros(d).len() <= d.len(),
    decreases d.len(),
{
    if d.len() > 1 && d.last() == '0' {
        assert(all_digits(d.drop_last()));
        lemma_trim_zeros_all_digits(d.drop_last());
    }
}

fn trim_digit_zeros(v: &mut Vec<char>)
    ensures
        final(v)@ == trim_zeros(old(v)@),
    decreases old(v)@.len(),
{
    let n = v.len();
    if n > 1 && v[n - 1] == '0' {
        let _last = v.pop();
        assert(v@ =~= old(v)@.drop_last());
        trim_digit_zeros(v);
    }
}

fn exp_magnitude(s: &str, n: usize, i: usize, acc: u64) -> (r: u64)
    requires
        n == s@.len(),
        i <= n,
        acc <= 1000008,
    ensures
        r == exp_mag_from(s@, i as int, acc as int),
        r <= 1000008,
    decreases n - i,
{
    if i >= n {
        acc
    } else {
        let c = s.get_char(i);
        let acc2: u64 = if '0' <= c && c <= '9' && acc < 100000 {
            acc * 10 + (c as u64 - 48)
        } else {
            acc
        };
        exp_magnitude(s, n, i + 1, acc2)
    }
}

fn append_digit_run(out: &mut String, v: &Vec<char>, from: usize, to: usize)
    requires
        from <= to,
        to <= v@.len(),
        all_digits(v@),
    ensures
        final(out)@ == old(out)@ + v@.subrange(from as int, to as int),
    decreases to - from,
{
    if from >= to {
        assert(out@ =~= out@ + v@.subrange(from as int, to as int));
    } else {
        out.append(digit_text(v[from]));
        append_digit_run(out, v, from + 1, to);
        proof {
            assert(v@.subrange(from as int, to as int) =~= seq![v@[from as int]] + v@.subrange(
                from as int + 1,
                to as int,
            ));
        }
    }
}

fn append_zeros(out: &mut String, n: u64)
    ensures
        final(out)@ == old(out)@ + zeros_seq(n as int),
    decreases n,
{
    if n == 0 {
        assert(out@ =~= out@ + zeros_seq(0));
    } else {
        out.append("0");
        proof {
            reveal_strlit("0");
        }
        append_zeros(out, n - 1);
        proof {
            assert(out@ =~= old(out)@ + zeros_seq(n as int));
        }
    }
}

/// The plain decimal form of a string in scientific notation.
fn decimal_from_sci(s: &str) -> (r: String)
    ensures
        r@ == decimal_of_sci(s@),
{
    let n = s.unicode_len();
    let e = find_e_from(s, n, 0);
    let mut digits: Vec<char> = Vec::new();
    collect_digits(s, n, 0, e, &mut digits);
    proof {
        lemma_digits_in_all_digits(s@, 0, e as int);
        lemma_trim_zeros_all_digits(digits@);
    }
    trim_digit_zeros(&mut digits);
    if e >= n || digits.len() == 0 {
        let r = String::from_str(s);
        return r;
    }
    let neg = e + 1 < n && s.get_char(e + 1) == '-';
    let skip: usize = if e + 1 < n && (s.get_char(e + 1) == '-' || s.get_char(e + 1) == '+') {
        e + 2
    } else {
        e + 1
    };
    let mag = exp_magnitude(s, n, skip, 0);
    let dn = digits.len();
    let mut out = String::new();
    if neg && mag > 0 {
        out.append("0.");
        proof {
            reveal_strlit("0.");
        }
        append_zeros(&mut out, mag - 1);
        append_digit_run(&mut out, &digits, 0, dn);
        proof {
            assert(digits@.subrange(0, dn as int) =~= digits@);
            assert(out@ =~= decimal_of_sci(s@));
        }
    } else if !neg && mag >= (dn - 1) as u64 {
        append_digit_run(&mut out, &digits, 0, dn);
        proof {
            assert(digits@.subrange(0, dn as int) =~= digits@);
        }
        append_zeros(&mut out, mag - ((dn - 1) as u64));
        proof {
            assert(out@ =~= decimal_of_sci(s@));
        }
    } else if !neg {
        // Here `mag < dn - 1`, so the point falls inside the digits.
        let cut: usize = (mag as usize) + 1;
        append_digit_run(&mut out, &digits, 0, cut);
        out.append(".");
        proof {
            reveal_strlit(".");
        }
        append_digit_run(&mut out, &digits, cut, dn);
        proof {
            assert(out@ =~= decimal_of_sci(s@));
        }
    } else {
        // A minus sign with magnitude zero: the point sits after the
        // first digit, if any digits follow it.
        if dn <= 1 {
            append_digit_run(&mut out, &digits, 0, dn);
            proof {
                assert(digits@.subrange(0, dn as int) =~= digits@);
                assert(out@ =~= decimal_of_sci(s@));
            }
        } else {
            append_digit_run(&mut out, &digits, 0, 1);
            out.append(".");
            proof {
                reveal_strlit(".");
            }
            append_digit_run(&mut out, &digits, 1, dn);
            proof {
                assert(out@ =~= decimal_of_sci(s@));
            }
        }
    }
    out
}

fn pick_precision(m: u64, p: u64) -> (r: u64)
    requires
        1 <= p <= 17,
    ensures
        r == prec_from(m, p),
    decreases 17 - p,
{
    if p >= 17 {
        17
    } else {
        let sci = number_fmt_sci(m, p);
        let back = number_parse(sci.as_str());
        let hit = match back {
            Option::Some(x) => x == m,
            Option::None => false,
        };
        if hit {
            p
        } else {
            pick_precision(m, p + 1)
        }
    }
}

/// The shortest decimal text for a Lox number, written as `print` writes
/// it: no exponent, no trailing `.0` on integral values, `NaN`, `inf`
/// and `-inf` for the non-finite values.
pub fn render_number(b: u64) -> (r: String)
    ensures
        r@ == render_of(b),
{
    if number_is_nan(b) {
        let r = String::from_str("NaN");
        proof {
            reveal_strlit("NaN");
            assert(r@ =~= render_of(b));
        }
        return r;
    }
    let mag = number_magnitude(b);
    proof {
        lemma_magnitude_props(b);
    }
    let mut out = String::new();
    if number_sign(b) {
        out.append("-");
        proof {
            reveal_strlit("-");
        }
    }
    if number_is_zero(mag) {
        out.append("0");
        proof {
            reveal_strlit("0");
            assert(out@ =~= render_of(b));
        }
    } else if number_is_infinite(mag) {
        out.append("inf");
        proof {
            reveal_strlit("inf");
            assert(out@ =~= render_of(b));
        }
    } else {
        let p = pick_precision(mag, 1);
        let sci = number_fmt_sci(mag, p);
        let dec = decimal_from_sci(sci.as_str());
        out.append(dec.as_str());
        proof {
            assert(out@ =~= render_of(b));
        }
    }
    out
}

/// The token listing's literal field for a number: integral values carry
/// a trailing `.0`.
pub fn render_number_literal(b: u64) -> (r: String)
    ensures
        r@ == render_literal_of(b),
{
    let mut out = render_number(b);
    if number_is_integral(b) {
        out.append(".0");
        proof {
            reveal_strlit(".0");
            assert(out@ =~= render_literal_of(b));
        }
    }
    out
}


/// The decimal digits of a non-negative integer.
pub open spec fn dec_digits_of(n: int) -> Seq<char>
    decreases n,
    when n >= 0
{
    if n < 10 {
        seq![((48 + n) as char)]
    } else {
        dec_digits_of(n / 10) + seq![((48 + (n % 10)) as char)]
    }
}

fn digit_value_text(d: u64) -> (r: &'static str)
    requires
        d < 10,
    ensures
        r@ == seq![((48 + d as int) as char)],
{
    let c: char = match d {
        0 => '0',
        1 => '1',
        2 => '2',
        3 => '3',
        4 => '4',
        5 => '5',
        6 => '6',
        7 => '7',
        8 => '8',
        _ => '9',
    };
    digit_text(c)
}

/// A line number or count, written in decimal.
pub fn render_usize(n: usize) -> (r: String)
    ensures
        r@ == dec_digits_of(n as int),
    decreases n,
{
    if n < 10 {
        String::from_str(digit_value_text(n as u64))
    } else {
        let mut s = render_usize(n / 10);
        s.append(digit_value_text((n % 10) as u64));
        s
    }
}

/// Relies on `char::to_string`: the one-character string of the
/// character.
#[verifier::external_body]
pub fn char_text(c: char) -> (r: String)
    ensures
        r@ == seq![c],
{
    c.to_string()
}

} // verus!
