//! Decimal integer text: what `str::parse` accepts, and formatting of unsigned integers.

use vstd::prelude::*;
use crate::text::{ascii_lower, find_char, find_char_exec, to_ascii_lower};

verus! {

/// ASCII decimal digit.
pub open spec fn is_digit(c: char) -> bool {
    '0' <= c && c <= '9'
}

/// Value of a digit character.
pub open spec fn digit_value(c: char) -> int {
    (c as u32) - ('0' as u32)
}

/// One or more ASCII digits.
pub open spec fn all_digits(s: Seq<char>) -> bool {
    s.len() > 0 && forall|i: int| 0 <= i < s.len() ==> is_digit(s[i])
}

/// The number written by a string of digits (most significant first).
pub open spec fn digits_value(s: Seq<char>) -> int
    decreases s.len(),
{
    if s.len() == 0 {
        0
    } else {
        digits_value(s.drop_last()) * 10 + digit_value(s.last())
    }
}

/// The integer written by an optional `+` or `-` sign followed by one or more digits.
pub open spec fn signed_text_value(s: Seq<char>) -> Option<int> {
    if s.len() > 0 && (s[0] == '+' || s[0] == '-') {
        let rest = s.drop_first();
        if all_digits(rest) {
            Some(if s[0] == '-' { -digits_value(rest) } else { digits_value(rest) })
        } else {
            None
        }
    } else if all_digits(s) {
        Some(digits_value(s))
    } else {
        None
    }
}

/// The integer written by an optional `+` sign followed by one or more digits.
pub open spec fn unsigned_text_value(s: Seq<char>) -> Option<int> {
    if s.len() > 0 && s[0] == '+' {
        let rest = s.drop_first();
        if all_digits(rest) { Some(digits_value(rest)) } else { None }
    } else if all_digits(s) {
        Some(digits_value(s))
    } else {
        None
    }
}

/// `s.parse::<i64>()` as an option.
pub open spec fn spec_parse_i64(s: Seq<char>) -> Option<i64> {
    match signed_text_value(s) {
        Some(v) => if i64::MIN <= v <= i64::MAX { Some(v as i64) } else { None },
        None => None,
    }
}

/// `s.parse::<u64>()` as an option.
pub open spec fn spec_parse_u64(s: Seq<char>) -> Option<u64> {
    match unsigned_text_value(s) {
        Some(v) => if 0 <= v <= u64::MAX { Some(v as u64) } else { None },
        None => None,
    }
}

/// `s.parse::<u32>()` as an option.
pub open spec fn spec_parse_u32(s: Seq<char>) -> Option<u32> {
    match unsigned_text_value(s) {
        Some(v) => if 0 <= v <= u32::MAX { Some(v as u32) } else { None },
        None => None,
    }
}

/// Calls `str::parse::<i64>`: an optional `+`/`-` sign followed by ASCII digits, in range.
#[verifier::external_body]
pub(crate) fn parse_i64(s: &str) -> (r: Option<i64>)
    ensures
        r == spec_parse_i64(s@),
{
    s.parse::<i64>().ok()
}

/// Calls `str::parse::<u64>`: an optional `+` sign followed by ASCII digits, in range.
#[verifier::external_body]
pub(crate) fn parse_u64(s: &str) -> (r: Option<u64>)
    ensures
        r == spec_parse_u64(s@),
{
    s.parse::<u64>().ok()
}

/// Decimal digits of a natural number, most significant first, without leading zeros
/// (`0` is written as a single `0`).
pub open spec fn decimal_text(n: nat) -> Seq<char>
    decreases n,
{
    if n < 10 {
        seq![(('0' as u32) + n) as char]
    } else {
        decimal_text(n / 10).push((('0' as u32) + (n % 10)) as char)
    }
}

pub proof fn lemma_decimal_text_digits(n: nat)
    ensures
        all_digits(decimal_text(n)),
        digits_value(decimal_text(n)) == n,
    decreases n,
{
    if n >= 10 {
        lemma_decimal_text_digits(n / 10);
        let t = decimal_text(n);
        assert(t.drop_last() == decimal_text(n / 10));
        let d = (('0' as u32) + (n % 10)) as char;
        assert(digit_value(d) == n % 10);
        assert(n == (n / 10) * 10 + n % 10);
        assert(t.last() == d);
        assert(digits_value(t) == digits_value(t.drop_last()) * 10 + digit_value(t.last()));
    } else {
        let d = (('0' as u32) + n) as char;
        assert(digit_value(d) == n);
        let t = decimal_text(n);
        assert(t.drop_last() =~= seq![]);
        assert(digits_value(t.drop_last()) == 0);
        assert(t.last() == d);
    }
}

/// Two numbers with the same decimal text are equal.
pub proof fn lemma_decimal_text_injective(a: nat, b: nat)
    requires
        decimal_text(a) == decimal_text(b),
    ensures
        a == b,
{
    lemma_decimal_text_digits(a);
    lemma_decimal_text_digits(b);
}

/// Formats an unsigned integer in decimal.
pub fn u128_to_text(n: u128) -> (r: Vec<char>)
    ensures
        r@ == decimal_text(n as nat),
    decreases n,
{
    if n < 10 {
        let d: u8 = n as u8;
        let mut v: Vec<char> = Vec::new();
        v.push((48u8 + d) as char);
        v
    } else {
        let mut v = u128_to_text(n / 10);
        let d: u8 = (n % 10) as u8;
        v.push((48u8 + d) as char);
        v
    }
}

/// Zero or more ASCII digits.
pub open spec fn only_digits(s: Seq<char>) -> bool {
    forall|i: int| 0 <= i < s.len() ==> is_digit(s[i])
}

/// `Digit+ | Digit+ '.' Digit* | Digit* '.' Digit+`.
pub open spec fn is_decimal_mantissa(m: Seq<char>) -> bool {
    match find_char(m, '.', 0) {
        None => all_digits(m),
        Some(p) => {
            let int_part = m.subrange(0, p);
            let frac = m.subrange(p + 1, m.len() as int);
            only_digits(int_part) && only_digits(frac) && (int_part.len() > 0 || frac.len() > 0)
        },
    }
}

/// `Sign? Digit+`.
pub open spec fn is_exponent(e: Seq<char>) -> bool {
    if e.len() > 0 && (e[0] == '+' || e[0] == '-') {
        all_digits(e.drop_first())
    } else {
        all_digits(e)
    }
}

/// A decimal number with an optional exponent (`e` or `E`).
pub open spec fn is_decimal_number(b: Seq<char>) -> bool {
    let l = b.map_values(|c: char| ascii_lower(c));
    match find_char(l, 'e', 0) {
        None => is_decimal_mantissa(b),
        Some(p) => is_decimal_mantissa(b.subrange(0, p)) && is_exponent(
            b.subrange(p + 1, b.len() as int),
        ),
    }
}

/// The text accepted by `str::parse::<f64>`: an optional sign, then `inf`, `infinity` or
/// `nan` (in any ASCII case) or a decimal number with optional exponent.
pub open spec fn is_float_text(s: Seq<char>) -> bool {
    let body = if s.len() > 0 && (s[0] == '+' || s[0] == '-') { s.drop_first() } else { s };
    let l = body.map_values(|c: char| ascii_lower(c));
    l == "inf"@ || l == "infinity"@ || l == "nan"@ || is_decimal_number(body)
}

fn only_digits_range(v: &Vec<char>, lo: usize, hi: usize) -> (b: bool)
    requires
        lo <= hi <= v.len(),
    ensures
        b == only_digits(v@.subrange(lo as int, hi as int)),
{
    let mut i = lo;
    while i < hi
        invariant
            lo <= i <= hi,
            hi <= v.len(),
            forall|j: int| lo <= j < i ==> is_digit(v@[j]),
        decreases hi - i,
    {
        if !('0' <= v[i] && v[i] <= '9') {
            assert(!is_digit(v@.subrange(lo as int, hi as int)[i - lo]));
            return false;
        }
        i = i + 1;
    }
    assert forall|j: int| 0 <= j < hi - lo implies is_digit(v@.subrange(lo as int, hi as int)[j]) by {
        assert(v@.subrange(lo as int, hi as int)[j] == v@[lo + j]);
    }
    true
}

fn is_decimal_mantissa_exec(m: &Vec<char>) -> (b: bool)
    ensures
        b == is_decimal_mantissa(m@),
{
    match find_char_exec(m, '.') {
        None => {
            assert(m@.subrange(0, m@.len() as int) =~= m@);
            m.len() > 0 && only_digits_range(m, 0, m.len())
        },
        Some(p) => {
            assert(p < m.len());
            only_digits_range(m, 0, p) && only_digits_range(m, p + 1, m.len()) && (p > 0 || p + 1
                < m.len())
        },
    }
}

fn is_exponent_exec(e: &Vec<char>) -> (b: bool)
    ensures
        b == is_exponent(e@),
{
    if e.len() > 0 && (e[0] == '+' || e[0] == '-') {
        assert(e@.subrange(1, e@.len() as int) =~= e@.drop_first());
        e.len() > 1 && only_digits_range(e, 1, e.len())
    } else {
        assert(e@.subrange(0, e@.len() as int) =~= e@);
        e.len() > 0 && only_digits_range(e, 0, e.len())
    }
}

fn slice_chars(v: &Vec<char>, lo: usize, hi: usize) -> (r: Vec<char>)
    requires
        lo <= hi <= v.len(),
    ensures
        r@ == v@.subrange(lo as int, hi as int),
{
    crate::text::slice_vec(v, lo, hi)
}

fn lower_vec(v: &Vec<char>) -> (r: Vec<char>)
    ensures
        r@ == v@.map_values(|c: char| ascii_lower(c)),
{
    let mut r: Vec<char> = Vec::new();
    let mut i: usize = 0;
    while i < v.len()
        invariant
            i <= v.len(),
            r@ == v@.take(i as int).map_values(|c: char| ascii_lower(c)),
        decreases v.len() - i,
    {
        r.push(to_ascii_lower(v[i]));
        i = i + 1;
        assert(v@.take(i as int).map_values(|c: char| ascii_lower(c)) =~= v@.take(
            (i - 1) as int,
        ).map_values(|c: char| ascii_lower(c)).push(ascii_lower(v@[i - 1])));
    }
    assert(v@.take(v.len() as int) =~= v@);
    r
}

fn is_decimal_number_exec(b: &Vec<char>) -> (r: bool)
    ensures
        r == is_decimal_number(b@),
{
    let l = lower_vec(b);
    match find_char_exec(&l, 'e') {
        None => is_decimal_mantissa_exec(b),
        Some(p) => {
            assert(l@.len() == b@.len());
            let m = slice_chars(b, 0, p);
            let e = slice_chars(b, p + 1, b.len());
            is_decimal_mantissa_exec(&m) && is_exponent_exec(&e)
        },
    }
}

/// Whether the text is accepted by `str::parse::<f64>`.
pub fn is_float_text_exec(s: &Vec<char>) -> (r: bool)
    ensures
        r == is_float_text(s@),
{
    let body = if s.len() > 0 && (s[0] == '+' || s[0] == '-') {
        let b = slice_chars(s, 1, s.len());
        assert(b@ =~= s@.drop_first());
        b
    } else {
        let b = slice_chars(s, 0, s.len());
        assert(b@ =~= s@);
        b
    };
    let l = lower_vec(&body);
    let ls = crate::text::string_of(&l);
    let lstr = ls.as_str();
    if crate::text::chars_eq(lstr, "inf") || crate::text::chars_eq(lstr, "infinity")
        || crate::text::chars_eq(lstr, "nan") {
        return true;
    }
    is_decimal_number_exec(&body)
}


/// Decimal text of an integer, with a leading `-` when it is negative.
pub open spec fn int_text(n: int) -> Seq<char> {
    if n < 0 {
        seq!['-'] + decimal_text((-n) as nat)
    } else {
        decimal_text(n as nat)
    }
}

/// Formats a signed integer in decimal.
pub fn i64_to_text(n: i64) -> (r: Vec<char>)
    ensures
        r@ == int_text(n as int),
{
    let digits = if n < 0 {
        u128_to_text((0i128 - n as i128) as u128)
    } else {
        u128_to_text(n as u128)
    };
    let mut v: Vec<char> = Vec::new();
    if n < 0 {
        v.push('-');
    }
    let ghost start = v@;
    let mut i: usize = 0;
    while i < digits.len()
        invariant
            i <= digits.len(),
            v@ == start + digits@.take(i as int),
        decreases digits.len() - i,
    {
        v.push(digits[i]);
        assert(digits@.take(i + 1) =~= digits@.take(i as int).push(digits@[i as int]));
        i = i + 1;
    }
    assert(digits@.take(digits.len() as int) =~= digits@);
    v
}

} // verus!
