//! Decimal numbers: a 96-bit signed integer mantissa scaled down by a power of ten
//! (at most 28 decimal places). The arithmetic itself is done by `rust_decimal`.

use vstd::prelude::*;

verus! {

/// The largest mantissa magnitude, 2^96 - 1.
pub const MAX_MANTISSA: i128 = 79228162514264337593543950335;

/// The largest number of decimal places.
pub const MAX_SCALE: u32 = 28;

/// Ten to the power `n`.
pub open spec fn pow10(n: nat) -> int
    decreases n,
{
    if n == 0 {
        1
    } else {
        10 * pow10((n - 1) as nat)
    }
}

pub proof fn lemma_pow10_positive(n: nat)
    ensures
        pow10(n) >= 1,
    decreases n,
{
    if n > 0 {
        lemma_pow10_positive((n - 1) as nat);
    }
}

/// The mathematical form of a decimal: the number `mantissa / 10^scale`.
pub struct DecimalView {
    pub mantissa: int,
    pub scale: nat,
}

/// Whether two decimals denote the same number (whatever their scales).
pub open spec fn value_eq(a: DecimalView, b: DecimalView) -> bool {
    a.mantissa * pow10(b.scale) == b.mantissa * pow10(a.scale)
}

/// Whether `a` denotes a smaller number than `b`.
pub open spec fn value_lt(a: DecimalView, b: DecimalView) -> bool {
    a.mantissa * pow10(b.scale) < b.mantissa * pow10(a.scale)
}

/// Whether `a` denotes a number no larger than `b`.
pub open spec fn value_le(a: DecimalView, b: DecimalView) -> bool {
    a.mantissa * pow10(b.scale) <= b.mantissa * pow10(a.scale)
}

/// The decimal `m` with no decimal places.
pub open spec fn int_view(m: int) -> DecimalView {
    DecimalView { mantissa: m, scale: 0 }
}

/// The view of an optional decimal.
pub open spec fn opt_view(o: Option<Decimal>) -> Option<DecimalView> {
    match o {
        Some(d) => Some(d@),
        None => None,
    }
}

/// A decimal number.
#[derive(Clone, Copy, Debug)]
pub struct Decimal {
    mantissa: i128,
    scale: u32,
}

impl View for Decimal {
    type V = DecimalView;

    closed spec fn view(&self) -> DecimalView {
        DecimalView { mantissa: self.mantissa as int, scale: self.scale as nat }
    }
}

impl Decimal {
    #[verifier::type_invariant]
    spec fn well_formed(self) -> bool {
        &&& self.scale <= MAX_SCALE
        &&& -MAX_MANTISSA <= self.mantissa <= MAX_MANTISSA
    }
}

/// The result of `rust_decimal`'s checked addition on two decimals.
pub uninterp spec fn decimal_add(a: DecimalView, b: DecimalView) -> Option<DecimalView>;

/// The result of `rust_decimal`'s checked subtraction.
pub uninterp spec fn decimal_sub(a: DecimalView, b: DecimalView) -> Option<DecimalView>;

/// The result of `rust_decimal`'s checked multiplication.
pub uninterp spec fn decimal_mul(a: DecimalView, b: DecimalView) -> Option<DecimalView>;

/// The result of `rust_decimal`'s checked division.
pub uninterp spec fn decimal_div(a: DecimalView, b: DecimalView) -> Option<DecimalView>;

/// The text `rust_decimal` displays for a decimal.
pub uninterp spec fn decimal_text(a: DecimalView) -> Seq<char>;

/// The text `rust_decimal` displays for a decimal with two decimal places (`{:.2}`).
pub uninterp spec fn decimal_text_2dp(a: DecimalView) -> Seq<char>;

/// The decimal `rust_decimal` parses from a text, if it accepts it.
pub uninterp spec fn decimal_parse(s: Seq<char>) -> Option<DecimalView>;

/// The result of `rust_decimal`'s `round` (to a whole number, ties to even).
pub uninterp spec fn decimal_round(a: DecimalView) -> DecimalView;

impl Decimal {
    /// Creates `num / 10^scale`.
    pub fn new(num: i64, scale: u32) -> (r: Decimal)
        requires
            scale <= MAX_SCALE,
        ensures
            r@ == (DecimalView { mantissa: num as int, scale: scale as nat }),
    {
        Decimal { mantissa: num as i128, scale }
    }

    /// Creates `num / 10^scale` from a 128-bit mantissa that fits in 96 bits.
    pub fn from_i128_with_scale(num: i128, scale: u32) -> (r: Decimal)
        requires
            scale <= MAX_SCALE,
            -MAX_MANTISSA <= num <= MAX_MANTISSA,
        ensures
            r@ == (DecimalView { mantissa: num as int, scale: scale as nat }),
    {
        Decimal { mantissa: num, scale }
    }

    /// Zero.
    pub fn zero() -> (r: Decimal)
        ensures
            r@ == int_view(0),
    {
        Decimal { mantissa: 0, scale: 0 }
    }

    /// One.
    pub fn one() -> (r: Decimal)
        ensures
            r@ == int_view(1),
    {
        Decimal { mantissa: 1, scale: 0 }
    }

    /// The integer `n`.
    pub fn from_u32(n: u32) -> (r: Decimal)
        ensures
            r@ == int_view(n as int),
    {
        Decimal { mantissa: n as i128, scale: 0 }
    }

    /// The integer `n`.
    pub fn from_u64(n: u64) -> (r: Decimal)
        ensures
            r@ == int_view(n as int),
    {
        Decimal { mantissa: n as i128, scale: 0 }
    }

    /// The integer `n`.
    pub fn from_i64(n: i64) -> (r: Decimal)
        ensures
            r@ == int_view(n as int),
    {
        Decimal { mantissa: n as i128, scale: 0 }
    }

    /// The integer mantissa.
    pub fn mantissa(&self) -> (r: i128)
        ensures
            r == self@.mantissa,
    {
        self.mantissa
    }

    /// The number of decimal places.
    pub fn scale(&self) -> (r: u32)
        ensures
            r == self@.scale,
    {
        self.scale
    }

    /// Whether the number is zero.
    pub fn is_zero(&self) -> (b: bool)
        ensures
            b == (self@.mantissa == 0),
    {
        self.mantissa == 0
    }

    /// Whether the number is below zero.
    pub fn is_sign_negative(&self) -> (b: bool)
        ensures
            b == (self@.mantissa < 0),
    {
        self.mantissa < 0
    }

    /// Whether the number is not below zero (zero included).
    pub fn is_sign_positive(&self) -> (b: bool)
        ensures
            b == (self@.mantissa >= 0),
    {
        self.mantissa >= 0
    }

    /// The absolute value, at the same scale.
    pub fn abs(&self) -> (r: Decimal)
        ensures
            r@.scale == self@.scale,
            r@.mantissa == (if self@.mantissa < 0 { -self@.mantissa } else { self@.mantissa }),
    {
        proof {
            use_type_invariant(self);
        }
        if self.mantissa < 0 {
            Decimal { mantissa: -self.mantissa, scale: self.scale }
        } else {
            *self
        }
    }

    /// The negated number, at the same scale.
    pub fn neg(&self) -> (r: Decimal)
        ensures
            r@.scale == self@.scale,
            r@.mantissa == -self@.mantissa,
    {
        proof {
            use_type_invariant(self);
        }
        Decimal { mantissa: -self.mantissa, scale: self.scale }
    }

    /// `rust_decimal::Decimal::checked_add`: the sum, or `None` on overflow.
    #[verifier::external_body]
    pub fn checked_add(&self, other: &Decimal) -> (r: Option<Decimal>)
        ensures
            opt_view(r) == decimal_add(self@, other@),
    {
        let a = rust_decimal::Decimal::from_i128_with_scale(self.mantissa, self.scale);
        let b = rust_decimal::Decimal::from_i128_with_scale(other.mantissa, other.scale);
        match a.checked_add(b) {
            Some(x) => Some(Decimal { mantissa: x.mantissa(), scale: x.scale() }),
            None => None,
        }
    }

    /// `rust_decimal::Decimal::checked_sub`: the difference, or `None` on overflow.
    #[verifier::external_body]
    pub fn checked_sub(&self, other: &Decimal) -> (r: Option<Decimal>)
        ensures
            opt_view(r) == decimal_sub(self@, other@),
    {
        let a = rust_decimal::Decimal::from_i128_with_scale(self.mantissa, self.scale);
        let b = rust_decimal::Decimal::from_i128_with_scale(other.mantissa, other.scale);
        match a.checked_sub(b) {
            Some(x) => Some(Decimal { mantissa: x.mantissa(), scale: x.scale() }),
            None => None,
        }
    }

    /// `rust_decimal::Decimal::checked_mul`: the product, or `None` on overflow.
    #[verifier::external_body]
    pub fn checked_mul(&self, other: &Decimal) -> (r: Option<Decimal>)
        ensures
            opt_view(r) == decimal_mul(self@, other@),
    {
        let a = rust_decimal::Decimal::from_i128_with_scale(self.mantissa, self.scale);
        let b = rust_decimal::Decimal::from_i128_with_scale(other.mantissa, other.scale);
        match a.checked_mul(b) {
            Some(x) => Some(Decimal { mantissa: x.mantissa(), scale: x.scale() }),
            None => None,
        }
    }

    /// `rust_decimal::Decimal::checked_div`: the quotient, or `None` when the divisor is zero
    /// or the quotient overflows (which a whole divisor of at least one cannot cause, as the
    /// quotient is then no larger than the dividend).
    #[verifier::external_body]
    pub fn checked_div(&self, other: &Decimal) -> (r: Option<Decimal>)
        ensures
            other@.mantissa == 0 ==> r is None,
            other@.scale == 0 && other@.mantissa >= 1 ==> r is Some,
            opt_view(r) == decimal_div(self@, other@),
    {
        let a = rust_decimal::Decimal::from_i128_with_scale(self.mantissa, self.scale);
        let b = rust_decimal::Decimal::from_i128_with_scale(other.mantissa, other.scale);
        match a.checked_div(b) {
            Some(x) => Some(Decimal { mantissa: x.mantissa(), scale: x.scale() }),
            None => None,
        }
    }

    /// `rust_decimal::Decimal::floor`: the largest integer not above the number, with no
    /// decimal places.
    #[verifier::external_body]
    pub fn floor(&self) -> (r: Decimal)
        ensures
            r@ == int_view(self@.mantissa / pow10(self@.scale)),
    {
        let a = rust_decimal::Decimal::from_i128_with_scale(self.mantissa, self.scale);
        let x = a.floor();
        Decimal { mantissa: x.mantissa(), scale: x.scale() }
    }

    /// `<` of `rust_decimal::Decimal`, which compares the numbers denoted.
    #[verifier::external_body]
    pub fn lt(&self, other: &Decimal) -> (b: bool)
        ensures
            b == value_lt(self@, other@),
    {
        let a = rust_decimal::Decimal::from_i128_with_scale(self.mantissa, self.scale);
        let c = rust_decimal::Decimal::from_i128_with_scale(other.mantissa, other.scale);
        a < c
    }

    /// `<=` of `rust_decimal::Decimal`, which compares the numbers denoted.
    #[verifier::external_body]
    pub fn le(&self, other: &Decimal) -> (b: bool)
        ensures
            b == value_le(self@, other@),
    {
        let a = rust_decimal::Decimal::from_i128_with_scale(self.mantissa, self.scale);
        let c = rust_decimal::Decimal::from_i128_with_scale(other.mantissa, other.scale);
        a <= c
    }

    /// `==` of `rust_decimal::Decimal`, which holds when the numbers denoted are equal.
    #[verifier::external_body]
    pub fn same_value(&self, other: &Decimal) -> (b: bool)
        ensures
            b == value_eq(self@, other@),
    {
        let a = rust_decimal::Decimal::from_i128_with_scale(self.mantissa, self.scale);
        let c = rust_decimal::Decimal::from_i128_with_scale(other.mantissa, other.scale);
        a == c
    }

    /// `>` on the numbers denoted.
    pub fn gt(&self, other: &Decimal) -> (b: bool)
        ensures
            b == value_lt(other@, self@),
    {
        other.lt(self)
    }

    /// `>=` on the numbers denoted.
    pub fn ge(&self, other: &Decimal) -> (b: bool)
        ensures
            b == value_le(other@, self@),
    {
        other.le(self)
    }

    /// The larger of the two (`other` when they are equal), as `Ord::max` picks.
    pub fn max(self, other: Decimal) -> (r: Decimal)
        ensures
            r == (if value_lt(other@, self@) { self } else { other }),
    {
        if other.lt(&self) {
            self
        } else {
            other
        }
    }

    /// The smaller of the two (`self` when they are equal), as `Ord::min` picks.
    pub fn min(self, other: Decimal) -> (r: Decimal)
        ensures
            r == (if value_le(self@, other@) { self } else { other }),
    {
        if self.le(&other) {
            self
        } else {
            other
        }
    }

    /// The whole number as a `u32`, or 0 when it is negative, above `u32::MAX` or has decimal
    /// places (what `to_string().parse::<u32>().unwrap_or(0)` gives for a whole number).
    pub fn whole_to_u32_or_zero(&self) -> (r: u32)
        ensures
            r == (if self@.scale == 0 && 0 <= self@.mantissa <= u32::MAX {
                self@.mantissa
            } else {
                0
            }),
    {
        if self.scale == 0 && 0 <= self.mantissa && self.mantissa <= 4294967295 {
            self.mantissa as u32
        } else {
            0
        }
    }

    /// The whole number as a `u64`, or 0 when it is negative, above `u64::MAX` or has decimal
    /// places (what `to_string().parse::<u64>().unwrap_or(0)` gives for a whole number).
    pub fn whole_to_u64_or_zero(&self) -> (r: u64)
        ensures
            r == (if self@.scale == 0 && 0 <= self@.mantissa <= u64::MAX {
                self@.mantissa
            } else {
                0
            }),
    {
        if self.scale == 0 && 0 <= self.mantissa && self.mantissa <= 18446744073709551615 {
            self.mantissa as u64
        } else {
            0
        }
    }

    /// `rust_decimal::Decimal::round`: the nearest whole number, ties to even.
    #[verifier::external_body]
    pub fn round(&self) -> (r: Decimal)
        ensures
            r@ == decimal_round(self@),
    {
        let a = rust_decimal::Decimal::from_i128_with_scale(self.mantissa, self.scale);
        let x = a.round();
        Decimal { mantissa: x.mantissa(), scale: x.scale() }
    }

    /// The text `rust_decimal` displays for the number (all decimal places written out).
    #[verifier::external_body]
    pub fn to_string(&self) -> (s: String)
        ensures
            s@ == decimal_text(self@),
    {
        let a = rust_decimal::Decimal::from_i128_with_scale(self.mantissa, self.scale);
        a.to_string()
    }

    /// The text `rust_decimal` displays for the number with two decimal places.
    #[verifier::external_body]
    pub fn to_string_2dp(&self) -> (s: String)
        ensures
            s@ == decimal_text_2dp(self@),
    {
        let a = rust_decimal::Decimal::from_i128_with_scale(self.mantissa, self.scale);
        format!("{:.2}", a)
    }

    /// `rust_decimal::Decimal::from_str`: the decimal a text spells, if it is one.
    #[verifier::external_body]
    pub fn parse(s: &str) -> (r: Option<Decimal>)
        ensures
            opt_view(r) == decimal_parse(s@),
    {
        match <rust_decimal::Decimal as std::str::FromStr>::from_str(s) {
            Ok(x) => Some(Decimal { mantissa: x.mantissa(), scale: x.scale() }),
            Err(_) => None,
        }
    }
}

impl PartialEq for Decimal {
    fn eq(&self, other: &Decimal) -> (r: bool) {
        self.same_value(other)
    }
}

impl Eq for Decimal {
}

impl vstd::std_specs::cmp::PartialEqSpecImpl for Decimal {
    open spec fn obeys_eq_spec() -> bool {
        true
    }

    open spec fn eq_spec(&self, other: &Decimal) -> bool {
        value_eq(self@, other@)
    }
}

} // verus!
