//! Money: an amount with its currency.

use vstd::prelude::*;
use crate::domain::decimal::{decimal_add, decimal_mul, decimal_sub, value_eq, Decimal, DecimalView, int_view};
use crate::text::{append_str, chars_eq};

verus! {

/// A monetary amount with an associated currency.
#[derive(Debug)]
pub struct Money {
    amount: Decimal,
    currency: String,
}

/// The mathematical form of a `Money`.
pub struct MoneyView {
    pub amount: DecimalView,
    pub currency: Seq<char>,
}

impl View for Money {
    type V = MoneyView;

    closed spec fn view(&self) -> MoneyView {
        MoneyView { amount: self.amount@, currency: self.currency@ }
    }
}

/// The view of an optional amount.
pub open spec fn opt_money(o: Option<Money>) -> Option<MoneyView> {
    match o {
        Some(m) => Some(m@),
        None => None,
    }
}

impl Money {

    /// Creates a new Money instance.
    pub fn new(amount: Decimal, currency: &str) -> (r: Money)
        ensures
            r@.amount == amount@,
            r@.currency == currency@,
    {
        Money { amount, currency: String::from_str(currency) }
    }

    /// Creates a zero amount in the specified currency.
    pub fn zero(currency: &str) -> (r: Money)
        ensures
            r@.amount == int_view(0),
            r@.currency == currency@,
    {
        Money { amount: Decimal::zero(), currency: String::from_str(currency) }
    }

    /// Returns the amount.
    pub fn amount(&self) -> (r: Decimal)
        ensures
            r@ == self@.amount,
    {
        self.amount
    }

    /// Returns the currency code.
    pub fn currency(&self) -> (r: &str)
        ensures
            r@ == self@.currency,
    {
        self.currency.as_str()
    }

    /// Returns true if the amount is zero.
    pub fn is_zero(&self) -> (b: bool)
        ensures
            b == (self@.amount.mantissa == 0),
    {
        self.amount.is_zero()
    }

    /// Returns true if the amount is above zero.
    pub fn is_positive(&self) -> (b: bool)
        ensures
            b == (self@.amount.mantissa > 0),
    {
        self.amount.is_sign_positive() && !self.amount.is_zero()
    }

    /// Returns true if the amount is below zero.
    pub fn is_negative(&self) -> (b: bool)
        ensures
            b == (self@.amount.mantissa < 0),
    {
        self.amount.is_sign_negative()
    }

    /// Adds two amounts of the same currency; `None` when the currencies differ.
    pub fn checked_add(&self, other: &Money) -> (r: Option<Money>)
        requires
            self@.currency == other@.currency ==> decimal_add(
                self@.amount,
                other@.amount,
            ) is Some,
        ensures
            self@.currency != other@.currency ==> r is None,
            self@.currency == other@.currency ==> r is Some
                && r->Some_0@.currency == self@.currency
                && Some(r->Some_0@.amount) == decimal_add(
                self@.amount,
                other@.amount,
            ),
    {
        if !chars_eq(self.currency.as_str(), other.currency.as_str()) {
            return None;
        }
        match self.amount.checked_add(&other.amount) {
            Some(a) => Some(Money { amount: a, currency: self.currency.clone() }),
            None => vstd::pervasive::unreached(),
        }
    }

    /// Subtracts two amounts of the same currency; `None` when the currencies differ.
    pub fn checked_sub(&self, other: &Money) -> (r: Option<Money>)
        requires
            self@.currency == other@.currency ==> decimal_sub(
                self@.amount,
                other@.amount,
            ) is Some,
        ensures
            self@.currency != other@.currency ==> r is None,
            self@.currency == other@.currency ==> r is Some
                && r->Some_0@.currency == self@.currency
                && Some(r->Some_0@.amount) == decimal_sub(
                self@.amount,
                other@.amount,
            ),
    {
        if !chars_eq(self.currency.as_str(), other.currency.as_str()) {
            return None;
        }
        match self.amount.checked_sub(&other.amount) {
            Some(a) => Some(Money { amount: a, currency: self.currency.clone() }),
            None => vstd::pervasive::unreached(),
        }
    }

    /// Multiplies the amount by a scalar, in the same currency.
    pub fn multiply(&self, scalar: Decimal) -> (r: Money)
        requires
            decimal_mul(self@.amount, scalar@) is Some,
        ensures
            r@.currency == self@.currency,
            Some(r@.amount) == decimal_mul(self@.amount, scalar@),
    {
        match self.amount.checked_mul(&scalar) {
            Some(a) => Money { amount: a, currency: self.currency.clone() },
            None => vstd::pervasive::unreached(),
        }
    }

    /// The same amount and currency.
    pub fn duplicate(&self) -> (r: Money)
        ensures
            r@.amount == self@.amount,
            r@.currency == self@.currency,
    {
        Money { amount: self.amount, currency: self.currency.clone() }
    }

    /// The text `<amount> <currency>`.
    pub fn to_string(&self) -> (s: String)
        ensures
            s@ == crate::domain::decimal::decimal_text(self@.amount) + " "@
                + self@.currency,
    {
        let mut s = self.amount.to_string();
        append_str(&mut s, " ");
        append_str(&mut s, self.currency.as_str());
        s
    }
}

impl Clone for Money {
    fn clone(&self) -> (r: Money)
        ensures
            r@.amount == self@.amount,
            r@.currency == self@.currency,
    {
        self.duplicate()
    }
}

impl PartialEq for Money {
    fn eq(&self, other: &Money) -> (r: bool) {
        self.amount.same_value(&other.amount) && chars_eq(
            self.currency.as_str(),
            other.currency.as_str(),
        )
    }
}

impl vstd::std_specs::cmp::PartialEqSpecImpl for Money {
    open spec fn obeys_eq_spec() -> bool {
        true
    }

    open spec fn eq_spec(&self, other: &Money) -> bool {
        value_eq(self@.amount, other@.amount) && self@.currency
            == other@.currency
    }
}

impl Default for Money {
    fn default() -> (r: Money)
        ensures
            r@.amount == int_view(0),
            r@.currency == Seq::<char>::empty(),
    {
        Money { amount: Decimal::zero(), currency: String::new() }
    }
}

} // verus!
