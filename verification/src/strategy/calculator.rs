//! Rebalance calculations: how far each symbol is from its target, which differences are
//! worth trading, in which order, and for how many lots.

use vstd::prelude::*;
use crate::assoc::{assoc_get, assoc_insert, assoc_keys, insert_key, keys_unique, pairs_view};
use crate::domain::decimal::{
    decimal_div, decimal_mul, decimal_sub, int_view, pow10, value_le, value_lt, Decimal,
    DecimalView,
};
use crate::domain::money::{Money, MoneyView};
use crate::domain::wallet::{
    abs_view, allocation_defined, decimal_sum, entries_view, spec_current_allocation,
    spec_total_value, DesiredAllocation, Wallet,
};
use crate::strategy::order_text::{
    lemma_str_lt_irreflexive, lemma_str_lt_total, lemma_take_push_contains, names, sorted_insert, str_lt, strictly_sorted,
};

verus! {

/// The difference between current and desired allocation for a symbol.
#[derive(Debug)]
pub struct AllocationDiff {
    /// The trading symbol.
    pub symbol: String,
    /// Current percentage allocation (0-100).
    pub current_percent: Decimal,
    /// Desired percentage allocation (0-100).
    pub desired_percent: Decimal,
    /// Difference (desired - current).
    pub diff_percent: Decimal,
    /// Current value in base currency.
    pub current_value: Decimal,
    /// Desired value in base currency.
    pub desired_value: Decimal,
    /// Value difference (desired - current).
    pub diff_value: Decimal,
}

/// The mathematical form of an `AllocationDiff`.
pub struct DiffView {
    pub symbol: Seq<char>,
    pub current_percent: DecimalView,
    pub desired_percent: DecimalView,
    pub diff_percent: DecimalView,
    pub current_value: DecimalView,
    pub desired_value: DecimalView,
    pub diff_value: DecimalView,
}

impl View for AllocationDiff {
    type V = DiffView;

    open spec fn view(&self) -> DiffView {
        DiffView {
            symbol: self.symbol@,
            current_percent: self.current_percent@,
            desired_percent: self.desired_percent@,
            diff_percent: self.diff_percent@,
            current_value: self.current_value@,
            desired_value: self.desired_value@,
            diff_value: self.diff_value@,
        }
    }
}

pub open spec fn diffs_view(s: Seq<AllocationDiff>) -> Seq<DiffView> {
    s.map_values(|d: AllocationDiff| d@)
}

impl AllocationDiff {
    /// Returns true if the asset needs buying (its value difference is above zero).
    pub fn needs_buy(&self) -> (b: bool)
        ensures
            b == (self@.diff_value.mantissa > 0),
    {
        self.diff_value.is_sign_positive() && !self.diff_value.is_zero()
    }

    /// Returns true if the asset needs selling (its value difference is below zero).
    pub fn needs_sell(&self) -> (b: bool)
        ensures
            b == (self@.diff_value.mantissa < 0),
    {
        self.diff_value.is_sign_negative()
    }

    /// Returns the absolute value difference.
    pub fn abs_diff_value(&self) -> (r: Decimal)
        ensures
            r@ == abs_view(self@.diff_value),
    {
        self.diff_value.abs()
    }

    /// Returns the absolute percentage difference.
    pub fn abs_diff_percent(&self) -> (r: Decimal)
        ensures
            r@ == abs_view(self@.diff_percent),
    {
        self.diff_percent.abs()
    }

    /// The same difference.
    pub fn duplicate(&self) -> (r: AllocationDiff)
        ensures
            r@ == self@,
    {
        AllocationDiff {
            symbol: self.symbol.clone(),
            current_percent: self.current_percent,
            desired_percent: self.desired_percent,
            diff_percent: self.diff_percent,
            current_value: self.current_value,
            desired_value: self.desired_value,
            diff_value: self.diff_value,
        }
    }
}

impl Clone for AllocationDiff {
    fn clone(&self) -> (r: AllocationDiff)
        ensures
            r@ == self@,
    {
        self.duplicate()
    }
}

/// The difference for one symbol, from the total value and its current and desired
/// percentages (a missing percentage counts as zero).
pub open spec fn spec_diff(
    symbol: Seq<char>,
    total: DecimalView,
    current: Option<DecimalView>,
    desired: Option<DecimalView>,
) -> DiffView {
    let c = match current {
        Some(v) => v,
        None => int_view(0),
    };
    let d = match desired {
        Some(v) => v,
        None => int_view(0),
    };
    let cv = decimal_div(decimal_mul(total, c)->Some_0, int_view(100))->Some_0;
    let dv = decimal_div(decimal_mul(total, d)->Some_0, int_view(100))->Some_0;
    DiffView {
        symbol,
        current_percent: c,
        desired_percent: d,
        diff_percent: decimal_sub(d, c)->Some_0,
        current_value: cv,
        desired_value: dv,
        diff_value: decimal_sub(dv, cv)->Some_0,
    }
}

/// The arithmetic of `spec_diff` does not overflow.
pub open spec fn diff_defined(
    total: DecimalView,
    current: Option<DecimalView>,
    desired: Option<DecimalView>,
) -> bool {
    let c = match current {
        Some(v) => v,
        None => int_view(0),
    };
    let d = match desired {
        Some(v) => v,
        None => int_view(0),
    };
    &&& decimal_sub(d, c) is Some
    &&& decimal_mul(total, c) is Some
    &&& decimal_mul(total, d) is Some
    &&& decimal_sub(
        decimal_div(decimal_mul(total, d)->Some_0, int_view(100))->Some_0,
        decimal_div(decimal_mul(total, c)->Some_0, int_view(100))->Some_0,
    ) is Some
}

/// Everything `calculate_diffs` computes is defined for this wallet and target.
pub open spec fn diffs_defined(w: crate::domain::wallet::WalletView, desired: Seq<(Seq<char>, DecimalView)>) -> bool {
    &&& allocation_defined(w)
    &&& spec_total_value(w).amount.mantissa != 0 ==> forall|k: Seq<char>|
        (assoc_keys(spec_current_allocation(w)).contains(k) || assoc_keys(desired).contains(k))
            ==> #[trigger] diff_defined(
            spec_total_value(w).amount,
            assoc_get(spec_current_allocation(w), k),
            assoc_get(desired, k),
        )
}

/// Whether one difference's arithmetic is defined (what `diff_defined` asks).
fn diff_is_defined(total: Decimal, current: Option<Decimal>, desired: Option<Decimal>) -> (b: bool)
    ensures
        b == diff_defined(
            total@,
            crate::domain::decimal::opt_view(current),
            crate::domain::decimal::opt_view(desired),
        ),
{
    let c = match current {
        Some(v) => v,
        None => Decimal::zero(),
    };
    let d = match desired {
        Some(v) => v,
        None => Decimal::zero(),
    };
    if d.checked_sub(&c).is_none() {
        return false;
    }
    let tc = match total.checked_mul(&c) {
        Some(x) => x,
        None => {
            return false;
        },
    };
    let td = match total.checked_mul(&d) {
        Some(x) => x,
        None => {
            return false;
        },
    };
    let hundred = Decimal::from_u32(100);
    let dd = match td.checked_div(&hundred) {
        Some(x) => x,
        None => {
            return false;
        },
    };
    let dc = match tc.checked_div(&hundred) {
        Some(x) => x,
        None => {
            return false;
        },
    };
    dd.checked_sub(&dc).is_some()
}

/// Whether everything `calculate_diffs` computes is defined for a wallet and a target (what
/// it, `is_balanced`, `max_deviation` and the engine's `start_plan` need).
pub fn diffs_are_defined(wallet: &Wallet, desired: &DesiredAllocation) -> (b: bool)
    ensures
        b == diffs_defined(wallet@, desired@),
{
    if !wallet.allocation_is_defined() {
        return false;
    }
    let total = wallet.total_value().amount();
    if total.is_zero() {
        return true;
    }
    let cur = wallet.current_allocation();
    let ghost cv = cur@;
    let ghost dv = desired@;
    let ce = cur.iter();
    let mut i: usize = 0;
    while i < ce.len()
        invariant
            i <= ce@.len(),
            entries_view(ce@) == cv,
            cv == cur@,
            dv == desired@,
            cv == spec_current_allocation(wallet@),
            total@ == spec_total_value(wallet@).amount,
            forall|j: int|
                0 <= j < i ==> #[trigger] diff_defined(
                    total@,
                    assoc_get(cv, cv[j].0),
                    assoc_get(dv, cv[j].0),
                ),
        decreases ce.len() - i,
    {
        let k = ce[i].0.as_str();
        assert(cv[i as int].0 == k@);
        let ok = diff_is_defined(total, cur.get(k), desired.get(k));
        if !ok {
            assert(assoc_keys(cv)[i as int] == k@);
            assert(assoc_keys(cv).contains(k@));
            return false;
        }
        i = i + 1;
    }
    let de = desired.iter();
    let mut j: usize = 0;
    while j < de.len()
        invariant
            j <= de@.len(),
            entries_view(de@) == dv,
            cv == cur@,
            dv == desired@,
            cv == spec_current_allocation(wallet@),
            total@ == spec_total_value(wallet@).amount,
            total@.mantissa != 0,
            allocation_defined(wallet@),
            forall|m: int|
                0 <= m < cv.len() ==> #[trigger] diff_defined(
                    total@,
                    assoc_get(cv, cv[m].0),
                    assoc_get(dv, cv[m].0),
                ),
            forall|m: int|
                0 <= m < j ==> #[trigger] diff_defined(
                    total@,
                    assoc_get(cv, dv[m].0),
                    assoc_get(dv, dv[m].0),
                ),
        decreases de.len() - j,
    {
        let k = de[j].0.as_str();
        assert(dv[j as int].0 == k@);
        let ok = diff_is_defined(total, cur.get(k), desired.get(k));
        if !ok {
            assert(assoc_keys(dv)[j as int] == k@);
            assert(assoc_keys(dv).contains(k@));
            return false;
        }
        j = j + 1;
    }
    assert forall|k: Seq<char>|
        (assoc_keys(cv).contains(k) || assoc_keys(dv).contains(k)) implies #[trigger] diff_defined(
        total@,
        assoc_get(cv, k),
        assoc_get(dv, k),
    ) by {
        if assoc_keys(cv).contains(k) {
            let m = choose|m: int| 0 <= m < assoc_keys(cv).len() && assoc_keys(cv)[m] == k;
            assert(cv[m].0 == k);
        } else {
            let m = choose|m: int| 0 <= m < assoc_keys(dv).len() && assoc_keys(dv)[m] == k;
            assert(dv[m].0 == k);
        }
    }
    true
}

/// The symbols of differences, in order.
pub open spec fn diff_symbols(r: Seq<DiffView>) -> Seq<Seq<char>> {
    r.map_values(|d: DiffView| d.symbol)
}

/// What `calculate_diffs` returns: nothing when the total value is zero; otherwise one
/// difference per symbol of the current or desired allocation, sorted by symbol with no
/// symbol twice.
pub open spec fn diffs_spec(
    r: Seq<DiffView>,
    w: crate::domain::wallet::WalletView,
    desired: Seq<(Seq<char>, DecimalView)>,
) -> bool {
    let total = spec_total_value(w).amount;
    let cur = spec_current_allocation(w);
    if total.mantissa == 0 {
        r.len() == 0
    } else {
        &&& strictly_sorted(diff_symbols(r))
        &&& forall|k: Seq<char>|
            #[trigger] diff_symbols(r).contains(k) <==> (assoc_keys(
                cur,
            ).contains(k) || assoc_keys(desired).contains(k))
        &&& forall|i: int|
            0 <= i < r.len() ==> #[trigger] r[i] == spec_diff(
                r[i].symbol,
                total,
                assoc_get(cur, r[i].symbol),
                assoc_get(desired, r[i].symbol),
            )
    }
}

/// A difference worth trading: its percentage moves by more than the tolerance and its
/// value by at least the minimum trade value.
pub open spec fn is_significant(d: DiffView, tolerance: DecimalView, min_value: DecimalView) -> bool {
    value_lt(tolerance, abs_view(d.diff_percent)) && value_le(min_value, abs_view(d.diff_value))
}

/// The significant differences, in their order.
pub open spec fn keep_significant(s: Seq<DiffView>, tolerance: DecimalView, min_value: DecimalView) -> Seq<
    DiffView,
>
    decreases s.len(),
{
    if s.len() == 0 {
        Seq::empty()
    } else {
        let r = keep_significant(s.drop_last(), tolerance, min_value);
        if is_significant(s.last(), tolerance, min_value) {
            r.push(s.last())
        } else {
            r
        }
    }
}

/// The largest of the percentages' absolute values, the later one on ties (as
/// `Iterator::max` picks), or zero for none.
pub open spec fn max_abs_percent(s: Seq<DiffView>) -> DecimalView
    decreases s.len(),
{
    if s.len() == 0 {
        int_view(0)
    } else if s.len() == 1 {
        abs_view(s[0].diff_percent)
    } else {
        let m = max_abs_percent(s.drop_last());
        let x = abs_view(s.last().diff_percent);
        if value_lt(x, m) {
            m
        } else {
            x
        }
    }
}

/// Whole lots for a value difference: `floor(|diff| / price_per_lot)` when that is a `u32`,
/// else 0; 0 when the price is zero.
pub open spec fn spec_lots(diff_value: DecimalView, price_per_lot: DecimalView) -> nat {
    if price_per_lot.mantissa == 0 {
        0
    } else {
        let q = decimal_div(abs_view(diff_value), price_per_lot)->Some_0;
        let f = q.mantissa / pow10(q.scale);
        if 0 <= f <= u32::MAX {
            f as nat
        } else {
            0
        }
    }
}

/// Calculator for portfolio rebalancing.
#[derive(Debug)]
pub struct RebalanceCalculator {
    min_trade_percent: Decimal,
    min_trade_value: Decimal,
    tolerance_percent: Decimal,
}

/// The mathematical form of a `RebalanceCalculator`.
pub struct CalculatorView {
    pub min_trade_percent: DecimalView,
    pub min_trade_value: DecimalView,
    pub tolerance_percent: DecimalView,
}

impl View for RebalanceCalculator {
    type V = CalculatorView;

    closed spec fn view(&self) -> CalculatorView {
        CalculatorView {
            min_trade_percent: self.min_trade_percent@,
            min_trade_value: self.min_trade_value@,
            tolerance_percent: self.tolerance_percent@,
        }
    }
}

impl Default for RebalanceCalculator {
    fn default() -> (r: RebalanceCalculator)
        ensures
            r@ == (CalculatorView {
                min_trade_percent: DecimalView { mantissa: 1, scale: 1 },
                min_trade_value: DecimalView { mantissa: 1, scale: 0 },
                tolerance_percent: DecimalView { mantissa: 5, scale: 1 },
            }),
    {
        RebalanceCalculator {
            min_trade_percent: Decimal::new(1, 1),
            min_trade_value: Decimal::new(1, 0),
            tolerance_percent: Decimal::new(5, 1),
        }
    }
}

impl RebalanceCalculator {
    /// Creates a calculator with the default settings (0.1% minimum trade, minimum trade
    /// value 1, tolerance 0.5%).
    pub fn new() -> (r: RebalanceCalculator)
        ensures
            r@ == (CalculatorView {
                min_trade_percent: DecimalView { mantissa: 1, scale: 1 },
                min_trade_value: DecimalView { mantissa: 1, scale: 0 },
                tolerance_percent: DecimalView { mantissa: 5, scale: 1 },
            }),
    {
        RebalanceCalculator::default()
    }

    /// Sets the minimum trade percentage.
    pub fn with_min_trade_percent(self, percent: Decimal) -> (r: RebalanceCalculator)
        ensures
            r@ == (CalculatorView { min_trade_percent: percent@, ..self@ }),
    {
        RebalanceCalculator { min_trade_percent: percent, ..self }
    }

    /// Sets the minimum trade value.
    pub fn with_min_trade_value(self, value: Decimal) -> (r: RebalanceCalculator)
        ensures
            r@ == (CalculatorView { min_trade_value: value@, ..self@ }),
    {
        RebalanceCalculator { min_trade_value: value, ..self }
    }

    /// Sets the tolerance percentage.
    pub fn with_tolerance_percent(self, percent: Decimal) -> (r: RebalanceCalculator)
        ensures
            r@ == (CalculatorView { tolerance_percent: percent@, ..self@ }),
    {
        RebalanceCalculator { tolerance_percent: percent, ..self }
    }

    /// The differences between the wallet's current allocation and the desired one, one
    /// per symbol of either, sorted by symbol.
    pub fn calculate_diffs(&self, wallet: &Wallet, desired: &DesiredAllocation) -> (r: Vec<
        AllocationDiff,
    >)
        requires
            diffs_defined(wallet@, desired@),
        ensures
            diffs_spec(diffs_view(r@), wallet@, desired@),
    {
        let total_value = wallet.total_value().amount();
        if total_value.is_zero() {
            return Vec::new();
        }
        let current_alloc = wallet.current_allocation();
        let cur_syms = current_alloc.symbols();
        let des_syms = desired.symbols();
        let mut all: Vec<String> = Vec::new();
        let mut i: usize = 0;
        while i < cur_syms.len()
            invariant
                i <= cur_syms.len(),
                names(cur_syms@) == assoc_keys(current_alloc@),
                strictly_sorted(names(all@)),
                forall|k: Seq<char>|
                    #[trigger] names(all@).contains(k) <==> names(cur_syms@).take(
                        i as int,
                    ).contains(k),
            decreases cur_syms.len() - i,
        {
            sorted_insert(&mut all, &cur_syms[i]);
            proof {
                lemma_take_push_contains(names(cur_syms@), i as int);
            }
            i = i + 1;
        }
        assert(names(cur_syms@).take(cur_syms.len() as int) =~= names(cur_syms@));
        let mut j: usize = 0;
        while j < des_syms.len()
            invariant
                j <= des_syms.len(),
                names(cur_syms@) == assoc_keys(current_alloc@),
                names(des_syms@) == assoc_keys(desired@),
                strictly_sorted(names(all@)),
                forall|k: Seq<char>|
                    #[trigger] names(all@).contains(k) <==> (names(cur_syms@).contains(k)
                        || names(des_syms@).take(j as int).contains(k)),
            decreases des_syms.len() - j,
        {
            sorted_insert(&mut all, &des_syms[j]);
            proof {
                lemma_take_push_contains(names(des_syms@), j as int);
            }
            j = j + 1;
        }
        assert(names(des_syms@).take(des_syms.len() as int) =~= names(des_syms@));
        let hundred = Decimal::from_u32(100);
        let zero = Decimal::zero();
        let mut out: Vec<AllocationDiff> = Vec::new();
        let mut n: usize = 0;
        let ghost cur = current_alloc@;
        let ghost total = total_value@;
        while n < all.len()
            invariant
                n <= all.len(),
                cur == current_alloc@,
                cur == spec_current_allocation(wallet@),
                total == total_value@,
                total == spec_total_value(wallet@).amount,
                total.mantissa != 0,
                hundred@ == int_view(100),
                zero@ == int_view(0),
                diffs_defined(wallet@, desired@),
                names(cur_syms@) == assoc_keys(cur),
                names(des_syms@) == assoc_keys(desired@),
                forall|k: Seq<char>|
                    #[trigger] names(all@).contains(k) <==> (names(cur_syms@).contains(k)
                        || names(des_syms@).contains(k)),
                out@.len() == n,
                forall|q: int| 0 <= q < n ==> (#[trigger] out@[q])@.symbol == names(all@)[q],
                forall|q: int|
                    0 <= q < n ==> (#[trigger] out@[q])@ == spec_diff(
                        names(all@)[q],
                        total,
                        assoc_get(cur, names(all@)[q]),
                        assoc_get(desired@, names(all@)[q]),
                    ),
            decreases all.len() - n,
        {
            let symbol = &all[n];
            let ghost k = symbol@;
            assert(names(all@)[n as int] == k);
            assert(names(all@).contains(k));
            assert(diff_defined(total, assoc_get(cur, k), assoc_get(desired@, k)));
            let current_pct = match current_alloc.get(symbol.as_str()) {
                Some(v) => v,
                None => zero,
            };
            let desired_pct = match desired.get(symbol.as_str()) {
                Some(v) => v,
                None => zero,
            };
            let diff_pct = match desired_pct.checked_sub(&current_pct) {
                Some(v) => v,
                None => vstd::pervasive::unreached(),
            };
            let current_val = match total_value.checked_mul(&current_pct) {
                Some(m) => match m.checked_div(&hundred) {
                    Some(v) => v,
                    None => vstd::pervasive::unreached(),
                },
                None => vstd::pervasive::unreached(),
            };
            let desired_val = match total_value.checked_mul(&desired_pct) {
                Some(m) => match m.checked_div(&hundred) {
                    Some(v) => v,
                    None => vstd::pervasive::unreached(),
                },
                None => vstd::pervasive::unreached(),
            };
            let diff_val = match desired_val.checked_sub(&current_val) {
                Some(v) => v,
                None => vstd::pervasive::unreached(),
            };
            out.push(
                AllocationDiff {
                    symbol: symbol.clone(),
                    current_percent: current_pct,
                    desired_percent: desired_pct,
                    diff_percent: diff_pct,
                    current_value: current_val,
                    desired_value: desired_val,
                    diff_value: diff_val,
                },
            );
            n = n + 1;
        }
        proof {
            let r = diffs_view(out@);
            assert(diff_symbols(r) =~= names(all@));
        }
        out
    }

    /// The differences worth trading, in their order: percentage moved by more than the
    /// tolerance and value moved by at least the minimum trade value.
    pub fn filter_significant_diffs(&self, diffs: Vec<AllocationDiff>) -> (r: Vec<AllocationDiff>)
        ensures
            diffs_view(r@) == keep_significant(
                diffs_view(diffs@),
                self@.tolerance_percent,
                self@.min_trade_value,
            ),
    {
        let ghost src = diffs_view(diffs@);
        let mut out: Vec<AllocationDiff> = Vec::new();
        let mut i: usize = 0;
        while i < diffs.len()
            invariant
                i <= diffs.len(),
                src == diffs_view(diffs@),
                diffs_view(out@) == keep_significant(
                    src.take(i as int),
                    self@.tolerance_percent,
                    self@.min_trade_value,
                ),
            decreases diffs.len() - i,
        {
            let d = &diffs[i];
            assert(src.take(i + 1).drop_last() =~= src.take(i as int));
            assert(src.take(i + 1).last() == d@);
            if self.tolerance_percent.lt(&d.abs_diff_percent()) && self.min_trade_value.le(
                &d.abs_diff_value(),
            ) {
                let ghost before = diffs_view(out@);
                out.push(d.duplicate());
                assert(diffs_view(out@) =~= before.push(d@));
            }
            i = i + 1;
        }
        assert(src.take(diffs.len() as int) =~= src);
        out
    }

    /// The number of whole lots a value difference buys or sells at a price per lot.
    pub fn calculate_lots(&self, diff_value: Decimal, price_per_lot: Decimal, lot_size: u32) -> (r:
        u32)
        requires
            price_per_lot@.mantissa != 0 ==> decimal_div(abs_view(diff_value@), price_per_lot@) is Some,
        ensures
            r == spec_lots(diff_value@, price_per_lot@),
    {
        if price_per_lot.is_zero() {
            return 0;
        }
        match diff_value.abs().checked_div(&price_per_lot) {
            Some(q) => q.floor().whole_to_u32_or_zero(),
            None => vstd::pervasive::unreached(),
        }
    }

    /// The total absolute value of the differences, as an amount with no currency.
    pub fn estimate_total_trade_value(&self, diffs: &[AllocationDiff]) -> (r: Money)
        requires
            decimal_sum(diffs_view(diffs@).map_values(|d: DiffView| abs_view(d.diff_value)))
                is Some,
        ensures
            r@ == (MoneyView {
                amount: decimal_sum(
                    diffs_view(diffs@).map_values(|d: DiffView| abs_view(d.diff_value)),
                )->Some_0,
                currency: Seq::empty(),
            }),
    {
        let ghost vals = diffs_view(diffs@).map_values(|d: DiffView| abs_view(d.diff_value));
        let mut total = Decimal::zero();
        let mut i: usize = 0;
        while i < diffs.len()
            invariant
                i <= diffs.len(),
                vals == diffs_view(diffs@).map_values(|d: DiffView| abs_view(d.diff_value)),
                decimal_sum(vals) is Some,
                Some(total@) == decimal_sum(vals.take(i as int)),
            decreases diffs.len() - i,
        {
            proof {
                crate::domain::wallet::lemma_sum_prefix_some(vals, i as int + 1);
                assert(vals.take(i + 1).drop_last() =~= vals.take(i as int));
            }
            let a = diffs[i].abs_diff_value();
            total = match total.checked_add(&a) {
                Some(t) => t,
                None => vstd::pervasive::unreached(),
            };
            i = i + 1;
        }
        assert(vals.take(diffs.len() as int) =~= vals);
        proof {
            reveal_strlit("");
            assert(""@ =~= Seq::<char>::empty());
        }
        Money::new(total, "")
    }

    /// Whether no difference is worth trading.
    pub fn is_balanced(&self, wallet: &Wallet, desired: &DesiredAllocation) -> (b: bool)
        requires
            diffs_defined(wallet@, desired@),
        ensures
            b <==> exists|r: Seq<DiffView>|
                diffs_spec(r, wallet@, desired@) && keep_significant(
                    r,
                    self@.tolerance_percent,
                    self@.min_trade_value,
                ).len() == 0,
    {
        let diffs = self.calculate_diffs(wallet, desired);
        let ghost dv = diffs_view(diffs@);
        let significant = self.filter_significant_diffs(diffs);
        let b = significant.len() == 0;
        proof {
            if !b {
                assert forall|r: Seq<DiffView>| diffs_spec(r, wallet@, desired@) implies keep_significant(
                    r,
                    self@.tolerance_percent,
                    self@.min_trade_value,
                ).len() != 0 by {
                    lemma_diffs_spec_unique(r, dv, wallet@, desired@);
                }
            }
        }
        b
    }

    /// The largest absolute percentage difference (zero when there is none).
    pub fn max_deviation(&self, wallet: &Wallet, desired: &DesiredAllocation) -> (r: Decimal)
        requires
            diffs_defined(wallet@, desired@),
        ensures
            exists|s: Seq<DiffView>| diffs_spec(s, wallet@, desired@) && r@ == max_abs_percent(s),
    {
        let diffs = self.calculate_diffs(wallet, desired);
        let ghost dv = diffs_view(diffs@);
        if diffs.len() == 0 {
            assert(diffs_spec(dv, wallet@, desired@) && max_abs_percent(dv) == int_view(0));
            return Decimal::zero();
        }
        let mut m = diffs[0].abs_diff_percent();
        let mut i: usize = 1;
        assert(dv.take(1).drop_last() =~= Seq::<DiffView>::empty());
        while i < diffs.len()
            invariant
                1 <= i <= diffs.len(),
                dv == diffs_view(diffs@),
                m@ == max_abs_percent(dv.take(i as int)),
            decreases diffs.len() - i,
        {
            let x = diffs[i].abs_diff_percent();
            assert(dv.take(i + 1).drop_last() =~= dv.take(i as int));
            if !x.lt(&m) {
                m = x;
            }
            i = i + 1;
        }
        assert(dv.take(diffs.len() as int) =~= dv);
        assert(diffs_spec(dv, wallet@, desired@) && m@ == max_abs_percent(dv));
        m
    }
}

/// The result `calculate_diffs` promises is unique: two sequences that both meet it are
/// equal.
pub proof fn lemma_diffs_spec_unique(
    a: Seq<DiffView>,
    b: Seq<DiffView>,
    w: crate::domain::wallet::WalletView,
    desired: Seq<(Seq<char>, DecimalView)>,
)
    requires
        diffs_spec(a, w, desired),
        diffs_spec(b, w, desired),
    ensures
        a == b,
{
    let total = spec_total_value(w).amount;
    if total.mantissa != 0 {
        let sa = diff_symbols(a);
        let sb = diff_symbols(b);
        lemma_sorted_same_set_equal(sa, sb);
        assert forall|i: int| 0 <= i < a.len() implies a[i] == b[i] by {
            assert(sa[i] == sb[i]);
        }
        assert(a =~= b);
    } else {
        assert(a =~= b);
    }
}

/// Two strictly sorted sequences with the same elements are equal.
pub proof fn lemma_sorted_same_set_equal(a: Seq<Seq<char>>, b: Seq<Seq<char>>)
    requires
        strictly_sorted(a),
        strictly_sorted(b),
        forall|k: Seq<char>| a.contains(k) <==> b.contains(k),
    ensures
        a == b,
    decreases a.len() + b.len(),
{
    if a.len() == 0 {
        if b.len() > 0 {
            assert(b.contains(b[0]));
        }
        assert(a =~= b);
    } else if b.len() == 0 {
        assert(a.contains(a[0]));
    } else {
        let x = a.last();
        let y = b.last();
        assert(a.contains(x));
        assert(b.contains(y));
        let ia = choose|i: int| 0 <= i < a.len() && #[trigger] a[i] == y;
        let ib = choose|i: int| 0 <= i < b.len() && #[trigger] b[i] == x;
        if x != y {
            lemma_str_lt_total(x, y);
            if ia < a.len() - 1 {
                assert(str_lt(a[ia], x));
            }
            if ib < b.len() - 1 {
                assert(str_lt(b[ib], y));
            }
            lemma_str_lt_irreflexive(x);
            lemma_str_lt_irreflexive(y);
            assert(false);
        }
        let a2 = a.drop_last();
        let b2 = b.drop_last();
        assert forall|k: Seq<char>| a2.contains(k) <==> b2.contains(k) by {
            if a2.contains(k) {
                let i = choose|i: int| 0 <= i < a2.len() && #[trigger] a2[i] == k;
                assert(a.contains(k));
                assert(str_lt(k, x));
                lemma_str_lt_irreflexive(x);
                let j = choose|j: int| 0 <= j < b.len() && #[trigger] b[j] == k;
                if j == b.len() - 1 {
                    assert(false);
                }
                assert(b2[j] == k);
            }
            if b2.contains(k) {
                let i = choose|i: int| 0 <= i < b2.len() && #[trigger] b2[i] == k;
                assert(b.contains(k));
                assert(str_lt(k, y));
                lemma_str_lt_irreflexive(y);
                let j = choose|j: int| 0 <= j < a.len() && #[trigger] a[j] == k;
                if j == a.len() - 1 {
                    assert(false);
                }
                assert(a2[j] == k);
            }
        }
        lemma_sorted_same_set_equal(a2, b2);
        assert(a =~= a2.push(x));
        assert(b =~= b2.push(y));
    }
}

/// A sell: the value difference is below zero.
pub open spec fn is_sell(d: DiffView) -> bool {
    d.diff_value.mantissa < 0
}

/// `a` goes strictly before `b` in priority order: sells before the rest, and within each
/// group larger absolute value differences first.
pub open spec fn prio_before(a: DiffView, b: DiffView) -> bool {
    (is_sell(a) && !is_sell(b)) || (is_sell(a) == is_sell(b) && value_lt(
        abs_view(b.diff_value),
        abs_view(a.diff_value),
    ))
}

/// The first index from `from` on whose item `x` goes strictly before (or the length).
pub open spec fn insert_pos(sorted: Seq<DiffView>, x: DiffView, from: int) -> int
    decreases sorted.len() - from,
{
    if from < 0 || from >= sorted.len() {
        sorted.len() as int
    } else if prio_before(x, sorted[from]) {
        from
    } else {
        insert_pos(sorted, x, from + 1)
    }
}

/// The differences in priority order, equal ones keeping their order (a stable sort).
pub open spec fn priority_sorted(s: Seq<DiffView>) -> Seq<DiffView>
    decreases s.len(),
{
    if s.len() == 0 {
        Seq::empty()
    } else {
        let r = priority_sorted(s.drop_last());
        r.insert(insert_pos(r, s.last(), 0), s.last())
    }
}

/// In priority order: no item goes strictly before an earlier one.
pub open spec fn priority_ordered(s: Seq<DiffView>) -> bool {
    forall|i: int, j: int| 0 <= i < j < s.len() ==> !prio_before(#[trigger] s[j], #[trigger] s[i])
}

/// `<` on the numbers decimals denote is transitive.
pub proof fn lemma_value_lt_trans(a: DecimalView, b: DecimalView, c: DecimalView)
    requires
        value_lt(a, b),
        value_lt(b, c),
    ensures
        value_lt(a, c),
{
    crate::domain::decimal::lemma_pow10_positive(a.scale);
    crate::domain::decimal::lemma_pow10_positive(b.scale);
    crate::domain::decimal::lemma_pow10_positive(c.scale);
    let pa = pow10(a.scale);
    let pb = pow10(b.scale);
    let pc = pow10(c.scale);
    let am = a.mantissa;
    let bm = b.mantissa;
    let cm = c.mantissa;
    assert(am * pc * pb < cm * pa * pb) by (nonlinear_arith)
        requires
            am * pb < bm * pa,
            bm * pc < cm * pb,
            pa > 0,
            pb > 0,
            pc > 0,
    ;
    assert(am * pc < cm * pa) by (nonlinear_arith)
        requires
            am * pc * pb < cm * pa * pb,
            pb > 0,
    ;
}

/// `<=` on the numbers decimals denote is transitive.
pub proof fn lemma_value_le_trans(a: DecimalView, b: DecimalView, c: DecimalView)
    requires
        value_le(a, b),
        value_le(b, c),
    ensures
        value_le(a, c),
{
    crate::domain::decimal::lemma_pow10_positive(a.scale);
    crate::domain::decimal::lemma_pow10_positive(b.scale);
    crate::domain::decimal::lemma_pow10_positive(c.scale);
    let pa = pow10(a.scale);
    let pb = pow10(b.scale);
    let pc = pow10(c.scale);
    let am = a.mantissa;
    let bm = b.mantissa;
    let cm = c.mantissa;
    assert(am * pc * pb <= cm * pa * pb) by (nonlinear_arith)
        requires
            am * pb <= bm * pa,
            bm * pc <= cm * pb,
            pa > 0,
            pb > 0,
            pc > 0,
    ;
    assert(am * pc <= cm * pa) by (nonlinear_arith)
        requires
            am * pc * pb <= cm * pa * pb,
            pb > 0,
    ;
}

/// Every absolute percentage is at most the largest one.
proof fn lemma_max_abs_percent_bounds(s: Seq<DiffView>)
    ensures
        forall|i: int|
            0 <= i < s.len() ==> value_le(#[trigger] abs_view(s[i].diff_percent), max_abs_percent(s)),
    decreases s.len(),
{
    if s.len() > 1 {
        let t = s.drop_last();
        lemma_max_abs_percent_bounds(t);
        let m = max_abs_percent(t);
        let x = abs_view(s.last().diff_percent);
        assert forall|i: int| 0 <= i < s.len() implies value_le(
            #[trigger] abs_view(s[i].diff_percent),
            max_abs_percent(s),
        ) by {
            if i < s.len() - 1 {
                assert(s[i] == t[i]);
                if !value_lt(x, m) {
                    lemma_value_le_trans(abs_view(s[i].diff_percent), m, x);
                }
            }
        }
    }
}

/// A portfolio whose largest deviation is within the tolerance is balanced: no difference
/// is significant, whatever the minimum trade value.
pub proof fn lemma_small_deviation_is_balanced(
    s: Seq<DiffView>,
    tolerance: DecimalView,
    min_value: DecimalView,
)
    requires
        value_le(max_abs_percent(s), tolerance),
    ensures
        keep_significant(s, tolerance, min_value).len() == 0,
    decreases s.len(),
{
    if s.len() > 0 {
        lemma_max_abs_percent_bounds(s);
        let t = s.drop_last();
        assert(value_le(max_abs_percent(t), tolerance)) by {
            if t.len() > 0 {
                lemma_max_abs_percent_bounds(t);
                let x = abs_view(s.last().diff_percent);
                if !value_lt(x, max_abs_percent(t)) {
                    lemma_value_le_trans(max_abs_percent(t), x, tolerance);
                }
            } else {
                assert(s.len() == 1);
                assert(value_le(abs_view(s[0].diff_percent), tolerance));
                let a = abs_view(s[0].diff_percent);
                assert(pow10(int_view(0).scale) == 1);
                let q = pow10(a.scale);
                assert(0 * q <= a.mantissa * 1) by (nonlinear_arith)
                    requires
                        a.mantissa >= 0,
                ;
                assert(value_le(int_view(0), a));
                lemma_value_le_trans(int_view(0), abs_view(s[0].diff_percent), tolerance);
            }
        }
        lemma_small_deviation_is_balanced(t, tolerance, min_value);
        let last = s.last();
        assert(s[s.len() - 1] == last);
        lemma_value_le_trans(abs_view(last.diff_percent), max_abs_percent(s), tolerance);
        assert(!value_lt(tolerance, abs_view(last.diff_percent)));
    }
}

proof fn lemma_prio_trans(a: DiffView, b: DiffView, c: DiffView)
    requires
        prio_before(a, b),
        prio_before(b, c),
    ensures
        prio_before(a, c),
{
    if is_sell(a) == is_sell(b) && is_sell(b) == is_sell(c) {
        lemma_value_lt_trans(abs_view(c.diff_value), abs_view(b.diff_value), abs_view(a.diff_value));
    }
}

proof fn lemma_prio_asym(a: DiffView, b: DiffView)
    ensures
        !(prio_before(a, b) && prio_before(b, a)),
{
}

proof fn lemma_insert_pos(sorted: Seq<DiffView>, x: DiffView, from: int)
    requires
        0 <= from <= sorted.len(),
    ensures
        from <= insert_pos(sorted, x, from) <= sorted.len(),
        forall|j: int| from <= j < insert_pos(sorted, x, from) ==> !prio_before(x, #[trigger] sorted[j]),
        insert_pos(sorted, x, from) < sorted.len() ==> prio_before(
            x,
            sorted[insert_pos(sorted, x, from)],
        ),
    decreases sorted.len() - from,
{
    if from < sorted.len() && !prio_before(x, sorted[from]) {
        lemma_insert_pos(sorted, x, from + 1);
    }
}

/// Inserting at the priority position keeps a priority-ordered sequence ordered.
/// The priority position is within the sequence's bounds.
pub proof fn lemma_insert_pos_bound(sorted: Seq<DiffView>, x: DiffView, from: int)
    requires
        0 <= from <= sorted.len(),
    ensures
        0 <= insert_pos(sorted, x, from) <= sorted.len(),
{
    lemma_insert_pos(sorted, x, from);
}

proof fn lemma_insert_keeps_order(sorted: Seq<DiffView>, x: DiffView)
    requires
        priority_ordered(sorted),
    ensures
        priority_ordered(sorted.insert(insert_pos(sorted, x, 0), x)),
{
    lemma_insert_pos(sorted, x, 0);
    let p = insert_pos(sorted, x, 0);
    let r = sorted.insert(p, x);
    assert forall|i: int, j: int| 0 <= i < j < r.len() implies !prio_before(
        #[trigger] r[j],
        #[trigger] r[i],
    ) by {
        if j < p {
            assert(r[i] == sorted[i] && r[j] == sorted[j]);
        } else if j == p {
            assert(r[i] == sorted[i]);
        } else if i < p {
            assert(r[i] == sorted[i] && r[j] == sorted[j - 1]);
        } else if i == p {
            assert(r[j] == sorted[j - 1]);
            if prio_before(sorted[j - 1], x) {
                lemma_prio_trans(sorted[j - 1], x, sorted[p]);
                if j - 1 > p {
                    assert(!prio_before(sorted[j - 1], sorted[p]));
                } else {
                    lemma_prio_asym(sorted[p], sorted[p]);
                }
            }
        } else {
            assert(r[i] == sorted[i - 1] && r[j] == sorted[j - 1]);
        }
    }
}

/// The priority order is a permutation of its input, in priority order.
pub proof fn lemma_priority_sorted(s: Seq<DiffView>)
    ensures
        priority_sorted(s).to_multiset() == s.to_multiset(),
        priority_ordered(priority_sorted(s)),
    decreases s.len(),
{
    broadcast use vstd::seq_lib::to_multiset_build, vstd::seq_lib::to_multiset_insert;
    if s.len() == 0 {
        assert(priority_sorted(s) =~= s);
    } else {
        let r = priority_sorted(s.drop_last());
        lemma_priority_sorted(s.drop_last());
        lemma_insert_pos(r, s.last(), 0);
        lemma_insert_keeps_order(r, s.last());
        assert(s =~= s.drop_last().push(s.last()));
    }
}

/// Whether `a` goes strictly before `b` in priority order.
fn goes_before(a: &AllocationDiff, b: &AllocationDiff) -> (r: bool)
    ensures
        r == prio_before(a@, b@),
{
    let a_sell = a.needs_sell();
    let b_sell = b.needs_sell();
    (a_sell && !b_sell) || (a_sell == b_sell && b.abs_diff_value().lt(&a.abs_diff_value()))
}

impl RebalanceCalculator {
    /// Sorts differences by priority: sells first, then the rest, each group by decreasing
    /// absolute value difference; differences that compare equal keep their order.
    pub fn sort_by_priority(&self, diffs: Vec<AllocationDiff>) -> (r: Vec<AllocationDiff>)
        ensures
            diffs_view(r@) == priority_sorted(diffs_view(diffs@)),
            diffs_view(r@).to_multiset() == diffs_view(diffs@).to_multiset(),
            priority_ordered(diffs_view(r@)),
    {
        let ghost src = diffs_view(diffs@);
        let mut out: Vec<AllocationDiff> = Vec::new();
        let mut i: usize = 0;
        while i < diffs.len()
            invariant
                i <= diffs.len(),
                src == diffs_view(diffs@),
                diffs_view(out@) == priority_sorted(src.take(i as int)),
            decreases diffs.len() - i,
        {
            let x = &diffs[i];
            let ghost sorted = diffs_view(out@);
            assert(src.take(i + 1).drop_last() =~= src.take(i as int));
            assert(src.take(i + 1).last() == x@);
            let mut p: usize = 0;
            while p < out.len() && !goes_before(x, &out[p])
                invariant
                    p <= out.len(),
                    sorted == diffs_view(out@),
                    insert_pos(sorted, x@, 0) == insert_pos(sorted, x@, p as int),
                decreases out.len() - p,
            {
                p = p + 1;
            }
            let ghost before = diffs_view(out@);
            out.insert(p, x.duplicate());
            assert(diffs_view(out@) =~= before.insert(p as int, x@));
            i = i + 1;
        }
        assert(src.take(diffs.len() as int) =~= src);
        proof {
            lemma_priority_sorted(src);
        }
        out
    }
}

/// Metrics of one asset.
#[derive(Debug)]
pub struct MetricValue {
    /// Market capitalization.
    pub market_cap: Option<Decimal>,
    /// Assets under management.
    pub aum: Option<Decimal>,
}

/// Metrics by symbol, each symbol once, for metric-based allocations.
#[derive(Debug)]
pub struct AssetMetrics {
    /// (symbol, metrics) pairs.
    pub data: Vec<(String, MetricValue)>,
}

/// The chosen metric of an asset: its AUM, or its market capitalization.
pub open spec fn metric_of(m: MetricValue, use_aum: bool) -> Option<DecimalView> {
    crate::domain::decimal::opt_view(if use_aum { m.aum } else { m.market_cap })
}

/// The metrics present, in order.
pub open spec fn present_metrics(data: Seq<(String, MetricValue)>, use_aum: bool) -> Seq<DecimalView>
    decreases data.len(),
{
    if data.len() == 0 {
        Seq::empty()
    } else {
        let r = present_metrics(data.drop_last(), use_aum);
        match metric_of(data.last().1, use_aum) {
            Some(v) => r.push(v),
            None => r,
        }
    }
}

/// Each asset with the metric at its share of the total, in percent, set in order.
pub open spec fn metric_shares(
    data: Seq<(String, MetricValue)>,
    use_aum: bool,
    total: DecimalView,
) -> Seq<(Seq<char>, DecimalView)>
    decreases data.len(),
{
    if data.len() == 0 {
        Seq::empty()
    } else {
        let r = metric_shares(data.drop_last(), use_aum, total);
        match metric_of(data.last().1, use_aum) {
            Some(v) => crate::assoc::assoc_insert(
                r,
                data.last().0@,
                decimal_mul(decimal_div(v, total)->Some_0, int_view(100))->Some_0,
            ),
            None => r,
        }
    }
}

/// The share arithmetic is defined for every asset with the metric.
pub open spec fn shares_defined(data: Seq<(String, MetricValue)>, use_aum: bool, total: DecimalView) -> bool {
    forall|i: int|
        0 <= i < data.len() && (#[trigger] metric_of(data[i].1, use_aum)) is Some ==> {
            &&& decimal_div(metric_of(data[i].1, use_aum)->Some_0, total) is Some
            &&& decimal_mul(
                decimal_div(metric_of(data[i].1, use_aum)->Some_0, total)->Some_0,
                int_view(100),
            ) is Some
        }
}

/// The allocation by a metric: empty when the metrics sum to zero, else each asset's share.
pub open spec fn metric_allocation(data: Seq<(String, MetricValue)>, use_aum: bool) -> Seq<
    (Seq<char>, DecimalView),
> {
    let total = decimal_sum(present_metrics(data, use_aum))->Some_0;
    if total.mantissa == 0 {
        Seq::empty()
    } else {
        metric_shares(data, use_aum, total)
    }
}

impl AssetMetrics {
    /// An empty collection.
    pub fn new() -> (r: AssetMetrics)
        ensures
            r.data@.len() == 0,
    {
        AssetMetrics { data: Vec::new() }
    }

    /// Sets the metrics of a symbol (replacing earlier ones).
    pub fn add(&mut self, symbol: &str, market_cap: Option<Decimal>, aum: Option<Decimal>)
        ensures
            pairs_view(final(self).data@) == assoc_insert(
                pairs_view(old(self).data@),
                symbol@,
                MetricValue { market_cap, aum },
            ),
    {
        insert_key(&mut self.data, symbol, MetricValue { market_cap, aum });
    }

    fn allocation_by(&self, use_aum: bool) -> (r: DesiredAllocation)
        requires
            decimal_sum(present_metrics(self.data@, use_aum)) is Some,
            decimal_sum(present_metrics(self.data@, use_aum))->Some_0.mantissa != 0 ==> shares_defined(
                self.data@,
                use_aum,
                decimal_sum(present_metrics(self.data@, use_aum))->Some_0,
            ),
        ensures
            r@ == metric_allocation(self.data@, use_aum),
    {
        let ghost vals = present_metrics(self.data@, use_aum);
        let mut total = Decimal::zero();
        let mut i: usize = 0;
        while i < self.data.len()
            invariant
                i <= self.data.len(),
                vals == present_metrics(self.data@, use_aum),
                decimal_sum(vals) is Some,
                Some(total@) == decimal_sum(present_metrics(self.data@.take(i as int), use_aum)),
                present_metrics(self.data@.take(i as int), use_aum).len() <= vals.len(),
                present_metrics(self.data@.take(i as int), use_aum) == vals.take(
                    present_metrics(self.data@.take(i as int), use_aum).len() as int,
                ),
            decreases self.data.len() - i,
        {
            proof {
                lemma_present_prefix(self.data@, use_aum, i as int + 1);
                assert(self.data@.take(i + 1).drop_last() =~= self.data@.take(i as int));
                let p = present_metrics(self.data@.take(i as int), use_aum);
                let p1 = present_metrics(self.data@.take(i + 1), use_aum);
                crate::domain::wallet::lemma_sum_prefix_some(vals, p1.len() as int);
                assert(vals.take(p1.len() as int).drop_last() =~= vals.take(p.len() as int)
                    || p1.len() == p.len());
            }
            let m = if use_aum {
                self.data[i].1.aum
            } else {
                self.data[i].1.market_cap
            };
            match m {
                Some(v) => {
                    total = match total.checked_add(&v) {
                        Some(t) => t,
                        None => vstd::pervasive::unreached(),
                    };
                },
                None => {},
            }
            i = i + 1;
        }
        assert(self.data@.take(self.data.len() as int) =~= self.data@);
        if total.is_zero() {
            return DesiredAllocation::new();
        }
        let mut alloc = DesiredAllocation::new();
        let hundred = Decimal::from_u32(100);
        let mut j: usize = 0;
        assert(metric_shares(self.data@.take(0), use_aum, total@) =~= Seq::<(Seq<char>, DecimalView)>::empty());
        while j < self.data.len()
            invariant
                j <= self.data.len(),
                hundred@ == int_view(100),
                total@.mantissa != 0,
                shares_defined(self.data@, use_aum, total@),
                alloc@ == metric_shares(self.data@.take(j as int), use_aum, total@),
            decreases self.data.len() - j,
        {
            assert(self.data@.take(j + 1).drop_last() =~= self.data@.take(j as int));
            let m = if use_aum {
                self.data[j].1.aum
            } else {
                self.data[j].1.market_cap
            };
            match m {
                Some(v) => {
                    assert(metric_of(self.data@[j as int].1, use_aum) is Some);
                    let pct = match v.checked_div(&total) {
                        Some(q) => match q.checked_mul(&hundred) {
                            Some(x) => x,
                            None => vstd::pervasive::unreached(),
                        },
                        None => vstd::pervasive::unreached(),
                    };
                    alloc.set(self.data[j].0.as_str(), pct);
                },
                None => {},
            }
            j = j + 1;
        }
        assert(self.data@.take(self.data.len() as int) =~= self.data@);
        alloc
    }

    /// The allocation in proportion to market capitalization (assets without one are left
    /// out; empty when the capitalizations sum to zero).
    pub fn calculate_market_cap_allocation(&self) -> (r: DesiredAllocation)
        requires
            decimal_sum(present_metrics(self.data@, false)) is Some,
            decimal_sum(present_metrics(self.data@, false))->Some_0.mantissa != 0 ==> shares_defined(
                self.data@,
                false,
                decimal_sum(present_metrics(self.data@, false))->Some_0,
            ),
        ensures
            r@ == metric_allocation(self.data@, false),
    {
        self.allocation_by(false)
    }

    /// The allocation in proportion to assets under management (as above).
    pub fn calculate_aum_allocation(&self) -> (r: DesiredAllocation)
        requires
            decimal_sum(present_metrics(self.data@, true)) is Some,
            decimal_sum(present_metrics(self.data@, true))->Some_0.mantissa != 0 ==> shares_defined(
                self.data@,
                true,
                decimal_sum(present_metrics(self.data@, true))->Some_0,
            ),
        ensures
            r@ == metric_allocation(self.data@, true),
    {
        self.allocation_by(true)
    }
}

proof fn lemma_present_prefix(data: Seq<(String, MetricValue)>, use_aum: bool, n: int)
    requires
        0 <= n <= data.len(),
    ensures
        present_metrics(data.take(n), use_aum).len() <= present_metrics(data, use_aum).len(),
        present_metrics(data.take(n), use_aum) == present_metrics(data, use_aum).take(
            present_metrics(data.take(n), use_aum).len() as int,
        ),
    decreases data.len() - n,
{
    if n < data.len() {
        lemma_present_prefix(data, use_aum, n + 1);
        assert(data.take(n + 1).drop_last() =~= data.take(n));
        let a = present_metrics(data.take(n), use_aum);
        let b = present_metrics(data.take(n + 1), use_aum);
        let all = present_metrics(data, use_aum);
        assert(a =~= all.take(a.len() as int));
    } else {
        assert(data.take(n) =~= data);
        assert(present_metrics(data, use_aum).take(present_metrics(data, use_aum).len() as int)
            =~= present_metrics(data, use_aum));
    }
}

/// The decorrelation scores `market_cap / aum` of the assets having both (and a nonzero
/// AUM), in order.
pub open spec fn decorrelation_scores(data: Seq<(String, MetricValue)>) -> Seq<(Seq<char>, DecimalView)>
    decreases data.len(),
{
    if data.len() == 0 {
        Seq::empty()
    } else {
        let r = decorrelation_scores(data.drop_last());
        let m = data.last().1;
        match (m.market_cap, m.aum) {
            (Some(c), Some(a)) => if a@.mantissa != 0 {
                r.push((data.last().0@, decimal_div(c@, a@)->Some_0))
            } else {
                r
            },
            _ => r,
        }
    }
}

/// Every score division is defined.
pub open spec fn scores_defined(data: Seq<(String, MetricValue)>) -> bool {
    forall|i: int|
        0 <= i < data.len() ==> match ((#[trigger] data[i]).1.market_cap, data[i].1.aum) {
            (Some(c), Some(a)) => a@.mantissa != 0 ==> decimal_div(c@, a@) is Some,
            _ => true,
        }
}

/// Each scored asset at its share of the total score, in percent.
pub open spec fn score_shares(scores: Seq<(Seq<char>, DecimalView)>, total: DecimalView) -> Seq<
    (Seq<char>, DecimalView),
>
    decreases scores.len(),
{
    if scores.len() == 0 {
        Seq::empty()
    } else {
        crate::assoc::assoc_insert(
            score_shares(scores.drop_last(), total),
            scores.last().0,
            decimal_mul(decimal_div(scores.last().1, total)->Some_0, int_view(100))->Some_0,
        )
    }
}

impl AssetMetrics {
    /// The allocation in proportion to each asset's market capitalization over its AUM
    /// (assets lacking either, or with zero AUM, are left out; empty when none is scored).
    pub fn calculate_decorrelation_allocation(&self) -> (r: DesiredAllocation)
        requires
            scores_defined(self.data@),
            decimal_sum(crate::domain::wallet::entry_values(decorrelation_scores(self.data@))) is Some,
            forall|i: int|
                0 <= i < decorrelation_scores(self.data@).len() ==> {
                    let total = decimal_sum(
                        crate::domain::wallet::entry_values(decorrelation_scores(self.data@)),
                    )->Some_0;
                    &&& decimal_div((#[trigger] decorrelation_scores(self.data@)[i]).1, total) is Some
                    &&& decimal_mul(
                        decimal_div(decorrelation_scores(self.data@)[i].1, total)->Some_0,
                        int_view(100),
                    ) is Some
                },
        ensures
            r@ == (if decorrelation_scores(self.data@).len() == 0 {
                Seq::empty()
            } else {
                score_shares(
                    decorrelation_scores(self.data@),
                    decimal_sum(
                        crate::domain::wallet::entry_values(decorrelation_scores(self.data@)),
                    )->Some_0,
                )
            }),
    {
        let ghost sv = decorrelation_scores(self.data@);
        let mut scores: Vec<(String, Decimal)> = Vec::new();
        let mut i: usize = 0;
        assert(decorrelation_scores(self.data@.take(0)) =~= Seq::<(Seq<char>, DecimalView)>::empty());
        while i < self.data.len()
            invariant
                i <= self.data.len(),
                scores_defined(self.data@),
                crate::domain::wallet::entries_view(scores@) == decorrelation_scores(
                    self.data@.take(i as int),
                ),
            decreases self.data.len() - i,
        {
            assert(self.data@.take(i + 1).drop_last() =~= self.data@.take(i as int));
            assert(self.data@.take(i + 1).last() == self.data@[i as int]);
            let m = &self.data[i].1;
            match (m.market_cap, m.aum) {
                (Some(c), Some(a)) => {
                    if !a.is_zero() {
                        let score = match c.checked_div(&a) {
                            Some(q) => q,
                            None => vstd::pervasive::unreached(),
                        };
                        let ghost before = crate::domain::wallet::entries_view(scores@);
                        let name = self.data[i].0.clone();
                        scores.push((name, score));
                        assert(crate::domain::wallet::entries_view(scores@) =~= before.push(
                            (name@, score@),
                        ));
                    }
                },
                _ => {},
            }
            i = i + 1;
        }
        assert(self.data@.take(self.data.len() as int) =~= self.data@);
        if scores.len() == 0 {
            return DesiredAllocation::new();
        }
        let total = crate::domain::wallet::sum_values(&scores);
        let mut alloc = DesiredAllocation::new();
        let hundred = Decimal::from_u32(100);
        let mut j: usize = 0;
        assert(sv.take(0) =~= Seq::<(Seq<char>, DecimalView)>::empty());
        while j < scores.len()
            invariant
                j <= scores.len(),
                hundred@ == int_view(100),
                sv == decorrelation_scores(self.data@),
                crate::domain::wallet::entries_view(scores@) == sv,
                total@ == decimal_sum(crate::domain::wallet::entry_values(sv))->Some_0,
                forall|k: int|
                    0 <= k < sv.len() ==> {
                        &&& decimal_div((#[trigger] sv[k]).1, total@) is Some
                        &&& decimal_mul(decimal_div(sv[k].1, total@)->Some_0, int_view(100)) is Some
                    },
                alloc@ == score_shares(sv.take(j as int), total@),
            decreases scores.len() - j,
        {
            assert(sv.take(j + 1).drop_last() =~= sv.take(j as int));
            assert(sv[j as int] == (scores@[j as int].0@, scores@[j as int].1@));
            let pct = match scores[j].1.checked_div(&total) {
                Some(q) => match q.checked_mul(&hundred) {
                    Some(x) => x,
                    None => vstd::pervasive::unreached(),
                },
                None => vstd::pervasive::unreached(),
            };
            alloc.set(scores[j].0.as_str(), pct);
            j = j + 1;
        }
        assert(sv.take(scores.len() as int) =~= sv);
        alloc
    }
}

} // verus!
