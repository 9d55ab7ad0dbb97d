//! Desired allocations and wallets (cash plus positions).

use vstd::prelude::*;
use crate::assoc::{
    assoc_get, assoc_insert, assoc_keys, key_index, keys_unique, lemma_assoc_insert,
    lemma_key_index_found, lemma_key_index_none,
};
use crate::domain::decimal::{
    decimal_add, decimal_div, decimal_mul, decimal_sub, int_view, value_lt, Decimal, DecimalView,
};
use crate::domain::money::{Money, MoneyView};
use crate::domain::position::{spec_market_value, Position, PositionView};
use crate::text::chars_eq;

verus! {

/// The view of allocation entries.
pub open spec fn entries_view(v: Seq<(String, Decimal)>) -> Seq<(Seq<char>, DecimalView)> {
    v.map_values(|e: (String, Decimal)| (e.0@, e.1@))
}

/// The sum of a sequence of decimals, added from the first to the last starting at zero;
/// `None` when an addition overflows.
pub open spec fn decimal_sum(s: Seq<DecimalView>) -> Option<DecimalView>
    decreases s.len(),
{
    if s.len() == 0 {
        Some(int_view(0))
    } else {
        match decimal_sum(s.drop_last()) {
            Some(a) => decimal_add(a, s.last()),
            None => None,
        }
    }
}

/// The values of allocation entries, in order.
pub open spec fn entry_values(es: Seq<(Seq<char>, DecimalView)>) -> Seq<DecimalView> {
    es.map_values(|e: (Seq<char>, DecimalView)| e.1)
}

/// Target percentages (0-100) by asset symbol.
#[derive(Debug)]
pub struct DesiredAllocation {
    allocations: Vec<(String, Decimal)>,
}

impl View for DesiredAllocation {
    type V = Seq<(Seq<char>, DecimalView)>;

    closed spec fn view(&self) -> Seq<(Seq<char>, DecimalView)> {
        entries_view(self.allocations@)
    }
}

/// Index of `key` among allocation entries.
fn find_entry(es: &Vec<(String, Decimal)>, key: &str) -> (r: Option<usize>)
    ensures
        match r {
            Some(i) => i < es@.len() && key_index(entries_view(es@), key@, 0) == Some(i as int),
            None => key_index(entries_view(es@), key@, 0) is None,
        },
{
    let ghost ev = entries_view(es@);
    let mut i: usize = 0;
    while i < es.len()
        invariant
            i <= es.len(),
            ev == entries_view(es@),
            forall|j: int| 0 <= j < i ==> ev[j].0 != key@,
        decreases es.len() - i,
    {
        if chars_eq(es[i].0.as_str(), key) {
            proof {
                lemma_key_index_found(ev, key@, 0, i as int);
            }
            return Some(i);
        }
        i = i + 1;
    }
    proof {
        lemma_key_index_none(ev, key@, 0);
    }
    None
}

/// Map insertion into allocation entries.
fn insert_entry(es: &mut Vec<(String, Decimal)>, key: &str, value: Decimal)
    ensures
        entries_view(final(es)@) == assoc_insert(entries_view(old(es)@), key@, value@),
{
    let ghost before = entries_view(es@);
    match find_entry(es, key) {
        Some(i) => {
            es.set(i, (String::from_str(key), value));
            assert(entries_view(es@) =~= before.update(i as int, (key@, value@)));
        },
        None => {
            es.push((String::from_str(key), value));
            assert(entries_view(es@) =~= before.push((key@, value@)));
        },
    }
}

/// Sum of the values of allocation entries.
pub fn sum_values(es: &Vec<(String, Decimal)>) -> (r: Decimal)
    requires
        decimal_sum(entry_values(entries_view(es@))) is Some,
    ensures
        Some(r@) == decimal_sum(entry_values(entries_view(es@))),
{
    let ghost vals = entry_values(entries_view(es@));
    let mut total = Decimal::zero();
    let mut i: usize = 0;
    while i < es.len()
        invariant
            i <= es.len(),
            vals == entry_values(entries_view(es@)),
            vals.len() == es@.len(),
            decimal_sum(vals) is Some,
            Some(total@) == decimal_sum(vals.take(i as int)),
        decreases es.len() - i,
    {
        proof {
            lemma_sum_prefix_some(vals, i as int + 1);
            assert(vals.take(i + 1).drop_last() =~= vals.take(i as int));
            assert(vals.take(i + 1).last() == es@[i as int].1@);
        }
        total = match total.checked_add(&es[i].1) {
            Some(t) => t,
            None => vstd::pervasive::unreached(),
        };
        i = i + 1;
    }
    assert(vals.take(es.len() as int) =~= vals);
    total
}

/// The sum of the values of entries, or `None` when an addition overflows.
pub fn try_sum_values(es: &Vec<(String, Decimal)>) -> (r: Option<Decimal>)
    ensures
        crate::domain::decimal::opt_view(r) == decimal_sum(entry_values(entries_view(es@))),
{
    let ghost vals = entry_values(entries_view(es@));
    let mut total: Option<Decimal> = Some(Decimal::zero());
    let mut i: usize = 0;
    while i < es.len()
        invariant
            i <= es.len(),
            vals == entry_values(entries_view(es@)),
            vals.len() == es@.len(),
            crate::domain::decimal::opt_view(total) == decimal_sum(vals.take(i as int)),
        decreases es.len() - i,
    {
        proof {
            assert(vals.take(i + 1).drop_last() =~= vals.take(i as int));
            assert(vals.take(i + 1).last() == es@[i as int].1@);
        }
        total = match total {
            Some(t) => t.checked_add(&es[i].1),
            None => None,
        };
        i = i + 1;
    }
    assert(vals.take(es.len() as int) =~= vals);
    total
}

/// A sum that does not overflow has prefixes that do not overflow.
pub proof fn lemma_sum_prefix_some(s: Seq<DecimalView>, n: int)
    requires
        0 <= n <= s.len(),
        decimal_sum(s) is Some,
    ensures
        decimal_sum(s.take(n)) is Some,
    decreases s.len() - n,
{
    if n < s.len() {
        lemma_sum_prefix_some(s, n + 1);
        assert(s.take(n + 1).drop_last() =~= s.take(n));
    } else {
        assert(s.take(n) =~= s);
    }
}

/// The allocation scaled so its percentages sum to 100: each value `v` becomes
/// `v * 100 / total`.
pub open spec fn normalized_entries(es: Seq<(Seq<char>, DecimalView)>, total: DecimalView) -> Seq<
    (Seq<char>, DecimalView),
> {
    es.map_values(
        |e: (Seq<char>, DecimalView)|
            (e.0, decimal_div(decimal_mul(e.1, int_view(100))->Some_0, total)->Some_0),
    )
}

/// The scaling of every entry succeeds.
pub open spec fn normalize_defined(es: Seq<(Seq<char>, DecimalView)>, total: DecimalView) -> bool {
    forall|i: int|
        0 <= i < es.len() ==> {
            &&& decimal_mul(#[trigger] es[i].1, int_view(100)) is Some
            &&& decimal_div(decimal_mul(es[i].1, int_view(100))->Some_0, total) is Some
        }
}

impl DesiredAllocation {
    #[verifier::type_invariant]
    spec fn keys_distinct(self) -> bool {
        keys_unique(entries_view(self.allocations@))
    }

    /// Creates an empty allocation.
    pub fn new() -> (r: DesiredAllocation)
        ensures
            r@ == Seq::<(Seq<char>, DecimalView)>::empty(),
    {
        let r = DesiredAllocation { allocations: Vec::new() };
        assert(r@ =~= Seq::<(Seq<char>, DecimalView)>::empty());
        r
    }

    /// Creates an allocation from (symbol, percentage) pairs; a symbol given twice keeps the
    /// later percentage.
    pub fn from_map(allocations: Vec<(String, Decimal)>) -> (r: DesiredAllocation)
        ensures
            r@ == insert_all(Seq::empty(), entries_view(allocations@)),
    {
        let mut es: Vec<(String, Decimal)> = Vec::new();
        let ghost src = entries_view(allocations@);
        let mut i: usize = 0;
        assert(entries_view(es@) =~= Seq::<(Seq<char>, DecimalView)>::empty());
        while i < allocations.len()
            invariant
                i <= allocations.len(),
                src == entries_view(allocations@),
                keys_unique(entries_view(es@)),
                entries_view(es@) == insert_all(Seq::empty(), src.take(i as int)),
            decreases allocations.len() - i,
        {
            let ghost before = entries_view(es@);
            proof {
                lemma_assoc_insert(before, allocations@[i as int].0@, allocations@[i as int].1@);
                assert(src.take(i + 1).drop_last() =~= src.take(i as int));
            }
            insert_entry(&mut es, allocations[i].0.as_str(), allocations[i].1);
            i = i + 1;
        }
        assert(src.take(allocations.len() as int) =~= src);
        DesiredAllocation { allocations: es }
    }

    /// Sets the target percentage for a symbol.
    pub fn set(&mut self, symbol: &str, percentage: Decimal)
        ensures
            final(self)@ == assoc_insert(old(self)@, symbol@, percentage@),
    {
        proof {
            use_type_invariant(&*self);
            lemma_assoc_insert(self@, symbol@, percentage@);
        }
        let mut es = Vec::new();
        std::mem::swap(&mut es, &mut self.allocations);
        insert_entry(&mut es, symbol, percentage);
        self.allocations = es;
    }

    /// Gets the target percentage for a symbol.
    pub fn get(&self, symbol: &str) -> (r: Option<Decimal>)
        ensures
            match (r, assoc_get(self@, symbol@)) {
                (Some(d), Some(v)) => d@ == v,
                (None, None) => true,
                _ => false,
            },
    {
        match find_entry(&self.allocations, symbol) {
            Some(i) => Some(self.allocations[i].1),
            None => None,
        }
    }

    /// Returns all symbols in the allocation.
    pub fn symbols(&self) -> (r: Vec<String>)
        ensures
            r@.map_values(|s: String| s@) == assoc_keys(self@),
    {
        let mut out: Vec<String> = Vec::new();
        let mut i: usize = 0;
        while i < self.allocations.len()
            invariant
                i <= self.allocations.len(),
                out@.map_values(|s: String| s@) == assoc_keys(self@).take(i as int),
            decreases self.allocations.len() - i,
        {
            let ghost before = out@.map_values(|s: String| s@);
            let name = self.allocations[i].0.clone();
            out.push(name);
            assert(out@.map_values(|s: String| s@) =~= before.push(name@));
            assert(assoc_keys(self@).take(i + 1) =~= assoc_keys(self@).take(i as int).push(
                assoc_keys(self@)[i as int],
            ));
            i = i + 1;
        }
        assert(assoc_keys(self@).take(self.allocations.len() as int) =~= assoc_keys(self@));
        out
    }

    /// The (symbol, percentage) pairs.
    pub fn iter(&self) -> (r: &[(String, Decimal)])
        ensures
            entries_view(r@) == self@,
    {
        self.allocations.as_slice()
    }

    /// Returns the number of assets in the allocation.
    pub fn len(&self) -> (r: usize)
        ensures
            r == self@.len(),
    {
        self.allocations.len()
    }

    /// Returns true if the allocation is empty.
    pub fn is_empty(&self) -> (r: bool)
        ensures
            r == (self@.len() == 0),
    {
        self.allocations.len() == 0
    }

    /// The total percentage (a valid allocation sums to 100).
    pub fn total_percentage(&self) -> (r: Decimal)
        requires
            decimal_sum(entry_values(self@)) is Some,
        ensures
            Some(r@) == decimal_sum(entry_values(self@)),
    {
        sum_values(&self.allocations)
    }

    /// Whether the total is within 0.01 of 100.
    pub fn is_valid(&self) -> (r: bool)
        requires
            decimal_sum(entry_values(self@)) is Some,
            decimal_sub(decimal_sum(entry_values(self@))->Some_0, int_view(100)) is Some,
        ensures
            r == value_lt(
                abs_view(decimal_sub(decimal_sum(entry_values(self@))->Some_0, int_view(100))->Some_0),
                DecimalView { mantissa: 1, scale: 2 },
            ),
    {
        let total = self.total_percentage();
        let diff = match total.checked_sub(&Decimal::from_u32(100)) {
            Some(d) => d.abs(),
            None => vstd::pervasive::unreached(),
        };
        diff.lt(&Decimal::new(1, 2))
    }

    /// The allocation scaled to sum to 100 (unchanged when its total is zero).
    pub fn normalized(&self) -> (r: DesiredAllocation)
        requires
            decimal_sum(entry_values(self@)) is Some,
            decimal_sum(entry_values(self@))->Some_0.mantissa != 0 ==> normalize_defined(
                self@,
                decimal_sum(entry_values(self@))->Some_0,
            ),
        ensures
            r@ == (if decimal_sum(entry_values(self@))->Some_0.mantissa == 0 {
                self@
            } else {
                normalized_entries(self@, decimal_sum(entry_values(self@))->Some_0)
            }),
    {
        proof {
            use_type_invariant(self);
        }
        let total = self.total_percentage();
        let mut es: Vec<(String, Decimal)> = Vec::new();
        let hundred = Decimal::from_u32(100);
        let mut i: usize = 0;
        let ghost target = if total@.mantissa == 0 {
            self@
        } else {
            normalized_entries(self@, total@)
        };
        while i < self.allocations.len()
            invariant
                i <= self.allocations.len(),
                hundred@ == int_view(100),
                target == (if total@.mantissa == 0 {
                    self@
                } else {
                    normalized_entries(self@, total@)
                }),
                total@.mantissa != 0 ==> normalize_defined(self@, total@),
                keys_unique(self@),
                entries_view(es@) == target.take(i as int),
            decreases self.allocations.len() - i,
        {
            let v = self.allocations[i].1;
            let nv = if total.is_zero() {
                v
            } else {
                assert(self@[i as int].1 == v@);
                match v.checked_mul(&hundred) {
                    Some(m) => match m.checked_div(&total) {
                        Some(q) => q,
                        None => vstd::pervasive::unreached(),
                    },
                    None => vstd::pervasive::unreached(),
                }
            };
            let ghost before = entries_view(es@);
            let name = self.allocations[i].0.clone();
            es.push((name, nv));
            assert(entries_view(es@) =~= before.push((name@, nv@)));
            assert(target.take(i + 1) =~= target.take(i as int).push(target[i as int]));
            i = i + 1;
        }
        assert(target.take(self.allocations.len() as int) =~= target);
        assert(assoc_keys(target) =~= assoc_keys(self@));
        assert(keys_unique(entries_view(es@))) by {
            assert forall|a: int, b: int| 0 <= a < b < target.len() implies target[a].0
                != target[b].0 by {
                assert(target[a].0 == self@[a].0);
                assert(target[b].0 == self@[b].0);
            }
        }
        DesiredAllocation { allocations: es }
    }

    /// The same allocation.
    pub fn duplicate(&self) -> (r: DesiredAllocation)
        ensures
            r@ == self@,
    {
        proof {
            use_type_invariant(self);
        }
        let mut es: Vec<(String, Decimal)> = Vec::new();
        let mut i: usize = 0;
        while i < self.allocations.len()
            invariant
                i <= self.allocations.len(),
                keys_unique(self@),
                entries_view(es@) == self@.take(i as int),
            decreases self.allocations.len() - i,
        {
            let ghost before = entries_view(es@);
            let name = self.allocations[i].0.clone();
            es.push((name, self.allocations[i].1));
            assert(entries_view(es@) =~= before.push((name@, self.allocations@[i as int].1@)));
            assert(self@.take(i + 1) =~= self@.take(i as int).push(self@[i as int]));
            i = i + 1;
        }
        assert(self@.take(self.allocations.len() as int) =~= self@);
        DesiredAllocation { allocations: es }
    }
}

/// Inserting pairs one after the other into a map.
pub open spec fn insert_all(acc: Seq<(Seq<char>, DecimalView)>, src: Seq<(Seq<char>, DecimalView)>) -> Seq<
    (Seq<char>, DecimalView),
>
    decreases src.len(),
{
    if src.len() == 0 {
        acc
    } else {
        assoc_insert(insert_all(acc, src.drop_last()), src.last().0, src.last().1)
    }
}

/// The absolute value of a decimal, at the same scale.
pub open spec fn abs_view(d: DecimalView) -> DecimalView {
    DecimalView { mantissa: if d.mantissa < 0 { -d.mantissa } else { d.mantissa }, scale: d.scale }
}

impl Default for DesiredAllocation {
    fn default() -> (r: DesiredAllocation)
        ensures
            r@ == Seq::<(Seq<char>, DecimalView)>::empty(),
    {
        DesiredAllocation::new()
    }
}

/// The sum of the market values of positions, added in order from zero; `None` when a
/// multiplication or an addition overflows.
pub open spec fn positions_total(ps: Seq<PositionView>) -> Option<DecimalView>
    decreases ps.len(),
{
    if ps.len() == 0 {
        Some(int_view(0))
    } else {
        match (positions_total(ps.drop_last()), spec_market_value(ps.last())) {
            (Some(a), Some(m)) => decimal_add(a, m.amount),
            _ => None,
        }
    }
}

pub proof fn lemma_positions_total_prefix(ps: Seq<PositionView>, n: int)
    requires
        0 <= n <= ps.len(),
        positions_total(ps) is Some,
    ensures
        positions_total(ps.take(n)) is Some,
        forall|i: int| 0 <= i < n ==> (#[trigger] spec_market_value(ps[i])) is Some,
    decreases ps.len() - n,
{
    if n < ps.len() {
        lemma_positions_total_prefix(ps, n + 1);
        assert(ps.take(n + 1).drop_last() =~= ps.take(n));
        assert forall|i: int| 0 <= i < n implies (#[trigger] spec_market_value(ps[i])) is Some by {
            assert(ps.take(n + 1)[i] == ps[i]);
        }
    } else {
        assert(ps.take(n) =~= ps);
        lemma_positions_total_all(ps);
    }
}

proof fn lemma_positions_total_all(ps: Seq<PositionView>)
    requires
        positions_total(ps) is Some,
    ensures
        forall|i: int| 0 <= i < ps.len() ==> (#[trigger] spec_market_value(ps[i])) is Some,
    decreases ps.len(),
{
    if ps.len() > 0 {
        lemma_positions_total_all(ps.drop_last());
        assert forall|i: int| 0 <= i < ps.len() implies (#[trigger] spec_market_value(ps[i])) is Some by {
            if i < ps.len() - 1 {
                assert(ps.drop_last()[i] == ps[i]);
            }
        }
    }
}

/// The mathematical form of a `Wallet`.
pub struct WalletView {
    pub base_currency: Seq<char>,
    pub cash: MoneyView,
    pub positions: Seq<PositionView>,
}

/// The total portfolio value is computable: the position values sum, and the cash (when
/// in the base currency) adds to it.
pub open spec fn total_defined(w: WalletView) -> bool {
    &&& positions_total(w.positions) is Some
    &&& (w.cash.currency == w.base_currency ==> decimal_add(
        w.cash.amount,
        positions_total(w.positions)->Some_0,
    ) is Some)
}

/// The total portfolio value: cash plus positions when the cash is in the base currency,
/// else the positions alone.
pub open spec fn spec_total_value(w: WalletView) -> MoneyView {
    let pv = positions_total(w.positions)->Some_0;
    if w.cash.currency == w.base_currency {
        MoneyView { amount: decimal_add(w.cash.amount, pv)->Some_0, currency: w.cash.currency }
    } else {
        MoneyView { amount: pv, currency: w.base_currency }
    }
}

/// Index of the first position with the symbol, from `from` on.
pub open spec fn symbol_index(ps: Seq<PositionView>, s: Seq<char>, from: int) -> Option<int>
    decreases ps.len() - from,
{
    if from < 0 || from >= ps.len() {
        None
    } else if ps[from].symbol == s {
        Some(from)
    } else {
        symbol_index(ps, s, from + 1)
    }
}

proof fn lemma_symbol_index_found(ps: Seq<PositionView>, s: Seq<char>, from: int, i: int)
    requires
        0 <= from <= i < ps.len(),
        forall|j: int| from <= j < i ==> ps[j].symbol != s,
        ps[i].symbol == s,
    ensures
        symbol_index(ps, s, from) == Some(i),
    decreases i - from,
{
    if from < i {
        lemma_symbol_index_found(ps, s, from + 1, i);
    }
}

proof fn lemma_symbol_index_none(ps: Seq<PositionView>, s: Seq<char>, from: int)
    requires
        0 <= from <= ps.len(),
        forall|j: int| from <= j < ps.len() ==> ps[j].symbol != s,
    ensures
        symbol_index(ps, s, from) is None,
    decreases ps.len() - from,
{
    if from < ps.len() {
        lemma_symbol_index_none(ps, s, from + 1);
    }
}

/// Adding a position: a position with the same symbol gets the quantities summed and the
/// new price; otherwise the position is appended.
pub open spec fn spec_add_position(ps: Seq<PositionView>, p: PositionView) -> Seq<PositionView> {
    match symbol_index(ps, p.symbol, 0) {
        Some(i) => ps.update(
            i,
            PositionView {
                quantity: decimal_add(ps[i].quantity, p.quantity)->Some_0,
                current_price: p.current_price,
                ..ps[i]
            },
        ),
        None => ps.push(p),
    }
}

/// Percentage of the total a position's market value makes: `value / total * 100`.
pub open spec fn position_percent(p: PositionView, total: DecimalView) -> Option<DecimalView> {
    match decimal_div(spec_market_value(p)->Some_0.amount, total) {
        Some(q) => decimal_mul(q, int_view(100)),
        None => None,
    }
}

/// The (symbol, percentage) pairs of positions.
pub open spec fn position_percents(ps: Seq<PositionView>, total: DecimalView) -> Seq<
    (Seq<char>, DecimalView),
> {
    ps.map_values(|p: PositionView| (p.symbol, position_percent(p, total)->Some_0))
}

/// The current allocation: each position's share of the total value in percent (a symbol
/// held twice keeps its later share); empty when the total is zero.
pub open spec fn spec_current_allocation(w: WalletView) -> Seq<(Seq<char>, DecimalView)> {
    let total = spec_total_value(w).amount;
    if total.mantissa == 0 {
        Seq::empty()
    } else {
        insert_all(Seq::empty(), position_percents(w.positions, total))
    }
}

/// The current allocation is computable.
pub open spec fn allocation_defined(w: WalletView) -> bool {
    &&& total_defined(w)
    &&& spec_total_value(w).amount.mantissa != 0 ==> forall|i: int|
        0 <= i < w.positions.len() ==> (#[trigger] position_percent(
            w.positions[i],
            spec_total_value(w).amount,
        )) is Some
}

/// A portfolio: cash in some currency and positions, valued in a base currency.
#[derive(Debug)]
pub struct Wallet {
    base_currency: String,
    cash: Money,
    positions: Vec<Position>,
}

pub open spec fn positions_view(ps: Seq<Position>) -> Seq<PositionView> {
    ps.map_values(|p: Position| p@)
}

proof fn lemma_positions_view_update()
    ensures
        forall|s: Seq<Position>, i: int, x: Position|
            0 <= i < s.len() ==> #[trigger] positions_view(s.update(i, x)) == positions_view(
                s,
            ).update(i, x@),
{
    assert forall|s: Seq<Position>, i: int, x: Position| 0 <= i < s.len() implies #[trigger]
        positions_view(s.update(i, x)) == positions_view(s).update(i, x@) by {
        assert(positions_view(s.update(i, x)) =~= positions_view(s).update(i, x@));
    }
}

impl View for Wallet {
    type V = WalletView;

    closed spec fn view(&self) -> WalletView {
        WalletView {
            base_currency: self.base_currency@,
            cash: self.cash@,
            positions: positions_view(self.positions@),
        }
    }
}

impl Wallet {
    /// Creates an empty wallet with zero cash in the base currency.
    pub fn new(base_currency: &str) -> (r: Wallet)
        ensures
            r@.base_currency == base_currency@,
            r@.cash == (MoneyView { amount: int_view(0), currency: base_currency@ }),
            r@.positions.len() == 0,
    {
        Wallet {
            cash: Money::zero(base_currency),
            base_currency: String::from_str(base_currency),
            positions: Vec::new(),
        }
    }

    /// Creates a wallet with an initial cash balance.
    pub fn with_cash(base_currency: &str, cash: Money) -> (r: Wallet)
        ensures
            r@.base_currency == base_currency@,
            r@.cash == cash@,
            r@.positions.len() == 0,
    {
        Wallet { cash, base_currency: String::from_str(base_currency), positions: Vec::new() }
    }

    /// Returns the base currency.
    pub fn base_currency(&self) -> (r: &str)
        ensures
            r@ == self@.base_currency,
    {
        self.base_currency.as_str()
    }

    /// Returns the cash balance.
    pub fn cash(&self) -> (r: &Money)
        ensures
            r@ == self@.cash,
    {
        &self.cash
    }

    /// Returns all positions.
    pub fn positions(&self) -> (r: &[Position])
        ensures
            positions_view(r@) == self@.positions,
    {
        self.positions.as_slice()
    }

    /// Returns the number of positions.
    pub fn position_count(&self) -> (r: usize)
        ensures
            r == self@.positions.len(),
    {
        self.positions.len()
    }

    fn find_position(&self, symbol: &str) -> (r: Option<usize>)
        ensures
            match r {
                Some(i) => i < self@.positions.len() && symbol_index(self@.positions, symbol@, 0)
                    == Some(i as int),
                None => symbol_index(self@.positions, symbol@, 0) is None,
            },
    {
        let ghost ps = self@.positions;
        let mut i: usize = 0;
        while i < self.positions.len()
            invariant
                i <= self.positions.len(),
                ps == self@.positions,
                ps == positions_view(self.positions@),
                forall|j: int| 0 <= j < i ==> ps[j].symbol != symbol@,
            decreases self.positions.len() - i,
        {
            if chars_eq(self.positions[i].symbol(), symbol) {
                proof {
                    lemma_symbol_index_found(ps, symbol@, 0, i as int);
                }
                return Some(i);
            }
            i = i + 1;
        }
        proof {
            lemma_symbol_index_none(ps, symbol@, 0);
        }
        None
    }

    /// Adds a position; one with the same symbol has the quantity added and takes the new
    /// price.
    pub fn add_position(&mut self, position: Position)
        requires
            symbol_index(old(self)@.positions, position@.symbol, 0) matches Some(i)
                ==> decimal_add(old(self)@.positions[i].quantity, position@.quantity) is Some,
        ensures
            final(self)@ == (WalletView {
                positions: spec_add_position(old(self)@.positions, position@),
                ..old(self)@
            }),
    {
        let ghost before = self@.positions;
        match self.find_position(position.symbol()) {
            Some(i) => {
                let mut existing = self.positions[i].duplicate();
                let q = match existing.quantity().checked_add(&position.quantity()) {
                    Some(q) => q,
                    None => vstd::pervasive::unreached(),
                };
                existing.update_quantity(q);
                existing.update_price(position.current_price().duplicate());
                let ghost ev = existing@;
                self.positions.set(i, existing);
                assert(positions_view(self.positions@) =~= before.update(i as int, ev));
            },
            None => {
                let ghost pv = position@;
                self.positions.push(position);
                assert(positions_view(self.positions@) =~= before.push(pv));
            },
        }
    }

    /// Removes the first position with the symbol and returns it.
    pub fn remove_position(&mut self, symbol: &str) -> (r: Option<Position>)
        ensures
            match symbol_index(old(self)@.positions, symbol@, 0) {
                Some(i) => r is Some && r->Some_0@ == old(self)@.positions[i] && final(self)@
                    == (WalletView { positions: old(self)@.positions.remove(i), ..old(self)@ }),
                None => r is None && final(self)@ == old(self)@,
            },
    {
        let ghost before = self@.positions;
        match self.find_position(symbol) {
            Some(i) => {
                let p = self.positions.remove(i);
                assert(positions_view(self.positions@) =~= before.remove(i as int));
                Some(p)
            },
            None => None,
        }
    }

    /// The first position with the symbol.
    pub fn get_position(&self, symbol: &str) -> (r: Option<&Position>)
        ensures
            match symbol_index(self@.positions, symbol@, 0) {
                Some(i) => r is Some && r->Some_0@ == self@.positions[i],
                None => r is None,
            },
    {
        match self.find_position(symbol) {
            Some(i) => Some(&self.positions[i]),
            None => None,
        }
    }

    /// The first position with the symbol, to change in place.
    pub fn get_position_mut(&mut self, symbol: &str) -> (r: Option<&mut Position>)
        ensures
            match symbol_index(old(self)@.positions, symbol@, 0) {
                Some(i) => r matches Some(p) && p@ == old(self)@.positions[i] && final(self)@ == (
                WalletView { positions: old(self)@.positions.update(i, final(p)@), ..old(self)@ }),
                None => r is None && final(self)@ == old(self)@,
            },
    {
        proof {
            lemma_positions_view_update();
        }
        match self.find_position(symbol) {
            Some(i) => Some(&mut self.positions[i]),
            None => None,
        }
    }

    /// The positions, to change in place.
    pub fn positions_mut(&mut self) -> (r: &mut Vec<Position>)
        ensures
            positions_view(r@) == old(self)@.positions,
            final(self)@ == (WalletView { positions: positions_view(final(r)@), ..old(self)@ }),
    {
        &mut self.positions
    }

    /// Replaces the cash balance.
    pub fn set_cash(&mut self, cash: Money)
        ensures
            final(self)@ == (WalletView { cash: cash@, ..old(self)@ }),
    {
        self.cash = cash;
    }

    /// Adds to the cash balance; an amount in another currency is ignored.
    pub fn add_cash(&mut self, amount: Money)
        requires
            old(self)@.cash.currency == amount@.currency ==> decimal_add(
                old(self)@.cash.amount,
                amount@.amount,
            ) is Some,
        ensures
            final(self)@ == (if old(self)@.cash.currency == amount@.currency {
                WalletView {
                    cash: MoneyView {
                        amount: decimal_add(old(self)@.cash.amount, amount@.amount)->Some_0,
                        currency: old(self)@.cash.currency,
                    },
                    ..old(self)@
                }
            } else {
                old(self)@
            }),
    {
        match self.cash.checked_add(&amount) {
            Some(c) => {
                self.cash = c;
            },
            None => {},
        }
    }

    /// Subtracts from the cash balance; an amount in another currency is ignored.
    pub fn subtract_cash(&mut self, amount: Money)
        requires
            old(self)@.cash.currency == amount@.currency ==> decimal_sub(
                old(self)@.cash.amount,
                amount@.amount,
            ) is Some,
        ensures
            final(self)@ == (if old(self)@.cash.currency == amount@.currency {
                WalletView {
                    cash: MoneyView {
                        amount: decimal_sub(old(self)@.cash.amount, amount@.amount)->Some_0,
                        currency: old(self)@.cash.currency,
                    },
                    ..old(self)@
                }
            } else {
                old(self)@
            }),
    {
        match self.cash.checked_sub(&amount) {
            Some(c) => {
                self.cash = c;
            },
            None => {},
        }
    }

    /// The total market value of all positions, in the base currency.
    pub fn total_positions_value(&self) -> (r: Money)
        requires
            positions_total(self@.positions) is Some,
        ensures
            r@ == (MoneyView {
                amount: positions_total(self@.positions)->Some_0,
                currency: self@.base_currency,
            }),
    {
        let ghost ps = self@.positions;
        let mut total = Decimal::zero();
        let mut i: usize = 0;
        while i < self.positions.len()
            invariant
                i <= self.positions.len(),
                ps == self@.positions,
                ps == positions_view(self.positions@),
                positions_total(ps) is Some,
                Some(total@) == positions_total(ps.take(i as int)),
            decreases self.positions.len() - i,
        {
            proof {
                lemma_positions_total_prefix(ps, i as int + 1);
                assert(ps.take(i + 1).drop_last() =~= ps.take(i as int));
                assert(ps.take(i + 1).last() == ps[i as int]);
            }
            let mv = self.positions[i].market_value();
            total = match total.checked_add(&mv.amount()) {
                Some(t) => t,
                None => vstd::pervasive::unreached(),
            };
            i = i + 1;
        }
        assert(ps.take(self.positions.len() as int) =~= ps);
        Money::new(total, self.base_currency.as_str())
    }

    /// Whether the total value is computable (what `total_value` needs).
    pub fn total_is_defined(&self) -> (b: bool)
        ensures
            b == total_defined(self@),
    {
        let ghost ps = self@.positions;
        let mut acc: Option<Decimal> = Some(Decimal::zero());
        let mut i: usize = 0;
        assert(ps.take(0) =~= Seq::<PositionView>::empty());
        while i < self.positions.len()
            invariant
                i <= self.positions.len(),
                ps == self@.positions,
                ps == positions_view(self.positions@),
                crate::domain::decimal::opt_view(acc) == positions_total(ps.take(i as int)),
            decreases self.positions.len() - i,
        {
            proof {
                assert(ps.take(i + 1).drop_last() =~= ps.take(i as int));
                assert(ps.take(i + 1).last() == ps[i as int]);
                assert(ps[i as int] == self.positions@[i as int]@);
            }
            let p = &self.positions[i];
            let mv = p.current_price().amount().checked_mul(&p.quantity());
            acc = match (acc, mv) {
                (Some(a), Some(m)) => a.checked_add(&m),
                _ => None,
            };
            i = i + 1;
        }
        assert(ps.take(self.positions.len() as int) =~= ps);
        match acc {
            None => false,
            Some(pv) => {
                if chars_eq(self.cash.currency(), self.base_currency.as_str()) {
                    self.cash.amount().checked_add(&pv).is_some()
                } else {
                    true
                }
            },
        }
    }

    /// Whether the current allocation is computable (what `current_allocation` needs).
    pub fn allocation_is_defined(&self) -> (b: bool)
        ensures
            b == allocation_defined(self@),
    {
        if !self.total_is_defined() {
            return false;
        }
        let total = self.total_value().amount();
        if total.is_zero() {
            return true;
        }
        let ghost ps = self@.positions;
        proof {
            lemma_positions_total_prefix(ps, ps.len() as int);
        }
        let hundred = Decimal::from_u32(100);
        let mut i: usize = 0;
        while i < self.positions.len()
            invariant
                i <= self.positions.len(),
                ps == self@.positions,
                ps == positions_view(self.positions@),
                total@ == spec_total_value(self@).amount,
                total@.mantissa != 0,
                total_defined(self@),
                hundred@ == int_view(100),
                forall|j: int| 0 <= j < ps.len() ==> (#[trigger] spec_market_value(ps[j])) is Some,
                forall|j: int| 0 <= j < i ==> (#[trigger] position_percent(ps[j], total@)) is Some,
            decreases self.positions.len() - i,
        {
            let p = &self.positions[i];
            assert(ps[i as int] == p@);
            assert(spec_market_value(ps[i as int]) is Some);
            let mv = p.market_value();
            let ok = match mv.amount().checked_div(&total) {
                Some(q) => q.checked_mul(&hundred).is_some(),
                None => false,
            };
            if !ok {
                assert(position_percent(ps[i as int], total@) is None);
                assert(position_percent(self@.positions[i as int], spec_total_value(self@).amount)
                    is None);
                return false;
            }
            i = i + 1;
        }
        true
    }

    /// The total portfolio value: cash plus positions, or the positions alone when the cash
    /// is in another currency.
    pub fn total_value(&self) -> (r: Money)
        requires
            total_defined(self@),
        ensures
            r@ == spec_total_value(self@),
    {
        let positions_value = self.total_positions_value();
        match self.cash.checked_add(&positions_value) {
            Some(t) => t,
            None => positions_value,
        }
    }

    /// The current allocation percentages of the positions.
    pub fn current_allocation(&self) -> (r: DesiredAllocation)
        requires
            allocation_defined(self@),
        ensures
            r@ == spec_current_allocation(self@),
    {
        let total = self.total_value().amount();
        if total.is_zero() {
            return DesiredAllocation::new();
        }
        let ghost ps = self@.positions;
        let ghost src = position_percents(ps, total@);
        proof {
            lemma_positions_total_prefix(ps, ps.len() as int);
        }
        let mut alloc = DesiredAllocation::new();
        let hundred = Decimal::from_u32(100);
        let mut i: usize = 0;
        assert(src.take(0) =~= Seq::<(Seq<char>, DecimalView)>::empty());
        while i < self.positions.len()
            invariant
                i <= self.positions.len(),
                ps == self@.positions,
                ps == positions_view(self.positions@),
                src == position_percents(ps, total@),
                total@ == spec_total_value(self@).amount,
                allocation_defined(self@),
                total@.mantissa != 0,
                hundred@ == int_view(100),
                forall|j: int| 0 <= j < ps.len() ==> (#[trigger] spec_market_value(ps[j])) is Some,
                alloc@ == insert_all(Seq::empty(), src.take(i as int)),
            decreases self.positions.len() - i,
        {
            let p = &self.positions[i];
            assert(ps[i as int] == p@);
            assert(position_percent(ps[i as int], total@) is Some);
            let mv = p.market_value();
            let pct = match mv.amount().checked_div(&total) {
                Some(q) => match q.checked_mul(&hundred) {
                    Some(x) => x,
                    None => vstd::pervasive::unreached(),
                },
                None => vstd::pervasive::unreached(),
            };
            alloc.set(p.symbol(), pct);
            assert(src.take(i + 1).drop_last() =~= src.take(i as int));
            i = i + 1;
        }
        assert(src.take(self.positions.len() as int) =~= src);
        alloc
    }

    /// The cash as a percentage of the total value (zero when the total is zero).
    pub fn cash_percentage(&self) -> (r: Decimal)
        requires
            total_defined(self@),
            spec_total_value(self@).amount.mantissa != 0 ==> decimal_div(
                self@.cash.amount,
                spec_total_value(self@).amount,
            ) is Some && decimal_mul(
                decimal_div(self@.cash.amount, spec_total_value(self@).amount)->Some_0,
                int_view(100),
            ) is Some,
        ensures
            r@ == (if spec_total_value(self@).amount.mantissa == 0 {
                int_view(0)
            } else {
                decimal_mul(
                    decimal_div(self@.cash.amount, spec_total_value(self@).amount)->Some_0,
                    int_view(100),
                )->Some_0
            }),
    {
        let total = self.total_value().amount();
        if total.is_zero() {
            return Decimal::zero();
        }
        match self.cash.amount().checked_div(&total) {
            Some(q) => match q.checked_mul(&Decimal::from_u32(100)) {
                Some(x) => x,
                None => vstd::pervasive::unreached(),
            },
            None => vstd::pervasive::unreached(),
        }
    }
}

impl Default for Wallet {
    fn default() -> (r: Wallet)
        ensures
            r@.base_currency.len() == 0,
            r@.cash == (MoneyView { amount: int_view(0), currency: Seq::empty() }),
            r@.positions.len() == 0,
    {
        proof {
            reveal_strlit("");
            assert(""@ =~= Seq::<char>::empty());
        }
        Wallet::new("")
    }
}

} // verus!
