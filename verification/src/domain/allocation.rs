//! Recursive allocations: a ticker to hold, or portions (percentages) of nested
//! allocations, and the strategy kinds they use.

use vstd::prelude::*;
use crate::assoc::{assoc_get, assoc_insert, keys_unique, lemma_assoc_insert};
use crate::domain::decimal::{
    decimal_add, decimal_div, decimal_mul, decimal_sub, int_view, value_lt, Decimal, DecimalView,
};
use crate::domain::wallet::{abs_view, decimal_sum, entries_view, DesiredAllocation};
use crate::text::{chars_eq, lowercase, unicode_lowercase};

verus! {

/// The type of allocation strategy.
#[derive(Debug, Clone, PartialEq, Eq)]
pub enum StrategyType {
    /// Balancer strategy - maintains target allocations across sub-allocations.
    Balancer,
    /// Hold strategy - maintains a position in a single ticker.
    Hold,
    /// Scalper strategy - buy-low/sell-high with FIFO tracking.
    Scalper,
    /// DCA (Dollar Cost Average) strategy - regular purchases.
    Dca,
    /// Custom strategy with a name.
    Custom(String),
}

/// The strategy a name stands for: matched on its lower-case form, otherwise a custom
/// strategy keeping the name as given.
pub open spec fn spec_strategy_from_name(name: Seq<char>) -> StrategyKind {
    let l = unicode_lowercase(name);
    if l == "balancer"@ || l == "balance"@ || l == "rebalance"@ {
        StrategyKind::Balancer
    } else if l == "hold"@ || l == "holding"@ || l == "hodl"@ {
        StrategyKind::Hold
    } else if l == "scalp"@ || l == "scalper"@ || l == "scalping"@ {
        StrategyKind::Scalper
    } else if l == "dca"@ || l == "dollar_cost_average"@ {
        StrategyKind::Dca
    } else {
        StrategyKind::Custom(name)
    }
}

/// The mathematical form of a `StrategyType`.
pub enum StrategyKind {
    Balancer,
    Hold,
    Scalper,
    Dca,
    Custom(Seq<char>),
}

impl StrategyType {
    pub open spec fn view(&self) -> StrategyKind {
        match self {
            StrategyType::Balancer => StrategyKind::Balancer,
            StrategyType::Hold => StrategyKind::Hold,
            StrategyType::Scalper => StrategyKind::Scalper,
            StrategyType::Dca => StrategyKind::Dca,
            StrategyType::Custom(n) => StrategyKind::Custom(n@),
        }
    }

    /// The name of a strategy kind.
    pub open spec fn spec_name(k: StrategyKind) -> Seq<char> {
        match k {
            StrategyKind::Balancer => "balancer"@,
            StrategyKind::Hold => "hold"@,
            StrategyKind::Scalper => "scalper"@,
            StrategyKind::Dca => "dca"@,
            StrategyKind::Custom(n) => n,
        }
    }

    /// The default strategy (balancer).
    pub fn default() -> (r: Self)
        ensures
            r.view() == StrategyKind::Balancer,
    {
        StrategyType::Balancer
    }

    /// Creates a strategy type from a string name.
    pub fn from_name(name: &str) -> (r: Self)
        ensures
            r.view() == spec_strategy_from_name(name@),
    {
        let l = lowercase(name);
        let l = l.as_str();
        if chars_eq(l, "balancer") || chars_eq(l, "balance") || chars_eq(l, "rebalance") {
            StrategyType::Balancer
        } else if chars_eq(l, "hold") || chars_eq(l, "holding") || chars_eq(l, "hodl") {
            StrategyType::Hold
        } else if chars_eq(l, "scalp") || chars_eq(l, "scalper") || chars_eq(l, "scalping") {
            StrategyType::Scalper
        } else if chars_eq(l, "dca") || chars_eq(l, "dollar_cost_average") {
            StrategyType::Dca
        } else {
            StrategyType::Custom(name.to_string())
        }
    }

    /// Returns the strategy name as a string.
    pub fn as_str(&self) -> (r: &str)
        ensures
            r@ == Self::spec_name(self.view()),
    {
        match self {
            StrategyType::Balancer => "balancer",
            StrategyType::Hold => "hold",
            StrategyType::Scalper => "scalper",
            StrategyType::Dca => "dca",
            StrategyType::Custom(name) => name.as_str(),
        }
    }
}

/// A portion of an allocation with its own strategy.
#[derive(Debug)]
pub struct AllocationPortion {
    /// The percentage of the parent allocation (0-100).
    pub percentage: Decimal,
    /// The allocation details for this portion.
    pub allocation: Allocation,
}

/// A recursive allocation: a ticker (hold or scalper), or portions managed by a balancer.
#[derive(Debug)]
pub struct Allocation {
    /// The strategy to use for this allocation.
    pub strategy: StrategyType,
    /// The ticker symbol (for hold/scalper strategies).
    pub ticker: Option<String>,
    /// Child portions (for balancer strategy).
    pub portions: Vec<AllocationPortion>,
    /// Strategy-specific parameters, each key once.
    pub params: Vec<(String, String)>,
}

pub open spec fn params_view(ps: Seq<(String, String)>) -> Seq<(Seq<char>, Seq<char>)> {
    ps.map_values(|p: (String, String)| (p.0@, p.1@))
}

/// The percentages of portions, in order.
pub open spec fn portion_percents(ps: Seq<AllocationPortion>) -> Seq<DecimalView> {
    ps.map_values(|p: AllocationPortion| p.percentage@)
}

/// The arithmetic of `is_valid` does not overflow.
pub open spec fn valid_defined(a: Allocation) -> bool {
    a.portions@.len() > 0 ==> decimal_sum(portion_percents(a.portions@)) is Some && decimal_sub(
        decimal_sum(portion_percents(a.portions@))->Some_0,
        int_view(100),
    ) is Some
}

/// Valid: a ticker allocation (no portions) needs a ticker; portions must sum to within 1
/// of 100.
pub open spec fn spec_is_valid(a: Allocation) -> bool {
    if a.portions@.len() == 0 {
        a.ticker is Some
    } else {
        value_lt(
            abs_view(
                decimal_sub(decimal_sum(portion_percents(a.portions@))->Some_0, int_view(100))->Some_0,
            ),
            int_view(1),
        )
    }
}

/// Tickers met walking an allocation (its own ticker first, then its portions in order),
/// each added once to `acc`.
pub open spec fn tickers_into(a: Allocation, acc: Seq<Seq<char>>) -> Seq<Seq<char>>
    decreases a, 0int,
{
    let acc1 = match a.ticker {
        Some(t) => if acc.contains(t@) {
            acc
        } else {
            acc.push(t@)
        },
        None => acc,
    };
    tickers_portions(a.portions@, 0, acc1)
}

/// Tickers of the portions from `i` on, added to `acc`.
pub open spec fn tickers_portions(ps: Seq<AllocationPortion>, i: int, acc: Seq<Seq<char>>) -> Seq<
    Seq<char>,
>
    decreases ps, ps.len() - i,
{
    if i < 0 || i >= ps.len() {
        acc
    } else {
        tickers_portions(ps, i + 1, tickers_into(ps[i].allocation, acc))
    }
}

/// Adding `v` to the entry of `k` (a missing entry starts at zero).
pub open spec fn add_entry(acc: Seq<(Seq<char>, DecimalView)>, k: Seq<char>, v: DecimalView) -> Seq<
    (Seq<char>, DecimalView),
> {
    let old = match assoc_get(acc, k) {
        Some(o) => o,
        None => int_view(0),
    };
    assoc_insert(acc, k, decimal_add(old, v)->Some_0)
}

/// The addition of `add_entry` does not overflow.
pub open spec fn add_entry_defined(acc: Seq<(Seq<char>, DecimalView)>, k: Seq<char>, v: DecimalView) -> bool {
    let old = match assoc_get(acc, k) {
        Some(o) => o,
        None => int_view(0),
    };
    decimal_add(old, v) is Some
}

/// A portion's effective percentage: `parent * percentage / 100`.
pub open spec fn effective(parent: DecimalView, pct: DecimalView) -> DecimalView {
    decimal_div(decimal_mul(parent, pct)->Some_0, int_view(100))->Some_0
}

/// Flattening an allocation worth `parent` percent into `acc`: a ticker gets the whole
/// percentage; otherwise each portion in turn gets its effective share.
pub open spec fn flat_into(a: Allocation, parent: DecimalView, acc: Seq<(Seq<char>, DecimalView)>) -> Seq<
    (Seq<char>, DecimalView),
>
    decreases a, 0int,
{
    match a.ticker {
        Some(t) => add_entry(acc, t@, parent),
        None => flat_portions(a.portions@, 0, parent, acc),
    }
}

/// Flattening the portions from `i` on.
pub open spec fn flat_portions(
    ps: Seq<AllocationPortion>,
    i: int,
    parent: DecimalView,
    acc: Seq<(Seq<char>, DecimalView)>,
) -> Seq<(Seq<char>, DecimalView)>
    decreases ps, ps.len() - i,
{
    if i < 0 || i >= ps.len() {
        acc
    } else {
        flat_portions(
            ps,
            i + 1,
            parent,
            flat_into(ps[i].allocation, effective(parent, ps[i].percentage@), acc),
        )
    }
}

/// Every operation of `flat_into` is defined.
pub open spec fn flat_ok(a: Allocation, parent: DecimalView, acc: Seq<(Seq<char>, DecimalView)>) -> bool
    decreases a, 0int,
{
    match a.ticker {
        Some(t) => add_entry_defined(acc, t@, parent),
        None => flat_portions_ok(a.portions@, 0, parent, acc),
    }
}

/// Every operation of `flat_portions` is defined.
pub open spec fn flat_portions_ok(
    ps: Seq<AllocationPortion>,
    i: int,
    parent: DecimalView,
    acc: Seq<(Seq<char>, DecimalView)>,
) -> bool
    decreases ps, ps.len() - i,
{
    if i < 0 || i >= ps.len() {
        true
    } else {
        &&& decimal_mul(parent, ps[i].percentage@) is Some
        &&& decimal_div(decimal_mul(parent, ps[i].percentage@)->Some_0, int_view(100)) is Some
        &&& flat_ok(ps[i].allocation, effective(parent, ps[i].percentage@), acc)
        &&& flat_portions_ok(
            ps,
            i + 1,
            parent,
            flat_into(ps[i].allocation, effective(parent, ps[i].percentage@), acc),
        )
    }
}

/// Flattening keeps each key once.
proof fn lemma_flat_unique(a: Allocation, parent: DecimalView, acc: Seq<(Seq<char>, DecimalView)>)
    requires
        keys_unique(acc),
    ensures
        keys_unique(flat_into(a, parent, acc)),
    decreases a, 0int,
{
    match a.ticker {
        Some(t) => {
            let old = match assoc_get(acc, t@) {
                Some(o) => o,
                None => int_view(0),
            };
            lemma_assoc_insert(acc, t@, decimal_add(old, parent)->Some_0);
        },
        None => {
            lemma_flat_portions_unique(a.portions@, 0, parent, acc);
        },
    }
}

proof fn lemma_flat_portions_unique(
    ps: Seq<AllocationPortion>,
    i: int,
    parent: DecimalView,
    acc: Seq<(Seq<char>, DecimalView)>,
)
    requires
        keys_unique(acc),
    ensures
        keys_unique(flat_portions(ps, i, parent, acc)),
    decreases ps, ps.len() - i,
{
    if 0 <= i < ps.len() {
        lemma_flat_unique(ps[i].allocation, effective(parent, ps[i].percentage@), acc);
        lemma_flat_portions_unique(
            ps,
            i + 1,
            parent,
            flat_into(ps[i].allocation, effective(parent, ps[i].percentage@), acc),
        );
    }
}

/// Adds `v` to the entry of `key` in a flat result.
fn add_to_entry(result: &mut Vec<(String, Decimal)>, key: &String, v: Decimal)
    requires
        add_entry_defined(entries_view(old(result)@), key@, v@),
    ensures
        entries_view(final(result)@) == add_entry(entries_view(old(result)@), key@, v@),
{
    let ghost ev = entries_view(result@);
    let mut i: usize = 0;
    while i < result.len()
        invariant
            i <= result.len(),
            ev == entries_view(result@),
            ev == entries_view(old(result)@),
            add_entry_defined(ev, key@, v@),
            forall|j: int| 0 <= j < i ==> ev[j].0 != key@,
        decreases result.len() - i,
    {
        if chars_eq(result[i].0.as_str(), key.as_str()) {
            proof {
                crate::assoc::lemma_key_index_found(ev, key@, 0, i as int);
            }
            let old = result[i].1;
            assert(ev[i as int] == (result@[i as int].0@, result@[i as int].1@));
            let nv = match old.checked_add(&v) {
                Some(x) => x,
                None => vstd::pervasive::unreached(),
            };
            assert(crate::assoc::assoc_get(ev, key@) == Some(old@));
            assert(nv@ == decimal_add(old@, v@)->Some_0);
            result.set(i, (key.clone(), nv));
            assert(entries_view(result@) =~= ev.update(i as int, (key@, nv@)));
            assert(add_entry(ev, key@, v@) == ev.update(i as int, (key@, nv@)));
            return;
        }
        i = i + 1;
    }
    proof {
        crate::assoc::lemma_key_index_none(ev, key@, 0);
    }
    let nv = match Decimal::zero().checked_add(&v) {
        Some(x) => x,
        None => vstd::pervasive::unreached(),
    };
    result.push((key.clone(), nv));
    assert(entries_view(result@) =~= ev.push((key@, nv@)));
}

impl AllocationPortion {
    /// A portion of `percentage` percent with the allocation.
    pub fn new(percentage: Decimal, allocation: Allocation) -> (r: AllocationPortion)
        ensures
            r.percentage == percentage,
            r.allocation == allocation,
    {
        AllocationPortion { percentage, allocation }
    }

    /// A portion holding a ticker.
    pub fn hold(ticker: &str, percentage: Decimal) -> (r: AllocationPortion)
        ensures
            r.percentage == percentage,
            r.allocation.strategy.view() == StrategyKind::Hold,
            r.allocation.ticker is Some && r.allocation.ticker->Some_0@ == ticker@,
            r.allocation.portions@.len() == 0,
            r.allocation.params@.len() == 0,
    {
        AllocationPortion { percentage, allocation: Allocation::hold(ticker) }
    }
}

impl Allocation {
    /// An empty balancer allocation.
    pub fn new() -> (r: Allocation)
        ensures
            r.strategy.view() == StrategyKind::Balancer,
            r.ticker is None,
            r.portions@.len() == 0,
            r.params@.len() == 0,
    {
        Allocation {
            strategy: StrategyType::Balancer,
            ticker: None,
            portions: Vec::new(),
            params: Vec::new(),
        }
    }

    /// A balancer over the portions.
    pub fn balancer(portions: Vec<AllocationPortion>) -> (r: Allocation)
        ensures
            r.strategy.view() == StrategyKind::Balancer,
            r.ticker is None,
            r.portions == portions,
            r.params@.len() == 0,
    {
        Allocation { strategy: StrategyType::Balancer, ticker: None, portions, params: Vec::new() }
    }

    /// Holding a ticker.
    pub fn hold(ticker: &str) -> (r: Allocation)
        ensures
            r.strategy.view() == StrategyKind::Hold,
            r.ticker is Some && r.ticker->Some_0@ == ticker@,
            r.portions@.len() == 0,
            r.params@.len() == 0,
    {
        Allocation {
            strategy: StrategyType::Hold,
            ticker: Some(String::from_str(ticker)),
            portions: Vec::new(),
            params: Vec::new(),
        }
    }

    /// Scalping a ticker.
    pub fn scalper(ticker: &str) -> (r: Allocation)
        ensures
            r.strategy.view() == StrategyKind::Scalper,
            r.ticker is Some && r.ticker->Some_0@ == ticker@,
            r.portions@.len() == 0,
            r.params@.len() == 0,
    {
        Allocation {
            strategy: StrategyType::Scalper,
            ticker: Some(String::from_str(ticker)),
            portions: Vec::new(),
            params: Vec::new(),
        }
    }

    /// A balancer holding each ticker at its percentage, in order.
    pub fn from_simple(allocations: &[(String, Decimal)]) -> (r: Allocation)
        ensures
            r.strategy.view() == StrategyKind::Balancer,
            r.ticker is None,
            r.params@.len() == 0,
            r.portions@.len() == allocations@.len(),
            forall|i: int|
                0 <= i < allocations@.len() ==> {
                    &&& (#[trigger] r.portions@[i]).percentage == allocations@[i].1
                    &&& r.portions@[i].allocation.strategy.view() == StrategyKind::Hold
                    &&& r.portions@[i].allocation.ticker is Some
                    &&& r.portions@[i].allocation.ticker->Some_0@ == allocations@[i].0@
                    &&& r.portions@[i].allocation.portions@.len() == 0
                },
    {
        let mut portions: Vec<AllocationPortion> = Vec::new();
        let mut i: usize = 0;
        while i < allocations.len()
            invariant
                i <= allocations.len(),
                portions@.len() == i,
                forall|j: int|
                    0 <= j < i ==> {
                        &&& (#[trigger] portions@[j]).percentage == allocations@[j].1
                        &&& portions@[j].allocation.strategy.view() == StrategyKind::Hold
                        &&& portions@[j].allocation.ticker is Some
                        &&& portions@[j].allocation.ticker->Some_0@ == allocations@[j].0@
                        &&& portions@[j].allocation.portions@.len() == 0
                    },
            decreases allocations.len() - i,
        {
            portions.push(AllocationPortion::hold(allocations[i].0.as_str(), allocations[i].1));
            i = i + 1;
        }
        Allocation::balancer(portions)
    }

    /// A balancer holding each ticker of a desired allocation at its percentage.
    pub fn from_map(allocations: &DesiredAllocation) -> (r: Allocation)
        ensures
            r.strategy.view() == StrategyKind::Balancer,
            r.ticker is None,
            r.params@.len() == 0,
            r.portions@.len() == allocations@.len(),
            forall|i: int|
                0 <= i < allocations@.len() ==> {
                    &&& (#[trigger] r.portions@[i]).percentage@ == allocations@[i].1
                    &&& r.portions@[i].allocation.strategy.view() == StrategyKind::Hold
                    &&& r.portions@[i].allocation.ticker is Some
                    &&& r.portions@[i].allocation.ticker->Some_0@ == allocations@[i].0
                    &&& r.portions@[i].allocation.portions@.len() == 0
                },
    {
        let entries = allocations.iter();
        assert(entries_view(entries@) == allocations@);
        let r = Allocation::from_simple(entries);
        assert forall|i: int| 0 <= i < allocations@.len() implies (#[trigger] r.portions@[i]).percentage@
            == allocations@[i].1 by {
            assert(entries_view(entries@)[i] == (entries@[i].0@, entries@[i].1@));
        }
        assert forall|i: int| 0 <= i < allocations@.len() implies (#[trigger] r.portions@[i]).allocation.ticker->Some_0@
            == allocations@[i].0 by {
            assert(entries_view(entries@)[i] == (entries@[i].0@, entries@[i].1@));
        }
        r
    }

    /// Sets a strategy parameter (replacing an earlier value of the key).
    pub fn set_param(&mut self, key: &str, value: &str)
        ensures
            params_view(final(self).params@) == assoc_insert(
                params_view(old(self).params@),
                key@,
                value@,
            ),
            final(self).strategy == old(self).strategy,
            final(self).ticker == old(self).ticker,
            final(self).portions == old(self).portions,
    {
        let ghost pv = params_view(self.params@);
        let mut i: usize = 0;
        while i < self.params.len()
            invariant
                i <= self.params.len(),
                pv == params_view(self.params@),
                pv == params_view(old(self).params@),
                self.strategy == old(self).strategy,
                self.ticker == old(self).ticker,
                self.portions == old(self).portions,
                forall|j: int| 0 <= j < i ==> pv[j].0 != key@,
            decreases self.params.len() - i,
        {
            if chars_eq(self.params[i].0.as_str(), key) {
                proof {
                    crate::assoc::lemma_key_index_found(pv, key@, 0, i as int);
                }
                self.params.set(i, (String::from_str(key), String::from_str(value)));
                assert(params_view(self.params@) =~= pv.update(i as int, (key@, value@)));
                return;
            }
            i = i + 1;
        }
        proof {
            crate::assoc::lemma_key_index_none(pv, key@, 0);
        }
        self.params.push((String::from_str(key), String::from_str(value)));
        assert(params_view(self.params@) =~= pv.push((key@, value@)));
    }

    /// Gets a strategy parameter.
    pub fn get_param(&self, key: &str) -> (r: Option<&str>)
        ensures
            match assoc_get(params_view(self.params@), key@) {
                Some(v) => r is Some && r->Some_0@ == v,
                None => r is None,
            },
    {
        let ghost pv = params_view(self.params@);
        let mut i: usize = 0;
        while i < self.params.len()
            invariant
                i <= self.params.len(),
                pv == params_view(self.params@),
                forall|j: int| 0 <= j < i ==> pv[j].0 != key@,
            decreases self.params.len() - i,
        {
            if chars_eq(self.params[i].0.as_str(), key) {
                proof {
                    crate::assoc::lemma_key_index_found(pv, key@, 0, i as int);
                }
                return Some(self.params[i].1.as_str());
            }
            i = i + 1;
        }
        proof {
            crate::assoc::lemma_key_index_none(pv, key@, 0);
        }
        None
    }

    /// Adds a portion.
    pub fn add_portion(&mut self, portion: AllocationPortion)
        ensures
            final(self).portions@ == old(self).portions@.push(portion),
            final(self).strategy == old(self).strategy,
            final(self).ticker == old(self).ticker,
            final(self).params == old(self).params,
    {
        self.portions.push(portion);
    }

    /// A hold strategy with a ticker.
    pub fn is_hold(&self) -> (b: bool)
        ensures
            b == (self.strategy.view() == StrategyKind::Hold && self.ticker is Some),
    {
        let hold = match self.strategy {
            StrategyType::Hold => true,
            _ => false,
        };
        hold && self.ticker.is_some()
    }

    /// A balancer strategy with portions.
    pub fn is_balancer(&self) -> (b: bool)
        ensures
            b == (self.strategy.view() == StrategyKind::Balancer && self.portions@.len() > 0),
    {
        let bal = match self.strategy {
            StrategyType::Balancer => true,
            _ => false,
        };
        bal && self.portions.len() > 0
    }

    /// Adds the tickers met in the allocation, once each.
    fn collect_tickers(&self, tickers: &mut Vec<String>)
        ensures
            crate::strategy::order_text::names(final(tickers)@) == tickers_into(
                *self,
                crate::strategy::order_text::names(old(tickers)@),
            ),
        decreases self, 0int,
    {
        match &self.ticker {
            Some(t) => {
                let ghost before = crate::strategy::order_text::names(tickers@);
                let mut found = false;
                let mut k: usize = 0;
                while k < tickers.len()
                    invariant
                        k <= tickers.len(),
                        before == crate::strategy::order_text::names(tickers@),
                        found == before.take(k as int).contains(t@),
                    decreases tickers.len() - k,
                {
                    proof {
                        crate::strategy::order_text::lemma_take_push_contains(before, k as int);
                    }
                    if chars_eq(tickers[k].as_str(), t.as_str()) {
                        found = true;
                    }
                    k = k + 1;
                }
                assert(before.take(tickers.len() as int) =~= before);
                if !found {
                    tickers.push(t.clone());
                    assert(crate::strategy::order_text::names(tickers@) =~= before.push(t@));
                }
            },
            None => {},
        }
        let ghost acc1 = crate::strategy::order_text::names(tickers@);
        let mut i: usize = 0;
        while i < self.portions.len()
            invariant
                i <= self.portions.len(),
                tickers_portions(self.portions@, 0, acc1) == tickers_portions(
                    self.portions@,
                    i as int,
                    crate::strategy::order_text::names(tickers@),
                ),
            decreases self.portions.len() - i,
        {
            assert(decreases_to!(*self => self.portions));
            self.portions[i].allocation.collect_tickers(tickers);
            i = i + 1;
        }
    }

    /// Every ticker of the allocation (and its portions, recursively), once each, in the
    /// order met.
    pub fn all_tickers(&self) -> (r: Vec<String>)
        ensures
            crate::strategy::order_text::names(r@) == tickers_into(*self, Seq::empty()),
    {
        let mut tickers: Vec<String> = Vec::new();
        assert(crate::strategy::order_text::names(tickers@) =~= Seq::<Seq<char>>::empty());
        self.collect_tickers(&mut tickers);
        tickers
    }

    /// The sum of the portions' percentages.
    pub fn total_percentage(&self) -> (r: Decimal)
        requires
            decimal_sum(portion_percents(self.portions@)) is Some,
        ensures
            Some(r@) == decimal_sum(portion_percents(self.portions@)),
    {
        let ghost vals = portion_percents(self.portions@);
        let mut total = Decimal::zero();
        let mut i: usize = 0;
        while i < self.portions.len()
            invariant
                i <= self.portions.len(),
                vals == portion_percents(self.portions@),
                decimal_sum(vals) is Some,
                Some(total@) == decimal_sum(vals.take(i as int)),
            decreases self.portions.len() - i,
        {
            proof {
                crate::domain::wallet::lemma_sum_prefix_some(vals, i as int + 1);
                assert(vals.take(i + 1).drop_last() =~= vals.take(i as int));
            }
            total = match total.checked_add(&self.portions[i].percentage) {
                Some(t) => t,
                None => vstd::pervasive::unreached(),
            };
            i = i + 1;
        }
        assert(vals.take(self.portions.len() as int) =~= vals);
        total
    }

    /// Valid: a ticker allocation (no portions) needs a ticker; portions must sum to within
    /// 1 of 100.
    pub fn is_valid(&self) -> (b: bool)
        requires
            valid_defined(*self),
        ensures
            b == spec_is_valid(*self),
    {
        if self.portions.len() == 0 {
            return self.ticker.is_some();
        }
        let total = self.total_percentage();
        let diff = match total.checked_sub(&Decimal::from_u32(100)) {
            Some(d) => d.abs(),
            None => vstd::pervasive::unreached(),
        };
        diff.lt(&Decimal::one())
    }

    /// Scales the portions to sum to 100: each percentage is multiplied by `100 / total`
    /// (nothing changes when the total is zero).
    pub fn normalize(&mut self)
        requires
            decimal_sum(portion_percents(old(self).portions@)) is Some,
            decimal_sum(portion_percents(old(self).portions@))->Some_0.mantissa != 0 ==> {
                let f = decimal_div(
                    int_view(100),
                    decimal_sum(portion_percents(old(self).portions@))->Some_0,
                );
                &&& f is Some
                &&& forall|i: int|
                    0 <= i < old(self).portions@.len() ==> decimal_mul(
                        #[trigger] old(self).portions@[i].percentage@,
                        f->Some_0,
                    ) is Some
            },
        ensures
            final(self).strategy == old(self).strategy,
            final(self).ticker == old(self).ticker,
            final(self).params == old(self).params,
            final(self).portions@.len() == old(self).portions@.len(),
            forall|i: int|
                0 <= i < old(self).portions@.len() ==> (#[trigger] final(self).portions@[i]).allocation
                    == old(self).portions@[i].allocation,
            forall|i: int|
                0 <= i < old(self).portions@.len() ==> (#[trigger] final(self).portions@[i]).percentage@
                    == if decimal_sum(portion_percents(old(self).portions@))->Some_0.mantissa == 0 {
                    old(self).portions@[i].percentage@
                } else {
                    decimal_mul(
                        old(self).portions@[i].percentage@,
                        decimal_div(
                            int_view(100),
                            decimal_sum(portion_percents(old(self).portions@))->Some_0,
                        )->Some_0,
                    )->Some_0
                },
    {
        let total = self.total_percentage();
        if total.is_zero() {
            return;
        }
        let factor = match Decimal::from_u32(100).checked_div(&total) {
            Some(f) => f,
            None => vstd::pervasive::unreached(),
        };
        let ghost orig = self.portions@;
        let mut ps: Vec<AllocationPortion> = Vec::new();
        std::mem::swap(&mut ps, &mut self.portions);
        let mut out: Vec<AllocationPortion> = Vec::new();
        let mut k: usize = 0;
        assert(ps@ == orig);
        let n0 = ps.len();
        assert(orig.len() == n0);
        assert(orig.subrange(0, orig.len() as int) =~= orig);
        while ps.len() > 0
            invariant
                orig.len() <= usize::MAX,
                k + ps@.len() == orig.len(),
                ps@ == orig.subrange(k as int, orig.len() as int),
                out@.len() == k,
                forall|i: int|
                    0 <= i < orig.len() ==> decimal_mul(#[trigger] orig[i].percentage@, factor@)
                        is Some,
                forall|i: int| 0 <= i < k ==> (#[trigger] out@[i]).allocation == orig[i].allocation,
                forall|i: int|
                    0 <= i < k ==> (#[trigger] out@[i]).percentage@ == decimal_mul(
                        orig[i].percentage@,
                        factor@,
                    )->Some_0,
            decreases ps@.len(),
        {
            let p = ps.remove(0);
            assert(p == orig[k as int]);
            let pct = match p.percentage.checked_mul(&factor) {
                Some(x) => x,
                None => vstd::pervasive::unreached(),
            };
            out.push(AllocationPortion { percentage: pct, allocation: p.allocation });
            k = k + 1;
            assert(ps@ =~= orig.subrange(k as int, orig.len() as int));
        }
        self.portions = out;
    }

    /// The effective percentage of each ticker: an allocation is 100 percent, a ticker takes
    /// all of its allocation's percentage, and each portion its share (`parent * pct / 100`);
    /// a ticker met twice gets the sum.
    pub fn flatten(&self) -> (r: Vec<(String, Decimal)>)
        requires
            flat_ok(*self, int_view(100), Seq::empty()),
        ensures
            entries_view(r@) == flat_into(*self, int_view(100), Seq::empty()),
            keys_unique(entries_view(r@)),
    {
        let mut result: Vec<(String, Decimal)> = Vec::new();
        assert(entries_view(result@) =~= Seq::<(Seq<char>, DecimalView)>::empty());
        self.flatten_recursive(Decimal::from_u32(100), &mut result);
        proof {
            lemma_flat_unique(*self, int_view(100), Seq::empty());
        }
        result
    }

    fn flatten_recursive(&self, parent_pct: Decimal, result: &mut Vec<(String, Decimal)>)
        requires
            flat_ok(*self, parent_pct@, entries_view(old(result)@)),
        ensures
            entries_view(final(result)@) == flat_into(*self, parent_pct@, entries_view(old(result)@)),
        decreases self, 0int,
    {
        match &self.ticker {
            Some(t) => {
                add_to_entry(result, t, parent_pct);
                return;
            },
            None => {},
        }
        let hundred = Decimal::from_u32(100);
        let ghost acc0 = entries_view(result@);
        let mut i: usize = 0;
        while i < self.portions.len()
            invariant
                i <= self.portions.len(),
                hundred@ == int_view(100),
                self.ticker is None,
                flat_portions_ok(self.portions@, i as int, parent_pct@, entries_view(result@)),
                flat_portions(self.portions@, 0, parent_pct@, acc0) == flat_portions(
                    self.portions@,
                    i as int,
                    parent_pct@,
                    entries_view(result@),
                ),
            decreases self.portions.len() - i,
        {
            let portion = &self.portions[i];
            let eff = match parent_pct.checked_mul(&portion.percentage) {
                Some(m) => match m.checked_div(&hundred) {
                    Some(x) => x,
                    None => vstd::pervasive::unreached(),
                },
                None => vstd::pervasive::unreached(),
            };
            assert(decreases_to!(*self => self.portions));
            portion.allocation.flatten_recursive(eff, result);
            i = i + 1;
        }
    }
}

impl Default for Allocation {
    fn default() -> (r: Allocation)
        ensures
            r.strategy.view() == StrategyKind::Balancer,
            r.ticker is None,
            r.portions@.len() == 0,
            r.params@.len() == 0,
    {
        Allocation::new()
    }
}

} // verus!
