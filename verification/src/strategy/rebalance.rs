//! Rebalance actions and plans.

use vstd::prelude::*;
use crate::domain::decimal::{decimal_add, decimal_mul, decimal_text, int_view, Decimal, DecimalView};
use crate::domain::money::{Money, MoneyView};
use crate::domain::order::OrderDirection;
use crate::numparse::{decimal_text as nat_text, u128_to_text};
use crate::text::{append_str, string_of};

verus! {

/// A single rebalancing action to be executed.
#[derive(Debug)]
pub struct RebalanceAction {
    /// The trading symbol.
    pub symbol: String,
    /// The exchange.
    pub exchange: String,
    /// Buy or sell.
    pub direction: OrderDirection,
    /// Number of lots to trade.
    pub lots: u32,
    /// Estimated price per lot.
    pub estimated_price: Money,
    /// Estimated total value of the trade.
    pub estimated_value: Money,
    /// Current allocation percentage.
    pub current_percent: Decimal,
    /// Target allocation percentage after this trade.
    pub target_percent: Decimal,
    /// Priority order (lower = higher priority).
    pub priority: u32,
}

/// The mathematical form of a `RebalanceAction`.
pub struct ActionView {
    pub symbol: Seq<char>,
    pub exchange: Seq<char>,
    pub direction: OrderDirection,
    pub lots: nat,
    pub estimated_price: MoneyView,
    pub estimated_value: MoneyView,
    pub current_percent: DecimalView,
    pub target_percent: DecimalView,
    pub priority: nat,
}

impl View for RebalanceAction {
    type V = ActionView;

    open spec fn view(&self) -> ActionView {
        ActionView {
            symbol: self.symbol@,
            exchange: self.exchange@,
            direction: self.direction,
            lots: self.lots as nat,
            estimated_price: self.estimated_price@,
            estimated_value: self.estimated_value@,
            current_percent: self.current_percent@,
            target_percent: self.target_percent@,
            priority: self.priority as nat,
        }
    }
}

pub open spec fn actions_view(s: Seq<RebalanceAction>) -> Seq<ActionView> {
    s.map_values(|a: RebalanceAction| a@)
}

impl RebalanceAction {
    /// Returns true if this is a buy action.
    pub fn is_buy(&self) -> (b: bool)
        ensures
            b == (self.direction == OrderDirection::Buy),
    {
        match self.direction {
            OrderDirection::Buy => true,
            OrderDirection::Sell => false,
        }
    }

    /// Returns true if this is a sell action.
    pub fn is_sell(&self) -> (b: bool)
        ensures
            b == (self.direction == OrderDirection::Sell),
    {
        match self.direction {
            OrderDirection::Sell => true,
            OrderDirection::Buy => false,
        }
    }

    /// The same action.
    pub fn duplicate(&self) -> (r: RebalanceAction)
        ensures
            r@ == self@,
    {
        RebalanceAction {
            symbol: self.symbol.clone(),
            exchange: self.exchange.clone(),
            direction: self.direction,
            lots: self.lots,
            estimated_price: self.estimated_price.duplicate(),
            estimated_value: self.estimated_value.duplicate(),
            current_percent: self.current_percent,
            target_percent: self.target_percent,
            priority: self.priority,
        }
    }
}

impl Clone for RebalanceAction {
    fn clone(&self) -> (r: RebalanceAction)
        ensures
            r@ == self@,
    {
        self.duplicate()
    }
}

/// Number of sells among actions.
pub open spec fn count_sells(s: Seq<ActionView>) -> nat
    decreases s.len(),
{
    if s.len() == 0 {
        0
    } else {
        count_sells(s.drop_last()) + if s.last().direction == OrderDirection::Sell {
            1nat
        } else {
            0nat
        }
    }
}

/// Number of buys among actions.
pub open spec fn count_buys(s: Seq<ActionView>) -> nat
    decreases s.len(),
{
    if s.len() == 0 {
        0
    } else {
        count_buys(s.drop_last()) + if s.last().direction == OrderDirection::Buy {
            1nat
        } else {
            0nat
        }
    }
}

/// Every action is either a sell or a buy.
pub proof fn lemma_sells_plus_buys(s: Seq<ActionView>)
    ensures
        count_sells(s) + count_buys(s) == s.len(),
    decreases s.len(),
{
    if s.len() > 0 {
        lemma_sells_plus_buys(s.drop_last());
    }
}

/// Adding `v` to a running total: the total is unchanged when the currencies differ.
pub open spec fn add_to_total(total: MoneyView, v: MoneyView) -> MoneyView {
    if total.currency == v.currency {
        MoneyView { amount: decimal_add(total.amount, v.amount)->Some_0, currency: total.currency }
    } else {
        total
    }
}

/// The addition of `add_to_total` does not overflow.
pub open spec fn add_defined(total: MoneyView, v: MoneyView) -> bool {
    total.currency == v.currency ==> decimal_add(total.amount, v.amount) is Some
}

/// A complete rebalancing plan.
#[derive(Debug)]
pub struct RebalancePlan {
    /// Actions to execute, in priority order.
    pub actions: Vec<RebalanceAction>,
    /// Total value of sell orders.
    pub total_sell_value: Money,
    /// Total value of buy orders.
    pub total_buy_value: Money,
    /// Number of trades required.
    pub trade_count: usize,
    /// Whether this is a dry run (no actual trades).
    pub dry_run: bool,
    /// Reason if the plan is empty.
    pub empty_reason: Option<String>,
}

/// The mathematical form of a `RebalancePlan`.
pub struct PlanView {
    pub actions: Seq<ActionView>,
    pub total_sell_value: MoneyView,
    pub total_buy_value: MoneyView,
    pub trade_count: nat,
    pub dry_run: bool,
    pub empty_reason: Option<Seq<char>>,
}

pub open spec fn opt_text(o: Option<String>) -> Option<Seq<char>> {
    match o {
        Some(s) => Some(s@),
        None => None,
    }
}

impl View for RebalancePlan {
    type V = PlanView;

    open spec fn view(&self) -> PlanView {
        PlanView {
            actions: actions_view(self.actions@),
            total_sell_value: self.total_sell_value@,
            total_buy_value: self.total_buy_value@,
            trade_count: self.trade_count as nat,
            dry_run: self.dry_run,
            empty_reason: opt_text(self.empty_reason),
        }
    }
}

/// A plan after `add_action`: the action appended, its value added to the sell or buy
/// total, and the trade count set to the number of actions.
pub open spec fn plan_add(p: PlanView, a: ActionView) -> PlanView {
    PlanView {
        actions: p.actions.push(a),
        total_sell_value: if a.direction == OrderDirection::Sell {
            add_to_total(p.total_sell_value, a.estimated_value)
        } else {
            p.total_sell_value
        },
        total_buy_value: if a.direction == OrderDirection::Sell {
            p.total_buy_value
        } else {
            add_to_total(p.total_buy_value, a.estimated_value)
        },
        trade_count: p.actions.len() + 1,
        ..p
    }
}

/// The addition `add_action` makes does not overflow.
pub open spec fn plan_add_defined(p: PlanView, a: ActionView) -> bool {
    if a.direction == OrderDirection::Sell {
        add_defined(p.total_sell_value, a.estimated_value)
    } else {
        add_defined(p.total_buy_value, a.estimated_value)
    }
}

/// The text of a count.
pub open spec fn count_text(n: nat) -> Seq<char> {
    nat_text(n)
}

/// The money text `<amount> <currency>`.
pub open spec fn money_text(m: MoneyView) -> Seq<char> {
    decimal_text(m.amount) + " "@ + m.currency
}

/// The summary of a plan.
pub open spec fn spec_summary(p: PlanView) -> Seq<char> {
    if p.actions.len() == 0 {
        match p.empty_reason {
            Some(r) => r,
            None => "No rebalancing needed"@,
        }
    } else {
        count_text(p.trade_count) + " trades ("@ + count_text(count_sells(p.actions))
            + " sells for "@ + money_text(p.total_sell_value) + ", "@ + count_text(
            count_buys(p.actions),
        ) + " buys for "@ + money_text(p.total_buy_value) + ")"@
    }
}

/// Stable insertion of `x` by priority: after every action whose priority is not above.
pub open spec fn priority_pos(s: Seq<ActionView>, x: ActionView, from: int) -> int
    decreases s.len() - from,
{
    if from < 0 || from >= s.len() {
        s.len() as int
    } else if x.priority < s[from].priority {
        from
    } else {
        priority_pos(s, x, from + 1)
    }
}

/// The actions sorted by priority, equal priorities keeping their order (a stable sort).
pub open spec fn sorted_by_priority(s: Seq<ActionView>) -> Seq<ActionView>
    decreases s.len(),
{
    if s.len() == 0 {
        Seq::empty()
    } else {
        let r = sorted_by_priority(s.drop_last());
        r.insert(priority_pos(r, s.last(), 0), s.last())
    }
}

proof fn lemma_priority_pos(s: Seq<ActionView>, x: ActionView, from: int)
    requires
        0 <= from <= s.len(),
    ensures
        from <= priority_pos(s, x, from) <= s.len(),
        forall|j: int| from <= j < priority_pos(s, x, from) ==> (#[trigger] s[j]).priority <= x.priority,
        priority_pos(s, x, from) < s.len() ==> x.priority < s[priority_pos(s, x, from)].priority,
    decreases s.len() - from,
{
    if from < s.len() && !(x.priority < s[from].priority) {
        lemma_priority_pos(s, x, from + 1);
    }
}

/// Sorting by priority gives a permutation in non-decreasing priority order.
pub proof fn lemma_sorted_by_priority(s: Seq<ActionView>)
    ensures
        sorted_by_priority(s).to_multiset() == s.to_multiset(),
        forall|i: int, j: int|
            0 <= i < j < sorted_by_priority(s).len() ==> (#[trigger] sorted_by_priority(s)[i]).priority
                <= (#[trigger] sorted_by_priority(s)[j]).priority,
    decreases s.len(),
{
    broadcast use vstd::seq_lib::to_multiset_build, vstd::seq_lib::to_multiset_insert;
    if s.len() == 0 {
        assert(sorted_by_priority(s) =~= s);
    } else {
        let r = sorted_by_priority(s.drop_last());
        lemma_sorted_by_priority(s.drop_last());
        lemma_priority_pos(r, s.last(), 0);
        let p = priority_pos(r, s.last(), 0);
        let n = r.insert(p, s.last());
        assert forall|i: int, j: int| 0 <= i < j < n.len() implies (#[trigger] n[i]).priority
            <= (#[trigger] n[j]).priority by {
            if j < p {
                assert(n[i] == r[i] && n[j] == r[j]);
            } else if j == p {
                assert(n[i] == r[i]);
            } else if i < p {
                assert(n[i] == r[i] && n[j] == r[j - 1]);
            } else if i == p {
                assert(n[j] == r[j - 1]);
                assert(r[p] == r[p]);
            } else {
                assert(n[i] == r[i - 1] && n[j] == r[j - 1]);
            }
        }
        assert(s =~= s.drop_last().push(s.last()));
    }
}

impl RebalancePlan {
    /// Creates an empty plan with zero totals in the currency.
    pub fn new(currency: &str) -> (r: RebalancePlan)
        ensures
            r@ == (PlanView {
                actions: Seq::empty(),
                total_sell_value: MoneyView { amount: int_view(0), currency: currency@ },
                total_buy_value: MoneyView { amount: int_view(0), currency: currency@ },
                trade_count: 0,
                dry_run: false,
                empty_reason: None,
            }),
    {
        let r = RebalancePlan {
            actions: Vec::new(),
            total_sell_value: Money::zero(currency),
            total_buy_value: Money::zero(currency),
            trade_count: 0,
            dry_run: false,
            empty_reason: None,
        };
        assert(r@.actions =~= Seq::<ActionView>::empty());
        r
    }

    /// Creates an empty plan with the reason it is empty.
    pub fn empty_with_reason(currency: &str, reason: &str) -> (r: RebalancePlan)
        ensures
            r@ == (PlanView {
                actions: Seq::empty(),
                total_sell_value: MoneyView { amount: int_view(0), currency: currency@ },
                total_buy_value: MoneyView { amount: int_view(0), currency: currency@ },
                trade_count: 0,
                dry_run: false,
                empty_reason: Some(reason@),
            }),
    {
        let r = RebalancePlan {
            actions: Vec::new(),
            total_sell_value: Money::zero(currency),
            total_buy_value: Money::zero(currency),
            trade_count: 0,
            dry_run: false,
            empty_reason: Some(String::from_str(reason)),
        };
        assert(r@.actions =~= Seq::<ActionView>::empty());
        r
    }

    /// Returns true if the plan has no actions.
    pub fn is_empty(&self) -> (b: bool)
        ensures
            b == (self@.actions.len() == 0),
    {
        self.actions.len() == 0
    }

    /// The sell actions, in order.
    pub fn sells(&self) -> (r: Vec<RebalanceAction>)
        ensures
            actions_view(r@) == self@.actions.filter(|a: ActionView| a.direction == OrderDirection::Sell),
    {
        let ghost src = self@.actions;
        let mut out: Vec<RebalanceAction> = Vec::new();
        let mut i: usize = 0;
        while i < self.actions.len()
            invariant
                i <= self.actions.len(),
                src == self@.actions,
                actions_view(out@) == src.take(i as int).filter(
                    |a: ActionView| a.direction == OrderDirection::Sell,
                ),
            decreases self.actions.len() - i,
        {
            proof {
                assert(src.take(i + 1) =~= src.take(i as int).push(src[i as int]));
                src.take(i as int).lemma_filter_push(
                    src[i as int],
                    |a: ActionView| a.direction == OrderDirection::Sell,
                );
            }
            if self.actions[i].is_sell() {
                let ghost before = actions_view(out@);
                out.push(self.actions[i].duplicate());
                assert(actions_view(out@) =~= before.push(self@.actions[i as int]));
            }
            i = i + 1;
        }
        assert(src.take(self.actions.len() as int) =~= src);
        out
    }

    /// The buy actions, in order.
    pub fn buys(&self) -> (r: Vec<RebalanceAction>)
        ensures
            actions_view(r@) == self@.actions.filter(|a: ActionView| a.direction == OrderDirection::Buy),
    {
        let ghost src = self@.actions;
        let mut out: Vec<RebalanceAction> = Vec::new();
        let mut i: usize = 0;
        while i < self.actions.len()
            invariant
                i <= self.actions.len(),
                src == self@.actions,
                actions_view(out@) == src.take(i as int).filter(
                    |a: ActionView| a.direction == OrderDirection::Buy,
                ),
            decreases self.actions.len() - i,
        {
            proof {
                assert(src.take(i + 1) =~= src.take(i as int).push(src[i as int]));
                src.take(i as int).lemma_filter_push(
                    src[i as int],
                    |a: ActionView| a.direction == OrderDirection::Buy,
                );
            }
            if self.actions[i].is_buy() {
                let ghost before = actions_view(out@);
                out.push(self.actions[i].duplicate());
                assert(actions_view(out@) =~= before.push(self@.actions[i as int]));
            }
            i = i + 1;
        }
        assert(src.take(self.actions.len() as int) =~= src);
        out
    }

    /// The number of sell actions.
    pub fn sell_count(&self) -> (r: usize)
        ensures
            r == count_sells(self@.actions),
    {
        let ghost src = self@.actions;
        let mut n: usize = 0;
        let mut i: usize = 0;
        while i < self.actions.len()
            invariant
                i <= self.actions.len(),
                src == self@.actions,
                n == count_sells(src.take(i as int)),
                n <= i,
            decreases self.actions.len() - i,
        {
            assert(src.take(i + 1).drop_last() =~= src.take(i as int));
            if self.actions[i].is_sell() {
                n = n + 1;
            }
            i = i + 1;
        }
        assert(src.take(self.actions.len() as int) =~= src);
        n
    }

    /// The number of buy actions.
    pub fn buy_count(&self) -> (r: usize)
        ensures
            r == count_buys(self@.actions),
    {
        let ghost src = self@.actions;
        let mut n: usize = 0;
        let mut i: usize = 0;
        while i < self.actions.len()
            invariant
                i <= self.actions.len(),
                src == self@.actions,
                n == count_buys(src.take(i as int)),
                n <= i,
            decreases self.actions.len() - i,
        {
            assert(src.take(i + 1).drop_last() =~= src.take(i as int));
            if self.actions[i].is_buy() {
                n = n + 1;
            }
            i = i + 1;
        }
        assert(src.take(self.actions.len() as int) =~= src);
        n
    }

    /// Whether adding the action to its running total does not overflow (what `add_action`
    /// needs).
    pub fn can_add_action(&self, action: &RebalanceAction) -> (b: bool)
        ensures
            b == plan_add_defined(self@, action@),
    {
        let total = if action.is_sell() { &self.total_sell_value } else { &self.total_buy_value };
        if !crate::text::chars_eq(total.currency(), action.estimated_value.currency()) {
            return true;
        }
        total.amount().checked_add(&action.estimated_value.amount()).is_some()
    }

    /// Adds an action: its value goes to the sell or buy total (unless in another
    /// currency) and the trade count becomes the number of actions.
    pub fn add_action(&mut self, action: RebalanceAction)
        requires
            plan_add_defined(old(self)@, action@),
        ensures
            final(self)@ == plan_add(old(self)@, action@),
    {
        if action.is_sell() {
            match self.total_sell_value.checked_add(&action.estimated_value) {
                Some(t) => {
                    self.total_sell_value = t;
                },
                None => {},
            }
        } else {
            match self.total_buy_value.checked_add(&action.estimated_value) {
                Some(t) => {
                    self.total_buy_value = t;
                },
                None => {},
            }
        }
        let ghost before = actions_view(self.actions@);
        let ghost av = action@;
        self.actions.push(action);
        assert(actions_view(self.actions@) =~= before.push(av));
        self.trade_count = self.actions.len();
    }

    /// Marks this plan as a dry run or not.
    pub fn set_dry_run(&mut self, dry_run: bool)
        ensures
            final(self)@ == (PlanView { dry_run, ..old(self)@ }),
    {
        self.dry_run = dry_run;
    }

    /// Sorts the actions by priority (stable).
    pub fn sort_by_priority(&mut self)
        ensures
            final(self)@ == (PlanView {
                actions: sorted_by_priority(old(self)@.actions),
                ..old(self)@
            }),
    {
        let ghost src = self@.actions;
        let mut out: Vec<RebalanceAction> = Vec::new();
        let mut i: usize = 0;
        while i < self.actions.len()
            invariant
                i <= self.actions.len(),
                src == actions_view(self.actions@),
                actions_view(out@) == sorted_by_priority(src.take(i as int)),
            decreases self.actions.len() - i,
        {
            let x = &self.actions[i];
            let ghost sorted = actions_view(out@);
            assert(src.take(i + 1).drop_last() =~= src.take(i as int));
            assert(src.take(i + 1).last() == x@);
            let mut p: usize = 0;
            while p < out.len() && !(x.priority < out[p].priority)
                invariant
                    p <= out.len(),
                    sorted == actions_view(out@),
                    priority_pos(sorted, x@, 0) == priority_pos(sorted, x@, p as int),
                decreases out.len() - p,
            {
                p = p + 1;
            }
            let ghost before = actions_view(out@);
            out.insert(p, x.duplicate());
            assert(actions_view(out@) =~= before.insert(p as int, x@));
            i = i + 1;
        }
        assert(src.take(self.actions.len() as int) =~= src);
        self.actions = out;
    }

    /// A one-line summary: the empty reason (or "No rebalancing needed") for an empty plan,
    /// else `<n> trades (<s> sells for <total>, <b> buys for <total>)`.
    pub fn summary(&self) -> (s: String)
        ensures
            s@ == spec_summary(self@),
    {
        if self.is_empty() {
            return match &self.empty_reason {
                Some(r) => r.clone(),
                None => String::from_str("No rebalancing needed"),
            };
        }
        let mut s = count_string(self.trade_count);
        append_str(&mut s, " trades (");
        let sc = count_string(self.sell_count());
        append_str(&mut s, sc.as_str());
        append_str(&mut s, " sells for ");
        let st = self.total_sell_value.to_string();
        append_str(&mut s, st.as_str());
        append_str(&mut s, ", ");
        let bc = count_string(self.buy_count());
        append_str(&mut s, bc.as_str());
        append_str(&mut s, " buys for ");
        let bt = self.total_buy_value.to_string();
        append_str(&mut s, bt.as_str());
        append_str(&mut s, ")");
        s
    }

    /// The same plan.
    pub fn duplicate(&self) -> (r: RebalancePlan)
        ensures
            r@ == self@,
    {
        let mut acts: Vec<RebalanceAction> = Vec::new();
        let mut i: usize = 0;
        while i < self.actions.len()
            invariant
                i <= self.actions.len(),
                actions_view(acts@) == self@.actions.take(i as int),
            decreases self.actions.len() - i,
        {
            let ghost before = actions_view(acts@);
            acts.push(self.actions[i].duplicate());
            assert(actions_view(acts@) =~= before.push(self@.actions[i as int]));
            assert(self@.actions.take(i + 1) =~= self@.actions.take(i as int).push(
                self@.actions[i as int],
            ));
            i = i + 1;
        }
        assert(self@.actions.take(self.actions.len() as int) =~= self@.actions);
        RebalancePlan {
            actions: acts,
            total_sell_value: self.total_sell_value.duplicate(),
            total_buy_value: self.total_buy_value.duplicate(),
            trade_count: self.trade_count,
            dry_run: self.dry_run,
            empty_reason: match &self.empty_reason {
                Some(r) => Some(r.clone()),
                None => None,
            },
        }
    }
}

impl Clone for RebalancePlan {
    fn clone(&self) -> (r: RebalancePlan)
        ensures
            r@ == self@,
    {
        self.duplicate()
    }
}

/// The decimal digits of a count.
pub fn count_string(n: usize) -> (s: String)
    ensures
        s@ == count_text(n as nat),
{
    let v = u128_to_text(n as u128);
    string_of(&v)
}

/// Builder for rebalance plans; each action's priority is its position.
pub struct RebalancePlanBuilder {
    currency: String,
    actions: Vec<RebalanceAction>,
    dry_run: bool,
}

/// The mathematical form of a `RebalancePlanBuilder`.
pub struct BuilderView {
    pub currency: Seq<char>,
    pub actions: Seq<ActionView>,
    pub dry_run: bool,
}

impl View for RebalancePlanBuilder {
    type V = BuilderView;

    closed spec fn view(&self) -> BuilderView {
        BuilderView {
            currency: self.currency@,
            actions: actions_view(self.actions@),
            dry_run: self.dry_run,
        }
    }
}

/// The action a builder appends.
pub open spec fn built_action(
    b: BuilderView,
    symbol: Seq<char>,
    exchange: Seq<char>,
    direction: OrderDirection,
    lots: nat,
    price: MoneyView,
    current_percent: DecimalView,
    target_percent: DecimalView,
) -> ActionView {
    ActionView {
        symbol,
        exchange,
        direction,
        lots,
        estimated_price: price,
        estimated_value: MoneyView {
            amount: decimal_mul(price.amount, int_view(lots as int))->Some_0,
            currency: price.currency,
        },
        current_percent,
        target_percent,
        priority: b.actions.len() % 0x1_0000_0000,
    }
}

/// Adding the actions one after the other to a plan.
pub open spec fn plan_add_all(p: PlanView, s: Seq<ActionView>) -> PlanView
    decreases s.len(),
{
    if s.len() == 0 {
        p
    } else {
        plan_add(plan_add_all(p, s.drop_last()), s.last())
    }
}

/// Each addition of `plan_add_all` is defined.
pub open spec fn plan_add_all_defined(p: PlanView, s: Seq<ActionView>) -> bool
    decreases s.len(),
{
    if s.len() == 0 {
        true
    } else {
        plan_add_all_defined(p, s.drop_last()) && plan_add_defined(
            plan_add_all(p, s.drop_last()),
            s.last(),
        )
    }
}

/// The plan a builder builds: the actions added in order to an empty plan in the builder's
/// currency, then sorted by priority.
pub open spec fn spec_build(b: BuilderView) -> PlanView {
    let added = plan_add_all(
        PlanView {
            actions: Seq::empty(),
            total_sell_value: MoneyView { amount: int_view(0), currency: b.currency },
            total_buy_value: MoneyView { amount: int_view(0), currency: b.currency },
            trade_count: 0,
            dry_run: b.dry_run,
            empty_reason: None,
        },
        b.actions,
    );
    PlanView { actions: sorted_by_priority(added.actions), ..added }
}

pub open spec fn build_defined(b: BuilderView) -> bool {
    plan_add_all_defined(
        PlanView {
            actions: Seq::empty(),
            total_sell_value: MoneyView { amount: int_view(0), currency: b.currency },
            total_buy_value: MoneyView { amount: int_view(0), currency: b.currency },
            trade_count: 0,
            dry_run: b.dry_run,
            empty_reason: None,
        },
        b.actions,
    )
}

proof fn lemma_plan_add_all_actions(p: PlanView, s: Seq<ActionView>)
    ensures
        plan_add_all(p, s).actions == p.actions + s,
    decreases s.len(),
{
    if s.len() > 0 {
        lemma_plan_add_all_actions(p, s.drop_last());
        assert(p.actions + s =~= (p.actions + s.drop_last()).push(s.last()));
    } else {
        assert(p.actions + s =~= p.actions);
    }
}

impl RebalancePlanBuilder {
    /// Creates a builder for a plan in the currency.
    pub fn new(currency: &str) -> (r: RebalancePlanBuilder)
        ensures
            r@ == (BuilderView { currency: currency@, actions: Seq::empty(), dry_run: false }),
    {
        let r = RebalancePlanBuilder {
            currency: String::from_str(currency),
            actions: Vec::new(),
            dry_run: false,
        };
        assert(r@.actions =~= Seq::<ActionView>::empty());
        r
    }

    fn push_action(
        self,
        symbol: &str,
        exchange: &str,
        direction: OrderDirection,
        lots: u32,
        price: Money,
        current_percent: Decimal,
        target_percent: Decimal,
    ) -> (r: RebalancePlanBuilder)
        requires
            decimal_mul(price@.amount, int_view(lots as int)) is Some,
        ensures
            r@ == (BuilderView {
                actions: self@.actions.push(
                    built_action(
                        self@,
                        symbol@,
                        exchange@,
                        direction,
                        lots as nat,
                        price@,
                        current_percent@,
                        target_percent@,
                    ),
                ),
                ..self@
            }),
    {
        let mut b = self;
        let estimated_value = price.multiply(Decimal::from_u32(lots));
        let priority: u32 = ((b.actions.len() as u64) % 0x1_0000_0000) as u32;
        let ghost before = actions_view(b.actions@);
        let action = RebalanceAction {
            symbol: String::from_str(symbol),
            exchange: String::from_str(exchange),
            direction,
            lots,
            estimated_price: price,
            estimated_value,
            current_percent,
            target_percent,
            priority,
        };
        let ghost av = action@;
        b.actions.push(action);
        assert(actions_view(b.actions@) =~= before.push(av));
        b
    }

    /// Adds a sell action whose value is the price times the lots.
    pub fn sell(
        self,
        symbol: &str,
        exchange: &str,
        lots: u32,
        price: Money,
        current_percent: Decimal,
        target_percent: Decimal,
    ) -> (r: RebalancePlanBuilder)
        requires
            decimal_mul(price@.amount, int_view(lots as int)) is Some,
        ensures
            r@ == (BuilderView {
                actions: self@.actions.push(
                    built_action(
                        self@,
                        symbol@,
                        exchange@,
                        OrderDirection::Sell,
                        lots as nat,
                        price@,
                        current_percent@,
                        target_percent@,
                    ),
                ),
                ..self@
            }),
    {
        self.push_action(
            symbol,
            exchange,
            OrderDirection::Sell,
            lots,
            price,
            current_percent,
            target_percent,
        )
    }

    /// Adds a buy action whose value is the price times the lots.
    pub fn buy(
        self,
        symbol: &str,
        exchange: &str,
        lots: u32,
        price: Money,
        current_percent: Decimal,
        target_percent: Decimal,
    ) -> (r: RebalancePlanBuilder)
        requires
            decimal_mul(price@.amount, int_view(lots as int)) is Some,
        ensures
            r@ == (BuilderView {
                actions: self@.actions.push(
                    built_action(
                        self@,
                        symbol@,
                        exchange@,
                        OrderDirection::Buy,
                        lots as nat,
                        price@,
                        current_percent@,
                        target_percent@,
                    ),
                ),
                ..self@
            }),
    {
        self.push_action(
            symbol,
            exchange,
            OrderDirection::Buy,
            lots,
            price,
            current_percent,
            target_percent,
        )
    }

    /// Marks the plan as a dry run.
    pub fn dry_run(self) -> (r: RebalancePlanBuilder)
        ensures
            r@ == (BuilderView { dry_run: true, ..self@ }),
    {
        RebalancePlanBuilder { dry_run: true, ..self }
    }

    /// Builds the plan: the actions added in order, then sorted by priority.
    pub fn build(self) -> (r: RebalancePlan)
        requires
            build_defined(self@),
        ensures
            r@ == spec_build(self@),
    {
        let ghost bv = self@;
        let mut plan = RebalancePlan::new(self.currency.as_str());
        plan.dry_run = self.dry_run;
        let ghost p0 = plan@;
        let actions = self.actions;
        let ghost src = actions_view(actions@);
        let mut i: usize = 0;
        while i < actions.len()
            invariant
                i <= actions.len(),
                src == actions_view(actions@),
                src == bv.actions,
                p0 == (PlanView {
                    actions: Seq::empty(),
                    total_sell_value: MoneyView { amount: int_view(0), currency: bv.currency },
                    total_buy_value: MoneyView { amount: int_view(0), currency: bv.currency },
                    trade_count: 0,
                    dry_run: bv.dry_run,
                    empty_reason: None,
                }),
                plan_add_all_defined(p0, src),
                plan@ == plan_add_all(p0, src.take(i as int)),
            decreases actions.len() - i,
        {
            proof {
                assert(src.take(i + 1).drop_last() =~= src.take(i as int));
                lemma_add_all_defined_prefix(p0, src, i as int + 1);
            }
            plan.add_action(actions[i].duplicate());
            i = i + 1;
        }
        assert(src.take(actions.len() as int) =~= src);
        plan.sort_by_priority();
        plan
    }
}

proof fn lemma_add_all_defined_prefix(p: PlanView, s: Seq<ActionView>, n: int)
    requires
        0 <= n <= s.len(),
        plan_add_all_defined(p, s),
    ensures
        plan_add_all_defined(p, s.take(n)),
    decreases s.len() - n,
{
    if n < s.len() {
        lemma_add_all_defined_prefix(p, s, n + 1);
        assert(s.take(n + 1).drop_last() =~= s.take(n));
    } else {
        assert(s.take(n) =~= s);
    }
}

} // verus!
