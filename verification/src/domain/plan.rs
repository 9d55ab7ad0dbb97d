//! Planned orders: what would be placed, by account, when running in plan mode.

use vstd::prelude::*;
use crate::assoc::{assoc_get, key_index, lemma_key_index_found, lemma_key_index_none};
use crate::domain::decimal::{decimal_text, decimal_text_2dp, Decimal, DecimalView};
use crate::domain::money::{opt_money, Money, MoneyView};
use crate::domain::order::OrderDirection;
use crate::domain::position::opt_str;
use crate::numparse::decimal_text as nat_text;
use crate::strategy::rebalance::{count_string, money_text, RebalanceAction};
use crate::text::{append_str, chars_eq};

verus! {

/// A planned order that would be executed if not in plan mode.
#[derive(Debug)]
pub struct PlannedOrder {
    /// The trading symbol.
    pub symbol: String,
    /// The exchange.
    pub exchange: String,
    /// Order direction ("BUY" or "SELL").
    pub direction: String,
    /// Number of lots to trade.
    pub lots: u32,
    /// Estimated price per lot.
    pub estimated_price: Money,
    /// Estimated total value of the trade.
    pub estimated_value: Money,
    /// Current allocation percentage.
    pub current_percent: Decimal,
    /// Target allocation percentage.
    pub target_percent: Decimal,
    /// The account this order is for.
    pub account_id: String,
    /// Optional reason or note for the order.
    pub reason: Option<String>,
}

/// The mathematical form of a `PlannedOrder`.
pub struct PlannedView {
    pub symbol: Seq<char>,
    pub exchange: Seq<char>,
    pub direction: Seq<char>,
    pub lots: nat,
    pub estimated_price: MoneyView,
    pub estimated_value: MoneyView,
    pub current_percent: DecimalView,
    pub target_percent: DecimalView,
    pub account_id: Seq<char>,
    pub reason: Option<Seq<char>>,
}

impl View for PlannedOrder {
    type V = PlannedView;

    open spec fn view(&self) -> PlannedView {
        PlannedView {
            symbol: self.symbol@,
            exchange: self.exchange@,
            direction: self.direction@,
            lots: self.lots as nat,
            estimated_price: self.estimated_price@,
            estimated_value: self.estimated_value@,
            current_percent: self.current_percent@,
            target_percent: self.target_percent@,
            account_id: self.account_id@,
            reason: opt_str(self.reason),
        }
    }
}

pub open spec fn planned_view(s: Seq<PlannedOrder>) -> Seq<PlannedView> {
    s.map_values(|o: PlannedOrder| o@)
}

/// The display line of a planned order:
/// `<DIR> <lots> lots of <symbol> @ <price> (value: <value>) [<cur>% -> <target>%]`.
pub open spec fn planned_text(o: PlannedView) -> Seq<char> {
    o.direction + " "@ + nat_text(o.lots) + " lots of "@ + o.symbol + " @ "@ + money_text(
        o.estimated_price,
    ) + " (value: "@ + money_text(o.estimated_value) + ") ["@ + decimal_text_2dp(
        o.current_percent,
    ) + "% -> "@ + decimal_text_2dp(o.target_percent) + "%]"@
}

impl PlannedOrder {
    /// The planned order for a rebalance action of an account ("BUY" or "SELL", no reason).
    pub fn from_rebalance_action(action: &RebalanceAction, account_id: &str) -> (r: PlannedOrder)
        ensures
            r@ == (PlannedView {
                symbol: action@.symbol,
                exchange: action@.exchange,
                direction: if action@.direction == OrderDirection::Buy {
                    "BUY"@
                } else {
                    "SELL"@
                },
                lots: action@.lots,
                estimated_price: action@.estimated_price,
                estimated_value: action@.estimated_value,
                current_percent: action@.current_percent,
                target_percent: action@.target_percent,
                account_id: account_id@,
                reason: None,
            }),
    {
        PlannedOrder {
            symbol: action.symbol.clone(),
            exchange: action.exchange.clone(),
            direction: if action.is_buy() {
                String::from_str("BUY")
            } else {
                String::from_str("SELL")
            },
            lots: action.lots,
            estimated_price: action.estimated_price.duplicate(),
            estimated_value: action.estimated_value.duplicate(),
            current_percent: action.current_percent,
            target_percent: action.target_percent,
            account_id: String::from_str(account_id),
            reason: None,
        }
    }

    /// The same order with a reason.
    pub fn with_reason(self, reason: &str) -> (r: PlannedOrder)
        ensures
            r@ == (PlannedView { reason: Some(reason@), ..self@ }),
    {
        PlannedOrder { reason: Some(String::from_str(reason)), ..self }
    }

    /// The display line of the order.
    pub fn to_string(&self) -> (s: String)
        ensures
            s@ == planned_text(self@),
    {
        let mut s = self.direction.clone();
        append_str(&mut s, " ");
        let n = count_string(self.lots as usize);
        append_str(&mut s, n.as_str());
        append_str(&mut s, " lots of ");
        append_str(&mut s, self.symbol.as_str());
        append_str(&mut s, " @ ");
        let p = self.estimated_price.to_string();
        append_str(&mut s, p.as_str());
        append_str(&mut s, " (value: ");
        let v = self.estimated_value.to_string();
        append_str(&mut s, v.as_str());
        append_str(&mut s, ") [");
        let c = self.current_percent.to_string_2dp();
        append_str(&mut s, c.as_str());
        append_str(&mut s, "% -> ");
        let t = self.target_percent.to_string_2dp();
        append_str(&mut s, t.as_str());
        append_str(&mut s, "%]");
        s
    }

    /// The same order.
    pub fn duplicate(&self) -> (r: PlannedOrder)
        ensures
            r@ == self@,
    {
        PlannedOrder {
            symbol: self.symbol.clone(),
            exchange: self.exchange.clone(),
            direction: self.direction.clone(),
            lots: self.lots,
            estimated_price: self.estimated_price.duplicate(),
            estimated_value: self.estimated_value.duplicate(),
            current_percent: self.current_percent,
            target_percent: self.target_percent,
            account_id: self.account_id.clone(),
            reason: match &self.reason {
                Some(r) => Some(r.clone()),
                None => None,
            },
        }
    }
}

impl Clone for PlannedOrder {
    fn clone(&self) -> (r: PlannedOrder)
        ensures
            r@ == self@,
    {
        self.duplicate()
    }
}

/// Planned orders grouped by account, with optional buy and sell totals.
#[derive(Debug)]
pub struct PlannedOrders {
    orders: Vec<(String, Vec<PlannedOrder>)>,
    total_buy_value: Option<Money>,
    total_sell_value: Option<Money>,
}

/// The mathematical form of `PlannedOrders`.
pub struct PlannedOrdersView {
    pub orders: Seq<(Seq<char>, Seq<PlannedView>)>,
    pub total_buy_value: Option<MoneyView>,
    pub total_sell_value: Option<MoneyView>,
}

pub open spec fn groups_view(s: Seq<(String, Vec<PlannedOrder>)>) -> Seq<(Seq<char>, Seq<PlannedView>)> {
    s.map_values(|g: (String, Vec<PlannedOrder>)| (g.0@, planned_view(g.1@)))
}

impl View for PlannedOrders {
    type V = PlannedOrdersView;

    closed spec fn view(&self) -> PlannedOrdersView {
        PlannedOrdersView {
            orders: groups_view(self.orders@),
            total_buy_value: opt_money(self.total_buy_value),
            total_sell_value: opt_money(self.total_sell_value),
        }
    }
}

/// Appending an order to its account's group, creating the group at the end when the
/// account has none.
pub open spec fn groups_add(gs: Seq<(Seq<char>, Seq<PlannedView>)>, o: PlannedView) -> Seq<
    (Seq<char>, Seq<PlannedView>),
> {
    match key_index(gs, o.account_id, 0) {
        Some(i) => gs.update(i, (gs[i].0, gs[i].1.push(o))),
        None => gs.push((o.account_id, seq![o])),
    }
}

/// The total number of orders in the groups.
pub open spec fn groups_count(gs: Seq<(Seq<char>, Seq<PlannedView>)>) -> nat
    decreases gs.len(),
{
    if gs.len() == 0 {
        0
    } else {
        groups_count(gs.drop_last()) + gs.last().1.len()
    }
}

/// The number of groups with at least one order.
pub open spec fn nonempty_groups(gs: Seq<(Seq<char>, Seq<PlannedView>)>) -> nat
    decreases gs.len(),
{
    if gs.len() == 0 {
        0
    } else {
        nonempty_groups(gs.drop_last()) + if gs.last().1.len() > 0 {
            1nat
        } else {
            0nat
        }
    }
}

/// All orders, group after group.
pub open spec fn groups_flat(gs: Seq<(Seq<char>, Seq<PlannedView>)>) -> Seq<PlannedView>
    decreases gs.len(),
{
    if gs.len() == 0 {
        Seq::empty()
    } else {
        groups_flat(gs.drop_last()) + gs.last().1
    }
}

proof fn lemma_count_flat(gs: Seq<(Seq<char>, Seq<PlannedView>)>)
    ensures
        groups_count(gs) == groups_flat(gs).len(),
        nonempty_groups(gs) <= groups_count(gs),
        nonempty_groups(gs) == 0 <==> groups_count(gs) == 0,
    decreases gs.len(),
{
    if gs.len() > 0 {
        lemma_count_flat(gs.drop_last());
    }
}

impl PlannedOrders {
    /// An empty collection with no totals.
    pub fn new() -> (r: PlannedOrders)
        ensures
            r@ == (PlannedOrdersView {
                orders: Seq::empty(),
                total_buy_value: None,
                total_sell_value: None,
            }),
    {
        let r = PlannedOrders { orders: Vec::new(), total_buy_value: None, total_sell_value: None };
        assert(r@.orders =~= Seq::<(Seq<char>, Seq<PlannedView>)>::empty());
        r
    }

    fn find_account(&self, account_id: &str) -> (r: Option<usize>)
        ensures
            match r {
                Some(i) => i < self@.orders.len() && key_index(self@.orders, account_id@, 0) == Some(
                    i as int,
                ),
                None => key_index(self@.orders, account_id@, 0) is None,
            },
    {
        let ghost gv = self@.orders;
        let mut i: usize = 0;
        while i < self.orders.len()
            invariant
                i <= self.orders.len(),
                gv == self@.orders,
                forall|j: int| 0 <= j < i ==> gv[j].0 != account_id@,
            decreases self.orders.len() - i,
        {
            if chars_eq(self.orders[i].0.as_str(), account_id) {
                proof {
                    lemma_key_index_found(gv, account_id@, 0, i as int);
                }
                return Some(i);
            }
            i = i + 1;
        }
        proof {
            lemma_key_index_none(gv, account_id@, 0);
        }
        None
    }

    /// Adds a planned order to its account's group.
    pub fn add_order(&mut self, order: PlannedOrder)
        ensures
            final(self)@ == (PlannedOrdersView {
                orders: groups_add(old(self)@.orders, order@),
                ..old(self)@
            }),
    {
        let ghost before = self@.orders;
        let ghost ov = order@;
        match self.find_account(order.account_id.as_str()) {
            Some(i) => {
                let mut group: Vec<PlannedOrder> = Vec::new();
                std::mem::swap(&mut group, &mut self.orders[i].1);
                let ghost gbefore = planned_view(group@);
                assert(gbefore == before[i as int].1);
                group.push(order);
                assert(planned_view(group@) =~= gbefore.push(ov));
                let name = self.orders[i].0.clone();
                self.orders.set(i, (name, group));
                assert(groups_view(self.orders@) =~= before.update(
                    i as int,
                    (before[i as int].0, before[i as int].1.push(ov)),
                ));
            },
            None => {
                let name = order.account_id.clone();
                let mut group: Vec<PlannedOrder> = Vec::new();
                group.push(order);
                assert(planned_view(group@) =~= seq![ov]);
                self.orders.push((name, group));
                assert(groups_view(self.orders@) =~= before.push((ov.account_id, seq![ov])));
            },
        }
    }

    /// Adds orders for an account, each assigned to that account.
    pub fn add_orders(&mut self, account_id: &str, orders: Vec<PlannedOrder>)
        ensures
            final(self)@ == (PlannedOrdersView {
                orders: groups_add_all(old(self)@.orders, account_id@, planned_view(orders@)),
                ..old(self)@
            }),
    {
        let ghost src = planned_view(orders@);
        let mut i: usize = 0;
        while i < orders.len()
            invariant
                i <= orders.len(),
                src == planned_view(orders@),
                self@.total_buy_value == old(self)@.total_buy_value,
                self@.total_sell_value == old(self)@.total_sell_value,
                self@.orders == groups_add_all(old(self)@.orders, account_id@, src.take(i as int)),
            decreases orders.len() - i,
        {
            let mut order = orders[i].duplicate();
            order.account_id = String::from_str(account_id);
            self.add_order(order);
            assert(src.take(i + 1).drop_last() =~= src.take(i as int));
            i = i + 1;
        }
        assert(src.take(orders.len() as int) =~= src);
    }

    /// Whether there is no planned order.
    pub fn is_empty(&self) -> (b: bool)
        ensures
            b == (groups_count(self@.orders) == 0),
    {
        proof {
            lemma_count_flat(self@.orders);
        }
        self.account_count() == 0
    }

    /// The total number of planned orders.
    pub fn total_count(&self) -> (r: usize)
        requires
            groups_count(self@.orders) <= usize::MAX,
        ensures
            r == groups_count(self@.orders),
    {
        let ghost gv = self@.orders;
        let mut n: usize = 0;
        let mut i: usize = 0;
        while i < self.orders.len()
            invariant
                i <= self.orders.len(),
                gv == self@.orders,
                groups_count(gv) <= usize::MAX,
                n == groups_count(gv.take(i as int)),
            decreases self.orders.len() - i,
        {
            assert(gv.take(i + 1).drop_last() =~= gv.take(i as int));
            proof {
                lemma_count_prefix(gv, i as int + 1);
            }
            n = n + self.orders[i].1.len();
            i = i + 1;
        }
        assert(gv.take(self.orders.len() as int) =~= gv);
        n
    }

    /// The number of accounts with at least one planned order.
    pub fn account_count(&self) -> (r: usize)
        ensures
            r == nonempty_groups(self@.orders),
    {
        let ghost gv = self@.orders;
        let mut n: usize = 0;
        let mut i: usize = 0;
        while i < self.orders.len()
            invariant
                i <= self.orders.len(),
                gv == self@.orders,
                n == nonempty_groups(gv.take(i as int)),
                n <= i,
            decreases self.orders.len() - i,
        {
            assert(gv.take(i + 1).drop_last() =~= gv.take(i as int));
            if self.orders[i].1.len() > 0 {
                n = n + 1;
            }
            i = i + 1;
        }
        assert(gv.take(self.orders.len() as int) =~= gv);
        n
    }

    /// The accounts with a group, in the order they were first added.
    pub fn accounts(&self) -> (r: Vec<&str>)
        ensures
            r@.map_values(|s: &str| s@) == self@.orders.map_values(
                |g: (Seq<char>, Seq<PlannedView>)| g.0,
            ),
    {
        let ghost gv = self@.orders;
        let mut out: Vec<&str> = Vec::new();
        let mut i: usize = 0;
        while i < self.orders.len()
            invariant
                i <= self.orders.len(),
                gv == self@.orders,
                out@.map_values(|s: &str| s@) == gv.take(i as int).map_values(
                    |g: (Seq<char>, Seq<PlannedView>)| g.0,
                ),
            decreases self.orders.len() - i,
        {
            let ghost before = out@.map_values(|s: &str| s@);
            out.push(self.orders[i].0.as_str());
            assert(out@.map_values(|s: &str| s@) =~= before.push(gv[i as int].0));
            assert(gv.take(i + 1).map_values(|g: (Seq<char>, Seq<PlannedView>)| g.0)
                =~= gv.take(i as int).map_values(|g: (Seq<char>, Seq<PlannedView>)| g.0).push(
                gv[i as int].0,
            ));
            i = i + 1;
        }
        assert(gv.take(self.orders.len() as int) =~= gv);
        out
    }

    /// The orders of an account, if it has a group.
    pub fn orders_for_account(&self, account_id: &str) -> (r: Option<&[PlannedOrder]>)
        ensures
            match assoc_get(self@.orders, account_id@) {
                Some(os) => r is Some && planned_view(r->Some_0@) == os,
                None => r is None,
            },
    {
        match self.find_account(account_id) {
            Some(i) => Some(self.orders[i].1.as_slice()),
            None => None,
        }
    }

    /// All planned orders, group after group.
    pub fn all_orders(&self) -> (r: Vec<&PlannedOrder>)
        ensures
            r@.map_values(|o: &PlannedOrder| o@) == groups_flat(self@.orders),
    {
        let ghost gv = self@.orders;
        let mut out: Vec<&PlannedOrder> = Vec::new();
        let mut i: usize = 0;
        while i < self.orders.len()
            invariant
                i <= self.orders.len(),
                gv == self@.orders,
                out@.map_values(|o: &PlannedOrder| o@) == groups_flat(gv.take(i as int)),
            decreases self.orders.len() - i,
        {
            let group = &self.orders[i].1;
            let ghost before = out@.map_values(|o: &PlannedOrder| o@);
            let mut j: usize = 0;
            while j < group.len()
                invariant
                    j <= group.len(),
                    out@.map_values(|o: &PlannedOrder| o@) == before + planned_view(group@).take(
                        j as int,
                    ),
                decreases group.len() - j,
            {
                let ghost prev = out@.map_values(|o: &PlannedOrder| o@);
                out.push(&group[j]);
                assert(out@.map_values(|o: &PlannedOrder| o@) =~= prev.push(group@[j as int]@));
                assert(planned_view(group@).take(j + 1) =~= planned_view(group@).take(
                    j as int,
                ).push(group@[j as int]@));
                assert(prev.push(group@[j as int]@) =~= before + planned_view(group@).take(j + 1));
                j = j + 1;
            }
            assert(planned_view(group@).take(group.len() as int) =~= planned_view(group@));
            assert(gv.take(i + 1).drop_last() =~= gv.take(i as int));
            assert(gv[i as int].1 == planned_view(group@));
            i = i + 1;
        }
        assert(gv.take(self.orders.len() as int) =~= gv);
        out
    }

    /// Sets the total buy value.
    pub fn set_total_buy_value(&mut self, value: Money)
        ensures
            final(self)@ == (PlannedOrdersView { total_buy_value: Some(value@), ..old(self)@ }),
    {
        self.total_buy_value = Some(value);
    }

    /// Sets the total sell value.
    pub fn set_total_sell_value(&mut self, value: Money)
        ensures
            final(self)@ == (PlannedOrdersView { total_sell_value: Some(value@), ..old(self)@ }),
    {
        self.total_sell_value = Some(value);
    }

    /// The total buy value, if set.
    pub fn total_buy_value(&self) -> (r: Option<&Money>)
        ensures
            match self@.total_buy_value {
                Some(v) => r is Some && r->Some_0@ == v,
                None => r is None,
            },
    {
        match &self.total_buy_value {
            Some(v) => Some(v),
            None => None,
        }
    }

    /// The total sell value, if set.
    pub fn total_sell_value(&self) -> (r: Option<&Money>)
        ensures
            match self@.total_sell_value {
                Some(v) => r is Some && r->Some_0@ == v,
                None => r is None,
            },
    {
        match &self.total_sell_value {
            Some(v) => Some(v),
            None => None,
        }
    }
}

/// Adding orders one after the other, each assigned to the account.
pub open spec fn groups_add_all(
    gs: Seq<(Seq<char>, Seq<PlannedView>)>,
    account_id: Seq<char>,
    os: Seq<PlannedView>,
) -> Seq<(Seq<char>, Seq<PlannedView>)>
    decreases os.len(),
{
    if os.len() == 0 {
        gs
    } else {
        groups_add(
            groups_add_all(gs, account_id, os.drop_last()),
            PlannedView { account_id, ..os.last() },
        )
    }
}

proof fn lemma_count_prefix(gs: Seq<(Seq<char>, Seq<PlannedView>)>, n: int)
    requires
        0 <= n <= gs.len(),
    ensures
        groups_count(gs.take(n)) <= groups_count(gs),
    decreases gs.len() - n,
{
    if n < gs.len() {
        lemma_count_prefix(gs, n + 1);
        assert(gs.take(n + 1).drop_last() =~= gs.take(n));
    } else {
        assert(gs.take(n) =~= gs);
    }
}

impl Default for PlannedOrders {
    fn default() -> (r: PlannedOrders)
        ensures
            r@ == (PlannedOrdersView {
                orders: Seq::empty(),
                total_buy_value: None,
                total_sell_value: None,
            }),
    {
        PlannedOrders::new()
    }
}

/// The two display lines of an order in a section.
pub open spec fn order_lines(o: PlannedView) -> Seq<Seq<char>> {
    seq![
        "    • "@ + o.symbol + " "@ + nat_text(o.lots) + " lots @ "@ + money_text(o.estimated_price)
            + " = "@ + money_text(o.estimated_value),
        "      Allocation: "@ + decimal_text_2dp(o.current_percent) + "% → "@ + decimal_text_2dp(
            o.target_percent,
        ) + "%"@,
    ]
}

/// The lines of the orders with the given direction.
pub open spec fn direction_lines(os: Seq<PlannedView>, direction: Seq<char>) -> Seq<Seq<char>>
    decreases os.len(),
{
    if os.len() == 0 {
        Seq::empty()
    } else {
        direction_lines(os.drop_last(), direction) + if os.last().direction == direction {
            order_lines(os.last())
        } else {
            Seq::empty()
        }
    }
}

/// A section: its title, then the lines of its orders; nothing when it has no order.
pub open spec fn section_lines(os: Seq<PlannedView>, direction: Seq<char>, title: Seq<char>) -> Seq<
    Seq<char>,
> {
    let body = direction_lines(os, direction);
    if body.len() == 0 {
        Seq::empty()
    } else {
        seq![title] + body
    }
}

/// The lines of one account: its name, a rule, its sells, its buys and a blank line;
/// nothing for an account without orders.
pub open spec fn account_lines(g: (Seq<char>, Seq<PlannedView>)) -> Seq<Seq<char>> {
    if g.1.len() == 0 {
        Seq::empty()
    } else {
        seq!["Account: "@ + g.0, dashes(60)] + section_lines(g.1, "SELL"@, "  SELL orders:"@)
            + section_lines(g.1, "BUY"@, "  BUY orders:"@) + seq![Seq::empty()]
    }
}

/// `n` dashes.
pub open spec fn dashes(n: nat) -> Seq<char>
    decreases n,
{
    if n == 0 {
        Seq::empty()
    } else {
        dashes((n - 1) as nat).push('-')
    }
}

/// The lines of all accounts.
pub open spec fn accounts_lines(gs: Seq<(Seq<char>, Seq<PlannedView>)>) -> Seq<Seq<char>>
    decreases gs.len(),
{
    if gs.len() == 0 {
        Seq::empty()
    } else {
        accounts_lines(gs.drop_last()) + account_lines(gs.last())
    }
}

/// The heavy rule of the summary.
pub open spec fn rule() -> Seq<char> {
    "═══════════════════════════════════════════════════════════════"@
}

/// Everything the plan display prints, line by line.
pub open spec fn display_text(p: PlannedOrdersView) -> Seq<Seq<char>> {
    if groups_count(p.orders) == 0 {
        seq![
            "\n📋 PLAN MODE: No orders would be placed"@,
            "   Portfolio is already balanced within tolerance."@,
        ]
    } else {
        seq![
            "\n╔════════════════════════════════════════════════════════════════╗"@,
            "║                     📋 PLANNED ORDERS                          ║"@,
            "║         (Plan mode - no actual orders will be placed)          ║"@,
            "╚════════════════════════════════════════════════════════════════╝\n"@,
        ] + accounts_lines(p.orders) + seq![
            rule(),
            "SUMMARY:"@,
            "  Total accounts: "@ + nat_text(nonempty_groups(p.orders)),
            "  Total orders:   "@ + nat_text(groups_count(p.orders)),
        ] + match p.total_sell_value {
            Some(v) => seq!["  Total sells:    "@ + money_text(v)],
            None => Seq::empty(),
        } + match p.total_buy_value {
            Some(v) => seq!["  Total buys:     "@ + money_text(v)],
            None => Seq::empty(),
        } + seq![rule() + "\n"@]
    }
}

fn text_of(s: &str) -> (r: String)
    ensures
        r@ == s@,
{
    String::from_str(s)
}

fn dash_line(n: usize) -> (r: String)
    ensures
        r@ == dashes(n as nat),
{
    let mut v: Vec<char> = Vec::new();
    let mut i: usize = 0;
    while i < n
        invariant
            i <= n,
            v@ == dashes(i as nat),
        decreases n - i,
    {
        v.push('-');
        i = i + 1;
    }
    crate::text::string_of(&v)
}

fn push_line(lines: &mut Vec<String>, line: String)
    ensures
        final(lines)@.map_values(|s: String| s@) == old(lines)@.map_values(|s: String| s@).push(
            line@,
        ),
{
    let ghost before = lines@.map_values(|s: String| s@);
    let ghost lv = line@;
    lines.push(line);
    assert(lines@.map_values(|s: String| s@) =~= before.push(lv));
}

/// Appends the lines of the orders of a group that have the direction.
fn push_direction_lines(lines: &mut Vec<String>, group: &Vec<PlannedOrder>, direction: &str, title: &str)
    ensures
        final(lines)@.map_values(|s: String| s@) == old(lines)@.map_values(|s: String| s@)
            + section_lines(planned_view(group@), direction@, title@),
{
    let ghost pv = planned_view(group@);
    let ghost start = lines@.map_values(|s: String| s@);
    let mut body: Vec<String> = Vec::new();
    let mut i: usize = 0;
    assert(pv.take(0) =~= Seq::<PlannedView>::empty());
    while i < group.len()
        invariant
            i <= group.len(),
            pv == planned_view(group@),
            body@.map_values(|s: String| s@) == direction_lines(pv.take(i as int), direction@),
        decreases group.len() - i,
    {
        let o = &group[i];
        assert(pv.take(i + 1).drop_last() =~= pv.take(i as int));
        assert(pv[i as int] == o@);
        if chars_eq(o.direction.as_str(), direction) {
            let ghost before = body@.map_values(|s: String| s@);
            let mut l1 = text_of("    • ");
            append_str(&mut l1, o.symbol.as_str());
            append_str(&mut l1, " ");
            let n = count_string(o.lots as usize);
            append_str(&mut l1, n.as_str());
            append_str(&mut l1, " lots @ ");
            let p = o.estimated_price.to_string();
            append_str(&mut l1, p.as_str());
            append_str(&mut l1, " = ");
            let v = o.estimated_value.to_string();
            append_str(&mut l1, v.as_str());
            push_line(&mut body, l1);
            let mut l2 = text_of("      Allocation: ");
            let c = o.current_percent.to_string_2dp();
            append_str(&mut l2, c.as_str());
            append_str(&mut l2, "% → ");
            let t = o.target_percent.to_string_2dp();
            append_str(&mut l2, t.as_str());
            append_str(&mut l2, "%");
            push_line(&mut body, l2);
            assert(body@.map_values(|s: String| s@) =~= before + order_lines(o@));
        }
        i = i + 1;
    }
    assert(pv.take(group.len() as int) =~= pv);
    if body.len() > 0 {
        push_line(lines, text_of(title));
        let ghost mid = lines@.map_values(|s: String| s@);
        let mut j: usize = 0;
        let ghost bv = body@.map_values(|s: String| s@);
        while j < body.len()
            invariant
                j <= body.len(),
                bv == body@.map_values(|s: String| s@),
                lines@.map_values(|s: String| s@) == mid + bv.take(j as int),
            decreases body.len() - j,
        {
            let ghost prev = lines@.map_values(|s: String| s@);
            push_line(lines, body[j].clone());
            assert(bv.take(j + 1) =~= bv.take(j as int).push(bv[j as int]));
            assert(prev.push(bv[j as int]) =~= mid + bv.take(j + 1));
            j = j + 1;
        }
        assert(bv.take(body.len() as int) =~= bv);
        assert(start.push(title@) + bv =~= start + (seq![title@] + bv));
    } else {
        assert(start + Seq::<Seq<char>>::empty() =~= start);
    }
}

impl PlannedOrders {
    /// The lines the plan display prints: a short notice when nothing is planned, else a
    /// banner, each account's sells and buys, and a summary with the counts and totals.
    pub fn display_lines(&self) -> (r: Vec<String>)
        requires
            groups_count(self@.orders) <= usize::MAX,
        ensures
            r@.map_values(|s: String| s@) == display_text(self@),
    {
        let mut lines: Vec<String> = Vec::new();
        proof {
            lemma_count_flat(self@.orders);
        }
        if self.is_empty() {
            push_line(&mut lines, text_of("\n📋 PLAN MODE: No orders would be placed"));
            push_line(&mut lines, text_of("   Portfolio is already balanced within tolerance."));
            assert(lines@.map_values(|s: String| s@) =~= display_text(self@));
            return lines;
        }
        push_line(
            &mut lines,
            text_of("\n╔════════════════════════════════════════════════════════════════╗"),
        );
        push_line(
            &mut lines,
            text_of("║                     📋 PLANNED ORDERS                          ║"),
        );
        push_line(
            &mut lines,
            text_of("║         (Plan mode - no actual orders will be placed)          ║"),
        );
        push_line(
            &mut lines,
            text_of("╚════════════════════════════════════════════════════════════════╝\n"),
        );
        let ghost head = lines@.map_values(|s: String| s@);
        let ghost gv = self@.orders;
        let mut i: usize = 0;
        while i < self.orders.len()
            invariant
                i <= self.orders.len(),
                gv == self@.orders,
                lines@.map_values(|s: String| s@) == head + accounts_lines(gv.take(i as int)),
            decreases self.orders.len() - i,
        {
            let ghost before = lines@.map_values(|s: String| s@);
            let group = &self.orders[i].1;
            assert(gv[i as int] == (self.orders@[i as int].0@, planned_view(group@)));
            if group.len() > 0 {
                let mut l = text_of("Account: ");
                append_str(&mut l, self.orders[i].0.as_str());
                push_line(&mut lines, l);
                push_line(&mut lines, dash_line(60));
                push_direction_lines(&mut lines, group, "SELL", "  SELL orders:");
                push_direction_lines(&mut lines, group, "BUY", "  BUY orders:");
                push_line(&mut lines, String::new());
                assert(lines@.map_values(|s: String| s@) =~= before + account_lines(gv[i as int]));
            } else {
                assert(lines@.map_values(|s: String| s@) =~= before + account_lines(gv[i as int]));
            }
            assert(gv.take(i + 1).drop_last() =~= gv.take(i as int));
            assert(head + accounts_lines(gv.take(i + 1)) =~= before + account_lines(gv[i as int]));
            i = i + 1;
        }
        assert(gv.take(self.orders.len() as int) =~= gv);
        let ghost mid = lines@.map_values(|s: String| s@);
        push_line(&mut lines, text_of("═══════════════════════════════════════════════════════════════"));
        push_line(&mut lines, text_of("SUMMARY:"));
        let mut l1 = text_of("  Total accounts: ");
        let ac = count_string(self.account_count());
        append_str(&mut l1, ac.as_str());
        push_line(&mut lines, l1);
        let mut l2 = text_of("  Total orders:   ");
        let tc = count_string(self.total_count());
        append_str(&mut l2, tc.as_str());
        push_line(&mut lines, l2);
        let ghost after_counts = lines@.map_values(|s: String| s@);
        match &self.total_sell_value {
            Some(v) => {
                let mut l = text_of("  Total sells:    ");
                let t = v.to_string();
                append_str(&mut l, t.as_str());
                push_line(&mut lines, l);
            },
            None => {},
        }
        let ghost after_sells = lines@.map_values(|s: String| s@);
        match &self.total_buy_value {
            Some(v) => {
                let mut l = text_of("  Total buys:     ");
                let t = v.to_string();
                append_str(&mut l, t.as_str());
                push_line(&mut lines, l);
            },
            None => {},
        }
        let ghost after_buys = lines@.map_values(|s: String| s@);
        let mut last = text_of("═══════════════════════════════════════════════════════════════");
        append_str(&mut last, "\n");
        push_line(&mut lines, last);
        assert(lines@.map_values(|s: String| s@) =~= display_text(self@));
        lines
    }
}

} // verus!
