//! Executed trades and their history.

use vstd::prelude::*;
use crate::clock::{utc_now, Timestamp};
use crate::domain::decimal::{decimal_add, decimal_mul, decimal_sub, int_view, Decimal};
use crate::domain::money::{opt_money, Money, MoneyView};
use crate::domain::order::OrderDirection;
use crate::domain::position::opt_str;
use crate::text::chars_eq;

verus! {

/// A unique trade identifier.
#[derive(Debug, Clone, PartialEq, Eq, Hash)]
pub struct TradeId(String);

impl TradeId {
    /// The identifier text.
    pub closed spec fn view(&self) -> Seq<char> {
        self.0@
    }

    /// Creates a new trade ID.
    pub fn new(id: String) -> (r: Self)
        ensures
            r.view() == id@,
    {
        TradeId(id)
    }

    /// Returns the ID as a string slice.
    pub fn as_str(&self) -> (r: &str)
        ensures
            r@ == self.view(),
    {
        self.0.as_str()
    }

    /// A new random identifier (a version 4 UUID).
    pub fn random() -> (r: Self)
        ensures
            is_uuid_text(r.view()),
    {
        TradeId(uuid_v4_text())
    }

    /// The identifier as a `String` (its display form).
    pub fn to_string(&self) -> (r: String)
        ensures
            r@ == self.view(),
    {
        self.0.clone()
    }
}

/// The hyphenated shape of a UUID's text: 36 characters, with `-` at positions 8, 13, 18
/// and 23.
pub open spec fn is_uuid_text(s: Seq<char>) -> bool {
    &&& s.len() == 36
    &&& s[8] == '-' && s[13] == '-' && s[18] == '-' && s[23] == '-'
}

/// `uuid::Uuid::new_v4` in its text form (`Display`, the lower-case hyphenated form): a
/// random identifier, of which only the shape is promised.
#[verifier::external_body]
pub(crate) fn uuid_v4_text() -> (s: String)
    ensures
        is_uuid_text(s@),
{
    uuid::Uuid::new_v4().to_string()
}

impl TradeId {
    /// The same identifier.
    pub fn duplicate(&self) -> (r: TradeId)
        ensures
            r.view() == self.view(),
    {
        TradeId(self.0.clone())
    }
}

/// A completed trade execution.
#[derive(Debug)]
pub struct Trade {
    id: TradeId,
    order_id: Option<String>,
    symbol: String,
    exchange: String,
    direction: OrderDirection,
    quantity_lots: u32,
    price: Money,
    value: Money,
    commission: Option<Money>,
    executed_at: Timestamp,
}

/// The mathematical form of a `Trade`.
pub struct TradeView {
    pub id: Seq<char>,
    pub order_id: Option<Seq<char>>,
    pub symbol: Seq<char>,
    pub exchange: Seq<char>,
    pub direction: OrderDirection,
    pub quantity_lots: nat,
    pub price: MoneyView,
    pub value: MoneyView,
    pub commission: Option<MoneyView>,
    pub executed_at: Timestamp,
}

impl View for Trade {
    type V = TradeView;

    closed spec fn view(&self) -> TradeView {
        TradeView {
            id: self.id.view(),
            order_id: opt_str(self.order_id),
            symbol: self.symbol@,
            exchange: self.exchange@,
            direction: self.direction,
            quantity_lots: self.quantity_lots as nat,
            price: self.price@,
            value: self.value@,
            commission: opt_money(self.commission),
            executed_at: self.executed_at,
        }
    }
}

/// The net value of a trade: a buy costs its value plus the commission, a sell brings its
/// value less the commission (a commission in another currency is left out).
pub open spec fn spec_net_value(t: TradeView) -> MoneyView {
    match t.commission {
        Some(c) => if c.currency != t.value.currency {
            t.value
        } else if t.direction == OrderDirection::Buy {
            MoneyView { amount: decimal_add(t.value.amount, c.amount)->Some_0, currency: t.value.currency }
        } else {
            MoneyView { amount: decimal_sub(t.value.amount, c.amount)->Some_0, currency: t.value.currency }
        },
        None => t.value,
    }
}

/// The net value's arithmetic does not overflow.
pub open spec fn net_defined(t: TradeView) -> bool {
    match t.commission {
        Some(c) => c.currency == t.value.currency ==> if t.direction == OrderDirection::Buy {
            decimal_add(t.value.amount, c.amount) is Some
        } else {
            decimal_sub(t.value.amount, c.amount) is Some
        },
        None => true,
    }
}

impl Trade {
    /// A new trade with a random identifier, executed now, worth the price times the lots.
    pub fn new(
        symbol: &str,
        exchange: &str,
        direction: OrderDirection,
        quantity_lots: u32,
        price: Money,
    ) -> (r: Trade)
        requires
            decimal_mul(price@.amount, int_view(quantity_lots as int)) is Some,
        ensures
            r@.order_id is None,
            r@.symbol == symbol@,
            r@.exchange == exchange@,
            r@.direction == direction,
            r@.quantity_lots == quantity_lots,
            r@.price == price@,
            r@.value == (MoneyView {
                amount: decimal_mul(price@.amount, int_view(quantity_lots as int))->Some_0,
                currency: price@.currency,
            }),
            r@.commission is None,
    {
        let value = price.multiply(Decimal::from_u32(quantity_lots));
        Trade {
            id: TradeId::random(),
            order_id: None,
            symbol: String::from_str(symbol),
            exchange: String::from_str(exchange),
            direction,
            quantity_lots,
            price,
            value,
            commission: None,
            executed_at: utc_now(),
        }
    }

    /// A buy trade.
    pub fn buy(symbol: &str, exchange: &str, quantity_lots: u32, price: Money) -> (r: Trade)
        requires
            decimal_mul(price@.amount, int_view(quantity_lots as int)) is Some,
        ensures
            r@.order_id is None,
            r@.symbol == symbol@,
            r@.exchange == exchange@,
            r@.direction == OrderDirection::Buy,
            r@.quantity_lots == quantity_lots,
            r@.price == price@,
            r@.value == (MoneyView {
                amount: decimal_mul(price@.amount, int_view(quantity_lots as int))->Some_0,
                currency: price@.currency,
            }),
            r@.commission is None,
    {
        Trade::new(symbol, exchange, OrderDirection::Buy, quantity_lots, price)
    }

    /// A sell trade.
    pub fn sell(symbol: &str, exchange: &str, quantity_lots: u32, price: Money) -> (r: Trade)
        requires
            decimal_mul(price@.amount, int_view(quantity_lots as int)) is Some,
        ensures
            r@.order_id is None,
            r@.symbol == symbol@,
            r@.exchange == exchange@,
            r@.direction == OrderDirection::Sell,
            r@.quantity_lots == quantity_lots,
            r@.price == price@,
            r@.value == (MoneyView {
                amount: decimal_mul(price@.amount, int_view(quantity_lots as int))->Some_0,
                currency: price@.currency,
            }),
            r@.commission is None,
    {
        Trade::new(symbol, exchange, OrderDirection::Sell, quantity_lots, price)
    }

    /// Sets the trade ID.
    pub fn with_id(self, id: TradeId) -> (r: Trade)
        ensures
            r@ == (TradeView { id: id.view(), ..self@ }),
    {
        Trade { id, ..self }
    }

    /// Sets the order ID.
    pub fn with_order_id(self, order_id: &str) -> (r: Trade)
        ensures
            r@ == (TradeView { order_id: Some(order_id@), ..self@ }),
    {
        Trade { order_id: Some(String::from_str(order_id)), ..self }
    }

    /// Sets the commission.
    pub fn with_commission(self, commission: Money) -> (r: Trade)
        ensures
            r@ == (TradeView { commission: Some(commission@), ..self@ }),
    {
        Trade { commission: Some(commission), ..self }
    }

    /// Sets the execution time.
    pub fn with_executed_at(self, executed_at: Timestamp) -> (r: Trade)
        ensures
            r@ == (TradeView { executed_at, ..self@ }),
    {
        Trade { executed_at, ..self }
    }

    /// Returns the trade ID.
    pub fn id(&self) -> (r: &TradeId)
        ensures
            r.view() == self@.id,
    {
        &self.id
    }

    /// Returns the order ID if any.
    pub fn order_id(&self) -> (r: Option<&str>)
        ensures
            match self@.order_id {
                Some(s) => r is Some && r->Some_0@ == s,
                None => r is None,
            },
    {
        match &self.order_id {
            Some(s) => Some(s.as_str()),
            None => None,
        }
    }

    /// Returns the symbol.
    pub fn symbol(&self) -> (r: &str)
        ensures
            r@ == self@.symbol,
    {
        self.symbol.as_str()
    }

    /// Returns the exchange.
    pub fn exchange(&self) -> (r: &str)
        ensures
            r@ == self@.exchange,
    {
        self.exchange.as_str()
    }

    /// Returns the trade direction.
    pub fn direction(&self) -> (r: OrderDirection)
        ensures
            r == self@.direction,
    {
        self.direction
    }

    /// Returns the quantity in lots.
    pub fn quantity_lots(&self) -> (r: u32)
        ensures
            r == self@.quantity_lots,
    {
        self.quantity_lots
    }

    /// Returns the price per lot.
    pub fn price(&self) -> (r: &Money)
        ensures
            r@ == self@.price,
    {
        &self.price
    }

    /// Returns the total trade value.
    pub fn value(&self) -> (r: &Money)
        ensures
            r@ == self@.value,
    {
        &self.value
    }

    /// Returns the commission if any.
    pub fn commission(&self) -> (r: Option<&Money>)
        ensures
            match self@.commission {
                Some(c) => r is Some && r->Some_0@ == c,
                None => r is None,
            },
    {
        match &self.commission {
            Some(c) => Some(c),
            None => None,
        }
    }

    /// Returns the execution time.
    pub fn executed_at(&self) -> (r: Timestamp)
        ensures
            r == self@.executed_at,
    {
        self.executed_at
    }

    /// Returns true if this is a buy trade.
    pub fn is_buy(&self) -> (b: bool)
        ensures
            b == (self@.direction == OrderDirection::Buy),
    {
        match self.direction {
            OrderDirection::Buy => true,
            OrderDirection::Sell => false,
        }
    }

    /// Returns true if this is a sell trade.
    pub fn is_sell(&self) -> (b: bool)
        ensures
            b == (self@.direction == OrderDirection::Sell),
    {
        match self.direction {
            OrderDirection::Sell => true,
            OrderDirection::Buy => false,
        }
    }

    /// The net value: value plus commission for a buy, value less commission for a sell.
    pub fn net_value(&self) -> (r: Money)
        requires
            net_defined(self@),
        ensures
            r@ == spec_net_value(self@),
    {
        match &self.commission {
            Some(comm) => {
                if self.is_buy() {
                    match self.value.checked_add(comm) {
                        Some(v) => v,
                        None => self.value.duplicate(),
                    }
                } else {
                    match self.value.checked_sub(comm) {
                        Some(v) => v,
                        None => self.value.duplicate(),
                    }
                }
            },
            None => self.value.duplicate(),
        }
    }

    /// The same trade.
    pub fn duplicate(&self) -> (r: Trade)
        ensures
            r@ == self@,
    {
        Trade {
            id: self.id.duplicate(),
            order_id: match &self.order_id {
                Some(s) => Some(s.clone()),
                None => None,
            },
            symbol: self.symbol.clone(),
            exchange: self.exchange.clone(),
            direction: self.direction,
            quantity_lots: self.quantity_lots,
            price: self.price.duplicate(),
            value: self.value.duplicate(),
            commission: match &self.commission {
                Some(c) => Some(c.duplicate()),
                None => None,
            },
            executed_at: self.executed_at,
        }
    }
}

impl Clone for Trade {
    fn clone(&self) -> (r: Trade)
        ensures
            r@ == self@,
    {
        self.duplicate()
    }
}

pub open spec fn trades_view(s: Seq<Trade>) -> Seq<TradeView> {
    s.map_values(|t: Trade| t@)
}

/// Running total of the values of the trades of a symbol in one direction: each value in
/// the total's currency is added, others are skipped.
pub open spec fn total_value_of(
    ts: Seq<TradeView>,
    symbol: Seq<char>,
    direction: OrderDirection,
    start: MoneyView,
) -> MoneyView
    decreases ts.len(),
{
    if ts.len() == 0 {
        start
    } else {
        let acc = total_value_of(ts.drop_last(), symbol, direction, start);
        let t = ts.last();
        if t.symbol == symbol && t.direction == direction && t.value.currency == acc.currency {
            MoneyView { amount: decimal_add(acc.amount, t.value.amount)->Some_0, currency: acc.currency }
        } else {
            acc
        }
    }
}

/// Every addition of `total_value_of` is defined.
pub open spec fn total_defined_for(
    ts: Seq<TradeView>,
    symbol: Seq<char>,
    direction: OrderDirection,
    start: MoneyView,
) -> bool
    decreases ts.len(),
{
    if ts.len() == 0 {
        true
    } else {
        let acc = total_value_of(ts.drop_last(), symbol, direction, start);
        let t = ts.last();
        total_defined_for(ts.drop_last(), symbol, direction, start) && (t.symbol == symbol
            && t.direction == direction && t.value.currency == acc.currency ==> decimal_add(
            acc.amount,
            t.value.amount,
        ) is Some)
    }
}

proof fn lemma_total_defined_prefix(
    ts: Seq<TradeView>,
    symbol: Seq<char>,
    direction: OrderDirection,
    start: MoneyView,
    n: int,
)
    requires
        0 <= n <= ts.len(),
        total_defined_for(ts, symbol, direction, start),
    ensures
        total_defined_for(ts.take(n), symbol, direction, start),
    decreases ts.len() - n,
{
    if n < ts.len() {
        lemma_total_defined_prefix(ts, symbol, direction, start, n + 1);
        assert(ts.take(n + 1).drop_last() =~= ts.take(n));
    } else {
        assert(ts.take(n) =~= ts);
    }
}

/// A history of trades, in the order they were added.
#[derive(Debug)]
pub struct TradeHistory {
    trades: Vec<Trade>,
}

impl View for TradeHistory {
    type V = Seq<TradeView>;

    closed spec fn view(&self) -> Seq<TradeView> {
        trades_view(self.trades@)
    }
}

impl TradeHistory {
    /// An empty history.
    pub fn new() -> (r: TradeHistory)
        ensures
            r@ == Seq::<TradeView>::empty(),
    {
        let r = TradeHistory { trades: Vec::new() };
        assert(r@ =~= Seq::<TradeView>::empty());
        r
    }

    /// Adds a trade.
    pub fn add(&mut self, trade: Trade)
        ensures
            final(self)@ == old(self)@.push(trade@),
    {
        let ghost before = self@;
        let ghost tv = trade@;
        self.trades.push(trade);
        assert(self@ =~= before.push(tv));
    }

    /// All trades.
    pub fn trades(&self) -> (r: &[Trade])
        ensures
            trades_view(r@) == self@,
    {
        self.trades.as_slice()
    }

    /// The number of trades.
    pub fn len(&self) -> (r: usize)
        ensures
            r == self@.len(),
    {
        self.trades.len()
    }

    /// Whether there are no trades.
    pub fn is_empty(&self) -> (b: bool)
        ensures
            b == (self@.len() == 0),
    {
        self.trades.len() == 0
    }

    /// The trades of a symbol, in order.
    pub fn for_symbol(&self, symbol: &str) -> (r: Vec<&Trade>)
        ensures
            r@.map_values(|t: &Trade| t@) == self@.filter(|t: TradeView| t.symbol == symbol@),
    {
        let ghost src = self@;
        let mut out: Vec<&Trade> = Vec::new();
        let mut i: usize = 0;
        while i < self.trades.len()
            invariant
                i <= self.trades.len(),
                src == self@,
                out@.map_values(|t: &Trade| t@) == src.take(i as int).filter(
                    |t: TradeView| t.symbol == symbol@,
                ),
            decreases self.trades.len() - i,
        {
            proof {
                assert(src.take(i + 1) =~= src.take(i as int).push(src[i as int]));
                src.take(i as int).lemma_filter_push(src[i as int], |t: TradeView| t.symbol == symbol@);
            }
            let t = &self.trades[i];
            if chars_eq(t.symbol(), symbol) {
                let ghost before = out@.map_values(|t: &Trade| t@);
                out.push(t);
                assert(out@.map_values(|t: &Trade| t@) =~= before.push(src[i as int]));
            }
            i = i + 1;
        }
        assert(src.take(self.trades.len() as int) =~= src);
        out
    }

    /// The trades executed between two times (both included), in order.
    pub fn in_range(&self, start: Timestamp, end: Timestamp) -> (r: Vec<&Trade>)
        ensures
            r@.map_values(|t: &Trade| t@) == self@.filter(
                |t: TradeView| start.micros <= t.executed_at.micros <= end.micros,
            ),
    {
        let ghost src = self@;
        let mut out: Vec<&Trade> = Vec::new();
        let mut i: usize = 0;
        while i < self.trades.len()
            invariant
                i <= self.trades.len(),
                src == self@,
                out@.map_values(|t: &Trade| t@) == src.take(i as int).filter(
                    |t: TradeView| start.micros <= t.executed_at.micros <= end.micros,
                ),
            decreases self.trades.len() - i,
        {
            proof {
                assert(src.take(i + 1) =~= src.take(i as int).push(src[i as int]));
                src.take(i as int).lemma_filter_push(
                    src[i as int],
                    |t: TradeView| start.micros <= t.executed_at.micros <= end.micros,
                );
            }
            let t = &self.trades[i];
            if start.micros <= t.executed_at.micros && t.executed_at.micros <= end.micros {
                let ghost before = out@.map_values(|t: &Trade| t@);
                out.push(t);
                assert(out@.map_values(|t: &Trade| t@) =~= before.push(src[i as int]));
            }
            i = i + 1;
        }
        assert(src.take(self.trades.len() as int) =~= src);
        out
    }

    fn total_for(&self, symbol: &str, currency: &str, direction: OrderDirection) -> (r: Money)
        requires
            total_defined_for(
                self@,
                symbol@,
                direction,
                MoneyView { amount: int_view(0), currency: currency@ },
            ),
        ensures
            r@ == total_value_of(
                self@,
                symbol@,
                direction,
                MoneyView { amount: int_view(0), currency: currency@ },
            ),
    {
        let ghost src = self@;
        let ghost start = MoneyView { amount: int_view(0), currency: currency@ };
        let mut acc = Money::zero(currency);
        let mut i: usize = 0;
        while i < self.trades.len()
            invariant
                i <= self.trades.len(),
                src == self@,
                start == (MoneyView { amount: int_view(0), currency: currency@ }),
                total_defined_for(src, symbol@, direction, start),
                acc@ == total_value_of(src.take(i as int), symbol@, direction, start),
            decreases self.trades.len() - i,
        {
            proof {
                lemma_total_defined_prefix(src, symbol@, direction, start, i as int + 1);
                assert(src.take(i + 1).drop_last() =~= src.take(i as int));
            }
            let t = &self.trades[i];
            assert(src[i as int] == t@);
            if chars_eq(t.symbol(), symbol) && t.direction() == direction {
                match acc.checked_add(t.value()) {
                    Some(v) => {
                        acc = v;
                    },
                    None => {},
                }
            }
            i = i + 1;
        }
        assert(src.take(self.trades.len() as int) =~= src);
        acc
    }

    /// The total value of the buys of a symbol, counting only values in the currency.
    pub fn total_buy_value(&self, symbol: &str, currency: &str) -> (r: Money)
        requires
            total_defined_for(
                self@,
                symbol@,
                OrderDirection::Buy,
                MoneyView { amount: int_view(0), currency: currency@ },
            ),
        ensures
            r@ == total_value_of(
                self@,
                symbol@,
                OrderDirection::Buy,
                MoneyView { amount: int_view(0), currency: currency@ },
            ),
    {
        self.total_for(symbol, currency, OrderDirection::Buy)
    }

    /// The total value of the sells of a symbol, counting only values in the currency.
    pub fn total_sell_value(&self, symbol: &str, currency: &str) -> (r: Money)
        requires
            total_defined_for(
                self@,
                symbol@,
                OrderDirection::Sell,
                MoneyView { amount: int_view(0), currency: currency@ },
            ),
        ensures
            r@ == total_value_of(
                self@,
                symbol@,
                OrderDirection::Sell,
                MoneyView { amount: int_view(0), currency: currency@ },
            ),
    {
        self.total_for(symbol, currency, OrderDirection::Sell)
    }

    /// Removes all trades.
    pub fn clear(&mut self)
        ensures
            final(self)@ == Seq::<TradeView>::empty(),
    {
        self.trades = Vec::new();
        assert(self@ =~= Seq::<TradeView>::empty());
    }
}

impl Default for TradeHistory {
    fn default() -> (r: TradeHistory)
        ensures
            r@ == Seq::<TradeView>::empty(),
    {
        TradeHistory::new()
    }
}

} // verus!
