//! Exchange-related types.

use vstd::prelude::*;
use crate::clock::{utc_now, Timestamp};
use crate::domain::decimal::{
    decimal_add, decimal_div, decimal_mul, decimal_round, decimal_sub, int_view, pow10, Decimal,
    DecimalView,
};
use crate::domain::money::{opt_money, Money, MoneyView};

verus! {

/// Type of financial instrument.
#[derive(Debug, Clone, Copy, PartialEq, Eq, Structural)]
pub enum InstrumentType {
    /// Stock/equity.
    Stock,
    /// Exchange-traded fund.
    Etf,
    /// Bond.
    Bond,
    /// Currency pair.
    Currency,
    /// Futures contract.
    Futures,
    /// Options contract.
    Options,
    /// Cryptocurrency.
    Crypto,
    /// Other/unknown type.
    Other,
}

/// Current market status for an instrument.
#[derive(Debug, Clone, Copy, PartialEq, Eq, Structural)]
pub enum MarketStatus {
    /// Market is open for trading.
    Open,
    /// Market is closed.
    Closed,
    /// Pre-market session.
    PreMarket,
    /// After-hours session.
    AfterHours,
    /// Trading is halted.
    Halted,
    /// Status is unknown.
    Unknown,
}

impl MarketStatus {
    /// Open, pre-market and after-hours sessions allow trading.
    pub open spec fn spec_is_tradeable(&self) -> bool {
        *self is Open || *self is PreMarket || *self is AfterHours
    }

    /// Returns true if trading is possible.
    pub fn is_tradeable(&self) -> (b: bool)
        ensures
            b == self.spec_is_tradeable(),
    {
        match self {
            MarketStatus::Open | MarketStatus::PreMarket | MarketStatus::AfterHours => true,
            _ => false,
        }
    }
}

/// General information about an exchange.
#[derive(Debug, Clone)]
pub struct ExchangeInfo {
    /// Exchange identifier (e.g., "MOEX", "BINANCE").
    pub id: String,
    /// Human-readable name.
    pub name: String,
    /// Exchange website URL.
    pub url: String,
    /// Supported instrument types.
    pub supported_types: Vec<InstrumentType>,
}

impl ExchangeInfo {
    /// Creates a new ExchangeInfo.
    pub fn new(id: String, name: String, url: String, supported_types: Vec<InstrumentType>) -> (r:
        Self)
        ensures
            r.id@ == id@,
            r.name@ == name@,
            r.url@ == url@,
            r.supported_types@ == supported_types@,
    {
        ExchangeInfo { id, name, url, supported_types }
    }
}

/// Information about a tradeable instrument.
#[derive(Debug)]
pub struct Instrument {
    /// Trading symbol (e.g., "AAPL", "BTC-USD").
    pub symbol: String,
    /// Full name of the instrument.
    pub name: String,
    /// Unique identifier used by the exchange (e.g., FIGI).
    pub exchange_id: String,
    /// Exchange where the instrument is traded.
    pub exchange: String,
    /// Type of instrument.
    pub instrument_type: InstrumentType,
    /// Base currency for the instrument.
    pub currency: String,
    /// Minimum lot size.
    pub lot_size: u32,
    /// Minimum price increment.
    pub min_price_increment: Decimal,
    /// Minimum order quantity in lots.
    pub min_quantity: u32,
    /// Whether the instrument is currently tradeable.
    pub tradeable: bool,
    /// Whether margin trading is allowed.
    pub margin_available: bool,
    /// Whether short selling is allowed.
    pub short_available: bool,
}

/// The mathematical form of an `Instrument`.
pub struct InstrumentView {
    pub symbol: Seq<char>,
    pub name: Seq<char>,
    pub exchange_id: Seq<char>,
    pub exchange: Seq<char>,
    pub instrument_type: InstrumentType,
    pub currency: Seq<char>,
    pub lot_size: nat,
    pub min_price_increment: DecimalView,
    pub min_quantity: nat,
    pub tradeable: bool,
    pub margin_available: bool,
    pub short_available: bool,
}

impl View for Instrument {
    type V = InstrumentView;

    open spec fn view(&self) -> InstrumentView {
        InstrumentView {
            symbol: self.symbol@,
            name: self.name@,
            exchange_id: self.exchange_id@,
            exchange: self.exchange@,
            instrument_type: self.instrument_type,
            currency: self.currency@,
            lot_size: self.lot_size as nat,
            min_price_increment: self.min_price_increment@,
            min_quantity: self.min_quantity as nat,
            tradeable: self.tradeable,
            margin_available: self.margin_available,
            short_available: self.short_available,
        }
    }
}

impl Instrument {
    /// A copy of the instrument.
    pub fn duplicate(&self) -> (r: Instrument)
        ensures
            r@ == self@,
    {
        Instrument {
            symbol: self.symbol.clone(),
            name: self.name.clone(),
            exchange_id: self.exchange_id.clone(),
            exchange: self.exchange.clone(),
            instrument_type: self.instrument_type,
            currency: self.currency.clone(),
            lot_size: self.lot_size,
            min_price_increment: self.min_price_increment,
            min_quantity: self.min_quantity,
            tradeable: self.tradeable,
            margin_available: self.margin_available,
            short_available: self.short_available,
        }
    }
}

/// The whole number a decimal is floored to, as a `u32` (0 when out of range).
pub open spec fn floor_u32_or_zero(q: DecimalView) -> nat {
    let f = q.mantissa / pow10(q.scale);
    if 0 <= f <= u32::MAX {
        f as nat
    } else {
        0
    }
}

impl Instrument {
    /// The quantity in units of the given number of lots.
    pub fn lots_to_units(&self, lots: u32) -> (r: Decimal)
        requires
            decimal_mul(int_view(lots as int), int_view(self.lot_size as int)) is Some,
        ensures
            Some(r@) == decimal_mul(int_view(lots as int), int_view(self.lot_size as int)),
    {
        match Decimal::from_u32(lots).checked_mul(&Decimal::from_u32(self.lot_size)) {
            Some(x) => x,
            None => vstd::pervasive::unreached(),
        }
    }

    /// The number of complete lots in a quantity of units.
    pub fn units_to_lots(&self, units: Decimal) -> (r: u32)
        requires
            self.lot_size > 0,
        ensures
            r == floor_u32_or_zero(decimal_div(units@, int_view(self.lot_size as int))->Some_0),
    {
        match units.checked_div(&Decimal::from_u32(self.lot_size)) {
            Some(q) => q.floor().whole_to_u32_or_zero(),
            None => vstd::pervasive::unreached(),
        }
    }

    /// Rounds a price to a whole number of minimum increments (ties to even); a zero
    /// increment leaves the price unchanged.
    pub fn round_price(&self, price: Decimal) -> (r: Decimal)
        requires
            self.min_price_increment@.mantissa != 0 ==> decimal_div(
                price@,
                self.min_price_increment@,
            ) is Some && decimal_mul(
                decimal_round(decimal_div(price@, self.min_price_increment@)->Some_0),
                self.min_price_increment@,
            ) is Some,
        ensures
            r@ == (if self.min_price_increment@.mantissa == 0 {
                price@
            } else {
                decimal_mul(
                    decimal_round(decimal_div(price@, self.min_price_increment@)->Some_0),
                    self.min_price_increment@,
                )->Some_0
            }),
    {
        if self.min_price_increment.is_zero() {
            return price;
        }
        match price.checked_div(&self.min_price_increment) {
            Some(q) => match q.round().checked_mul(&self.min_price_increment) {
                Some(x) => x,
                None => vstd::pervasive::unreached(),
            },
            None => vstd::pervasive::unreached(),
        }
    }
}

/// Real-time market data for an instrument.
#[derive(Debug)]
pub struct MarketData {
    /// Trading symbol.
    pub symbol: String,
    /// Last traded price.
    pub last_price: Money,
    /// Best bid price.
    pub bid: Option<Money>,
    /// Best ask price.
    pub ask: Option<Money>,
    /// 24-hour volume.
    pub volume_24h: Option<Decimal>,
    /// 24-hour high.
    pub high_24h: Option<Money>,
    /// 24-hour low.
    pub low_24h: Option<Money>,
    /// Price change in the last 24 hours.
    pub change_24h: Option<Money>,
    /// Percentage change in the last 24 hours.
    pub change_percent_24h: Option<Decimal>,
    /// Current market status.
    pub market_status: MarketStatus,
    /// Time of the data.
    pub timestamp: Timestamp,
}

/// Mid price of a bid and an ask: `(bid + ask) / 2`, in the bid's currency.
pub open spec fn spec_mid(bid: MoneyView, ask: MoneyView) -> MoneyView {
    MoneyView {
        amount: decimal_div(decimal_add(bid.amount, ask.amount)->Some_0, int_view(2))->Some_0,
        currency: bid.currency,
    }
}

/// The mid price's arithmetic does not overflow.
pub open spec fn mid_defined(bid: Option<MoneyView>, ask: Option<MoneyView>) -> bool {
    match (bid, ask) {
        (Some(b), Some(a)) => decimal_add(b.amount, a.amount) is Some,
        _ => true,
    }
}

/// The spread's arithmetic does not overflow.
pub open spec fn spread_defined(bid: Option<MoneyView>, ask: Option<MoneyView>) -> bool {
    match (bid, ask) {
        (Some(b), Some(a)) => a.currency == b.currency ==> decimal_sub(a.amount, b.amount) is Some,
        _ => true,
    }
}

/// Spread between an ask and a bid in the same currency.
pub open spec fn spec_spread(bid: Option<MoneyView>, ask: Option<MoneyView>) -> Option<MoneyView> {
    match (bid, ask) {
        (Some(b), Some(a)) => if a.currency == b.currency {
            Some(MoneyView { amount: decimal_sub(a.amount, b.amount)->Some_0, currency: a.currency })
        } else {
            None
        },
        _ => None,
    }
}

impl MarketData {
    /// The mid price (average of bid and ask), when both are known.
    pub fn mid_price(&self) -> (r: Option<Money>)
        requires
            mid_defined(opt_money(self.bid), opt_money(self.ask)),
        ensures
            opt_money(r) == match (opt_money(self.bid), opt_money(self.ask)) {
                (Some(b), Some(a)) => Some(spec_mid(b, a)),
                _ => None,
            },
    {
        let bid = match &self.bid {
            Some(b) => b,
            None => {
                return None;
            },
        };
        let ask = match &self.ask {
            Some(a) => a,
            None => {
                return None;
            },
        };
        let sum = match bid.amount().checked_add(&ask.amount()) {
            Some(x) => x,
            None => vstd::pervasive::unreached(),
        };
        let mid = match sum.checked_div(&Decimal::from_u32(2)) {
            Some(x) => x,
            None => vstd::pervasive::unreached(),
        };
        Some(Money::new(mid, bid.currency()))
    }

    /// The spread (ask - bid), when both are known and in the same currency.
    pub fn spread(&self) -> (r: Option<Money>)
        requires
            spread_defined(opt_money(self.bid), opt_money(self.ask)),
        ensures
            opt_money(r) == spec_spread(opt_money(self.bid), opt_money(self.ask)),
    {
        let bid = match &self.bid {
            Some(b) => b,
            None => {
                return None;
            },
        };
        let ask = match &self.ask {
            Some(a) => a,
            None => {
                return None;
            },
        };
        ask.checked_sub(bid)
    }

    /// The spread as a percentage of the mid price (`None` when either is unknown or the mid
    /// price is zero).
    pub fn spread_percent(&self) -> (r: Option<Decimal>)
        requires
            mid_defined(opt_money(self.bid), opt_money(self.ask)),
            spread_defined(opt_money(self.bid), opt_money(self.ask)),
            match (opt_money(self.bid), opt_money(self.ask)) {
                (Some(b), Some(a)) => spec_spread(Some(b), Some(a)) is Some && spec_mid(b, a).amount.mantissa != 0 ==> {
                    &&& decimal_div(spec_spread(Some(b), Some(a))->Some_0.amount, spec_mid(b, a).amount) is Some
                    &&& decimal_mul(
                        decimal_div(spec_spread(Some(b), Some(a))->Some_0.amount, spec_mid(b, a).amount)->Some_0,
                        int_view(100),
                    ) is Some
                },
                _ => true,
            },
        ensures
            crate::domain::decimal::opt_view(r) == match (opt_money(self.bid), opt_money(self.ask)) {
                (Some(b), Some(a)) => match spec_spread(Some(b), Some(a)) {
                    Some(sp) => if spec_mid(b, a).amount.mantissa == 0 {
                        None
                    } else {
                        Some(
                            decimal_mul(
                                decimal_div(sp.amount, spec_mid(b, a).amount)->Some_0,
                                int_view(100),
                            )->Some_0,
                        )
                    },
                    None => None,
                },
                _ => None,
            },
    {
        let mid = match self.mid_price() {
            Some(m) => m,
            None => {
                return None;
            },
        };
        let spread = match self.spread() {
            Some(s) => s,
            None => {
                return None;
            },
        };
        if mid.is_zero() {
            return None;
        }
        match spread.amount().checked_div(&mid.amount()) {
            Some(q) => q.checked_mul(&Decimal::from_u32(100)),
            None => vstd::pervasive::unreached(),
        }
    }
}

/// Ticker data (simplified market data).
#[derive(Debug)]
pub struct Ticker {
    /// Trading symbol.
    pub symbol: String,
    /// Last traded price.
    pub price: Money,
    /// Time of the price.
    pub timestamp: Timestamp,
}

/// Single entry in an order book.
#[derive(Debug)]
pub struct OrderBookEntry {
    /// Price level.
    pub price: Money,
    /// Quantity available at this price.
    pub quantity: Decimal,
}

/// Order book (market depth).
#[derive(Debug)]
pub struct OrderBook {
    /// Trading symbol.
    pub symbol: String,
    /// Bid levels (buyers), from the highest price down.
    pub bids: Vec<OrderBookEntry>,
    /// Ask levels (sellers), from the lowest price up.
    pub asks: Vec<OrderBookEntry>,
    /// Time of the snapshot.
    pub timestamp: Timestamp,
}

/// Whole quantity of a level as `u64`: its floor, or 0 when negative or too large.
pub open spec fn level_units(e: OrderBookEntry) -> nat {
    let f = e.quantity@.mantissa / pow10(e.quantity@.scale);
    if 0 <= f <= u64::MAX {
        f as nat
    } else {
        0
    }
}

/// Sum of the whole quantities of the first `n` levels.
pub open spec fn depth(levels: Seq<OrderBookEntry>, n: int) -> nat
    decreases n,
{
    if n <= 0 || levels.len() == 0 {
        0
    } else if n > levels.len() {
        depth(levels, levels.len() as int)
    } else {
        depth(levels, n - 1) + level_units(levels[n - 1])
    }
}

proof fn lemma_depth_monotone(levels: Seq<OrderBookEntry>, a: int, b: int)
    requires
        0 <= a <= b <= levels.len(),
    ensures
        depth(levels, a) <= depth(levels, b),
    decreases b - a,
{
    if a < b {
        lemma_depth_monotone(levels, a, b - 1);
    }
}

fn sum_depth(levels: &Vec<OrderBookEntry>, count: usize) -> (r: u64)
    requires
        depth(levels@, count as int) <= u64::MAX,
    ensures
        r == depth(levels@, count as int),
{
    let n = if count < levels.len() {
        count
    } else {
        levels.len()
    };
    assert(depth(levels@, count as int) == depth(levels@, n as int));
    let mut total: u64 = 0;
    let mut i: usize = 0;
    while i < n
        invariant
            i <= n <= levels.len(),
            depth(levels@, n as int) <= u64::MAX,
            total == depth(levels@, i as int),
        decreases n - i,
    {
        proof {
            lemma_depth_monotone(levels@, i as int + 1, n as int);
        }
        let units = levels[i].quantity.floor().whole_to_u64_or_zero();
        total = total + units;
        i = i + 1;
    }
    total
}

impl OrderBook {
    /// An empty order book stamped with the current time.
    pub fn empty(symbol: &str) -> (r: OrderBook)
        ensures
            r.symbol@ == symbol@,
            r.bids@.len() == 0,
            r.asks@.len() == 0,
    {
        OrderBook {
            symbol: String::from_str(symbol),
            bids: Vec::new(),
            asks: Vec::new(),
            timestamp: utc_now(),
        }
    }

    /// An order book with the given levels, stamped with the current time.
    pub fn with_levels(symbol: &str, bids: Vec<OrderBookEntry>, asks: Vec<OrderBookEntry>) -> (r:
        OrderBook)
        ensures
            r.symbol@ == symbol@,
            r.bids == bids,
            r.asks == asks,
    {
        OrderBook { symbol: String::from_str(symbol), bids, asks, timestamp: utc_now() }
    }

    /// The best bid (first bid level).
    pub fn best_bid(&self) -> (r: Option<&OrderBookEntry>)
        ensures
            self.bids@.len() == 0 ==> r is None,
            self.bids@.len() > 0 ==> r == Some(&self.bids@[0]),
    {
        if self.bids.len() == 0 {
            None
        } else {
            Some(&self.bids[0])
        }
    }

    /// The best ask (first ask level).
    pub fn best_ask(&self) -> (r: Option<&OrderBookEntry>)
        ensures
            self.asks@.len() == 0 ==> r is None,
            self.asks@.len() > 0 ==> r == Some(&self.asks@[0]),
    {
        if self.asks.len() == 0 {
            None
        } else {
            Some(&self.asks[0])
        }
    }

    /// The best bid price.
    pub fn best_bid_price(&self) -> (r: Option<Decimal>)
        ensures
            self.bids@.len() == 0 ==> r is None,
            self.bids@.len() > 0 ==> r is Some && r->Some_0@ == self.bids@[0].price@.amount,
    {
        match self.best_bid() {
            Some(e) => Some(e.price.amount()),
            None => None,
        }
    }

    /// The best ask price.
    pub fn best_ask_price(&self) -> (r: Option<Decimal>)
        ensures
            self.asks@.len() == 0 ==> r is None,
            self.asks@.len() > 0 ==> r is Some && r->Some_0@ == self.asks@[0].price@.amount,
    {
        match self.best_ask() {
            Some(e) => Some(e.price.amount()),
            None => None,
        }
    }

    /// The spread between the best ask and the best bid (same currency only).
    pub fn spread(&self) -> (r: Option<Money>)
        requires
            self.bids@.len() > 0 && self.asks@.len() > 0 ==> spread_defined(
                Some(self.bids@[0].price@),
                Some(self.asks@[0].price@),
            ),
        ensures
            opt_money(r) == (if self.bids@.len() > 0 && self.asks@.len() > 0 {
                spec_spread(Some(self.bids@[0].price@), Some(self.asks@[0].price@))
            } else {
                None
            }),
    {
        let bid = match self.best_bid() {
            Some(b) => b,
            None => {
                return None;
            },
        };
        let ask = match self.best_ask() {
            Some(a) => a,
            None => {
                return None;
            },
        };
        ask.price.checked_sub(&bid.price)
    }

    /// Total whole quantity of the first `levels` bid levels.
    pub fn bid_depth(&self, levels: usize) -> (r: u64)
        requires
            depth(self.bids@, levels as int) <= u64::MAX,
        ensures
            r == depth(self.bids@, levels as int),
    {
        sum_depth(&self.bids, levels)
    }

    /// Total whole quantity of the first `levels` ask levels.
    pub fn ask_depth(&self, levels: usize) -> (r: u64)
        requires
            depth(self.asks@, levels as int) <= u64::MAX,
        ensures
            r == depth(self.asks@, levels as int),
    {
        sum_depth(&self.asks, levels)
    }

    /// Whether both sides are empty.
    pub fn is_empty(&self) -> (b: bool)
        ensures
            b == (self.bids@.len() == 0 && self.asks@.len() == 0),
    {
        self.bids.len() == 0 && self.asks.len() == 0
    }

    /// The number of bid levels.
    pub fn bid_levels(&self) -> (r: usize)
        ensures
            r == self.bids@.len(),
    {
        self.bids.len()
    }

    /// The number of ask levels.
    pub fn ask_levels(&self) -> (r: usize)
        ensures
            r == self.asks@.len(),
    {
        self.asks.len()
    }
}

} // verus!
