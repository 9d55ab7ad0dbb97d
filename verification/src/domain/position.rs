//! A holding in a portfolio.

use vstd::prelude::*;
use crate::domain::decimal::{
    decimal_div, decimal_mul, decimal_sub, int_view, pow10, Decimal, DecimalView,
};
use crate::domain::money::{Money, MoneyView};

verus! {

/// A position (holding) in the portfolio.
#[derive(Debug)]
pub struct Position {
    symbol: String,
    exchange: String,
    instrument_id: Option<String>,
    quantity: Decimal,
    lot_size: u32,
    current_price: Money,
    average_cost: Option<Money>,
    blocked: bool,
    blocked_lots: u32,
}

/// The mathematical form of a `Position`.
pub struct PositionView {
    pub symbol: Seq<char>,
    pub exchange: Seq<char>,
    pub instrument_id: Option<Seq<char>>,
    pub quantity: DecimalView,
    pub lot_size: nat,
    pub current_price: MoneyView,
    pub average_cost: Option<MoneyView>,
    pub blocked: bool,
    pub blocked_lots: nat,
}

pub open spec fn opt_str(o: Option<String>) -> Option<Seq<char>> {
    match o {
        Some(s) => Some(s@),
        None => None,
    }
}

pub open spec fn opt_money_view(o: Option<Money>) -> Option<MoneyView> {
    match o {
        Some(m) => Some(m@),
        None => None,
    }
}

/// The view of an optional position.
pub open spec fn opt_position(o: Option<Position>) -> Option<PositionView> {
    match o {
        Some(p) => Some(p@),
        None => None,
    }
}

impl View for Position {
    type V = PositionView;

    closed spec fn view(&self) -> PositionView {
        PositionView {
            symbol: self.symbol@,
            exchange: self.exchange@,
            instrument_id: opt_str(self.instrument_id),
            quantity: self.quantity@,
            lot_size: self.lot_size as nat,
            current_price: self.current_price@,
            average_cost: opt_money_view(self.average_cost),
            blocked: self.blocked,
            blocked_lots: self.blocked_lots as nat,
        }
    }
}

/// Market value of a position: price times quantity, in the price's currency.
pub open spec fn spec_market_value(p: PositionView) -> Option<MoneyView> {
    match decimal_mul(p.current_price.amount, p.quantity) {
        Some(a) => Some(MoneyView { amount: a, currency: p.current_price.currency }),
        None => None,
    }
}

/// Whole lots held: `floor(quantity / lot_size)`, or 0 when that is negative or above
/// `u32::MAX`.
pub open spec fn spec_lots_held(p: PositionView) -> nat {
    let q = decimal_div(p.quantity, int_view(p.lot_size as int))->Some_0;
    let f = q.mantissa / pow10(q.scale);
    if 0 <= f <= u32::MAX {
        f as nat
    } else {
        0
    }
}

/// Lots that may be traded: held lots less the blocked ones, never below zero.
pub open spec fn spec_tradeable_lots(p: PositionView) -> nat {
    if spec_lots_held(p) >= p.blocked_lots {
        (spec_lots_held(p) - p.blocked_lots) as nat
    } else {
        0
    }
}

/// Cost basis of a position with a known average cost: average cost times quantity.
pub open spec fn spec_cost_basis(p: PositionView) -> Option<DecimalView> {
    match p.average_cost {
        Some(c) => decimal_mul(c.amount, p.quantity),
        None => None,
    }
}

/// The arithmetic behind the unrealized P&L does not overflow.
pub open spec fn pnl_defined(p: PositionView) -> bool {
    match p.average_cost {
        Some(c) => {
            &&& decimal_mul(p.current_price.amount, p.quantity) is Some
            &&& decimal_mul(c.amount, p.quantity) is Some
            &&& (p.current_price.currency == c.currency ==> decimal_sub(
                decimal_mul(p.current_price.amount, p.quantity)->Some_0,
                decimal_mul(c.amount, p.quantity)->Some_0,
            ) is Some)
        },
        None => true,
    }
}

/// Unrealized P&L: market value less cost basis, when the average cost is known and in the
/// price's currency.
pub open spec fn spec_unrealized_pnl(p: PositionView) -> Option<MoneyView> {
    match p.average_cost {
        Some(c) => if p.current_price.currency == c.currency {
            Some(
                MoneyView {
                    amount: decimal_sub(
                        decimal_mul(p.current_price.amount, p.quantity)->Some_0,
                        decimal_mul(c.amount, p.quantity)->Some_0,
                    )->Some_0,
                    currency: p.current_price.currency,
                },
            )
        } else {
            None
        },
        None => None,
    }
}

/// Unrealized P&L as a percentage of the cost basis, `None` when the average cost is
/// unknown or zero or its currency differs from the price's.
pub open spec fn spec_unrealized_pnl_percent(p: PositionView) -> Option<DecimalView> {
    match p.average_cost {
        Some(c) => if c.amount.mantissa == 0 {
            None
        } else {
            match spec_unrealized_pnl(p) {
                Some(pnl) => decimal_mul(
                    decimal_div(pnl.amount, spec_cost_basis(p)->Some_0)->Some_0,
                    int_view(100),
                ),
                None => None,
            }
        },
        None => None,
    }
}

/// The percentage arithmetic does not fail (division by a zero cost basis included).
pub open spec fn pnl_percent_defined(p: PositionView) -> bool {
    match p.average_cost {
        Some(c) => c.amount.mantissa != 0 ==> {
            &&& pnl_defined(p)
            &&& match spec_unrealized_pnl(p) {
                Some(pnl) => {
                    &&& decimal_div(pnl.amount, spec_cost_basis(p)->Some_0) is Some
                    &&& decimal_mul(
                        decimal_div(pnl.amount, spec_cost_basis(p)->Some_0)->Some_0,
                        int_view(100),
                    ) is Some
                },
                None => true,
            }
        },
        None => true,
    }
}

impl Position {
    /// Creates a position with a lot size of 1, nothing blocked and no average cost.
    pub fn new(symbol: &str, exchange: &str, quantity: Decimal, current_price: Money) -> (r:
        Position)
        ensures
            r@ == (PositionView {
                symbol: symbol@,
                exchange: exchange@,
                instrument_id: None,
                quantity: quantity@,
                lot_size: 1,
                current_price: current_price@,
                average_cost: None,
                blocked: false,
                blocked_lots: 0,
            }),
    {
        Position {
            symbol: String::from_str(symbol),
            exchange: String::from_str(exchange),
            instrument_id: None,
            quantity,
            lot_size: 1,
            current_price,
            average_cost: None,
            blocked: false,
            blocked_lots: 0,
        }
    }

    /// Creates a builder for a position of `symbol` on `exchange`.
    pub fn builder(symbol: &str, exchange: &str) -> (r: PositionBuilder)
        ensures
            r.symbol@ == symbol@,
            r.exchange@ == exchange@,
            r.instrument_id is None,
            r.quantity@ == int_view(0),
            r.lot_size == 1,
            r.current_price is None,
            r.average_cost is None,
            !r.blocked,
            r.blocked_lots == 0,
    {
        PositionBuilder::new(symbol, exchange)
    }

    /// Returns the symbol.
    pub fn symbol(&self) -> (r: &str)
        ensures
            r@ == self@.symbol,
    {
        self.symbol.as_str()
    }

    /// Returns the exchange.
    pub fn exchange(&self) -> (r: &str)
        ensures
            r@ == self@.exchange,
    {
        self.exchange.as_str()
    }

    /// Returns the instrument ID if set.
    pub fn instrument_id(&self) -> (r: Option<&str>)
        ensures
            match self@.instrument_id {
                Some(s) => r is Some && r->Some_0@ == s,
                None => r is None,
            },
    {
        match &self.instrument_id {
            Some(s) => Some(s.as_str()),
            None => None,
        }
    }

    /// Returns the quantity held.
    pub fn quantity(&self) -> (r: Decimal)
        ensures
            r@ == self@.quantity,
    {
        self.quantity
    }

    /// Returns the lot size.
    pub fn lot_size(&self) -> (r: u32)
        ensures
            r == self@.lot_size,
    {
        self.lot_size
    }

    /// Returns the current price.
    pub fn current_price(&self) -> (r: &Money)
        ensures
            r@ == self@.current_price,
    {
        &self.current_price
    }

    /// Returns the average cost if set.
    pub fn average_cost(&self) -> (r: Option<&Money>)
        ensures
            match self@.average_cost {
                Some(c) => r is Some && r->Some_0@ == c,
                None => r is None,
            },
    {
        match &self.average_cost {
            Some(c) => Some(c),
            None => None,
        }
    }

    /// Returns whether the position is blocked.
    pub fn is_blocked(&self) -> (r: bool)
        ensures
            r == self@.blocked,
    {
        self.blocked
    }

    /// Returns the number of blocked lots.
    pub fn blocked_lots(&self) -> (r: u32)
        ensures
            r == self@.blocked_lots,
    {
        self.blocked_lots
    }

    /// The total market value of the position (price times quantity).
    pub fn market_value(&self) -> (r: Money)
        requires
            spec_market_value(self@) is Some,
        ensures
            Some(r@) == spec_market_value(self@),
    {
        self.current_price.multiply(self.quantity)
    }

    /// The number of complete lots held.
    pub fn lots_held(&self) -> (r: u32)
        requires
            self@.lot_size > 0,
        ensures
            r == spec_lots_held(self@),
    {
        let lot_size = Decimal::from_u32(self.lot_size);
        match self.quantity.checked_div(&lot_size) {
            Some(q) => q.floor().whole_to_u32_or_zero(),
            None => vstd::pervasive::unreached(),
        }
    }

    /// The number of tradeable lots (held less blocked, not below zero).
    pub fn tradeable_lots(&self) -> (r: u32)
        requires
            self@.lot_size > 0,
        ensures
            r == spec_tradeable_lots(self@),
            r <= spec_lots_held(self@),
    {
        let held = self.lots_held();
        if held >= self.blocked_lots {
            held - self.blocked_lots
        } else {
            0
        }
    }

    /// The unrealized P&L, when the average cost is known (and in the price's currency).
    pub fn unrealized_pnl(&self) -> (r: Option<Money>)
        requires
            pnl_defined(self@),
        ensures
            match (r, spec_unrealized_pnl(self@)) {
                (Some(m), Some(v)) => m@ == v,
                (None, None) => true,
                _ => false,
            },
    {
        let avg_cost = match &self.average_cost {
            Some(c) => c,
            None => {
                return None;
            },
        };
        let cost_basis = avg_cost.multiply(self.quantity);
        let market_value = self.market_value();
        market_value.checked_sub(&cost_basis)
    }

    /// The unrealized P&L as a percentage of the cost basis.
    pub fn unrealized_pnl_percent(&self) -> (r: Option<Decimal>)
        requires
            pnl_percent_defined(self@),
        ensures
            match (r, spec_unrealized_pnl_percent(self@)) {
                (Some(d), Some(v)) => d@ == v,
                (None, None) => true,
                _ => false,
            },
    {
        let avg_cost = match &self.average_cost {
            Some(c) => c,
            None => {
                return None;
            },
        };
        if avg_cost.is_zero() {
            return None;
        }
        let pnl = match self.unrealized_pnl() {
            Some(p) => p,
            None => {
                return None;
            },
        };
        let cost_basis = avg_cost.multiply(self.quantity);
        let ratio = match pnl.amount().checked_div(&cost_basis.amount()) {
            Some(x) => x,
            None => vstd::pervasive::unreached(),
        };
        match ratio.checked_mul(&Decimal::from_u32(100)) {
            Some(pct) => Some(pct),
            None => vstd::pervasive::unreached(),
        }
    }

    /// Whether the P&L percentage is computable (what `unrealized_pnl_percent` needs).
    pub fn pnl_percent_is_defined(&self) -> (b: bool)
        ensures
            b == pnl_percent_defined(self@),
    {
        let c = match &self.average_cost {
            Some(c) => c,
            None => {
                return true;
            },
        };
        if c.is_zero() {
            return true;
        }
        let mv = match self.current_price.amount().checked_mul(&self.quantity) {
            Some(x) => x,
            None => {
                return false;
            },
        };
        let cost = match c.amount().checked_mul(&self.quantity) {
            Some(x) => x,
            None => {
                return false;
            },
        };
        if !crate::text::chars_eq(self.current_price.currency(), c.currency()) {
            return true;
        }
        let pnl = match mv.checked_sub(&cost) {
            Some(x) => x,
            None => {
                return false;
            },
        };
        match pnl.checked_div(&cost) {
            Some(q) => q.checked_mul(&Decimal::from_u32(100)).is_some(),
            None => false,
        }
    }

    /// Updates the current price.
    pub fn update_price(&mut self, price: Money)
        ensures
            final(self)@ == (PositionView { current_price: price@, ..old(self)@ }),
    {
        self.current_price = price;
    }

    /// Updates the quantity.
    pub fn update_quantity(&mut self, quantity: Decimal)
        ensures
            final(self)@ == (PositionView { quantity: quantity@, ..old(self)@ }),
    {
        self.quantity = quantity;
    }

    /// The same position.
    pub fn duplicate(&self) -> (r: Position)
        ensures
            r@ == self@,
    {
        Position {
            symbol: self.symbol.clone(),
            exchange: self.exchange.clone(),
            instrument_id: match &self.instrument_id {
                Some(s) => Some(s.clone()),
                None => None,
            },
            quantity: self.quantity,
            lot_size: self.lot_size,
            current_price: self.current_price.duplicate(),
            average_cost: match &self.average_cost {
                Some(c) => Some(c.duplicate()),
                None => None,
            },
            blocked: self.blocked,
            blocked_lots: self.blocked_lots,
        }
    }
}

impl Clone for Position {
    fn clone(&self) -> (r: Position)
        ensures
            r@ == self@,
    {
        self.duplicate()
    }
}

/// Builder for positions; the price must be set before building.
pub struct PositionBuilder {
    pub symbol: String,
    pub exchange: String,
    pub instrument_id: Option<String>,
    pub quantity: Decimal,
    pub lot_size: u32,
    pub current_price: Option<Money>,
    pub average_cost: Option<Money>,
    pub blocked: bool,
    pub blocked_lots: u32,
}

impl PositionBuilder {
    fn new(symbol: &str, exchange: &str) -> (r: PositionBuilder)
        ensures
            r.symbol@ == symbol@,
            r.exchange@ == exchange@,
            r.instrument_id is None,
            r.quantity@ == int_view(0),
            r.lot_size == 1,
            r.current_price is None,
            r.average_cost is None,
            !r.blocked,
            r.blocked_lots == 0,
    {
        PositionBuilder {
            symbol: String::from_str(symbol),
            exchange: String::from_str(exchange),
            instrument_id: None,
            quantity: Decimal::zero(),
            lot_size: 1,
            current_price: None,
            average_cost: None,
            blocked: false,
            blocked_lots: 0,
        }
    }

    /// Sets the instrument ID.
    pub fn instrument_id(self, id: &str) -> (r: PositionBuilder)
        ensures
            r == (PositionBuilder { instrument_id: r.instrument_id, ..self }),
            opt_str(r.instrument_id) == Some(id@),
    {
        PositionBuilder { instrument_id: Some(String::from_str(id)), ..self }
    }

    /// Sets the quantity.
    pub fn quantity(self, qty: Decimal) -> (r: PositionBuilder)
        ensures
            r == (PositionBuilder { quantity: qty, ..self }),
    {
        PositionBuilder { quantity: qty, ..self }
    }

    /// Sets the lot size.
    pub fn lot_size(self, size: u32) -> (r: PositionBuilder)
        ensures
            r == (PositionBuilder { lot_size: size, ..self }),
    {
        PositionBuilder { lot_size: size, ..self }
    }

    /// Sets the current price.
    pub fn current_price(self, price: Money) -> (r: PositionBuilder)
        ensures
            r == (PositionBuilder { current_price: Some(price), ..self }),
    {
        PositionBuilder { current_price: Some(price), ..self }
    }

    /// Sets the average cost.
    pub fn average_cost(self, cost: Money) -> (r: PositionBuilder)
        ensures
            r == (PositionBuilder { average_cost: Some(cost), ..self }),
    {
        PositionBuilder { average_cost: Some(cost), ..self }
    }

    /// Marks the position as blocked or not.
    pub fn blocked(self, is_blocked: bool) -> (r: PositionBuilder)
        ensures
            r == (PositionBuilder { blocked: is_blocked, ..self }),
    {
        PositionBuilder { blocked: is_blocked, ..self }
    }

    /// Sets the number of blocked lots.
    pub fn blocked_lots(self, lots: u32) -> (r: PositionBuilder)
        ensures
            r == (PositionBuilder { blocked_lots: lots, ..self }),
    {
        PositionBuilder { blocked_lots: lots, ..self }
    }

    /// Builds the position; the current price must have been set.
    pub fn build(self) -> (r: Position)
        requires
            self.current_price is Some,
        ensures
            r@ == (PositionView {
                symbol: self.symbol@,
                exchange: self.exchange@,
                instrument_id: opt_str(self.instrument_id),
                quantity: self.quantity@,
                lot_size: self.lot_size as nat,
                current_price: self.current_price->Some_0@,
                average_cost: opt_money_view(self.average_cost),
                blocked: self.blocked,
                blocked_lots: self.blocked_lots as nat,
            }),
    {
        let price = match self.current_price {
            Some(p) => p,
            None => Money::zero(""),
        };
        Position {
            symbol: self.symbol,
            exchange: self.exchange,
            instrument_id: self.instrument_id,
            quantity: self.quantity,
            lot_size: self.lot_size,
            current_price: price,
            average_cost: self.average_cost,
            blocked: self.blocked,
            blocked_lots: self.blocked_lots,
        }
    }
}

} // verus!
