//! Order direction, type and status.

use vstd::prelude::*;
use crate::clock::{utc_now, Timestamp};
use crate::domain::decimal::{decimal_add, decimal_div, decimal_mul, int_view, Decimal, DecimalView};
use crate::domain::money::{opt_money, Money, MoneyView};
use crate::domain::position::opt_str;

verus! {

/// Direction of the order.
#[derive(Debug, Clone, Copy, PartialEq, Eq, Structural)]
pub enum OrderDirection {
    /// Buy order.
    Buy,
    /// Sell order.
    Sell,
}

impl OrderDirection {
    /// Returns the opposite direction.
    pub fn opposite(self) -> (r: Self)
        ensures
            r == (match self {
                OrderDirection::Buy => OrderDirection::Sell,
                OrderDirection::Sell => OrderDirection::Buy,
            }),
    {
        match self {
            OrderDirection::Buy => OrderDirection::Sell,
            OrderDirection::Sell => OrderDirection::Buy,
        }
    }
}

/// Taking the opposite direction twice gives back the direction, and no direction is its
/// own opposite.
pub proof fn lemma_opposite_involution(d: OrderDirection)
    ensures
        (match d {
            OrderDirection::Buy => OrderDirection::Sell,
            OrderDirection::Sell => OrderDirection::Buy,
        }) != d,
        (match (match d {
            OrderDirection::Buy => OrderDirection::Sell,
            OrderDirection::Sell => OrderDirection::Buy,
        }) {
            OrderDirection::Buy => OrderDirection::Sell,
            OrderDirection::Sell => OrderDirection::Buy,
        }) == d,
{
}

/// Type of the order.
#[derive(Debug, Clone, Copy, PartialEq, Eq, Structural)]
pub enum OrderType {
    /// Market order - executes at best available price.
    Market,
    /// Limit order - executes at specified price or better.
    Limit,
    /// Stop order - triggers market order when price reaches stop price.
    Stop,
    /// Stop limit order - triggers limit order when price reaches stop price.
    StopLimit,
}

/// Current status of an order.
#[derive(Debug, Clone, Copy, PartialEq, Eq, Structural)]
pub enum OrderStatus {
    /// Order has been created but not yet submitted.
    Pending,
    /// Order has been submitted to the exchange.
    Submitted,
    /// Order is partially filled.
    PartiallyFilled,
    /// Order has been completely filled.
    Filled,
    /// Order has been cancelled.
    Cancelled,
    /// Order has been rejected by the exchange.
    Rejected,
    /// Order has expired.
    Expired,
}

impl OrderStatus {
    /// Filled, cancelled, rejected or expired.
    pub open spec fn spec_is_terminal(self) -> bool {
        self is Filled || self is Cancelled || self is Rejected || self is Expired
    }

    /// Pending, submitted or partially filled.
    pub open spec fn spec_is_active(self) -> bool {
        self is Pending || self is Submitted || self is PartiallyFilled
    }

    /// Returns true if the order is in a terminal state.
    pub fn is_terminal(self) -> (b: bool)
        ensures
            b == self.spec_is_terminal(),
    {
        match self {
            OrderStatus::Filled | OrderStatus::Cancelled | OrderStatus::Rejected
            | OrderStatus::Expired => true,
            _ => false,
        }
    }

    /// Returns true if the order is still active.
    pub fn is_active(self) -> (b: bool)
        ensures
            b == self.spec_is_active(),
    {
        match self {
            OrderStatus::Pending | OrderStatus::Submitted | OrderStatus::PartiallyFilled => true,
            _ => false,
        }
    }
}

/// Every status is either active or terminal, never both.
pub proof fn lemma_status_active_xor_terminal(s: OrderStatus)
    ensures
        s.spec_is_active() != s.spec_is_terminal(),
{
}

/// A trading order.
#[derive(Debug)]
pub struct Order {
    id: String,
    exchange_order_id: Option<String>,
    symbol: String,
    exchange: String,
    direction: OrderDirection,
    order_type: OrderType,
    quantity_lots: u32,
    limit_price: Option<Money>,
    stop_price: Option<Money>,
    status: OrderStatus,
    filled_lots: u32,
    average_fill_price: Option<Money>,
    created_at: Timestamp,
    updated_at: Timestamp,
    message: Option<String>,
}

/// The mathematical form of an `Order`.
pub struct OrderView {
    pub id: Seq<char>,
    pub exchange_order_id: Option<Seq<char>>,
    pub symbol: Seq<char>,
    pub exchange: Seq<char>,
    pub direction: OrderDirection,
    pub order_type: OrderType,
    pub quantity_lots: nat,
    pub limit_price: Option<MoneyView>,
    pub stop_price: Option<MoneyView>,
    pub status: OrderStatus,
    pub filled_lots: nat,
    pub average_fill_price: Option<MoneyView>,
    pub created_at: Timestamp,
    pub updated_at: Timestamp,
    pub message: Option<Seq<char>>,
}

impl View for Order {
    type V = OrderView;

    closed spec fn view(&self) -> OrderView {
        OrderView {
            id: self.id@,
            exchange_order_id: opt_str(self.exchange_order_id),
            symbol: self.symbol@,
            exchange: self.exchange@,
            direction: self.direction,
            order_type: self.order_type,
            quantity_lots: self.quantity_lots as nat,
            limit_price: opt_money(self.limit_price),
            stop_price: opt_money(self.stop_price),
            status: self.status,
            filled_lots: self.filled_lots as nat,
            average_fill_price: opt_money(self.average_fill_price),
            created_at: self.created_at,
            updated_at: self.updated_at,
            message: opt_str(self.message),
        }
    }
}

/// A new pending order with nothing filled; both times are the creation time.
pub open spec fn new_order(
    o: OrderView,
    id: Seq<char>,
    symbol: Seq<char>,
    exchange: Seq<char>,
    direction: OrderDirection,
    order_type: OrderType,
    quantity_lots: nat,
    limit_price: Option<MoneyView>,
) -> bool {
    &&& o.id == id
    &&& o.exchange_order_id is None
    &&& o.symbol == symbol
    &&& o.exchange == exchange
    &&& o.direction == direction
    &&& o.order_type == order_type
    &&& o.quantity_lots == quantity_lots
    &&& o.limit_price == limit_price
    &&& o.stop_price is None
    &&& o.status == OrderStatus::Pending
    &&& o.filled_lots == 0
    &&& o.average_fill_price is None
    &&& o.created_at == o.updated_at
    &&& o.message is None
}

/// The order after a fill of `lots` at `price` (all but its update time): the filled lots
/// grow, capped at the quantity; the first fill sets the average price, a later fill after
/// some lots were filled averages it in the new price's currency; the status becomes filled
/// when everything is filled, else partially filled once something is.
pub open spec fn spec_fill(o: OrderView, lots: nat, price: MoneyView) -> OrderView {
    let filled = if o.filled_lots + lots <= o.quantity_lots {
        o.filled_lots + lots
    } else {
        o.quantity_lots
    };
    let avg = match o.average_fill_price {
        Some(a) => if o.filled_lots > 0 {
            Some(
                MoneyView {
                    amount: decimal_div(
                        decimal_add(
                            decimal_mul(a.amount, int_view(o.filled_lots as int))->Some_0,
                            decimal_mul(price.amount, int_view(lots as int))->Some_0,
                        )->Some_0,
                        int_view(filled as int),
                    )->Some_0,
                    currency: price.currency,
                },
            )
        } else {
            Some(a)
        },
        None => Some(price),
    };
    let status = if filled >= o.quantity_lots {
        OrderStatus::Filled
    } else if filled > 0 {
        OrderStatus::PartiallyFilled
    } else {
        o.status
    };
    OrderView { filled_lots: filled, average_fill_price: avg, status, ..o }
}

/// The averaging arithmetic of a fill does not overflow.
pub open spec fn fill_defined(o: OrderView, lots: nat, price: MoneyView) -> bool {
    &&& o.filled_lots + lots <= u32::MAX
    &&& match o.average_fill_price {
        Some(a) => o.filled_lots > 0 ==> {
            &&& decimal_mul(a.amount, int_view(o.filled_lots as int)) is Some
            &&& decimal_mul(price.amount, int_view(lots as int)) is Some
            &&& decimal_add(
                decimal_mul(a.amount, int_view(o.filled_lots as int))->Some_0,
                decimal_mul(price.amount, int_view(lots as int))->Some_0,
            ) is Some
        },
        None => true,
    }
}

impl Order {
    #[verifier::type_invariant]
    spec fn fill_within_quantity(self) -> bool {
        self.filled_lots <= self.quantity_lots
    }

    /// A new market order, stamped with the current time.
    pub fn market(
        id: &str,
        symbol: &str,
        exchange: &str,
        direction: OrderDirection,
        quantity_lots: u32,
    ) -> (r: Order)
        ensures
            new_order(
                r@,
                id@,
                symbol@,
                exchange@,
                direction,
                OrderType::Market,
                quantity_lots as nat,
                None,
            ),
    {
        let now = utc_now();
        Order {
            id: String::from_str(id),
            exchange_order_id: None,
            symbol: String::from_str(symbol),
            exchange: String::from_str(exchange),
            direction,
            order_type: OrderType::Market,
            quantity_lots,
            limit_price: None,
            stop_price: None,
            status: OrderStatus::Pending,
            filled_lots: 0,
            average_fill_price: None,
            created_at: now,
            updated_at: now,
            message: None,
        }
    }

    /// A new limit order, stamped with the current time.
    pub fn limit(
        id: &str,
        symbol: &str,
        exchange: &str,
        direction: OrderDirection,
        quantity_lots: u32,
        limit_price: Money,
    ) -> (r: Order)
        ensures
            new_order(
                r@,
                id@,
                symbol@,
                exchange@,
                direction,
                OrderType::Limit,
                quantity_lots as nat,
                Some(limit_price@),
            ),
    {
        let now = utc_now();
        Order {
            id: String::from_str(id),
            exchange_order_id: None,
            symbol: String::from_str(symbol),
            exchange: String::from_str(exchange),
            direction,
            order_type: OrderType::Limit,
            quantity_lots,
            limit_price: Some(limit_price),
            stop_price: None,
            status: OrderStatus::Pending,
            filled_lots: 0,
            average_fill_price: None,
            created_at: now,
            updated_at: now,
            message: None,
        }
    }

    /// Returns the order ID.
    pub fn id(&self) -> (r: &str)
        ensures
            r@ == self@.id,
    {
        self.id.as_str()
    }

    /// Returns the exchange order ID if set.
    pub fn exchange_order_id(&self) -> (r: Option<&str>)
        ensures
            match self@.exchange_order_id {
                Some(s) => r is Some && r->Some_0@ == s,
                None => r is None,
            },
    {
        match &self.exchange_order_id {
            Some(s) => Some(s.as_str()),
            None => None,
        }
    }

    /// Returns the symbol.
    pub fn symbol(&self) -> (r: &str)
        ensures
            r@ == self@.symbol,
    {
        self.symbol.as_str()
    }

    /// Returns the exchange.
    pub fn exchange(&self) -> (r: &str)
        ensures
            r@ == self@.exchange,
    {
        self.exchange.as_str()
    }

    /// Returns the order direction.
    pub fn direction(&self) -> (r: OrderDirection)
        ensures
            r == self@.direction,
    {
        self.direction
    }

    /// Returns the order type.
    pub fn order_type(&self) -> (r: OrderType)
        ensures
            r == self@.order_type,
    {
        self.order_type
    }

    /// Returns the quantity in lots.
    pub fn quantity_lots(&self) -> (r: u32)
        ensures
            r == self@.quantity_lots,
    {
        self.quantity_lots
    }

    /// Returns the limit price if set.
    pub fn limit_price(&self) -> (r: Option<&Money>)
        ensures
            match self@.limit_price {
                Some(p) => r is Some && r->Some_0@ == p,
                None => r is None,
            },
    {
        match &self.limit_price {
            Some(p) => Some(p),
            None => None,
        }
    }

    /// Returns the current status.
    pub fn status(&self) -> (r: OrderStatus)
        ensures
            r == self@.status,
    {
        self.status
    }

    /// Returns the number of lots filled (never more than the quantity).
    pub fn filled_lots(&self) -> (r: u32)
        ensures
            r == self@.filled_lots,
            r <= self@.quantity_lots,
    {
        proof {
            use_type_invariant(self);
        }
        self.filled_lots
    }

    /// Returns the number of lots remaining.
    pub fn remaining_lots(&self) -> (r: u32)
        ensures
            r == self@.quantity_lots - self@.filled_lots,
    {
        proof {
            use_type_invariant(self);
        }
        self.quantity_lots - self.filled_lots
    }

    /// Returns the average fill price if any fills occurred.
    pub fn average_fill_price(&self) -> (r: Option<&Money>)
        ensures
            match self@.average_fill_price {
                Some(p) => r is Some && r->Some_0@ == p,
                None => r is None,
            },
    {
        match &self.average_fill_price {
            Some(p) => Some(p),
            None => None,
        }
    }

    /// Returns the creation time.
    pub fn created_at(&self) -> (r: Timestamp)
        ensures
            r == self@.created_at,
    {
        self.created_at
    }

    /// Returns the last update time.
    pub fn updated_at(&self) -> (r: Timestamp)
        ensures
            r == self@.updated_at,
    {
        self.updated_at
    }

    /// Returns the message if set.
    pub fn message(&self) -> (r: Option<&str>)
        ensures
            match self@.message {
                Some(s) => r is Some && r->Some_0@ == s,
                None => r is None,
            },
    {
        match &self.message {
            Some(s) => Some(s.as_str()),
            None => None,
        }
    }

    /// The filled share in percent: `filled / quantity * 100`, or zero for a zero quantity.
    pub fn fill_percentage(&self) -> (r: Decimal)
        requires
            self@.quantity_lots > 0 ==> decimal_mul(
                decimal_div(
                    int_view(self@.filled_lots as int),
                    int_view(self@.quantity_lots as int),
                )->Some_0,
                int_view(100),
            ) is Some,
        ensures
            r@ == (if self@.quantity_lots == 0 {
                int_view(0)
            } else {
                decimal_mul(
                    decimal_div(
                        int_view(self@.filled_lots as int),
                        int_view(self@.quantity_lots as int),
                    )->Some_0,
                    int_view(100),
                )->Some_0
            }),
    {
        if self.quantity_lots == 0 {
            return Decimal::zero();
        }
        match Decimal::from_u32(self.filled_lots).checked_div(&Decimal::from_u32(self.quantity_lots)) {
            Some(q) => match q.checked_mul(&Decimal::from_u32(100)) {
                Some(x) => x,
                None => vstd::pervasive::unreached(),
            },
            None => vstd::pervasive::unreached(),
        }
    }

    /// A copy of the order.
    pub fn duplicate(&self) -> (r: Order)
        ensures
            r@ == self@,
    {
        proof {
            use_type_invariant(self);
        }
        Order {
            id: self.id.clone(),
            exchange_order_id: match &self.exchange_order_id {
                Some(s) => Some(s.clone()),
                None => None,
            },
            symbol: self.symbol.clone(),
            exchange: self.exchange.clone(),
            direction: self.direction,
            order_type: self.order_type,
            quantity_lots: self.quantity_lots,
            limit_price: match &self.limit_price {
                Some(m) => Some(m.duplicate()),
                None => None,
            },
            stop_price: match &self.stop_price {
                Some(m) => Some(m.duplicate()),
                None => None,
            },
            status: self.status,
            filled_lots: self.filled_lots,
            average_fill_price: match &self.average_fill_price {
                Some(m) => Some(m.duplicate()),
                None => None,
            },
            created_at: self.created_at,
            updated_at: self.updated_at,
            message: match &self.message {
                Some(s) => Some(s.clone()),
                None => None,
            },
        }
    }

    /// Sets the status (and the update time).
    pub fn set_status(&mut self, status: OrderStatus)
        ensures
            final(self)@ == (OrderView { status, updated_at: final(self)@.updated_at, ..old(self)@ }),
    {
        proof {
            use_type_invariant(&*self);
        }
        self.status = status;
        self.updated_at = utc_now();
    }

    /// Sets the exchange order ID (and the update time).
    pub fn set_exchange_order_id(&mut self, id: &str)
        ensures
            final(self)@ == (OrderView {
                exchange_order_id: Some(id@),
                updated_at: final(self)@.updated_at,
                ..old(self)@
            }),
    {
        proof {
            use_type_invariant(&*self);
        }
        self.exchange_order_id = Some(String::from_str(id));
        self.updated_at = utc_now();
    }

    /// Records a fill of `lots` at `price` (and the update time).
    pub fn record_fill(&mut self, lots: u32, price: Money)
        requires
            fill_defined(old(self)@, lots as nat, price@),
        ensures
            final(self)@ == (OrderView {
                updated_at: final(self)@.updated_at,
                ..spec_fill(old(self)@, lots as nat, price@)
            }),
            final(self)@.filled_lots <= final(self)@.quantity_lots,
    {
        proof {
            use_type_invariant(&*self);
        }
        let prev_filled = self.filled_lots;
        let sum = self.filled_lots + lots;
        let filled = if sum <= self.quantity_lots {
            sum
        } else {
            self.quantity_lots
        };
        self.filled_lots = filled;
        let new_avg = match &self.average_fill_price {
            Some(avg) => {
                if prev_filled > 0 {
                    let prev_value = match avg.amount().checked_mul(&Decimal::from_u32(prev_filled)) {
                        Some(x) => x,
                        None => vstd::pervasive::unreached(),
                    };
                    let new_value = match price.amount().checked_mul(&Decimal::from_u32(lots)) {
                        Some(x) => x,
                        None => vstd::pervasive::unreached(),
                    };
                    let total_value = match prev_value.checked_add(&new_value) {
                        Some(x) => x,
                        None => vstd::pervasive::unreached(),
                    };
                    let avg_amount = match total_value.checked_div(&Decimal::from_u32(filled)) {
                        Some(x) => x,
                        None => vstd::pervasive::unreached(),
                    };
                    Some(Money::new(avg_amount, price.currency()))
                } else {
                    Some(avg.duplicate())
                }
            },
            None => Some(price),
        };
        self.average_fill_price = new_avg;
        if self.filled_lots >= self.quantity_lots {
            self.status = OrderStatus::Filled;
        } else if self.filled_lots > 0 {
            self.status = OrderStatus::PartiallyFilled;
        }
        self.updated_at = utc_now();
    }

    /// Sets a message (and the update time).
    pub fn set_message(&mut self, message: &str)
        ensures
            final(self)@ == (OrderView {
                message: Some(message@),
                updated_at: final(self)@.updated_at,
                ..old(self)@
            }),
    {
        proof {
            use_type_invariant(&*self);
        }
        self.message = Some(String::from_str(message));
        self.updated_at = utc_now();
    }
}

} // verus!
