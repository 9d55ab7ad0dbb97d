//! What strategies decide: actions, decisions, and the market state they look at.

use vstd::prelude::*;
use crate::clock::{utc_now, Timestamp};
use crate::domain::decimal::{int_view, Decimal, DecimalView};
use crate::domain::order::Order;
use crate::domain::position::{spec_lots_held, Position, PositionView};
use crate::exchange::types::OrderBook;

verus! {

/// A single action a strategy wants taken.
#[derive(Debug)]
pub enum StrategyAction {
    /// Buy lots (at a limit price, or at market when there is none).
    Buy { symbol: String, quantity_lots: u32, price: Option<Decimal> },
    /// Sell lots (at a limit price, or at market when there is none).
    Sell { symbol: String, quantity_lots: u32, price: Option<Decimal> },
    /// Cancel an order.
    Cancel { order_id: String },
    /// Change an order's price.
    ModifyPrice { order_id: String, new_price: Decimal },
    /// Do nothing.
    Hold,
}

/// The mathematical form of a `StrategyAction`.
pub enum ActionKind {
    Buy { symbol: Seq<char>, quantity_lots: nat, price: Option<DecimalView> },
    Sell { symbol: Seq<char>, quantity_lots: nat, price: Option<DecimalView> },
    Cancel { order_id: Seq<char> },
    ModifyPrice { order_id: Seq<char>, new_price: DecimalView },
    Hold,
}

impl View for StrategyAction {
    type V = ActionKind;

    open spec fn view(&self) -> ActionKind {
        match self {
            StrategyAction::Buy { symbol, quantity_lots, price } => ActionKind::Buy {
                symbol: symbol@,
                quantity_lots: *quantity_lots as nat,
                price: crate::domain::decimal::opt_view(*price),
            },
            StrategyAction::Sell { symbol, quantity_lots, price } => ActionKind::Sell {
                symbol: symbol@,
                quantity_lots: *quantity_lots as nat,
                price: crate::domain::decimal::opt_view(*price),
            },
            StrategyAction::Cancel { order_id } => ActionKind::Cancel { order_id: order_id@ },
            StrategyAction::ModifyPrice { order_id, new_price } => ActionKind::ModifyPrice {
                order_id: order_id@,
                new_price: new_price@,
            },
            StrategyAction::Hold => ActionKind::Hold,
        }
    }
}

impl StrategyAction {
    /// A market buy.
    pub fn market_buy(symbol: &str, quantity_lots: u32) -> (r: StrategyAction)
        ensures
            r@ == (ActionKind::Buy { symbol: symbol@, quantity_lots: quantity_lots as nat, price: None }),
    {
        StrategyAction::Buy { symbol: String::from_str(symbol), quantity_lots, price: None }
    }

    /// A limit buy.
    pub fn limit_buy(symbol: &str, quantity_lots: u32, price: Decimal) -> (r: StrategyAction)
        ensures
            r@ == (ActionKind::Buy {
                symbol: symbol@,
                quantity_lots: quantity_lots as nat,
                price: Some(price@),
            }),
    {
        StrategyAction::Buy { symbol: String::from_str(symbol), quantity_lots, price: Some(price) }
    }

    /// A market sell.
    pub fn market_sell(symbol: &str, quantity_lots: u32) -> (r: StrategyAction)
        ensures
            r@ == (ActionKind::Sell { symbol: symbol@, quantity_lots: quantity_lots as nat, price: None }),
    {
        StrategyAction::Sell { symbol: String::from_str(symbol), quantity_lots, price: None }
    }

    /// A limit sell.
    pub fn limit_sell(symbol: &str, quantity_lots: u32, price: Decimal) -> (r: StrategyAction)
        ensures
            r@ == (ActionKind::Sell {
                symbol: symbol@,
                quantity_lots: quantity_lots as nat,
                price: Some(price@),
            }),
    {
        StrategyAction::Sell { symbol: String::from_str(symbol), quantity_lots, price: Some(price) }
    }

    /// Cancelling an order.
    pub fn cancel(order_id: &str) -> (r: StrategyAction)
        ensures
            r@ == (ActionKind::Cancel { order_id: order_id@ }),
    {
        StrategyAction::Cancel { order_id: String::from_str(order_id) }
    }

    /// Doing nothing.
    pub fn hold() -> (r: StrategyAction)
        ensures
            r@ == ActionKind::Hold,
    {
        StrategyAction::Hold
    }

    /// Whether the action is to do nothing.
    pub fn is_hold(&self) -> (b: bool)
        ensures
            b == (self@ is Hold),
    {
        match self {
            StrategyAction::Hold => true,
            _ => false,
        }
    }

    /// The symbol of a buy or sell.
    pub fn symbol(&self) -> (r: Option<&str>)
        ensures
            match self@ {
                ActionKind::Buy { symbol, .. } => r is Some && r->Some_0@ == symbol,
                ActionKind::Sell { symbol, .. } => r is Some && r->Some_0@ == symbol,
                _ => r is None,
            },
    {
        match self {
            StrategyAction::Buy { symbol, .. } => Some(symbol.as_str()),
            StrategyAction::Sell { symbol, .. } => Some(symbol.as_str()),
            _ => None,
        }
    }
}

/// A strategy's decision: the actions to take and why.
#[derive(Debug)]
pub struct StrategyDecision {
    actions: Vec<StrategyAction>,
    reason: Option<String>,
}

/// The mathematical form of a `StrategyDecision`.
pub struct DecisionView {
    pub actions: Seq<ActionKind>,
    pub reason: Option<Seq<char>>,
}

pub open spec fn action_kinds(s: Seq<StrategyAction>) -> Seq<ActionKind> {
    s.map_values(|a: StrategyAction| a@)
}

impl View for StrategyDecision {
    type V = DecisionView;

    closed spec fn view(&self) -> DecisionView {
        DecisionView {
            actions: action_kinds(self.actions@),
            reason: crate::domain::position::opt_str(self.reason),
        }
    }
}

impl StrategyDecision {
    /// A decision with no action and no reason.
    pub fn new() -> (r: StrategyDecision)
        ensures
            r@ == (DecisionView { actions: Seq::empty(), reason: None }),
    {
        let r = StrategyDecision { actions: Vec::new(), reason: None };
        assert(r@.actions =~= Seq::<ActionKind>::empty());
        r
    }

    /// A decision of one action.
    pub fn single(action: StrategyAction) -> (r: StrategyDecision)
        ensures
            r@ == (DecisionView { actions: seq![action@], reason: None }),
    {
        let ghost av = action@;
        let mut v: Vec<StrategyAction> = Vec::new();
        v.push(action);
        let r = StrategyDecision { actions: v, reason: None };
        assert(r@.actions =~= seq![av]);
        r
    }

    /// Holding, with no reason.
    pub fn hold() -> (r: StrategyDecision)
        ensures
            r@ == (DecisionView { actions: seq![ActionKind::Hold], reason: None }),
    {
        StrategyDecision::single(StrategyAction::Hold)
    }

    /// Holding, for a reason.
    pub fn hold_with_reason(reason: &str) -> (r: StrategyDecision)
        ensures
            r@ == (DecisionView { actions: seq![ActionKind::Hold], reason: Some(reason@) }),
    {
        let mut v: Vec<StrategyAction> = Vec::new();
        v.push(StrategyAction::Hold);
        let r = StrategyDecision { actions: v, reason: Some(String::from_str(reason)) };
        assert(r@.actions =~= seq![ActionKind::Hold]);
        r
    }

    /// Adds an action.
    pub fn add_action(&mut self, action: StrategyAction)
        ensures
            final(self)@ == (DecisionView { actions: old(self)@.actions.push(action@), ..old(self)@ }),
    {
        let ghost before = self@.actions;
        let ghost av = action@;
        self.actions.push(action);
        assert(self@.actions =~= before.push(av));
    }

    /// The same decision with a reason.
    pub fn with_reason(self, reason: &str) -> (r: StrategyDecision)
        ensures
            r@ == (DecisionView { reason: Some(reason@), ..self@ }),
    {
        StrategyDecision { reason: Some(String::from_str(reason)), ..self }
    }

    /// The actions.
    pub fn actions(&self) -> (r: &[StrategyAction])
        ensures
            action_kinds(r@) == self@.actions,
    {
        self.actions.as_slice()
    }

    /// The reason, if any.
    pub fn reason(&self) -> (r: Option<&str>)
        ensures
            match self@.reason {
                Some(s) => r is Some && r->Some_0@ == s,
                None => r is None,
            },
    {
        match &self.reason {
            Some(s) => Some(s.as_str()),
            None => None,
        }
    }

    /// Whether the decision does nothing: no action, or only holds.
    pub fn is_hold(&self) -> (b: bool)
        ensures
            b == (forall|i: int| 0 <= i < self@.actions.len() ==> self@.actions[i] is Hold),
    {
        let mut i: usize = 0;
        while i < self.actions.len()
            invariant
                i <= self.actions.len(),
                forall|j: int| 0 <= j < i ==> self@.actions[j] is Hold,
            decreases self.actions.len() - i,
        {
            assert(self@.actions[i as int] == self.actions@[i as int]@);
            if !self.actions[i].is_hold() {
                return false;
            }
            i = i + 1;
        }
        true
    }

    /// The number of actions.
    pub fn action_count(&self) -> (r: usize)
        ensures
            r == self@.actions.len(),
    {
        self.actions.len()
    }
}

impl Default for StrategyDecision {
    fn default() -> (r: StrategyDecision)
        ensures
            r@ == (DecisionView { actions: Seq::empty(), reason: None }),
    {
        StrategyDecision::new()
    }
}

/// What a strategy sees of a market.
#[derive(Debug)]
pub struct MarketState {
    /// The symbol being traded.
    pub symbol: String,
    /// Current order book.
    pub order_book: Option<OrderBook>,
    /// Current position.
    pub position: Option<Position>,
    /// Active orders for this symbol.
    pub active_orders: Vec<Order>,
    /// Available cash in the account.
    pub available_cash: Decimal,
    /// Time of the snapshot.
    pub timestamp: Timestamp,
    /// Last traded price.
    pub last_price: Option<Decimal>,
    /// Currency for prices.
    pub currency: String,
}

impl MarketState {
    /// A state with nothing known but the symbol and currency, stamped now.
    pub fn new(symbol: &str, currency: &str) -> (r: MarketState)
        ensures
            r.symbol@ == symbol@,
            r.order_book is None,
            r.position is None,
            r.active_orders@.len() == 0,
            r.available_cash@ == int_view(0),
            r.last_price is None,
            r.currency@ == currency@,
    {
        MarketState {
            symbol: String::from_str(symbol),
            order_book: None,
            position: None,
            active_orders: Vec::new(),
            available_cash: Decimal::zero(),
            timestamp: utc_now(),
            last_price: None,
            currency: String::from_str(currency),
        }
    }

    /// Sets the order book.
    pub fn with_order_book(self, order_book: OrderBook) -> (r: MarketState)
        ensures
            r == (MarketState { order_book: Some(order_book), ..self }),
    {
        MarketState { order_book: Some(order_book), ..self }
    }

    /// Sets the position.
    pub fn with_position(self, position: Position) -> (r: MarketState)
        ensures
            r == (MarketState { position: Some(position), ..self }),
    {
        MarketState { position: Some(position), ..self }
    }

    /// Sets the available cash.
    pub fn with_cash(self, cash: Decimal) -> (r: MarketState)
        ensures
            r == (MarketState { available_cash: cash, ..self }),
    {
        MarketState { available_cash: cash, ..self }
    }

    /// Sets the last price.
    pub fn with_last_price(self, price: Decimal) -> (r: MarketState)
        ensures
            r == (MarketState { last_price: Some(price), ..self }),
    {
        MarketState { last_price: Some(price), ..self }
    }

    /// The best bid price of the order book, if any.
    pub fn best_bid(&self) -> (r: Option<Decimal>)
        ensures
            match self.order_book {
                Some(ob) => if ob.bids@.len() > 0 {
                    r is Some && r->Some_0@ == ob.bids@[0].price@.amount
                } else {
                    r is None
                },
                None => r is None,
            },
    {
        match &self.order_book {
            Some(ob) => ob.best_bid_price(),
            None => None,
        }
    }

    /// The best ask price of the order book, if any.
    pub fn best_ask(&self) -> (r: Option<Decimal>)
        ensures
            match self.order_book {
                Some(ob) => if ob.asks@.len() > 0 {
                    r is Some && r->Some_0@ == ob.asks@[0].price@.amount
                } else {
                    r is None
                },
                None => r is None,
            },
    {
        match &self.order_book {
            Some(ob) => ob.best_ask_price(),
            None => None,
        }
    }

    /// Whole lots held (0 without a position).
    pub fn position_lots(&self) -> (r: u32)
        requires
            self.position matches Some(p) ==> p@.lot_size > 0,
        ensures
            r == match self.position {
                Some(p) => spec_lots_held(p@),
                None => 0,
            },
    {
        match &self.position {
            Some(p) => p.lots_held(),
            None => 0,
        }
    }
}

} // verus!
