//! A simulated exchange: accounts with cash, positions and orders, trading at the simulated
//! market's prices. Every operation first reports a failure queued with `fail_next_with`.

use vstd::prelude::*;
use crate::assoc::{
    assoc_get, assoc_insert, assoc_remove, find_key, insert_key, key_index, keys_unique,
    lemma_assoc_insert, lemma_assoc_remove_unique, lemma_key_index_props, lemma_map_vals, map_vals,
    pairs_view, remove_key,
};
use crate::clock::utc_now;
use crate::domain::decimal::{
    decimal_add, decimal_mul, decimal_sub, decimal_text, int_view, value_lt, Decimal, DecimalView,
};
use crate::domain::money::{Money, MoneyView};
use crate::domain::order::{fill_defined, spec_fill, Order, OrderDirection, OrderStatus, OrderView};
use crate::domain::position::{Position, PositionView};
use crate::domain::wallet::{Wallet, WalletView};
use crate::exchange::error::ExchangeError;
use crate::exchange::types::{
    ExchangeInfo, Instrument, InstrumentType, InstrumentView, MarketData, MarketStatus, OrderBook,
    OrderBookEntry,
};
use crate::numparse::{i64_to_text, int_text, u128_to_text};
use crate::simulator::market::{
    is_market_data_of, market_data_defined, mul_o, tick_defined, ManagerView, MarketManager,
    MarketState,
};
use crate::text::{append_str, string_of};

verus! {

/// The mathematical form of a simulated account: its cash, its positions by symbol and its
/// orders by identifier.
pub struct AccountView {
    pub cash: MoneyView,
    pub positions: Seq<(Seq<char>, PositionView)>,
    pub orders: Seq<(Seq<char>, OrderView)>,
}

/// A simulated account.
#[derive(Debug)]
pub struct AccountState {
    cash: Money,
    positions: Vec<(String, Position)>,
    orders: Vec<(String, Order)>,
}

/// A position's view.
pub open spec fn position_view_of(p: Position) -> PositionView {
    p@
}

/// An order's view.
pub open spec fn order_view_of(o: Order) -> OrderView {
    o@
}

impl View for AccountState {
    type V = AccountView;

    closed spec fn view(&self) -> AccountView {
        AccountView {
            cash: self.cash@,
            positions: map_vals(pairs_view(self.positions@), |p: Position| position_view_of(p)),
            orders: map_vals(pairs_view(self.orders@), |o: Order| order_view_of(o)),
        }
    }
}

/// Each position is kept under its own symbol, and no symbol or order identifier occurs
/// twice.
pub open spec fn account_ok(a: AccountView) -> bool {
    &&& keys_unique(a.positions)
    &&& keys_unique(a.orders)
    &&& forall|i: int| 0 <= i < a.positions.len() ==> (#[trigger] a.positions[i]).1.symbol == a.positions[i].0
}

impl AccountState {
    #[verifier::type_invariant]
    spec fn well_formed(self) -> bool {
        account_ok(self@)
    }

    /// An account with cash in a currency and nothing else.
    fn new(currency: &str, initial_cash: Decimal) -> (r: AccountState)
        ensures
            r@ == (AccountView {
                cash: MoneyView { amount: initial_cash@, currency: currency@ },
                positions: Seq::empty(),
                orders: Seq::empty(),
            }),
    {
        let r = AccountState {
            cash: Money::new(initial_cash, currency),
            positions: Vec::new(),
            orders: Vec::new(),
        };
        assert(r@.positions =~= Seq::<(Seq<char>, PositionView)>::empty());
        assert(r@.orders =~= Seq::<(Seq<char>, OrderView)>::empty());
        r
    }
}

/// The mathematical form of a simulated exchange.
pub struct ExchangeView {
    pub market: ManagerView,
    pub accounts: Seq<(Seq<char>, AccountView)>,
    pub base_currency: Seq<char>,
    pub latency_ms: u64,
    pub fail_next: Option<ExchangeError>,
}

/// A simulated exchange for testing.
#[derive(Debug)]
pub struct SimulatedExchange {
    info: ExchangeInfo,
    market: MarketManager,
    accounts: Vec<(String, AccountState)>,
    base_currency: String,
    latency_ms: u64,
    fail_next: Option<ExchangeError>,
}

/// An account's view.
pub open spec fn account_view_of(a: AccountState) -> AccountView {
    a@
}

impl View for SimulatedExchange {
    type V = ExchangeView;

    closed spec fn view(&self) -> ExchangeView {
        ExchangeView {
            market: self.market@,
            accounts: map_vals(pairs_view(self.accounts@), |a: AccountState| account_view_of(a)),
            base_currency: self.base_currency@,
            latency_ms: self.latency_ms,
            fail_next: self.fail_next,
        }
    }
}

/// The same exchange with no queued failure.
pub open spec fn cleared(v: ExchangeView) -> ExchangeView {
    ExchangeView { fail_next: None, ..v }
}

/// The text of the "account not found" error.
pub open spec fn account_missing_text(account_id: Seq<char>) -> Seq<char> {
    "Account "@ + account_id + " not found"@
}

/// Whether `r` is the "account not found" error for an account.
pub open spec fn is_account_missing<T>(r: Result<T, ExchangeError>, account_id: Seq<char>) -> bool {
    r matches Err(ExchangeError::AuthenticationFailed(m)) && m@ == account_missing_text(account_id)
}

/// The price of a position as the wallet reports it: the market's price of its symbol in the
/// base currency, when the market lists the symbol.
pub open spec fn priced_position(p: PositionView, market: ManagerView) -> PositionView {
    match assoc_get(market.states, p.symbol) {
        Some(st) => PositionView {
            current_price: MoneyView { amount: st.price@, currency: market.base_currency },
            ..p
        },
        None => p,
    }
}

/// The wallet of an account: its cash and its positions, at market prices.
pub open spec fn spec_wallet(a: AccountView, market: ManagerView, base: Seq<char>) -> WalletView {
    WalletView {
        base_currency: base,
        cash: a.cash,
        positions: a.positions.map_values(|e: (Seq<char>, PositionView)| priced_position(e.1, market)),
    }
}

/// The market data of every priced position of an account is computable (the wallet is
/// priced from it), wherever the account is reached.
pub open spec fn wallet_defined(v: ExchangeView, account_id: Seq<char>) -> bool {
    (v.fail_next is None) ==> match assoc_get(v.accounts, account_id) {
        Some(a) => forall|i: int|
            0 <= i < a.positions.len() ==> match assoc_get(
                v.market.states,
                (#[trigger] a.positions[i]).1.symbol,
            ) {
                Some(st) => market_data_defined(st),
                None => true,
            },
        None => true,
    }
}

/// The value of `lots` lots of `lot_size` units at a price: `price * lot_size * lots`.
pub open spec fn trade_value(price: DecimalView, lot_size: nat, lots: nat) -> Option<DecimalView> {
    mul_o(decimal_mul(price, int_view(lot_size as int)), Some(int_view(lots as int)))
}

/// The offset of the order book level `i`: `(i + 1) * 0.01`.
pub open spec fn level_offset(i: nat) -> Option<DecimalView> {
    decimal_mul(int_view(i + 1 as int), DecimalView { mantissa: 1, scale: 2 })
}

/// The synthetic order book of a price is computable for a depth.
pub open spec fn book_defined(price: DecimalView, depth: nat) -> bool {
    &&& depth * 100 <= u32::MAX
    &&& forall|i: nat|
        i < depth ==> {
            &&& #[trigger] level_offset(i) is Some
            &&& decimal_sub(price, level_offset(i)->Some_0) is Some
            &&& decimal_add(price, level_offset(i)->Some_0) is Some
        }
}

/// The outcome of a trade on an account: the account after it, or the error.
pub enum TradeOutcome {
    Done(AccountView),
    Insufficient { required: Seq<char>, available: Seq<char> },
}

/// What buying or selling `lots` lots of an instrument at a price does to an account (before
/// the order is recorded): a buy needs the cash for the whole value, pays it and adds the
/// units to the position (or opens one on the instrument's exchange); a sell needs a position
/// with enough units, removes them (dropping an emptied position) and receives the value.
pub open spec fn spec_trade(
    a: AccountView,
    symbol: Seq<char>,
    exchange: Seq<char>,
    lot_size: nat,
    direction: OrderDirection,
    lots: nat,
    price: MoneyView,
    base: Seq<char>,
) -> TradeOutcome {
    let total = trade_value(price.amount, lot_size, lots)->Some_0;
    let units = int_view((lots * lot_size) as int);
    match direction {
        OrderDirection::Buy => if value_lt(a.cash.amount, total) {
            TradeOutcome::Insufficient {
                required: decimal_text(total),
                available: decimal_text(a.cash.amount),
            }
        } else {
            let positions = match assoc_get(a.positions, symbol) {
                Some(p) => assoc_insert(
                    a.positions,
                    symbol,
                    PositionView {
                        quantity: decimal_add(p.quantity, units)->Some_0,
                        current_price: price,
                        ..p
                    },
                ),
                None => assoc_insert(
                    a.positions,
                    symbol,
                    PositionView {
                        symbol,
                        exchange,
                        instrument_id: None,
                        quantity: units,
                        lot_size,
                        current_price: price,
                        average_cost: None,
                        blocked: false,
                        blocked_lots: 0,
                    },
                ),
            };
            TradeOutcome::Done(
                AccountView {
                    cash: MoneyView { amount: decimal_sub(a.cash.amount, total)->Some_0, currency: base },
                    positions,
                    orders: a.orders,
                },
            )
        },
        OrderDirection::Sell => match assoc_get(a.positions, symbol) {
            None => TradeOutcome::Insufficient {
                required: crate::numparse::decimal_text(lots),
                available: "0"@,
            },
            Some(p) => if value_lt(p.quantity, units) {
                TradeOutcome::Insufficient {
                    required: decimal_text(units),
                    available: decimal_text(p.quantity),
                }
            } else {
                let rest = decimal_sub(p.quantity, units)->Some_0;
                let positions = if rest.mantissa == 0 {
                    assoc_remove(a.positions, symbol)
                } else {
                    assoc_insert(a.positions, symbol, PositionView { quantity: rest, ..p })
                };
                TradeOutcome::Done(
                    AccountView {
                        cash: MoneyView {
                            amount: decimal_add(a.cash.amount, total)->Some_0,
                            currency: base,
                        },
                        positions,
                        orders: a.orders,
                    },
                )
            },
        },
    }
}

/// The arithmetic of a trade is defined.
pub open spec fn trade_defined(
    a: AccountView,
    symbol: Seq<char>,
    lot_size: nat,
    direction: OrderDirection,
    lots: nat,
    price: MoneyView,
) -> bool {
    let total = trade_value(price.amount, lot_size, lots);
    let units = int_view((lots * lot_size) as int);
    &&& total is Some
    &&& lots * lot_size <= u32::MAX
    &&& match direction {
        OrderDirection::Buy => !value_lt(a.cash.amount, total->Some_0) ==> {
            &&& decimal_sub(a.cash.amount, total->Some_0) is Some
            &&& (assoc_get(a.positions, symbol) matches Some(p) ==> decimal_add(p.quantity, units) is Some)
        },
        OrderDirection::Sell => match assoc_get(a.positions, symbol) {
            Some(p) => !value_lt(p.quantity, units) ==> {
                &&& decimal_sub(p.quantity, units) is Some
                &&& decimal_add(a.cash.amount, total->Some_0) is Some
            },
            None => true,
        },
    }
}

/// An exchange order identifier of the simulator: `SIM-` and a time in nanoseconds.
pub open spec fn is_sim_order_id(s: Seq<char>) -> bool {
    exists|n: int| s == "SIM-"@ + #[trigger] int_text(n)
}

/// A placed order: filled at the price, with a simulator order identifier and status filled
/// (and any update time).
pub open spec fn is_placed_order(r: OrderView, o: OrderView, price: MoneyView) -> bool {
    &&& r.exchange_order_id matches Some(x) && is_sim_order_id(x)
    &&& r == (OrderView {
        exchange_order_id: r.exchange_order_id,
        status: OrderStatus::Filled,
        updated_at: r.updated_at,
        ..spec_fill(o, o.quantity_lots, price)
    })
}

/// The arithmetic of placing an order is defined wherever it is reached.
pub open spec fn place_defined(v: ExchangeView, account_id: Seq<char>, o: OrderView) -> bool {
    (v.fail_next is None) ==> match (
        assoc_get(v.accounts, account_id),
        assoc_get(v.market.instruments, o.symbol),
        assoc_get(v.market.states, o.symbol),
    ) {
        (Some(a), Some(inst), Some(st)) => {
            &&& market_data_defined(st)
            &&& st.status.spec_is_tradeable() ==> {
                let price = MoneyView { amount: st.price@, currency: v.base_currency };
                &&& trade_defined(a, o.symbol, inst.lot_size, o.direction, o.quantity_lots, price)
                &&& fill_defined(o, o.quantity_lots, price)
            }
        },
        _ => true,
    }
}

impl SimulatedExchange {
    /// Information about the exchange.
    pub closed spec fn exchange_info(self) -> ExchangeInfo {
        self.info
    }

    #[verifier::type_invariant]
    spec fn well_formed(self) -> bool {
        &&& keys_unique(pairs_view(self.accounts@))
        &&& self.market@.base_currency == self.base_currency@
    }

    /// A new simulated exchange trading in a base currency, with no instruments or accounts.
    pub fn new(base_currency: &str) -> (r: SimulatedExchange)
        ensures
            r@.market.states.len() == 0,
            r@.market.instruments.len() == 0,
            r@.market.generators.len() == 0,
            r@.market.base_currency == base_currency@,
            r@.accounts.len() == 0,
            r@.base_currency == base_currency@,
            r@.latency_ms == 0,
            r@.fail_next is None,
            r.exchange_info().id@ == "SIMULATOR"@,
            r.exchange_info().name@ == "Simulated Exchange"@,
            r.exchange_info().url@ == Seq::<char>::empty(),
            r.exchange_info().supported_types@ == seq![
                InstrumentType::Stock,
                InstrumentType::Etf,
                InstrumentType::Crypto,
            ],
    {
        let mut types: Vec<InstrumentType> = Vec::new();
        types.push(InstrumentType::Stock);
        types.push(InstrumentType::Etf);
        types.push(InstrumentType::Crypto);
        let r = SimulatedExchange {
            info: ExchangeInfo::new(
                String::from_str("SIMULATOR"),
                String::from_str("Simulated Exchange"),
                String::new(),
                types,
            ),
            market: MarketManager::new(base_currency),
            accounts: Vec::new(),
            base_currency: String::from_str(base_currency),
            latency_ms: 0,
            fail_next: None,
        };
        assert(r@.accounts =~= Seq::<(Seq<char>, AccountView)>::empty());
        r
    }

    /// Information about the exchange.
    pub fn info(&self) -> (r: &ExchangeInfo)
        ensures
            *r == self.exchange_info(),
    {
        &self.info
    }

    /// The simulated latency in milliseconds.
    pub fn latency_ms(&self) -> (r: u64)
        ensures
            r == self@.latency_ms,
    {
        self.latency_ms
    }

    /// Sets the simulated latency.
    pub fn set_latency(&mut self, ms: u64)
        ensures
            final(self).exchange_info() == old(self).exchange_info(),
            final(self)@ == (ExchangeView { latency_ms: ms, ..old(self)@ }),
    {
        proof {
            use_type_invariant(&*self);
        }
        self.latency_ms = ms;
    }

    /// Makes the next operation fail with the given error.
    pub fn fail_next_with(&mut self, error: ExchangeError)
        ensures
            final(self).exchange_info() == old(self).exchange_info(),
            final(self)@ == (ExchangeView { fail_next: Some(error), ..old(self)@ }),
    {
        proof {
            use_type_invariant(&*self);
        }
        self.fail_next = Some(error);
    }

    /// The simulated market.
    pub fn market(&self) -> (r: &MarketManager)
        ensures
            r@ == self@.market,
    {
        &self.market
    }

    /// Adds an instrument to the market.
    pub fn add_instrument(&mut self, symbol: &str, name: &str, price: Decimal, lot_size: u32)
        ensures
            final(self).exchange_info() == old(self).exchange_info(),
            final(self)@.market.instruments == assoc_insert(
                old(self)@.market.instruments,
                symbol@,
                crate::simulator::market::simulated_instrument(
                    symbol@,
                    name@,
                    lot_size as nat,
                    old(self)@.base_currency,
                ),
            ),
            match assoc_get(final(self)@.market.states, symbol@) {
                Some(st) => crate::simulator::market::is_fresh_state(st, price)
                    && final(self)@.market.states == assoc_insert(old(self)@.market.states, symbol@, st),
                None => false,
            },
            final(self)@.market.generators == assoc_insert(
                old(self)@.market.generators,
                symbol@,
                crate::simulator::market::GeneratorView {
                    model: crate::simulator::market::PriceModel::Static,
                    seed: 42,
                    steps: 0,
                },
            ),
            final(self)@.market.base_currency == old(self)@.market.base_currency,
            final(self)@.accounts == old(self)@.accounts,
            final(self)@.base_currency == old(self)@.base_currency,
            final(self)@.latency_ms == old(self)@.latency_ms,
            final(self)@.fail_next == old(self)@.fail_next,
    {
        proof {
            use_type_invariant(&*self);
        }
        let mut market = MarketManager::new(self.base_currency.as_str());
        std::mem::swap(&mut market, &mut self.market);
        market.add_instrument(symbol, name, price, lot_size);
        self.market = market;
    }

    /// Sets the price model of a symbol in the market.
    pub fn set_price_model(&mut self, symbol: &str, model: crate::simulator::market::PriceModel)
        ensures
            final(self).exchange_info() == old(self).exchange_info(),
            final(self)@.market.generators == assoc_insert(
                old(self)@.market.generators,
                symbol@,
                crate::simulator::market::GeneratorView { model, seed: 42, steps: 0 },
            ),
            final(self)@.market.states == old(self)@.market.states,
            final(self)@.market.instruments == old(self)@.market.instruments,
            final(self)@.market.base_currency == old(self)@.market.base_currency,
            final(self)@.accounts == old(self)@.accounts,
            final(self)@.base_currency == old(self)@.base_currency,
            final(self)@.latency_ms == old(self)@.latency_ms,
            final(self)@.fail_next == old(self)@.fail_next,
    {
        proof {
            use_type_invariant(&*self);
        }
        let mut market = MarketManager::new(self.base_currency.as_str());
        std::mem::swap(&mut market, &mut self.market);
        market.set_price_model(symbol, model);
        self.market = market;
    }

    /// Creates (or replaces) an account with initial cash in the base currency.
    pub fn create_account(&mut self, account_id: &str, initial_cash: Decimal)
        ensures
            final(self).exchange_info() == old(self).exchange_info(),
            final(self)@ == (ExchangeView {
                accounts: assoc_insert(
                    old(self)@.accounts,
                    account_id@,
                    AccountView {
                        cash: MoneyView { amount: initial_cash@, currency: old(self)@.base_currency },
                        positions: Seq::empty(),
                        orders: Seq::empty(),
                    },
                ),
                ..old(self)@
            }),
    {
        proof {
            use_type_invariant(&*self);
        }
        let acct = AccountState::new(self.base_currency.as_str(), initial_cash);
        let ghost pv = pairs_view(self.accounts@);
        proof {
            lemma_assoc_insert(pv, account_id@, acct);
            lemma_map_vals(pv, |a: AccountState| account_view_of(a), account_id@, acct);
        }
        let mut accounts = Vec::new();
        std::mem::swap(&mut accounts, &mut self.accounts);
        insert_key(&mut accounts, account_id, acct);
        self.accounts = accounts;
    }

    /// Adds (or replaces) a position of an account, kept under the position's symbol; an
    /// unknown account changes nothing.
    pub fn add_position(&mut self, account_id: &str, position: Position)
        ensures
            final(self).exchange_info() == old(self).exchange_info(),
            final(self)@ == (ExchangeView {
                accounts: match assoc_get(old(self)@.accounts, account_id@) {
                    Some(a) => assoc_insert(
                        old(self)@.accounts,
                        account_id@,
                        AccountView {
                            positions: assoc_insert(a.positions, position@.symbol, position@),
                            ..a
                        },
                    ),
                    None => old(self)@.accounts,
                },
                ..old(self)@
            }),
    {
        proof {
            use_type_invariant(&*self);
        }
        let ghost pv = pairs_view(self.accounts@);
        proof {
            lemma_map_vals(pv, |a: AccountState| account_view_of(a), account_id@, arbitrary());
            lemma_key_index_props(pv, account_id@, 0);
        }
        let mut accounts = Vec::new();
        std::mem::swap(&mut accounts, &mut self.accounts);
        match find_key(&accounts, account_id) {
            Some(i) => {
                let (key, mut acct) = accounts.remove(i);
                proof {
                    use_type_invariant(&acct);
                }
                let ghost a0 = acct@;
                let symbol = String::from_str(position.symbol());
                let ghost ppv = pairs_view(acct.positions@);
                proof {
                    lemma_map_vals(ppv, |p: Position| position_view_of(p), symbol@, position);
                    lemma_assoc_insert(ppv, symbol@, position);
                    lemma_assoc_insert(a0.positions, symbol@, position@);
                }
                let mut positions = Vec::new();
                std::mem::swap(&mut positions, &mut acct.positions);
                insert_key(&mut positions, symbol.as_str(), position);
                proof {
                    let np = map_vals(pairs_view(positions@), |p: Position| position_view_of(p));
                    assert forall|j: int| 0 <= j < np.len() implies (#[trigger] np[j]).1.symbol == np[j].0 by {
                        crate::assoc::lemma_key_index_props(a0.positions, symbol@, 0);
                        match key_index(a0.positions, symbol@, 0) {
                            Some(k) => {
                                if j != k {
                                    assert(np[j] == a0.positions[j]);
                                }
                            },
                            None => {
                                if j < a0.positions.len() {
                                    assert(np[j] == a0.positions[j]);
                                }
                            },
                        }
                    }
                }
                acct.positions = positions;
                let ghost a1 = acct@;
                accounts.insert(i, (key, acct));
                proof {
                    assert(pairs_view(accounts@) =~= pv.update(i as int, (account_id@, acct)));
                    lemma_assoc_insert(pv, account_id@, acct);
                    lemma_map_vals(pv, |a: AccountState| account_view_of(a), account_id@, acct);
                    assert(a1 == AccountView { positions: assoc_insert(a0.positions, position@.symbol, position@), ..a0 });
                }
                self.accounts = accounts;
            },
            None => {
                self.accounts = accounts;
            },
        }
    }

    /// Sets the price of an instrument.
    pub fn set_price(&mut self, symbol: &str, price: Decimal)
        ensures
            final(self).exchange_info() == old(self).exchange_info(),
            match key_index(old(self)@.market.states, symbol@, 0) {
                Some(i) => {
                    &&& final(self)@.market.states.len() == old(self)@.market.states.len()
                    &&& final(self)@.market.states[i].0 == symbol@
                    &&& crate::simulator::market::repriced(
                        old(self)@.market.states[i].1,
                        final(self)@.market.states[i].1,
                        price,
                    )
                    &&& forall|j: int|
                        0 <= j < old(self)@.market.states.len() && j != i
                            ==> #[trigger] final(self)@.market.states[j] == old(self)@.market.states[j]
                },
                None => final(self)@.market.states == old(self)@.market.states,
            },
            final(self)@.market.instruments == old(self)@.market.instruments,
            final(self)@.market.generators == old(self)@.market.generators,
            final(self)@.market.base_currency == old(self)@.market.base_currency,
            final(self)@.accounts == old(self)@.accounts,
            final(self)@.base_currency == old(self)@.base_currency,
            final(self)@.latency_ms == old(self)@.latency_ms,
            final(self)@.fail_next == old(self)@.fail_next,
    {
        proof {
            use_type_invariant(&*self);
        }
        let mut market = MarketManager::new(self.base_currency.as_str());
        std::mem::swap(&mut market, &mut self.market);
        market.set_price(symbol, price);
        self.market = market;
    }

    /// Sets the market status of all instruments.
    pub fn set_market_status(&mut self, status: MarketStatus)
        ensures
            final(self).exchange_info() == old(self).exchange_info(),
            final(self)@.market.states.len() == old(self)@.market.states.len(),
            forall|i: int|
                0 <= i < old(self)@.market.states.len() ==> (#[trigger] final(self)@.market.states[i])
                    == (old(self)@.market.states[i].0, MarketState { status, ..old(self)@.market.states[i].1 }),
            final(self)@.market.instruments == old(self)@.market.instruments,
            final(self)@.market.generators == old(self)@.market.generators,
            final(self)@.market.base_currency == old(self)@.market.base_currency,
            final(self)@.accounts == old(self)@.accounts,
            final(self)@.base_currency == old(self)@.base_currency,
            final(self)@.latency_ms == old(self)@.latency_ms,
            final(self)@.fail_next == old(self)@.fail_next,
    {
        proof {
            use_type_invariant(&*self);
        }
        let mut market = MarketManager::new(self.base_currency.as_str());
        std::mem::swap(&mut market, &mut self.market);
        market.set_market_status(status);
        self.market = market;
    }

    /// Advances the market by one tick.
    pub fn tick(&mut self)
        requires
            tick_defined(old(self)@.market),
        ensures
            final(self).exchange_info() == old(self).exchange_info(),
            final(self)@.market.states.len() == old(self)@.market.states.len(),
            forall|i: int|
                0 <= i < old(self)@.market.states.len() ==> {
                    &&& (#[trigger] final(self)@.market.states[i]).0 == old(self)@.market.states[i].0
                    &&& crate::simulator::market::ticked_state(
                        old(self)@.market.states[i].1,
                        final(self)@.market.states[i].1,
                        assoc_get(old(self)@.market.generators, old(self)@.market.states[i].0),
                    )
                },
            final(self)@.market.generators.len() == old(self)@.market.generators.len(),
            forall|j: int|
                0 <= j < old(self)@.market.generators.len() ==> {
                    &&& (#[trigger] final(self)@.market.generators[j]).0 == old(self)@.market.generators[j].0
                    &&& final(self)@.market.generators[j].1 == if assoc_get(
                        old(self)@.market.states,
                        old(self)@.market.generators[j].0,
                    ) is Some {
                        crate::simulator::market::stepped(old(self)@.market.generators[j].1)
                    } else {
                        old(self)@.market.generators[j].1
                    }
                },
            final(self)@.market.instruments == old(self)@.market.instruments,
            final(self)@.market.base_currency == old(self)@.market.base_currency,
            final(self)@.accounts == old(self)@.accounts,
            final(self)@.base_currency == old(self)@.base_currency,
            final(self)@.latency_ms == old(self)@.latency_ms,
            final(self)@.fail_next == old(self)@.fail_next,
    {
        proof {
            use_type_invariant(&*self);
        }
        let mut market = MarketManager::new(self.base_currency.as_str());
        std::mem::swap(&mut market, &mut self.market);
        market.tick();
        self.market = market;
    }

    /// Returns (and clears) the queued failure, if any.
    pub fn check_failure(&mut self) -> (r: Result<(), ExchangeError>)
        ensures
            final(self).exchange_info() == old(self).exchange_info(),
            final(self)@ == cleared(old(self)@),
            match old(self)@.fail_next {
                Some(e) => r == Err::<(), ExchangeError>(e),
                None => r is Ok,
            },
    {
        proof {
            use_type_invariant(&*self);
        }
        let mut pending: Option<ExchangeError> = None;
        std::mem::swap(&mut pending, &mut self.fail_next);
        match pending {
            Some(e) => Err(e),
            None => Ok(()),
        }
    }

    /// Checks the connection: only a queued failure makes it fail.
    pub fn ping(&mut self) -> (r: Result<(), ExchangeError>)
        ensures
            final(self).exchange_info() == old(self).exchange_info(),
            final(self)@ == cleared(old(self)@),
            match old(self)@.fail_next {
                Some(e) => r == Err::<(), ExchangeError>(e),
                None => r is Ok,
            },
    {
        self.check_failure()
    }

    /// The wallet of an account: its cash and its positions priced at the market.
    pub fn get_wallet(&mut self, account_id: &str) -> (r: Result<Wallet, ExchangeError>)
        requires
            wallet_defined(old(self)@, account_id@),
        ensures
            final(self).exchange_info() == old(self).exchange_info(),
            final(self)@ == cleared(old(self)@),
            match old(self)@.fail_next {
                Some(e) => r == Err::<Wallet, ExchangeError>(e),
                None => match assoc_get(old(self)@.accounts, account_id@) {
                    Some(a) => r matches Ok(w) && w@ == spec_wallet(
                        a,
                        old(self)@.market,
                        old(self)@.base_currency,
                    ),
                    None => is_account_missing(r, account_id@),
                },
            },
    {
        match self.check_failure() {
            Err(e) => {
                return Err(e);
            },
            Ok(()) => {},
        }
        proof {
            use_type_invariant(&*self);
        }
        let ghost pv = pairs_view(self.accounts@);
        proof {
            lemma_map_vals(pv, |a: AccountState| account_view_of(a), account_id@, arbitrary());
            lemma_key_index_props(pv, account_id@, 0);
        }
        match find_key(&self.accounts, account_id) {
            None => Err(account_missing(account_id)),
            Some(i) => {
                let acct = &self.accounts[i].1;
                proof {
                    use_type_invariant(acct);
                    assert(self@.accounts[i as int].1 == acct@);
                }
                Ok(self.wallet_of(acct))
            },
        }
    }

    /// The wallet of an account's state.
    fn wallet_of(&self, acct: &AccountState) -> (w: Wallet)
        requires
            account_ok(acct@),
        ensures
            w@ == spec_wallet(acct@, self@.market, self@.base_currency),
    {
        proof {
            use_type_invariant(self);
        }
        let ghost a = acct@;
        let ghost ppv = pairs_view(acct.positions@);
        let ghost target = a.positions.map_values(
            |e: (Seq<char>, PositionView)| priced_position(e.1, self@.market),
        );
        let mut wallet = Wallet::with_cash(self.base_currency.as_str(), acct.cash.duplicate());
        let mut i: usize = 0;
        while i < acct.positions.len()
            invariant
                i <= acct.positions.len(),
                a == acct@,
                ppv == pairs_view(acct.positions@),
                account_ok(a),
                self.market@.base_currency == self.base_currency@,
                target == a.positions.map_values(
                    |e: (Seq<char>, PositionView)| priced_position(e.1, self@.market),
                ),
                a.positions.len() == acct.positions@.len(),
                wallet@.base_currency == self@.base_currency,
                wallet@.cash == a.cash,
                wallet@.positions == target.take(i as int),
            decreases acct.positions.len() - i,
        {
            let mut p = acct.positions[i].1.clone();
            let ghost k = a.positions[i as int].0;
            assert(a.positions[i as int] == (ppv[i as int].0, position_view_of(ppv[i as int].1)));
            assert(a.positions[i as int].1 == p@);
            assert(p@.symbol == k);
            match self.market.get_state(p.symbol()) {
                Some(st) => {
                    p.update_price(Money::new(st.price, self.base_currency.as_str()));
                },
                None => {},
            }
            proof {
                assert(p@ == target[i as int]);
                assert forall|j: int| 0 <= j < wallet@.positions.len() implies (#[trigger] wallet@.positions[j]).symbol
                    != p@.symbol by {
                    assert(wallet@.positions[j] == target[j]);
                    assert(target[j].symbol == a.positions[j].1.symbol);
                    assert(a.positions[j].0 != a.positions[i as int].0);
                }
                lemma_symbol_index_none(wallet@.positions, p@.symbol, 0);
            }
            wallet.add_position(p);
            proof {
                assert(target.take(i + 1) =~= target.take(i as int).push(target[i as int]));
            }
            i = i + 1;
        }
        assert(target.take(acct.positions.len() as int) =~= target);
        wallet
    }

    /// The instrument of a symbol.
    pub fn get_instrument(&mut self, symbol: &str) -> (r: Result<Instrument, ExchangeError>)
        ensures
            final(self).exchange_info() == old(self).exchange_info(),
            final(self)@ == cleared(old(self)@),
            match old(self)@.fail_next {
                Some(e) => r == Err::<Instrument, ExchangeError>(e),
                None => match assoc_get(old(self)@.market.instruments, symbol@) {
                    Some(iv) => r matches Ok(i) && i@ == iv,
                    None => r matches Err(ExchangeError::InstrumentNotFound(m)) && m@ == symbol@,
                },
            },
    {
        match self.check_failure() {
            Err(e) => {
                return Err(e);
            },
            Ok(()) => {},
        }
        match self.market.get_instrument(symbol) {
            Some(i) => Ok(i.duplicate()),
            None => Err(ExchangeError::InstrumentNotFound(String::from_str(symbol))),
        }
    }

    /// All instruments of the market.
    pub fn list_instruments(&mut self) -> (r: Result<Vec<Instrument>, ExchangeError>)
        ensures
            final(self).exchange_info() == old(self).exchange_info(),
            final(self)@ == cleared(old(self)@),
            match old(self)@.fail_next {
                Some(e) => r == Err::<Vec<Instrument>, ExchangeError>(e),
                None => r matches Ok(v) && v@.map_values(|i: Instrument| i@)
                    == old(self)@.market.instruments.map_values(|e: (Seq<char>, InstrumentView)| e.1),
            },
    {
        match self.check_failure() {
            Err(e) => {
                return Err(e);
            },
            Ok(()) => {},
        }
        Ok(self.market.list_instruments())
    }

    /// The market data of a symbol.
    pub fn get_market_data(&mut self, symbol: &str) -> (r: Result<MarketData, ExchangeError>)
        requires
            old(self)@.fail_next is None ==> (assoc_get(old(self)@.market.states, symbol@) matches Some(
                st,
            ) ==> market_data_defined(st)),
        ensures
            final(self).exchange_info() == old(self).exchange_info(),
            final(self)@ == cleared(old(self)@),
            match old(self)@.fail_next {
                Some(e) => r == Err::<MarketData, ExchangeError>(e),
                None => match assoc_get(old(self)@.market.states, symbol@) {
                    Some(st) => r matches Ok(d) && is_market_data_of(
                        d,
                        st,
                        symbol@,
                        old(self)@.market.base_currency,
                    ),
                    None => r matches Err(ExchangeError::InstrumentNotFound(m)) && m@ == symbol@,
                },
            },
    {
        match self.check_failure() {
            Err(e) => {
                return Err(e);
            },
            Ok(()) => {},
        }
        match self.market.get_market_data(symbol) {
            Some(d) => Ok(d),
            None => Err(ExchangeError::InstrumentNotFound(String::from_str(symbol))),
        }
    }

    /// A synthetic order book around the price of a symbol: `depth` levels each side, level
    /// `i` one cent per level away from the price (below for bids, above for asks), with
    /// `100 * (depth - i)` units.
    pub fn get_order_book(&mut self, symbol: &str, depth: u32) -> (r: Result<OrderBook, ExchangeError>)
        requires
            old(self)@.fail_next is None ==> (assoc_get(old(self)@.market.states, symbol@) matches Some(
                st,
            ) ==> book_defined(st.price@, depth as nat)),
        ensures
            final(self).exchange_info() == old(self).exchange_info(),
            final(self)@ == cleared(old(self)@),
            match old(self)@.fail_next {
                Some(e) => r == Err::<OrderBook, ExchangeError>(e),
                None => match assoc_get(old(self)@.market.states, symbol@) {
                    Some(st) => r matches Ok(b) && {
                        &&& b.symbol@ == symbol@
                        &&& b.bids@.len() == depth
                        &&& b.asks@.len() == depth
                        &&& forall|i: int|
                            0 <= i < depth ==> {
                                &&& (#[trigger] b.bids@[i]).price@ == (MoneyView {
                                    amount: decimal_sub(st.price@, level_offset(i as nat)->Some_0)->Some_0,
                                    currency: old(self)@.base_currency,
                                })
                                &&& b.bids@[i].quantity@ == int_view(100 * (depth - i))
                                &&& b.asks@[i].price@ == (MoneyView {
                                    amount: decimal_add(st.price@, level_offset(i as nat)->Some_0)->Some_0,
                                    currency: old(self)@.base_currency,
                                })
                                &&& b.asks@[i].quantity@ == int_view(100 * (depth - i))
                            }
                    },
                    None => r matches Err(ExchangeError::InstrumentNotFound(m)) && m@ == symbol@,
                },
            },
    {
        match self.check_failure() {
            Err(e) => {
                return Err(e);
            },
            Ok(()) => {},
        }
        let base_price = match self.market.get_state(symbol) {
            Some(st) => st.price,
            None => {
                return Err(ExchangeError::InstrumentNotFound(String::from_str(symbol)));
            },
        };
        let ghost p = base_price@;
        let mut bids: Vec<OrderBookEntry> = Vec::new();
        let mut asks: Vec<OrderBookEntry> = Vec::new();
        let mut i: u32 = 0;
        while i < depth
            invariant
                i <= depth,
                p == base_price@,
                book_defined(p, depth as nat),
                bids@.len() == i,
                asks@.len() == i,
                forall|k: int|
                    0 <= k < i ==> {
                        &&& (#[trigger] bids@[k]).price@ == (MoneyView {
                            amount: decimal_sub(p, level_offset(k as nat)->Some_0)->Some_0,
                            currency: self@.base_currency,
                        })
                        &&& bids@[k].quantity@ == int_view(100 * (depth - k))
                        &&& asks@[k].price@ == (MoneyView {
                            amount: decimal_add(p, level_offset(k as nat)->Some_0)->Some_0,
                            currency: self@.base_currency,
                        })
                        &&& asks@[k].quantity@ == int_view(100 * (depth - k))
                    },
            decreases depth - i,
        {
            assert(level_offset(i as nat) is Some);
            let offset = match Decimal::from_u32(i + 1).checked_mul(&Decimal::new(1, 2)) {
                Some(x) => x,
                None => vstd::pervasive::unreached(),
            };
            let bid_price = match base_price.checked_sub(&offset) {
                Some(x) => x,
                None => vstd::pervasive::unreached(),
            };
            let ask_price = match base_price.checked_add(&offset) {
                Some(x) => x,
                None => vstd::pervasive::unreached(),
            };
            let quantity = Decimal::from_u32(100 * (depth - i));
            bids.push(
                OrderBookEntry { price: Money::new(bid_price, self.base_currency.as_str()), quantity },
            );
            asks.push(
                OrderBookEntry { price: Money::new(ask_price, self.base_currency.as_str()), quantity },
            );
            i = i + 1;
        }
        Ok(OrderBook { symbol: String::from_str(symbol), bids, asks, timestamp: utc_now() })
    }

    /// Places a market order for an account and fills it at once at the market price: the
    /// account must exist, the instrument must be listed and priced, and its market open; a
    /// buy needs the cash and a sell the units. The filled order is stored under its
    /// identifier and returned.
    pub fn place_order(&mut self, account_id: &str, order: Order) -> (r: Result<Order, ExchangeError>)
        requires
            place_defined(old(self)@, account_id@, order@),
        ensures
            final(self).exchange_info() == old(self).exchange_info(),
            match old(self)@.fail_next {
                Some(e) => r == Err::<Order, ExchangeError>(e) && final(self)@ == cleared(old(self)@),
                None => match assoc_get(old(self)@.accounts, account_id@) {
                    None => is_account_missing(r, account_id@) && final(self)@ == old(self)@,
                    Some(a) => match (
                        assoc_get(old(self)@.market.instruments, order@.symbol),
                        assoc_get(old(self)@.market.states, order@.symbol),
                    ) {
                        (Some(inst), Some(st)) => if !st.status.spec_is_tradeable() {
                            r matches Err(ExchangeError::MarketClosed { instrument })
                                && instrument@ == order@.symbol && final(self)@ == old(self)@
                        } else {
                            let price = MoneyView { amount: st.price@, currency: old(self)@.base_currency };
                            match spec_trade(
                                a,
                                order@.symbol,
                                inst.exchange,
                                inst.lot_size,
                                order@.direction,
                                order@.quantity_lots,
                                price,
                                old(self)@.base_currency,
                            ) {
                                TradeOutcome::Insufficient { required, available } => r matches Err(
                                    ExchangeError::InsufficientFunds { required: req, available: avail },
                                ) && req@ == required && avail@ == available && final(self)@ == old(self)@,
                                TradeOutcome::Done(after) => r matches Ok(o) && is_placed_order(
                                    o@,
                                    order@,
                                    price,
                                ) && final(self)@ == (ExchangeView {
                                    accounts: assoc_insert(
                                        old(self)@.accounts,
                                        account_id@,
                                        AccountView { orders: assoc_insert(after.orders, order@.id, o@), ..after },
                                    ),
                                    ..old(self)@
                                }),
                            }
                        },
                        _ => r matches Err(ExchangeError::InstrumentNotFound(m)) && m@ == order@.symbol
                            && final(self)@ == old(self)@,
                    },
                },
            },
    {
        match self.check_failure() {
            Err(e) => {
                return Err(e);
            },
            Ok(()) => {},
        }
        proof {
            use_type_invariant(&*self);
        }
        let ghost v0 = self@;
        let ghost pv = pairs_view(self.accounts@);
        proof {
            lemma_map_vals(pv, |a: AccountState| account_view_of(a), account_id@, arbitrary());
            lemma_key_index_props(pv, account_id@, 0);
        }
        let idx = match find_key(&self.accounts, account_id) {
            Some(i) => i,
            None => {
                return Err(account_missing(account_id));
            },
        };
        let (lot_size, exchange) = match self.market.get_instrument(order.symbol()) {
            Some(inst) => (inst.lot_size, inst.exchange.clone()),
            None => {
                return Err(ExchangeError::InstrumentNotFound(String::from_str(order.symbol())));
            },
        };
        let (price_amount, status) = match self.market.get_state(order.symbol()) {
            Some(st) => (st.price, st.status),
            None => {
                return Err(ExchangeError::InstrumentNotFound(String::from_str(order.symbol())));
            },
        };
        if !status.is_tradeable() {
            return Err(
                ExchangeError::MarketClosed { instrument: String::from_str(order.symbol()) },
            );
        }
        let price = Money::new(price_amount, self.base_currency.as_str());
        let mut accounts = Vec::new();
        std::mem::swap(&mut accounts, &mut self.accounts);
        let (key, mut acct) = accounts.remove(idx);
        proof {
            use_type_invariant(&acct);
            assert(pv[idx as int] == (key@, acct));
            assert(v0.accounts[idx as int].1 == acct@);
        }
        let ghost a0 = acct@;
        match trade(
            &mut acct,
            order.symbol(),
            exchange.as_str(),
            lot_size,
            order.direction(),
            order.quantity_lots(),
            &price,
            self.base_currency.as_str(),
        ) {
            Err(e) => {
                let ghost kv = key@;
                accounts.insert(idx, (key, acct));
                proof {
                    assert(kv == account_id@);
                    assert(pairs_view(accounts@) =~= pv.update(idx as int, (account_id@, acct)));
                    lemma_assoc_insert(pv, account_id@, acct);
                    lemma_map_vals(pv, |a: AccountState| account_view_of(a), account_id@, acct);
                    assert(v0.accounts[idx as int] == (account_id@, a0));
                    assert(v0.accounts.update(idx as int, (account_id@, a0)) =~= v0.accounts);
                }
                self.accounts = accounts;
                return Err(e);
            },
            Ok(()) => {},
        }
        let mut filled = order;
        let t: i64 = match crate::clock::utc_now_nanos() {
            Some(n) => n,
            None => 0,
        };
        let nanos = i64_to_text(t);
        let mut id_text = String::from_str("SIM-");
        append_str(&mut id_text, string_of(&nanos).as_str());
        proof {
            assert(id_text@ == "SIM-"@ + int_text(t as int));
            assert(is_sim_order_id(id_text@));
        }
        filled.set_exchange_order_id(id_text.as_str());
        filled.record_fill(filled.quantity_lots(), price.duplicate());
        filled.set_status(OrderStatus::Filled);
        let stored = filled.duplicate();
        let order_id = String::from_str(filled.id());
        proof {
            use_type_invariant(&acct);
        }
        let ghost after = acct@;
        let ghost opv = pairs_view(acct.orders@);
        proof {
            lemma_map_vals(opv, |o: Order| order_view_of(o), order_id@, stored);
            lemma_assoc_insert(opv, order_id@, stored);
            lemma_assoc_insert(after.orders, order_id@, stored@);
        }
        let mut orders = Vec::new();
        std::mem::swap(&mut orders, &mut acct.orders);
        insert_key(&mut orders, order_id.as_str(), stored);
        acct.orders = orders;
        proof {
            assert(acct@ == AccountView { orders: assoc_insert(after.orders, order_id@, filled@), ..after });
        }
        accounts.insert(idx, (key, acct));
        proof {
            assert(pairs_view(accounts@) =~= pv.update(idx as int, (account_id@, acct)));
            lemma_assoc_insert(pv, account_id@, acct);
            lemma_map_vals(pv, |a: AccountState| account_view_of(a), account_id@, acct);
        }
        self.accounts = accounts;
        Ok(filled)
    }
}

impl SimulatedExchange {
    /// Finds an account's index, after the queued failure (if any) is reported.
    fn account_index(&self, account_id: &str) -> (r: Option<usize>)
        ensures
            match r {
                Some(i) => i < self.accounts@.len() && key_index(self@.accounts, account_id@, 0) == Some(
                    i as int,
                ) && self@.accounts[i as int] == (account_id@, self.accounts@[i as int].1@),
                None => assoc_get(self@.accounts, account_id@) is None,
            },
    {
        let ghost pv = pairs_view(self.accounts@);
        proof {
            lemma_map_vals(pv, |a: AccountState| account_view_of(a), account_id@, arbitrary());
            lemma_key_index_props(pv, account_id@, 0);
        }
        find_key(&self.accounts, account_id)
    }

    /// Cancels an order of an account that is not yet in a terminal state.
    pub fn cancel_order(&mut self, account_id: &str, order_id: &str) -> (r: Result<Order, ExchangeError>)
        ensures
            final(self).exchange_info() == old(self).exchange_info(),
            match old(self)@.fail_next {
                Some(e) => r == Err::<Order, ExchangeError>(e) && final(self)@ == cleared(old(self)@),
                None => match assoc_get(old(self)@.accounts, account_id@) {
                    None => is_account_missing(r, account_id@) && final(self)@ == old(self)@,
                    Some(a) => match assoc_get(a.orders, order_id@) {
                        None => r matches Err(ExchangeError::OrderNotFound(m)) && m@ == order_id@
                            && final(self)@ == old(self)@,
                        Some(o) => if o.status.spec_is_terminal() {
                            r matches Err(ExchangeError::InvalidOrder(m)) && m@ == "Order "@ + order_id@
                                + " is already in terminal state"@ && final(self)@ == old(self)@
                        } else {
                            r matches Ok(c) && c@ == (OrderView {
                                status: OrderStatus::Cancelled,
                                updated_at: c@.updated_at,
                                ..o
                            }) && final(self)@ == (ExchangeView {
                                accounts: assoc_insert(
                                    old(self)@.accounts,
                                    account_id@,
                                    AccountView { orders: assoc_insert(a.orders, order_id@, c@), ..a },
                                ),
                                ..old(self)@
                            })
                        },
                    },
                },
            },
    {
        match self.check_failure() {
            Err(e) => {
                return Err(e);
            },
            Ok(()) => {},
        }
        proof {
            use_type_invariant(&*self);
        }
        let ghost pv = pairs_view(self.accounts@);
        let ghost v0 = self@;
        let idx = match self.account_index(account_id) {
            Some(i) => i,
            None => {
                return Err(account_missing(account_id));
            },
        };
        let mut accounts = Vec::new();
        std::mem::swap(&mut accounts, &mut self.accounts);
        let (key, mut acct) = accounts.remove(idx);
        proof {
            use_type_invariant(&acct);
            assert(pv[idx as int] == (key@, acct));
            assert(v0.accounts[idx as int].1 == acct@);
        }
        let ghost a0 = acct@;
        let ghost opv = pairs_view(acct.orders@);
        proof {
            lemma_map_vals(opv, |o: Order| order_view_of(o), order_id@, arbitrary());
            lemma_key_index_props(opv, order_id@, 0);
        }
        let outcome: Result<Order, ExchangeError> = match find_key(&acct.orders, order_id) {
            None => Err(ExchangeError::OrderNotFound(String::from_str(order_id))),
            Some(j) => {
                let mut o = acct.orders[j].1.duplicate();
                proof {
                    assert(a0.orders[j as int] == (opv[j as int].0, order_view_of(opv[j as int].1)));
                }
                if o.status().is_terminal() {
                    let mut m = String::from_str("Order ");
                    append_str(&mut m, order_id);
                    append_str(&mut m, " is already in terminal state");
                    Err(ExchangeError::InvalidOrder(m))
                } else {
                    o.set_status(OrderStatus::Cancelled);
                    let stored = o.duplicate();
                    proof {
                        lemma_map_vals(opv, |x: Order| order_view_of(x), order_id@, stored);
                        lemma_assoc_insert(opv, order_id@, stored);
                    }
                    let mut orders = Vec::new();
                    std::mem::swap(&mut orders, &mut acct.orders);
                    insert_key(&mut orders, order_id, stored);
                    acct.orders = orders;
                    Ok(o)
                }
            },
        };
        let ghost kv = key@;
        accounts.insert(idx, (key, acct));
        proof {
            assert(kv == account_id@);
            assert(pairs_view(accounts@) =~= pv.update(idx as int, (account_id@, acct)));
            lemma_assoc_insert(pv, account_id@, acct);
            lemma_map_vals(pv, |a: AccountState| account_view_of(a), account_id@, acct);
            assert(v0.accounts[idx as int] == (account_id@, a0));
            assert(v0.accounts.update(idx as int, (account_id@, a0)) =~= v0.accounts);
        }
        self.accounts = accounts;
        outcome
    }

    /// An order of an account.
    pub fn get_order(&mut self, account_id: &str, order_id: &str) -> (r: Result<Order, ExchangeError>)
        ensures
            final(self).exchange_info() == old(self).exchange_info(),
            final(self)@ == cleared(old(self)@),
            match old(self)@.fail_next {
                Some(e) => r == Err::<Order, ExchangeError>(e),
                None => match assoc_get(old(self)@.accounts, account_id@) {
                    None => is_account_missing(r, account_id@),
                    Some(a) => match assoc_get(a.orders, order_id@) {
                        None => r matches Err(ExchangeError::OrderNotFound(m)) && m@ == order_id@,
                        Some(o) => r matches Ok(x) && x@ == o,
                    },
                },
            },
    {
        match self.check_failure() {
            Err(e) => {
                return Err(e);
            },
            Ok(()) => {},
        }
        let idx = match self.account_index(account_id) {
            Some(i) => i,
            None => {
                return Err(account_missing(account_id));
            },
        };
        let acct = &self.accounts[idx].1;
        proof {
            use_type_invariant(acct);
        }
        let ghost opv = pairs_view(acct.orders@);
        proof {
            lemma_map_vals(opv, |o: Order| order_view_of(o), order_id@, arbitrary());
            lemma_key_index_props(opv, order_id@, 0);
        }
        match find_key(&acct.orders, order_id) {
            None => Err(ExchangeError::OrderNotFound(String::from_str(order_id))),
            Some(j) => {
                proof {
                    assert(acct@.orders[j as int] == (opv[j as int].0, order_view_of(opv[j as int].1)));
                }
                Ok(acct.orders[j].1.duplicate())
            },
        }
    }

    /// The orders of an account that are still active, in the order they were first stored.
    pub fn get_active_orders(&mut self, account_id: &str) -> (r: Result<Vec<Order>, ExchangeError>)
        ensures
            final(self).exchange_info() == old(self).exchange_info(),
            final(self)@ == cleared(old(self)@),
            match old(self)@.fail_next {
                Some(e) => r == Err::<Vec<Order>, ExchangeError>(e),
                None => match assoc_get(old(self)@.accounts, account_id@) {
                    None => is_account_missing(r, account_id@),
                    Some(a) => r matches Ok(v) && v@.map_values(|o: Order| o@) == active_orders(
                        a.orders,
                    ),
                },
            },
    {
        match self.check_failure() {
            Err(e) => {
                return Err(e);
            },
            Ok(()) => {},
        }
        let idx = match self.account_index(account_id) {
            Some(i) => i,
            None => {
                return Err(account_missing(account_id));
            },
        };
        let acct = &self.accounts[idx].1;
        let ghost a = acct@;
        let ghost opv = pairs_view(acct.orders@);
        let mut out: Vec<Order> = Vec::new();
        let mut j: usize = 0;
        while j < acct.orders.len()
            invariant
                j <= acct.orders.len(),
                a == acct@,
                opv == pairs_view(acct.orders@),
                a.orders.len() == acct.orders@.len(),
                out@.map_values(|o: Order| o@) == active_orders(a.orders.take(j as int)),
            decreases acct.orders.len() - j,
        {
            proof {
                assert(a.orders[j as int] == (opv[j as int].0, order_view_of(opv[j as int].1)));
                assert(a.orders.take(j + 1).drop_last() =~= a.orders.take(j as int));
            }
            if acct.orders[j].1.status().is_active() {
                let ghost before = out@.map_values(|o: Order| o@);
                out.push(acct.orders[j].1.duplicate());
                assert(out@.map_values(|o: Order| o@) =~= before.push(a.orders[j as int].1));
            }
            j = j + 1;
        }
        assert(a.orders.take(acct.orders.len() as int) =~= a.orders);
        Ok(out)
    }
}

/// The active orders among stored ones, in order.
pub open spec fn active_orders(os: Seq<(Seq<char>, OrderView)>) -> Seq<OrderView>
    decreases os.len(),
{
    if os.len() == 0 {
        Seq::empty()
    } else {
        let rest = active_orders(os.drop_last());
        if os.last().1.status.spec_is_active() {
            rest.push(os.last().1)
        } else {
            rest
        }
    }
}

/// The "account not found" error.
fn account_missing(account_id: &str) -> (r: ExchangeError)
    ensures
        r matches ExchangeError::AuthenticationFailed(m) && m@ == account_missing_text(account_id@),
{
    let mut m = String::from_str("Account ");
    append_str(&mut m, account_id);
    append_str(&mut m, " not found");
    ExchangeError::AuthenticationFailed(m)
}

proof fn lemma_symbol_index_none(ps: Seq<PositionView>, s: Seq<char>, from: int)
    requires
        0 <= from <= ps.len(),
        forall|j: int| from <= j < ps.len() ==> (#[trigger] ps[j]).symbol != s,
    ensures
        crate::domain::wallet::symbol_index(ps, s, from) is None,
    decreases ps.len() - from,
{
    if from < ps.len() {
        lemma_symbol_index_none(ps, s, from + 1);
    }
}

/// Buys or sells on an account, as `spec_trade` says; on an error the account is unchanged.
fn trade(
    acct: &mut AccountState,
    symbol: &str,
    exchange: &str,
    lot_size: u32,
    direction: OrderDirection,
    lots: u32,
    price: &Money,
    base: &str,
) -> (r: Result<(), ExchangeError>)
    requires
        trade_defined(old(acct)@, symbol@, lot_size as nat, direction, lots as nat, price@),
    ensures
        match spec_trade(old(acct)@, symbol@, exchange@, lot_size as nat, direction, lots as nat, price@, base@) {
            TradeOutcome::Insufficient { required, available } => r matches Err(
                ExchangeError::InsufficientFunds { required: req, available: avail },
            ) && req@ == required && avail@ == available && final(acct)@ == old(acct)@,
            TradeOutcome::Done(after) => r is Ok && final(acct)@ == after,
        },
        r is Ok ==> final(acct)@.cash.amount == (match direction {
            OrderDirection::Buy => decimal_sub(
                old(acct)@.cash.amount,
                trade_value(price@.amount, lot_size as nat, lots as nat)->Some_0,
            ),
            OrderDirection::Sell => decimal_add(
                old(acct)@.cash.amount,
                trade_value(price@.amount, lot_size as nat, lots as nat)->Some_0,
            ),
        })->Some_0,
{
    proof {
        use_type_invariant(&*acct);
    }
    let ghost a0 = acct@;
    proof {
        lemma_sell_credits_cash(a0, symbol@, exchange@, lot_size as nat, lots as nat, price@, base@);
        if spec_trade(a0, symbol@, exchange@, lot_size as nat, OrderDirection::Buy, lots as nat, price@, base@) is Done {
            lemma_buy_adds_units(a0, symbol@, exchange@, lot_size as nat, lots as nat, price@, base@);
        }
    }
    let ghost ppv = pairs_view(acct.positions@);
    let total = match price.amount().checked_mul(&Decimal::from_u32(lot_size)) {
        Some(lv) => match lv.checked_mul(&Decimal::from_u32(lots)) {
            Some(t) => t,
            None => vstd::pervasive::unreached(),
        },
        None => vstd::pervasive::unreached(),
    };
    let units = Decimal::from_u32(lots * lot_size);
    let cash = acct.cash.amount();
    proof {
        lemma_map_vals(ppv, |p: Position| position_view_of(p), symbol@, arbitrary());
        lemma_key_index_props(ppv, symbol@, 0);
    }
    match direction {
        OrderDirection::Buy => {
            if cash.lt(&total) {
                return Err(
                    ExchangeError::InsufficientFunds {
                        required: total.to_string(),
                        available: cash.to_string(),
                    },
                );
            }
            let new_cash = match cash.checked_sub(&total) {
                Some(c) => c,
                None => vstd::pervasive::unreached(),
            };
            let mut positions = Vec::new();
            std::mem::swap(&mut positions, &mut acct.positions);
            let new_position = match find_key(&positions, symbol) {
                Some(i) => {
                    let mut p = positions[i].1.clone();
                    let q = match p.quantity().checked_add(&units) {
                        Some(q) => q,
                        None => vstd::pervasive::unreached(),
                    };
                    p.update_quantity(q);
                    p.update_price(price.duplicate());
                    p
                },
                None => Position::builder(symbol, exchange).quantity(units).lot_size(lot_size).current_price(
                    price.duplicate(),
                ).build(),
            };
            let ghost np = new_position;
            proof {
                lemma_assoc_insert(ppv, symbol@, np);
                lemma_map_vals(ppv, |p: Position| position_view_of(p), symbol@, np);
            }
            insert_key(&mut positions, symbol, new_position);
            proof {
                let m = map_vals(pairs_view(positions@), |p: Position| position_view_of(p));
                assert(m == assoc_insert(a0.positions, symbol@, np@));
                lemma_insert_keeps_symbols(a0.positions, symbol@, np@);
            }
            acct.positions = positions;
            acct.cash = Money::new(new_cash, base);
            Ok(())
        },
        OrderDirection::Sell => {
            let i = match find_key(&acct.positions, symbol) {
                Some(i) => i,
                None => {
                    let digits = u128_to_text(lots as u128);
                    return Err(
                        ExchangeError::InsufficientFunds {
                            required: string_of(&digits),
                            available: String::from_str("0"),
                        },
                    );
                },
            };
            let q = acct.positions[i].1.quantity();
            if q.lt(&units) {
                return Err(
                    ExchangeError::InsufficientFunds {
                        required: units.to_string(),
                        available: q.to_string(),
                    },
                );
            }
            let rest = match q.checked_sub(&units) {
                Some(x) => x,
                None => vstd::pervasive::unreached(),
            };
            let new_cash = match cash.checked_add(&total) {
                Some(c) => c,
                None => vstd::pervasive::unreached(),
            };
            let mut positions = Vec::new();
            std::mem::swap(&mut positions, &mut acct.positions);
            if rest.is_zero() {
                remove_key(&mut positions, symbol);
                proof {
                    lemma_assoc_remove_unique(ppv, symbol@);
                    assert forall|j: int| 0 <= j < ppv.len() implies (#[trigger] ppv[j]).1@.symbol == ppv[j].0 by {
                        assert(a0.positions[j] == (ppv[j].0, position_view_of(ppv[j].1)));
                    }
                    lemma_remove_keeps_symbols(ppv, symbol@);
                    crate::assoc::lemma_map_vals_remove(ppv, |p: Position| position_view_of(p), symbol@);
                    lemma_map_vals(assoc_remove(ppv, symbol@), |p: Position| position_view_of(p), symbol@, arbitrary());
                    let m = map_vals(pairs_view(positions@), |p: Position| position_view_of(p));
                    assert(m == assoc_remove(a0.positions, symbol@));
                    assert forall|j: int| 0 <= j < m.len() implies (#[trigger] m[j]).1.symbol == m[j].0 by {
                        assert(m[j] == (pairs_view(positions@)[j].0, position_view_of(pairs_view(positions@)[j].1)));
                    }
                }
            } else {
                let mut p = positions[i].1.clone();
                p.update_quantity(rest);
                let ghost np = p;
                proof {
                    lemma_assoc_insert(ppv, symbol@, np);
                    lemma_map_vals(ppv, |p: Position| position_view_of(p), symbol@, np);
                }
                insert_key(&mut positions, symbol, p);
                proof {
                    lemma_insert_keeps_symbols(a0.positions, symbol@, np@);
                    assert(np@.symbol == symbol@);
                }
            }
            acct.positions = positions;
            acct.cash = Money::new(new_cash, base);
            Ok(())
        },
    }
}

/// Inserting a position under its own symbol keeps every position under its own symbol.
proof fn lemma_insert_keeps_symbols(ps: Seq<(Seq<char>, PositionView)>, k: Seq<char>, p: PositionView)
    requires
        p.symbol == k,
        forall|i: int| 0 <= i < ps.len() ==> (#[trigger] ps[i]).1.symbol == ps[i].0,
    ensures
        forall|i: int|
            0 <= i < assoc_insert(ps, k, p).len() ==> (#[trigger] assoc_insert(ps, k, p)[i]).1.symbol
                == assoc_insert(ps, k, p)[i].0,
{
    lemma_key_index_props(ps, k, 0);
}

/// Removing a key keeps every position under its own symbol.
proof fn lemma_remove_keeps_symbols(ps: Seq<(Seq<char>, Position)>, k: Seq<char>)
    requires
        forall|i: int| 0 <= i < ps.len() ==> (#[trigger] ps[i]).1@.symbol == ps[i].0,
    ensures
        forall|i: int|
            0 <= i < assoc_remove(ps, k).len() ==> (#[trigger] assoc_remove(ps, k)[i]).1@.symbol
                == assoc_remove(ps, k)[i].0,
{
    lemma_key_index_props(ps, k, 0);
    match key_index(ps, k, 0) {
        Some(j) => {
            assert forall|i: int| 0 <= i < ps.remove(j).len() implies (#[trigger] ps.remove(j)[i]).1@.symbol
                == ps.remove(j)[i].0 by {
                if i < j {
                    assert(ps.remove(j)[i] == ps[i]);
                } else {
                    assert(ps.remove(j)[i] == ps[i + 1]);
                }
            }
        },
        None => {},
    }
}


/// The orders `get_active_orders` returns are all active, and each is one of the account's
/// orders.
pub proof fn lemma_active_orders_are_active(os: Seq<(Seq<char>, OrderView)>)
    ensures
        forall|i: int|
            0 <= i < active_orders(os).len() ==> (#[trigger] active_orders(os)[i]).status.spec_is_active()
                && exists|j: int| 0 <= j < os.len() && os[j].1 == active_orders(os)[i],
    decreases os.len(),
{
    if os.len() > 0 {
        let rest = os.drop_last();
        lemma_active_orders_are_active(rest);
        assert forall|i: int| 0 <= i < active_orders(os).len() implies (#[trigger] active_orders(
            os,
        )[i]).status.spec_is_active() && exists|j: int| 0 <= j < os.len() && os[j].1 == active_orders(
            os,
        )[i] by {
            if i < active_orders(rest).len() {
                let j = choose|j: int| 0 <= j < rest.len() && rest[j].1 == active_orders(rest)[i];
                assert(os[j] == rest[j]);
            } else {
                assert(os[os.len() - 1].1 == active_orders(os)[i]);
            }
        }
    }
}

/// What placing or cancelling an order stores is what looking it up gives back: after either
/// (both store the account with the order inserted under its identifier), the account's
/// order under that identifier is the stored order.
pub proof fn lemma_placed_order_is_stored(
    accounts: Seq<(Seq<char>, AccountView)>,
    account_id: Seq<char>,
    after: AccountView,
    order_id: Seq<char>,
    placed: OrderView,
)
    requires
        keys_unique(accounts),
        keys_unique(after.orders),
    ensures
        assoc_get(
            assoc_insert(
                accounts,
                account_id,
                AccountView { orders: assoc_insert(after.orders, order_id, placed), ..after },
            ),
            account_id,
        ) matches Some(a) && assoc_get(a.orders, order_id) == Some(placed),
{
    let stored = AccountView { orders: assoc_insert(after.orders, order_id, placed), ..after };
    lemma_assoc_insert(accounts, account_id, stored);
    lemma_assoc_insert(after.orders, order_id, placed);
}

/// A buy that succeeds adds the bought units to the position of the symbol (opening one when
/// there was none) and pays the trade's value out of the cash.
pub proof fn lemma_buy_adds_units(
    a: AccountView,
    symbol: Seq<char>,
    exchange: Seq<char>,
    lot_size: nat,
    lots: nat,
    price: MoneyView,
    base: Seq<char>,
)
    requires
        keys_unique(a.positions),
        spec_trade(a, symbol, exchange, lot_size, OrderDirection::Buy, lots, price, base) is Done,
    ensures
        ({
            let after = spec_trade(a, symbol, exchange, lot_size, OrderDirection::Buy, lots, price, base)->Done_0;
            let units = int_view((lots * lot_size) as int);
            &&& assoc_get(after.positions, symbol) matches Some(p) && p.quantity == match assoc_get(
                a.positions,
                symbol,
            ) {
                Some(old_p) => decimal_add(old_p.quantity, units)->Some_0,
                None => units,
            }
            &&& after.cash.amount == decimal_sub(
                a.cash.amount,
                trade_value(price.amount, lot_size, lots)->Some_0,
            )->Some_0
        }),
{
    let units = int_view((lots * lot_size) as int);
    match assoc_get(a.positions, symbol) {
        Some(p) => {
            lemma_assoc_insert(
                a.positions,
                symbol,
                PositionView { quantity: decimal_add(p.quantity, units)->Some_0, current_price: price, ..p },
            );
        },
        None => {
            lemma_assoc_insert(
                a.positions,
                symbol,
                PositionView {
                    symbol,
                    exchange,
                    instrument_id: None,
                    quantity: units,
                    lot_size,
                    current_price: price,
                    average_cost: None,
                    blocked: false,
                    blocked_lots: 0,
                },
            );
        },
    }
}

/// A sell succeeds exactly when the account holds the symbol with at least the sold units;
/// then the trade's value (price times lot size times lots) is credited to the cash, whether
/// the position is emptied or not, and a position that is not emptied keeps the units left.
pub proof fn lemma_sell_credits_cash(
    a: AccountView,
    symbol: Seq<char>,
    exchange: Seq<char>,
    lot_size: nat,
    lots: nat,
    price: MoneyView,
    base: Seq<char>,
)
    requires
        keys_unique(a.positions),
    ensures
        ({
            let out = spec_trade(a, symbol, exchange, lot_size, OrderDirection::Sell, lots, price, base);
            let units = int_view((lots * lot_size) as int);
            &&& (out is Done) == (assoc_get(a.positions, symbol) matches Some(p) && !value_lt(p.quantity, units))
            &&& out is Done ==> {
                let after = out->Done_0;
                let p = assoc_get(a.positions, symbol)->Some_0;
                let rest = decimal_sub(p.quantity, units)->Some_0;
                &&& after.cash.amount == decimal_add(
                    a.cash.amount,
                    trade_value(price.amount, lot_size, lots)->Some_0,
                )->Some_0
                &&& after.cash.currency == base
                &&& after.orders == a.orders
                &&& rest.mantissa != 0 ==> assoc_get(after.positions, symbol) == Some(
                    PositionView { quantity: rest, ..p },
                )
            }
        }),
{
    let units = int_view((lots * lot_size) as int);
    match assoc_get(a.positions, symbol) {
        Some(p) => {
            let rest = decimal_sub(p.quantity, units)->Some_0;
            lemma_assoc_insert(a.positions, symbol, PositionView { quantity: rest, ..p });
        },
        None => {},
    }
}

} // verus!
