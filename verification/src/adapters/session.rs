//! The exchange operations of an adapter that has no API client yet: every operation needs
//! a connection, and then answers as an exchange that knows no instruments, accounts or
//! orders (quotes are a zero price in the adapter's quote currency).

use vstd::prelude::*;
use crate::clock::utc_now;
use crate::domain::decimal::int_view;
use crate::domain::money::{Money, MoneyView};
use crate::domain::order::{Order, OrderDirection};
use crate::domain::wallet::Wallet;
use crate::exchange::error::ExchangeError;
use crate::exchange::types::{ExchangeInfo, Instrument, MarketData, MarketStatus, OrderBook};
use crate::text::append_str;

verus! {

/// Whether `r` is the "not connected" error.
pub open spec fn is_not_connected<T>(r: Result<T, ExchangeError>) -> bool {
    r matches Err(ExchangeError::NetworkError(m)) && m@ == "Not connected"@
}

/// The quote an adapter without a market data feed gives for a symbol.
pub open spec fn is_placeholder_quote(d: MarketData, symbol: Seq<char>, currency: Seq<char>, status: MarketStatus) -> bool {
    &&& d.symbol@ == symbol
    &&& d.last_price@ == (MoneyView { amount: int_view(0), currency })
    &&& d.bid is None
    &&& d.ask is None
    &&& d.volume_24h is None
    &&& d.high_24h is None
    &&& d.low_24h is None
    &&& d.change_24h is None
    &&& d.change_percent_24h is None
    &&& d.market_status == status
}

/// The session of an adapter with a broker: its exchange information, the currency and
/// market status its quotes carry, and whether it is connected.
#[derive(Debug)]
pub struct AdapterSession {
    info: ExchangeInfo,
    quote_currency: String,
    quote_status: MarketStatus,
    connected: bool,
}

impl AdapterSession {
    /// The exchange information.
    pub closed spec fn exchange_info(self) -> ExchangeInfo {
        self.info
    }

    /// The currency of quotes.
    pub closed spec fn currency(self) -> Seq<char> {
        self.quote_currency@
    }

    /// The market status of quotes.
    pub closed spec fn status(self) -> MarketStatus {
        self.quote_status
    }

    /// Whether the session is connected.
    pub closed spec fn is_connected(self) -> bool {
        self.connected
    }

    /// A session that is not connected yet.
    pub fn new(info: ExchangeInfo, quote_currency: &str, quote_status: MarketStatus) -> (r: AdapterSession)
        ensures
            r.exchange_info() == info,
            r.currency() == quote_currency@,
            r.status() == quote_status,
            !r.is_connected(),
    {
        AdapterSession {
            info,
            quote_currency: String::from_str(quote_currency),
            quote_status,
            connected: false,
        }
    }

    /// Marks the session connected.
    pub fn set_connected(&mut self)
        ensures
            final(self).is_connected(),
            final(self).exchange_info() == old(self).exchange_info(),
            final(self).currency() == old(self).currency(),
            final(self).status() == old(self).status(),
    {
        self.connected = true;
    }

    /// The exchange information.
    pub fn info(&self) -> (r: &ExchangeInfo)
        ensures
            *r == self.exchange_info(),
    {
        &self.info
    }

    /// Fails unless connected.
    pub fn ensure_connected(&self) -> (r: Result<(), ExchangeError>)
        ensures
            self.is_connected() ==> r is Ok,
            !self.is_connected() ==> is_not_connected(r),
    {
        if !self.connected {
            return Err(ExchangeError::NetworkError(String::from_str("Not connected")));
        }
        Ok(())
    }

    /// Checks the connection.
    pub fn ping(&self) -> (r: Result<(), ExchangeError>)
        ensures
            self.is_connected() ==> r is Ok,
            !self.is_connected() ==> is_not_connected(r),
    {
        self.ensure_connected()
    }

    /// The wallet of an account: no account is known.
    pub fn get_wallet(&self, account_id: &str) -> (r: Result<Wallet, ExchangeError>)
        ensures
            self.is_connected() ==> (r matches Err(ExchangeError::Internal(m)) && m@ == "Account "@
                + account_id@ + " not found"@),
            !self.is_connected() ==> is_not_connected(r),
    {
        match self.ensure_connected() {
            Err(e) => {
                return Err(e);
            },
            Ok(()) => {},
        }
        let mut m = String::from_str("Account ");
        append_str(&mut m, account_id);
        append_str(&mut m, " not found");
        Err(ExchangeError::Internal(m))
    }

    /// An instrument: none is known.
    pub fn get_instrument(&self, symbol: &str) -> (r: Result<Instrument, ExchangeError>)
        ensures
            self.is_connected() ==> (r matches Err(ExchangeError::InstrumentNotFound(m)) && m@ == symbol@),
            !self.is_connected() ==> is_not_connected(r),
    {
        match self.ensure_connected() {
            Err(e) => {
                return Err(e);
            },
            Ok(()) => {},
        }
        Err(ExchangeError::InstrumentNotFound(String::from_str(symbol)))
    }

    /// All instruments: none.
    pub fn list_instruments(&self) -> (r: Result<Vec<Instrument>, ExchangeError>)
        ensures
            self.is_connected() ==> (r matches Ok(v) && v@.len() == 0),
            !self.is_connected() ==> is_not_connected(r),
    {
        match self.ensure_connected() {
            Err(e) => {
                return Err(e);
            },
            Ok(()) => {},
        }
        Ok(Vec::new())
    }

    /// The quote of a symbol: a zero price in the quote currency with the quote status.
    pub fn get_market_data(&self, symbol: &str) -> (r: Result<MarketData, ExchangeError>)
        ensures
            self.is_connected() ==> (r matches Ok(d) && is_placeholder_quote(
                d,
                symbol@,
                self.currency(),
                self.status(),
            )),
            !self.is_connected() ==> is_not_connected(r),
    {
        match self.ensure_connected() {
            Err(e) => {
                return Err(e);
            },
            Ok(()) => {},
        }
        Ok(self.quote(symbol))
    }

    fn quote(&self, symbol: &str) -> (d: MarketData)
        ensures
            is_placeholder_quote(d, symbol@, self.currency(), self.status()),
    {
        MarketData {
            symbol: String::from_str(symbol),
            last_price: Money::zero(self.quote_currency.as_str()),
            bid: None,
            ask: None,
            volume_24h: None,
            high_24h: None,
            low_24h: None,
            change_24h: None,
            change_percent_24h: None,
            market_status: self.quote_status,
            timestamp: utc_now(),
        }
    }

    /// The quotes of several symbols, in order.
    pub fn get_market_data_batch(&self, symbols: &[String]) -> (r: Result<Vec<MarketData>, ExchangeError>)
        ensures
            self.is_connected() ==> (r matches Ok(v) && v@.len() == symbols@.len() && forall|i: int|
                0 <= i < symbols@.len() ==> is_placeholder_quote(
                    #[trigger] v@[i],
                    symbols@[i]@,
                    self.currency(),
                    self.status(),
                )),
            !self.is_connected() ==> is_not_connected(r),
    {
        match self.ensure_connected() {
            Err(e) => {
                return Err(e);
            },
            Ok(()) => {},
        }
        let mut out: Vec<MarketData> = Vec::new();
        let mut i: usize = 0;
        while i < symbols.len()
            invariant
                i <= symbols@.len(),
                out@.len() == i,
                forall|k: int|
                    0 <= k < i ==> is_placeholder_quote(
                        #[trigger] out@[k],
                        symbols@[k]@,
                        self.currency(),
                        self.status(),
                    ),
            decreases symbols.len() - i,
        {
            out.push(self.quote(symbols[i].as_str()));
            i = i + 1;
        }
        Ok(out)
    }

    /// The order book of a symbol: empty.
    pub fn get_order_book(&self, symbol: &str, depth: u32) -> (r: Result<OrderBook, ExchangeError>)
        ensures
            self.is_connected() ==> (r matches Ok(b) && b.symbol@ == symbol@ && b.bids@.len() == 0
                && b.asks@.len() == 0),
            !self.is_connected() ==> is_not_connected(r),
    {
        match self.ensure_connected() {
            Err(e) => {
                return Err(e);
            },
            Ok(()) => {},
        }
        Ok(OrderBook::empty(symbol))
    }

    /// Placing an order: rejected, as order placement is not available.
    pub fn place_order(&self, account_id: &str, order: Order) -> (r: Result<Order, ExchangeError>)
        ensures
            self.is_connected() ==> (r matches Err(ExchangeError::OrderRejected(m)) && m@
                == "Order placement not implemented for "@ + order@.symbol),
            !self.is_connected() ==> is_not_connected(r),
    {
        match self.ensure_connected() {
            Err(e) => {
                return Err(e);
            },
            Ok(()) => {},
        }
        let mut m = String::from_str("Order placement not implemented for ");
        append_str(&mut m, order.symbol());
        Err(ExchangeError::OrderRejected(m))
    }

    /// Cancelling an order: no order is known.
    pub fn cancel_order(&self, account_id: &str, order_id: &str) -> (r: Result<Order, ExchangeError>)
        ensures
            self.is_connected() ==> (r matches Err(ExchangeError::OrderNotFound(m)) && m@ == order_id@),
            !self.is_connected() ==> is_not_connected(r),
    {
        match self.ensure_connected() {
            Err(e) => {
                return Err(e);
            },
            Ok(()) => {},
        }
        Err(ExchangeError::OrderNotFound(String::from_str(order_id)))
    }

    /// An order: no order is known.
    pub fn get_order(&self, account_id: &str, order_id: &str) -> (r: Result<Order, ExchangeError>)
        ensures
            self.is_connected() ==> (r matches Err(ExchangeError::OrderNotFound(m)) && m@ == order_id@),
            !self.is_connected() ==> is_not_connected(r),
    {
        match self.ensure_connected() {
            Err(e) => {
                return Err(e);
            },
            Ok(()) => {},
        }
        Err(ExchangeError::OrderNotFound(String::from_str(order_id)))
    }

    /// The active orders of an account: none.
    pub fn get_active_orders(&self, account_id: &str) -> (r: Result<Vec<Order>, ExchangeError>)
        ensures
            self.is_connected() ==> (r matches Ok(v) && v@.len() == 0),
            !self.is_connected() ==> is_not_connected(r),
    {
        match self.ensure_connected() {
            Err(e) => {
                return Err(e);
            },
            Ok(()) => {},
        }
        Ok(Vec::new())
    }

    /// Whether the market of a symbol is open: always, once connected.
    pub fn is_market_open(&self, symbol: &str) -> (r: Result<bool, ExchangeError>)
        ensures
            self.is_connected() ==> r == Ok::<bool, ExchangeError>(true),
            !self.is_connected() ==> is_not_connected(r),
    {
        match self.ensure_connected() {
            Err(e) => {
                return Err(e);
            },
            Ok(()) => {},
        }
        Ok(true)
    }

    /// A market order with a random identifier on this exchange, placed for an account.
    pub fn market_order(&self, account_id: &str, symbol: &str, direction: OrderDirection, lots: u32) -> (r: Result<
        Order,
        ExchangeError,
    >)
        ensures
            self.is_connected() ==> (r matches Err(ExchangeError::OrderRejected(m)) && m@
                == "Order placement not implemented for "@ + symbol@),
            !self.is_connected() ==> is_not_connected(r),
    {
        let id = crate::domain::trade::uuid_v4_text();
        let order = Order::market(id.as_str(), symbol, self.info.id.as_str(), direction, lots);
        self.place_order(account_id, order)
    }
}

} // verus!
