//! Interactive Brokers adapter (through TWS or IB Gateway); the API client is not
//! implemented yet, so its session answers as described in `session`.

use vstd::prelude::*;
use crate::adapters::session::AdapterSession;
use crate::exchange::error::ExchangeError;
use crate::exchange::types::{ExchangeInfo, InstrumentType, MarketStatus};

verus! {

/// Interactive Brokers adapter.
#[derive(Debug)]
pub struct InteractiveBrokersAdapter {
    /// TWS/Gateway host.
    pub host: String,
    /// TWS/Gateway port.
    pub port: u16,
    /// Client identifier.
    pub client_id: i32,
    /// The session, through which the exchange operations are made.
    pub session: AdapterSession,
}

/// The session of a new Interactive Brokers adapter: its exchange information, quotes in
/// USD with an unknown market status, not connected.
pub open spec fn ib_session(s: AdapterSession) -> bool {
    &&& s.exchange_info().id@ == "ibkr"@
    &&& s.exchange_info().name@ == "Interactive Brokers"@
    &&& s.exchange_info().url@ == "https://www.interactivebrokers.com/"@
    &&& s.exchange_info().supported_types@ == seq![
        InstrumentType::Stock,
        InstrumentType::Etf,
        InstrumentType::Bond,
        InstrumentType::Currency,
        InstrumentType::Futures,
        InstrumentType::Options,
    ]
    &&& s.currency() == "USD"@
    &&& s.status() == MarketStatus::Unknown
    &&& !s.is_connected()
}

impl InteractiveBrokersAdapter {
    /// A new adapter for the local paper-trading TWS (127.0.0.1:7496, client 1), not
    /// connected; quotes are in USD with an unknown market status.
    pub fn new() -> (r: InteractiveBrokersAdapter)
        ensures
            r.host@ == "127.0.0.1"@,
            r.port == 7496,
            r.client_id == 1,
            ib_session(r.session),
    {
        let mut types: Vec<InstrumentType> = Vec::new();
        types.push(InstrumentType::Stock);
        types.push(InstrumentType::Etf);
        types.push(InstrumentType::Bond);
        types.push(InstrumentType::Currency);
        types.push(InstrumentType::Futures);
        types.push(InstrumentType::Options);
        assert(types@ =~= seq![InstrumentType::Stock, InstrumentType::Etf, InstrumentType::Bond, InstrumentType::Currency, InstrumentType::Futures, InstrumentType::Options]);
        let info = ExchangeInfo::new(
            String::from_str("ibkr"),
            String::from_str("Interactive Brokers"),
            String::from_str("https://www.interactivebrokers.com/"),
            types,
        );
        InteractiveBrokersAdapter {
            host: String::from_str("127.0.0.1"),
            port: 7496,
            client_id: 1,
            session: AdapterSession::new(info, "USD", MarketStatus::Unknown),
        }
    }

    /// Sets the TWS/Gateway connection parameters.
    pub fn with_connection(self, host: &str, port: u16, client_id: i32) -> (r: InteractiveBrokersAdapter)
        ensures
            r.host@ == host@,
            r.port == port,
            r.client_id == client_id,
            r.session == self.session,
    {
        InteractiveBrokersAdapter { host: String::from_str(host), port, client_id, ..self }
    }

    /// Connects to TWS or IB Gateway.
    pub fn connect(&mut self) -> (r: Result<(), ExchangeError>)
        ensures
            r is Ok,
            final(self).session.is_connected(),
            final(self).host == old(self).host,
            final(self).port == old(self).port,
            final(self).client_id == old(self).client_id,
            final(self).session.exchange_info() == old(self).session.exchange_info(),
            final(self).session.currency() == old(self).session.currency(),
            final(self).session.status() == old(self).session.status(),
    {
        self.session.set_connected();
        Ok(())
    }

    /// The exchange information.
    pub fn info(&self) -> (r: &ExchangeInfo)
        ensures
            *r == self.session.exchange_info(),
    {
        self.session.info()
    }
}

impl Default for InteractiveBrokersAdapter {
    fn default() -> (r: InteractiveBrokersAdapter)
        ensures
            r.host@ == "127.0.0.1"@,
            r.port == 7496,
            r.client_id == 1,
            ib_session(r.session),
    {
        InteractiveBrokersAdapter::new()
    }
}

} // verus!
