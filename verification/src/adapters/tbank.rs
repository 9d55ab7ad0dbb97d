//! T-Bank (formerly Tinkoff Investments) adapter; the API client is not implemented yet, so
//! its session answers as described in `session`.

use vstd::prelude::*;
use crate::adapters::session::AdapterSession;
use crate::exchange::error::ExchangeError;
use crate::exchange::types::{ExchangeInfo, InstrumentType, MarketStatus};

verus! {

/// T-Bank adapter.
#[derive(Debug)]
pub struct TBankAdapter {
    /// API token, when configured.
    pub token: Option<String>,
    /// Whether to use the sandbox.
    pub sandbox: bool,
    /// The session, through which the exchange operations are made.
    pub session: AdapterSession,
}

/// The session of a new T-Bank adapter: its exchange information, quotes in RUB with an
/// unknown market status, not connected.
pub open spec fn tbank_session(s: AdapterSession) -> bool {
    &&& s.exchange_info().id@ == "tbank"@
    &&& s.exchange_info().name@ == "T-Bank (Tinkoff)"@
    &&& s.exchange_info().url@ == "https://www.tbank.ru/invest/"@
    &&& s.exchange_info().supported_types@ == seq![
        InstrumentType::Stock,
        InstrumentType::Etf,
        InstrumentType::Bond,
        InstrumentType::Currency,
    ]
    &&& s.currency() == "RUB"@
    &&& s.status() == MarketStatus::Unknown
    &&& !s.is_connected()
}

impl TBankAdapter {
    /// A new adapter without a token, in the sandbox, not connected; quotes are in RUB with
    /// an unknown market status.
    pub fn new() -> (r: TBankAdapter)
        ensures
            r.token is None,
            r.sandbox,
            tbank_session(r.session),
    {
        let mut types: Vec<InstrumentType> = Vec::new();
        types.push(InstrumentType::Stock);
        types.push(InstrumentType::Etf);
        types.push(InstrumentType::Bond);
        types.push(InstrumentType::Currency);
        assert(types@ =~= seq![InstrumentType::Stock, InstrumentType::Etf, InstrumentType::Bond, InstrumentType::Currency]);
        let info = ExchangeInfo::new(
            String::from_str("tbank"),
            String::from_str("T-Bank (Tinkoff)"),
            String::from_str("https://www.tbank.ru/invest/"),
            types,
        );
        TBankAdapter { token: None, sandbox: true, session: AdapterSession::new(info, "RUB", MarketStatus::Unknown) }
    }

    /// A new adapter with an API token.
    pub fn with_token(token: &str) -> (r: TBankAdapter)
        ensures
            r.token matches Some(t) && t@ == token@,
            r.sandbox,
            tbank_session(r.session),
    {
        let mut adapter = TBankAdapter::new();
        adapter.token = Some(String::from_str(token));
        adapter
    }

    /// Sets whether to use the sandbox.
    pub fn with_sandbox(self, sandbox: bool) -> (r: TBankAdapter)
        ensures
            r == (TBankAdapter { sandbox, ..self }),
    {
        TBankAdapter { sandbox, ..self }
    }

    /// Connects to the API: a token is required.
    pub fn connect(&mut self) -> (r: Result<(), ExchangeError>)
        ensures
            old(self).token is Some ==> r is Ok && final(self).session.is_connected(),
            old(self).token is None ==> (r matches Err(ExchangeError::ConfigurationError(m)) && m@
                == "API token is required"@ && final(self).session == old(self).session),
            final(self).token == old(self).token,
            final(self).sandbox == old(self).sandbox,
            final(self).session.exchange_info() == old(self).session.exchange_info(),
            final(self).session.currency() == old(self).session.currency(),
            final(self).session.status() == old(self).session.status(),
    {
        if self.token.is_none() {
            return Err(ExchangeError::ConfigurationError(String::from_str("API token is required")));
        }
        self.session.set_connected();
        Ok(())
    }

    /// The exchange information.
    pub fn info(&self) -> (r: &ExchangeInfo)
        ensures
            *r == self.session.exchange_info(),
    {
        self.session.info()
    }
}

impl Default for TBankAdapter {
    fn default() -> (r: TBankAdapter)
        ensures
            r.token is None,
            r.sandbox,
            tbank_session(r.session),
    {
        TBankAdapter::new()
    }
}

} // verus!
