//! Binance exchange adapter (cryptocurrency); the API client is not implemented yet, so
//! its session answers as described in `session`.

use vstd::prelude::*;
use crate::adapters::session::AdapterSession;
use crate::exchange::error::ExchangeError;
use crate::exchange::types::{ExchangeInfo, InstrumentType, MarketStatus};

verus! {

/// Binance exchange adapter.
#[derive(Debug)]
pub struct BinanceAdapter {
    /// API key, when configured.
    pub api_key: Option<String>,
    /// API secret, when configured.
    pub api_secret: Option<String>,
    /// Whether to use the test network.
    pub testnet: bool,
    /// The session, through which the exchange operations are made.
    pub session: AdapterSession,
}

/// The session of a new Binance adapter: its exchange information, quotes in USDT on an
/// always-open market, not connected.
pub open spec fn binance_session(s: AdapterSession) -> bool {
    &&& s.exchange_info().id@ == "binance"@
    &&& s.exchange_info().name@ == "Binance"@
    &&& s.exchange_info().url@ == "https://www.binance.com/"@
    &&& s.exchange_info().supported_types@ == seq![InstrumentType::Crypto]
    &&& s.currency() == "USDT"@
    &&& s.status() == MarketStatus::Open
    &&& !s.is_connected()
}

impl BinanceAdapter {
    /// A new adapter without credentials, on the test network, not connected; quotes are in
    /// USDT and the market is always open.
    pub fn new() -> (r: BinanceAdapter)
        ensures
            r.api_key is None,
            r.api_secret is None,
            r.testnet,
            binance_session(r.session),
    {
        let mut types: Vec<InstrumentType> = Vec::new();
        types.push(InstrumentType::Crypto);
        let info = ExchangeInfo::new(
            String::from_str("binance"),
            String::from_str("Binance"),
            String::from_str("https://www.binance.com/"),
            types,
        );
        BinanceAdapter {
            api_key: None,
            api_secret: None,
            testnet: true,
            session: AdapterSession::new(info, "USDT", MarketStatus::Open),
        }
    }

    /// A new adapter with API credentials.
    pub fn with_credentials(api_key: &str, api_secret: &str) -> (r: BinanceAdapter)
        ensures
            r.api_key matches Some(k) && k@ == api_key@,
            r.api_secret matches Some(s) && s@ == api_secret@,
            r.testnet,
            binance_session(r.session),
    {
        let mut adapter = BinanceAdapter::new();
        adapter.api_key = Some(String::from_str(api_key));
        adapter.api_secret = Some(String::from_str(api_secret));
        adapter
    }

    /// Sets whether to use the test network.
    pub fn with_testnet(self, testnet: bool) -> (r: BinanceAdapter)
        ensures
            r == (BinanceAdapter { testnet, ..self }),
    {
        BinanceAdapter { testnet, ..self }
    }

    /// Connects to the API: both the key and the secret are required.
    pub fn connect(&mut self) -> (r: Result<(), ExchangeError>)
        ensures
            (old(self).api_key is Some && old(self).api_secret is Some) ==> r is Ok
                && final(self).session.is_connected(),
            !(old(self).api_key is Some && old(self).api_secret is Some) ==> (r matches Err(
                ExchangeError::ConfigurationError(m),
            ) && m@ == "API key and secret are required"@ && final(self).session
                == old(self).session),
            final(self).api_key == old(self).api_key,
            final(self).api_secret == old(self).api_secret,
            final(self).testnet == old(self).testnet,
            final(self).session.exchange_info() == old(self).session.exchange_info(),
            final(self).session.currency() == old(self).session.currency(),
            final(self).session.status() == old(self).session.status(),
    {
        if self.api_key.is_none() || self.api_secret.is_none() {
            return Err(
                ExchangeError::ConfigurationError(String::from_str("API key and secret are required")),
            );
        }
        self.session.set_connected();
        Ok(())
    }

    /// The exchange information.
    pub fn info(&self) -> (r: &ExchangeInfo)
        ensures
            *r == self.session.exchange_info(),
    {
        self.session.info()
    }
}

impl Default for BinanceAdapter {
    fn default() -> (r: BinanceAdapter)
        ensures
            r.api_key is None,
            r.api_secret is None,
            r.testnet,
            binance_session(r.session),
    {
        BinanceAdapter::new()
    }
}

} // verus!
