//! Exchange-facing types and errors.

pub mod error;
pub mod types;

pub use error::{ExchangeError, ExchangeResult};
pub use types::{ExchangeInfo, Instrument, InstrumentType, MarketData, MarketStatus, OrderBook, OrderBookEntry, Ticker};
pub mod provider;

pub use provider::generate_order_id;
