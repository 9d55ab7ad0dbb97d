//! Exchange adapters for brokers and exchanges: T-Bank, Binance and Interactive Brokers.
//! Their API clients are not implemented yet; each adapter keeps its settings and a session
//! whose operations need a connection.

pub mod session;
pub mod binance;
pub mod interactive_brokers;
pub mod tbank;

pub use binance::BinanceAdapter;
pub use interactive_brokers::InteractiveBrokersAdapter;
pub use session::AdapterSession;
pub use tbank::TBankAdapter;
