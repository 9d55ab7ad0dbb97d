//! Market simulator: simulated prices and a simulated exchange for testing strategies
//! without real API calls.

pub mod market;

pub use market::{MarketManager, MarketState, PriceGenerator, PriceModel};
pub mod exchange;

pub use exchange::SimulatedExchange;
pub mod scenario;

pub use scenario::{should_rebalance, ScenarioCheck, ScenarioResult};
