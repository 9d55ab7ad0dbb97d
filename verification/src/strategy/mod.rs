//! Rebalancing calculations, rebalance plans, the balancer engine's decisions and the
//! holding strategy.

pub mod order_text;
pub mod calculator;
pub mod rebalance;
pub mod engine;
pub mod traits;
pub mod holding;
pub mod settings;
pub mod balancer;

pub use calculator::{AllocationDiff, RebalanceCalculator};
pub use engine::{BalancerConfig, RebalanceResult};
pub use holding::{HoldingConfig, HoldingStrategy};
pub use rebalance::{RebalanceAction, RebalancePlan, RebalancePlanBuilder};
pub use settings::{TimeOfDay, TradingSettings};
pub use traits::{MarketState, StrategyAction, StrategyDecision};
