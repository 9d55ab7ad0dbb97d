//! The portfolio balancer: differences, plans and the engine's decisions.

pub use crate::strategy::calculator::{AllocationDiff, RebalanceCalculator};
pub use crate::strategy::engine::{BalancerConfig, RebalanceResult};
pub use crate::strategy::rebalance::{RebalanceAction, RebalancePlan, RebalancePlanBuilder};
