//! The most used types and functions, for glob import.

pub use crate::cli::{Cli, RuntimeConfig};
pub use crate::config::{AccountConfig, AppConfig, UserConfig};
pub use crate::domain::{
    DesiredAllocation, Money, Order, OrderDirection, OrderStatus, PlannedOrder, PlannedOrders,
    Position, Trade, Wallet,
};
pub use crate::exchange::{ExchangeError, ExchangeResult};
pub use crate::lino_args::{getenv_bool, getenv_decimal, getenv_int, getenv_u64};
pub use crate::simulator::SimulatedExchange;
pub use crate::strategy::{
    BalancerConfig, HoldingStrategy, RebalanceCalculator, RebalancePlan, StrategyAction,
    StrategyDecision, TradingSettings,
};
