//! Domain types: orders, trades, money, positions, wallets and allocations.

pub mod decimal;
pub mod money;
pub mod position;
pub mod wallet;
pub mod order;
pub mod plan;
pub mod trade;
pub mod allocation;
pub mod user;

pub use decimal::Decimal;
pub use money::Money;
pub use position::{Position, PositionBuilder};
pub use wallet::{DesiredAllocation, Wallet};
pub use plan::{PlannedOrder, PlannedOrders};
pub use order::{Order, OrderDirection, OrderStatus, OrderType};
pub use trade::{Trade, TradeHistory, TradeId};
pub use allocation::{Allocation, AllocationPortion, StrategyType};
pub use user::{Account, BrokerType, ConfigValidationError, Settings, TradingConfig, User};
