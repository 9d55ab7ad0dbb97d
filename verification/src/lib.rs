//! Portfolio balancing and trading-bot configuration library.
//!
//! - `lino_args`: configuration helpers (naming conventions, environment values, lenv
//!   files, Links Notation).
//! - `domain`: orders, trades, money, positions, wallets and allocations.
//! - `exchange`: exchange-facing types and errors.
//! - `strategy`: rebalancing calculations and strategy decisions.
//! - `config`: account and application configuration.
//! - `simulator`: a simulated market and exchange for testing strategies.
//! - `adapters`: broker and exchange adapters.
//! - `prelude`: the most used items.
//! - `cli`: command-line and environment settings resolved into a runtime configuration.
//! - `text`, `assoc`, `clock`, `numparse`: string, association-list, time and number helpers
//!   shared by the modules above.

pub mod text;
pub mod assoc;
pub mod clock;
pub mod numparse;
pub mod lino_args;
pub mod domain;
pub mod exchange;
pub mod strategy;
pub mod config;
pub mod cli;
pub mod simulator;
pub mod adapters;
pub mod prelude;

use vstd::prelude::*;

verus! {

/// Version of this library.
pub const VERSION: &'static str = "0.1.0";

} // verus!
