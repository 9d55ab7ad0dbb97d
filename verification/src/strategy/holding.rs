//! The holding strategy: keep one asset at a target share (or value) of the portfolio,
//! buying when under target and, when allowed, selling when over.

use vstd::prelude::*;
use crate::domain::decimal::{
    decimal_add, decimal_div, decimal_mul, decimal_sub, int_view, pow10, value_le, Decimal,
    DecimalView,
};
use crate::domain::position::{spec_lots_held, spec_market_value, PositionView};
use crate::domain::wallet::abs_view;
use crate::strategy::traits::{ActionKind, DecisionView, MarketState, StrategyAction, StrategyDecision};

verus! {

/// Configuration of a holding strategy.
#[derive(Debug)]
pub struct HoldingConfig {
    /// The symbol to hold.
    pub symbol: String,
    /// Target percentage of the portfolio (0-100).
    pub target_percent: Option<Decimal>,
    /// Absolute target value (used when no percentage is set).
    pub absolute_value: Option<Decimal>,
    /// Tolerance before rebalancing (percentage points).
    pub tolerance_percent: Decimal,
    /// Whether selling is allowed when over target.
    pub allow_sell: bool,
    /// Minimum trade size in lots.
    pub min_trade_lots: u32,
    /// Whether the strategy is enabled.
    pub enabled: bool,
}

impl Default for HoldingConfig {
    fn default() -> (r: HoldingConfig)
        ensures
            r.symbol@ == Seq::<char>::empty(),
            r.target_percent is None,
            r.absolute_value is None,
            r.tolerance_percent@ == (DecimalView { mantissa: 5, scale: 1 }),
            !r.allow_sell,
            r.min_trade_lots == 1,
            r.enabled,
    {
        HoldingConfig {
            symbol: String::new(),
            target_percent: None,
            absolute_value: None,
            tolerance_percent: Decimal::new(5, 1),
            allow_sell: false,
            min_trade_lots: 1,
            enabled: true,
        }
    }
}

impl HoldingConfig {
    /// Holding a percentage of the portfolio, other settings at their defaults.
    pub fn with_percent(symbol: &str, target_percent: Decimal) -> (r: HoldingConfig)
        ensures
            r.symbol@ == symbol@,
            r.target_percent == Some(target_percent),
            r.absolute_value is None,
            r.tolerance_percent@ == (DecimalView { mantissa: 5, scale: 1 }),
            !r.allow_sell,
            r.min_trade_lots == 1,
            r.enabled,
    {
        HoldingConfig {
            symbol: String::from_str(symbol),
            target_percent: Some(target_percent),
            ..HoldingConfig::default()
        }
    }

    /// Holding an absolute value, other settings at their defaults.
    pub fn with_absolute(symbol: &str, absolute_value: Decimal) -> (r: HoldingConfig)
        ensures
            r.symbol@ == symbol@,
            r.target_percent is None,
            r.absolute_value == Some(absolute_value),
            r.tolerance_percent@ == (DecimalView { mantissa: 5, scale: 1 }),
            !r.allow_sell,
            r.min_trade_lots == 1,
            r.enabled,
    {
        HoldingConfig {
            symbol: String::from_str(symbol),
            absolute_value: Some(absolute_value),
            ..HoldingConfig::default()
        }
    }

    /// Sets the tolerance.
    pub fn with_tolerance(self, tolerance: Decimal) -> (r: HoldingConfig)
        ensures
            r == (HoldingConfig { tolerance_percent: tolerance, ..self }),
    {
        HoldingConfig { tolerance_percent: tolerance, ..self }
    }

    /// Allows or forbids selling.
    pub fn with_allow_sell(self, allow: bool) -> (r: HoldingConfig)
        ensures
            r == (HoldingConfig { allow_sell: allow, ..self }),
    {
        HoldingConfig { allow_sell: allow, ..self }
    }

    /// Sets the minimum trade size.
    pub fn with_min_trade_lots(self, lots: u32) -> (r: HoldingConfig)
        ensures
            r == (HoldingConfig { min_trade_lots: lots, ..self }),
    {
        HoldingConfig { min_trade_lots: lots, ..self }
    }

    /// Enables or disables the strategy.
    pub fn with_enabled(self, enabled: bool) -> (r: HoldingConfig)
        ensures
            r == (HoldingConfig { enabled, ..self }),
    {
        HoldingConfig { enabled, ..self }
    }
}

/// The target value: the percentage of the total when one is set, else the absolute value,
/// else zero.
pub open spec fn spec_target(c: HoldingConfig, total: DecimalView) -> DecimalView {
    match c.target_percent {
        Some(p) => decimal_div(decimal_mul(total, p@)->Some_0, int_view(100))->Some_0,
        None => match c.absolute_value {
            Some(a) => a@,
            None => int_view(0),
        },
    }
}

/// The value held: the position's market value, or zero without one.
pub open spec fn held_value(position: Option<PositionView>) -> DecimalView {
    match position {
        Some(p) => spec_market_value(p)->Some_0.amount,
        None => int_view(0),
    }
}

/// Whole lots of `|diff|` at `price`: `floor(|diff| / price)` as a `u32`, or 0.
pub open spec fn lots_for(diff: DecimalView, price: DecimalView) -> nat {
    let q = decimal_div(abs_view(diff), price)->Some_0;
    let f = q.mantissa / pow10(q.scale);
    if 0 <= f <= u32::MAX {
        f as nat
    } else {
        0
    }
}

/// A hold decision with its reason.
pub open spec fn hold_for(reason: Seq<char>) -> DecisionView {
    DecisionView { actions: seq![ActionKind::Hold], reason: Some(reason) }
}

/// The holding strategy's decision for a market state and a total portfolio value.
pub open spec fn spec_holding_action(
    c: HoldingConfig,
    position: Option<PositionView>,
    cash: DecimalView,
    last_price: Option<DecimalView>,
    total: DecimalView,
) -> DecisionView {
    let target = spec_target(c, total);
    let current = held_value(position);
    let diff = decimal_sub(target, current)->Some_0;
    let diff_percent = if total.mantissa == 0 {
        int_view(0)
    } else {
        decimal_mul(decimal_div(abs_view(diff), total)->Some_0, int_view(100))->Some_0
    };
    if !c.enabled {
        hold_for("Strategy disabled"@)
    } else if target.mantissa == 0 {
        hold_for("No target value configured"@)
    } else if value_le(diff_percent, c.tolerance_percent@) {
        hold_for("Within tolerance"@)
    } else if !(last_price matches Some(p) && p.mantissa != 0) {
        hold_for("No price available"@)
    } else {
        let lots = lots_for(diff, last_price->Some_0);
        if lots < c.min_trade_lots {
            hold_for("Trade size below minimum"@)
        } else if diff.mantissa > 0 {
            if value_le(diff, cash) {
                DecisionView {
                    actions: seq![ActionKind::Buy { symbol: c.symbol@, quantity_lots: lots, price: None }],
                    reason: Some("Under-allocated, buying to target"@),
                }
            } else {
                hold_for("Insufficient cash"@)
            }
        } else if c.allow_sell {
            let held = match position {
                Some(p) => spec_lots_held(p),
                None => 0,
            };
            let to_sell = if lots <= held {
                lots
            } else {
                held
            };
            if to_sell > 0 {
                DecisionView {
                    actions: seq![ActionKind::Sell { symbol: c.symbol@, quantity_lots: to_sell, price: None }],
                    reason: Some("Over-allocated, selling to target"@),
                }
            } else {
                hold_for("No position to sell"@)
            }
        } else {
            hold_for("Over-allocated but sell not allowed"@)
        }
    }
}

/// The arithmetic of the holding decision is defined as far as the decision reaches: the
/// target, then the held value and the deviation, then (outside the tolerance, with a
/// price) the lot count, and the held lots (which divide by the lot size) of a sell.
pub open spec fn holding_defined(
    c: HoldingConfig,
    position: Option<PositionView>,
    last_price: Option<DecimalView>,
    total: DecimalView,
) -> bool {
    let target = spec_target(c, total);
    let current = held_value(position);
    let diff = decimal_sub(target, current)->Some_0;
    let diff_percent = if total.mantissa == 0 {
        int_view(0)
    } else {
        decimal_mul(decimal_div(abs_view(diff), total)->Some_0, int_view(100))->Some_0
    };
    c.enabled ==> {
        &&& (c.target_percent matches Some(p) ==> decimal_mul(total, p@) is Some)
        &&& (target.mantissa != 0 ==> {
            &&& (position matches Some(p) ==> spec_market_value(p) is Some)
            &&& decimal_sub(target, current) is Some
            &&& (total.mantissa != 0 ==> decimal_div(abs_view(diff), total) is Some && decimal_mul(
                decimal_div(abs_view(diff), total)->Some_0,
                int_view(100),
            ) is Some)
            &&& (!value_le(diff_percent, c.tolerance_percent@) && last_price is Some
                && last_price->Some_0.mantissa != 0) ==> {
                let lp = last_price->Some_0;
                &&& decimal_div(abs_view(diff), lp) is Some
                &&& (lots_for(diff, lp) >= c.min_trade_lots && diff.mantissa <= 0 && c.allow_sell
                    && position is Some) ==> position->Some_0.lot_size > 0
            }
        })
    }
}

/// A holding strategy.
#[derive(Debug)]
pub struct HoldingStrategy {
    config: HoldingConfig,
}

impl HoldingStrategy {
    /// The configuration.
    pub closed spec fn config_view(&self) -> HoldingConfig {
        self.config
    }

    /// A strategy with the configuration.
    pub fn new(config: HoldingConfig) -> (r: HoldingStrategy)
        ensures
            r.config_view() == config,
    {
        HoldingStrategy { config }
    }

    /// The configuration.
    pub fn config(&self) -> (r: &HoldingConfig)
        ensures
            *r == self.config_view(),
    {
        &self.config
    }

    /// The target value for a portfolio total: its target percentage, else the absolute
    /// value, else zero.
    pub fn calculate_target_value(&self, total_portfolio_value: Decimal) -> (r: Decimal)
        requires
            self.config_view().target_percent matches Some(p) ==> decimal_mul(
                total_portfolio_value@,
                p@,
            ) is Some,
        ensures
            r@ == spec_target(self.config_view(), total_portfolio_value@),
    {
        match self.config.target_percent {
            Some(p) => match total_portfolio_value.checked_mul(&p) {
                Some(m) => match m.checked_div(&Decimal::from_u32(100)) {
                    Some(x) => x,
                    None => vstd::pervasive::unreached(),
                },
                None => vstd::pervasive::unreached(),
            },
            None => match self.config.absolute_value {
                Some(a) => a,
                None => Decimal::zero(),
            },
        }
    }

    /// Whether the arithmetic of `calculate_action` is defined for a market state and a
    /// total (what it needs).
    pub fn action_is_defined(&self, state: &MarketState, total_portfolio_value: Decimal) -> (b: bool)
        ensures
            b == holding_defined(
                self.config_view(),
                crate::domain::position::opt_position(state.position),
                crate::domain::decimal::opt_view(state.last_price),
                total_portfolio_value@,
            ),
    {
        if !self.config.enabled {
            return true;
        }
        match self.config.target_percent {
            Some(p) => {
                if total_portfolio_value.checked_mul(&p).is_none() {
                    return false;
                }
            },
            None => {},
        }
        let target_value = self.calculate_target_value(total_portfolio_value);
        if target_value.is_zero() {
            return true;
        }
        let current_value = match &state.position {
            Some(p) => match p.current_price().amount().checked_mul(&p.quantity()) {
                Some(v) => v,
                None => {
                    return false;
                },
            },
            None => Decimal::zero(),
        };
        let diff_value = match target_value.checked_sub(&current_value) {
            Some(d) => d,
            None => {
                return false;
            },
        };
        let diff_percent = if total_portfolio_value.is_zero() {
            Decimal::zero()
        } else {
            match diff_value.abs().checked_div(&total_portfolio_value) {
                Some(q) => match q.checked_mul(&Decimal::from_u32(100)) {
                    Some(x) => x,
                    None => {
                        return false;
                    },
                },
                None => {
                    return false;
                },
            }
        };
        if diff_percent.le(&self.config.tolerance_percent) {
            return true;
        }
        let price = match state.last_price {
            Some(p) => {
                if p.is_zero() {
                    return true;
                }
                p
            },
            None => {
                return true;
            },
        };
        let lots = match diff_value.abs().checked_div(&price) {
            Some(q) => q.floor().whole_to_u32_or_zero(),
            None => {
                return false;
            },
        };
        if lots >= self.config.min_trade_lots && !(diff_value.is_sign_positive() && !diff_value.is_zero())
            && self.config.allow_sell {
            match &state.position {
                Some(p) => p.lot_size() > 0,
                None => true,
            }
        } else {
            true
        }
    }

    /// The decision for a market state given the total portfolio value.
    pub fn calculate_action(&self, state: &MarketState, total_portfolio_value: Decimal) -> (r:
        StrategyDecision)
        requires
            holding_defined(
                self.config_view(),
                crate::domain::position::opt_position(state.position),
                crate::domain::decimal::opt_view(state.last_price),
                total_portfolio_value@,
            ),
        ensures
            r@ == spec_holding_action(
                self.config_view(),
                crate::domain::position::opt_position(state.position),
                state.available_cash@,
                crate::domain::decimal::opt_view(state.last_price),
                total_portfolio_value@,
            ),
            r@.actions.len() == 1,
            r@.actions[0] is Buy ==> value_le(
                decimal_sub(
                    spec_target(self.config_view(), total_portfolio_value@),
                    held_value(crate::domain::position::opt_position(state.position)),
                )->Some_0,
                state.available_cash@,
            ),
    {
        proof {
            lemma_holding_buy_needs_cash(
                self.config_view(),
                crate::domain::position::opt_position(state.position),
                state.available_cash@,
                crate::domain::decimal::opt_view(state.last_price),
                total_portfolio_value@,
            );
        }
        if !self.config.enabled {
            return StrategyDecision::hold_with_reason("Strategy disabled");
        }
        let target_value = self.calculate_target_value(total_portfolio_value);
        if target_value.is_zero() {
            return StrategyDecision::hold_with_reason("No target value configured");
        }
        let current_value = match &state.position {
            Some(p) => p.market_value().amount(),
            None => Decimal::zero(),
        };
        let diff_value = match target_value.checked_sub(&current_value) {
            Some(d) => d,
            None => vstd::pervasive::unreached(),
        };
        let diff_percent = if total_portfolio_value.is_zero() {
            Decimal::zero()
        } else {
            match diff_value.abs().checked_div(&total_portfolio_value) {
                Some(q) => match q.checked_mul(&Decimal::from_u32(100)) {
                    Some(x) => x,
                    None => vstd::pervasive::unreached(),
                },
                None => vstd::pervasive::unreached(),
            }
        };
        if diff_percent.le(&self.config.tolerance_percent) {
            return StrategyDecision::hold_with_reason("Within tolerance");
        }
        let price = match state.last_price {
            Some(p) => {
                if p.is_zero() {
                    return StrategyDecision::hold_with_reason("No price available");
                }
                p
            },
            None => {
                return StrategyDecision::hold_with_reason("No price available");
            },
        };
        let lots = match diff_value.abs().checked_div(&price) {
            Some(q) => q.floor().whole_to_u32_or_zero(),
            None => vstd::pervasive::unreached(),
        };
        if lots < self.config.min_trade_lots {
            return StrategyDecision::hold_with_reason("Trade size below minimum");
        }
        let mut decision = StrategyDecision::new();
        if diff_value.is_sign_positive() && !diff_value.is_zero() {
            if state.available_cash.ge(&diff_value) {
                decision.add_action(StrategyAction::market_buy(self.config.symbol.as_str(), lots));
                decision = decision.with_reason("Under-allocated, buying to target");
            } else {
                return StrategyDecision::hold_with_reason("Insufficient cash");
            }
        } else if self.config.allow_sell {
            let position_lots = state.position_lots();
            let lots_to_sell = if lots <= position_lots {
                lots
            } else {
                position_lots
            };
            if lots_to_sell > 0 {
                decision.add_action(
                    StrategyAction::market_sell(self.config.symbol.as_str(), lots_to_sell),
                );
                decision = decision.with_reason("Over-allocated, selling to target");
            } else {
                return StrategyDecision::hold_with_reason("No position to sell");
            }
        } else {
            return StrategyDecision::hold_with_reason("Over-allocated but sell not allowed");
        }
        decision
    }

    /// Whether the arithmetic of `decide` is defined for a market state (what it needs):
    /// the position's value, the total, and the decision's own arithmetic.
    pub fn decide_is_defined(&self, state: &MarketState) -> (b: bool)
        ensures
            b == ({
                &&& (state.position matches Some(p) ==> spec_market_value(p@) is Some)
                &&& decimal_add(
                    state.available_cash@,
                    held_value(crate::domain::position::opt_position(state.position)),
                ) is Some
                &&& holding_defined(
                    self.config_view(),
                    crate::domain::position::opt_position(state.position),
                    crate::domain::decimal::opt_view(state.last_price),
                    decimal_add(
                        state.available_cash@,
                        held_value(crate::domain::position::opt_position(state.position)),
                    )->Some_0,
                )
            }),
    {
        let held = match &state.position {
            Some(p) => match p.current_price().amount().checked_mul(&p.quantity()) {
                Some(v) => v,
                None => {
                    return false;
                },
            },
            None => Decimal::zero(),
        };
        let total = match state.available_cash.checked_add(&held) {
            Some(t) => t,
            None => {
                return false;
            },
        };
        self.action_is_defined(state, total)
    }

    /// The decision for a market state: the total portfolio value is the available cash
    /// plus the position's market value.
    pub fn decide(&self, state: &MarketState) -> (r: StrategyDecision)
        requires
            state.position matches Some(p) ==> spec_market_value(p@) is Some,
            decimal_add(
                state.available_cash@,
                held_value(crate::domain::position::opt_position(state.position)),
            ) is Some,
            holding_defined(
                self.config_view(),
                crate::domain::position::opt_position(state.position),
                crate::domain::decimal::opt_view(state.last_price),
                decimal_add(
                    state.available_cash@,
                    held_value(crate::domain::position::opt_position(state.position)),
                )->Some_0,
            ),
        ensures
            r@ == spec_holding_action(
                self.config_view(),
                crate::domain::position::opt_position(state.position),
                state.available_cash@,
                crate::domain::decimal::opt_view(state.last_price),
                decimal_add(
                    state.available_cash@,
                    held_value(crate::domain::position::opt_position(state.position)),
                )->Some_0,
            ),
    {
        let held = match &state.position {
            Some(p) => p.market_value().amount(),
            None => Decimal::zero(),
        };
        let total_value = match state.available_cash.checked_add(&held) {
            Some(t) => t,
            None => vstd::pervasive::unreached(),
        };
        self.calculate_action(state, total_value)
    }

    /// The strategy's name.
    pub fn name(&self) -> (r: &'static str)
        ensures
            r@ == "Holding Strategy"@,
    {
        "Holding Strategy"
    }

    /// The strategy's id: its symbol.
    pub fn id(&self) -> (r: &str)
        ensures
            r@ == self.config_view().symbol@,
    {
        self.config.symbol.as_str()
    }

    /// The symbols the strategy trades: its one symbol.
    pub fn symbols(&self) -> (r: Vec<String>)
        ensures
            r@.len() == 1,
            r@[0]@ == self.config_view().symbol@,
    {
        let mut v: Vec<String> = Vec::new();
        v.push(self.config.symbol.clone());
        v
    }

    /// Whether the strategy is enabled.
    pub fn is_enabled(&self) -> (b: bool)
        ensures
            b == self.config_view().enabled,
    {
        self.config.enabled
    }
}

/// The holding decision is always one action, and buys only what the cash pays for: a buy
/// comes only from an enabled strategy whose target exceeds the held value by an amount
/// that the available cash covers, and where the cash falls short of that amount the
/// decision is a hold. A sell comes only where selling is allowed, and sells at least one
/// and at most the held lots.
pub proof fn lemma_holding_buy_needs_cash(
    c: HoldingConfig,
    position: Option<PositionView>,
    cash: DecimalView,
    last_price: Option<DecimalView>,
    total: DecimalView,
)
    ensures
        ({
            let d = spec_holding_action(c, position, cash, last_price, total);
            let diff = decimal_sub(spec_target(c, total), held_value(position))->Some_0;
            &&& d.actions.len() == 1
            &&& d.actions[0] is Buy ==> c.enabled && diff.mantissa > 0 && value_le(diff, cash)
            &&& (diff.mantissa > 0 && !value_le(diff, cash)) ==> d.actions[0] is Hold
            &&& d.actions[0] matches ActionKind::Sell { quantity_lots, .. } ==> {
                &&& c.enabled
                &&& c.allow_sell
                &&& 0 < quantity_lots
                &&& position matches Some(p) && quantity_lots <= spec_lots_held(p)
            }
        }),
{
}

} // verus!
