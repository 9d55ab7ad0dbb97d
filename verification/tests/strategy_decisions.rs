use trader_bot::domain::{Decimal, Money, Position};
use trader_bot::strategy::{
    HoldingConfig, HoldingStrategy, MarketState, StrategyAction, StrategyDecision, TimeOfDay,
    TradingSettings,
};

fn d(mantissa: i64, scale: u32) -> Decimal {
    Decimal::new(mantissa, scale)
}

fn time(h: u32, m: u32, s: u32) -> TimeOfDay {
    TimeOfDay::from_hms(h, m, s).unwrap()
}

#[test]
fn test_holding_config_with_percent() {
    let config = HoldingConfig::with_percent("AAPL", d(20, 0))
        .with_tolerance(d(1, 0))
        .with_allow_sell(true);

    assert_eq!(config.symbol, "AAPL");
    assert_eq!(config.target_percent, Some(d(20, 0)));
    assert_eq!(config.tolerance_percent, d(1, 0));
    assert!(config.allow_sell);
}

#[test]
fn test_holding_config_with_absolute() {
    let config = HoldingConfig::with_absolute("GOOGL", d(10000, 0));

    assert_eq!(config.symbol, "GOOGL");
    assert_eq!(config.absolute_value, Some(d(10000, 0)));
    assert!(config.target_percent.is_none());
}

#[test]
fn test_calculate_target_value_percent() {
    let config = HoldingConfig::with_percent("AAPL", d(25, 0));
    let strategy = HoldingStrategy::new(config);

    let target = strategy.calculate_target_value(d(100000, 0));
    assert_eq!(target, d(25000, 0));
}

#[test]
fn test_calculate_target_value_absolute() {
    let config = HoldingConfig::with_absolute("AAPL", d(15000, 0));
    let strategy = HoldingStrategy::new(config);

    let target = strategy.calculate_target_value(d(100000, 0));
    assert_eq!(target, d(15000, 0));
}

#[test]
fn test_strategy_symbols() {
    let config = HoldingConfig::with_percent("MSFT", d(10, 0));
    let strategy = HoldingStrategy::new(config);

    assert_eq!(strategy.symbols(), vec!["MSFT".to_string()]);
}

#[test]
fn test_strategy_disabled() {
    let config = HoldingConfig::with_percent("AAPL", d(10, 0)).with_enabled(false);
    let strategy = HoldingStrategy::new(config);

    let state = MarketState::new("AAPL", "USD").with_cash(d(10000, 0));
    let decision = strategy.decide(&state);

    assert!(decision.is_hold());
    assert_eq!(decision.reason(), Some("Strategy disabled"));
}

#[test]
fn holding_buys_when_under_allocated() {
    let strategy = HoldingStrategy::new(HoldingConfig::with_percent("AAPL", d(50, 0)));
    let state = MarketState::new("AAPL", "USD")
        .with_cash(d(10000, 0))
        .with_last_price(d(100, 0));
    let decision = strategy.decide(&state);
    assert!(!decision.is_hold());
    assert_eq!(decision.reason(), Some("Under-allocated, buying to target"));
    match &decision.actions()[0] {
        StrategyAction::Buy { symbol, quantity_lots, price } => {
            assert_eq!(symbol, "AAPL");
            assert_eq!(*quantity_lots, 50);
            assert!(price.is_none());
        }
        other => panic!("unexpected {other:?}"),
    }
}

#[test]
fn holding_sells_only_when_allowed() {
    let position = Position::new("AAPL", "NASDAQ", d(80, 0), Money::new(d(100, 0), "USD"));
    let state = MarketState::new("AAPL", "USD")
        .with_cash(d(2000, 0))
        .with_last_price(d(100, 0))
        .with_position(position);

    let keep = HoldingStrategy::new(HoldingConfig::with_percent("AAPL", d(50, 0)));
    let decision = keep.decide(&state);
    assert!(decision.is_hold());
    assert_eq!(decision.reason(), Some("Over-allocated but sell not allowed"));

    let sell = HoldingStrategy::new(
        HoldingConfig::with_percent("AAPL", d(50, 0)).with_allow_sell(true),
    );
    let decision = sell.decide(&state);
    assert_eq!(decision.reason(), Some("Over-allocated, selling to target"));
    match &decision.actions()[0] {
        StrategyAction::Sell { quantity_lots, .. } => assert_eq!(*quantity_lots, 30),
        other => panic!("unexpected {other:?}"),
    }
}

#[test]
fn holding_reasons_for_holding() {
    let no_target = HoldingStrategy::new(HoldingConfig::with_absolute("AAPL", d(0, 0)));
    let state = MarketState::new("AAPL", "USD").with_cash(d(1000, 0));
    assert_eq!(no_target.decide(&state).reason(), Some("No target value configured"));

    let no_price = HoldingStrategy::new(HoldingConfig::with_percent("AAPL", d(50, 0)));
    assert_eq!(no_price.decide(&state).reason(), Some("No price available"));

    let tolerant = HoldingStrategy::new(
        HoldingConfig::with_percent("AAPL", d(1, 0)).with_tolerance(d(2, 0)),
    );
    assert_eq!(tolerant.decide(&state).reason(), Some("Within tolerance"));

    let big_lots = HoldingStrategy::new(
        HoldingConfig::with_percent("AAPL", d(50, 0)).with_min_trade_lots(100),
    );
    let priced = MarketState::new("AAPL", "USD")
        .with_cash(d(1000, 0))
        .with_last_price(d(10, 0));
    assert_eq!(big_lots.decide(&priced).reason(), Some("Trade size below minimum"));
}

#[test]
fn test_default_settings() {
    let settings = TradingSettings::default();
    assert_eq!(settings.minimum_profit_steps, 1);
    assert!(settings.enabled);
}

#[test]
fn test_builder_pattern() {
    let settings = TradingSettings::new("TEST")
        .with_minimum_profit_steps(2)
        .with_price_step(Decimal::new(1, 1))
        .with_max_position(50);

    assert_eq!(settings.instrument, "TEST");
    assert_eq!(settings.minimum_profit_steps, 2);
    assert_eq!(settings.price_step, Decimal::new(1, 1));
    assert_eq!(settings.max_position_lots, 50);
}

#[test]
fn test_minimum_profit() {
    let settings = TradingSettings::new("TEST")
        .with_minimum_profit_steps(3)
        .with_price_step(Decimal::new(1, 2));

    assert_eq!(settings.minimum_profit(), Decimal::new(3, 2));
}

#[test]
fn test_trading_time() {
    let settings = TradingSettings::new("TEST").with_trading_hours(time(9, 0, 0), time(17, 0, 0));

    assert!(settings.is_trading_time(time(12, 0, 0)));
    assert!(!settings.is_trading_time(time(8, 0, 0)));
    assert!(!settings.is_trading_time(time(18, 0, 0)));
}

#[test]
fn test_no_trading_time_restrictions() {
    let settings = TradingSettings::new("TEST");
    assert!(settings.is_trading_time(time(3, 0, 0)));
    assert!(settings.is_trading_time(time(23, 0, 0)));
}

#[test]
fn trading_window_bounds_are_inclusive() {
    let settings = TradingSettings::new("TEST").with_trading_hours(time(9, 0, 0), time(17, 0, 0));
    assert!(settings.is_trading_time(time(9, 0, 0)));
    assert!(settings.is_trading_time(time(17, 0, 0)));
    assert!(TimeOfDay::from_hms(24, 0, 0).is_none());
    assert!(TimeOfDay::from_hms(23, 60, 0).is_none());
}

#[test]
fn test_strategy_action_creation() {
    let buy = StrategyAction::market_buy("AAPL", 10);
    assert!(matches!(buy, StrategyAction::Buy { price: None, .. }));

    let sell = StrategyAction::market_sell("AAPL", 5);
    assert!(matches!(sell, StrategyAction::Sell { price: None, .. }));
}

#[test]
fn test_strategy_decision() {
    let mut decision = StrategyDecision::new();
    decision.add_action(StrategyAction::market_buy("AAPL", 10));
    decision.add_action(StrategyAction::market_sell("GOOGL", 5));

    assert_eq!(decision.actions().len(), 2);
    assert!(!decision.is_hold());
}

#[test]
fn test_hold_decision() {
    let decision = StrategyDecision::hold_with_reason("Market closed");
    assert!(decision.is_hold());
    assert_eq!(decision.reason(), Some("Market closed"));
}

#[test]
fn test_market_state() {
    let state = MarketState::new("AAPL", "USD")
        .with_cash(Decimal::from_i64(10000))
        .with_last_price(Decimal::from_i64(150));

    assert_eq!(state.symbol, "AAPL");
    assert_eq!(state.available_cash, Decimal::from_i64(10000));
    assert_eq!(state.last_price, Some(Decimal::from_i64(150)));
}

#[test]
fn action_symbols_and_holds() {
    assert_eq!(StrategyAction::limit_buy("A", 1, d(5, 0)).symbol(), Some("A"));
    assert_eq!(StrategyAction::cancel("o1").symbol(), None);
    assert!(StrategyAction::hold().is_hold());
    assert!(StrategyDecision::new().is_hold());
    assert_eq!(StrategyDecision::hold().action_count(), 1);
}

fn huge() -> Decimal {
    Decimal::from_i128_with_scale(79228162514264337593543950335, 0)
}

#[test]
fn holding_arithmetic_checks() {
    let strategy = HoldingStrategy::new(HoldingConfig::with_percent("AAPL", d(50, 0)));
    let state = MarketState::new("AAPL", "USD")
        .with_cash(d(10000, 0))
        .with_last_price(d(100, 0));
    assert!(strategy.decide_is_defined(&state));
    assert!(strategy.action_is_defined(&state, d(10000, 0)));
    assert!(!strategy.action_is_defined(&state, huge()));

    let rich = MarketState::new("AAPL", "USD")
        .with_cash(huge())
        .with_last_price(d(100, 0));
    assert!(!strategy.decide_is_defined(&rich));

    let disabled = HoldingStrategy::new(HoldingConfig::with_percent("AAPL", d(50, 0)).with_enabled(false));
    assert!(disabled.decide_is_defined(&rich));
}
