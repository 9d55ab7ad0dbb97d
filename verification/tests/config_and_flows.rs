use trader_bot::cli::{log_level_from_name, Cli, LogLevel, RuntimeConfig};
use trader_bot::clock::Timestamp;
use trader_bot::config::{
    AccountConfig, AllocationMode, AppConfig, ConfigError, GlobalSettings, MarginConfig,
    MarketClosureBehavior, account_check_is_defined, select_accounts, UserConfig,
};
use trader_bot::domain::wallet::try_sum_values;
use trader_bot::domain::{
    Decimal, DesiredAllocation, Money, OrderDirection, OrderStatus, PlannedOrder, PlannedOrders,
    Position, Wallet,
};
use trader_bot::exchange::{ExchangeError, Instrument, InstrumentType, MarketData, MarketStatus};
use trader_bot::strategy::engine::{
    action_from_market, delay_before, finish_execution, order_outcome, plan_needs_execution,
    skip_missing_instrument, start_plan, PlanStart,
};
use trader_bot::strategy::{
    BalancerConfig, RebalanceAction, RebalanceCalculator, RebalancePlan, RebalancePlanBuilder,
};

fn d(mantissa: i64, scale: u32) -> Decimal {
    Decimal::new(mantissa, scale)
}

fn usd(amount: Decimal) -> Money {
    Money::new(amount, "USD")
}

fn instrument(symbol: &str, lot_size: u32, increment: Decimal) -> Instrument {
    Instrument {
        symbol: symbol.into(),
        name: "Name".into(),
        exchange_id: symbol.into(),
        exchange: "MOEX".into(),
        instrument_type: InstrumentType::Stock,
        currency: "RUB".into(),
        lot_size,
        min_price_increment: increment,
        min_quantity: 1,
        tradeable: true,
        margin_available: true,
        short_available: false,
    }
}

fn account(allocation: Vec<(String, Decimal)>) -> AccountConfig {
    AccountConfig {
        id: "test".into(),
        name: "Test".into(),
        exchange: "sim".into(),
        exchange_account_id: "123".into(),
        token_env_var: "TOKEN".into(),
        desired_allocation: allocation,
        allocation_mode: AllocationMode::Manual,
        balance_interval_secs: 3600,
        order_delay_ms: 1000,
        margin: MarginConfig::default(),
        market_closure_behavior: MarketClosureBehavior::Skip,
        min_profit_percent_for_close: None,
        min_trade_percent: d(1, 1),
        tolerance_percent: d(5, 1),
    }
}

fn app(accounts: Vec<AccountConfig>) -> AppConfig {
    AppConfig {
        version: "1.0.0".into(),
        settings: GlobalSettings::default(),
        users: vec![],
        accounts,
    }
}

#[test]
fn test_instrument_lot_conversion() {
    let sber = Instrument {
        symbol: "SBER".into(),
        name: "Sberbank".into(),
        exchange_id: "BBG004730N88".into(),
        exchange: "MOEX".into(),
        instrument_type: InstrumentType::Stock,
        currency: "RUB".into(),
        lot_size: 10,
        min_price_increment: d(1, 2),
        min_quantity: 1,
        tradeable: true,
        margin_available: true,
        short_available: false,
    };

    assert_eq!(sber.lots_to_units(5), d(50, 0));
    assert_eq!(sber.units_to_lots(d(55, 0)), 5);
}

#[test]
fn test_instrument_price_rounding() {
    let aapl = instrument("AAPL", 1, d(1, 2));
    assert_eq!(aapl.round_price(d(150123, 3)), d(15012, 2));
    assert_eq!(aapl.round_price(d(150125, 3)), d(15012, 2));
    assert_eq!(aapl.round_price(d(150126, 3)), d(15013, 2));
}

#[test]
fn price_rounding_without_increment_keeps_price() {
    let free = instrument("X", 1, d(0, 0));
    assert_eq!(free.round_price(d(150123, 3)), d(150123, 3));
    let coarse = instrument("Y", 1, d(5, 1));
    assert_eq!(coarse.round_price(d(1026, 2)), d(105, 1));
    assert_eq!(coarse.units_to_lots(d(3, 0)), 3);
}

#[test]
fn test_market_data_spread() {
    let data = MarketData {
        symbol: "AAPL".into(),
        last_price: usd(d(150, 0)),
        bid: Some(usd(d(14995, 2))),
        ask: Some(usd(d(15005, 2))),
        volume_24h: None,
        high_24h: None,
        low_24h: None,
        change_24h: None,
        change_percent_24h: None,
        market_status: MarketStatus::Open,
        timestamp: Timestamp { micros: 0 },
    };

    assert_eq!(data.mid_price().unwrap().amount(), d(150, 0));
    assert_eq!(data.spread().unwrap().amount(), d(10, 2));
}

#[test]
fn market_data_without_quotes_has_no_spread() {
    let data = MarketData {
        symbol: "AAPL".into(),
        last_price: usd(d(150, 0)),
        bid: Some(usd(d(149, 0))),
        ask: None,
        volume_24h: None,
        high_24h: None,
        low_24h: None,
        change_24h: None,
        change_percent_24h: None,
        market_status: MarketStatus::Halted,
        timestamp: Timestamp { micros: 0 },
    };
    assert!(data.mid_price().is_none());
    assert!(data.spread().is_none());
    assert!(data.spread_percent().is_none());
    assert!(!data.market_status.is_tradeable());
}

#[test]
fn mod_test_config_validation() {
    let config = app(vec![]);
    let result = config.validate();
    assert!(result.is_err());
}

#[test]
fn test_allocation_validation() {
    let desired = vec![("A".to_string(), d(30, 0)), ("B".to_string(), d(30, 0))];
    let config = app(vec![account(desired)]);
    let result = config.validate();
    assert!(result.is_err());
}

#[test]
fn allocation_validation_messages() {
    let config = app(vec![account(vec![("A".to_string(), d(30, 0))])]);
    match config.validate() {
        Err(ConfigError::ValidationError(m)) => {
            assert_eq!(m, "Account test allocation sums to 30%, expected ~100%")
        }
        other => panic!("unexpected {other:?}"),
    }
    let ok = app(vec![account(vec![
        ("A".to_string(), d(505, 1)),
        ("B".to_string(), d(50, 0)),
    ])]);
    assert!(ok.validate().is_ok());
    let empty = app(vec![]);
    match empty.validate() {
        Err(ConfigError::ValidationError(m)) => assert_eq!(m, "No accounts configured"),
        other => panic!("unexpected {other:?}"),
    }
}

#[test]
fn test_to_balancer_config() {
    let mut acc = account(vec![]);
    acc.order_delay_ms = 500;
    acc.min_profit_percent_for_close = Some(d(5, 0));
    acc.min_trade_percent = d(2, 1);
    acc.tolerance_percent = d(1, 0);

    let balancer_config = acc.to_balancer_config();
    assert_eq!(balancer_config.order_delay_ms, 500);
    assert_eq!(balancer_config.min_trade_percent, d(2, 1));
    assert_eq!(balancer_config.min_profit_percent_for_close, Some(d(5, 0)));
    assert_eq!(balancer_config.max_orders_per_cycle, 20);
    assert!(!balancer_config.dry_run);
}

#[test]
fn account_desired_allocation_map() {
    let acc = account(vec![("A".to_string(), d(40, 0)), ("B".to_string(), d(60, 0))]);
    let desired = acc.to_desired_allocation();
    assert_eq!(desired.get("B"), Some(d(60, 0)));
    assert_eq!(desired.len(), 2);
}

#[test]
fn log_levels_by_name() {
    assert_eq!(log_level_from_name("TRACE"), LogLevel::Trace);
    assert_eq!(log_level_from_name("warning"), LogLevel::Warn);
    assert_eq!(log_level_from_name("Error"), LogLevel::Error);
    assert_eq!(log_level_from_name("chatty"), LogLevel::Info);
}

#[test]
fn runtime_config_from_cli_keeps_options() {
    let cli = Cli {
        config: Some("cfg.json".into()),
        lenv: None,
        log_level: "debug".into(),
        verbose: true,
        dry_run: false,
        plan: true,
        account: Some("main".into()),
        user: None,
        balance_interval: Some(60),
        order_delay: None,
        run_once: true,
        demo: false,
    };
    let runtime = RuntimeConfig::from_cli(cli, None);
    assert_eq!(runtime.log_level, LogLevel::Debug);
    assert!(runtime.plan);
    assert_eq!(runtime.balance_interval, Some(60));
    assert_eq!(runtime.account.as_deref(), Some("main"));
    assert!(runtime.app_config.is_none());
}

#[test]
fn test_calculator_with_complex_portfolio() {
    let mut wallet = Wallet::with_cash("USD", usd(d(20000, 0)));
    wallet.add_position(Position::new("A", "X", d(100, 0), usd(d(100, 0))));
    wallet.add_position(Position::new("B", "X", d(50, 0), usd(d(200, 0))));
    wallet.add_position(Position::new("C", "X", d(25, 0), usd(d(400, 0))));

    let mut desired = DesiredAllocation::new();
    desired.set("A", d(30, 0));
    desired.set("B", d(30, 0));
    desired.set("C", d(20, 0));

    let calc = RebalanceCalculator::new()
        .with_tolerance_percent(d(5, 1))
        .with_min_trade_value(d(100, 0));

    let diffs = calc.calculate_diffs(&wallet, &desired);

    assert_eq!(diffs.len(), 3);

    let a_diff = diffs.iter().find(|x| x.symbol == "A").unwrap();
    assert!(a_diff.needs_buy());

    let c_diff = diffs.iter().find(|x| x.symbol == "C").unwrap();
    assert!(c_diff.diff_percent.abs().lt(&d(1, 0)));
}

#[test]
fn test_version_is_not_empty() {
    assert!(!trader_bot::VERSION.is_empty());
}

#[test]
fn test_version_matches_cargo_toml() {
    assert!(trader_bot::VERSION.starts_with("0."));
}

#[test]
fn test_planned_order_from_rebalance_action() {
    let action = RebalanceAction {
        symbol: "AAPL".to_string(),
        exchange: "NASDAQ".to_string(),
        direction: OrderDirection::Buy,
        lots: 100,
        estimated_price: usd(d(150, 0)),
        estimated_value: usd(d(15000, 0)),
        current_percent: d(0, 0),
        target_percent: d(30, 0),
        priority: 0,
    };

    let planned = PlannedOrder::from_rebalance_action(&action, "test_account");

    assert_eq!(planned.symbol, "AAPL");
    assert_eq!(planned.direction, "BUY");
    assert_eq!(planned.lots, 100);
    assert_eq!(planned.account_id, "test_account");
    assert_eq!(planned.estimated_price.amount(), d(150, 0));
    assert_eq!(planned.estimated_value.amount(), d(15000, 0));
    assert_eq!(planned.current_percent, d(0, 0));
    assert_eq!(planned.target_percent, d(30, 0));
}

fn planned(symbol: &str, direction: &str, lots: u32, price: i64, account: &str) -> PlannedOrder {
    PlannedOrder {
        symbol: symbol.to_string(),
        exchange: "NASDAQ".to_string(),
        direction: direction.to_string(),
        lots,
        estimated_price: usd(d(price, 0)),
        estimated_value: usd(d(price * lots as i64, 0)),
        current_percent: d(0, 0),
        target_percent: d(30, 0),
        account_id: account.to_string(),
        reason: None,
    }
}

#[test]
fn integration_test_test_planned_orders_collection() {
    let mut planned_orders = PlannedOrders::new();
    assert!(planned_orders.is_empty());

    planned_orders.add_order(planned("AAPL", "BUY", 100, 150, "acc1"));
    planned_orders.add_order(planned("GOOGL", "SELL", 5, 2800, "acc1"));

    assert!(!planned_orders.is_empty());
    assert_eq!(planned_orders.total_count(), 2);
    assert_eq!(planned_orders.account_count(), 1);

    let acc1_orders = planned_orders.orders_for_account("acc1").unwrap();
    assert_eq!(acc1_orders.len(), 2);
}

#[test]
fn integration_test_test_planned_orders_multiple_accounts() {
    let mut planned_orders = PlannedOrders::new();
    planned_orders.add_order(planned("AAPL", "BUY", 50, 150, "account_1"));
    planned_orders.add_order(planned("MSFT", "BUY", 25, 400, "account_2"));

    assert_eq!(planned_orders.account_count(), 2);
    assert_eq!(planned_orders.total_count(), 2);

    assert!(planned_orders.orders_for_account("account_1").is_some());
    assert!(planned_orders.orders_for_account("account_2").is_some());
    assert!(planned_orders.orders_for_account("nonexistent").is_none());
}

#[test]
fn test_planned_order_display_format() {
    let order = PlannedOrder {
        symbol: "AAPL".to_string(),
        exchange: "NASDAQ".to_string(),
        direction: "BUY".to_string(),
        lots: 100,
        estimated_price: usd(d(150, 0)),
        estimated_value: usd(d(15000, 0)),
        current_percent: d(10, 0),
        target_percent: d(30, 0),
        account_id: "test".to_string(),
        reason: None,
    };

    let display = order.to_string();
    assert!(display.contains("BUY"));
    assert!(display.contains("100 lots"));
    assert!(display.contains("AAPL"));
    assert!(display.contains("150"));
    assert!(display.contains("15000"));
    assert!(display.contains("10.00%"));
    assert!(display.contains("30.00%"));
}

#[test]
fn planned_orders_display_lines_mention_accounts() {
    let mut planned_orders = PlannedOrders::new();
    planned_orders.add_order(planned("AAPL", "BUY", 2, 150, "acc1"));
    let lines = planned_orders.display_lines();
    assert!(lines.iter().any(|l| l.contains("acc1")));
    assert!(lines.iter().any(|l| l.contains("AAPL")));
}

fn unbalanced_wallet() -> Wallet {
    let mut wallet = Wallet::with_cash("USD", usd(d(0, 0)));
    wallet.add_position(Position::new("A", "X", d(80, 0), usd(d(100, 0))));
    wallet.add_position(Position::new("B", "X", d(20, 0), usd(d(100, 0))));
    wallet
}

#[test]
fn start_plan_finishes_balanced_portfolios() {
    let mut wallet = Wallet::with_cash("USD", usd(d(0, 0)));
    wallet.add_position(Position::new("A", "X", d(50, 0), usd(d(100, 0))));
    let mut desired = DesiredAllocation::new();
    desired.set("A", d(100, 0));
    let config = BalancerConfig::default();
    let calc = RebalanceCalculator::new();
    match start_plan(&config, &calc, &wallet, &desired) {
        PlanStart::Finished(plan) => {
            assert!(plan.is_empty());
            assert_eq!(plan.summary(), "Portfolio already balanced");
        }
        PlanStart::Convert { .. } => panic!("expected a finished plan"),
    }
}

#[test]
fn start_plan_converts_sells_first_and_caps_orders() {
    let wallet = unbalanced_wallet();
    let mut desired = DesiredAllocation::new();
    desired.set("A", d(50, 0));
    desired.set("B", d(50, 0));
    let mut config = BalancerConfig::default();
    match start_plan(&config, &RebalanceCalculator::new(), &wallet, &desired) {
        PlanStart::Convert { plan, diffs } => {
            assert!(plan.is_empty());
            let symbols: Vec<&str> = diffs.iter().map(|x| x.symbol.as_str()).collect();
            assert_eq!(symbols, vec!["A", "B"]);
        }
        PlanStart::Finished(_) => panic!("expected differences"),
    }
    config.max_orders_per_cycle = 1;
    config.dry_run = true;
    match start_plan(&config, &RebalanceCalculator::new(), &wallet, &desired) {
        PlanStart::Convert { plan, diffs } => {
            assert_eq!(diffs.len(), 1);
            assert_eq!(diffs[0].symbol, "A");
            assert!(plan.dry_run);
        }
        PlanStart::Finished(_) => panic!("expected differences"),
    }
}

#[test]
fn action_from_market_builds_lot_orders() {
    let wallet = unbalanced_wallet();
    let mut desired = DesiredAllocation::new();
    desired.set("A", d(50, 0));
    desired.set("B", d(50, 0));
    let diffs = RebalanceCalculator::new().calculate_diffs(&wallet, &desired);
    let config = BalancerConfig::default();
    let sell = action_from_market(&config, &wallet, &diffs[0], "X", 1, MarketStatus::Open, &usd(d(100, 0)))
        .unwrap();
    assert_eq!(sell.direction, OrderDirection::Sell);
    assert_eq!(sell.lots, 30);
    assert_eq!(sell.estimated_value.amount(), d(3000, 0));
    let buy = action_from_market(&config, &wallet, &diffs[1], "X", 10, MarketStatus::Open, &usd(d(100, 0)))
        .unwrap();
    assert_eq!(buy.direction, OrderDirection::Buy);
    assert_eq!(buy.lots, 3);
    assert_eq!(buy.estimated_price.amount(), d(1000, 0));
    assert!(action_from_market(&config, &wallet, &diffs[1], "X", 1, MarketStatus::Closed, &usd(d(100, 0)))
        .is_none());
}

#[test]
fn engine_execution_decisions() {
    let plan = RebalancePlanBuilder::new("USD")
        .sell("A", "X", 1, usd(d(10, 0)), d(0, 0), d(0, 0))
        .buy("B", "X", 1, usd(d(10, 0)), d(0, 0), d(0, 0))
        .build();
    assert!(plan_needs_execution(&plan));
    assert!(!plan_needs_execution(&RebalancePlan::new("USD")));

    let config = BalancerConfig::default();
    assert_eq!(delay_before(&config, 0), None);
    assert_eq!(delay_before(&config, 1), Some(1000));

    assert!(order_outcome(OrderStatus::Filled, None).is_ok());
    match order_outcome(OrderStatus::Rejected, None) {
        Err(ExchangeError::OrderRejected(m)) => assert_eq!(m, "Unknown reason"),
        other => panic!("unexpected {other:?}"),
    }
    match order_outcome(OrderStatus::Cancelled, None) {
        Err(ExchangeError::UnexpectedResponse(m)) => {
            assert_eq!(m, "Unexpected order status: Cancelled")
        }
        other => panic!("unexpected {other:?}"),
    }

    let result = finish_execution(&plan, vec![None, Some("boom".to_string())]);
    assert!(!result.success);
    assert_eq!(result.executed.len(), 1);
    assert_eq!(result.failed[0].1, "boom");
    assert_eq!(result.error.as_deref(), Some("1 of 2 trades failed"));

    match skip_missing_instrument(ExchangeError::InstrumentNotFound("Z".into())) {
        Ok(None) => {}
        other => panic!("unexpected {other:?}"),
    }
    assert!(skip_missing_instrument(ExchangeError::NetworkError("x".into())).is_err());
}

fn named(id: &str) -> AccountConfig {
    AccountConfig { id: id.into(), ..account(vec![]) }
}

#[test]
fn accounts_selected_by_account_then_user() {
    let mut config = app(vec![named("a"), named("b")]);
    let mut u1 = UserConfig::new("u1", "One");
    u1.accounts = vec![named("c"), named("b")];
    let mut u2 = UserConfig::new("u2", "Two");
    u2.accounts = vec![named("d")];
    config.users = vec![u1, u2];

    assert_eq!(select_accounts(&config, &None, &None), vec![0, 1, 2, 3, 4]);
    assert_eq!(select_accounts(&config, &Some("b".into()), &Some("u2".into())), vec![1, 3]);
    assert_eq!(select_accounts(&config, &None, &Some("u1".into())), vec![2, 3]);
    assert_eq!(select_accounts(&config, &None, &Some("u2".into())), vec![4]);
    assert!(select_accounts(&config, &None, &Some("nobody".into())).is_empty());
    assert!(select_accounts(&config, &Some("zzz".into()), &None).is_empty());
    let every = config.all_accounts();
    assert_eq!(every[3].id, "b");
}

#[test]
fn allocation_check_arithmetic() {
    let alloc = || vec![("A".to_string(), d(60, 0)), ("B".to_string(), d(40, 0))];
    let max = || Decimal::from_i128_with_scale(79228162514264337593543950335, 0);
    let big = || vec![("A".to_string(), max()), ("B".to_string(), max())];

    let fine = account(alloc());
    assert!(account_check_is_defined(&fine));
    assert_eq!(try_sum_values(&fine.desired_allocation), Some(d(100, 0)));
    assert!(app(vec![account(alloc())]).validate_is_defined());

    let huge = account(big());
    assert!(!account_check_is_defined(&huge));
    assert_eq!(try_sum_values(&huge.desired_allocation), None);
    assert!(!app(vec![account(alloc()), account(big())]).validate_is_defined());
}
