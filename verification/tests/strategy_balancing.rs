use trader_bot::exchange::MarketStatus;
use trader_bot::simulator::ScenarioResult;
use trader_bot::strategy::calculator::diffs_are_defined;
use trader_bot::strategy::engine::action_is_defined;
use trader_bot::domain::{Decimal, DesiredAllocation, Money, OrderDirection, Position, Wallet};
use trader_bot::strategy::calculator::AssetMetrics;
use trader_bot::strategy::{
    AllocationDiff, BalancerConfig, RebalanceAction, RebalanceCalculator, RebalancePlan,
    RebalancePlanBuilder, RebalanceResult,
};

fn d(mantissa: i64, scale: u32) -> Decimal {
    Decimal::new(mantissa, scale)
}

fn make_usd(amount: Decimal) -> Money {
    Money::new(amount, "USD")
}

fn create_test_wallet() -> Wallet {
    let mut wallet = Wallet::with_cash("USD", make_usd(d(1000, 0)));
    wallet.add_position(Position::new("AAPL", "NASDAQ", d(10, 0), make_usd(d(100, 0))));
    wallet.add_position(Position::new("GOOGL", "NASDAQ", d(10, 0), make_usd(d(200, 0))));
    wallet.add_position(Position::new("MSFT", "NASDAQ", d(10, 0), make_usd(d(100, 0))));
    wallet
}

fn diff(symbol: &str, current: i64, desired: i64, value: i64) -> AllocationDiff {
    AllocationDiff {
        symbol: symbol.to_string(),
        current_percent: d(current, 0),
        desired_percent: d(desired, 0),
        diff_percent: d(desired - current, 0),
        current_value: d(current * 100, 0),
        desired_value: d(desired * 100, 0),
        diff_value: d(value, 0),
    }
}

#[test]
fn test_calculate_diffs() {
    let wallet = create_test_wallet();

    let mut desired = DesiredAllocation::new();
    desired.set("AAPL", d(30, 0));
    desired.set("GOOGL", d(30, 0));
    desired.set("MSFT", d(20, 0));

    let calc = RebalanceCalculator::new();
    let diffs = calc.calculate_diffs(&wallet, &desired);

    let aapl_diff = diffs.iter().find(|x| x.symbol == "AAPL").unwrap();
    assert_eq!(aapl_diff.current_percent, d(20, 0));
    assert_eq!(aapl_diff.desired_percent, d(30, 0));
    assert_eq!(aapl_diff.diff_percent, d(10, 0));
    assert!(aapl_diff.needs_buy());

    let googl_diff = diffs.iter().find(|x| x.symbol == "GOOGL").unwrap();
    assert_eq!(googl_diff.current_percent, d(40, 0));
    assert_eq!(googl_diff.desired_percent, d(30, 0));
    assert!(googl_diff.needs_sell());
}

#[test]
fn calculate_diffs_covers_both_sides_in_symbol_order() {
    let wallet = create_test_wallet();
    let mut desired = DesiredAllocation::new();
    desired.set("TSLA", d(10, 0));
    desired.set("AAPL", d(20, 0));
    let calc = RebalanceCalculator::new();
    let diffs = calc.calculate_diffs(&wallet, &desired);
    let symbols: Vec<&str> = diffs.iter().map(|x| x.symbol.as_str()).collect();
    assert_eq!(symbols, vec!["AAPL", "GOOGL", "MSFT", "TSLA"]);
    let googl = &diffs[1];
    assert_eq!(googl.desired_percent, d(0, 0));
    assert_eq!(googl.diff_value, d(-2000, 0));
    let tsla = &diffs[3];
    assert_eq!(tsla.current_value, d(0, 0));
    assert_eq!(tsla.desired_value, d(500, 0));
}

#[test]
fn test_filter_significant_diffs() {
    let diffs = vec![
        AllocationDiff {
            symbol: "A".into(),
            current_percent: d(10, 0),
            desired_percent: d(103, 1),
            diff_percent: d(3, 1),
            current_value: d(1000, 0),
            desired_value: d(1030, 0),
            diff_value: d(30, 0),
        },
        AllocationDiff {
            symbol: "B".into(),
            current_percent: d(20, 0),
            desired_percent: d(25, 0),
            diff_percent: d(5, 0),
            current_value: d(2000, 0),
            desired_value: d(2500, 0),
            diff_value: d(500, 0),
        },
    ];

    let calc = RebalanceCalculator::new();
    let significant = calc.filter_significant_diffs(diffs);

    assert_eq!(significant.len(), 1);
    assert_eq!(significant[0].symbol, "B");
}

#[test]
fn filter_keeps_order_and_uses_value_threshold() {
    let calc = RebalanceCalculator::new().with_min_trade_value(d(100, 0));
    let diffs = vec![diff("A", 10, 20, 90), diff("B", 10, 20, 500), diff("C", 30, 20, -200)];
    let kept = calc.filter_significant_diffs(diffs);
    let symbols: Vec<&str> = kept.iter().map(|x| x.symbol.as_str()).collect();
    assert_eq!(symbols, vec!["B", "C"]);
}

#[test]
fn test_sort_by_priority() {
    let diffs = vec![
        AllocationDiff {
            symbol: "BUY_SMALL".into(),
            current_percent: d(10, 0),
            desired_percent: d(15, 0),
            diff_percent: d(5, 0),
            current_value: d(1000, 0),
            desired_value: d(1500, 0),
            diff_value: d(500, 0),
        },
        AllocationDiff {
            symbol: "SELL_BIG".into(),
            current_percent: d(30, 0),
            desired_percent: d(20, 0),
            diff_percent: d(-10, 0),
            current_value: d(3000, 0),
            desired_value: d(2000, 0),
            diff_value: d(-1000, 0),
        },
        AllocationDiff {
            symbol: "BUY_BIG".into(),
            current_percent: d(5, 0),
            desired_percent: d(20, 0),
            diff_percent: d(15, 0),
            current_value: d(500, 0),
            desired_value: d(2000, 0),
            diff_value: d(1500, 0),
        },
    ];

    let calc = RebalanceCalculator::new();
    let sorted = calc.sort_by_priority(diffs);

    assert_eq!(sorted[0].symbol, "SELL_BIG");
    assert_eq!(sorted[1].symbol, "BUY_BIG");
    assert_eq!(sorted[2].symbol, "BUY_SMALL");
}

#[test]
fn sort_by_priority_orders_sells_by_size_too() {
    let calc = RebalanceCalculator::new();
    let sorted = calc.sort_by_priority(vec![
        diff("S1", 30, 20, -100),
        diff("B1", 10, 20, 50),
        diff("S2", 30, 20, -700),
        diff("B2", 10, 20, 900),
    ]);
    let symbols: Vec<&str> = sorted.iter().map(|x| x.symbol.as_str()).collect();
    assert_eq!(symbols, vec!["S2", "S1", "B2", "B1"]);
}

#[test]
fn test_is_balanced() {
    let mut wallet = Wallet::with_cash("USD", make_usd(d(0, 0)));
    wallet.add_position(Position::new("A", "X", d(50, 0), make_usd(d(100, 0))));
    wallet.add_position(Position::new("B", "X", d(50, 0), make_usd(d(100, 0))));

    let mut desired = DesiredAllocation::new();
    desired.set("A", d(50, 0));
    desired.set("B", d(50, 0));

    let calc = RebalanceCalculator::new();
    assert!(calc.is_balanced(&wallet, &desired));
    assert_eq!(calc.max_deviation(&wallet, &desired), d(0, 0));
}

#[test]
fn unbalanced_wallet_reports_deviation() {
    let wallet = create_test_wallet();
    let mut desired = DesiredAllocation::new();
    desired.set("AAPL", d(30, 0));
    desired.set("GOOGL", d(30, 0));
    desired.set("MSFT", d(20, 0));
    let calc = RebalanceCalculator::new();
    assert!(!calc.is_balanced(&wallet, &desired));
    assert_eq!(calc.max_deviation(&wallet, &desired), d(10, 0));
}

#[test]
fn test_calculate_lots() {
    let calc = RebalanceCalculator::new();
    assert_eq!(calc.calculate_lots(d(1000, 0), d(100, 0), 1), 10);
    assert_eq!(calc.calculate_lots(d(550, 0), d(100, 0), 1), 5);
}

#[test]
fn calculate_lots_edge_cases() {
    let calc = RebalanceCalculator::new();
    assert_eq!(calc.calculate_lots(d(-550, 0), d(100, 0), 1), 5);
    assert_eq!(calc.calculate_lots(d(550, 0), d(0, 0), 1), 0);
    assert_eq!(calc.calculate_lots(d(0, 0), d(100, 0), 1), 0);
}

#[test]
fn estimate_total_trade_value_sums_magnitudes() {
    let calc = RebalanceCalculator::new();
    let total = calc.estimate_total_trade_value(&[diff("A", 1, 2, 300), diff("B", 2, 1, -200)]);
    assert_eq!(total.amount(), d(500, 0));
}

#[test]
fn test_asset_metrics_market_cap_allocation() {
    let mut metrics = AssetMetrics::new();
    metrics.add("A", Some(d(1000, 0)), None);
    metrics.add("B", Some(d(3000, 0)), None);
    metrics.add("C", Some(d(6000, 0)), None);

    let alloc = metrics.calculate_market_cap_allocation();

    assert_eq!(alloc.get("A"), Some(d(10, 0)));
    assert_eq!(alloc.get("B"), Some(d(30, 0)));
    assert_eq!(alloc.get("C"), Some(d(60, 0)));
}

#[test]
fn test_decorrelation_allocation() {
    let mut metrics = AssetMetrics::new();
    metrics.add("A", Some(d(2000, 0)), Some(d(1000, 0)));
    metrics.add("B", Some(d(1000, 0)), Some(d(2000, 0)));

    let alloc = metrics.calculate_decorrelation_allocation();

    assert_eq!(alloc.get("A"), Some(d(80, 0)));
    assert_eq!(alloc.get("B"), Some(d(20, 0)));
}

#[test]
fn metrics_skip_missing_values() {
    let mut metrics = AssetMetrics::new();
    metrics.add("A", None, Some(d(100, 0)));
    metrics.add("B", Some(d(100, 0)), Some(d(300, 0)));
    let caps = metrics.calculate_market_cap_allocation();
    assert_eq!(caps.get("A"), None);
    assert_eq!(caps.get("B"), Some(d(100, 0)));
    let aum = metrics.calculate_aum_allocation();
    assert_eq!(aum.get("A"), Some(d(25, 0)));
    assert_eq!(aum.get("B"), Some(d(75, 0)));
    assert!(AssetMetrics::new().calculate_market_cap_allocation().is_empty());
}

#[test]
fn test_rebalance_plan_builder() {
    let plan = RebalancePlanBuilder::new("USD")
        .sell("GOOGL", "NASDAQ", 5, make_usd(d(100, 0)), d(40, 0), d(30, 0))
        .buy("AAPL", "NASDAQ", 3, make_usd(d(150, 0)), d(20, 0), d(30, 0))
        .build();

    assert_eq!(plan.trade_count, 2);
    assert_eq!(plan.sell_count(), 1);
    assert_eq!(plan.buy_count(), 1);
    assert_eq!(plan.total_sell_value.amount(), d(500, 0));
    assert_eq!(plan.total_buy_value.amount(), d(450, 0));
}

#[test]
fn test_empty_plan() {
    let plan = RebalancePlan::empty_with_reason("USD", "Portfolio already balanced");
    assert!(plan.is_empty());
    assert_eq!(plan.empty_reason, Some("Portfolio already balanced".into()));
}

#[test]
fn test_plan_summary() {
    let plan = RebalancePlanBuilder::new("USD")
        .sell("A", "X", 10, make_usd(d(100, 0)), d(30, 0), d(20, 0))
        .buy("B", "X", 5, make_usd(d(200, 0)), d(10, 0), d(20, 0))
        .build();

    let summary = plan.summary();
    assert!(summary.contains("2 trades"));
    assert!(summary.contains("1 sells"));
    assert!(summary.contains("1 buys"));
}

#[test]
fn plan_summary_exact_text() {
    let plan = RebalancePlanBuilder::new("USD")
        .sell("A", "X", 10, make_usd(d(100, 0)), d(30, 0), d(20, 0))
        .buy("B", "X", 5, make_usd(d(200, 0)), d(10, 0), d(20, 0))
        .build();
    assert_eq!(
        plan.summary(),
        "2 trades (1 sells for 1000 USD, 1 buys for 1000 USD)"
    );
    assert_eq!(RebalancePlan::new("USD").summary(), "No rebalancing needed");
    assert_eq!(
        RebalancePlan::empty_with_reason("USD", "balanced").summary(),
        "balanced"
    );
}

#[test]
fn test_action_direction() {
    let buy_action = RebalanceAction {
        symbol: "A".into(),
        exchange: "X".into(),
        direction: OrderDirection::Buy,
        lots: 1,
        estimated_price: make_usd(d(100, 0)),
        estimated_value: make_usd(d(100, 0)),
        current_percent: d(10, 0),
        target_percent: d(20, 0),
        priority: 0,
    };

    assert!(buy_action.is_buy());
    assert!(!buy_action.is_sell());
}

#[test]
fn plan_sort_by_priority_is_stable() {
    let mut plan = RebalancePlan::new("USD");
    for (symbol, priority) in [("C", 2u32), ("A", 0), ("B", 2), ("D", 1)] {
        plan.add_action(RebalanceAction {
            symbol: symbol.into(),
            exchange: "X".into(),
            direction: OrderDirection::Sell,
            lots: 1,
            estimated_price: make_usd(d(1, 0)),
            estimated_value: make_usd(d(1, 0)),
            current_percent: d(0, 0),
            target_percent: d(0, 0),
            priority,
        });
    }
    plan.sort_by_priority();
    let symbols: Vec<&str> = plan.actions.iter().map(|a| a.symbol.as_str()).collect();
    assert_eq!(symbols, vec!["A", "D", "C", "B"]);
    assert_eq!(plan.sells().len(), 4);
    assert_eq!(plan.total_sell_value.amount(), d(4, 0));
}

#[test]
fn test_balancer_config_default() {
    let config = BalancerConfig::default();
    assert!(!config.dry_run);
    assert_eq!(config.order_delay_ms, 1000);
    assert_eq!(config.max_orders_per_cycle, 20);
}

#[test]
fn test_rebalance_result_success() {
    let plan = RebalancePlan::new("USD");
    let result = RebalanceResult::success(plan, Vec::new());
    assert!(result.success);
    assert!(result.error.is_none());
}

#[test]
fn test_rebalance_result_failure() {
    let plan = RebalancePlan::new("USD");
    let result = RebalanceResult::failure(plan, "Test error");
    assert!(!result.success);
    assert_eq!(result.error, Some("Test error".into()));
}

#[test]
fn deviation_within_tolerance_is_balanced() {
    let wallet = create_test_wallet();
    let mut desired = DesiredAllocation::new();
    desired.set("AAPL", d(30, 0));
    desired.set("GOOGL", d(30, 0));
    desired.set("MSFT", d(20, 0));
    let calc = RebalanceCalculator::new().with_tolerance_percent(d(10, 0));
    assert_eq!(calc.max_deviation(&wallet, &desired), d(10, 0));
    assert!(calc.is_balanced(&wallet, &desired));
}

#[test]
fn metrics_add_replaces_a_symbol() {
    let mut metrics = AssetMetrics::new();
    metrics.add("A", Some(d(1000, 0)), None);
    metrics.add("B", Some(d(1000, 0)), None);
    metrics.add("A", Some(d(3000, 0)), Some(d(5, 0)));
    assert_eq!(metrics.data.len(), 2);
    assert_eq!(metrics.data[0].0, "A");
    assert_eq!(metrics.data[0].1.market_cap, Some(d(3000, 0)));
    assert_eq!(metrics.data[0].1.aum, Some(d(5, 0)));
    let alloc = metrics.calculate_market_cap_allocation();
    assert_eq!(alloc.get("A"), Some(d(75, 0)));
    assert_eq!(alloc.get("B"), Some(d(25, 0)));
}

#[test]
fn plan_splits_buys_and_sells() {
    let plan = RebalancePlanBuilder::new("USD")
        .buy("AAPL", "NASDAQ", 3, make_usd(d(150, 0)), d(20, 0), d(30, 0))
        .sell("GOOGL", "NASDAQ", 5, make_usd(d(100, 0)), d(40, 0), d(30, 0))
        .buy("MSFT", "NASDAQ", 1, make_usd(d(400, 0)), d(0, 0), d(10, 0))
        .build();
    let buys: Vec<String> = plan.buys().iter().map(|a| a.symbol.clone()).collect();
    let sells: Vec<String> = plan.sells().iter().map(|a| a.symbol.clone()).collect();
    assert_eq!(buys, vec!["AAPL".to_string(), "MSFT".to_string()]);
    assert_eq!(sells, vec!["GOOGL".to_string()]);
}

fn huge() -> Decimal {
    Decimal::from_i128_with_scale(79228162514264337593543950335, 0)
}

#[test]
fn definedness_checks_match_the_arithmetic() {

    let wallet = create_test_wallet();
    let mut desired = DesiredAllocation::new();
    desired.set("AAPL", d(50, 0));
    desired.set("GOOGL", d(50, 0));
    assert!(wallet.total_is_defined());
    assert!(wallet.allocation_is_defined());
    assert!(diffs_are_defined(&wallet, &desired));

    let mut rich = Wallet::with_cash("USD", make_usd(d(1, 0)));
    rich.add_position(Position::new("X", "EX", d(2, 0), make_usd(huge())));
    assert!(!rich.total_is_defined());
    assert!(!rich.allocation_is_defined());
    assert!(!diffs_are_defined(&rich, &desired));

    let diffs = RebalanceCalculator::new().calculate_diffs(&wallet, &desired);
    let config = BalancerConfig::default();
    let price = make_usd(d(100, 0));
    assert!(action_is_defined(&config, &wallet, &diffs[0], 1, MarketStatus::Open, &price));
    assert!(!action_is_defined(&config, &wallet, &diffs[0], 2, MarketStatus::Open, &make_usd(huge())));
    assert!(action_is_defined(&config, &wallet, &diffs[0], 2, MarketStatus::Closed, &make_usd(huge())));

    let plan = RebalancePlanBuilder::new("USD")
        .buy("A", "EX", 1, make_usd(huge()), d(0, 0), d(10, 0))
        .build();
    let big = RebalanceAction {
        symbol: "B".to_string(),
        exchange: "EX".to_string(),
        direction: OrderDirection::Buy,
        lots: 1,
        estimated_price: make_usd(huge()),
        estimated_value: make_usd(huge()),
        current_percent: d(0, 0),
        target_percent: d(10, 0),
        priority: 1,
    };
    assert!(!plan.can_add_action(&big));
    let modest = RebalancePlanBuilder::new("USD")
        .buy("A", "EX", 1, make_usd(d(5, 0)), d(0, 0), d(10, 0))
        .build();
    let small = RebalanceAction { estimated_value: make_usd(d(1, 0)), ..big };
    assert!(modest.can_add_action(&small));
    let other = RebalanceAction { estimated_value: Money::new(huge(), "EUR"), ..small };
    assert!(plan.can_add_action(&other));

    let mut result = ScenarioResult::new("r");
    assert!(result.return_defined());
    result.initial_value = d(100, 0);
    result.final_value = d(110, 0);
    assert!(result.return_defined());
    result.initial_value = d(1, 0);
    result.final_value = huge();
    assert!(!result.return_defined());

    let pos = Position::builder("P", "EX")
        .quantity(d(2, 0))
        .current_price(make_usd(d(10, 0)))
        .average_cost(make_usd(d(5, 0)))
        .build();
    assert!(pos.pnl_percent_is_defined());
    let zero_qty = Position::builder("P", "EX")
        .quantity(d(0, 0))
        .current_price(make_usd(d(10, 0)))
        .average_cost(make_usd(d(5, 0)))
        .build();
    assert!(!zero_qty.pnl_percent_is_defined());
}
