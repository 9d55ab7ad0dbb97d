use trader_bot::domain::{Decimal, DesiredAllocation, Money, Order, Position};
use trader_bot::simulator::{should_rebalance, PriceModel, ScenarioCheck, ScenarioResult, SimulatedExchange};
use trader_bot::strategy::engine::{
    action_from_market, calculator_for, finish_execution, order_outcome, plan_needs_execution,
    start_plan, PlanStart,
};
use trader_bot::strategy::{BalancerConfig, RebalancePlan, RebalanceResult};

fn d(mantissa: i64, scale: u32) -> Decimal {
    Decimal::new(mantissa, scale)
}

/// Builds the rebalancing plan of an account from the simulator's wallet, instruments and
/// prices, as the engine does.
fn create_plan(exchange: &mut SimulatedExchange, config: &BalancerConfig, account: &str, target: &DesiredAllocation) -> RebalancePlan {
    let calculator = calculator_for(config);
    let wallet = exchange.get_wallet(account).unwrap();
    match start_plan(config, &calculator, &wallet, target) {
        PlanStart::Finished(plan) => plan,
        PlanStart::Convert { mut plan, diffs } => {
            for diff in &diffs {
                let instrument = exchange.get_instrument(&diff.symbol).unwrap();
                let data = exchange.get_market_data(&diff.symbol).unwrap();
                if let Some(action) = action_from_market(
                    config,
                    &wallet,
                    diff,
                    &instrument.exchange,
                    instrument.lot_size,
                    data.market_status,
                    &data.last_price,
                ) {
                    plan.add_action(action);
                }
            }
            plan
        }
    }
}

/// Places a plan's orders on the simulator in order, with no waiting between them.
fn execute_plan(exchange: &mut SimulatedExchange, account: &str, plan: &RebalancePlan) -> RebalanceResult {
    if !plan_needs_execution(plan) {
        return RebalanceResult::success(plan.duplicate(), Vec::new());
    }
    let mut outcomes = Vec::new();
    for (i, action) in plan.actions.iter().enumerate() {
        let id = format!("ORD-{i}");
        let order = Order::market(&id, &action.symbol, &action.exchange, action.direction, action.lots);
        let outcome = match exchange.place_order(account, order) {
            Ok(placed) => order_outcome(placed.status(), placed.message()),
            Err(e) => Err(e),
        };
        outcomes.push(outcome.err().map(|e| e.to_string()));
    }
    finish_execution(plan, outcomes)
}

fn rebalance(exchange: &mut SimulatedExchange, config: &BalancerConfig, account: &str, target: &DesiredAllocation) -> RebalanceResult {
    let plan = create_plan(exchange, config, account, target);
    execute_plan(exchange, account, &plan)
}

fn plan_config(tolerance: Option<Decimal>) -> BalancerConfig {
    let base = BalancerConfig { dry_run: true, order_delay_ms: 0, ..BalancerConfig::default() };
    match tolerance {
        Some(t) => BalancerConfig { tolerance_percent: t, ..base },
        None => base,
    }
}

fn held(symbol: &str, quantity: i64) -> Position {
    Position::builder(symbol, "SIMULATOR")
        .quantity(d(quantity, 0))
        .lot_size(1)
        .current_price(Money::new(d(100, 0), "USD"))
        .build()
}

fn quick_config() -> BalancerConfig {
    BalancerConfig { order_delay_ms: 0, dry_run: false, ..BalancerConfig::default() }
}

#[test]
fn test_full_rebalancing_workflow() {
    let mut exchange = SimulatedExchange::new("USD");
    exchange.add_instrument("AAPL", "Apple", d(150, 0), 1);
    exchange.add_instrument("GOOGL", "Alphabet", d(2800, 0), 1);
    exchange.add_instrument("MSFT", "Microsoft", d(400, 0), 1);
    exchange.create_account("test_account", d(100000, 0));

    let mut target = DesiredAllocation::new();
    target.set("AAPL", d(40, 0));
    target.set("GOOGL", d(30, 0));
    target.set("MSFT", d(30, 0));

    let result = rebalance(&mut exchange, &quick_config(), "test_account", &target);
    assert!(result.success);
    assert!(!result.executed.is_empty());

    let wallet = exchange.get_wallet("test_account").unwrap();
    let aapl = wallet.current_allocation().get("AAPL").unwrap_or(d(0, 0));
    let gap = aapl.checked_sub(&d(40, 0)).unwrap().abs();
    assert!(gap.lt(&d(5, 0)), "AAPL should be ~40%, was {}", aapl.to_string());
}

#[test]
fn test_rebalancing_with_existing_positions() {
    let mut exchange = SimulatedExchange::new("USD");
    exchange.add_instrument("A", "Stock A", d(100, 0), 1);
    exchange.add_instrument("B", "Stock B", d(100, 0), 1);
    exchange.create_account("test", d(5000, 0));
    let position = Position::builder("A", "SIMULATOR")
        .quantity(d(50, 0))
        .lot_size(1)
        .current_price(Money::new(d(100, 0), "USD"))
        .build();
    exchange.add_position("test", position);

    let mut target = DesiredAllocation::new();
    target.set("A", d(50, 0));
    target.set("B", d(50, 0));

    let result = rebalance(&mut exchange, &quick_config(), "test", &target);
    assert!(result.success);
    let wallet = exchange.get_wallet("test").unwrap();
    assert!(wallet.get_position("B").is_some());
}

#[test]
fn test_dry_run_no_trades() {
    let mut exchange = SimulatedExchange::new("USD");
    exchange.add_instrument("X", "Stock X", d(100, 0), 1);
    exchange.create_account("dry_test", d(10000, 0));

    let mut target = DesiredAllocation::new();
    target.set("X", d(100, 0));

    let config = BalancerConfig { dry_run: true, order_delay_ms: 0, ..BalancerConfig::default() };
    let result = rebalance(&mut exchange, &config, "dry_test", &target);
    assert!(result.executed.is_empty());

    let wallet = exchange.get_wallet("dry_test").unwrap();
    assert_eq!(wallet.position_count(), 0);
    assert_eq!(wallet.cash().amount(), d(10000, 0));
}

#[test]
fn test_balanced_portfolio_no_trades() {
    let mut exchange = SimulatedExchange::new("USD");
    exchange.add_instrument("A", "Stock A", d(100, 0), 1);
    exchange.add_instrument("B", "Stock B", d(100, 0), 1);
    exchange.create_account("balanced", d(0, 0));
    for symbol in ["A", "B"] {
        exchange.add_position(
            "balanced",
            Position::builder(symbol, "SIMULATOR")
                .quantity(d(50, 0))
                .lot_size(1)
                .current_price(Money::new(d(100, 0), "USD"))
                .build(),
        );
    }

    let mut target = DesiredAllocation::new();
    target.set("A", d(50, 0));
    target.set("B", d(50, 0));

    let config = BalancerConfig { order_delay_ms: 0, tolerance_percent: d(1, 0), ..BalancerConfig::default() };
    let result = rebalance(&mut exchange, &config, "balanced", &target);
    assert!(result.plan.is_empty() || result.executed.is_empty());
}

#[test]
fn test_plan_mode_creates_plan_without_executing() {
    let mut exchange = SimulatedExchange::new("USD");
    exchange.add_instrument("AAPL", "Apple", d(150, 0), 1);
    exchange.add_instrument("GOOGL", "Alphabet", d(2800, 0), 1);
    exchange.create_account("plan_test", d(100000, 0));

    let mut target = DesiredAllocation::new();
    target.set("AAPL", d(60, 0));
    target.set("GOOGL", d(40, 0));

    let plan = create_plan(&mut exchange, &plan_config(None), "plan_test", &target);
    assert!(!plan.is_empty(), "Plan should have actions");
    assert_eq!(plan.actions.len(), 2, "Should have 2 buy actions");

    let wallet = exchange.get_wallet("plan_test").unwrap();
    assert_eq!(wallet.position_count(), 0, "Should have no positions");
    assert_eq!(wallet.cash().amount(), d(100000, 0), "Cash should be unchanged");
}

#[test]
fn test_plan_mode_collects_all_orders() {
    let mut exchange = SimulatedExchange::new("USD");
    exchange.add_instrument("A", "Stock A", d(100, 0), 1);
    exchange.add_instrument("B", "Stock B", d(50, 0), 1);
    exchange.add_instrument("C", "Stock C", d(200, 0), 1);
    exchange.create_account("multi_test", d(10000, 0));

    let mut target = DesiredAllocation::new();
    target.set("A", d(40, 0));
    target.set("B", d(30, 0));
    target.set("C", d(30, 0));

    let plan = create_plan(&mut exchange, &plan_config(None), "multi_test", &target);
    assert_eq!(plan.actions.len(), 3, "Should have 3 planned actions");
    assert!(plan.total_buy_value.amount().gt(&d(0, 0)), "Should have buy value");
}

#[test]
fn test_plan_mode_with_already_balanced_portfolio() {
    let mut exchange = SimulatedExchange::new("USD");
    exchange.add_instrument("A", "Stock A", d(100, 0), 1);
    exchange.add_instrument("B", "Stock B", d(100, 0), 1);
    exchange.create_account("balanced_test", d(0, 0));
    exchange.add_position("balanced_test", held("A", 50));
    exchange.add_position("balanced_test", held("B", 50));

    let mut target = DesiredAllocation::new();
    target.set("A", d(50, 0));
    target.set("B", d(50, 0));

    let plan = create_plan(&mut exchange, &plan_config(Some(d(1, 0))), "balanced_test", &target);
    assert!(plan.is_empty(), "Plan should be empty for balanced portfolio");
    assert!(plan.empty_reason.is_some(), "Should have reason for empty plan");
}

#[test]
fn test_plan_mode_shows_sell_and_buy_orders() {
    let mut exchange = SimulatedExchange::new("USD");
    exchange.add_instrument("A", "Stock A", d(100, 0), 1);
    exchange.add_instrument("B", "Stock B", d(100, 0), 1);
    exchange.create_account("rebalance_test", d(0, 0));
    exchange.add_position("rebalance_test", held("A", 80));
    exchange.add_position("rebalance_test", held("B", 20));

    let mut target = DesiredAllocation::new();
    target.set("A", d(50, 0));
    target.set("B", d(50, 0));

    let plan = create_plan(&mut exchange, &plan_config(Some(d(1, 0))), "rebalance_test", &target);
    assert!(!plan.is_empty());
    assert!(plan.actions.iter().any(|a| a.is_sell()), "Should have sell action for A");
    assert!(plan.actions.iter().any(|a| a.is_buy()), "Should have buy action for B");
}

/// A market scenario: an account with cash and positions, instruments with price models,
/// a target allocation rebalanced every few ticks, and a smallest acceptable final value.
struct Scenario {
    name: &'static str,
    cash: Decimal,
    instruments: Vec<(&'static str, &'static str, Decimal, u32)>,
    positions: Vec<(&'static str, Decimal, Decimal)>,
    targets: Vec<(&'static str, Decimal)>,
    models: Vec<(&'static str, PriceModel)>,
    ticks: usize,
    rebalance_interval: usize,
    dry_run: bool,
    min_value: Option<Decimal>,
}

impl Scenario {
    fn new(name: &'static str) -> Scenario {
        Scenario {
            name,
            cash: d(10000, 0),
            instruments: Vec::new(),
            positions: Vec::new(),
            targets: Vec::new(),
            models: Vec::new(),
            ticks: 100,
            rebalance_interval: 10,
            dry_run: false,
            min_value: None,
        }
    }

    /// Ticks the market, rebalances at the interval, and checks the final value.
    fn run(&self) -> ScenarioResult {
        let account = "scenario_account";
        let mut result = ScenarioResult::new(self.name);
        let mut exchange = SimulatedExchange::new("USD");
        for (symbol, name, price, lot_size) in &self.instruments {
            exchange.add_instrument(symbol, name, *price, *lot_size);
        }
        exchange.create_account(account, self.cash);
        for (symbol, model) in &self.models {
            exchange.set_price_model(symbol, *model);
        }
        for (symbol, quantity, price) in &self.positions {
            let lot_size = exchange.market().get_instrument(symbol).map(|i| i.lot_size);
            if let Some(lot_size) = lot_size {
                let position = Position::builder(symbol, "SIMULATOR")
                    .quantity(*quantity)
                    .lot_size(lot_size)
                    .current_price(Money::new(*price, "USD"))
                    .average_cost(Money::new(*price, "USD"))
                    .build();
                exchange.add_position(account, position);
            }
        }
        let mut target = DesiredAllocation::new();
        for (symbol, pct) in &self.targets {
            target.set(symbol, *pct);
        }
        let config = BalancerConfig { dry_run: self.dry_run, order_delay_ms: 0, ..BalancerConfig::default() };

        result.initial_value = exchange.get_wallet(account).unwrap().total_value().amount();
        for tick in 0..self.ticks {
            exchange.tick();
            if should_rebalance(tick, self.rebalance_interval) {
                let cycle = rebalance(&mut exchange, &config, account, &target);
                result.record_cycle(cycle);
            }
        }
        result.final_value = exchange.get_wallet(account).unwrap().total_value().amount();
        result.calculate_return();
        if let Some(min) = self.min_value {
            let check = ScenarioCheck::MinValue(min);
            if !check.check(&result) {
                result.fail(&format!("Assertion failed: {}", check.description()));
            }
        }
        result
    }
}

#[test]
fn test_simple_scenario() {
    let scenario = Scenario {
        cash: d(10000, 0),
        instruments: vec![("A", "Stock A", d(100, 0), 1), ("B", "Stock B", d(100, 0), 1)],
        targets: vec![("A", d(50, 0)), ("B", d(50, 0))],
        ticks: 20,
        rebalance_interval: 5,
        min_value: Some(d(9000, 0)),
        ..Scenario::new("Simple rebalance test")
    };
    let result = scenario.run();
    assert!(result.passed, "Scenario failed: {:?}", result.failure_reason);
    assert!(result.cycles > 0);
}

#[test]
fn test_scenario_with_initial_positions() {
    let scenario = Scenario {
        cash: d(5000, 0),
        instruments: vec![("A", "Stock A", d(100, 0), 1), ("B", "Stock B", d(100, 0), 1)],
        positions: vec![("A", d(30, 0), d(100, 0))],
        targets: vec![("A", d(40, 0)), ("B", d(40, 0))],
        ticks: 10,
        rebalance_interval: 5,
        ..Scenario::new("Rebalance with existing positions")
    };
    let result = scenario.run();
    assert!(result.passed, "Scenario failed: {:?}", result.failure_reason);
}

#[test]
fn test_dry_run_scenario() {
    let scenario = Scenario {
        cash: d(10000, 0),
        instruments: vec![("A", "Stock A", d(100, 0), 1)],
        targets: vec![("A", d(50, 0))],
        ticks: 20,
        rebalance_interval: 5,
        dry_run: true,
        ..Scenario::new("Dry run test")
    };
    let result = scenario.run();
    assert!(result.passed);
    assert_eq!(result.total_trades, 0);
}

#[test]
fn test_scenario_basic_rebalancing() {
    let scenario = Scenario {
        cash: d(50000, 0),
        instruments: vec![("X", "Stock X", d(100, 0), 1), ("Y", "Stock Y", d(200, 0), 1)],
        targets: vec![("X", d(60, 0)), ("Y", d(40, 0))],
        ticks: 30,
        rebalance_interval: 10,
        min_value: Some(d(45000, 0)),
        ..Scenario::new("Basic rebalancing")
    };
    let result = scenario.run();
    assert!(result.passed, "Scenario failed: {:?}", result.failure_reason);
    assert!(result.cycles > 0, "Should have run at least one rebalance cycle");
    assert!(result.total_trades > 0, "Should have made some trades");
}

#[test]
fn test_scenario_with_volatile_market() {
    let scenario = Scenario {
        cash: d(100000, 0),
        instruments: vec![("VOL", "Volatile Stock", d(100, 0), 1)],
        targets: vec![("VOL", d(80, 0))],
        models: vec![("VOL", PriceModel::RandomWalk { volatility: d(10, 0) })],
        ticks: 50,
        rebalance_interval: 10,
        min_value: Some(d(50000, 0)),
        ..Scenario::new("Volatile market")
    };
    let result = scenario.run();
    assert!(result.passed, "Scenario failed: {:?}", result.failure_reason);
}

#[test]
fn scenario_schedule_and_checks() {
    assert!(!should_rebalance(0, 5));
    assert!(!should_rebalance(4, 5));
    assert!(should_rebalance(5, 5));
    assert!(should_rebalance(10, 5));
    let mut result = ScenarioResult::new("checks");
    result.final_value = d(9500, 0);
    result.return_percent = d(-5, 0);
    result.total_trades = 3;
    assert!(ScenarioCheck::MinValue(d(9000, 0)).check(&result));
    assert!(!ScenarioCheck::MaxValue(d(9000, 0)).check(&result));
    assert!(!ScenarioCheck::MinReturn(d(0, 0)).check(&result));
    assert!(ScenarioCheck::MaxTrades(3).check(&result));
    assert!(!ScenarioCheck::MaxTrades(2).check(&result));
    assert!(ScenarioCheck::AllocationWithinTolerance(d(1, 0)).check(&result));
    assert_eq!(ScenarioCheck::MinValue(d(9000, 0)).description(), "Portfolio value >= 9000");
    assert_eq!(ScenarioCheck::MaxValue(d(15, 1)).description(), "Portfolio value <= 1.5");
    assert_eq!(ScenarioCheck::MinReturn(d(5, 0)).description(), "Return >= 5%");
    assert_eq!(ScenarioCheck::MaxTrades(7).description(), "Total trades <= 7");
    assert_eq!(
        ScenarioCheck::AllocationWithinTolerance(d(2, 0)).description(),
        "Allocation within 2% of target"
    );
}
