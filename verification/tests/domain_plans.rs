use trader_bot::domain::{
    Account, Allocation, AllocationPortion, BrokerType, ConfigValidationError, Decimal,
    DesiredAllocation, Money, PlannedOrder, PlannedOrders, StrategyType, TradingConfig, User,
};

fn d(mantissa: i64, scale: u32) -> Decimal {
    Decimal::new(mantissa, scale)
}

fn make_usd(amount: Decimal) -> Money {
    Money::new(amount, "USD")
}

fn flat_get(flat: &[(String, Decimal)], ticker: &str) -> Option<Decimal> {
    flat.iter().find(|(t, _)| t == ticker).map(|(_, p)| *p)
}

fn planned(symbol: &str, direction: &str, lots: u32, price: i64, account: &str) -> PlannedOrder {
    PlannedOrder {
        symbol: symbol.to_string(),
        exchange: "NASDAQ".to_string(),
        direction: direction.to_string(),
        lots,
        estimated_price: make_usd(d(price, 0)),
        estimated_value: make_usd(d(price * lots as i64, 0)),
        current_percent: d(20, 0),
        target_percent: d(30, 0),
        account_id: account.to_string(),
        reason: None,
    }
}

#[test]
fn test_planned_order_display() {
    let order = PlannedOrder {
        symbol: "AAPL".to_string(),
        exchange: "NASDAQ".to_string(),
        direction: "BUY".to_string(),
        lots: 10,
        estimated_price: make_usd(d(150, 0)),
        estimated_value: make_usd(d(1500, 0)),
        current_percent: d(20, 0),
        target_percent: d(30, 0),
        account_id: "acc1".to_string(),
        reason: None,
    };

    let display = order.to_string();
    assert!(display.contains("BUY"));
    assert!(display.contains("10 lots"));
    assert!(display.contains("AAPL"));
    assert!(display.contains("20.00%"));
    assert!(display.contains("30.00%"));
}

#[test]
fn plan_test_planned_orders_collection() {
    let mut planned_orders = PlannedOrders::new();
    assert!(planned_orders.is_empty());
    assert_eq!(planned_orders.total_count(), 0);

    let order1 = PlannedOrder {
        symbol: "AAPL".to_string(),
        exchange: "NASDAQ".to_string(),
        direction: "BUY".to_string(),
        lots: 10,
        estimated_price: make_usd(d(150, 0)),
        estimated_value: make_usd(d(1500, 0)),
        current_percent: d(20, 0),
        target_percent: d(30, 0),
        account_id: "acc1".to_string(),
        reason: None,
    };

    let order2 = PlannedOrder {
        symbol: "GOOGL".to_string(),
        exchange: "NASDAQ".to_string(),
        direction: "SELL".to_string(),
        lots: 5,
        estimated_price: make_usd(d(2800, 0)),
        estimated_value: make_usd(d(14000, 0)),
        current_percent: d(40, 0),
        target_percent: d(25, 0),
        account_id: "acc1".to_string(),
        reason: None,
    };

    planned_orders.add_order(order1);
    planned_orders.add_order(order2);

    assert!(!planned_orders.is_empty());
    assert_eq!(planned_orders.total_count(), 2);
    assert_eq!(planned_orders.account_count(), 1);

    let acc_orders = planned_orders.orders_for_account("acc1").unwrap();
    assert_eq!(acc_orders.len(), 2);
}

#[test]
fn test_planned_order_with_reason() {
    let order = planned("AAPL", "BUY", 10, 150, "acc1");
    let order = order.with_reason("Underweight in portfolio");
    assert_eq!(order.reason, Some("Underweight in portfolio".to_string()));
}

#[test]
fn plan_test_planned_orders_multiple_accounts() {
    let mut planned_orders = PlannedOrders::new();

    let order1 = PlannedOrder {
        symbol: "AAPL".to_string(),
        exchange: "NASDAQ".to_string(),
        direction: "BUY".to_string(),
        lots: 10,
        estimated_price: make_usd(d(150, 0)),
        estimated_value: make_usd(d(1500, 0)),
        current_percent: d(20, 0),
        target_percent: d(30, 0),
        account_id: "acc1".to_string(),
        reason: None,
    };

    let order2 = PlannedOrder {
        symbol: "MSFT".to_string(),
        exchange: "NASDAQ".to_string(),
        direction: "BUY".to_string(),
        lots: 5,
        estimated_price: make_usd(d(400, 0)),
        estimated_value: make_usd(d(2000, 0)),
        current_percent: d(10, 0),
        target_percent: d(25, 0),
        account_id: "acc2".to_string(),
        reason: None,
    };

    planned_orders.add_order(order1);
    planned_orders.add_order(order2);

    assert_eq!(planned_orders.account_count(), 2);
    assert_eq!(planned_orders.total_count(), 2);

    assert!(planned_orders.orders_for_account("acc1").is_some());
    assert!(planned_orders.orders_for_account("acc2").is_some());
    assert!(planned_orders.orders_for_account("acc3").is_none());
}

#[test]
fn planned_orders_keep_account_order_and_totals() {
    let mut planned_orders = PlannedOrders::new();
    planned_orders.add_order(planned("A", "BUY", 1, 10, "second"));
    planned_orders.add_order(planned("B", "SELL", 2, 10, "first"));
    planned_orders.add_order(planned("C", "BUY", 3, 10, "second"));
    assert_eq!(planned_orders.accounts(), vec!["second", "first"]);
    let all: Vec<&str> = planned_orders
        .all_orders()
        .iter()
        .map(|o| o.symbol.as_str())
        .collect();
    assert_eq!(all, vec!["A", "C", "B"]);
    assert!(planned_orders.total_buy_value().is_none());
    planned_orders.set_total_buy_value(make_usd(d(40, 0)));
    assert_eq!(planned_orders.total_buy_value().unwrap().amount(), d(40, 0));
}

#[test]
fn test_simple_allocation() {
    let alloc = Allocation::from_simple(&[
        ("SBER".to_string(), d(30, 0)),
        ("LKOH".to_string(), d(30, 0)),
        ("GAZP".to_string(), d(40, 0)),
    ]);

    assert!(alloc.is_balancer());
    assert!(alloc.is_valid());
    assert_eq!(alloc.portions.len(), 3);

    let flat = alloc.flatten();
    assert_eq!(flat_get(&flat, "SBER"), Some(d(30, 0)));
    assert_eq!(flat_get(&flat, "LKOH"), Some(d(30, 0)));
    assert_eq!(flat_get(&flat, "GAZP"), Some(d(40, 0)));
}

#[test]
fn test_hold_allocation() {
    let alloc = Allocation::hold("BTC");
    assert!(alloc.is_hold());
    assert_eq!(alloc.ticker, Some("BTC".to_string()));
    assert_eq!(alloc.all_tickers(), vec!["BTC".to_string()]);
}

#[test]
fn test_nested_allocation() {
    let stocks = Allocation::balancer(vec![
        AllocationPortion::hold("SBER", d(50, 0)),
        AllocationPortion::hold("LKOH", d(50, 0)),
    ]);

    let crypto = Allocation::balancer(vec![
        AllocationPortion::hold("BTC", d(70, 0)),
        AllocationPortion::hold("ETH", d(30, 0)),
    ]);

    let root = Allocation::balancer(vec![
        AllocationPortion::new(d(60, 0), stocks),
        AllocationPortion::new(d(40, 0), crypto),
    ]);

    assert!(root.is_valid());

    let flat = root.flatten();
    assert_eq!(flat_get(&flat, "SBER"), Some(d(30, 0)));
    assert_eq!(flat_get(&flat, "LKOH"), Some(d(30, 0)));
    assert_eq!(flat_get(&flat, "BTC"), Some(d(28, 0)));
    assert_eq!(flat_get(&flat, "ETH"), Some(d(12, 0)));

    let all_tickers = root.all_tickers();
    assert_eq!(all_tickers.len(), 4);
}

#[test]
fn test_normalize_allocation() {
    let mut alloc = Allocation::balancer(vec![
        AllocationPortion::hold("A", d(30, 0)),
        AllocationPortion::hold("B", d(20, 0)),
    ]);

    alloc.normalize();

    assert_eq!(alloc.portions[0].percentage, d(60, 0));
    assert_eq!(alloc.portions[1].percentage, d(40, 0));
}

#[test]
fn test_deeply_nested_allocation() {
    let level3 = Allocation::balancer(vec![
        AllocationPortion::hold("X", d(50, 0)),
        AllocationPortion::hold("Y", d(50, 0)),
    ]);

    let level2 = Allocation::balancer(vec![AllocationPortion::new(d(100, 0), level3)]);

    let root = Allocation::balancer(vec![
        AllocationPortion::new(d(50, 0), level2),
        AllocationPortion::hold("Z", d(50, 0)),
    ]);

    let flat = root.flatten();
    assert_eq!(flat_get(&flat, "X"), Some(d(25, 0)));
    assert_eq!(flat_get(&flat, "Y"), Some(d(25, 0)));
    assert_eq!(flat_get(&flat, "Z"), Some(d(50, 0)));
}

#[test]
fn allocation_flatten_merges_repeated_tickers() {
    let root = Allocation::balancer(vec![
        AllocationPortion::hold("A", d(30, 0)),
        AllocationPortion::hold("B", d(40, 0)),
        AllocationPortion::hold("A", d(30, 0)),
    ]);
    let flat = root.flatten();
    assert_eq!(flat.len(), 2);
    assert_eq!(flat_get(&flat, "A"), Some(d(60, 0)));
    assert_eq!(root.all_tickers(), vec!["A".to_string(), "B".to_string()]);
}

#[test]
fn allocation_validity_and_params() {
    assert!(!Allocation::new().is_valid());
    assert!(Allocation::scalper("BTC").is_valid());
    let off = Allocation::from_simple(&[("A".to_string(), d(50, 0)), ("B".to_string(), d(49, 0))]);
    assert!(!off.is_valid());
    let close =
        Allocation::from_simple(&[("A".to_string(), d(50, 0)), ("B".to_string(), d(495, 1))]);
    assert!(close.is_valid());

    let mut alloc = Allocation::hold("BTC");
    alloc.set_param("threshold", "5");
    alloc.set_param("threshold", "7");
    assert_eq!(alloc.get_param("threshold"), Some("7"));
    assert_eq!(alloc.get_param("missing"), None);
    assert_eq!(alloc.params.len(), 1);
}

#[test]
fn allocation_from_desired() {
    let mut desired = DesiredAllocation::new();
    desired.set("A", d(25, 0));
    desired.set("B", d(75, 0));
    let alloc = Allocation::from_map(&desired);
    assert!(alloc.is_balancer());
    assert_eq!(alloc.total_percentage(), d(100, 0));
    assert_eq!(StrategyType::from_name("hodl"), StrategyType::Hold);
    assert_eq!(StrategyType::Dca.as_str(), "dca");
}

#[test]
fn test_create_user() {
    let user = User::new(BrokerType::TBank, "TBANK_TOKEN")
        .with_name("Test User")
        .with_credential("secret", "TBANK_SECRET");

    assert_eq!(user.broker, BrokerType::TBank);
    assert_eq!(user.token_env_var, "TBANK_TOKEN");
    assert_eq!(user.name, "Test User");
    let secret = user.credentials.iter().find(|(k, _)| k == "secret").map(|(_, v)| v);
    assert_eq!(secret, Some(&"TBANK_SECRET".to_string()));
}

#[test]
fn test_create_account() {
    let alloc = Allocation::from_simple(&[
        ("SBER".to_string(), d(50, 0)),
        ("LKOH".to_string(), d(50, 0)),
    ]);

    let account = Account::new("main", alloc)
        .with_name("Main Account")
        .with_exchange_id("12345");

    assert_eq!(account.id, "main");
    assert_eq!(account.name, "Main Account");
    assert_eq!(account.exchange_account_id, "12345");
}

#[test]
fn user_test_config_validation() {
    let mut config = TradingConfig::new();

    assert!(config.validate().is_err());

    let user = User::new(BrokerType::TBank, "TOKEN");
    config.add_user(user);
    assert!(config.validate().is_err());

    let alloc = Allocation::from_simple(&[("A".to_string(), d(50, 0)), ("B".to_string(), d(50, 0))]);
    config.users[0].add_account(Account::new("main", alloc));

    assert!(config.validate().is_ok());
}

#[test]
fn test_all_tickers() {
    let mut user = User::new(BrokerType::TBank, "TOKEN");

    let alloc1 = Allocation::from_simple(&[
        ("SBER".to_string(), d(50, 0)),
        ("LKOH".to_string(), d(50, 0)),
    ]);
    user.add_account(Account::new("acc1", alloc1));

    let alloc2 = Allocation::from_simple(&[("GAZP".to_string(), d(100, 0))]);
    user.add_account(Account::new("acc2", alloc2));

    let tickers = user.all_tickers();
    assert!(tickers.contains(&"SBER".to_string()));
    assert!(tickers.contains(&"LKOH".to_string()));
    assert!(tickers.contains(&"GAZP".to_string()));
}

#[test]
fn config_validation_errors_name_the_culprit() {
    let mut config = TradingConfig::new();
    assert!(matches!(config.validate(), Err(ConfigValidationError::NoUsers)));

    config.add_user(User::new(BrokerType::Binance, "").with_id("u1"));
    match config.validate() {
        Err(ConfigValidationError::MissingToken(user)) => assert_eq!(user, "u1"),
        other => panic!("unexpected {other:?}"),
    }

    config.users[0] = User::new(BrokerType::Binance, "KEY").with_id("u1");
    match config.validate() {
        Err(ConfigValidationError::NoAccounts(user)) => assert_eq!(user, "u1"),
        other => panic!("unexpected {other:?}"),
    }

    let bad = Allocation::from_simple(&[("A".to_string(), d(10, 0))]);
    config.users[0].add_account(Account::new("acc", bad));
    let err = config.validate().unwrap_err();
    assert_eq!(
        err.to_string(),
        "Invalid allocation for account 'acc' of user 'u1'"
    );
}

#[test]
fn users_get_distinct_ids() {
    let a = User::new(BrokerType::TBank, "T");
    let b = User::new(BrokerType::TBank, "T");
    assert_ne!(a.id, b.id);
    assert!(a.enabled);
    let mut config = TradingConfig::new();
    config.add_user(a);
    let mut disabled = b;
    disabled.enabled = false;
    config.add_user(disabled);
    assert_eq!(config.active_users().len(), 1);
}

#[test]
fn user_account_changed_in_place() {
    let mut user = User::new(BrokerType::TBank, "TOKEN");
    user.add_account(Account::new("acc1", Allocation::from_simple(&[("A".to_string(), d(100, 0))])));
    user.add_account(Account::new("acc2", Allocation::from_simple(&[("B".to_string(), d(100, 0))])));

    user.get_account_mut("acc2").unwrap().order_delay_ms = 42;
    assert!(user.get_account_mut("acc3").is_none());
    assert_eq!(user.get_account("acc2").unwrap().order_delay_ms, 42);
    assert_ne!(user.get_account("acc1").unwrap().order_delay_ms, 42);
}

#[test]
fn new_users_get_distinct_uuid_ids() {
    let a = User::new(BrokerType::TBank, "TOKEN");
    let b = User::new(BrokerType::TBank, "TOKEN");
    assert_eq!(a.id.len(), 36);
    for i in [8, 13, 18, 23] {
        assert_eq!(a.id.as_bytes()[i], b'-');
    }
    assert_ne!(a.id, b.id);
}

#[test]
fn trading_config_lists_accounts_with_their_users() {
    let mut config = TradingConfig::new();
    let alloc = || Allocation::from_simple(&[("A".to_string(), d(100, 0))]);
    let mut u1 = User::new(BrokerType::TBank, "T1").with_id("u1");
    u1.add_account(Account::new("a1", alloc()));
    u1.add_account(Account::new("a2", alloc()));
    let u2 = User::new(BrokerType::TBank, "T2").with_id("u2");
    let mut u3 = User::new(BrokerType::TBank, "T3").with_id("u3");
    u3.add_account(Account::new("a3", alloc()));
    config.add_user(u1);
    config.add_user(u2);
    config.add_user(u3);
    let pairs: Vec<(String, String)> =
        config.all_accounts().iter().map(|(u, a)| (u.id.clone(), a.id.clone())).collect();
    assert_eq!(
        pairs,
        vec![
            ("u1".to_string(), "a1".to_string()),
            ("u1".to_string(), "a2".to_string()),
            ("u3".to_string(), "a3".to_string()),
        ]
    );
}
