use trader_bot::domain::{BrokerType, OrderDirection, OrderStatus, StrategyType, TradeId};
use trader_bot::exchange::{generate_order_id, ExchangeError, MarketStatus};

#[test]
fn test_strategy_types() {
    assert_eq!(StrategyType::from_name("balancer"), StrategyType::Balancer);
    assert_eq!(StrategyType::from_name("HOLD"), StrategyType::Hold);
    assert_eq!(StrategyType::from_name("scalper"), StrategyType::Scalper);
    assert_eq!(
        StrategyType::from_name("custom_strat"),
        StrategyType::Custom("custom_strat".to_string())
    );
}

#[test]
fn test_order_status_terminal() {
    assert!(!OrderStatus::Pending.is_terminal());
    assert!(!OrderStatus::Submitted.is_terminal());
    assert!(!OrderStatus::PartiallyFilled.is_terminal());
    assert!(OrderStatus::Filled.is_terminal());
    assert!(OrderStatus::Cancelled.is_terminal());
    assert!(OrderStatus::Rejected.is_terminal());
    assert!(OrderStatus::Expired.is_terminal());
}

#[test]
fn test_direction_opposite() {
    assert_eq!(OrderDirection::Buy.opposite(), OrderDirection::Sell);
    assert_eq!(OrderDirection::Sell.opposite(), OrderDirection::Buy);
}

#[test]
fn test_trade_id() {
    let id = TradeId::new("test-123".to_string());
    assert_eq!(id.as_str(), "test-123");
    assert_eq!(id.to_string(), "test-123");
}

#[test]
fn test_broker_type_from_name() {
    assert_eq!(BrokerType::from_name("tbank"), BrokerType::TBank);
    assert_eq!(BrokerType::from_name("BINANCE"), BrokerType::Binance);
    assert_eq!(BrokerType::from_name("ib"), BrokerType::InteractiveBrokers);
    assert_eq!(BrokerType::from_name("simulator"), BrokerType::Simulator);
    assert_eq!(
        BrokerType::from_name("custom"),
        BrokerType::Custom("custom".to_string())
    );
}

#[test]
fn test_retryable_errors() {
    let rate_limit = ExchangeError::RateLimitExceeded {
        retry_after_ms: 5000,
    };
    assert!(rate_limit.is_retryable());
    assert_eq!(rate_limit.retry_delay_ms(), Some(5000));

    let network = ExchangeError::NetworkError("connection reset".into());
    assert!(network.is_retryable());
    assert_eq!(network.retry_delay_ms(), Some(1000));

    let rejected = ExchangeError::OrderRejected("invalid price".into());
    assert!(!rejected.is_retryable());
    assert_eq!(rejected.retry_delay_ms(), None);
}

#[test]
fn test_order_id_generation() {
    let timestamp = std::time::SystemTime::now()
        .duration_since(std::time::UNIX_EPOCH)
        .unwrap_or_default()
        .as_nanos();
    let id1 = generate_order_id(timestamp, 0);
    let id2 = generate_order_id(timestamp, 1);

    assert!(id1.starts_with("ORD-"));
    assert!(id2.starts_with("ORD-"));
    assert_ne!(id1, id2);
}

#[test]
fn test_order_id_format() {
    assert_eq!(generate_order_id(1700000000123456789, 42), "ORD-1700000000123456789-42");
    assert_eq!(generate_order_id(0, 0), "ORD-0-0");
}

#[test]
fn test_market_status_tradeable() {
    assert!(MarketStatus::Open.is_tradeable());
    assert!(MarketStatus::PreMarket.is_tradeable());
    assert!(MarketStatus::AfterHours.is_tradeable());
    assert!(!MarketStatus::Closed.is_tradeable());
    assert!(!MarketStatus::Halted.is_tradeable());
}

#[test]
fn test_status_active_and_terminal_are_exclusive() {
    let all = [
        OrderStatus::Pending,
        OrderStatus::Submitted,
        OrderStatus::PartiallyFilled,
        OrderStatus::Filled,
        OrderStatus::Cancelled,
        OrderStatus::Rejected,
        OrderStatus::Expired,
    ];
    for s in all {
        assert_ne!(s.is_active(), s.is_terminal());
    }
}

#[test]
fn test_direction_opposite_twice() {
    assert_eq!(OrderDirection::Buy.opposite().opposite(), OrderDirection::Buy);
    assert_eq!(OrderDirection::Sell.opposite().opposite(), OrderDirection::Sell);
}

#[test]
fn test_retry_delay_only_when_retryable() {
    let errors = vec![
        ExchangeError::AuthenticationFailed("bad token".into()),
        ExchangeError::RateLimitExceeded { retry_after_ms: 250 },
        ExchangeError::NetworkError("timeout".into()),
        ExchangeError::OrderRejected("no".into()),
    ];
    for e in &errors {
        assert_eq!(e.is_retryable(), e.retry_delay_ms().is_some());
    }
}

#[test]
fn test_strategy_type_round_trip() {
    assert_eq!(StrategyType::from_name("balancer").as_str(), "balancer");
    assert_eq!(StrategyType::from_name("my").as_str(), "my");
    assert_eq!(BrokerType::from_name("binance").as_str(), "binance");
}
