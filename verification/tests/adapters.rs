use trader_bot::adapters::{BinanceAdapter, InteractiveBrokersAdapter, TBankAdapter};
use trader_bot::domain::{Order, OrderDirection};
use trader_bot::exchange::{ExchangeError, MarketStatus};

#[test]
fn binance_test_adapter_creation() {
    let adapter = BinanceAdapter::new();
    assert_eq!(adapter.info().id, "binance");
    assert!(adapter.testnet);
}

#[test]
fn test_adapter_with_credentials() {
    let adapter = BinanceAdapter::with_credentials("key", "secret");
    assert!(adapter.api_key.is_some());
    assert!(adapter.api_secret.is_some());
}

#[test]
fn test_connect_without_credentials() {
    let mut adapter = BinanceAdapter::new();
    let result = adapter.connect();
    assert!(result.is_err());
}

#[test]
fn interactive_brokers_test_adapter_creation() {
    let adapter = InteractiveBrokersAdapter::new();
    assert_eq!(adapter.info().id, "ibkr");
    assert_eq!(adapter.port, 7496);
}

#[test]
fn test_adapter_with_connection() {
    let adapter = InteractiveBrokersAdapter::new().with_connection("192.168.1.100", 7497, 123);
    assert_eq!(adapter.host, "192.168.1.100");
    assert_eq!(adapter.port, 7497);
    assert_eq!(adapter.client_id, 123);
}

#[test]
fn test_connect() {
    let mut adapter = InteractiveBrokersAdapter::new();
    let result = adapter.connect();
    assert!(result.is_ok());
}

#[test]
fn tbank_test_adapter_creation() {
    let adapter = TBankAdapter::new();
    assert_eq!(adapter.info().id, "tbank");
    assert!(adapter.sandbox);
}

#[test]
fn test_adapter_with_token() {
    let adapter = TBankAdapter::with_token("test-token");
    assert!(adapter.token.is_some());
}

#[test]
fn test_connect_without_token() {
    let mut adapter = TBankAdapter::new();
    let result = adapter.connect();
    assert!(result.is_err());
}

#[test]
fn sessions_need_a_connection() {
    let adapter = TBankAdapter::new();
    match adapter.session.ping() {
        Err(ExchangeError::NetworkError(m)) => assert_eq!(m, "Not connected"),
        other => panic!("unexpected {other:?}"),
    }
    let mut connected = TBankAdapter::with_token("t").with_sandbox(false);
    connected.connect().unwrap();
    assert!(!connected.sandbox);
    assert!(connected.session.ping().is_ok());
    let data = connected.session.get_market_data("SBER").unwrap();
    assert_eq!(data.last_price.currency(), "RUB");
    assert_eq!(data.market_status, MarketStatus::Unknown);
    match connected.session.get_wallet("main") {
        Err(ExchangeError::Internal(m)) => assert_eq!(m, "Account main not found"),
        other => panic!("unexpected {other:?}"),
    }
}

#[test]
fn connected_sessions_answer_as_placeholders() {
    let mut adapter = BinanceAdapter::with_credentials("k", "s");
    adapter.connect().unwrap();
    let session = &adapter.session;
    let batch = session
        .get_market_data_batch(&["BTC".to_string(), "ETH".to_string()])
        .unwrap();
    assert_eq!(batch.len(), 2);
    assert_eq!(batch[1].symbol, "ETH");
    assert_eq!(batch[0].market_status, MarketStatus::Open);
    assert!(session.list_instruments().unwrap().is_empty());
    assert!(session.get_active_orders("a").unwrap().is_empty());
    assert!(session.is_market_open("BTC").unwrap());
    assert!(session.get_order_book("BTC", 5).unwrap().bids.is_empty());
    match session.place_order("a", Order::market("o", "BTC", "binance", OrderDirection::Buy, 1)) {
        Err(ExchangeError::OrderRejected(m)) => {
            assert_eq!(m, "Order placement not implemented for BTC")
        }
        other => panic!("unexpected {other:?}"),
    }
    match session.market_order("a", "ETH", OrderDirection::Sell, 2) {
        Err(ExchangeError::OrderRejected(m)) => {
            assert_eq!(m, "Order placement not implemented for ETH")
        }
        other => panic!("unexpected {other:?}"),
    }
    assert!(matches!(
        session.cancel_order("a", "x"),
        Err(ExchangeError::OrderNotFound(_))
    ));
    assert!(matches!(
        session.get_instrument("BTC"),
        Err(ExchangeError::InstrumentNotFound(_))
    ));
}
