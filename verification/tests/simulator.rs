use trader_bot::domain::{Decimal, Order, OrderDirection, OrderStatus, Position, Money};
use trader_bot::exchange::{ExchangeError, MarketStatus};
use trader_bot::simulator::{
    MarketManager, MarketState, PriceGenerator, PriceModel, ScenarioResult, SimulatedExchange,
};

fn d(mantissa: i64, scale: u32) -> Decimal {
    Decimal::new(mantissa, scale)
}

fn create_test_exchange() -> SimulatedExchange {
    let mut exchange = SimulatedExchange::new("USD");
    exchange.add_instrument("AAPL", "Apple Inc.", d(150, 0), 1);
    exchange.add_instrument("GOOGL", "Alphabet Inc.", d(2800, 0), 1);
    exchange.create_account("test_account", d(100000, 0));
    exchange
}

#[test]
fn test_market_state_spread() {
    let state = MarketState::new(d(100, 0)).with_spread(d(2, 1));

    let bid = state.bid();
    let ask = state.ask();

    assert!(bid.lt(&d(100, 0)));
    assert!(ask.gt(&d(100, 0)));
    let spread = ask.checked_sub(&bid).unwrap();
    let relative = spread
        .checked_div(&d(100, 0))
        .unwrap()
        .checked_mul(&d(100, 0))
        .unwrap();
    assert!(relative.lt(&d(21, 2)));
}

#[test]
fn market_state_quotes_exactly() {
    let state = MarketState::new(d(100, 0)).with_spread(d(2, 1));
    assert_eq!(state.bid(), d(999, 1));
    assert_eq!(state.ask(), d(1001, 1));
    let data = state.to_market_data("AAPL", "USD");
    assert_eq!(data.symbol, "AAPL");
    assert_eq!(data.high_24h.unwrap().amount(), d(102, 0));
    assert_eq!(data.low_24h.unwrap().amount(), d(98, 0));
    assert_eq!(data.market_status, MarketStatus::Open);
}

#[test]
fn test_price_generator_static() {
    let mut gen = PriceGenerator::new(PriceModel::Static);
    let price = d(100, 0);

    for _ in 0..10 {
        let next = gen.next_price(price);
        assert_eq!(next, price);
    }
}

#[test]
fn test_price_generator_random_walk() {
    let mut gen = PriceGenerator::new(PriceModel::RandomWalk { volatility: d(2, 0) });
    let mut price = d(100, 0);

    let mut changed = false;
    for _ in 0..10 {
        let next = gen.next_price(price);
        if next != price {
            changed = true;
        }
        price = next;
    }
    assert!(changed);
}

#[test]
fn random_walk_first_step_is_deterministic() {
    // seed 42, step 1: (42 + 12345) % 2000 - 1000 = -613 -> -0.613; change = 2 * -0.613 / 100
    let mut gen = PriceGenerator::new(PriceModel::RandomWalk { volatility: d(2, 0) });
    assert_eq!(gen.next_price(d(100, 0)), d(98774, 3));
    let mut trending = PriceGenerator::new(PriceModel::Trending {
        drift: d(1, 0),
        volatility: d(0, 0),
    })
    .with_seed(7);
    assert_eq!(trending.next_price(d(100, 0)), d(101, 0));
}

#[test]
fn test_market_manager() {
    let mut manager = MarketManager::new("USD");
    manager.add_instrument("AAPL", "Apple Inc.", d(150, 0), 1);
    manager.add_instrument("GOOGL", "Alphabet Inc.", d(2800, 0), 1);

    assert_eq!(manager.list_instruments().len(), 2);

    let state = manager.get_state("AAPL").unwrap();
    assert_eq!(state.price, d(150, 0));

    let data = manager.get_market_data("AAPL").unwrap();
    assert_eq!(data.symbol, "AAPL");
    assert_eq!(data.last_price.amount(), d(150, 0));
}

#[test]
fn test_market_manager_tick() {
    let mut manager = MarketManager::new("USD");
    manager.add_instrument("TEST", "Test Stock", d(100, 0), 1);
    manager.set_price_model("TEST", PriceModel::RandomWalk { volatility: d(5, 0) });

    let _initial = manager.get_state("TEST").unwrap().price;
    manager.tick();
    manager.tick();
    manager.tick();

    let final_price = manager.get_state("TEST").unwrap().price;
    assert!(final_price.gt(&d(0, 0)));
}

#[test]
fn market_manager_lookup_and_status() {
    let mut manager = MarketManager::new("EUR");
    manager.add_instrument("X", "Stock X", d(10, 0), 5);
    let inst = manager.get_instrument("X").unwrap();
    assert_eq!(inst.exchange_id, "SIM_X");
    assert_eq!(inst.exchange, "SIMULATOR");
    assert_eq!(inst.currency, "EUR");
    assert_eq!(inst.lot_size, 5);
    assert!(manager.get_instrument("Y").is_none());
    assert!(manager.get_market_data("Y").is_none());
    manager.set_market_status(MarketStatus::Halted);
    assert_eq!(manager.get_state("X").unwrap().status, MarketStatus::Halted);
    manager.set_price("X", d(12, 0));
    manager.set_price("Y", d(12, 0));
    assert_eq!(manager.get_state("X").unwrap().price, d(12, 0));
    manager.tick();
    assert_eq!(manager.get_state("X").unwrap().price, d(12, 0));
}

#[test]
fn test_get_wallet() {
    let mut exchange = create_test_exchange();

    let wallet = exchange.get_wallet("test_account").unwrap();
    assert_eq!(wallet.cash().amount(), d(100000, 0));
    assert_eq!(wallet.position_count(), 0);
}

#[test]
fn test_place_buy_order() {
    let mut exchange = create_test_exchange();

    let order = Order::market("ORD1", "AAPL", "SIMULATOR", OrderDirection::Buy, 10);
    let result = exchange.place_order("test_account", order).unwrap();

    assert_eq!(result.status(), OrderStatus::Filled);
    assert_eq!(result.filled_lots(), 10);
    assert!(result.exchange_order_id().unwrap().starts_with("SIM-"));

    let wallet = exchange.get_wallet("test_account").unwrap();
    assert_eq!(wallet.cash().amount(), d(98500, 0));
    assert_eq!(wallet.get_position("AAPL").unwrap().quantity(), d(10, 0));
}

#[test]
fn test_place_sell_order() {
    let mut exchange = create_test_exchange();

    let buy_order = Order::market("ORD1", "AAPL", "SIMULATOR", OrderDirection::Buy, 10);
    exchange.place_order("test_account", buy_order).unwrap();

    let sell_order = Order::market("ORD2", "AAPL", "SIMULATOR", OrderDirection::Sell, 5);
    let result = exchange.place_order("test_account", sell_order).unwrap();

    assert_eq!(result.status(), OrderStatus::Filled);

    let wallet = exchange.get_wallet("test_account").unwrap();
    assert_eq!(wallet.get_position("AAPL").unwrap().quantity(), d(5, 0));
}

#[test]
fn test_insufficient_funds() {
    let mut exchange = SimulatedExchange::new("USD");
    exchange.add_instrument("EXPENSIVE", "Expensive Stock", d(1000000, 0), 1);
    exchange.create_account("poor_account", d(100, 0));

    let order = Order::market("ORD1", "EXPENSIVE", "SIMULATOR", OrderDirection::Buy, 1);
    let result = exchange.place_order("poor_account", order);

    assert!(matches!(result, Err(ExchangeError::InsufficientFunds { .. })));
}

#[test]
fn test_market_closed() {
    let mut exchange = create_test_exchange();
    exchange.set_market_status(MarketStatus::Closed);

    let order = Order::market("ORD1", "AAPL", "SIMULATOR", OrderDirection::Buy, 10);
    let result = exchange.place_order("test_account", order);

    assert!(matches!(result, Err(ExchangeError::MarketClosed { .. })));
}

#[test]
fn test_fail_next() {
    let mut exchange = create_test_exchange();
    exchange.fail_next_with(ExchangeError::NetworkError("Simulated failure".into()));

    let result = exchange.ping();
    assert!(matches!(result, Err(ExchangeError::NetworkError(_))));

    let result = exchange.ping();
    assert!(result.is_ok());
}

#[test]
fn selling_everything_closes_the_position() {
    let mut exchange = create_test_exchange();
    exchange
        .place_order("test_account", Order::market("B", "AAPL", "SIM", OrderDirection::Buy, 4))
        .unwrap();
    exchange
        .place_order("test_account", Order::market("S", "AAPL", "SIM", OrderDirection::Sell, 4))
        .unwrap();
    let wallet = exchange.get_wallet("test_account").unwrap();
    assert!(wallet.get_position("AAPL").is_none());
    assert_eq!(wallet.cash().amount(), d(100000, 0));
}

#[test]
fn selling_errors_report_amounts() {
    let mut exchange = create_test_exchange();
    match exchange.place_order("test_account", Order::market("S", "AAPL", "SIM", OrderDirection::Sell, 3)) {
        Err(ExchangeError::InsufficientFunds { required, available }) => {
            assert_eq!(required, "3");
            assert_eq!(available, "0");
        }
        other => panic!("unexpected {other:?}"),
    }
    exchange.add_position(
        "test_account",
        Position::new("AAPL", "SIM", d(2, 0), Money::new(d(150, 0), "USD")),
    );
    match exchange.place_order("test_account", Order::market("S", "AAPL", "SIM", OrderDirection::Sell, 3)) {
        Err(ExchangeError::InsufficientFunds { required, available }) => {
            assert_eq!(required, "3");
            assert_eq!(available, "2");
        }
        other => panic!("unexpected {other:?}"),
    }
    match exchange.place_order("nobody", Order::market("S", "AAPL", "SIM", OrderDirection::Buy, 1)) {
        Err(ExchangeError::AuthenticationFailed(m)) => assert_eq!(m, "Account nobody not found"),
        other => panic!("unexpected {other:?}"),
    }
    match exchange.place_order("test_account", Order::market("S", "ZZZ", "SIM", OrderDirection::Buy, 1)) {
        Err(ExchangeError::InstrumentNotFound(m)) => assert_eq!(m, "ZZZ"),
        other => panic!("unexpected {other:?}"),
    }
}

#[test]
fn orders_are_stored_and_cancellable() {
    let mut exchange = create_test_exchange();
    exchange
        .place_order("test_account", Order::market("ORD1", "AAPL", "SIM", OrderDirection::Buy, 1))
        .unwrap();
    let stored = exchange.get_order("test_account", "ORD1").unwrap();
    assert_eq!(stored.status(), OrderStatus::Filled);
    assert!(exchange.get_active_orders("test_account").unwrap().is_empty());
    match exchange.cancel_order("test_account", "ORD1") {
        Err(ExchangeError::InvalidOrder(m)) => {
            assert_eq!(m, "Order ORD1 is already in terminal state")
        }
        other => panic!("unexpected {other:?}"),
    }
    assert!(matches!(
        exchange.get_order("test_account", "NOPE"),
        Err(ExchangeError::OrderNotFound(_))
    ));
}

#[test]
fn order_book_levels_step_by_a_cent() {
    let mut exchange = create_test_exchange();
    let book = exchange.get_order_book("AAPL", 3).unwrap();
    assert_eq!(book.bids.len(), 3);
    assert_eq!(book.bids[0].price.amount(), d(14999, 2));
    assert_eq!(book.asks[2].price.amount(), d(15003, 2));
    assert_eq!(book.bids[0].quantity, d(300, 0));
    assert_eq!(book.asks[2].quantity, d(100, 0));
    assert!(exchange.get_order_book("NONE", 1).is_err());
}

#[test]
fn wallet_positions_take_market_prices() {
    let mut exchange = create_test_exchange();
    exchange.add_position(
        "test_account",
        Position::new("AAPL", "SIM", d(2, 0), Money::new(d(1, 0), "USD")),
    );
    exchange.set_price("AAPL", d(160, 0));
    let wallet = exchange.get_wallet("test_account").unwrap();
    assert_eq!(
        wallet.get_position("AAPL").unwrap().current_price().amount(),
        d(160, 0)
    );
    assert_eq!(exchange.list_instruments().unwrap().len(), 2);
    assert_eq!(exchange.get_instrument("GOOGL").unwrap().symbol, "GOOGL");
}

#[test]
fn scenario_result_return() {
    let mut result = ScenarioResult::new("demo");
    result.initial_value = d(1000, 0);
    result.final_value = d(1100, 0);
    result.calculate_return();
    assert_eq!(result.return_percent, d(10, 0));
    result.fail("too slow");
    assert!(!result.passed);
    assert_eq!(result.failure_reason.as_deref(), Some("too slow"));
    let mut empty = ScenarioResult::new("empty");
    empty.final_value = d(5, 0);
    empty.calculate_return();
    assert_eq!(empty.return_percent, d(0, 0));
}

#[test]
fn exchange_ticks_follow_price_models() {
    let mut exchange = create_test_exchange();
    exchange.set_price_model("AAPL", PriceModel::RandomWalk { volatility: d(2, 0) });
    exchange.tick();
    assert_eq!(exchange.market().get_state("AAPL").unwrap().price, d(14816100, 5));
    assert_eq!(exchange.market().get_state("GOOGL").unwrap().price, d(2800, 0));
    exchange.set_latency(25);
    assert_eq!(exchange.latency_ms(), 25);
}
