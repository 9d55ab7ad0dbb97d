use trader_bot::domain::{
    Decimal, DesiredAllocation, Money, Order, OrderDirection, OrderStatus, OrderType, Position,
    Trade, TradeHistory, Wallet,
};

fn d(mantissa: i64, scale: u32) -> Decimal {
    Decimal::new(mantissa, scale)
}

fn make_usd(amount: Decimal) -> Money {
    Money::new(amount, "USD")
}

#[test]
fn test_money_creation() {
    let money = Money::new(d(10050, 2), "USD");
    assert_eq!(money.amount(), d(10050, 2));
    assert_eq!(money.currency(), "USD");
}

#[test]
fn test_money_zero() {
    let money = Money::zero("RUB");
    assert!(money.is_zero());
    assert_eq!(money.currency(), "RUB");
}

#[test]
fn test_money_add_same_currency() {
    let a = Money::new(d(100, 0), "USD");
    let b = Money::new(d(50, 0), "USD");
    let result = a.checked_add(&b).unwrap();
    assert_eq!(result.amount(), d(150, 0));
}

#[test]
fn test_money_add_different_currency() {
    let a = Money::new(d(100, 0), "USD");
    let b = Money::new(d(50, 0), "EUR");
    assert!(a.checked_add(&b).is_none());
}

#[test]
fn test_money_positive_negative() {
    let positive = Money::new(d(100, 0), "USD");
    let negative = Money::new(d(-50, 0), "USD");
    let zero = Money::zero("USD");

    assert!(positive.is_positive());
    assert!(!positive.is_negative());

    assert!(negative.is_negative());
    assert!(!negative.is_positive());

    assert!(zero.is_zero());
    assert!(!zero.is_positive());
    assert!(!zero.is_negative());
}

#[test]
fn test_money_multiply() {
    let money = Money::new(d(100, 0), "USD");
    let result = money.multiply(d(15, 1));
    assert_eq!(result.amount(), d(150, 0));
    assert_eq!(result.currency(), "USD");
}

#[test]
fn money_subtract_and_text() {
    let a = Money::new(d(100, 0), "USD");
    let b = Money::new(d(2550, 2), "USD");
    assert_eq!(a.checked_sub(&b).unwrap().amount(), d(7450, 2));
    assert!(a.checked_sub(&Money::new(d(1, 0), "EUR")).is_none());
    assert_eq!(b.to_string(), "25.50 USD");
}

#[test]
fn test_position_creation() {
    let pos = Position::new("AAPL", "NASDAQ", d(10, 0), make_usd(d(150, 0)));
    assert_eq!(pos.symbol(), "AAPL");
    assert_eq!(pos.exchange(), "NASDAQ");
    assert_eq!(pos.quantity(), d(10, 0));
}

#[test]
fn test_position_builder() {
    let pos = Position::builder("SBER", "MOEX")
        .instrument_id("BBG004730N88")
        .quantity(d(100, 0))
        .lot_size(10)
        .current_price(make_usd(d(250, 0)))
        .average_cost(make_usd(d(200, 0)))
        .build();

    assert_eq!(pos.symbol(), "SBER");
    assert_eq!(pos.instrument_id(), Some("BBG004730N88"));
    assert_eq!(pos.lot_size(), 10);
    assert_eq!(pos.lots_held(), 10);
}

#[test]
fn test_market_value() {
    let pos = Position::new("BTC", "BINANCE", d(25, 1), make_usd(d(40000, 0)));
    let value = pos.market_value();
    assert_eq!(value.amount(), d(100000, 0));
}

#[test]
fn test_unrealized_pnl() {
    let pos = Position::builder("AAPL", "NASDAQ")
        .quantity(d(10, 0))
        .current_price(make_usd(d(150, 0)))
        .average_cost(make_usd(d(100, 0)))
        .build();

    let pnl = pos.unrealized_pnl().unwrap();
    assert_eq!(pnl.amount(), d(500, 0));

    let pnl_pct = pos.unrealized_pnl_percent().unwrap();
    assert_eq!(pnl_pct, d(50, 0));
}

#[test]
fn test_lots_calculation() {
    let pos = Position::builder("SBER", "MOEX")
        .quantity(d(105, 0))
        .lot_size(10)
        .current_price(make_usd(d(250, 0)))
        .blocked_lots(3)
        .build();

    assert_eq!(pos.lots_held(), 10);
    assert_eq!(pos.tradeable_lots(), 7);
}

#[test]
fn position_pnl_needs_average_cost() {
    let pos = Position::new("AAPL", "NASDAQ", d(10, 0), make_usd(d(150, 0)));
    assert!(pos.unrealized_pnl().is_none());
    assert!(pos.unrealized_pnl_percent().is_none());

    let free_cost = Position::builder("AAPL", "NASDAQ")
        .quantity(d(10, 0))
        .current_price(make_usd(d(150, 0)))
        .average_cost(make_usd(d(0, 0)))
        .build();
    assert!(free_cost.unrealized_pnl_percent().is_none());
}

#[test]
fn position_blocked_lots_saturate() {
    let pos = Position::builder("SBER", "MOEX")
        .quantity(d(25, 0))
        .lot_size(10)
        .current_price(make_usd(d(1, 0)))
        .blocked_lots(5)
        .build();
    assert_eq!(pos.lots_held(), 2);
    assert_eq!(pos.tradeable_lots(), 0);
}

#[test]
fn test_desired_allocation() {
    let mut alloc = DesiredAllocation::new();
    alloc.set("AAPL", d(30, 0));
    alloc.set("GOOGL", d(30, 0));
    alloc.set("MSFT", d(40, 0));

    assert_eq!(alloc.get("AAPL"), Some(d(30, 0)));
    assert_eq!(alloc.total_percentage(), d(100, 0));
    assert!(alloc.is_valid());
}

#[test]
fn test_allocation_normalization() {
    let mut alloc = DesiredAllocation::new();
    alloc.set("A", d(10, 0));
    alloc.set("B", d(20, 0));
    alloc.set("C", d(30, 0));

    let normalized = alloc.normalized();
    let total = normalized.total_percentage();
    let diff = total.checked_sub(&d(100, 0)).unwrap().abs();
    assert!(diff.lt(&d(1, 2)));
}

#[test]
fn desired_allocation_set_replaces() {
    let mut alloc = DesiredAllocation::new();
    alloc.set("A", d(10, 0));
    alloc.set("A", d(70, 0));
    assert_eq!(alloc.len(), 1);
    assert_eq!(alloc.get("A"), Some(d(70, 0)));
    assert_eq!(alloc.get("B"), None);
    assert!(!alloc.is_valid());
}

#[test]
fn test_wallet_creation() {
    let wallet = Wallet::with_cash("USD", make_usd(d(10000, 0)));
    assert_eq!(wallet.base_currency(), "USD");
    assert_eq!(wallet.cash().amount(), d(10000, 0));
    assert!(wallet.positions().is_empty());
}

#[test]
fn test_wallet_add_position() {
    let mut wallet = Wallet::with_cash("USD", make_usd(d(5000, 0)));
    let pos = Position::new("AAPL", "NASDAQ", d(10, 0), make_usd(d(150, 0)));
    wallet.add_position(pos);

    assert_eq!(wallet.position_count(), 1);
    assert_eq!(wallet.get_position("AAPL").unwrap().quantity(), d(10, 0));
}

#[test]
fn test_wallet_total_value() {
    let mut wallet = Wallet::with_cash("USD", make_usd(d(5000, 0)));
    wallet.add_position(Position::new("AAPL", "NASDAQ", d(10, 0), make_usd(d(150, 0))));
    wallet.add_position(Position::new("GOOGL", "NASDAQ", d(5, 0), make_usd(d(100, 0))));

    assert_eq!(wallet.total_value().amount(), d(7000, 0));
}

#[test]
fn test_wallet_current_allocation() {
    let mut wallet = Wallet::with_cash("USD", make_usd(d(0, 0)));
    wallet.add_position(Position::new("AAPL", "NASDAQ", d(10, 0), make_usd(d(100, 0))));
    wallet.add_position(Position::new("GOOGL", "NASDAQ", d(10, 0), make_usd(d(100, 0))));

    let alloc = wallet.current_allocation();
    assert_eq!(alloc.get("AAPL"), Some(d(50, 0)));
    assert_eq!(alloc.get("GOOGL"), Some(d(50, 0)));
}

#[test]
fn test_wallet_merge_positions() {
    let mut wallet = Wallet::new("USD");
    wallet.add_position(Position::new("AAPL", "NASDAQ", d(10, 0), make_usd(d(150, 0))));
    wallet.add_position(Position::new("AAPL", "NASDAQ", d(5, 0), make_usd(d(155, 0))));

    assert_eq!(wallet.position_count(), 1);
    assert_eq!(wallet.get_position("AAPL").unwrap().quantity(), d(15, 0));
}

#[test]
fn wallet_cash_and_removal() {
    let mut wallet = Wallet::with_cash("USD", make_usd(d(1000, 0)));
    wallet.add_cash(make_usd(d(500, 0)));
    assert_eq!(wallet.cash().amount(), d(1500, 0));
    wallet.subtract_cash(make_usd(d(200, 0)));
    assert_eq!(wallet.cash().amount(), d(1300, 0));
    wallet.add_cash(Money::new(d(1, 0), "EUR"));
    assert_eq!(wallet.cash().amount(), d(1300, 0));

    wallet.add_position(Position::new("AAPL", "NASDAQ", d(10, 0), make_usd(d(70, 0))));
    assert_eq!(wallet.cash_percentage(), d(65, 0));
    let removed = wallet.remove_position("AAPL").unwrap();
    assert_eq!(removed.quantity(), d(10, 0));
    assert!(wallet.remove_position("AAPL").is_none());
    assert_eq!(wallet.position_count(), 0);
}

#[test]
fn test_market_order_creation() {
    let order = Order::market("ORD001", "AAPL", "NASDAQ", OrderDirection::Buy, 10);
    assert_eq!(order.id(), "ORD001");
    assert_eq!(order.symbol(), "AAPL");
    assert_eq!(order.direction(), OrderDirection::Buy);
    assert_eq!(order.order_type(), OrderType::Market);
    assert_eq!(order.quantity_lots(), 10);
    assert_eq!(order.status(), OrderStatus::Pending);
}

#[test]
fn test_limit_order_creation() {
    let order = Order::limit(
        "ORD002",
        "SBER",
        "MOEX",
        OrderDirection::Sell,
        5,
        make_usd(d(250, 0)),
    );
    assert_eq!(order.order_type(), OrderType::Limit);
    assert_eq!(order.limit_price().unwrap().amount(), d(250, 0));
}

#[test]
fn test_order_fill() {
    let mut order = Order::market("ORD001", "AAPL", "NASDAQ", OrderDirection::Buy, 10);

    order.record_fill(3, make_usd(d(150, 0)));
    assert_eq!(order.filled_lots(), 3);
    assert_eq!(order.status(), OrderStatus::PartiallyFilled);
    assert_eq!(order.average_fill_price().unwrap().amount(), d(150, 0));

    order.record_fill(7, make_usd(d(151, 0)));
    assert_eq!(order.filled_lots(), 10);
    assert_eq!(order.status(), OrderStatus::Filled);
}

#[test]
fn order_fill_is_capped_and_averaged() {
    let mut order = Order::market("ORD001", "AAPL", "NASDAQ", OrderDirection::Buy, 4);
    order.record_fill(2, make_usd(d(100, 0)));
    order.record_fill(5, make_usd(d(110, 0)));
    assert_eq!(order.filled_lots(), 4);
    assert_eq!(order.remaining_lots(), 0);
    assert_eq!(order.status(), OrderStatus::Filled);
    // (2 * 100 + 5 * 110) / 4
    assert_eq!(order.average_fill_price().unwrap().amount(), d(18750, 2));
    assert_eq!(order.fill_percentage(), d(100, 0));
}

#[test]
fn order_fill_percentage_of_empty_order() {
    let order = Order::market("ORD003", "AAPL", "NASDAQ", OrderDirection::Sell, 0);
    assert_eq!(order.fill_percentage(), d(0, 0));
    let mut other = Order::market("ORD004", "AAPL", "NASDAQ", OrderDirection::Sell, 8);
    other.record_fill(2, make_usd(d(1, 0)));
    assert_eq!(other.fill_percentage(), d(25, 0));
    other.set_exchange_order_id("EX-1");
    other.set_message("note");
    assert_eq!(other.exchange_order_id(), Some("EX-1"));
    assert_eq!(other.message(), Some("note"));
}

#[test]
fn test_trade_creation() {
    let trade = Trade::buy("AAPL", "nasdaq", 10, make_usd(d(150, 0)));

    assert_eq!(trade.symbol(), "AAPL");
    assert_eq!(trade.quantity_lots(), 10);
    assert_eq!(trade.price().amount(), d(150, 0));
    assert_eq!(trade.value().amount(), d(1500, 0));
    assert!(trade.is_buy());
}

#[test]
fn test_trade_with_commission() {
    let trade =
        Trade::buy("AAPL", "nasdaq", 10, make_usd(d(100, 0))).with_commission(make_usd(d(5, 0)));

    assert_eq!(trade.commission().unwrap().amount(), d(5, 0));
    assert_eq!(trade.net_value().amount(), d(1005, 0));
}

#[test]
fn test_sell_net_value() {
    let trade =
        Trade::sell("AAPL", "nasdaq", 10, make_usd(d(100, 0))).with_commission(make_usd(d(5, 0)));

    assert_eq!(trade.net_value().amount(), d(995, 0));
}

#[test]
fn test_trade_history() {
    let mut history = TradeHistory::new();

    history.add(Trade::buy("AAPL", "nasdaq", 10, make_usd(d(100, 0))));
    history.add(Trade::sell("AAPL", "nasdaq", 5, make_usd(d(110, 0))));
    history.add(Trade::buy("GOOGL", "nasdaq", 2, make_usd(d(2800, 0))));

    assert_eq!(history.len(), 3);
    assert_eq!(history.for_symbol("AAPL").len(), 2);
    assert_eq!(history.for_symbol("GOOGL").len(), 1);
}

#[test]
fn trade_history_totals() {
    let mut history = TradeHistory::new();
    history.add(Trade::buy("AAPL", "nasdaq", 10, make_usd(d(100, 0))));
    history.add(Trade::buy("AAPL", "nasdaq", 1, make_usd(d(50, 0))));
    history.add(Trade::sell("AAPL", "nasdaq", 5, make_usd(d(110, 0))));
    history.add(Trade::buy("GOOGL", "nasdaq", 2, make_usd(d(2800, 0))));

    assert_eq!(history.total_buy_value("AAPL", "USD").amount(), d(1050, 0));
    assert_eq!(history.total_sell_value("AAPL", "USD").amount(), d(550, 0));
    assert_eq!(history.total_sell_value("GOOGL", "USD").amount(), d(0, 0));
    history.clear();
    assert!(history.is_empty());
}

#[test]
fn trade_ids_are_random() {
    let a = Trade::buy("AAPL", "nasdaq", 1, make_usd(d(1, 0)));
    let b = Trade::buy("AAPL", "nasdaq", 1, make_usd(d(1, 0)));
    assert_ne!(a.id(), b.id());
    assert_eq!(a.id().as_str().len(), 36);
}

#[test]
fn wallet_position_changed_in_place() {
    let mut wallet = Wallet::with_cash("USD", make_usd(d(0, 0)));
    wallet.add_position(Position::new("AAPL", "NASDAQ", d(10, 0), make_usd(d(100, 0))));
    wallet.add_position(Position::new("GOOGL", "NASDAQ", d(5, 0), make_usd(d(200, 0))));

    wallet.get_position_mut("GOOGL").unwrap().update_price(make_usd(d(300, 0)));
    assert!(wallet.get_position_mut("MSFT").is_none());
    assert_eq!(wallet.get_position("GOOGL").unwrap().current_price().amount(), d(300, 0));
    assert_eq!(wallet.get_position("AAPL").unwrap().current_price().amount(), d(100, 0));

    for pos in wallet.positions_mut() {
        pos.update_price(make_usd(d(1, 0)));
    }
    assert_eq!(wallet.total_value().amount(), d(15, 0));
}
