use boldtrax::decimal::Decimal;
use boldtrax::errors::{PriceError, TradingError};
use boldtrax::exchanges::common::{pairs_to_symbol, read_or_zero};
use boldtrax::exchanges::fixtures::test_registry;
use boldtrax::exchanges::mock::{no_book, MockExchange};
use boldtrax::exchanges::requests::{depth_url, find_streamed_key, make_stream_map};
use boldtrax::kinds::{Currency, Exchange, InstrumentType, OrderSide, OrderStatus, OrderType, Pairs};
use boldtrax::orders::OrderRequest;
use boldtrax::registry::InstrumentRegistry;
use boldtrax::time::UtcTime;
use boldtrax::types::{InstrumentKey, OrderBookSnapshot, PriceLevel};

fn dec(s: &str) -> Decimal {
    Decimal::from_str(s).unwrap()
}

fn at(ms: i64) -> UtcTime {
    UtcTime::from_millis(ms).unwrap()
}

fn key() -> InstrumentKey {
    InstrumentKey { exchange: Exchange::Binance, pair: Pairs::BTCUSDT, instrument_type: InstrumentType::Spot }
}

fn book() -> OrderBookSnapshot {
    OrderBookSnapshot::new(
        key(),
        vec![PriceLevel { price: dec("100.0"), quantity: dec("1.0") }],
        vec![PriceLevel { price: dec("101.0"), quantity: dec("1.0") }],
        at(1),
        1,
    )
}

fn request(side: OrderSide, order_type: OrderType, price: Option<&str>, size: &str) -> OrderRequest {
    OrderRequest {
        key: key(),
        strategy_id: "test_strategy".to_string(),
        side,
        order_type,
        price: price.map(dec),
        size: dec(size),
        post_only: false,
        reduce_only: false,
    }
}

fn free(mock: &MockExchange) -> Decimal {
    mock.get_state().balances.get(&Currency::USDT).unwrap().free
}

#[test]
fn test_mock_exchange_market_buy() {
    let mut mock = MockExchange::new(Exchange::Binance);
    let req = request(OrderSide::Buy, OrderType::Market, None, "1.0");

    let order = mock.place_order(req, "test_client_id".to_string(), &book()).unwrap().unwrap();
    assert_eq!(order.status, OrderStatus::Filled);
    assert_eq!(order.filled_size, dec("1.0"));
    assert_eq!(order.avg_fill_price, Some(dec("101.0")));
    assert_eq!(order.exchange_order_id.unwrap().len(), 36);
    assert_eq!((order.client_order_id.as_str(), order.strategy_id.as_str()), ("test_client_id", "test_strategy"));
    assert_eq!(order.created_at, order.updated_at);

    let state = mock.get_state();
    let usdt_balance = state.balances.get(&Currency::USDT).unwrap();
    assert_eq!(usdt_balance.free, dec("100000.0").checked_sub(dec("101.0")).unwrap());

    let position = state.positions.get(&key()).unwrap();
    assert_eq!(position.size, dec("1.0"));
    assert_eq!(position.entry_price, dec("101.0"));
}

#[test]
fn limit_that_reaches_the_book_is_filled_at_the_book() {
    let mut mock = MockExchange::new(Exchange::Binance);
    let sell = request(OrderSide::Sell, OrderType::Limit, Some("99"), "2");
    let order = mock.place_order_with(sell, "c".to_string(), &book(), "e".to_string(), at(5)).unwrap().unwrap();
    assert_eq!((order.status, order.avg_fill_price), (OrderStatus::Filled, Some(dec("100"))));
    assert_eq!(free(&mock), dec("100200"));
    assert_eq!(mock.fetch_positions().len(), 1);
}

#[test]
fn orders_away_from_the_book_rest_until_taken_back() {
    let mut mock = MockExchange::new(Exchange::Binance);
    let low = request(OrderSide::Buy, OrderType::Limit, Some("99"), "1");
    let post = request(OrderSide::Buy, OrderType::PostOnly, Some("200"), "1");
    let order = mock.place_order_with(low, "a".to_string(), &book(), "e".to_string(), at(5)).unwrap().unwrap();
    assert_eq!((order.status, order.filled_size), (OrderStatus::New, dec("0")));
    mock.place_order_with(post, "b".to_string(), &book(), "f".to_string(), at(5)).unwrap().unwrap();
    assert_eq!(mock.get_open_orders(key()).len(), 2);
    assert_eq!(free(&mock), dec("100000"));
    assert_eq!(mock.get_order_status(&"a".to_string()).unwrap().status, OrderStatus::New);
    let canceled = mock.cancel_order(&"a".to_string(), at(6)).unwrap();
    assert_eq!((canceled.status, canceled.updated_at), (OrderStatus::Canceled, at(6)));
    assert!(matches!(mock.cancel_order(&"a".to_string(), at(6)), Err(TradingError::OrderNotFound { .. })));
    assert!(mock.get_order_status(&"a".to_string()).is_err());
    assert_eq!(mock.get_open_orders(key()).len(), 1);
}

#[test]
fn paper_money_runs_out() {
    let mut mock = MockExchange::new(Exchange::Binance);
    let big = request(OrderSide::Buy, OrderType::Market, None, "1000");
    match mock.place_order_with(big, "a".to_string(), &book(), "e".to_string(), at(5)).unwrap() {
        Err(TradingError::InsufficientBalance { required, available }) => {
            assert_eq!((required, available), (dec("101000"), dec("100000")));
        }
        _ => panic!("expected a refusal"),
    }
    assert!(mock.fetch_positions().is_empty());
    let empty = OrderBookSnapshot::new(key(), Vec::new(), Vec::new(), at(1), 1);
    let any = request(OrderSide::Buy, OrderType::Market, None, "1");
    match mock.place_order_with(any, "a".to_string(), &empty, "e".to_string(), at(5)).unwrap() {
        Err(TradingError::Other(m)) => assert_eq!(m, "no asks in order book"),
        _ => panic!("expected a refusal"),
    }
    let mut huge = request(OrderSide::Buy, OrderType::Market, None, "1");
    huge.size = Decimal::max_value();
    assert!(mock.place_order_with(huge, "a".to_string(), &book(), "e".to_string(), at(5)).is_none());
    assert!(matches!(no_book(&PriceError::RateLimited), TradingError::Other(_)));
}

#[test]
fn paper_account_is_shown() {
    let mock = MockExchange::new(Exchange::Binance);
    let snapshot = mock.fetch_account_snapshot(Exchange::Binance, at(9)).unwrap();
    assert_eq!(snapshot.balances.len(), 1);
    assert_eq!(snapshot.balances[0].total, dec("100000"));
    assert!(mock.fetch_account_snapshot(Exchange::Bybit, at(9)).is_err());
}

#[test]
fn streams_name_what_was_asked_for() {
    let registry = test_registry();
    let swap = InstrumentKey { instrument_type: InstrumentType::Swap, ..key() };
    let names = make_stream_map(&registry, &[swap, key()], InstrumentType::Swap, true);
    assert_eq!(names.len(), 1);
    assert_eq!(find_streamed_key(&names, "btcusdt@depth5@100ms"), Some(swap));
    assert_eq!(find_streamed_key(&names, "BTCUSDT@depth5@100ms"), None);
    assert_eq!(depth_url("wss://h", &names), "wss://h/stream?streams=btcusdt@depth5@100ms");
    let upper = make_stream_map(&registry, &[swap], InstrumentType::Swap, false);
    assert!(upper.contains(&"BTCUSDT".to_string()));

    let mut odd = InstrumentRegistry::new();
    let mut instrument = boldtrax::exchanges::fixtures::btcusdt_swap();
    instrument.exchange_symbol = "ÉTH".to_string();
    odd.insert(instrument);
    let lower = make_stream_map(&odd, &[swap], InstrumentType::Swap, true);
    assert!(lower.contains(&"éth".to_string()));
}

#[test]
fn small_readings() {
    assert_eq!(pairs_to_symbol(Pairs::ETHUSDT), "ETHUSDT");
    assert_eq!(read_or_zero("1.5"), dec("1.5"));
    assert_eq!(read_or_zero("x"), dec("0"));
}

#[test]
fn resting_order_leaves_the_paper_account_alone() {
    let mut mock = MockExchange::new(Exchange::Binance);
    let low = request(OrderSide::Buy, OrderType::Limit, Some("99"), "1");
    let order = mock.place_order(low, "a".to_string(), &book()).unwrap().unwrap();
    assert_eq!((order.status, order.filled_size, order.avg_fill_price), (OrderStatus::New, dec("0"), None));
    assert_eq!(order.request.price, Some(dec("99")));
    assert_eq!(free(&mock), dec("100000"));
    assert!(mock.fetch_positions().is_empty());
    assert_eq!(mock.get_open_orders(key()).len(), 1);
    let empty = OrderBookSnapshot::new(key(), Vec::new(), Vec::new(), at(1), 1);
    let sell = request(OrderSide::Sell, OrderType::Market, None, "1");
    match mock.place_order(sell, "b".to_string(), &empty).unwrap() {
        Err(TradingError::Other(m)) => assert_eq!(m, "no bids in order book"),
        _ => panic!("expected a refusal"),
    }
}

#[test]
fn limit_order_that_must_not_take_rests() {
    let mut mock = MockExchange::new(Exchange::Binance);
    let mut high = request(OrderSide::Buy, OrderType::Limit, Some("200"), "1");
    high.post_only = true;
    let order = mock.place_order_with(high, "a".to_string(), &book(), "e".to_string(), at(5)).unwrap().unwrap();
    assert_eq!((order.status, order.filled_size), (OrderStatus::New, dec("0")));
    assert_eq!(mock.get_open_orders(key()).len(), 1);
    assert_eq!(free(&mock), dec("100000"));
}
