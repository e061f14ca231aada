use boldtrax::config::types::FatFingerConfig;
use boldtrax::decimal::Decimal;
use boldtrax::errors::TradingError;
use boldtrax::exchanges::aster::codec::AsterClientOrderIdCodec;
use boldtrax::exchanges::fixtures::{btcusdt_swap, test_registry};
use boldtrax::kinds::{Exchange, OrderSide, OrderStatus, OrderType, Pairs};
use boldtrax::manager::order::OrderManager;
use boldtrax::manager::position::{is_not_implemented, poll_step, FillOutcome, PollStep, PositionManager, WsPositionPatch};
use boldtrax::orders::{Order, OrderEvent, OrderRequest, Position};
use boldtrax::time::UtcTime;
use boldtrax::types::{InstrumentKey, InstrumentType, OrderBookSnapshot, OrderBookUpdate, PriceLevel};

fn dec(s: &str) -> Decimal {
    Decimal::from_str(s).unwrap()
}

fn at(ms: i64) -> UtcTime {
    UtcTime::from_millis(ms).unwrap()
}

fn key() -> InstrumentKey {
    btcusdt_swap().key
}

fn request(order_type: OrderType, price: Option<&str>, size: &str) -> OrderRequest {
    OrderRequest {
        key: key(),
        strategy_id: "arb".to_string(),
        side: OrderSide::Buy,
        order_type,
        price: price.map(dec),
        size: dec(size),
        post_only: false,
        reduce_only: false,
    }
}

fn book(bid: &str, ask: &str) -> OrderBookUpdate {
    OrderBookUpdate {
        snapshot: OrderBookSnapshot::new(
            key(),
            vec![PriceLevel { price: dec(bid), quantity: dec("1") }],
            vec![PriceLevel { price: dec(ask), quantity: dec("1") }],
            at(1),
            1,
        ),
    }
}

fn manager() -> OrderManager {
    let mut m = OrderManager::new(Exchange::Binance, FatFingerConfig::default());
    m.handle_price(book("9999", "10001"));
    m
}

fn submit(m: &mut OrderManager, req: OrderRequest, seq: u32) -> Result<Order, TradingError> {
    m.process_submit_order_at(&test_registry(), &AsterClientOrderIdCodec, req, 1000, seq, at(1000)).unwrap()
}

fn with_status(order: &Order, status: OrderStatus, filled: &str) -> Order {
    let mut o = order.clone();
    o.status = status;
    o.filled_size = dec(filled);
    o.avg_fill_price = Some(dec("10000"));
    o
}

#[test]
fn accepted_order_is_pending_under_its_identifier() {
    let mut m = manager();
    let order = submit(&mut m, request(OrderType::Limit, Some("10000.04"), "1.00000001"), 3).unwrap();
    assert_eq!(order.internal_id, "arb-1000-BN-3");
    assert_eq!(order.client_order_id, "arb-1000-BN-3");
    assert_eq!(order.status, OrderStatus::PendingSubmit);
    assert_eq!(order.request.size, btcusdt_swap().normalize_quantity(dec("1.00000001")));
    assert_eq!(order.request.price, Some(btcusdt_swap().normalize_price(dec("10000.04"))));
    assert_eq!(order.filled_size, dec("0"));
    assert_eq!(m.active_count(), 1);
    assert_eq!(m.find(&order.internal_id), Some(order));
}

#[test]
fn limits_refuse_what_is_too_large_or_too_far() {
    let m = manager();
    assert!(m.check_fat_finger(&request(OrderType::Limit, Some("10000"), "1")).is_ok());
    assert!(matches!(
        m.check_fat_finger(&request(OrderType::Market, None, "10.5")),
        Err(TradingError::MaxOrderSizeExceeded { .. })
    ));
    assert!(matches!(
        m.check_fat_finger(&request(OrderType::Limit, Some("10001"), "10")),
        Err(TradingError::MaxNotionalExceeded { .. })
    ));
    match m.check_fat_finger(&request(OrderType::Limit, Some("10600"), "1")) {
        Err(TradingError::PriceBandViolation { deviation_pct, max_pct }) => {
            assert_eq!(deviation_pct, dec("6"));
            assert_eq!(max_pct, dec("5"));
        }
        _ => panic!("expected a price band violation"),
    }
    assert!(m.check_fat_finger(&request(OrderType::Limit, Some("10500"), "1")).is_ok());
    let mut post = request(OrderType::Market, None, "1");
    post.post_only = true;
    assert!(matches!(m.check_fat_finger(&post), Err(TradingError::InvalidPostOnly)));
    let blind = OrderManager::new(Exchange::Binance, FatFingerConfig::default());
    assert!(matches!(
        blind.check_fat_finger(&request(OrderType::Market, None, "1")),
        Err(TradingError::PriceNotReady)
    ));
    assert_eq!(m.checked_fat_finger(&OrderRequest { price: Some(Decimal::max_value()), ..request(OrderType::Limit, None, "2") }).is_none(), true);
}

#[test]
fn unknown_instrument_and_small_value_are_refused() {
    let mut m = manager();
    let mut unknown = request(OrderType::Limit, Some("10000"), "1");
    unknown.key = InstrumentKey {
        exchange: Exchange::Okx,
        pair: Pairs::SOLUSDT,
        instrument_type: InstrumentType::Swap,
    };
    assert!(matches!(submit(&mut m, unknown, 0), Err(TradingError::UnsupportedInstrument)));

    let mut registry = test_registry();
    let mut instrument = btcusdt_swap();
    instrument.min_notional = Some(dec("100"));
    registry.insert(instrument);
    let refused = m
        .process_submit_order_at(
            &registry,
            &AsterClientOrderIdCodec,
            request(OrderType::Limit, Some("10000"), "0.001"),
            1,
            0,
            at(1),
        )
        .unwrap();
    assert!(matches!(refused, Err(TradingError::MinNotionalViolated { .. })));
    assert_eq!(m.active_count(), 0);
}

#[test]
fn order_lives_until_it_is_filled() {
    let mut m = manager();
    let order = submit(&mut m, request(OrderType::Limit, Some("10000"), "1"), 0).unwrap();
    let id = order.internal_id.clone();
    let mut ack = order.clone();
    ack.exchange_order_id = Some("77".to_string());
    let told = m.handle_submit_result(&id, Ok(ack), at(2000)).unwrap();
    assert!(matches!(&told, OrderEvent::New(o) if o.status == OrderStatus::New));
    assert_eq!(m.find(&id).unwrap().exchange_order_id, Some("77".to_string()));

    let mut report = with_status(&order, OrderStatus::PartiallyFilled, "0.4");
    report.internal_id = String::new();
    let told = m.handle_ws_event(&OrderEvent::from(report)).unwrap();
    assert!(matches!(&told, OrderEvent::PartiallyFilled(o) if o.internal_id == id && o.filled_size == dec("0.4")));
    assert_eq!(m.active_count(), 1);

    let told = m.handle_ws_event(&OrderEvent::from(with_status(&order, OrderStatus::Filled, "1"))).unwrap();
    assert!(matches!(told, OrderEvent::Filled(_)));
    assert_eq!(m.active_count(), 0);
    assert_eq!(m.handle_ws_event(&OrderEvent::from(with_status(&order, OrderStatus::Filled, "1"))), None);
}

#[test]
fn late_acknowledgement_does_not_undo_a_report() {
    let mut m = manager();
    let order = submit(&mut m, request(OrderType::Limit, Some("10000"), "1"), 0).unwrap();
    let id = order.internal_id.clone();
    m.handle_ws_event(&OrderEvent::from(with_status(&order, OrderStatus::PartiallyFilled, "0.5"))).unwrap();
    assert_eq!(m.handle_submit_result(&id, Ok(order.clone()), at(3)), None);
    assert_eq!(m.find(&id).unwrap().status, OrderStatus::PartiallyFilled);
    assert_eq!(m.handle_submit_result(&id, Err(TradingError::RateLimited), at(3)), None);
    assert_eq!(m.active_count(), 1);
}

#[test]
fn failed_submission_rejects_a_pending_order() {
    let mut m = manager();
    let order = submit(&mut m, request(OrderType::Limit, Some("10000"), "1"), 0).unwrap();
    let told = m.handle_submit_result(&order.internal_id, Err(TradingError::RateLimited), at(9)).unwrap();
    assert!(matches!(told, OrderEvent::Rejected(o) if o.updated_at == at(9)));
    assert_eq!(m.active_count(), 0);
    assert!(matches!(
        m.process_cancel_order(&order.internal_id),
        Err(TradingError::OrderNotFound { exchange, .. }) if exchange == "Binance"
    ));
}

#[test]
fn canceled_order_is_forgotten() {
    let mut m = manager();
    let order = submit(&mut m, request(OrderType::Limit, Some("10000"), "1"), 0).unwrap();
    assert_eq!(m.process_cancel_order(&order.internal_id).unwrap(), order);
    assert_eq!(m.handle_cancel_result(&order.internal_id, Err(TradingError::RateLimited)), None);
    assert_eq!(m.active_count(), 1);
    let told = m
        .handle_cancel_result(&order.internal_id, Ok(with_status(&order, OrderStatus::Canceled, "0")))
        .unwrap();
    assert!(matches!(told, OrderEvent::Canceled(o) if o.internal_id == order.internal_id));
    assert_eq!(m.active_count(), 0);
}

#[test]
fn orders_that_the_exchange_lost_are_looked_up() {
    let mut m = manager();
    let a = submit(&mut m, request(OrderType::Limit, Some("10000"), "1"), 0).unwrap();
    let b = submit(&mut m, request(OrderType::Limit, Some("10000"), "1"), 1).unwrap();
    for o in [&a, &b] {
        m.handle_submit_result(&o.internal_id, Ok(o.clone()), at(5));
    }
    assert_eq!(m.keys_to_check(), vec![key()]);
    let missing = m.missing_orders(key(), &vec![a.clone()]);
    assert_eq!(missing, vec![(b.internal_id.clone(), b.client_order_id.clone())]);
    let open = with_status(&b, OrderStatus::New, "0");
    assert_eq!(m.handle_missing_status(&b.internal_id, &b.client_order_id, Ok(open)), None);
    assert_eq!(m.active_count(), 2);
    let done = with_status(&b, OrderStatus::Filled, "1");
    let told = m.handle_missing_status(&b.internal_id, &b.client_order_id, Ok(done)).unwrap();
    assert!(matches!(told, OrderEvent::Filled(_)));
    assert_eq!(m.active_count(), 1);
}

#[test]
fn exchange_update_twice_is_once() {
    let mut m = manager();
    let order = submit(&mut m, request(OrderType::Limit, Some("10000"), "1"), 0).unwrap();
    let report = with_status(&order, OrderStatus::PartiallyFilled, "0.3");
    let mut once = order.clone();
    once.apply_exchange_update(&report);
    let mut twice = once.clone();
    twice.apply_exchange_update(&report);
    assert_eq!(once, twice);
    assert_eq!(once.internal_id, order.internal_id);
    assert_eq!(once.filled_size, dec("0.3"));
    let event = OrderEvent::from(once.clone());
    assert_eq!(event.inner(), &once);
    assert_eq!(event.into_inner(), once);
}

#[test]
fn order_statuses_are_pending_open_or_final() {
    let mut o = Order::default();
    o.mark_at(OrderStatus::PendingSubmit, at(1));
    assert!(o.is_pending_submit() && o.is_pending_or_new() && !o.is_final_state());
    o.mark_new();
    assert!(!o.is_pending_submit() && o.is_pending_or_new());
    o.mark_at(OrderStatus::PartiallyFilled, at(2));
    assert!(!o.is_pending_or_new() && !o.is_final_state());
    o.mark_rejected();
    assert!(o.is_final_state());
    o.mark_canceled();
    assert!(o.is_final_state());
    o.mark_at(OrderStatus::Filled, at(3));
    assert!(o.is_final_state());
    assert_eq!(o.updated_at, at(3));
}

#[test]
fn fills_move_a_position() {
    let mut p = Position { key: key(), ..Position::default() };
    p.apply_fill(OrderSide::Buy, dec("1"), dec("100"));
    assert_eq!((p.size, p.entry_price), (dec("1"), dec("100")));
    p.apply_fill(OrderSide::Buy, dec("3"), dec("200"));
    assert_eq!((p.size, p.entry_price), (dec("4"), dec("175")));
    p.apply_fill(OrderSide::Sell, dec("1"), dec("300"));
    assert_eq!((p.size, p.entry_price), (dec("3"), dec("175")));
    p.apply_fill(OrderSide::Sell, dec("3"), dec("300"));
    assert_eq!((p.size, p.entry_price), (dec("0"), dec("0")));
    p.apply_fill(OrderSide::Sell, dec("2"), dec("50"));
    assert_eq!((p.size, p.entry_price), (dec("-2"), dec("50")));
    let before = p;
    assert!(!p.checked_apply_fill(OrderSide::Sell, Decimal::max_value(), Decimal::max_value()));
    assert_eq!(p, before);
    assert!(p.checked_apply_fill(OrderSide::Buy, dec("1"), dec("40")));
    assert_eq!((p.size, p.entry_price), (dec("-1"), dec("50")));
}

fn filled(id: &str, status: OrderStatus, filled: &str, price: &str) -> OrderEvent {
    let mut o = Order::default();
    o.internal_id = id.to_string();
    o.request.key = key();
    o.request.side = OrderSide::Buy;
    o.status = status;
    o.filled_size = dec(filled);
    o.avg_fill_price = Some(dec(price));
    OrderEvent::from(o)
}

#[test]
fn only_new_fills_move_positions() {
    let mut m = PositionManager::new();
    match m.handle_order_event(&filled("a", OrderStatus::PartiallyFilled, "0.5", "100")) {
        FillOutcome::Moved(p) => assert_eq!((p.size, p.entry_price), (dec("0.5"), dec("100"))),
        _ => panic!("expected a move"),
    }
    let again = m.handle_order_event(&filled("a", OrderStatus::PartiallyFilled, "0.5", "100"));
    assert!(matches!(again, FillOutcome::Ignored));
    match m.handle_order_event(&filled("a", OrderStatus::Filled, "2", "100")) {
        FillOutcome::Moved(p) => assert_eq!(p.size, dec("2")),
        _ => panic!("expected a move"),
    }
    assert_eq!(m.get_position(&key()).unwrap().size, dec("2"));
    assert!(matches!(m.handle_order_event(&filled("b", OrderStatus::New, "0", "100")), FillOutcome::Ignored));
    assert_eq!(m.get_all_positions().len(), 1);
}

#[test]
fn patches_and_lists_set_positions() {
    let mut m = PositionManager::new();
    let patch = WsPositionPatch {
        key: key(),
        size: dec("-3"),
        entry_price: dec("90"),
        unrealized_pnl: dec("1.5"),
    };
    let p = m.handle_position_patch(&patch);
    assert_eq!((p.size, p.leverage, p.liquidation_price), (dec("-3"), dec("1"), None));
    assert_eq!(m.get_position(&key()), Some(p));
    m.handle_position_patch(&WsPositionPatch { size: dec("0"), ..patch });
    assert_eq!(m.get_position(&key()), None);

    let listed = Position { key: key(), size: dec("7"), entry_price: dec("10"), ..Position::default() };
    m.sync_positions(&vec![listed]);
    assert_eq!(m.get_all_positions(), vec![listed]);
}

#[test]
fn missing_trading_support_is_recognized() {
    assert!(is_not_implemented(&TradingError::Other("not implemented yet".to_string())));
    assert!(!is_not_implemented(&TradingError::Other("timeout".to_string())));
    assert!(!is_not_implemented(&TradingError::RateLimited));
}

#[test]
fn exchange_without_positions_is_asked_twice() {
    let refused = || Err(TradingError::Other("not implemented".to_string()));
    assert!(matches!(poll_step(true, refused()), PollStep::Skip));
    assert!(matches!(poll_step(false, refused()), PollStep::Stop));
    let failed = TradingError::Other("down".to_string());
    let text = failed.message();
    match poll_step(false, Err(failed)) {
        PollStep::Retry(m) => assert_eq!(m, text),
        _ => panic!("expected another try"),
    }
    assert!(matches!(poll_step(false, Ok(Vec::new())), PollStep::Sync(list) if list.is_empty()));
}
