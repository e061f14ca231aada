use boldtrax::decimal::Decimal;
use boldtrax::errors::TradingError;
use boldtrax::exchanges::fixtures::{btcusdt_swap, test_registry};
use boldtrax::kinds::{Exchange, OrderSide, Pairs};
use boldtrax::manager::account::AccountManagerError;
use boldtrax::orders::{Order, OrderEvent, Position};
use boldtrax::time::UtcTime;
use boldtrax::types::{InstrumentKey, OrderBookSnapshot, OrderBookUpdate, Ticker, Trade};
use boldtrax::zmq::client::{
    get_all_positions_answer, get_instrument_answer, get_reference_price_answer, set_leverage_answer,
    submit_order_answer,
};
use boldtrax::zmq::discovery::{build_key, build_strategy_key, heartbeat_interval, ServiceType};
use boldtrax::zmq::frames::{
    command_frames, dealer_payload, event_frames, reply_frames, router_message, strategy_payload,
};
use boldtrax::zmq::protocol::{ZmqCommand, ZmqEvent, ZmqResponse};
use boldtrax::zmq::router::{CoreCall, Routes};
use boldtrax::zmq::server::{
    account_response, position_response, process_command, submit_response, unreadable_response, Managers, Plan,
};
use boldtrax::zmq::strategy::{forwarded, handle, unreadable, StrategyCommand, StrategyPlan, StrategyResponse};

const ALL: Managers = Managers { orders: true, positions: true, account: true };
const NONE: Managers = Managers { orders: false, positions: false, account: false };

fn key() -> InstrumentKey {
    btcusdt_swap().key
}

fn plan(managers: Managers, command: ZmqCommand) -> Plan {
    process_command(Exchange::Binance, managers, &test_registry(), command)
}

fn says(p: Plan, message: &str) -> bool {
    matches!(p, Plan::Reply(ZmqResponse::Error(m)) if m == message)
}

#[test]
fn commands_go_to_their_managers() {
    assert!(matches!(plan(ALL, ZmqCommand::CancelOrder("x".to_string())), Plan::Cancel(id) if id == "x"));
    assert!(matches!(plan(ALL, ZmqCommand::GetPosition(key())), Plan::Position(k) if k == key()));
    assert!(matches!(plan(ALL, ZmqCommand::GetAllPositions), Plan::AllPositions));
    assert!(matches!(plan(ALL, ZmqCommand::GetAccountSnapshot), Plan::Account(Exchange::Binance)));
    assert!(matches!(plan(ALL, ZmqCommand::SubmitOrder(Order::default().request)), Plan::Submit(_)));
}

#[test]
fn absent_managers_are_told() {
    assert!(says(
        plan(NONE, ZmqCommand::SubmitOrder(Order::default().request)),
        "Order management not implemented for this exchange"
    ));
    assert!(says(
        plan(NONE, ZmqCommand::CancelOrder("x".to_string())),
        "Order management not implemented for this exchange"
    ));
    assert!(says(
        plan(NONE, ZmqCommand::GetPosition(key())),
        "Position management not implemented for this exchange"
    ));
    assert!(says(
        plan(NONE, ZmqCommand::GetAllPositions),
        "Position management not implemented for this exchange"
    ));
    assert!(says(
        plan(NONE, ZmqCommand::GetAccountSnapshot),
        "Account management not implemented for this exchange"
    ));
}

#[test]
fn instruments_are_answered_at_once() {
    match plan(NONE, ZmqCommand::GetInstrument(key())) {
        Plan::Reply(ZmqResponse::Instrument(found)) => assert_eq!(found, Some(btcusdt_swap())),
        _ => panic!("expected an instrument"),
    }
    match plan(NONE, ZmqCommand::GetAllInstruments) {
        Plan::Reply(ZmqResponse::AllInstruments(list)) => assert_eq!(list.len(), 3),
        _ => panic!("expected instruments"),
    }
}

#[test]
fn results_become_responses_and_are_read_back() {
    let order = Order::default();
    assert_eq!(submit_order_answer(submit_response(Ok(order.clone()))), Ok(order));
    assert_eq!(
        submit_order_answer(submit_response(Err(TradingError::RateLimited))),
        Err("Exchange error: rate limited".to_string())
    );
    assert_eq!(position_response(None), ZmqResponse::Position(None));
    match account_response(Err(AccountManagerError::ActorMailboxClosed)) {
        ZmqResponse::Error(m) => assert_eq!(m, "account manager actor mailbox is closed"),
        _ => panic!("expected an error"),
    }
    assert!(matches!(unreadable_response(), ZmqResponse::Error(_)));
    assert_eq!(get_reference_price_answer(ZmqResponse::ReferencePrice(Decimal::one())), Ok(Decimal::one()));
    assert_eq!(set_leverage_answer(ZmqResponse::SetLeverageAck(Decimal::two())), Ok(Decimal::two()));
    assert_eq!(get_instrument_answer(ZmqResponse::Instrument(None)), Ok(None));
    assert!(get_all_positions_answer(ZmqResponse::Position(None)).is_err());
}

#[test]
fn frames_are_read_by_the_other_side() {
    let identity = vec![1u8, 2];
    let payload = vec![9u8, 8, 7];
    let mut sent = command_frames(payload.clone());
    sent.insert(0, identity.clone());
    assert_eq!(router_message(&sent), Some((identity.clone(), payload.clone())));

    let reply = reply_frames(identity, payload.clone());
    let received: Vec<Vec<u8>> = reply[1..].to_vec();
    assert_eq!(dealer_payload(&received), Some(payload.clone()));
    assert_eq!(strategy_payload(&received), Some(payload.clone()));

    let event = event_frames("ticker.Binance.BTCUSDT", payload.clone());
    assert_eq!(event[0], b"ticker.Binance.BTCUSDT".to_vec());
    assert_eq!(event[1], payload);

    assert_eq!(router_message(&Vec::new()), None);
    assert_eq!(dealer_payload(&Vec::new()), None);
}

#[test]
fn events_have_topics() {
    let now = UtcTime::from_millis(0).unwrap();
    let book = OrderBookSnapshot::new(key(), Vec::new(), Vec::new(), now, 0);
    let topics = [
        ZmqEvent::OrderBook(book.clone()).topic(),
        ZmqEvent::OrderBookUpdate(OrderBookUpdate { snapshot: book }).topic(),
        ZmqEvent::Ticker(Ticker { key: key(), price: Decimal::one(), volume_24h: None, timestamp: now }).topic(),
        ZmqEvent::Trade(Trade {
            key: key(),
            trade_id: "1".to_string(),
            price: Decimal::one(),
            size: Decimal::one(),
            side: OrderSide::Buy,
            timestamp: now,
        })
        .topic(),
        ZmqEvent::OrderUpdate(OrderEvent::from(Order::default())).topic(),
        ZmqEvent::PositionUpdate(Position { key: key(), ..Position::default() }).topic(),
    ];
    assert_eq!(
        topics,
        [
            "MD.OB.Binance.BTCUSDT",
            "MD.OBU.Binance.BTCUSDT",
            "MD.TICKER.Binance.BTCUSDT",
            "MD.TRADE.Binance.BTCUSDT",
            "EXEC.Binance.BTCUSDT",
            "POS.Binance.BTCUSDT",
        ]
    );
}

#[test]
fn services_are_found_under_their_own_keys() {
    assert_eq!(build_key(Exchange::Binance, ServiceType::Pub), "discovery:binance:pub");
    assert_eq!(build_key(Exchange::Binance, ServiceType::Router), "discovery:binance:router");
    assert_eq!(build_key(Exchange::Okx, ServiceType::Router), "discovery:okx:router");
    assert_eq!(build_key(Exchange::Gateio, ServiceType::Pub), "discovery:gateio:pub");
    assert_eq!(build_key(Exchange::Bybit, ServiceType::Pub), "discovery:bybit:pub");
    assert_eq!(build_key(Exchange::Aster, ServiceType::Pub), "discovery:aster:pub");
    assert_eq!(heartbeat_interval(30), 10);
    assert_eq!(heartbeat_interval(2), 0);
}

#[test]
fn calls_are_routed_to_connected_exchanges() {
    let mut routes = Routes::new();
    assert_eq!(routes.connect(Exchange::Bybit), Some(0));
    assert_eq!(routes.connect(Exchange::Binance), Some(1));
    assert_eq!(routes.connect(Exchange::Bybit), None);
    assert!(routes.has_exchange(Exchange::Bybit));
    assert!(!routes.has_exchange(Exchange::Okx));
    assert_eq!(routes.exchanges().len(), 2);
    assert_eq!(routes.route(&CoreCall::GetPosition(key())), Ok(1));
    assert_eq!(routes.route(&CoreCall::GetAllPositions(Exchange::Bybit)), Ok(0));
    assert!(routes.route(&CoreCall::GetAllInstruments(Exchange::Okx)).is_err());
    assert_eq!(
        CoreCall::CancelOrder(Exchange::Bybit, "id".to_string()).command(),
        ZmqCommand::CancelOrder("id".to_string())
    );
    let far = InstrumentKey { exchange: Exchange::Aster, pair: Pairs::SOLUSDT, ..key() };
    assert_eq!(CoreCall::SetLeverage(far, Decimal::two()).exchange(), Exchange::Aster);
    assert_eq!(
        CoreCall::SetLeverage(far, Decimal::two()).command(),
        ZmqCommand::SetLeverage(far, Decimal::two())
    );
}

#[test]
fn strategies_report_or_pass_commands_on() {
    let status: Option<StrategyResponse<u8>> = Some(StrategyResponse::Status(4));
    assert!(matches!(
        handle(StrategyCommand::<u8>::GetStatus, status),
        StrategyPlan::Reply(StrategyResponse::Status(4))
    ));
    assert!(matches!(
        handle(StrategyCommand::<u8>::GetStatus, None::<StrategyResponse<u8>>),
        StrategyPlan::Reply(StrategyResponse::Error(m)) if m == "Status provider not configured"
    ));
    assert!(matches!(
        handle(StrategyCommand::Engine(3u8), None::<StrategyResponse<u8>>),
        StrategyPlan::Forward(3)
    ));
    assert!(matches!(forwarded::<u8>(true), StrategyResponse::Ack));
    assert!(matches!(
        forwarded::<u8>(false),
        StrategyResponse::Rejected(m) if m == "Command channel full or closed"
    ));
    assert!(matches!(unreadable::<u8>(), StrategyResponse::Error(m) if m == "Invalid payload format"));
}

#[test]
fn strategies_are_found_under_keys_of_their_own() {
    assert_eq!(build_strategy_key("spot_perp_btc"), "discovery:strategy:spot_perp_btc");
    assert_ne!(build_strategy_key("a"), build_strategy_key("b"));
    assert_ne!(build_strategy_key("pub"), build_key(Exchange::Binance, ServiceType::Pub));
}
