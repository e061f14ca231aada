use boldtrax::decimal::Decimal;
use boldtrax::errors::{AccountError, ClientError, MarketDataError, PriceError, TradingError};
use boldtrax::exchanges::aster::auth::AsterHmacAuth;
use boldtrax::exchanges::aster::client::{
    account_snapshot, read_canceled_order, read_depth, read_open_orders, read_order_status, read_placed_order,
    read_premium_index, read_server_time, swap_instruments, AsterClient, AsterConfig,
};
use boldtrax::exchanges::aster::mappers::{
    aster_execution_to_order_event, aster_position_risk_to_position, funding_history_to_series, ms_to_datetime,
};
use boldtrax::exchanges::aster::types::{
    AsterDepthLevel, AsterExchangeInfo, AsterFilter, AsterFundingInfo, AsterFundingRateHistory,
    AsterFuturesAccountUpdate, AsterFuturesBalance, AsterFuturesOrderTradeUpdate, AsterFuturesPositionRisk,
    AsterFuturesUserDataEvent, AsterFuturesWsPosition, AsterLeverageResponse, AsterOrderResponse, AsterPartialDepth,
    AsterPremiumIndex, AsterServerTime, AsterSymbolInfo,
};
use boldtrax::exchanges::aster::ws::{AsterDepthPolicy, AsterUserDataPolicy, AsterWsStreamMessage};
use boldtrax::exchanges::common::Overflow;
use boldtrax::http::auth::{hmac_sha256_hex, Method, RequestParts};
use boldtrax::http::client::handle_response;
use boldtrax::kinds::{
    Currency, Exchange, ExecutionMode, FundingInterval, InstrumentType, OrderSide, OrderStatus, OrderType, Pairs,
};
use boldtrax::manager::order::ClientOrderIds;
use boldtrax::manager::types::AccountModel;
use boldtrax::orders::{OrderEvent, OrderRequest};
use boldtrax::registry::InstrumentRegistry;
use boldtrax::table::Table;
use boldtrax::time::UtcTime;
use boldtrax::types::{Instrument, InstrumentKey};

fn dec(s: &str) -> Decimal {
    Decimal::from_str(s).unwrap()
}

fn at(ms: i64) -> UtcTime {
    UtcTime::from_millis(ms).unwrap()
}

fn key() -> InstrumentKey {
    InstrumentKey { exchange: Exchange::Aster, pair: Pairs::SOLUSDT, instrument_type: InstrumentType::Swap }
}

fn symbol(base: &str, status: &str) -> AsterSymbolInfo {
    AsterSymbolInfo {
        symbol: format!("{}USDT", base),
        pair: format!("{}USDT", base),
        contract_type: "PERPETUAL".to_string(),
        status: status.to_string(),
        base_asset: base.to_string(),
        quote_asset: "USDT".to_string(),
        margin_asset: "USDT".to_string(),
        filters: vec![
            AsterFilter::PriceFilter { tick_size: dec("0.01") },
            AsterFilter::LotSize { step_size: dec("0.1") },
            AsterFilter::MinNotional { notional: dec("5") },
            AsterFilter::Other,
        ],
    }
}

fn instruments() -> Vec<Instrument> {
    let info = AsterExchangeInfo {
        server_time: 1,
        symbols: vec![symbol("SOL", "TRADING"), symbol("DOGE", "TRADING"), symbol("ETH", "BREAK")],
    };
    let funding = [AsterFundingInfo { symbol: "SOLUSDT".to_string(), funding_interval_hours: 4 }];
    swap_instruments(&info, &funding)
}

fn registry() -> InstrumentRegistry {
    let mut r = InstrumentRegistry::new();
    r.insert_batch(instruments());
    r
}

fn client() -> AsterClient {
    let config = AsterConfig {
        api_key: Some("key".to_string()),
        api_secret: Some("secret".to_string()),
        recv_window: 5000,
        ..Default::default()
    };
    AsterClient::new(config, registry()).unwrap()
}

fn request(order_type: OrderType, price: Option<&str>) -> OrderRequest {
    OrderRequest {
        key: key(),
        strategy_id: "arb".to_string(),
        side: OrderSide::Sell,
        order_type,
        price: price.map(dec),
        size: dec("1.29"),
        post_only: false,
        reduce_only: false,
    }
}

fn response(status: &str) -> AsterOrderResponse {
    AsterOrderResponse {
        symbol: "SOLUSDT".to_string(),
        order_id: 5,
        client_order_id: "arb-1-AS-0".to_string(),
        price: "100".to_string(),
        orig_qty: "2".to_string(),
        executed_qty: "1".to_string(),
        status: status.to_string(),
        order_type: "LIMIT".to_string(),
        side: "SELL".to_string(),
        time: Some(7),
        update_time: Some(8),
        avg_price: Some("99".to_string()),
    }
}

#[test]
fn aster_swaps_that_trade_become_instruments() {
    let list = instruments();
    assert_eq!(list.len(), 1);
    assert_eq!(list[0].key, key());
    assert_eq!(list[0].tick_size, dec("0.01"));
    assert_eq!(list[0].lot_size, dec("0.1"));
    assert_eq!(list[0].min_notional, Some(dec("5")));
    assert_eq!(list[0].funding_interval, Some(FundingInterval::Every4Hours));

    let mut c = AsterClient::new(AsterConfig::default(), InstrumentRegistry::new()).unwrap();
    assert!(c.needs_instruments());
    c.load_instruments(list);
    assert!(!c.needs_instruments());
    assert_eq!(c.registry().len(), 1);
}

#[test]
fn aster_orders_are_asked_for_by_path() {
    let c = client();
    let call = c.place_order(&request(OrderType::Limit, Some("99.996")), "id").unwrap().unwrap();
    assert_eq!(call.method, Method::Post);
    assert!(call.signed);
    assert_eq!(
        call.path,
        "/fapi/v1/order?symbol=SOLUSDT&side=SELL&type=LIMIT&quantity=1.2&newClientOrderId=id&price=100&timeInForce=GTC"
    );
    let market = c.place_order(&request(OrderType::Market, None), "id").unwrap().unwrap();
    assert_eq!(
        market.path,
        "/fapi/v1/order?symbol=SOLUSDT&side=SELL&type=MARKET&quantity=1.2&newClientOrderId=id"
    );
    let mut closing = request(OrderType::PostOnly, Some("100"));
    closing.reduce_only = true;
    let post = c.place_order(&closing, "id").unwrap().unwrap();
    assert_eq!(
        post.path,
        "/fapi/v1/order?symbol=SOLUSDT&side=SELL&type=POST_ONLY&quantity=1.2&newClientOrderId=id&price=100&reduceOnly=true"
    );

    assert_eq!(
        c.cancel_order(key(), "id").unwrap().path,
        "/fapi/v1/order?symbol=SOLUSDT&origClientOrderId=id"
    );
    assert_eq!(c.cancel_order(key(), "id").unwrap().method, Method::Delete);
    assert_eq!(c.get_order_status(key(), "id").unwrap().method, Method::Get);
    assert_eq!(c.get_open_orders(key()).unwrap().path, "/fapi/v1/openOrders?symbol=SOLUSDT");
    assert_eq!(c.positions_call().unwrap().path, "/fapi/v2/positionRisk");
    assert_eq!(c.account_call().unwrap().path, "/fapi/v2/balance");
    let mut unknown = request(OrderType::Market, None);
    unknown.key = InstrumentKey { pair: Pairs::BTCUSDT, ..key() };
    assert!(matches!(c.place_order(&unknown, "id"), Some(Err(TradingError::UnsupportedInstrument))));
    let mut huge = request(OrderType::Limit, Some("1"));
    huge.size = Decimal::max_value();
    assert!(c.place_order(&huge, "id").is_none());
}

#[test]
fn aster_without_keys_has_no_account() {
    let c = AsterClient::new(AsterConfig::default(), registry()).unwrap();
    assert!(matches!(c.account_call(), Err(AccountError::Other(_))));
    assert!(c.private_client().is_err());
    assert!(c.user_stream().is_err());
    assert!(c.positions_call().is_err());
    assert!(c.place_order(&request(OrderType::Market, None), "id").unwrap().is_err());
    assert!(AsterConfig::default().validate(ExecutionMode::Live).is_some());
    assert!(AsterConfig::default().validate(ExecutionMode::Paper).is_none());
    assert!(client().user_stream().is_ok());
    assert!(client().check_exchange(Exchange::Aster).is_ok());
    assert!(client().check_exchange(Exchange::Bybit).is_err());
}

#[test]
fn aster_leverage_is_remembered() {
    let mut c = client();
    assert_eq!(
        c.set_leverage(key(), dec("3")).unwrap().path,
        "/fapi/v1/leverage?symbol=SOLUSDT&leverage=3"
    );
    assert_eq!(c.get_leverage(key()), None);
    let reply = AsterLeverageResponse {
        symbol: "SOLUSDT".to_string(),
        leverage: 4,
        max_notional_value: "1".to_string(),
    };
    assert_eq!(c.leverage_set(key(), &reply), dec("4"));
    assert_eq!(c.get_leverage(key()), Some(dec("4")));
    let risk = AsterFuturesPositionRisk {
        symbol: "SOLUSDT".to_string(),
        position_side: "BOTH".to_string(),
        position_amt: "2".to_string(),
        entry_price: "100".to_string(),
        un_realized_profit: "1".to_string(),
        liquidation_price: "50".to_string(),
        mark_price: "99".to_string(),
        update_time: 1,
    };
    let p = aster_position_risk_to_position(&risk, key()).unwrap();
    assert_eq!((p.leverage, p.liquidation_price), (dec("1"), Some(dec("50"))));
    let list = c.fetch_positions(&[risk]);
    assert_eq!(list.len(), 1);
    assert_eq!(list[0].leverage, dec("4"));
    let other = InstrumentKey { pair: Pairs::BTCUSDT, ..key() };
    assert!(c.set_leverage(other, dec("3")).is_err());
}

#[test]
fn aster_replies_become_orders() {
    let placed = read_placed_order(&response("NEW"), &request(OrderType::Limit, Some("100")), "client").unwrap();
    assert_eq!(placed.status, OrderStatus::New);
    assert_eq!(placed.strategy_id, "arb");
    assert_eq!(placed.internal_id, "client");
    assert_eq!(placed.avg_fill_price, Some(dec("99")));
    let canceled = read_canceled_order(&response("CANCELED"), key(), "order").unwrap();
    assert_eq!((canceled.status, canceled.internal_id.as_str()), (OrderStatus::Canceled, "order"));
    assert_eq!(canceled.strategy_id, "arb");
    assert_eq!(read_order_status(&response("FILLED"), key()).unwrap().status, OrderStatus::Filled);
    assert!(matches!(read_order_status(&response("odd"), key()), Err(TradingError::Parse(_))));
    let orders = read_open_orders(&[response("NEW"), response("PARTIALLY_FILLED")], key()).unwrap();
    assert_eq!(orders.len(), 2);
}

#[test]
fn aster_balances_become_an_account() {
    let list = [
        AsterFuturesBalance {
            account_alias: None,
            asset: "USDT".to_string(),
            balance: "100".to_string(),
            cross_un_pnl: "-3".to_string(),
            cross_wallet_balance: None,
            available_balance: "80".to_string(),
            update_time: 0,
        },
        AsterFuturesBalance {
            account_alias: None,
            asset: "DOGE".to_string(),
            balance: "1".to_string(),
            cross_un_pnl: "0".to_string(),
            cross_wallet_balance: None,
            available_balance: "1".to_string(),
            update_time: 0,
        },
    ];
    let snapshot = account_snapshot(&list, at(5)).unwrap();
    assert_eq!(snapshot.exchange, Exchange::Aster);
    assert_eq!(snapshot.model, AccountModel::Segmented);
    assert_eq!(snapshot.balances.len(), 1);
    assert_eq!(snapshot.balances[0].asset, Currency::USDT);
    assert_eq!(snapshot.balances[0].total, dec("100"));
    assert_eq!(snapshot.balances[0].unrealized_pnl, dec("-3"));
}

#[test]
fn aster_market_data_is_read() {
    let c = client();
    let (call, interval) = c.funding_rate_snapshot(key()).unwrap();
    assert_eq!(call.path, "/fapi/v3/premiumIndex?symbol=SOLUSDT");
    assert_eq!(interval, FundingInterval::Every4Hours);
    let index = AsterPremiumIndex {
        symbol: "SOLUSDT".to_string(),
        mark_price: dec("100.5"),
        last_funding_rate: dec("0.0002"),
        next_funding_time: 2_000,
        time: 1_000,
    };
    let snapshot = read_premium_index(&index, key(), interval).unwrap();
    assert_eq!(snapshot.funding_rate, dec("0.0002"));
    assert_eq!(snapshot.next_funding_time_utc, at(2_000));
    let (history, _) = c.funding_rate_history(key(), at(1), at(2), 10).unwrap();
    assert_eq!(history.path, "/fapi/v3/fundingRate?symbol=SOLUSDT&startTime=1&endTime=2&limit=10");
    let entries = [AsterFundingRateHistory {
        symbol: "SOLUSDT".to_string(),
        funding_rate: dec("0.1"),
        funding_time: 3,
    }];
    assert_eq!(funding_history_to_series(&entries, Pairs::SOLUSDT, interval).points.len(), 1);
    assert_eq!(read_server_time(&AsterServerTime { server_time: 77 }).unwrap(), at(77));
    assert!(matches!(
        read_server_time(&AsterServerTime { server_time: u64::MAX >> 1 }),
        Err(MarketDataError::Parse(_))
    ));
    assert_eq!(ms_to_datetime(5), Some(at(5)));
    let spot = InstrumentKey { instrument_type: InstrumentType::Spot, ..key() };
    assert!(matches!(c.funding_rate_snapshot(spot), Err(MarketDataError::UnsupportedInstrument)));
}

fn depth(bid: Decimal, ask: Decimal) -> AsterPartialDepth {
    AsterPartialDepth {
        event_type: None,
        message_time: None,
        transaction_time: None,
        symbol: None,
        first_update_id: None,
        final_update_id: None,
        previous_final_update_id: None,
        bids: vec![AsterDepthLevel(bid, dec("1"))],
        asks: vec![AsterDepthLevel(ask, dec("1"))],
    }
}

#[test]
fn aster_depth_becomes_a_book() {
    let c = client();
    assert_eq!(c.fetch_order_book(key()).unwrap().path, "/fapi/v3/depth?symbol=SOLUSDT&limit=5");
    let book = read_depth(&depth(dec("99"), dec("101")), key(), 12).unwrap().unwrap();
    assert_eq!(book.mid, Some(dec("100")));
    assert!(matches!(
        read_depth(&depth(Decimal::max_value(), Decimal::max_value()), key(), 12),
        Err(Overflow)
    ));
    assert!(matches!(
        read_depth(&depth(dec("99"), dec("101")), key(), i64::MAX),
        Ok(Err(PriceError::Parse(_)))
    ));
    let (url, names) = c.stream_order_books(&[key()]).unwrap();
    assert_eq!(url, "wss://fstream.asterdex.com/stream?streams=solusdt@depth5@100ms");
    let policy = AsterDepthPolicy { url: url.clone(), symbol_map: names };
    assert_eq!(policy.prepare(), url);
    let message = AsterWsStreamMessage {
        stream: "solusdt@depth5@100ms".to_string(),
        data: depth(dec("99"), dec("101")),
    };
    assert_eq!(policy.parse_message(&message, 12).unwrap().unwrap().snapshot.key, key());
    let other = AsterWsStreamMessage {
        stream: "btcusdt@depth5@100ms".to_string(),
        data: depth(dec("99"), dec("101")),
    };
    assert!(policy.parse_message(&other, 12).unwrap().is_none());
    assert!(c.stream_order_books(&[]).is_none());
}

#[test]
fn aster_user_stream_is_read() {
    let mut policy = AsterUserDataPolicy::new("wss://a".to_string());
    assert!(policy.prepare("lk".to_string()).ends_with("lk"));
    assert!(policy.heartbeat_path().ends_with("lk"));
    assert!(policy.heartbeat_interval().is_some());
    let refused = handle_response(401, "").unwrap_err().message();
    assert_eq!(
        policy.heartbeat_failed(&refused),
        Err("Aster listen key expired (unauthorized); forcing reconnect".to_string())
    );
    assert!(policy.heartbeat_failed(&handle_response(410, "gone").unwrap_err().message()).is_err());
    assert!(policy.heartbeat_failed(&handle_response(500, "").unwrap_err().message()).is_ok());
    let report = AsterFuturesOrderTradeUpdate {
        symbol: "SOLUSDT".to_string(),
        order_id: 9,
        client_order_id: "arb-1-AS-0".to_string(),
        side: "BUY".to_string(),
        order_type: "LIMIT".to_string(),
        order_status: "FILLED".to_string(),
        original_quantity: "2".to_string(),
        original_price: "100".to_string(),
        order_filled_accumulated_quantity: "2".to_string(),
        average_price: "100".to_string(),
        order_trade_time: 5,
    };
    match aster_execution_to_order_event(&report, key()) {
        Some(OrderEvent::Filled(o)) => assert_eq!(o.strategy_id, "arb"),
        _ => panic!("expected a fill"),
    }
    let order = AsterFuturesUserDataEvent::OrderTradeUpdate { order: Box::new(report) };
    assert!(policy.parse_message(&registry(), &order).order.is_some());
    let update = AsterFuturesUserDataEvent::AccountUpdate {
        update: AsterFuturesAccountUpdate {
            positions: vec![AsterFuturesWsPosition {
                symbol: "SOLUSDT".to_string(),
                position_amt: "3".to_string(),
                entry_price: "100".to_string(),
                unrealized_profit: "0".to_string(),
            }],
        },
    };
    let data = policy.parse_message(&registry(), &update);
    assert_eq!(data.positions.len(), 1);
    assert_eq!(data.positions[0].size, dec("3"));
}

#[test]
fn aster_signs_like_binance() {
    let auth = AsterHmacAuth::new("key".to_string(), "secret".to_string()).with_recv_window_ms(10);
    let mut r = RequestParts {
        method: Method::Get,
        query: Some("symbol=SOLUSDT".to_string()),
        headers: Table::new(),
        body: None,
    };
    auth.apply_auth_at(&mut r, 5).unwrap();
    let query = r.query.clone().unwrap();
    let (signed, sig) = query.split_once("&signature=").unwrap();
    assert_eq!(sig, hmac_sha256_hex(b"secret", signed.as_bytes()));
    assert!(signed.starts_with("symbol=SOLUSDT&timestamp="));
    assert!(signed.ends_with("&recvWindow=10&nonce=5&user=key&signer=key"), "{}", signed);
    assert_eq!(r.headers.get(&"x-mbx-apikey".to_string()), Some(&"key".to_string()));
    auth.apply_auth(&mut r).unwrap();
    assert_ne!(r.query.unwrap(), query);
}

#[test]
fn aster_order_made_elsewhere_has_no_strategy() {
    let c = client();
    assert_eq!(ClientOrderIds::decode_strategy_id(&c, "web_x9f3"), None);
    assert_eq!(ClientOrderIds::decode_strategy_id(&c, "arb-1737410400000-AS-0"), Some("arb".to_string()));
    assert_eq!(
        ClientOrderIds::encode_client_order_id(&c, "arb-1-AS-0", "arb"),
        Some("arb-1-AS-0".to_string())
    );
}

#[test]
fn aster_address_has_to_parse() {
    let config = AsterConfig { futures_base_url: Some("not a url".to_string()), ..Default::default() };
    match AsterClient::new(config, registry()) {
        Err(ClientError::InvalidUrl(m)) => assert_eq!(m, "relative URL without a base"),
        _ => panic!("expected a refusal"),
    }
}

#[test]
fn aster_goes_by_what_is_registered() {
    let mut c = AsterClient::new(AsterConfig::default(), InstrumentRegistry::new()).unwrap();
    assert!(c.registry().get(&key()).is_none());
    c.set_registry(registry());
    assert!(c.registry().get(&key()).is_some());
    assert!(c.needs_instruments());
}
