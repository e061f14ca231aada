use boldtrax::decimal::Decimal;
use boldtrax::errors::{AccountError, MarketDataError, PriceError, TradingError};
use boldtrax::exchanges::bybit::auth::BybitHmacAuth;
use boldtrax::exchanges::bybit::client::{
    account_snapshot, canceled_order, check_trading_reply, placed_order, read_depth, read_funding_history,
    read_open_orders, read_order_status, read_server_time, read_ticker, BybitClient, BybitConfig, InstrumentPages,
    LEVERAGE_NOT_MODIFIED,
};
use boldtrax::exchanges::bybit::mappers::{
    bybit_position_to_position, ms_to_datetime, order_book_to_snapshot, ws_position_to_patch,
};
use boldtrax::exchanges::bybit::types::{
    BybitAccountEntry, BybitApiResponse, BybitCoinBalance, BybitFundingHistoryResult, BybitFundingRateEntry,
    BybitInstrumentInfo, BybitInstrumentsResult, BybitLeverageFilter, BybitLinearTicker, BybitLotSizeFilter,
    BybitOrderBookResult, BybitOrderEntry, BybitOrderListResult, BybitPositionEntry, BybitPositionResult,
    BybitPriceFilter, BybitServerTime, BybitTickerResult, BybitWalletBalanceResult, BybitWsOrderUpdate,
    BybitWsPositionUpdate, BybitWsPrivateMessage,
};
use boldtrax::exchanges::bybit::ws::{
    ping, BybitDepthPolicy, BybitTopic, BybitUserDataPolicy, BybitWsRawMessage,
};
use boldtrax::exchanges::fixtures::btcusdt_swap;
use boldtrax::http::auth::{hmac_sha256_hex, Method, RequestParts};
use boldtrax::kinds::{
    Currency, Exchange, ExecutionMode, FundingInterval, InstrumentType, OrderSide, OrderStatus, OrderType, Pairs,
};
use boldtrax::manager::order::ClientOrderIds;
use boldtrax::manager::types::AccountModel;
use boldtrax::orders::{OrderEvent, OrderRequest};
use boldtrax::registry::InstrumentRegistry;
use boldtrax::table::Table;
use boldtrax::time::UtcTime;
use boldtrax::types::InstrumentKey;
use hmac::{Hmac, Mac};
use sha2::Sha256;

fn dec(s: &str) -> Decimal {
    Decimal::from_str(s).unwrap()
}

fn at(ms: i64) -> UtcTime {
    UtcTime::from_millis(ms).unwrap()
}

fn key(pair: Pairs) -> InstrumentKey {
    InstrumentKey { exchange: Exchange::Bybit, pair, instrument_type: InstrumentType::Swap }
}

fn reply<T>(result: T) -> BybitApiResponse<T> {
    BybitApiResponse { ret_code: 0, ret_msg: "OK".to_string(), result, time: 1 }
}

fn failed<T>(result: T) -> BybitApiResponse<T> {
    BybitApiResponse { ret_code: 10001, ret_msg: "bad".to_string(), result, time: 1 }
}

fn info(base: &str, status: &str, minutes: u32) -> BybitInstrumentInfo {
    BybitInstrumentInfo {
        symbol: format!("{}USDT", base),
        contract_type: "LinearPerpetual".to_string(),
        status: status.to_string(),
        base_coin: base.to_string(),
        quote_coin: "USDT".to_string(),
        settle_coin: "USDT".to_string(),
        launch_time: "0".to_string(),
        price_scale: "2".to_string(),
        leverage_filter: BybitLeverageFilter {
            min_leverage: "1".to_string(),
            max_leverage: "100".to_string(),
            leverage_step: "0.01".to_string(),
        },
        price_filter: BybitPriceFilter {
            min_price: "0.1".to_string(),
            max_price: "1000000".to_string(),
            tick_size: "0.10".to_string(),
        },
        lot_size_filter: BybitLotSizeFilter {
            max_order_qty: "100".to_string(),
            min_order_qty: "0.001".to_string(),
            qty_step: "0.001".to_string(),
            min_notional_value: "5".to_string(),
        },
        funding_interval: minutes,
        unified_margin_trade: true,
    }
}

fn page(list: Vec<BybitInstrumentInfo>, next: &str) -> BybitApiResponse<BybitInstrumentsResult> {
    reply(BybitInstrumentsResult { category: "linear".to_string(), list, next_page_cursor: next.to_string() })
}

fn registry() -> InstrumentRegistry {
    let mut pages = InstrumentPages::new();
    pages
        .take_page(page(vec![info("BTC", "Trading", 480), info("ETH", "Trading", 60)], ""))
        .unwrap();
    let mut r = InstrumentRegistry::new();
    r.insert_batch(pages.into_list());
    r
}

fn client() -> BybitClient {
    let config = BybitConfig {
        api_key: Some("key".to_string()),
        api_secret: Some("secret".to_string()),
        account_type: "UNIFIED".to_string(),
        ..Default::default()
    };
    BybitClient::new(config, registry())
}

#[test]
fn ms_to_datetime_valid() {
    let dt = ms_to_datetime(1672304484978).unwrap();
    assert_eq!(dt.timestamp_millis(), 1672304484978);
}

#[test]
fn order_book_mapping() {
    let ob = BybitOrderBookResult {
        s: "BTCUSDT".to_string(),
        b: vec![["65000.50".to_string(), "1.5".to_string()]],
        a: vec![["65001.00".to_string(), "2.0".to_string()]],
        ts: Some(1672304484978),
        u: 12345,
    };
    let snapshot = order_book_to_snapshot(&ob, key(Pairs::BTCUSDT)).unwrap();
    assert_eq!(snapshot.bids.len(), 1);
    assert_eq!(snapshot.asks.len(), 1);
}

fn long_entry() -> BybitPositionEntry {
    BybitPositionEntry {
        symbol: "BTCUSDT".to_string(),
        side: "Buy".to_string(),
        size: "0.5".to_string(),
        avg_price: "65000.00".to_string(),
        leverage: "10".to_string(),
        liq_price: "60000.00".to_string(),
        unrealised_pnl: "100.50".to_string(),
        position_value: "32500.00".to_string(),
        updated_time: "1672304484978".to_string(),
    }
}

#[test]
fn position_mapping_long() {
    let pos = bybit_position_to_position(&long_entry(), key(Pairs::BTCUSDT)).unwrap();
    assert!(Decimal::zero().less_than(pos.size));
    assert_eq!(pos.size, Decimal::from_str("0.5").unwrap());
}

#[test]
fn position_mapping_short_is_negative() {
    let entry = BybitPositionEntry {
        symbol: "ETHUSDT".to_string(),
        side: "Sell".to_string(),
        size: "2.0".to_string(),
        avg_price: "3500.00".to_string(),
        leverage: "5".to_string(),
        liq_price: "4000.00".to_string(),
        unrealised_pnl: "-50.00".to_string(),
        position_value: "7000.00".to_string(),
        updated_time: "1672304484978".to_string(),
    };
    let pos = bybit_position_to_position(&entry, key(Pairs::ETHUSDT)).unwrap();
    assert!(pos.size.less_than(Decimal::zero()));
    assert_eq!(pos.size, dec("-2"));
}

#[test]
fn zero_size_position_returns_none() {
    let entry = BybitPositionEntry {
        symbol: "BTCUSDT".to_string(),
        side: "Buy".to_string(),
        size: "0".to_string(),
        avg_price: "0".to_string(),
        leverage: "10".to_string(),
        liq_price: "".to_string(),
        unrealised_pnl: "0".to_string(),
        position_value: "0".to_string(),
        updated_time: "".to_string(),
    };
    assert!(bybit_position_to_position(&entry, key(Pairs::BTCUSDT)).is_none());
}

#[test]
fn short_position_mirrors_a_long_one() {
    let long = bybit_position_to_position(&long_entry(), key(Pairs::BTCUSDT)).unwrap();
    let mut entry = long_entry();
    entry.side = "Sell".to_string();
    let short = bybit_position_to_position(&entry, key(Pairs::BTCUSDT)).unwrap();
    assert_eq!(short.size, long.size.neg());
    assert_eq!(short.entry_price, long.entry_price);
}

fn header(r: &RequestParts, name: &str) -> String {
    r.headers.get(&name.to_string()).unwrap().clone()
}

/// The signature as the crates give it.
fn signed(secret: &[u8], text: &str) -> String {
    let mut mac = Hmac::<Sha256>::new_from_slice(secret).unwrap();
    mac.update(text.as_bytes());
    hex::encode(mac.finalize().into_bytes())
}

#[test]
fn bybit_hmac_produces_valid_signature() {
    let mut r = RequestParts {
        method: Method::Get,
        query: Some("category=linear&symbol=BTCUSDT".to_string()),
        headers: Table::new(),
        body: None,
    };
    let auth = BybitHmacAuth::new("testApiKey".to_string(), "testSecretKey".to_string());
    auth.apply_auth(&mut r).expect("apply_auth should not fail");
    assert_eq!(header(&r, "x-bapi-api-key"), "testApiKey");
    assert_eq!(header(&r, "x-bapi-recv-window"), "5000");
    let payload = "category=linear&symbol=BTCUSDT";
    let sign_str = format!("{}testApiKey5000{}", header(&r, "x-bapi-timestamp"), payload);
    let expected = signed(b"testSecretKey", &sign_str);
    assert_eq!(header(&r, "x-bapi-sign"), expected, "HMAC signature mismatch");
}

#[test]
fn bybit_hmac_post_with_body() {
    let body = r#"{"category":"linear","symbol":"BTCUSDT","side":"Buy","orderType":"Limit"}"#;
    let mut r = RequestParts {
        method: Method::Post,
        query: None,
        headers: Table::new(),
        body: Some(body.as_bytes().to_vec()),
    };
    let auth = BybitHmacAuth::new("testApiKey".to_string(), "testSecretKey".to_string());
    auth.apply_auth(&mut r).expect("apply_auth should not fail");
    let sign_str = format!("{}testApiKey5000{}", header(&r, "x-bapi-timestamp"), body);
    let expected = signed(b"testSecretKey", &sign_str);
    assert_eq!(header(&r, "x-bapi-sign"), expected, "HMAC signature mismatch for POST body");
}

#[test]
fn bybit_hmac_custom_recv_window() {
    let mut r = RequestParts {
        method: Method::Get,
        query: Some("category=linear".to_string()),
        headers: Table::new(),
        body: None,
    };
    let auth = BybitHmacAuth::new("key".to_string(), "secret".to_string()).with_recv_window_ms(10_000);
    auth.apply_auth(&mut r).unwrap();
    assert_eq!(header(&r, "x-bapi-recv-window"), "10000");
}

#[test]
fn bybit_pages_are_followed_to_the_end() {
    let mut pages = InstrumentPages::new();
    assert_eq!(
        pages.next_path().unwrap(),
        "/v5/market/instruments-info?category=linear&limit=1000"
    );
    let bad = failed(BybitInstrumentsResult {
        category: "linear".to_string(),
        list: Vec::new(),
        next_page_cursor: String::new(),
    });
    assert!(matches!(pages.take_page(bad), Err(MarketDataError::Parse(_))));
    pages
        .take_page(page(vec![info("BTC", "Trading", 480), info("DOGE", "Trading", 480)], "abc"))
        .unwrap();
    assert!(pages.next_path().unwrap().ends_with("&cursor=abc"));
    pages.take_page(page(vec![info("SOL", "Settling", 480), info("ETH", "Trading", 240)], "")).unwrap();
    assert_eq!(pages.next_path(), None);
    let list = pages.into_list();
    assert_eq!(list.len(), 2);
    assert_eq!(list[0].funding_interval, Some(FundingInterval::Every8Hours));
    assert_eq!(list[1].funding_interval, Some(FundingInterval::Every4Hours));
    assert_eq!(list[1].tick_size, dec("0.1"));
}

fn request(order_type: OrderType) -> OrderRequest {
    OrderRequest {
        key: key(Pairs::BTCUSDT),
        strategy_id: "arb".to_string(),
        side: OrderSide::Buy,
        order_type,
        price: if order_type == OrderType::Market { None } else { Some(dec("65000.04")) },
        size: dec("0.12345"),
        post_only: false,
        reduce_only: true,
    }
}

#[test]
fn bybit_orders_have_bodies() {
    let c = client();
    let body = c.place_order(&request(OrderType::Limit), "arb-1-BY-0").unwrap().unwrap();
    assert_eq!(
        (body.category.as_str(), body.symbol.as_str(), body.side.as_str(), body.order_type.as_str()),
        ("linear", "BTCUSDT", "Buy", "Limit")
    );
    assert_eq!(body.qty, "0.123");
    assert_eq!(body.price, Some("65000".to_string()));
    assert_eq!(body.time_in_force, Some("GTC".to_string()));
    assert_eq!(body.order_link_id, "arb-1-BY-0");
    assert!(body.reduce_only);
    let post = c.place_order(&request(OrderType::PostOnly), "i").unwrap().unwrap();
    assert_eq!(post.time_in_force, Some("PostOnly".to_string()));
    let market = c.place_order(&request(OrderType::Market), "i").unwrap().unwrap();
    assert_eq!((market.order_type.as_str(), market.price), ("Market", None));
    let cancel = c.cancel_order(key(Pairs::BTCUSDT), "i").unwrap();
    assert_eq!((cancel.symbol.as_str(), cancel.order_link_id.as_str()), ("BTCUSDT", "i"));
    assert!(c.get_open_orders(key(Pairs::BTCUSDT)).unwrap().path.contains("symbol=BTCUSDT"));
    assert!(c.get_order_status(key(Pairs::BTCUSDT), "i").unwrap().path.contains("orderLinkId=i"));
    assert!(matches!(
        c.cancel_order(key(Pairs::SOLUSDT), "i"),
        Err(TradingError::UnsupportedInstrument)
    ));
    let placed = placed_order(request(OrderType::Limit), "c".to_string(), "e".to_string(), at(3));
    assert_eq!((placed.status, placed.created_at), (OrderStatus::New, at(3)));
    let canceled = canceled_order(key(Pairs::BTCUSDT), "arb-1-BY-0", "e".to_string(), at(3));
    assert_eq!((canceled.status, canceled.strategy_id.as_str()), (OrderStatus::Canceled, "arb"));
    assert!(check_trading_reply("x: ", 0, "OK").is_ok());
    assert!(matches!(check_trading_reply("x: ", 1, "no"), Err(TradingError::Parse(_))));
}

#[test]
fn bybit_leverage_that_stays_counts_as_set() {
    let mut c = client();
    let k = key(Pairs::BTCUSDT);
    let body = c.set_leverage(k, dec("7")).unwrap();
    assert_eq!((body.buy_leverage.as_str(), body.sell_leverage.as_str()), ("7", "7"));
    assert!(c.leverage_set(k, dec("7"), 10001, "no").is_err());
    assert_eq!(c.get_leverage(k), None);
    assert_eq!(c.leverage_set(k, dec("7"), LEVERAGE_NOT_MODIFIED, "same").unwrap(), dec("7"));
    assert_eq!(c.get_leverage(k), Some(dec("7")));
    let positions = BybitPositionResult { category: "linear".to_string(), list: vec![long_entry()] };
    let list = c.fetch_positions(&reply(positions)).unwrap();
    assert_eq!(list[0].leverage, dec("7"));
}

fn entry(status: &str) -> BybitOrderEntry {
    BybitOrderEntry {
        symbol: "BTCUSDT".to_string(),
        order_id: "e".to_string(),
        order_link_id: "arb-1-BY-0".to_string(),
        side: "Buy".to_string(),
        order_type: "Limit".to_string(),
        price: "100".to_string(),
        qty: "2".to_string(),
        cum_exec_qty: "1".to_string(),
        avg_price: "99".to_string(),
        order_status: status.to_string(),
        created_time: "5".to_string(),
        updated_time: "6".to_string(),
        reduce_only: false,
    }
}

fn order_list(list: Vec<BybitOrderEntry>) -> BybitOrderListResult {
    BybitOrderListResult { category: "linear".to_string(), list }
}

#[test]
fn bybit_replies_become_orders() {
    let k = key(Pairs::BTCUSDT);
    let order = read_order_status(&reply(order_list(vec![entry("PartiallyFilled")])), k, at(1)).unwrap();
    assert_eq!(order.status, OrderStatus::PartiallyFilled);
    assert_eq!((order.created_at, order.updated_at), (at(5), at(6)));
    assert_eq!(order.strategy_id, "arb");
    assert!(read_order_status(&reply(order_list(Vec::new())), k, at(1)).is_err());
    assert!(read_order_status(&failed(order_list(vec![entry("New")])), k, at(1)).is_err());
    let open = read_open_orders(&reply(order_list(vec![entry("New"), entry("odd")])), k, at(1)).unwrap();
    assert_eq!(open.len(), 1);
}

#[test]
fn bybit_market_data_is_read() {
    let c = client();
    let k = key(Pairs::BTCUSDT);
    let (call, interval) = c.funding_rate_snapshot(k).unwrap();
    assert!(call.path.contains("symbol=BTCUSDT"));
    let ticker = BybitLinearTicker {
        symbol: "BTCUSDT".to_string(),
        last_price: "100".to_string(),
        index_price: "101".to_string(),
        mark_price: "102".to_string(),
        funding_rate: "0.0001".to_string(),
        next_funding_time: "9000".to_string(),
        open_interest: String::new(),
        open_interest_value: String::new(),
        volume24h: String::new(),
        turnover24h: String::new(),
        bid1_price: String::new(),
        ask1_price: String::new(),
        bid1_size: String::new(),
        ask1_size: String::new(),
    };
    let result = BybitTickerResult { category: "linear".to_string(), list: vec![ticker] };
    let snapshot = read_ticker(&reply(result), k, interval, at(4)).unwrap();
    assert_eq!((snapshot.mark_price, snapshot.index_price), (dec("102"), dec("101")));
    assert_eq!(snapshot.next_funding_time_utc, at(9000));
    assert_eq!(snapshot.event_time_utc, at(4));
    let none = BybitTickerResult { category: "linear".to_string(), list: Vec::new() };
    assert!(matches!(read_ticker(&reply(none), k, interval, at(4)), Err(MarketDataError::Parse(_))));
    let history = BybitFundingHistoryResult {
        category: "linear".to_string(),
        list: vec![
            BybitFundingRateEntry {
                symbol: "BTCUSDT".to_string(),
                funding_rate: "0.1".to_string(),
                funding_rate_timestamp: "7".to_string(),
            },
            BybitFundingRateEntry {
                symbol: "BTCUSDT".to_string(),
                funding_rate: "x".to_string(),
                funding_rate_timestamp: "8".to_string(),
            },
        ],
    };
    assert_eq!(read_funding_history(&reply(history), k, interval).unwrap().points.len(), 1);
    let time = BybitServerTime { time_second: "12".to_string(), time_nano: "0".to_string() };
    assert_eq!(read_server_time(&reply(time)).unwrap(), at(12_000));
    let bad = BybitServerTime { time_second: "x".to_string(), time_nano: "0".to_string() };
    assert!(read_server_time(&reply(bad)).is_err());
    let book = BybitOrderBookResult {
        s: "BTCUSDT".to_string(),
        b: vec![["100".to_string(), "1".to_string()], ["x".to_string(), "1".to_string()]],
        a: Vec::new(),
        ts: None,
        u: 1,
    };
    let snapshot = read_depth(&reply(book), k, 33).unwrap().unwrap();
    assert_eq!((snapshot.bids.len(), snapshot.timestamp_ms), (1, 33));
    let refused = BybitOrderBookResult { s: String::new(), b: Vec::new(), a: Vec::new(), ts: None, u: 1 };
    assert!(matches!(read_depth(&failed(refused), k, 33), Ok(Err(PriceError::Parse(_)))));
}

#[test]
fn bybit_wallet_becomes_an_account() {
    let coin = |name: &str, balance: &str, locked: &str| BybitCoinBalance {
        coin: name.to_string(),
        wallet_balance: balance.to_string(),
        locked: locked.to_string(),
        equity: balance.to_string(),
        unrealised_pnl: "2".to_string(),
    };
    let account = BybitAccountEntry {
        account_type: "UNIFIED".to_string(),
        total_equity: "0".to_string(),
        total_wallet_balance: "0".to_string(),
        total_available_balance: "0".to_string(),
        total_perp_upl: "0".to_string(),
        coin: vec![coin("USDT", "100", "30"), coin("BTC", "0", "0"), coin("DOGE", "5", "0")],
    };
    let snapshot =
        account_snapshot(&reply(BybitWalletBalanceResult { list: vec![account] }), at(1)).unwrap().unwrap();
    assert_eq!(snapshot.model, AccountModel::Unified);
    assert_eq!(snapshot.balances.len(), 1);
    assert_eq!(snapshot.balances[0].asset, Currency::USDT);
    assert_eq!(snapshot.balances[0].free, dec("70"));
    assert_eq!(snapshot.balances[0].unrealized_pnl, dec("2"));
    let refused = account_snapshot(&failed(BybitWalletBalanceResult { list: Vec::new() }), at(1)).unwrap();
    assert!(matches!(refused, Err(AccountError::Other(m)) if m == "Bybit wallet error: bad"));
    assert!(client().account_call().unwrap().path.ends_with("accountType=UNIFIED"));
}

#[test]
fn bybit_without_keys_cannot_trade() {
    let c = BybitClient::new(BybitConfig::default(), registry());
    assert!(c.private_client().is_err());
    assert!(c.account_call().is_err());
    assert!(c.user_stream().is_err());
    assert!(c.place_order(&request(OrderType::Limit), "i").unwrap().is_err());
    assert!(BybitConfig::default().validate(ExecutionMode::Live).is_some());
    assert!(c.check_exchange(Exchange::Bybit).is_ok());
    assert!(c.check_exchange(Exchange::Aster).is_err());
    assert_eq!(client().user_stream().unwrap().api_key, "key");
}

#[test]
fn bybit_depth_stream_is_read() {
    let (url, names) = client().stream_order_books(&[key(Pairs::BTCUSDT)]).unwrap();
    let policy = BybitDepthPolicy { url: url.clone(), symbol_map: names, depth: 50 };
    assert_eq!(policy.prepare(), "wss://stream.bybit.com/v5/public/linear");
    let hello = policy.on_connected().unwrap();
    assert_eq!(hello.op, "subscribe");
    assert_eq!(hello.args, Some(vec!["orderbook.50.BTCUSDT".to_string()]));
    assert_eq!(ping().op, "ping");
    assert_eq!(policy.heartbeat_interval(), Some(20));
    let mut message = BybitWsRawMessage {
        topic: Some("orderbook.50.BTCUSDT".to_string()),
        msg_type: Some("snapshot".to_string()),
        ts: Some(1),
        data: Some(BybitOrderBookResult {
            s: "BTCUSDT".to_string(),
            b: vec![["100".to_string(), "1".to_string()]],
            a: Vec::new(),
            ts: None,
            u: 1,
        }),
        op: None,
        success: None,
    };
    let update = policy.parse_message(&message, 9).unwrap().unwrap();
    assert_eq!(update.snapshot.key, key(Pairs::BTCUSDT));
    message.op = Some("pong".to_string());
    assert!(policy.parse_message(&message, 9).unwrap().is_none());
}

#[test]
fn bybit_user_stream_is_read() {
    let policy = BybitUserDataPolicy::new("wss://p".to_string(), "key".to_string(), "secret".to_string());
    let (auth, hello) = policy.on_connected(1).unwrap();
    assert_eq!(auth.expires, 11_000);
    assert_eq!(auth.signature, hmac_sha256_hex(b"secret", b"GET/realtime11000"));
    assert_eq!(hello.args, Some(vec!["order".to_string(), "position".to_string()]));
    assert!(policy.on_connected(u64::MAX).is_none());

    let message = |topic: Option<&str>, op: Option<&str>, success: Option<bool>| BybitWsPrivateMessage {
        topic: topic.map(|t| t.to_string()),
        op: op.map(|t| t.to_string()),
        success,
        ret_msg: Some("why".to_string()),
        creation_time: None,
    };
    assert_eq!(policy.parse_message(&message(Some("order"), None, None)), Ok(BybitTopic::Orders));
    assert_eq!(policy.parse_message(&message(Some("position"), None, None)), Ok(BybitTopic::Positions));
    assert_eq!(policy.parse_message(&message(Some("wallet"), None, None)), Ok(BybitTopic::Nothing));
    assert_eq!(policy.parse_message(&message(None, Some("auth"), Some(true))), Ok(BybitTopic::Control));
    assert_eq!(
        policy.parse_message(&message(None, Some("auth"), Some(false))),
        Err("Bybit private WS auth failed: why".to_string())
    );
    let order = BybitWsOrderUpdate {
        symbol: "BTCUSDT".to_string(),
        order_id: "e".to_string(),
        order_link_id: "arb-1-BY-0".to_string(),
        side: "Sell".to_string(),
        order_type: "Market".to_string(),
        price: "".to_string(),
        qty: "1".to_string(),
        order_status: "Filled".to_string(),
        avg_price: "100".to_string(),
        cum_exec_qty: "1".to_string(),
        leaves_qty: "0".to_string(),
        reduce_only: true,
        created_time: "1".to_string(),
        updated_time: "2".to_string(),
        category: "linear".to_string(),
    };
    let events = policy.order_events(&registry(), &[order], at(3));
    assert!(matches!(&events[0], OrderEvent::Filled(o) if o.request.reduce_only && o.filled_size == dec("1")));
    let position = BybitWsPositionUpdate {
        symbol: "ETHUSDT".to_string(),
        side: "Sell".to_string(),
        size: "3".to_string(),
        entry_price: "50".to_string(),
        leverage: "2".to_string(),
        liq_price: "".to_string(),
        unrealised_pnl: "1".to_string(),
        category: "linear".to_string(),
    };
    assert_eq!(ws_position_to_patch(&position, key(Pairs::ETHUSDT)).unwrap().size, dec("-3"));
    let patches = policy.position_patches(&registry(), &[position]);
    assert_eq!(patches[0].key, key(Pairs::ETHUSDT));
}

#[test]
fn bybit_order_made_elsewhere_has_no_strategy() {
    let mut c = BybitClient::new(BybitConfig::default(), InstrumentRegistry::new());
    assert_eq!(ClientOrderIds::decode_strategy_id(&c, "web_x9f3"), None);
    assert_eq!(ClientOrderIds::decode_strategy_id(&c, "arb-1737410400000-BY-0"), Some("arb".to_string()));
    let mut other = InstrumentRegistry::new();
    other.insert(btcusdt_swap());
    c.set_registry(other);
    assert_eq!(c.registry().len(), 1);
}
