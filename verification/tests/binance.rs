use boldtrax::decimal::Decimal;
use boldtrax::errors::{AccountError, MarketDataError, PriceError, TradingError};
use boldtrax::exchanges::binance::client::{
    futures_instruments, read_depth, read_premium_index, read_server_time, spot_instruments, BinanceApiMode,
    BinanceClient, BinanceConfig, ExecutionStream,
};
use boldtrax::exchanges::binance::mappers::{
    binance_futures_partition, binance_order_response_to_order, binance_position_risk_to_position,
    checked_spot_balance_to_view, funding_history_to_series, futures_balance_to_view,
    futures_execution_to_order_event, partial_depth_to_order_book, spot_balance_to_view,
    spot_execution_to_order_event, ws_depth_event_to_order_book,
};
use boldtrax::exchanges::binance::types::{
    BinanceFilter, BinanceFundingInfo, BinanceFundingRateHistory, BinanceFuturesAccountUpdate,
    BinanceFuturesBalance, BinanceFuturesExchangeInfo, BinanceFuturesOrderTradeUpdate, BinanceFuturesPositionRisk,
    BinanceFuturesSymbol, BinanceFuturesUserDataEvent, BinanceFuturesWsPosition, BinanceOrderResponse,
    BinancePartialDepth, BinancePremiumIndex, BinanceServerTime, BinanceSpotBalance, BinanceSpotExchangeInfo,
    BinanceSpotExecutionReport, BinanceSpotSymbol, BinanceSpotUserDataEvent, BinanceWsApiResponse,
    BinanceWsApiSubscribeResult, BinanceWsDepthEvent,
};
use boldtrax::exchanges::binance::ws::{
    BinanceDepthPolicy, BinanceFuturesUserDataPolicy, BinanceSpotUserDataPolicy,
};
use boldtrax::exchanges::common::Overflow;
use boldtrax::exchanges::fixtures::{binance as fixtures, empty_registry, test_registry};
use boldtrax::http::auth::hmac_sha256_hex;
use boldtrax::http::client::handle_response;
use boldtrax::kinds::{Currency, Exchange, FundingInterval, InstrumentType, OrderSide, OrderStatus, Pairs};
use boldtrax::manager::types::{AccountModel, CollateralScope};
use boldtrax::orders::{Order, OrderEvent};
use boldtrax::table::Table;
use boldtrax::time::UtcTime;
use boldtrax::types::InstrumentKey;
use serde_json::Value;

fn dec(s: &str) -> Decimal {
    Decimal::from_str(s).unwrap()
}

fn at(ms: i64) -> UtcTime {
    UtcTime::from_millis(ms).unwrap()
}

fn key(pair: Pairs, instrument_type: InstrumentType) -> InstrumentKey {
    InstrumentKey { exchange: Exchange::Binance, pair, instrument_type }
}

fn read(json: &str) -> Value {
    serde_json::from_str(json).unwrap()
}

fn text(v: &Value, name: &str) -> String {
    v[name].as_str().unwrap().to_string()
}

fn opt_text(v: &Value, name: &str) -> Option<String> {
    v[name].as_str().map(|s| s.to_string())
}

fn filters(v: &Value) -> Vec<BinanceFilter> {
    v["filters"]
        .as_array()
        .unwrap()
        .iter()
        .map(|f| match f["filterType"].as_str().unwrap() {
            "PRICE_FILTER" => BinanceFilter::PriceFilter { tick_size: text(f, "tickSize") },
            "LOT_SIZE" => BinanceFilter::LotSize { step_size: text(f, "stepSize") },
            "MIN_NOTIONAL" => BinanceFilter::MinNotional {
                notional: opt_text(f, "notional"),
                min_notional: opt_text(f, "minNotional"),
            },
            "NOTIONAL" => BinanceFilter::Notional { min_notional: opt_text(f, "minNotional") },
            _ => BinanceFilter::Other,
        })
        .collect()
}

fn futures_info() -> BinanceFuturesExchangeInfo {
    let symbols = read(fixtures::futures_exchange_info_json())["symbols"]
        .as_array()
        .unwrap()
        .iter()
        .map(|s| BinanceFuturesSymbol {
            symbol: text(s, "symbol"),
            status: text(s, "status"),
            contract_type: text(s, "contractType"),
            base_asset: text(s, "baseAsset"),
            quote_asset: text(s, "quoteAsset"),
            filters: filters(s),
            contract_size: s["contractSize"].as_str().map(dec),
        })
        .collect();
    BinanceFuturesExchangeInfo { symbols }
}

fn funding_info() -> Vec<BinanceFundingInfo> {
    read(fixtures::funding_info_json())
        .as_array()
        .unwrap()
        .iter()
        .map(|f| BinanceFundingInfo {
            symbol: text(f, "symbol"),
            funding_interval_hours: f["fundingIntervalHours"].as_u64().unwrap() as u32,
        })
        .collect()
}

fn spot_info() -> BinanceSpotExchangeInfo {
    let symbols = read(fixtures::spot_exchange_info_json())["symbols"]
        .as_array()
        .unwrap()
        .iter()
        .map(|s| BinanceSpotSymbol {
            symbol: text(s, "symbol"),
            status: text(s, "status"),
            base_asset: text(s, "baseAsset"),
            quote_asset: text(s, "quoteAsset"),
            filters: filters(s),
            is_spot_trading_allowed: s["isSpotTradingAllowed"].as_bool().unwrap(),
        })
        .collect();
    BinanceSpotExchangeInfo { symbols }
}

fn premium_index() -> BinancePremiumIndex {
    let v = read(fixtures::premium_index_json());
    BinancePremiumIndex {
        symbol: text(&v, "symbol"),
        mark_price: text(&v, "markPrice"),
        index_price: text(&v, "indexPrice"),
        last_funding_rate: text(&v, "lastFundingRate"),
        next_funding_time: v["nextFundingTime"].as_i64().unwrap(),
        interest_rate: opt_text(&v, "interestRate"),
        time: v["time"].as_i64().unwrap(),
    }
}

fn spot_balances() -> Vec<BinanceSpotBalance> {
    read(fixtures::spot_account_json())["balances"]
        .as_array()
        .unwrap()
        .iter()
        .map(|b| BinanceSpotBalance { asset: text(b, "asset"), free: text(b, "free"), locked: text(b, "locked") })
        .collect()
}

fn futures_balances() -> Vec<BinanceFuturesBalance> {
    read(fixtures::futures_balance_json())
        .as_array()
        .unwrap()
        .iter()
        .map(|b| BinanceFuturesBalance {
            account_alias: opt_text(b, "accountAlias"),
            asset: text(b, "asset"),
            balance: text(b, "balance"),
            cross_un_pnl: text(b, "crossUnPnl"),
            cross_wallet_balance: opt_text(b, "crossWalletBalance"),
            available_balance: text(b, "availableBalance"),
            update_time: b["updateTime"].as_i64().unwrap_or(0),
        })
        .collect()
}

fn config(mode: BinanceApiMode) -> BinanceConfig {
    BinanceConfig { mode, timeout_secs: 5, max_retries: 0, ..Default::default() }
}

fn private_config() -> BinanceConfig {
    BinanceConfig {
        api_key: Some("test-key".to_string()),
        api_secret: Some("test-secret".to_string()),
        ..config(BinanceApiMode::Both)
    }
}

fn client(mode: BinanceApiMode) -> BinanceClient {
    BinanceClient::new(config(mode), test_registry()).unwrap()
}

#[test]
fn default_config_is_both_mode() {
    let config = BinanceConfig::default();
    assert_eq!(config.mode, BinanceApiMode::Both);
    assert_eq!(config.timeout_secs, 30);
    assert_eq!(config.max_retries, 3);
    assert!(config.api_key.is_none());
    assert!(config.api_secret.is_none());
}

#[test]
fn futures_only_mode_has_no_spot_client() {
    let config = BinanceConfig { mode: BinanceApiMode::Futures, ..Default::default() };
    let client = BinanceClient::new(config, empty_registry()).unwrap();

    assert!(client.futures_client().is_ok());
    assert!(client.spot_client().is_err());
}

#[test]
fn spot_only_mode_has_no_futures_client() {
    let config = BinanceConfig { mode: BinanceApiMode::Spot, ..Default::default() };
    let client = BinanceClient::new(config, empty_registry()).unwrap();

    assert!(client.futures_client().is_err());
    assert!(client.spot_client().is_ok());
}

#[test]
fn health_check_futures_only() {
    let calls = client(BinanceApiMode::Futures).health_check();
    assert_eq!(calls.len(), 1);
    assert_eq!(calls[0].path, "/fapi/v1/ping");
    assert_eq!(calls[0].market, InstrumentType::Swap);
}

#[test]
fn health_check_spot_only() {
    let calls = client(BinanceApiMode::Spot).health_check();
    assert_eq!(calls.len(), 1);
    assert_eq!(calls[0].path, "/api/v3/ping");
    assert_eq!(calls[0].market, InstrumentType::Spot);
    assert_eq!(client(BinanceApiMode::Both).health_check().len(), 2);
}

#[test]
fn server_time_returns_correct_datetime() {
    assert_eq!(client(BinanceApiMode::Futures).server_time().path, "/fapi/v1/time");
    assert_eq!(client(BinanceApiMode::Spot).server_time().path, "/api/v3/time");
    let v = read(fixtures::server_time_json());
    let reply = BinanceServerTime { server_time: v["serverTime"].as_i64().unwrap() };
    let time = read_server_time(&reply).unwrap();
    assert_eq!(time.timestamp_millis(), 1_737_410_400_000);
    assert!(matches!(
        read_server_time(&BinanceServerTime { server_time: i64::MAX }),
        Err(MarketDataError::Parse(_))
    ));
}

#[test]
fn load_instruments_parses_futures_correctly() {
    let list = futures_instruments(&futures_info(), &funding_info()).unwrap();
    let mut client = BinanceClient::new(config(BinanceApiMode::Futures), empty_registry()).unwrap();
    client.load_instruments(list);
    assert_eq!(client.registry().len(), 2);

    let btc = client.registry().get(&key(Pairs::BTCUSDT, InstrumentType::Swap)).expect("BTCUSDT should exist");
    assert_eq!(btc.exchange_symbol, "BTCUSDT");
    assert_eq!(btc.tick_size, dec("0.10"));
    assert_eq!(btc.lot_size, dec("0.001"));
    assert_eq!(btc.min_notional, Some(dec("5")));
    assert_eq!(btc.funding_interval, Some(FundingInterval::Every8Hours));
}

#[test]
fn load_instruments_parses_spot_correctly() {
    let mut client = BinanceClient::new(config(BinanceApiMode::Spot), empty_registry()).unwrap();
    client.load_instruments(spot_instruments(&spot_info()));
    assert_eq!(client.registry().len(), 2);

    let btc = client.registry().get(&key(Pairs::BTCUSDT, InstrumentType::Spot)).expect("BTCUSDT spot should exist");
    assert_eq!(btc.exchange_symbol, "BTCUSDT");
    assert_eq!(btc.funding_interval, None);
    assert_eq!(btc.min_notional, Some(dec("10")));
}

#[test]
fn load_instruments_skips_if_already_loaded() {
    let mut client = BinanceClient::new(config(BinanceApiMode::Futures), empty_registry()).unwrap();
    assert!(client.needs_instruments());
    client.load_instruments(futures_instruments(&futures_info(), &funding_info()).unwrap());
    assert_eq!(client.registry().len(), 2);
    assert!(!client.needs_instruments());
}

#[test]
fn funding_hours_that_overflow_are_refused() {
    let funding = vec![BinanceFundingInfo { symbol: "BTCUSDT".to_string(), funding_interval_hours: u32::MAX }];
    assert!(matches!(futures_instruments(&futures_info(), &funding), Err(Overflow)));
    let every_two =
        vec![BinanceFundingInfo { symbol: "BTCUSDT".to_string(), funding_interval_hours: 2 }];
    let list = futures_instruments(&futures_info(), &every_two).unwrap();
    assert_eq!(list[0].funding_interval, Some(FundingInterval::CustomSeconds(7200)));
    assert_eq!(list[1].funding_interval, None);
}

#[test]
fn funding_rate_snapshot_parses_correctly() {
    let client = client(BinanceApiMode::Futures);
    let k = key(Pairs::BTCUSDT, InstrumentType::Swap);
    let (call, interval) = client.funding_rate_snapshot(k).unwrap();
    assert_eq!(call.path, "/fapi/v1/premiumIndex?symbol=BTCUSDT");
    let snapshot = read_premium_index(&premium_index(), k, interval).unwrap();
    assert_eq!(snapshot.key.pair, Pairs::BTCUSDT);
    assert_eq!(snapshot.funding_rate, dec("0.0001"));
    assert_eq!(snapshot.mark_price, dec("100000.50"));
    assert_eq!(snapshot.index_price, dec("100000.00"));
    assert_eq!(snapshot.interest_rate, None);
    let mut bad = premium_index();
    bad.mark_price = "x".to_string();
    assert!(matches!(read_premium_index(&bad, k, interval), Err(MarketDataError::Parse(_))));
}

#[test]
fn funding_rate_snapshot_rejects_spot() {
    let result = client(BinanceApiMode::Futures).funding_rate_snapshot(key(Pairs::BTCUSDT, InstrumentType::Spot));
    assert!(matches!(result, Err(MarketDataError::UnsupportedInstrument)));
    let unknown = client(BinanceApiMode::Futures).funding_rate_snapshot(key(Pairs::XRPUSDT, InstrumentType::Swap));
    assert!(matches!(unknown, Err(MarketDataError::UnsupportedInstrument) | Err(MarketDataError::NotFound(_))));
}

#[test]
fn funding_rate_history_parses_correctly() {
    let client = client(BinanceApiMode::Futures);
    let k = key(Pairs::BTCUSDT, InstrumentType::Swap);
    let (call, interval) = client.funding_rate_history(k, at(1000), at(2000), 100).unwrap();
    assert_eq!(call.path, "/fapi/v1/fundingRate?symbol=BTCUSDT&startTime=1000&endTime=2000&limit=100");
    let (capped, _) = client.funding_rate_history(k, at(1000), at(2000), 5000).unwrap();
    assert!(capped.path.ends_with("&limit=1000"));
    let history: Vec<BinanceFundingRateHistory> = read(fixtures::funding_rate_history_json())
        .as_array()
        .unwrap()
        .iter()
        .map(|h| BinanceFundingRateHistory {
            funding_rate: text(h, "fundingRate"),
            funding_time: h["fundingTime"].as_i64().unwrap(),
        })
        .collect();
    let series = funding_history_to_series(&history, Pairs::BTCUSDT, interval);
    assert_eq!(series.key.pair, Pairs::BTCUSDT);
    assert_eq!(series.points.len(), 3);
    assert_eq!(series.points[0].funding_rate, dec("0.0001"));
}

#[test]
fn account_snapshot_requires_private_config() {
    let client = client(BinanceApiMode::Both);
    assert!(matches!(client.account_calls(), Err(AccountError::Other(_))));
    assert!(client.spot_private_client().is_err());
    assert!(client.stream_executions().is_err());
}

#[test]
fn account_snapshot_pulls_spot_and_futures_with_private_auth() {
    let client = BinanceClient::new(private_config(), empty_registry()).expect("client should be created");
    let calls = client.account_calls().unwrap();
    assert_eq!(calls.len(), 2);
    assert!(calls.iter().any(|c| c.path == "/api/v3/account?omitZeroBalances=true" && c.signed));
    assert!(calls.iter().any(|c| c.path == "/fapi/v2/balance" && c.signed));
    let snapshot = client.account_snapshot(&spot_balances(), &futures_balances(), at(9)).unwrap();

    assert_eq!(snapshot.exchange, Exchange::Binance);
    assert_eq!(snapshot.model, AccountModel::Segmented);
    assert_eq!(snapshot.partitions.len(), 2);

    let usdt_spot = snapshot
        .balances
        .iter()
        .find(|b| b.asset == Currency::USDT && b.total == dec("110.5"))
        .expect("spot USDT balance should exist");
    assert_eq!(usdt_spot.free, dec("100.5"));
    assert_eq!(usdt_spot.locked, dec("10"));

    let usdt_futures = snapshot
        .balances
        .iter()
        .find(|b| b.asset == Currency::USDT && b.total == dec("250"))
        .expect("futures USDT balance should exist");
    assert_eq!(usdt_futures.unrealized_pnl, dec("5.25"));
    assert_eq!(usdt_futures.collateral_scope, CollateralScope::PartitionOnly);
}

#[test]
fn balances_that_overflow_or_cannot_be_read() {
    let huge = BinanceSpotBalance {
        asset: "USDT".to_string(),
        free: "79228162514264337593543950335".to_string(),
        locked: "1".to_string(),
    };
    assert!(matches!(checked_spot_balance_to_view(&huge, at(1)), Err(Overflow)));
    let unknown =
        BinanceSpotBalance { asset: "DOGE".to_string(), free: "1".to_string(), locked: "0".to_string() };
    assert!(spot_balance_to_view(&unknown, at(1)).is_none());
    let futures = BinanceFuturesBalance {
        account_alias: None,
        asset: "USDT".to_string(),
        balance: "10".to_string(),
        cross_un_pnl: "-2".to_string(),
        cross_wallet_balance: None,
        available_balance: "12".to_string(),
        update_time: 0,
    };
    let view = futures_balance_to_view(&futures, at(1)).unwrap();
    assert_eq!(view.locked, dec("0"));
    assert_eq!(view.free, dec("12"));
    assert_eq!(view.partition, Some(binance_futures_partition()));
}

fn levels(list: &[(&str, &str)]) -> Vec<[String; 2]> {
    list.iter().map(|(p, q)| [p.to_string(), q.to_string()]).collect()
}

#[test]
fn depth_becomes_an_order_book() {
    let k = key(Pairs::BTCUSDT, InstrumentType::Swap);
    assert_eq!(
        client(BinanceApiMode::Futures).fetch_order_book(k).unwrap().path,
        "/fapi/v1/depth?symbol=BTCUSDT&limit=5"
    );
    let mut depth = BinancePartialDepth {
        last_update_id: 1,
        bids: levels(&[("100.0", "1"), ("99", "2")]),
        asks: levels(&[("101.0", "3")]),
    };
    let book = partial_depth_to_order_book(&depth, k, 1_700_000_000_000).unwrap();
    assert_eq!(book.mid, Some(dec("100.5")));
    assert_eq!(book.timestamp_utc, at(1_700_000_000_000));
    assert_eq!(read_depth(&depth, k, 1_700_000_000_000).unwrap().unwrap(), book);
    depth.asks.push(["x".to_string(), "1".to_string()]);
    assert!(partial_depth_to_order_book(&depth, k, 1).is_none());
    assert!(matches!(read_depth(&depth, k, 1), Ok(Err(PriceError::Parse(_)))));
}

#[test]
fn depth_event_prefers_the_time_of_the_engine() {
    let k = key(Pairs::BTCUSDT, InstrumentType::Swap);
    let mut event = BinanceWsDepthEvent {
        event_time_ms: 10,
        transaction_time_ms: 20,
        bids: levels(&[("100", "1")]),
        asks: levels(&[]),
    };
    assert_eq!(ws_depth_event_to_order_book(&event, k).unwrap().timestamp_ms, 20);
    event.transaction_time_ms = 0;
    assert_eq!(ws_depth_event_to_order_book(&event, k).unwrap().timestamp_ms, 10);

    let mut names: Table<String, InstrumentKey> = Table::new();
    names.insert("btcusdt".to_string(), k);
    let policy = BinanceDepthPolicy::new("wss://host".to_string(), names);
    assert!(policy.prepare().contains("btcusdt@depth5@100ms"));
    assert_eq!(policy.message_key("btcusdt@depth5@100ms"), Some(k));
    assert_eq!(policy.message_key("ethusdt@depth5@100ms"), None);
    let update = policy.parse_message("btcusdt@depth5@100ms", &event, at(1)).unwrap().unwrap();
    assert_eq!(update.snapshot.key, k);
}

#[test]
fn streams_follow_the_keys() {
    let client = client(BinanceApiMode::Both);
    let swap = key(Pairs::BTCUSDT, InstrumentType::Swap);
    let spot = key(Pairs::BTCUSDT, InstrumentType::Spot);
    let streams = client.stream_order_books(&[swap, spot]);
    assert_eq!(streams.len(), 2);
    assert!(streams[0].names.contains(&"btcusdt".to_string()));
    assert_eq!(client.stream_order_books(&[swap]).len(), 1);
    assert_eq!(client.stream_order_books(&[]).len(), 0);

    let private = BinanceClient::new(private_config(), empty_registry()).unwrap();
    let executions = private.stream_executions().unwrap();
    assert_eq!(executions.len(), 2);
    assert!(executions.iter().any(|s| matches!(s, ExecutionStream::Spot { api_key, .. } if api_key == "test-key")));
}

fn futures_report(status: &str) -> BinanceFuturesOrderTradeUpdate {
    BinanceFuturesOrderTradeUpdate {
        symbol: "BTCUSDT".to_string(),
        client_order_id: "arb-1-BN-0".to_string(),
        side: "SELL".to_string(),
        order_type: "LIMIT".to_string(),
        order_status: status.to_string(),
        original_quantity: "2".to_string(),
        original_price: "100".to_string(),
        order_filled_accumulated_quantity: "0.5".to_string(),
        average_price: "101".to_string(),
        order_trade_time: 77,
    }
}

#[test]
fn futures_reports_become_events() {
    let k = key(Pairs::BTCUSDT, InstrumentType::Swap);
    match futures_execution_to_order_event(&futures_report("PARTIALLY_FILLED"), k) {
        Some(OrderEvent::PartiallyFilled(o)) => {
            assert_eq!(o.client_order_id, "arb-1-BN-0");
            assert_eq!(o.request.side, OrderSide::Sell);
            assert_eq!(o.filled_size, dec("0.5"));
            assert_eq!(o.avg_fill_price, Some(dec("101")));
            assert_eq!(o.updated_at, at(77));
        }
        _ => panic!("expected a partial fill"),
    }
    assert!(matches!(
        futures_execution_to_order_event(&futures_report("FILLED"), k),
        Some(OrderEvent::Filled(_))
    ));
    assert!(futures_execution_to_order_event(&futures_report("STRANGE"), k).is_none());

    let mut policy = BinanceFuturesUserDataPolicy::new("wss://f".to_string());
    assert!(policy.prepare("abc".to_string()).contains("abc"));
    assert!(policy.heartbeat_path().contains("abc"));
    assert!(policy.heartbeat_interval().is_some());
    assert!(policy.heartbeat_failed(&handle_response(401, "").unwrap_err().message()).is_err());
    assert!(policy.heartbeat_failed(&handle_response(410, "").unwrap_err().message()).is_err());
    assert!(policy.heartbeat_failed("timeout").is_ok());
    let registry = test_registry();
    let order = BinanceFuturesUserDataEvent::OrderTradeUpdate { order: Box::new(futures_report("NEW")) };
    let data = policy.parse_message(&registry, &order);
    assert!(matches!(data.order, Some(OrderEvent::New(_))));
    let update = BinanceFuturesUserDataEvent::AccountUpdate {
        update: BinanceFuturesAccountUpdate {
            positions: vec![BinanceFuturesWsPosition {
                symbol: "BTCUSDT".to_string(),
                position_amt: "-1.5".to_string(),
                entry_price: "100".to_string(),
                unrealized_profit: "3".to_string(),
                position_side: "BOTH".to_string(),
            }],
        },
    };
    let data = policy.parse_message(&registry, &update);
    assert_eq!(data.positions.len(), 1);
    assert_eq!(data.positions[0].size, dec("-1.5"));
    assert_eq!(data.positions[0].key, k);
    let other = policy.parse_message(&registry, &BinanceFuturesUserDataEvent::Other);
    assert!(other.order.is_none() && other.positions.is_empty());
}

#[test]
fn spot_reports_become_events() {
    let report = BinanceSpotExecutionReport {
        symbol: "BTCUSDT".to_string(),
        client_order_id: "arb-1-BN-0".to_string(),
        side: "BUY".to_string(),
        order_type: "MARKET".to_string(),
        order_status: "CANCELED".to_string(),
        order_quantity: "2".to_string(),
        order_price: "0".to_string(),
        cumulative_filled_quantity: "0".to_string(),
        last_executed_price: "0".to_string(),
        order_creation_time: 5,
        transaction_time: 6,
    };
    let k = key(Pairs::BTCUSDT, InstrumentType::Spot);
    match spot_execution_to_order_event(&report, k) {
        Some(OrderEvent::Canceled(o)) => {
            assert_eq!(o.request.price, None);
            assert_eq!(o.avg_fill_price, None);
            assert_eq!(o.created_at, at(5));
        }
        _ => panic!("expected a cancellation"),
    }
    let mut policy =
        BinanceSpotUserDataPolicy::new("wss://s".to_string(), "key".to_string(), "secret".to_string());
    assert_eq!(policy.prepare(), "wss://s");
    let sent = policy.on_connected_as("id-1".to_string(), 1000);
    assert_eq!(sent.id, "id-1");
    assert_eq!(sent.method, "userDataStream.subscribe.signature");
    assert_eq!(sent.signature, hmac_sha256_hex(b"secret", b"apiKey=key&timestamp=1000"));
    let fresh = policy.on_connected(1000);
    assert_eq!(fresh.signature, sent.signature);
    assert_eq!(fresh.id.len(), 36);
    assert_ne!(fresh.id, policy.on_connected(1000).id);
    let good =
        BinanceWsApiResponse { status: 200, result: Some(BinanceWsApiSubscribeResult { subscription_id: 4 }) };
    assert!(policy.confirm(&good, "raw").is_ok());
    let bad = BinanceWsApiResponse { status: 400, result: None };
    assert!(policy.confirm(&bad, "raw").is_err());
    let event = BinanceSpotUserDataEvent::ExecutionReport(Box::new(report));
    assert!(matches!(policy.parse_message(&test_registry(), &event), Some(OrderEvent::Canceled(_))));
    assert!(policy.parse_message(&test_registry(), &BinanceSpotUserDataEvent::Other).is_none());
}

#[test]
fn order_responses_become_orders() {
    let response = BinanceOrderResponse {
        symbol: "BTCUSDT".to_string(),
        order_id: 42,
        client_order_id: "c".to_string(),
        price: "100".to_string(),
        orig_qty: "4".to_string(),
        executed_qty: "2".to_string(),
        status: "PARTIALLY_FILLED".to_string(),
        order_type: "LIMIT".to_string(),
        side: "BUY".to_string(),
        time: None,
        update_time: 9,
        avg_price: None,
        cummulative_quote_qty: Some("210".to_string()),
    };
    let order = binance_order_response_to_order(&response, key(Pairs::BTCUSDT, InstrumentType::Spot), "arb", "i").unwrap();
    assert_eq!(order.exchange_order_id, Some("42".to_string()));
    assert_eq!(order.avg_fill_price, Some(dec("105")));
    assert_eq!(order.status, OrderStatus::PartiallyFilled);
    assert_eq!(order.strategy_id, "arb");
    assert_eq!(order.internal_id, "i");
}

#[test]
fn position_risk_becomes_a_position() {
    let mut risk = BinanceFuturesPositionRisk {
        symbol: "BTCUSDT".to_string(),
        position_side: "BOTH".to_string(),
        position_amt: "-2".to_string(),
        entry_price: "100".to_string(),
        un_realized_profit: "1".to_string(),
        liquidation_price: "0".to_string(),
        mark_price: "99".to_string(),
        update_time: 1,
    };
    let k = key(Pairs::BTCUSDT, InstrumentType::Swap);
    let p = binance_position_risk_to_position(&risk, k).unwrap();
    assert_eq!((p.size, p.entry_price, p.liquidation_price), (dec("-2"), dec("100"), None));
    risk.position_amt = "0".to_string();
    assert!(binance_position_risk_to_position(&risk, k).is_none());
}

#[test]
fn trading_is_not_there_yet() {
    let client = client(BinanceApiMode::Both);
    let k = key(Pairs::BTCUSDT, InstrumentType::Swap);
    let request = Order::default().request;
    assert!(matches!(client.place_order(request, "c".to_string()), Err(TradingError::Other(_))));
    assert!(client.cancel_order(k, "o").is_err());
    assert!(client.get_open_orders(k).is_err());
    assert!(client.get_order_status(k, "o").is_err());
    assert!(client.fetch_positions().is_err());
    assert!(client.check_exchange(Exchange::Binance).is_ok());
    assert!(client.check_exchange(Exchange::Bybit).is_err());
}

#[test]
fn binance_addresses_have_to_parse() {
    let bad = Some("not a url".to_string());
    let mut refused = config(BinanceApiMode::Futures);
    refused.futures_base_url = bad.clone();
    match BinanceClient::new(refused, empty_registry()) {
        Err(MarketDataError::Other(m)) => assert_eq!(m, "invalid url: relative URL without a base"),
        _ => panic!("expected a refusal"),
    }
    let mut unused = config(BinanceApiMode::Futures);
    unused.spot_base_url = bad;
    assert!(BinanceClient::new(unused, empty_registry()).is_ok());
}

#[test]
fn binance_goes_by_what_is_registered() {
    let mut client = BinanceClient::new(config(BinanceApiMode::Futures), empty_registry()).unwrap();
    client.set_registry(test_registry());
    assert_eq!(client.registry().len(), test_registry().len());
    assert!(client.needs_instruments());
}
