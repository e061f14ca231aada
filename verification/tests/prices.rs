use boldtrax::decimal::Decimal;
use boldtrax::errors::PriceError;
use boldtrax::kinds::{Exchange, InstrumentType, Pairs};
use boldtrax::manager::price::{PriceManagerConfig, PriceManagerError, PriceState};
use boldtrax::time::UtcTime;
use boldtrax::types::{InstrumentKey, OrderBookSnapshot, OrderBookUpdate, PriceLevel};

fn key(pair: Pairs) -> InstrumentKey {
    InstrumentKey { exchange: Exchange::Binance, pair, instrument_type: InstrumentType::Swap }
}

fn book(pair: Pairs, bid: i64) -> OrderBookSnapshot {
    let level = PriceLevel { price: Decimal::new(bid, 0), quantity: Decimal::one() };
    OrderBookSnapshot::new(key(pair), vec![level], Vec::new(), UtcTime::from_millis(5).unwrap(), 5)
}

#[test]
fn book_is_fetched_once_and_then_given_from_memory() {
    let mut s = PriceState::new(&PriceManagerConfig::default());
    let k = key(Pairs::BTCUSDT);
    assert_eq!(s.cached(&k), None);
    let first = s.handle_get_snapshot(k, 1);
    assert_eq!(first.fetch, Some(k));
    assert!(first.replies.is_empty());
    let second = s.handle_get_snapshot(k, 2);
    assert_eq!(second.fetch, None);

    let came = s.handle_rest_result(k, Ok(book(Pairs::BTCUSDT, 100)));
    assert_eq!(came.update, Some(OrderBookUpdate { snapshot: book(Pairs::BTCUSDT, 100) }));
    assert_eq!(came.replies.len(), 2);
    assert_eq!(came.replies[0].0, 1);
    assert_eq!(came.replies[1].1.as_ref().unwrap(), &book(Pairs::BTCUSDT, 100));

    let third = s.handle_get_snapshot(k, 3);
    assert_eq!(third.fetch, None);
    assert_eq!(third.replies.len(), 1);
    assert_eq!(third.replies[0].1.as_ref().unwrap(), &book(Pairs::BTCUSDT, 100));
    let refresh = s.handle_refresh_snapshot(k, 4);
    assert_eq!(refresh.fetch, Some(k));
    assert!(refresh.replies.is_empty());
}

#[test]
fn update_from_the_stream_serves_those_who_wait() {
    let mut s = PriceState::new(&PriceManagerConfig::default());
    let k = key(Pairs::ETHUSDT);
    s.handle_get_snapshot(k, 9);
    s.handle_get_snapshot(key(Pairs::BTCUSDT), 10);
    let step = s.handle_ws_update(OrderBookUpdate { snapshot: book(Pairs::ETHUSDT, 7) });
    assert_eq!(step.replies.len(), 1);
    assert_eq!(step.replies[0].0, 9);
    assert_eq!(s.cached(&k), Some(book(Pairs::ETHUSDT, 7)));
    assert_eq!(s.cached(&key(Pairs::BTCUSDT)), None);
    s.handle_ws_update(OrderBookUpdate { snapshot: book(Pairs::ETHUSDT, 8) });
    assert_eq!(s.cached(&k), Some(book(Pairs::ETHUSDT, 8)));
}

#[test]
fn book_is_forgotten_after_its_time() {
    let mut s = PriceState::new(&PriceManagerConfig { time_to_live: 0, ..Default::default() });
    let k = key(Pairs::BTCUSDT);
    s.handle_ws_update(OrderBookUpdate { snapshot: book(Pairs::BTCUSDT, 100) });
    assert_eq!(s.cached(&k), None);
}

#[test]
fn failed_fetch_of_a_book_is_told() {
    let mut s = PriceState::new(&PriceManagerConfig::default());
    let k = key(Pairs::BTCUSDT);
    s.handle_get_snapshot(k, 1);
    let step = s.handle_rest_result(k, Err(PriceManagerError::FeederError(PriceError::RateLimited)));
    assert_eq!(step.update, None);
    match &step.replies[0].1 {
        Err(PriceManagerError::FeederError(PriceError::Network(reason))) => {
            assert_eq!(reason, "price feeder error: rate limited")
        }
        _ => panic!("expected a failure"),
    }
    assert_eq!(s.handle_get_snapshot(k, 2).fetch, Some(k));
}

#[test]
fn given_book_answers_at_once() {
    let mut s = PriceState::new(&PriceManagerConfig::default());
    let step = s.handle_get_snapshot_with(key(Pairs::BTCUSDT), 3, Some(book(Pairs::BTCUSDT, 1)));
    assert_eq!(step.fetch, None);
    assert_eq!(step.replies.len(), 1);
    assert_eq!(step.replies[0].0, 3);
}

#[test]
fn keys_have_different_codes() {
    let mut codes = Vec::new();
    for exchange in [Exchange::Binance, Exchange::Bybit, Exchange::Gateio, Exchange::Aster, Exchange::Okx] {
        for pair in [Pairs::BTCUSDT, Pairs::ETHUSDT, Pairs::XRPUSDT, Pairs::USDCUSDT, Pairs::SOLUSDT] {
            for instrument_type in [InstrumentType::Spot, InstrumentType::Swap] {
                codes.push(InstrumentKey { exchange, pair, instrument_type }.code());
            }
        }
    }
    let n = codes.len();
    codes.sort();
    codes.dedup();
    assert_eq!(codes.len(), n);
}
