use boldtrax::decimal::Decimal;
use boldtrax::exchanges::fixtures::{btcusdt_spot, btcusdt_swap, ethusdt_swap, test_registry};
use boldtrax::registry::InstrumentRegistry;
use boldtrax::time::UtcTime;
use boldtrax::types::{
    Currency, Exchange, InstrumentKey, InstrumentType, OrderBookSnapshot, OrderSide, OrderStatus, OrderType, Pairs,
    PriceLevel,
};

fn dec(s: &str) -> Decimal {
    Decimal::from_str(s).unwrap()
}

fn level(price: &str, quantity: &str) -> PriceLevel {
    PriceLevel { price: dec(price), quantity: dec(quantity) }
}

#[test]
fn test_instrument_key_display_and_parse() {
    let key = InstrumentKey {
        exchange: Exchange::Binance,
        pair: Pairs::BTCUSDT,
        instrument_type: InstrumentType::Swap,
    };

    let key_str = key.to_string();
    assert_eq!(key_str, "BTCUSDT-BN-SWAP");

    let parsed_key = InstrumentKey::from_str(&key_str).unwrap();
    assert_eq!(parsed_key, key);
}

#[test]
fn test_instrument_key_parse_invalid() {
    assert!(InstrumentKey::from_str("BTCUSDT-BN").is_err());
    assert!(InstrumentKey::from_str("INVALID-BN-SWAP").is_err());
    assert!(InstrumentKey::from_str("BTCUSDT-INVALID-SWAP").is_err());
    assert!(InstrumentKey::from_str("BTCUSDT-BN-INVALID").is_err());
}

#[test]
fn test_exchange_strum_properties() {
    assert_eq!(Exchange::Binance.short_code(), "BN");
    assert_eq!(Exchange::Binance.to_string(), "binance");
    assert_eq!(Exchange::from_str("BN").unwrap(), Exchange::Binance);
    assert_eq!(Exchange::from_str("binance").unwrap(), Exchange::Binance);
}

#[test]
fn every_key_is_read_back_from_its_text() {
    let exchanges =
        [Exchange::Binance, Exchange::Bybit, Exchange::Gateio, Exchange::Aster, Exchange::Okx];
    let pairs = [Pairs::BTCUSDT, Pairs::ETHUSDT, Pairs::XRPUSDT, Pairs::USDCUSDT, Pairs::SOLUSDT];
    for exchange in exchanges {
        for pair in pairs {
            for instrument_type in [InstrumentType::Spot, InstrumentType::Swap] {
                let key = InstrumentKey { exchange, pair, instrument_type };
                assert_eq!(InstrumentKey::from_str(&key.to_string()), Ok(key));
            }
        }
    }
}

#[test]
fn key_is_read_whatever_the_name_of_the_exchange() {
    let key = InstrumentKey::from_str("ETHUSDT-bybit-spot").unwrap();
    assert_eq!(
        key,
        InstrumentKey { exchange: Exchange::Bybit, pair: Pairs::ETHUSDT, instrument_type: InstrumentType::Spot }
    );
    assert!(InstrumentKey::from_str("").is_err());
    assert!(InstrumentKey::from_str("BTCUSDT-BN-SWAP-1").is_err());
}

#[test]
fn kinds_are_read_back_from_their_texts() {
    for c in [Currency::BTC, Currency::ETH, Currency::XRP, Currency::USDT, Currency::USDC, Currency::SOL] {
        assert_eq!(Currency::from_str(&c.to_string()), Some(c));
    }
    for s in [OrderSide::Buy, OrderSide::Sell] {
        assert_eq!(OrderSide::from_str(&s.to_string()), Some(s));
    }
    for t in [OrderType::Market, OrderType::Limit, OrderType::PostOnly] {
        assert_eq!(OrderType::from_str(&t.to_string()), Some(t));
    }
    for p in [Pairs::BTCUSDT, Pairs::ETHUSDT, Pairs::XRPUSDT, Pairs::USDCUSDT, Pairs::SOLUSDT] {
        assert_eq!(Pairs::from_str(&p.to_string()), Some(p));
        assert_eq!(Pairs::from_currencies(p.base(), p.quote()), Some(p));
        assert_eq!(p.to_string(), format!("{}{}", p.base().to_string(), p.quote().to_string()));
    }
    assert_eq!(Pairs::from_currencies(Currency::USDT, Currency::BTC), None);
    assert_eq!(Currency::from_str("DOGE"), None);
    assert_eq!(Exchange::from_str("Kraken"), None);
    assert_eq!(OrderStatus::PartiallyFilled.to_string(), "PartiallyFilled");
}

#[test]
fn price_is_rounded_to_ticks_and_quantity_cut_to_lots() {
    let i = btcusdt_swap();
    let tick = i.tick_size;
    let lot = i.lot_size;
    let price = i.normalize_price(dec("65000.1234567"));
    assert!(price.checked_div(tick).unwrap().round() == price.checked_div(tick).unwrap());
    let quantity = i.normalize_quantity(dec("1.23456789"));
    assert!(quantity.at_most(dec("1.23456789")));
    assert!(quantity.checked_div(lot).unwrap().floor() == quantity.checked_div(lot).unwrap());
    assert_eq!(i.checked_normalize_price(dec("65000.1234567")), Some(price));
    assert_eq!(i.checked_normalize_quantity(dec("1.23456789")), Some(quantity));
}

#[test]
fn prices_of_an_instrument_with_known_steps() {
    let mut i = btcusdt_swap();
    i.tick_size = dec("0.10");
    i.lot_size = dec("0.001");
    i.min_notional = Some(dec("100"));
    assert_eq!(i.normalize_price(dec("65000.17")), dec("65000.2"));
    assert_eq!(i.normalize_quantity(dec("0.0129")), dec("0.012"));
    assert!(i.is_notional_valid(dec("50000"), dec("0.002")));
    assert!(!i.is_notional_valid(dec("50000"), dec("0.0019")));
    assert!(i.is_notional_valid(dec("50000"), dec("0")));
    assert_eq!(i.checked_is_notional_valid(Decimal::max_value(), dec("2")), None);
    i.min_notional = None;
    assert!(i.is_notional_valid(dec("0.01"), dec("0.01")));
    i.tick_size = Decimal::zero();
    assert_eq!(i.checked_normalize_price(dec("65000.17")), None);
    i.lot_size = Decimal::zero();
    assert_eq!(i.checked_normalize_quantity(dec("0.0129")), None);
}

#[test]
fn order_book_has_mid_and_spread() {
    let key = InstrumentKey::default();
    let now = UtcTime::from_millis(1_700_000_000_000).unwrap();
    let book = OrderBookSnapshot::new(
        key,
        vec![level("100.5", "1"), level("100.4", "2")],
        vec![level("101.5", "3")],
        now,
        1_700_000_000_000,
    );
    assert_eq!(book.best_bid, Some(dec("100.5")));
    assert_eq!(book.best_ask, Some(dec("101.5")));
    assert_eq!(book.mid, Some(dec("101")));
    assert_eq!(book.spread, Some(dec("1")));

    let half = OrderBookSnapshot::new(key, vec![level("100.5", "1")], Vec::new(), now, 0);
    assert_eq!(half.best_bid, Some(dec("100.5")));
    assert_eq!(half.best_ask, None);
    assert_eq!(half.mid, None);
    assert_eq!(half.spread, None);

    let top = PriceLevel { price: Decimal::max_value(), quantity: dec("1") };
    assert_eq!(OrderBookSnapshot::checked_new(key, vec![top], vec![top], now, 0), None);
}

#[test]
fn registry_finds_what_was_registered() {
    let registry = test_registry();
    let swap = btcusdt_swap();
    assert_eq!(registry.get(&swap.key), Some(btcusdt_swap()));
    assert!(registry.contains(&swap.key));
    assert_eq!(
        registry.get_by_parts(Exchange::Binance, Pairs::BTCUSDT, InstrumentType::Spot),
        Some(btcusdt_spot())
    );
    assert_eq!(
        registry.get_by_exchange_symbol(Exchange::Binance, "ETHUSDT", InstrumentType::Swap),
        Some(ethusdt_swap())
    );
    assert_eq!(registry.get_by_exchange_symbol(Exchange::Okx, "ETHUSDT", InstrumentType::Swap), None);
    assert_eq!(registry.get_by_pair(Pairs::BTCUSDT).len(), 2);
    assert_eq!(registry.get_by_exchange(Exchange::Binance).len(), 3);
    assert_eq!(registry.get_by_exchange(Exchange::Bybit).len(), 0);
}

#[test]
fn registering_twice_keeps_one() {
    let mut registry = InstrumentRegistry::new();
    assert!(registry.is_empty());
    registry.insert_batch(vec![btcusdt_swap(), ethusdt_swap(), btcusdt_swap()]);
    assert_eq!(registry.len(), 2);
    let mut changed = btcusdt_swap();
    changed.tick_size = dec("0.5");
    let key = changed.key;
    registry.insert(changed);
    assert_eq!(registry.len(), 2);
    assert_eq!(registry.get(&key).unwrap().tick_size, dec("0.5"));
    assert_eq!(registry.get_all().len(), 2);
    registry.clear();
    assert!(registry.is_empty());
    assert_eq!(registry.get(&key), None);
}

#[test]
fn normalizing_twice_is_once() {
    let mut i = btcusdt_swap();
    i.tick_size = dec("0.1");
    i.lot_size = dec("0.003");
    for (quantity, expected) in [("0.0129", "0.012"), ("0.012", "0.012"), ("0.0029", "0"), ("-0.001", "-0.003")] {
        let once = i.normalize_quantity(dec(quantity));
        assert_eq!(once, dec(expected));
        assert_eq!(i.normalize_quantity(once), once);
    }
    for (price, expected) in [("100.04", "100"), ("100.06", "100.1"), ("100.05", "100"), ("100.15", "100.2")] {
        let once = i.normalize_price(dec(price));
        assert_eq!(once, dec(expected));
        assert_eq!(i.normalize_price(once), once);
    }
}

#[test]
fn registering_counts_each_key_once() {
    let mut registry = InstrumentRegistry::new();
    registry.insert(btcusdt_swap());
    registry.insert(ethusdt_swap());
    assert_eq!(registry.len(), 2);
    let mut again = btcusdt_swap();
    again.tick_size = dec("7");
    registry.insert(again);
    assert_eq!(registry.len(), 2);
    assert_eq!(registry.get(&btcusdt_swap().key).unwrap().tick_size, dec("7"));
    assert_eq!(registry.get(&ethusdt_swap().key).unwrap().tick_size, ethusdt_swap().tick_size);
}

#[test]
fn normalizing_twice_is_once_for_other_steps() {
    let mut i = btcusdt_swap();
    for (lot, quantity, expected) in [
        ("0.25", "1.1", "1"),
        ("0.10", "0.99", "0.9"),
        ("0.00500000", "1.0049", "1"),
        ("2.5", "19000000000000000000000000001", "19000000000000000000000000000"),
    ] {
        i.lot_size = dec(lot);
        let once = i.normalize_quantity(dec(quantity));
        assert_eq!(once, dec(expected));
        assert_eq!(i.normalize_quantity(once), once);
    }
    for (tick, price, expected) in [("0.25", "1.125", "1"), ("0.25", "1.375", "1.5"), ("0.10", "1.16", "1.2")] {
        i.tick_size = dec(tick);
        let once = i.normalize_price(dec(price));
        assert_eq!(once, dec(expected));
        assert_eq!(i.normalize_price(once), once);
    }
}
