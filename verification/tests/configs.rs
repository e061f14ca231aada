use boldtrax::config::types::{AppConfig, ExchangeSection, InstrumentRef, RunnerConfig};
use boldtrax::decimal::Decimal;
use boldtrax::errors::ConfigError;
use boldtrax::exchanges::requests::{find_lack, read_keys};
use boldtrax::kinds::{Exchange, ExecutionMode, InstrumentType, Pairs};
use boldtrax::types::InstrumentKey;

fn dec(s: &str) -> Decimal {
    Decimal::from_str(s).unwrap()
}

#[test]
fn default_configuration_is_sound() {
    let config = AppConfig::default();
    assert_eq!(config.execution_mode, ExecutionMode::Paper);
    assert_eq!(config.redis_url, "redis://127.0.0.1:6379");
    assert_eq!(config.risk.max_leverage, Decimal::one());
    assert_eq!(config.risk.max_position_size, dec("1000"));
    assert_eq!(config.risk.max_total_exposure, dec("5000"));
    assert_eq!(config.risk.delta_threshold, dec("0.05"));
    assert_eq!(config.risk.min_funding_rate, dec("0.0001"));
    assert_eq!(config.risk.max_negative_funding_rate, dec("-0.001"));
    assert_eq!(config.risk.daily_drawdown_limit_pct, dec("5"));
    assert_eq!(config.risk.fat_finger.max_order_size, dec("10"));
    assert_eq!(config.risk.fat_finger.max_order_notional_usd, dec("100000"));
    assert_eq!(config.risk.fat_finger.max_price_deviation_pct, dec("5"));
    assert!(config.validate().is_empty());
    assert!(config.accept().is_ok());
    assert_eq!(RunnerConfig::default().account_reconcile_interval(), 30);
    assert_eq!(RunnerConfig::default().funding_rate_poll_interval(), 60);
}

#[test]
fn complaints_are_joined() {
    let mut config = AppConfig::default();
    config.risk.max_position_size = Decimal::zero();
    config.runner.exchanges.push("binance".to_string());
    let complaints = config.validate();
    assert_eq!(complaints.len(), 2);
    assert_eq!(
        complaints[1],
        "runner.exchanges lists 'binance' but no [exchanges.binance] config found"
    );
    let all = complaints.join(", ");
    match config.accept() {
        Err(ConfigError::ValidationFailed { reason }) => assert_eq!(reason, all),
        _ => panic!("expected a refusal"),
    }
}

#[test]
fn sections_list_instruments() {
    let mut config = AppConfig::default();
    config.exchanges.insert(
        "binance".to_string(),
        ExchangeSection {
            instruments: Some(vec![
                Some("BTCUSDT-BN-SWAP".to_string()),
                None,
                Some("nonsense".to_string()),
                Some("ETHUSDT-BN-SPOT".to_string()),
            ]),
        },
    );
    let keys = config.tracked_instruments(Exchange::Binance);
    assert_eq!(keys.len(), 2);
    assert_eq!(keys[1].pair, Pairs::ETHUSDT);
    assert!(config.tracked_instruments(Exchange::Bybit).is_empty());
}

#[test]
fn reference_becomes_a_key() {
    let reference = InstrumentRef { pair: Pairs::XRPUSDT, instrument_type: InstrumentType::Spot };
    assert_eq!(
        reference.to_instrument_key(Exchange::Okx),
        InstrumentKey { exchange: Exchange::Okx, pair: Pairs::XRPUSDT, instrument_type: InstrumentType::Spot }
    );
}

#[test]
fn exchange_that_trades_needs_keys() {
    let some = Some("k".to_string());
    assert!(find_lack("aster", &None, &None, ExecutionMode::Live).is_some());
    assert!(find_lack("aster", &some, &None, ExecutionMode::Live).is_some());
    assert!(find_lack("aster", &some, &some, ExecutionMode::Live).is_none());
    assert!(find_lack("aster", &None, &None, ExecutionMode::Paper).is_none());
    let keys = read_keys(&vec!["BTCUSDT-AS-SWAP".to_string(), "x".to_string()]);
    assert_eq!(keys.len(), 1);
    assert_eq!(keys[0].exchange, Exchange::Aster);
}
