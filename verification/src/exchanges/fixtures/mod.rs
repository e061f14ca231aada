use vstd::prelude::*;

use crate::decimal::{Dec, Decimal};
use crate::exchanges::common;
use crate::exchanges::common::InstrumentFacts;
use crate::kinds::{Exchange, FundingInterval, InstrumentType, Pairs};
use crate::registry;
use crate::registry::InstrumentRegistry;
use crate::types::{Instrument, InstrumentKey};

pub mod binance;

verus! {

/// The perpetual future of BTC.
pub open spec fn btcusdt_swap_facts() -> InstrumentFacts {
    InstrumentFacts {
        key: InstrumentKey {
            exchange: Exchange::Binance,
            pair: Pairs::BTCUSDT,
            instrument_type: InstrumentType::Swap,
        },
        exchange_symbol: "BTCUSDT"@,
        exchange_id: "BTCUSDT"@,
        tick_size: Dec { m: 10, s: 2 },
        lot_size: Dec { m: 1, s: 3 },
        min_notional: Some(Dec { m: 5, s: 0 }),
        contract_size: Some(Dec::one()),
        multiplier: Dec::one(),
        funding_interval: Some(FundingInterval::Every8Hours),
    }
}

/// The perpetual future of BTC.
pub fn btcusdt_swap() -> (r: Instrument)
    ensures
        r.facts() == btcusdt_swap_facts(),
{
    Instrument {
        key: InstrumentKey {
            exchange: Exchange::Binance,
            pair: Pairs::BTCUSDT,
            instrument_type: InstrumentType::Swap,
        },
        exchange_symbol: "BTCUSDT".to_owned(),
        exchange_id: "BTCUSDT".to_owned(),
        tick_size: Decimal::new(10, 2),
        lot_size: Decimal::new(1, 3),
        min_notional: Some(Decimal::new(5, 0)),
        contract_size: Some(Decimal::one()),
        multiplier: Decimal::one(),
        funding_interval: Some(FundingInterval::Every8Hours),
    }
}

/// The perpetual future of ETH.
pub open spec fn ethusdt_swap_facts() -> InstrumentFacts {
    InstrumentFacts {
        key: InstrumentKey {
            exchange: Exchange::Binance,
            pair: Pairs::ETHUSDT,
            instrument_type: InstrumentType::Swap,
        },
        exchange_symbol: "ETHUSDT"@,
        exchange_id: "ETHUSDT"@,
        tick_size: Dec { m: 1, s: 2 },
        lot_size: Dec { m: 1, s: 3 },
        min_notional: Some(Dec { m: 5, s: 0 }),
        contract_size: Some(Dec::one()),
        multiplier: Dec::one(),
        funding_interval: Some(FundingInterval::Every8Hours),
    }
}

/// The perpetual future of ETH.
pub fn ethusdt_swap() -> (r: Instrument)
    ensures
        r.facts() == ethusdt_swap_facts(),
{
    Instrument {
        key: InstrumentKey {
            exchange: Exchange::Binance,
            pair: Pairs::ETHUSDT,
            instrument_type: InstrumentType::Swap,
        },
        exchange_symbol: "ETHUSDT".to_owned(),
        exchange_id: "ETHUSDT".to_owned(),
        tick_size: Decimal::new(1, 2),
        lot_size: Decimal::new(1, 3),
        min_notional: Some(Decimal::new(5, 0)),
        contract_size: Some(Decimal::one()),
        multiplier: Decimal::one(),
        funding_interval: Some(FundingInterval::Every8Hours),
    }
}

/// The spot market of BTC.
pub open spec fn btcusdt_spot_facts() -> InstrumentFacts {
    InstrumentFacts {
        key: InstrumentKey {
            exchange: Exchange::Binance,
            pair: Pairs::BTCUSDT,
            instrument_type: InstrumentType::Spot,
        },
        exchange_symbol: "BTCUSDT"@,
        exchange_id: "BTCUSDT"@,
        tick_size: Dec { m: 1, s: 2 },
        lot_size: Dec { m: 1, s: 5 },
        min_notional: Some(Dec { m: 10, s: 0 }),
        contract_size: None,
        multiplier: Dec::one(),
        funding_interval: None,
    }
}

/// The spot market of BTC.
pub fn btcusdt_spot() -> (r: Instrument)
    ensures
        r.facts() == btcusdt_spot_facts(),
{
    Instrument {
        key: InstrumentKey {
            exchange: Exchange::Binance,
            pair: Pairs::BTCUSDT,
            instrument_type: InstrumentType::Spot,
        },
        exchange_symbol: "BTCUSDT".to_owned(),
        exchange_id: "BTCUSDT".to_owned(),
        tick_size: Decimal::new(1, 2),
        lot_size: Decimal::new(1, 5),
        min_notional: Some(Decimal::new(10, 0)),
        contract_size: None,
        multiplier: Decimal::one(),
        funding_interval: None,
    }
}

/// A registry that knows nothing.
pub fn empty_registry() -> (r: InstrumentRegistry)
    ensures
        r@ == Seq::<Instrument>::empty(),
{
    InstrumentRegistry::new()
}

/// A registry that knows two futures and a spot market.
pub fn test_registry() -> (r: InstrumentRegistry)
    ensures
        common::instrument_views(r@) == seq![btcusdt_swap_facts(), ethusdt_swap_facts(), btcusdt_spot_facts()],
{
    let mut registry = InstrumentRegistry::new();
    let btc = btcusdt_swap();
    let eth = ethusdt_swap();
    let spot = btcusdt_spot();
    proof {
        registry::new_key_comes_last(Seq::empty(), btc);
        let one = Seq::<Instrument>::empty().push(btc);
        registry::new_key_comes_last(one, eth);
        registry::new_key_comes_last(one.push(eth), spot);
    }
    registry.insert(btc);
    registry.insert(eth);
    registry.insert(spot);
    assert(common::instrument_views(registry@) =~= seq![
        btcusdt_swap_facts(),
        ethusdt_swap_facts(),
        btcusdt_spot_facts(),
    ]);
    registry
}

} // verus!
