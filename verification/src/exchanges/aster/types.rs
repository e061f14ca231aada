use vstd::prelude::*;

use crate::decimal;
use crate::decimal::{Dec, Decimal};
use crate::exchanges::common::{BaseInstrumentMeta, SwapFacts, SwapInstrumentMeta};
use crate::kinds::{Currency, Exchange, FundingInterval, InstrumentType, Pairs};
use crate::types::{Instrument, InstrumentKey};

verus! {

#[derive(Debug)]
pub struct AsterServerTime {
    pub server_time: u64,
}

#[derive(Debug)]
pub struct AsterExchangeInfo {
    pub server_time: u64,
    pub symbols: Vec<AsterSymbolInfo>,
}

#[derive(Debug)]
pub struct AsterSymbolInfo {
    pub symbol: String,
    pub pair: String,
    pub contract_type: String,
    pub status: String,
    pub base_asset: String,
    pub quote_asset: String,
    pub margin_asset: String,
    pub filters: Vec<AsterFilter>,
}

#[derive(Debug)]
pub enum AsterFilter {
    PriceFilter {
        tick_size: Decimal,
    },
    LotSize {
        step_size: Decimal,
    },
    MinNotional {
        notional: Decimal,
    },
    Other,
}

#[derive(Debug)]
pub struct AsterFundingInfo {
    pub symbol: String,
    pub funding_interval_hours: u8,
}

#[derive(Debug)]
pub struct AsterPremiumIndex {
    pub symbol: String,
    pub mark_price: Decimal,
    pub last_funding_rate: Decimal,
    pub next_funding_time: u64,
    pub time: u64,
}

#[derive(Debug)]
pub struct AsterFundingRateHistory {
    pub symbol: String,
    pub funding_rate: Decimal,
    pub funding_time: u64,
}

#[derive(Debug)]
pub struct AsterPartialDepth {
    pub event_type: Option<String>,
    pub message_time: Option<u64>,
    pub transaction_time: Option<u64>,
    pub symbol: Option<String>,
    pub first_update_id: Option<u64>,
    pub final_update_id: Option<u64>,
    pub previous_final_update_id: Option<u64>,
    pub bids: Vec<AsterDepthLevel>,
    pub asks: Vec<AsterDepthLevel>,
}

#[derive(Debug)]
pub struct AsterDepthLevel(pub Decimal, pub Decimal);

#[derive(Debug)]
pub struct AsterFuturesBalance {
    pub account_alias: Option<String>,
    pub asset: String,
    pub balance: String,
    pub cross_un_pnl: String,
    pub cross_wallet_balance: Option<String>,
    pub available_balance: String,
    pub update_time: i64,
}

#[derive(Debug)]
pub struct AsterLeverageResponse {
    pub symbol: String,
    pub leverage: u32,
    pub max_notional_value: String,
}

#[derive(Debug)]
pub struct AsterFuturesPositionRisk {
    pub symbol: String,
    pub position_side: String,
    pub position_amt: String,
    pub entry_price: String,
    pub un_realized_profit: String,
    pub liquidation_price: String,
    pub mark_price: String,
    pub update_time: i64,
}

/// Response from `POST /fapi/v1/listenKey`.
#[derive(Debug)]
pub struct AsterListenKeyResponse {
    pub listen_key: String,
}

/// Unified REST response for order placement, queries, and cancellations.
///
/// Maps to `POST /fapi/v1/order`, `GET /fapi/v1/order`, and
/// `DELETE /fapi/v1/order`.
#[derive(Debug)]
pub struct AsterOrderResponse {
    pub symbol: String,
    pub order_id: i64,
    pub client_order_id: String,
    /// Price string; `"0"` for market orders.
    pub price: String,
    /// Original order quantity.
    pub orig_qty: String,
    /// Cumulative filled quantity.
    pub executed_qty: String,
    pub status: String,
    pub order_type: String,
    pub side: String,
    /// Order creation time (ms). Present on query/cancel responses.
    pub time: Option<i64>,
    /// Last update time (ms). Present on query and cancel responses.
    pub update_time: Option<i64>,
    /// Average fill price - present on all futures order responses.
    pub avg_price: Option<String>,
}

/// Envelope for events on the Aster futures user-data stream.
///
/// Aster uses the same format as Binance Futures:
/// `{"e":"ORDER_TRADE_UPDATE","o":{...}}`.
#[derive(Debug)]
pub enum AsterFuturesUserDataEvent {
    OrderTradeUpdate {
        order: Box<AsterFuturesOrderTradeUpdate>,
    },
    AccountUpdate {
        update: AsterFuturesAccountUpdate,
    },
    Other,
}

/// Payload inside an `ACCOUNT_UPDATE` user-data event.
#[derive(Debug)]
pub struct AsterFuturesAccountUpdate {
    /// Changed positions (only positions that changed are included).
    pub positions: Vec<AsterFuturesWsPosition>,
}

/// A single position entry inside an `ACCOUNT_UPDATE` event.
#[derive(Debug)]
pub struct AsterFuturesWsPosition {
    /// Symbol, e.g. `"BTCUSDT"`.
    pub symbol: String,
    /// Signed position amount (positive = long, negative = short, zero = closed).
    pub position_amt: String,
    /// Entry price.
    pub entry_price: String,
    /// Unrealized PnL.
    pub unrealized_profit: String,
}

/// Order execution report inside `ORDER_TRADE_UPDATE`.
#[derive(Debug)]
pub struct AsterFuturesOrderTradeUpdate {
    pub symbol: String,
    pub order_id: u64,
    pub client_order_id: String,
    pub side: String,
    pub order_type: String,
    pub order_status: String,
    pub original_quantity: String,
    pub original_price: String,
    pub order_filled_accumulated_quantity: String,
    pub average_price: String,
    pub order_trade_time: i64,
}

/// The step of prices that the filters say: the last of them counts, and zero where none is about
/// it.
pub open spec fn filter_tick(filters: Seq<AsterFilter>) -> Dec
    decreases filters.len(),
{
    if filters.len() == 0 {
        Dec::zero()
    } else {
        match filters.last() {
            AsterFilter::PriceFilter { tick_size } => tick_size@,
            _ => filter_tick(filters.drop_last()),
        }
    }
}

/// The step of quantities that the filters say: the last of them counts, and zero where none is
/// about it.
pub open spec fn filter_step(filters: Seq<AsterFilter>) -> Dec
    decreases filters.len(),
{
    if filters.len() == 0 {
        Dec::zero()
    } else {
        match filters.last() {
            AsterFilter::LotSize { step_size } => step_size@,
            _ => filter_step(filters.drop_last()),
        }
    }
}

/// The least worth of an order that the filters say: the last of them counts.
pub open spec fn filter_notional(filters: Seq<AsterFilter>) -> Option<Dec>
    decreases filters.len(),
{
    if filters.len() == 0 {
        None
    } else {
        match filters.last() {
            AsterFilter::MinNotional { notional } => Some(notional@),
            _ => filter_notional(filters.drop_last()),
        }
    }
}

/// How often funding is paid: every hour, every four or every eight hours, else nothing is known.
pub open spec fn swap_interval(hours: Option<u8>) -> Option<FundingInterval> {
    match hours {
        Some(1) => Some(FundingInterval::EveryHour),
        Some(4) => Some(FundingInterval::Every4Hours),
        Some(8) => Some(FundingInterval::Every8Hours),
        _ => None,
    }
}

/// The future that a symbol stands for, where the library knows it and its steps are not zero.
pub open spec fn swap_of(info: AsterSymbolInfo, hours: Option<u8>) -> Option<SwapFacts> {
    match (Pairs::named(info.pair@), Currency::named(info.base_asset@), Currency::named(info.quote_asset@)) {
        (Some(pairs), Some(base_currency), Some(quote_currency)) => if filter_tick(info.filters@).is_zero()
            || filter_step(info.filters@).is_zero() {
            None
        } else {
            Some(
                SwapFacts {
                    symbol: info.symbol@,
                    base_currency,
                    quote_currency,
                    pairs,
                    tick_size: filter_tick(info.filters@),
                    lot_size: filter_step(info.filters@),
                    min_notional: filter_notional(info.filters@),
                    is_trading_allowed: info.status@ == "TRADING"@,
                    funding_interval: swap_interval(hours),
                },
            )
        },
        _ => None,
    }
}

/// A perpetual future as the exchange lists it.
#[derive(Debug)]
pub struct AsterSwapMeta {
    pub symbol: String,
    pub base_currency: Currency,
    pub quote_currency: Currency,
    pub pairs: Pairs,
    pub tick_size: Decimal,
    pub lot_size: Decimal,
    pub min_notional: Option<Decimal>,
    pub is_trading_allowed: bool,
    pub funding_interval: Option<FundingInterval>,
}

impl AsterSwapMeta {
    pub open spec fn facts(self) -> SwapFacts {
        SwapFacts {
            symbol: self.symbol@,
            base_currency: self.base_currency,
            quote_currency: self.quote_currency,
            pairs: self.pairs,
            tick_size: self.tick_size@,
            lot_size: self.lot_size@,
            min_notional: decimal::view_opt(self.min_notional),
            is_trading_allowed: self.is_trading_allowed,
            funding_interval: self.funding_interval,
        }
    }

    /// Reads a symbol; `None` where the library does not know it or a step is zero.
    pub fn try_new(info: &AsterSymbolInfo, funding_hours: Option<u8>) -> (r: Option<AsterSwapMeta>)
        ensures
            match r {
                Some(m) => swap_of(*info, funding_hours) == Some(m.facts()),
                None => swap_of(*info, funding_hours) is None,
            },
    {
        match (
            Pairs::from_str(info.pair.as_str()),
            Currency::from_str(info.base_asset.as_str()),
            Currency::from_str(info.quote_asset.as_str()),
        ) {
            (Some(pairs), Some(base_currency), Some(quote_currency)) => {
                let filters = &info.filters;
                let mut tick_size = Decimal::zero();
                let mut lot_size = Decimal::zero();
                let mut min_notional: Option<Decimal> = None;
                for i in 0..filters.len()
                    invariant
                        tick_size@ == filter_tick(filters@.take(i as int)),
                        lot_size@ == filter_step(filters@.take(i as int)),
                        decimal::view_opt(min_notional) == filter_notional(filters@.take(i as int)),
                {
                    assert(filters@.take(i + 1).drop_last() =~= filters@.take(i as int));
                    match &filters[i] {
                        AsterFilter::PriceFilter { tick_size: tick } => {
                            tick_size = *tick;
                        },
                        AsterFilter::LotSize { step_size: step } => {
                            lot_size = *step;
                        },
                        AsterFilter::MinNotional { notional } => {
                            min_notional = Some(*notional);
                        },
                        AsterFilter::Other => {},
                    }
                }
                assert(filters@.take(filters@.len() as int) =~= filters@);
                if tick_size.is_zero() || lot_size.is_zero() {
                    return None;
                }
                let funding_interval = match funding_hours {
                    Some(1) => Some(FundingInterval::EveryHour),
                    Some(4) => Some(FundingInterval::Every4Hours),
                    Some(8) => Some(FundingInterval::Every8Hours),
                    _ => None,
                };
                Some(
                    AsterSwapMeta {
                        symbol: info.symbol.clone(),
                        base_currency,
                        quote_currency,
                        pairs,
                        tick_size,
                        lot_size,
                        min_notional,
                        is_trading_allowed: info.status.as_str().eq("TRADING"),
                        funding_interval,
                    },
                )
            },
            _ => None,
        }
    }
}

impl BaseInstrumentMeta for AsterSwapMeta {
    fn symbol(&self) -> (r: &str)
        ensures
            r@ == self.symbol@,
    {
        self.symbol.as_str()
    }

    fn base_currency(&self) -> (r: Currency)
        ensures
            r == self.base_currency,
    {
        self.base_currency
    }

    fn quote_currency(&self) -> (r: Currency)
        ensures
            r == self.quote_currency,
    {
        self.quote_currency
    }

    fn pairs(&self) -> (r: Pairs)
        ensures
            r == self.pairs,
    {
        self.pairs
    }

    fn is_derivative(&self) -> (r: bool)
        ensures
            r,
    {
        true
    }

    fn is_trading_allowed(&self) -> (r: bool)
        ensures
            r == self.is_trading_allowed,
    {
        self.is_trading_allowed
    }

    fn tick_size(&self) -> (r: Decimal)
        ensures
            r == self.tick_size,
    {
        self.tick_size
    }

    fn lot_size(&self) -> (r: Decimal)
        ensures
            r == self.lot_size,
    {
        self.lot_size
    }

    fn min_notional(&self) -> (r: Option<Decimal>)
        ensures
            r == self.min_notional,
    {
        self.min_notional
    }
}

impl SwapInstrumentMeta for AsterSwapMeta {
    fn contract_size(&self) -> (r: Option<Decimal>)
        ensures
            decimal::view_opt(r) == Some(Dec::one()),
    {
        Some(Decimal::one())
    }

    fn funding_interval(&self) -> (r: Option<FundingInterval>)
        ensures
            r == self.funding_interval,
    {
        self.funding_interval
    }
}

impl From<AsterSwapMeta> for Instrument {
    fn from(meta: AsterSwapMeta) -> (r: Instrument)
        ensures
            r.facts() == meta.facts().instrument(Exchange::Aster),
    {
        Instrument {
            key: InstrumentKey { exchange: Exchange::Aster, pair: meta.pairs, instrument_type: InstrumentType::Swap },
            exchange_symbol: meta.symbol.clone(),
            exchange_id: meta.symbol,
            tick_size: meta.tick_size,
            lot_size: meta.lot_size,
            min_notional: meta.min_notional,
            contract_size: Some(Decimal::one()),
            multiplier: Decimal::one(),
            funding_interval: meta.funding_interval,
        }
    }
}

impl vstd::std_specs::convert::FromSpecImpl<AsterSwapMeta> for Instrument {
    open spec fn obeys_from_spec() -> bool {
        false
    }

    open spec fn from_spec(meta: AsterSwapMeta) -> Instrument {
        arbitrary()
    }
}

} // verus!
