use vstd::prelude::*;

use crate::decimal;
use crate::decimal::{Dec, Decimal};
use crate::exchanges::common;
use crate::exchanges::common::{read_nonzero, BaseInstrumentMeta, SwapFacts, SwapInstrumentMeta};
use crate::kinds::{Currency, Exchange, FundingInterval, InstrumentType, Pairs};
use crate::text::concat;
use crate::types::{Instrument, InstrumentKey};

verus! {

/// All Bybit V5 responses share this wrapper.
#[derive(Debug)]
pub struct BybitApiResponse<T> {
    pub ret_code: i32,
    pub ret_msg: String,
    pub result: T,
    pub time: u64,
}

#[derive(Debug)]
pub struct BybitServerTime {
    pub time_second: String,
    pub time_nano: String,
}

#[derive(Debug)]
pub struct BybitInstrumentsResult {
    pub category: String,
    pub list: Vec<BybitInstrumentInfo>,
    pub next_page_cursor: String,
}

#[derive(Debug)]
pub struct BybitInstrumentInfo {
    pub symbol: String,
    pub contract_type: String,
    pub status: String,
    pub base_coin: String,
    pub quote_coin: String,
    pub settle_coin: String,
    pub launch_time: String,
    pub price_scale: String,
    pub leverage_filter: BybitLeverageFilter,
    pub price_filter: BybitPriceFilter,
    pub lot_size_filter: BybitLotSizeFilter,
    pub funding_interval: u32,
    pub unified_margin_trade: bool,
}

#[derive(Debug)]
pub struct BybitLeverageFilter {
    pub min_leverage: String,
    pub max_leverage: String,
    pub leverage_step: String,
}

#[derive(Debug)]
pub struct BybitPriceFilter {
    pub min_price: String,
    pub max_price: String,
    pub tick_size: String,
}

#[derive(Debug)]
pub struct BybitLotSizeFilter {
    pub max_order_qty: String,
    pub min_order_qty: String,
    pub qty_step: String,
    pub min_notional_value: String,
}

#[derive(Debug)]
pub struct BybitTickerResult {
    pub category: String,
    pub list: Vec<BybitLinearTicker>,
}

#[derive(Debug)]
pub struct BybitLinearTicker {
    pub symbol: String,
    pub last_price: String,
    pub index_price: String,
    pub mark_price: String,
    pub funding_rate: String,
    pub next_funding_time: String,
    pub open_interest: String,
    pub open_interest_value: String,
    pub volume24h: String,
    pub turnover24h: String,
    pub bid1_price: String,
    pub ask1_price: String,
    pub bid1_size: String,
    pub ask1_size: String,
}

#[derive(Debug)]
pub struct BybitFundingHistoryResult {
    pub category: String,
    pub list: Vec<BybitFundingRateEntry>,
}

#[derive(Debug)]
pub struct BybitFundingRateEntry {
    pub symbol: String,
    pub funding_rate: String,
    pub funding_rate_timestamp: String,
}

#[derive(Debug)]
pub struct BybitOrderBookResult {
    pub s: String,
    pub b: Vec<[String; 2]>,
    pub a: Vec<[String; 2]>,
    /// Present in REST responses; absent in WS `data` payloads.
    pub ts: Option<u64>,
    pub u: u64,
}

#[derive(Debug)]
pub struct BybitPositionResult {
    pub category: String,
    pub list: Vec<BybitPositionEntry>,
}

#[derive(Debug)]
pub struct BybitPositionEntry {
    pub symbol: String,
    pub side: String,
    pub size: String,
    pub avg_price: String,
    pub leverage: String,
    pub liq_price: String,
    pub unrealised_pnl: String,
    pub position_value: String,
    pub updated_time: String,
}

#[derive(Debug)]
pub struct BybitWalletBalanceResult {
    pub list: Vec<BybitAccountEntry>,
}

#[derive(Debug)]
pub struct BybitAccountEntry {
    pub account_type: String,
    pub total_equity: String,
    pub total_wallet_balance: String,
    pub total_available_balance: String,
    pub total_perp_upl: String,
    pub coin: Vec<BybitCoinBalance>,
}

#[derive(Debug)]
pub struct BybitCoinBalance {
    pub coin: String,
    pub wallet_balance: String,
    pub locked: String,
    pub equity: String,
    pub unrealised_pnl: String,
}

/// Response from POST /v5/position/set-leverage - empty result on success.
/// Bybit returns retCode=0 with an empty result object.
#[derive(Debug)]
pub struct BybitEmptyResult {}

#[derive(Debug)]
pub struct BybitOrderResult {
    pub order_id: String,
    pub order_link_id: String,
}

#[derive(Debug)]
pub struct BybitOrderListResult {
    pub category: String,
    pub list: Vec<BybitOrderEntry>,
}

#[derive(Debug)]
pub struct BybitOrderEntry {
    pub symbol: String,
    pub order_id: String,
    pub order_link_id: String,
    pub side: String,
    pub order_type: String,
    pub price: String,
    pub qty: String,
    pub cum_exec_qty: String,
    pub avg_price: String,
    pub order_status: String,
    pub created_time: String,
    pub updated_time: String,
    pub reduce_only: bool,
}

/// Envelope for Bybit V5 public WS messages.
#[derive(Debug)]
pub struct BybitWsMessage {
    pub topic: String,
    pub msg_type: String,
    pub ts: u64,
    pub data: BybitWsOrderBookData,
}

#[derive(Debug)]
pub struct BybitWsOrderBookData {
    pub s: String,
    pub b: Vec<[String; 2]>,
    pub a: Vec<[String; 2]>,
    pub u: u64,
}

/// Subscribe/ping control message for Bybit WS.
#[derive(Debug)]
pub struct BybitWsControl {
    pub op: String,
    pub args: Option<Vec<String>>,
}

/// Top-level envelope for Bybit private WS messages.
/// Both control (auth/subscribe ack) and data messages share this shape.
#[derive(Debug)]
pub struct BybitWsPrivateMessage {
    /// Topic name, e.g. "order", "position", "execution".
    /// Absent on control messages (auth, subscribe ack).
    pub topic: Option<String>,
    /// Present on control messages.
    pub op: Option<String>,
    /// Present on control messages.
    pub success: Option<bool>,
    /// Present on control messages.
    pub ret_msg: Option<String>,
    /// Data created timestamp (ms). Present on data messages.
    pub creation_time: Option<u64>,
}

/// Bybit private WS order update fields (topic: "order").
#[derive(Debug)]
pub struct BybitWsOrderUpdate {
    pub symbol: String,
    pub order_id: String,
    pub order_link_id: String,
    pub side: String,
    pub order_type: String,
    pub price: String,
    pub qty: String,
    pub order_status: String,
    pub avg_price: String,
    pub cum_exec_qty: String,
    pub leaves_qty: String,
    pub reduce_only: bool,
    pub created_time: String,
    pub updated_time: String,
    pub category: String,
}

/// Bybit private WS position update fields (topic: "position").
#[derive(Debug)]
pub struct BybitWsPositionUpdate {
    pub symbol: String,
    pub side: String,
    pub size: String,
    pub entry_price: String,
    pub leverage: String,
    pub liq_price: String,
    pub unrealised_pnl: String,
    pub category: String,
}

/// How often funding is paid, in minutes: every hour, every four or every eight hours. Any other
/// number counts as eight hours, and zero as unknown.
pub open spec fn interval_of_minutes(minutes: u32) -> Option<FundingInterval> {
    if minutes == 60 {
        Some(FundingInterval::EveryHour)
    } else if minutes == 240 {
        Some(FundingInterval::Every4Hours)
    } else if minutes > 0 {
        Some(FundingInterval::Every8Hours)
    } else {
        None
    }
}

/// The future that an entry stands for, where it is a linear perpetual that the library knows and
/// its steps can be read and are not zero.
pub open spec fn swap_of(info: BybitInstrumentInfo) -> Option<SwapFacts> {
    match (
        Pairs::named(info.base_coin@ + info.quote_coin@),
        Currency::named(info.base_coin@),
        Currency::named(info.quote_coin@),
        common::nonzero(decimal::parsed(info.price_filter.tick_size@)),
        common::nonzero(decimal::parsed(info.lot_size_filter.qty_step@)),
    ) {
        (Some(pairs), Some(base_currency), Some(quote_currency), Some(tick_size), Some(lot_size)) => if info.contract_type@
            == "LinearPerpetual"@ {
            Some(
                SwapFacts {
                    symbol: info.symbol@,
                    base_currency,
                    quote_currency,
                    pairs,
                    tick_size,
                    lot_size,
                    min_notional: common::nonzero(decimal::parsed(info.lot_size_filter.min_notional_value@)),
                    is_trading_allowed: info.status@ == "Trading"@,
                    funding_interval: interval_of_minutes(info.funding_interval),
                },
            )
        } else {
            None
        },
        _ => None,
    }
}

/// A perpetual future as the exchange lists it.
#[derive(Debug)]
pub struct BybitSwapMeta {
    pub symbol: String,
    pub base_currency: Currency,
    pub quote_currency: Currency,
    pub pairs: Pairs,
    pub tick_size: Decimal,
    pub lot_size: Decimal,
    pub min_notional: Option<Decimal>,
    pub is_trading_allowed: bool,
    pub funding_interval: Option<FundingInterval>,
}

impl BybitSwapMeta {
    pub open spec fn facts(self) -> SwapFacts {
        SwapFacts {
            symbol: self.symbol@,
            base_currency: self.base_currency,
            quote_currency: self.quote_currency,
            pairs: self.pairs,
            tick_size: self.tick_size@,
            lot_size: self.lot_size@,
            min_notional: decimal::view_opt(self.min_notional),
            is_trading_allowed: self.is_trading_allowed,
            funding_interval: self.funding_interval,
        }
    }

    /// Reads an entry; `None` where it is no linear perpetual, the library does not know it, or a
    /// step cannot be read or is zero.
    pub fn try_new(info: &BybitInstrumentInfo) -> (r: Option<BybitSwapMeta>)
        ensures
            match r {
                Some(m) => swap_of(*info) == Some(m.facts()),
                None => swap_of(*info) is None,
            },
    {
        if !info.contract_type.as_str().eq("LinearPerpetual") {
            return None;
        }
        match (
            Pairs::from_str(concat(info.base_coin.as_str(), info.quote_coin.as_str()).as_str()),
            Currency::from_str(info.base_coin.as_str()),
            Currency::from_str(info.quote_coin.as_str()),
            read_nonzero(info.price_filter.tick_size.as_str()),
            read_nonzero(info.lot_size_filter.qty_step.as_str()),
        ) {
            (Some(pairs), Some(base_currency), Some(quote_currency), Some(tick_size), Some(lot_size)) => {
                let funding_interval = match info.funding_interval {
                    60 => Some(FundingInterval::EveryHour),
                    240 => Some(FundingInterval::Every4Hours),
                    480 => Some(FundingInterval::Every8Hours),
                    0 => None,
                    _ => Some(FundingInterval::Every8Hours),
                };
                Some(
                    BybitSwapMeta {
                        symbol: info.symbol.clone(),
                        base_currency,
                        quote_currency,
                        pairs,
                        tick_size,
                        lot_size,
                        min_notional: read_nonzero(info.lot_size_filter.min_notional_value.as_str()),
                        is_trading_allowed: info.status.as_str().eq("Trading"),
                        funding_interval,
                    },
                )
            },
            _ => None,
        }
    }
}

impl BaseInstrumentMeta for BybitSwapMeta {
    fn symbol(&self) -> (r: &str)
        ensures
            r@ == self.symbol@,
    {
        self.symbol.as_str()
    }

    fn base_currency(&self) -> (r: Currency)
        ensures
            r == self.base_currency,
    {
        self.base_currency
    }

    fn quote_currency(&self) -> (r: Currency)
        ensures
            r == self.quote_currency,
    {
        self.quote_currency
    }

    fn pairs(&self) -> (r: Pairs)
        ensures
            r == self.pairs,
    {
        self.pairs
    }

    fn is_derivative(&self) -> (r: bool)
        ensures
            r,
    {
        true
    }

    fn is_trading_allowed(&self) -> (r: bool)
        ensures
            r == self.is_trading_allowed,
    {
        self.is_trading_allowed
    }

    fn tick_size(&self) -> (r: Decimal)
        ensures
            r == self.tick_size,
    {
        self.tick_size
    }

    fn lot_size(&self) -> (r: Decimal)
        ensures
            r == self.lot_size,
    {
        self.lot_size
    }

    fn min_notional(&self) -> (r: Option<Decimal>)
        ensures
            r == self.min_notional,
    {
        self.min_notional
    }
}

impl SwapInstrumentMeta for BybitSwapMeta {
    fn contract_size(&self) -> (r: Option<Decimal>)
        ensures
            decimal::view_opt(r) == Some(Dec::one()),
    {
        Some(Decimal::one())
    }

    fn funding_interval(&self) -> (r: Option<FundingInterval>)
        ensures
            r == self.funding_interval,
    {
        self.funding_interval
    }
}

impl From<BybitSwapMeta> for Instrument {
    fn from(meta: BybitSwapMeta) -> (r: Instrument)
        ensures
            r.facts() == meta.facts().instrument(Exchange::Bybit),
    {
        Instrument {
            key: InstrumentKey { exchange: Exchange::Bybit, pair: meta.pairs, instrument_type: InstrumentType::Swap },
            exchange_symbol: meta.symbol.clone(),
            exchange_id: meta.symbol,
            tick_size: meta.tick_size,
            lot_size: meta.lot_size,
            min_notional: meta.min_notional,
            contract_size: Some(Decimal::one()),
            multiplier: Decimal::one(),
            funding_interval: meta.funding_interval,
        }
    }
}

impl vstd::std_specs::convert::FromSpecImpl<BybitSwapMeta> for Instrument {
    open spec fn obeys_from_spec() -> bool {
        false
    }

    open spec fn from_spec(meta: BybitSwapMeta) -> Instrument {
        arbitrary()
    }
}

} // verus!
