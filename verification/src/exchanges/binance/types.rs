use vstd::prelude::*;

use crate::decimal;
use crate::decimal::{Dec, Decimal};
use crate::exchanges::common;
use crate::exchanges::common::{BaseInstrumentMeta, InstrumentFacts, SpotInstrumentMeta, SwapInstrumentMeta};
use crate::kinds::{Currency, Exchange, FundingInterval, InstrumentType, Pairs};
use crate::types::{Instrument, InstrumentKey};

verus! {

#[derive(Debug)]
pub struct BinanceServerTime {
    pub server_time: i64,
}

#[derive(Debug)]
pub struct BinanceFuturesExchangeInfo {
    pub symbols: Vec<BinanceFuturesSymbol>,
}

#[derive(Debug)]
pub struct BinanceFuturesSymbol {
    pub symbol: String,
    pub status: String,
    pub contract_type: String,
    pub base_asset: String,
    pub quote_asset: String,
    pub filters: Vec<BinanceFilter>,
    pub contract_size: Option<Decimal>,
}

#[derive(Debug)]
pub struct BinanceSpotExchangeInfo {
    pub symbols: Vec<BinanceSpotSymbol>,
}

#[derive(Debug)]
pub struct BinanceSpotSymbol {
    pub symbol: String,
    pub status: String,
    pub base_asset: String,
    pub quote_asset: String,
    pub filters: Vec<BinanceFilter>,
    pub is_spot_trading_allowed: bool,
}

#[derive(Debug)]
pub enum BinanceFilter {
    PriceFilter {
        tick_size: String,
    },
    LotSize {
        step_size: String,
    },
    MinNotional {
        notional: Option<String>,
        min_notional: Option<String>,
    },
    Notional {
        min_notional: Option<String>,
    },
    Other,
}

#[derive(Debug)]
pub struct BinancePremiumIndex {
    pub symbol: String,
    pub mark_price: String,
    pub index_price: String,
    pub last_funding_rate: String,
    pub next_funding_time: i64,
    pub interest_rate: Option<String>,
    pub time: i64,
}

#[derive(Debug)]
pub struct BinanceFundingRateHistory {
    pub funding_rate: String,
    pub funding_time: i64,
}

#[derive(Debug)]
pub struct BinanceFundingInfo {
    pub symbol: String,
    pub funding_interval_hours: u32,
}

#[derive(Debug)]
pub struct BinanceSpotAccount {
    pub balances: Vec<BinanceSpotBalance>,
}

#[derive(Debug)]
pub struct BinanceSpotBalance {
    pub asset: String,
    pub free: String,
    pub locked: String,
}

#[derive(Debug)]
pub struct BinanceFuturesBalance {
    pub account_alias: Option<String>,
    pub asset: String,
    pub balance: String,
    pub cross_un_pnl: String,
    pub cross_wallet_balance: Option<String>,
    pub available_balance: String,
    pub update_time: i64,
}

/// REST response for `GET /fapi/v1/depth` and `GET /api/v3/depth`.
/// Each level is `[price_str, qty_str]`.
#[derive(Debug)]
pub struct BinancePartialDepth {
    /// Exchange-assigned last update ID (used for sequencing).
    pub last_update_id: u64,
    /// Up to 5 bid levels: [[price, qty], ...]
    pub bids: Vec<[String; 2]>,
    /// Up to 5 ask levels: [[price, qty], ...]
    pub asks: Vec<[String; 2]>,
}

/// WebSocket stream event from `<symbol>@depth5@100ms`.
/// Handles both Binance futures (fields `b`/`a`/`E`/`T`) and spot
/// (fields `bids`/`asks`, no timestamp fields).
///
/// Futures combined-stream `data` carries **two** timestamp fields:
/// - `E` - event time (when the event was generated by the engine)
/// - `T` - transaction time (when the matching engine processed it)
#[derive(Debug)]
pub struct BinanceWsDepthEvent {
    /// Event publish time (ms). Present in futures depthUpdate events as `E`.
    /// Absent in spot partial-depth events (defaults to 0).
    pub event_time_ms: i64,
    /// Transaction / matching-engine time (ms). Present in futures
    /// depthUpdate events as `T`; absent in spot (defaults to 0).
    /// More precise than `event_time_ms` when available.
    pub transaction_time_ms: i64,
    /// Bid levels: futures field `b`, spot field `bids`.
    pub bids: Vec<[String; 2]>,
    /// Ask levels: futures field `a`, spot field `asks`.
    pub asks: Vec<[String; 2]>,
}

#[derive(Debug)]
pub struct BinanceListenKeyResponse {
    pub listen_key: String,
}

#[derive(Debug)]
pub enum BinanceSpotUserDataEvent {
    ExecutionReport(Box<BinanceSpotExecutionReport>),
    Other,
}

#[derive(Debug)]
pub struct BinanceSpotExecutionReport {
    pub symbol: String,
    pub client_order_id: String,
    pub side: String,
    pub order_type: String,
    pub order_status: String,
    pub order_quantity: String,
    pub order_price: String,
    pub cumulative_filled_quantity: String,
    pub last_executed_price: String,
    pub order_creation_time: i64,
    pub transaction_time: i64,
}

#[derive(Debug)]
pub enum BinanceFuturesUserDataEvent {
    OrderTradeUpdate {
        order: Box<BinanceFuturesOrderTradeUpdate>,
    },
    AccountUpdate {
        update: BinanceFuturesAccountUpdate,
    },
    Other,
}

/// Payload inside an `ACCOUNT_UPDATE` user-data event.
#[derive(Debug)]
pub struct BinanceFuturesAccountUpdate {
    /// Changed positions (only positions that changed are included).
    pub positions: Vec<BinanceFuturesWsPosition>,
}

/// A single position entry inside an `ACCOUNT_UPDATE` event.
#[derive(Debug)]
pub struct BinanceFuturesWsPosition {
    /// Symbol, e.g. `"BTCUSDT"`.
    pub symbol: String,
    /// Signed position amount (positive = long, negative = short, zero = closed).
    pub position_amt: String,
    /// Entry price.
    pub entry_price: String,
    /// Unrealized PnL.
    pub unrealized_profit: String,
    /// `"BOTH"` in one-way mode; `"LONG"` / `"SHORT"` in hedge mode.
    pub position_side: String,
}

#[derive(Debug)]
pub struct BinanceFuturesOrderTradeUpdate {
    pub symbol: String,
    pub client_order_id: String,
    pub side: String,
    pub order_type: String,
    pub order_status: String,
    pub original_quantity: String,
    pub original_price: String,
    pub order_filled_accumulated_quantity: String,
    pub average_price: String,
    pub order_trade_time: i64,
}

/// Response ack sent by Binance after `userDataStream.subscribe.signature`.
#[derive(Debug)]
pub struct BinanceWsApiResponse {
    pub status: u16,
    pub result: Option<BinanceWsApiSubscribeResult>,
}

#[derive(Debug)]
pub struct BinanceWsApiSubscribeResult {
    pub subscription_id: u64,
}

/// Unified REST response for order placement, queries, and cancellations.
///
/// Works for both Spot (`/api/v3/order`) and Futures (`/fapi/v1/order`).
/// Fields that are only present on one side are made optional.
#[derive(Debug)]
pub struct BinanceOrderResponse {
    pub symbol: String,
    pub order_id: i64,
    pub client_order_id: String,
    /// Price string; `"0"` for market orders.
    pub price: String,
    /// Original order quantity.
    pub orig_qty: String,
    /// Cumulative filled quantity.
    pub executed_qty: String,
    pub status: String,
    pub order_type: String,
    pub side: String,
    /// Order creation time (ms). Present on query/cancel responses.
    pub time: Option<i64>,
    pub update_time: i64,
    /// Average fill price - Futures field (`avgPrice`).
    pub avg_price: Option<String>,
    /// Cumulative quote asset traded - Spot field (`cummulativeQuoteQty`).
    /// Used to compute the average fill price for spot orders.
    pub cummulative_quote_qty: Option<String>,
}

/// Single entry from `GET /fapi/v3/positionRisk`.
#[derive(Debug)]
pub struct BinanceFuturesPositionRisk {
    pub symbol: String,
    /// `"BOTH"` in one-way mode; `"LONG"` / `"SHORT"` in hedge mode.
    pub position_side: String,
    /// Signed position size (negative = short).
    pub position_amt: String,
    pub entry_price: String,
    /// `unRealizedProfit` in the v3 response (capital R).
    pub un_realized_profit: String,
    /// `"0"` when there is no open position.
    pub liquidation_price: String,
    pub mark_price: String,
    pub update_time: i64,
}

/// What the filters of a symbol say of its price steps.
pub open spec fn filter_tick(filters: Seq<BinanceFilter>) -> Option<Seq<char>>
    decreases filters.len(),
{
    if filters.len() == 0 {
        None
    } else {
        match filters[0] {
            BinanceFilter::PriceFilter { tick_size } => Some(tick_size@),
            _ => filter_tick(filters.skip(1)),
        }
    }
}

/// What the filters of a symbol say of its quantity steps.
pub open spec fn filter_step(filters: Seq<BinanceFilter>) -> Option<Seq<char>>
    decreases filters.len(),
{
    if filters.len() == 0 {
        None
    } else {
        match filters[0] {
            BinanceFilter::LotSize { step_size } => Some(step_size@),
            _ => filter_step(filters.skip(1)),
        }
    }
}

/// What the filters of a symbol say of the least worth of an order. The first filter that is
/// about it decides, but for one of the newer kind without a value.
pub open spec fn filter_notional(filters: Seq<BinanceFilter>) -> Option<Seq<char>>
    decreases filters.len(),
{
    if filters.len() == 0 {
        None
    } else {
        match filters[0] {
            BinanceFilter::MinNotional { notional: Some(n), .. } => Some(n@),
            BinanceFilter::MinNotional { notional: None, min_notional } => common::opt_view(min_notional),
            BinanceFilter::Notional { min_notional: Some(n) } => Some(n@),
            _ => filter_notional(filters.skip(1)),
        }
    }
}

/// The number that a text holds, or one.
pub open spec fn read_or_one(text: Option<Seq<char>>) -> Dec {
    match text {
        Some(s) => match decimal::parsed(s) {
            Some(d) => d,
            None => Dec::one(),
        },
        None => Dec::one(),
    }
}

fn parse_or_one(s: &str) -> (r: Decimal)
    ensures
        r@ == read_or_one(Some(s@)),
{
    match Decimal::from_str(s) {
        Some(d) => d,
        None => Decimal::one(),
    }
}

/// The step of prices; one where the filters do not say.
pub fn extract_tick_size(filters: &Vec<BinanceFilter>) -> (r: Decimal)
    ensures
        r@ == read_or_one(filter_tick(filters@)),
{
    assert(filters@.skip(0) =~= filters@);
    for i in 0..filters.len()
        invariant
            filter_tick(filters@) == filter_tick(filters@.skip(i as int)),
    {
        assert(filters@.skip(i as int).skip(1) =~= filters@.skip(i + 1));
        assert(filters@.skip(i as int)[0] == filters[i as int]);
        if let BinanceFilter::PriceFilter { tick_size } = &filters[i] {
            return parse_or_one(tick_size.as_str());
        }
    }
    Decimal::one()
}

/// The step of quantities; one where the filters do not say.
pub fn extract_lot_size(filters: &Vec<BinanceFilter>) -> (r: Decimal)
    ensures
        r@ == read_or_one(filter_step(filters@)),
{
    assert(filters@.skip(0) =~= filters@);
    for i in 0..filters.len()
        invariant
            filter_step(filters@) == filter_step(filters@.skip(i as int)),
    {
        assert(filters@.skip(i as int).skip(1) =~= filters@.skip(i + 1));
        assert(filters@.skip(i as int)[0] == filters[i as int]);
        if let BinanceFilter::LotSize { step_size } = &filters[i] {
            return parse_or_one(step_size.as_str());
        }
    }
    Decimal::one()
}

/// The least worth of an order, where the filters say one.
pub fn extract_min_notional(filters: &Vec<BinanceFilter>) -> (r: Option<Decimal>)
    ensures
        decimal::view_opt(r) == common::read_opt(filter_notional(filters@)),
{
    assert(filters@.skip(0) =~= filters@);
    for i in 0..filters.len()
        invariant
            filter_notional(filters@) == filter_notional(filters@.skip(i as int)),
    {
        assert(filters@.skip(i as int).skip(1) =~= filters@.skip(i + 1));
        assert(filters@.skip(i as int)[0] == filters[i as int]);
        match &filters[i] {
            BinanceFilter::MinNotional { notional: Some(n), .. } => {
                return Decimal::from_str(n.as_str());
            },
            BinanceFilter::MinNotional { notional: None, min_notional } => {
                return match min_notional {
                    Some(n) => Decimal::from_str(n.as_str()),
                    None => None,
                };
            },
            BinanceFilter::Notional { min_notional: Some(n) } => {
                return Decimal::from_str(n.as_str());
            },
            _ => {},
        }
    }
    None
}

/// The pair of two assets, where the library knows both and trades one for the other.
pub open spec fn pair_of(base: Seq<char>, quote: Seq<char>) -> Option<Pairs> {
    match (Currency::named(base), Currency::named(quote)) {
        (Some(b), Some(q)) => Pairs::of_currencies(b, q),
        _ => None,
    }
}

/// A perpetual future as the exchange lists it.
pub struct BinanceSwapMeta<'a> {
    context: &'a BinanceFuturesSymbol,
    funding_interval_hours: Option<u32>,
    base: Currency,
    quote: Currency,
    pair: Pairs,
}

impl<'a> BinanceSwapMeta<'a> {
    pub closed spec fn info(self) -> BinanceFuturesSymbol {
        *self.context
    }

    pub closed spec fn hours(self) -> Option<u32> {
        self.funding_interval_hours
    }

    #[verifier::type_invariant]
    closed spec fn inv(self) -> bool {
        &&& Currency::named(self.context.base_asset@) == Some(self.base)
        &&& Currency::named(self.context.quote_asset@) == Some(self.quote)
        &&& pair_of(self.context.base_asset@, self.context.quote_asset@) == Some(self.pair)
        &&& self.funding_interval_hours matches Some(h) ==> h <= common::MAX_FUNDING_HOURS
    }

    /// Reads a symbol; `None` where the library does not know its pair.
    pub fn try_new(context: &'a BinanceFuturesSymbol, funding_interval_hours: Option<u32>) -> (r: Option<Self>)
        requires
            funding_interval_hours matches Some(h) ==> h <= common::MAX_FUNDING_HOURS,
        ensures
            r is Some <==> pair_of(context.base_asset@, context.quote_asset@) is Some,
            r matches Some(m) ==> m.info() == *context && m.hours() == funding_interval_hours,
    {
        match (
            Currency::from_str(context.base_asset.as_str()),
            Currency::from_str(context.quote_asset.as_str()),
        ) {
            (Some(base), Some(quote)) => match Pairs::from_currencies(base, quote) {
                Some(pair) => Some(BinanceSwapMeta { context, funding_interval_hours, base, quote, pair }),
                None => None,
            },
            _ => None,
        }
    }
}

impl<'a> BaseInstrumentMeta for BinanceSwapMeta<'a> {
    fn symbol(&self) -> (r: &str)
        ensures
            r@ == self.info().symbol@,
    {
        self.context.symbol.as_str()
    }

    fn base_currency(&self) -> (r: Currency)
        ensures
            Some(r) == Currency::named(self.info().base_asset@),
    {
        proof {
            use_type_invariant(self);
        }
        self.base
    }

    fn quote_currency(&self) -> (r: Currency)
        ensures
            Some(r) == Currency::named(self.info().quote_asset@),
    {
        proof {
            use_type_invariant(self);
        }
        self.quote
    }

    fn pairs(&self) -> (r: Pairs)
        ensures
            Some(r) == pair_of(self.info().base_asset@, self.info().quote_asset@),
    {
        proof {
            use_type_invariant(self);
        }
        self.pair
    }

    fn is_derivative(&self) -> (r: bool)
        ensures
            r == (self.info().contract_type@ == "PERPETUAL"@),
    {
        self.context.contract_type.as_str().eq("PERPETUAL")
    }

    fn is_trading_allowed(&self) -> (r: bool)
        ensures
            r == (self.info().status@ == "TRADING"@),
    {
        self.context.status.as_str().eq("TRADING")
    }

    fn tick_size(&self) -> (r: Decimal)
        ensures
            r@ == read_or_one(filter_tick(self.info().filters@)),
    {
        extract_tick_size(&self.context.filters)
    }

    fn lot_size(&self) -> (r: Decimal)
        ensures
            r@ == read_or_one(filter_step(self.info().filters@)),
    {
        extract_lot_size(&self.context.filters)
    }

    fn min_notional(&self) -> (r: Option<Decimal>)
        ensures
            decimal::view_opt(r) == common::read_opt(filter_notional(self.info().filters@)),
    {
        extract_min_notional(&self.context.filters)
    }
}

impl<'a> SwapInstrumentMeta for BinanceSwapMeta<'a> {
    fn contract_size(&self) -> (r: Option<Decimal>)
        ensures
            r == self.info().contract_size,
    {
        self.context.contract_size
    }

    fn funding_interval(&self) -> (r: Option<FundingInterval>)
        ensures
            r == swap_interval(self.hours()),
    {
        proof {
            use_type_invariant(self);
        }
        match self.funding_interval_hours {
            Some(h) => Some(common::hours_to_funding_interval(h)),
            None => None,
        }
    }
}

/// How often a future pays funding, where the exchange says.
pub open spec fn swap_interval(hours: Option<u32>) -> Option<FundingInterval> {
    match hours {
        Some(h) => Some(common::interval_of_hours(h)),
        None => None,
    }
}

/// The instrument that a futures symbol stands for.
pub open spec fn swap_instrument(info: BinanceFuturesSymbol, hours: Option<u32>) -> Option<InstrumentFacts> {
    match pair_of(info.base_asset@, info.quote_asset@) {
        Some(pair) => Some(
            InstrumentFacts {
                key: InstrumentKey { exchange: Exchange::Binance, pair, instrument_type: InstrumentType::Swap },
                exchange_symbol: info.symbol@,
                exchange_id: info.symbol@,
                tick_size: read_or_one(filter_tick(info.filters@)),
                lot_size: read_or_one(filter_step(info.filters@)),
                min_notional: common::read_opt(filter_notional(info.filters@)),
                contract_size: decimal::view_opt(info.contract_size),
                multiplier: Dec::one(),
                funding_interval: swap_interval(hours),
            },
        ),
        None => None,
    }
}

impl<'a> From<BinanceSwapMeta<'a>> for Instrument {
    fn from(meta: BinanceSwapMeta<'a>) -> (r: Instrument)
        ensures
            Some(r.facts()) == swap_instrument(meta.info(), meta.hours()),
    {
        proof {
            use_type_invariant(&meta);
        }
        Instrument {
            key: InstrumentKey {
                exchange: Exchange::Binance,
                pair: meta.pair,
                instrument_type: InstrumentType::Swap,
            },
            exchange_symbol: meta.context.symbol.clone(),
            exchange_id: meta.context.symbol.clone(),
            tick_size: extract_tick_size(&meta.context.filters),
            lot_size: extract_lot_size(&meta.context.filters),
            min_notional: extract_min_notional(&meta.context.filters),
            contract_size: meta.context.contract_size,
            multiplier: Decimal::one(),
            funding_interval: meta.funding_interval(),
        }
    }
}

impl<'a> vstd::std_specs::convert::FromSpecImpl<BinanceSwapMeta<'a>> for Instrument {
    open spec fn obeys_from_spec() -> bool {
        false
    }

    open spec fn from_spec(meta: BinanceSwapMeta<'a>) -> Instrument {
        arbitrary()
    }
}

/// A spot market as the exchange lists it.
pub struct BinanceSpotMeta<'a> {
    context: &'a BinanceSpotSymbol,
    base: Currency,
    quote: Currency,
    pair: Pairs,
}

impl<'a> BinanceSpotMeta<'a> {
    pub closed spec fn info(self) -> BinanceSpotSymbol {
        *self.context
    }

    #[verifier::type_invariant]
    closed spec fn inv(self) -> bool {
        &&& Currency::named(self.context.base_asset@) == Some(self.base)
        &&& Currency::named(self.context.quote_asset@) == Some(self.quote)
        &&& pair_of(self.context.base_asset@, self.context.quote_asset@) == Some(self.pair)
    }

    /// Reads a symbol; `None` where the library does not know its pair.
    pub fn try_new(context: &'a BinanceSpotSymbol) -> (r: Option<Self>)
        ensures
            r is Some <==> pair_of(context.base_asset@, context.quote_asset@) is Some,
            r matches Some(m) ==> m.info() == *context,
    {
        match (
            Currency::from_str(context.base_asset.as_str()),
            Currency::from_str(context.quote_asset.as_str()),
        ) {
            (Some(base), Some(quote)) => match Pairs::from_currencies(base, quote) {
                Some(pair) => Some(BinanceSpotMeta { context, base, quote, pair }),
                None => None,
            },
            _ => None,
        }
    }
}

impl<'a> BaseInstrumentMeta for BinanceSpotMeta<'a> {
    fn symbol(&self) -> (r: &str)
        ensures
            r@ == self.info().symbol@,
    {
        self.context.symbol.as_str()
    }

    fn base_currency(&self) -> (r: Currency)
        ensures
            Some(r) == Currency::named(self.info().base_asset@),
    {
        proof {
            use_type_invariant(self);
        }
        self.base
    }

    fn quote_currency(&self) -> (r: Currency)
        ensures
            Some(r) == Currency::named(self.info().quote_asset@),
    {
        proof {
            use_type_invariant(self);
        }
        self.quote
    }

    fn pairs(&self) -> (r: Pairs)
        ensures
            Some(r) == pair_of(self.info().base_asset@, self.info().quote_asset@),
    {
        proof {
            use_type_invariant(self);
        }
        self.pair
    }

    fn is_derivative(&self) -> (r: bool)
        ensures
            !r,
    {
        false
    }

    fn is_trading_allowed(&self) -> (r: bool)
        ensures
            r == (self.info().status@ == "TRADING"@ && self.info().is_spot_trading_allowed),
    {
        self.context.status.as_str().eq("TRADING") && self.context.is_spot_trading_allowed
    }

    fn tick_size(&self) -> (r: Decimal)
        ensures
            r@ == read_or_one(filter_tick(self.info().filters@)),
    {
        extract_tick_size(&self.context.filters)
    }

    fn lot_size(&self) -> (r: Decimal)
        ensures
            r@ == read_or_one(filter_step(self.info().filters@)),
    {
        extract_lot_size(&self.context.filters)
    }

    fn min_notional(&self) -> (r: Option<Decimal>)
        ensures
            decimal::view_opt(r) == common::read_opt(filter_notional(self.info().filters@)),
    {
        extract_min_notional(&self.context.filters)
    }
}

impl<'a> SpotInstrumentMeta for BinanceSpotMeta<'a> {}

/// The instrument that a spot symbol stands for.
pub open spec fn spot_instrument(info: BinanceSpotSymbol) -> Option<InstrumentFacts> {
    match pair_of(info.base_asset@, info.quote_asset@) {
        Some(pair) => Some(
            InstrumentFacts {
                key: InstrumentKey { exchange: Exchange::Binance, pair, instrument_type: InstrumentType::Spot },
                exchange_symbol: info.symbol@,
                exchange_id: info.symbol@,
                tick_size: read_or_one(filter_tick(info.filters@)),
                lot_size: read_or_one(filter_step(info.filters@)),
                min_notional: common::read_opt(filter_notional(info.filters@)),
                contract_size: None,
                multiplier: Dec::one(),
                funding_interval: None,
            },
        ),
        None => None,
    }
}

impl<'a> From<BinanceSpotMeta<'a>> for Instrument {
    fn from(meta: BinanceSpotMeta<'a>) -> (r: Instrument)
        ensures
            Some(r.facts()) == spot_instrument(meta.info()),
    {
        proof {
            use_type_invariant(&meta);
        }
        Instrument {
            key: InstrumentKey {
                exchange: Exchange::Binance,
                pair: meta.pair,
                instrument_type: InstrumentType::Spot,
            },
            exchange_symbol: meta.context.symbol.clone(),
            exchange_id: meta.context.symbol.clone(),
            tick_size: extract_tick_size(&meta.context.filters),
            lot_size: extract_lot_size(&meta.context.filters),
            min_notional: extract_min_notional(&meta.context.filters),
            contract_size: None,
            multiplier: Decimal::one(),
            funding_interval: None,
        }
    }
}

impl<'a> vstd::std_specs::convert::FromSpecImpl<BinanceSpotMeta<'a>> for Instrument {
    open spec fn obeys_from_spec() -> bool {
        false
    }

    open spec fn from_spec(meta: BinanceSpotMeta<'a>) -> Instrument {
        arbitrary()
    }
}

} // verus!
