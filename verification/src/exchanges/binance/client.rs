use vstd::prelude::*;
use vstd::string::*;

use crate::errors::{AccountError, MarketDataError, PriceError, TradingError};
use crate::exchanges::binance::auth::BinanceHmacAuth;
use crate::exchanges::binance::mappers;
use crate::exchanges::binance::mappers::{
    checked_partial_depth_to_order_book, checked_segmented_account_snapshot, premium_index_to_snapshot,
};
use crate::exchanges::binance::types;
use crate::exchanges::binance::types::{
    BinanceFundingInfo, BinanceFuturesBalance, BinanceFuturesExchangeInfo, BinanceFuturesSymbol, BinancePartialDepth,
    BinancePremiumIndex, BinanceServerTime, BinanceSpotBalance, BinanceSpotExchangeInfo, BinanceSpotMeta,
    BinanceSpotSymbol, BinanceSwapMeta,
};
use crate::exchanges::common;
use crate::exchanges::common::{ms_to_datetime, BaseInstrumentMeta, InstrumentFacts, Overflow};
use crate::exchanges::requests;
use crate::exchanges::requests::{
    any_of_kind, find_funding_target, history_path, make_stream_map, other_exchange,
};
use crate::http::client as http_client;
use crate::http::client::HttpClientBuilder;
use crate::kinds::{Exchange, FundingInterval, InstrumentType};
use crate::manager::account::AccountManagerError;
use crate::manager::types::AccountSnapshot;
use crate::orders::{Order, OrderRequest, Position};
use crate::registry;
use crate::registry::InstrumentRegistry;
use crate::table::Table;
use crate::text;
use crate::text::{concat, concat3, cut, same};
use crate::time;
use crate::time::UtcTime;
use crate::types::{FundingRateSnapshot, Instrument, InstrumentKey, OrderBookSnapshot};

verus! {

/// The section of the settings that is about Binance.
pub const BINANCE_EXCHANGE_NAME: &'static str = "binance";

pub const BINANCE_FUTURES_BASE_URL: &'static str = "https://fapi.binance.com";

pub const BINANCE_SPOT_BASE_URL: &'static str = "https://api.binance.com";

pub const BINANCE_FUTURES_TESTNET_URL: &'static str = "https://testnet.binancefuture.com";

pub const BINANCE_SPOT_TESTNET_URL: &'static str = "https://testnet.binance.vision";

pub const BINANCE_FUTURES_WS_BASE_URL: &'static str = "wss://fstream.binance.com";

pub const BINANCE_SPOT_WS_BASE_URL: &'static str = "wss://stream.binance.com:9443";

pub const BINANCE_FUTURES_WS_TESTNET_URL: &'static str = "wss://stream.binancefuture.com";

pub const BINANCE_SPOT_WS_TESTNET_URL: &'static str = "wss://testnet.binance.vision:443";

/// Where the executions of spot orders are streamed.
pub const BINANCE_SPOT_WS_API_URL: &'static str = "wss://ws-api.binance.com:443/ws-api/v3";

/// Which parts of the exchange are used.
#[derive(Clone, Copy, Debug, PartialEq, Eq, Structural)]
pub enum BinanceApiMode {
    Futures,
    Spot,
    Both,
}

impl Default for BinanceApiMode {
    fn default() -> (r: BinanceApiMode)
        ensures
            r == BinanceApiMode::Both,
    {
        BinanceApiMode::Both
    }
}

impl BinanceApiMode {
    pub open spec fn trades(self, market: InstrumentType) -> bool {
        match market {
            InstrumentType::Swap => self != BinanceApiMode::Spot,
            InstrumentType::Spot => self != BinanceApiMode::Futures,
        }
    }

    /// Whether a part of the exchange is used.
    pub fn includes(&self, market: InstrumentType) -> (r: bool)
        ensures
            r == self.trades(market),
    {
        match market {
            InstrumentType::Swap => *self != BinanceApiMode::Spot,
            InstrumentType::Spot => *self != BinanceApiMode::Futures,
        }
    }
}

/// Seconds.
pub fn default_timeout() -> (r: u64)
    ensures
        r == 30,
{
    30
}

pub fn default_retries() -> (r: u32)
    ensures
        r == 3,
{
    3
}

/// Settings of a Binance client.
#[derive(Clone, Debug)]
pub struct BinanceConfig {
    pub mode: BinanceApiMode,
    pub timeout_secs: u64,
    pub max_retries: u32,
    pub api_key: Option<String>,
    pub api_secret: Option<String>,
    /// Another address for futures.
    pub futures_base_url: Option<String>,
    /// Another address for spot.
    pub spot_base_url: Option<String>,
    pub testnet: bool,
}

impl Default for BinanceConfig {
    fn default() -> (r: BinanceConfig)
        ensures
            r == (BinanceConfig {
                mode: BinanceApiMode::Both,
                timeout_secs: 30,
                max_retries: 3,
                api_key: None,
                api_secret: None,
                futures_base_url: None,
                spot_base_url: None,
                testnet: false,
            }),
    {
        BinanceConfig {
            mode: BinanceApiMode::Both,
            timeout_secs: default_timeout(),
            max_retries: default_retries(),
            api_key: None,
            api_secret: None,
            futures_base_url: None,
            spot_base_url: None,
            testnet: false,
        }
    }
}

impl BinanceConfig {
    /// The address of a part of the exchange.
    pub open spec fn base_of(self, market: InstrumentType) -> Seq<char> {
        match market {
            InstrumentType::Swap => match self.futures_base_url {
                Some(url) => url@,
                None => if self.testnet {
                    BINANCE_FUTURES_TESTNET_URL@
                } else {
                    BINANCE_FUTURES_BASE_URL@
                },
            },
            InstrumentType::Spot => match self.spot_base_url {
                Some(url) => url@,
                None => if self.testnet {
                    BINANCE_SPOT_TESTNET_URL@
                } else {
                    BINANCE_SPOT_BASE_URL@
                },
            },
        }
    }

    pub fn base_url(&self, market: InstrumentType) -> (r: String)
        ensures
            r@ == self.base_of(market),
    {
        match market {
            InstrumentType::Swap => match &self.futures_base_url {
                Some(url) => url.clone(),
                None => if self.testnet {
                    BINANCE_FUTURES_TESTNET_URL.to_owned()
                } else {
                    BINANCE_FUTURES_BASE_URL.to_owned()
                },
            },
            InstrumentType::Spot => match &self.spot_base_url {
                Some(url) => url.clone(),
                None => if self.testnet {
                    BINANCE_SPOT_TESTNET_URL.to_owned()
                } else {
                    BINANCE_SPOT_BASE_URL.to_owned()
                },
            },
        }
    }

    /// The address that streams market data of a part of the exchange.
    pub open spec fn stream_of(self, market: InstrumentType) -> Seq<char> {
        match (market, self.testnet) {
            (InstrumentType::Swap, true) => BINANCE_FUTURES_WS_TESTNET_URL@,
            (InstrumentType::Swap, false) => BINANCE_FUTURES_WS_BASE_URL@,
            (InstrumentType::Spot, true) => BINANCE_SPOT_WS_TESTNET_URL@,
            (InstrumentType::Spot, false) => BINANCE_SPOT_WS_BASE_URL@,
        }
    }

    pub fn stream_url(&self, market: InstrumentType) -> (r: String)
        ensures
            r@ == self.stream_of(market),
    {
        match (market, self.testnet) {
            (InstrumentType::Swap, true) => BINANCE_FUTURES_WS_TESTNET_URL.to_owned(),
            (InstrumentType::Swap, false) => BINANCE_FUTURES_WS_BASE_URL.to_owned(),
            (InstrumentType::Spot, true) => BINANCE_SPOT_WS_TESTNET_URL.to_owned(),
            (InstrumentType::Spot, false) => BINANCE_SPOT_WS_BASE_URL.to_owned(),
        }
    }

    /// Whether requests can be signed.
    pub open spec fn has_credentials(self) -> bool {
        self.api_key is Some && self.api_secret is Some
    }

    /// Whether a builder makes a client with these settings for a part of the exchange.
    pub open spec fn makes(self, builder: HttpClientBuilder, market: InstrumentType) -> bool {
        &&& builder.base() == self.base_of(market)
        &&& builder.timeout_secs() == self.timeout_secs
        &&& builder.retries() == self.max_retries
    }

    /// Whether an authenticator signs with these settings.
    pub open spec fn signs(self, auth: BinanceHmacAuth) -> bool {
        &&& self.api_key matches Some(key) && auth.key() == key@
        &&& self.api_secret matches Some(secret) && auth.secret() == secret@
        &&& auth.window() == 5_000
    }

    /// Why the address of a part of the exchange is refused, where that part is used.
    pub open spec fn fault_of(self, market: InstrumentType) -> Option<Seq<char>> {
        if !self.mode.trades(market) {
            None
        } else {
            match http_client::parsed_url(self.base_of(market)) {
                Ok(_) => None,
                Err(why) => Some(why),
            }
        }
    }

    /// Why an address in use is refused; that of the futures part comes first.
    pub open spec fn fault(self) -> Option<Seq<char>> {
        match self.fault_of(InstrumentType::Swap) {
            Some(why) => Some(why),
            None => self.fault_of(InstrumentType::Spot),
        }
    }

    fn builder(&self, market: InstrumentType) -> (r: HttpClientBuilder)
        ensures
            self.makes(r, market),
    {
        HttpClientBuilder::new(self.base_url(market)).timeout(self.timeout_secs).max_retries(self.max_retries)
    }

    fn authenticator(&self) -> (r: Option<BinanceHmacAuth>)
        ensures
            r is Some <==> self.has_credentials(),
            r matches Some(auth) ==> self.signs(auth),
    {
        match (&self.api_key, &self.api_secret) {
            (Some(key), Some(secret)) => Some(BinanceHmacAuth::new(key.clone(), secret.clone())),
            _ => None,
        }
    }
}

/// A request to a part of the exchange, signed or not.
#[derive(Debug)]
pub struct BinanceCall {
    pub market: InstrumentType,
    pub signed: bool,
    pub path: String,
}

impl BinanceCall {
    pub open spec fn is(self, market: InstrumentType, signed: bool, path: Seq<char>) -> bool {
        self.market == market && self.signed == signed && self.path@ == path
    }
}

/// A stream of a user's executions.
#[derive(Debug)]
pub enum ExecutionStream {
    Spot { url: String, api_key: String, api_secret: String },
    Futures { base_url: String },
}

/// A stream of order books and the instruments that it is about, by the name that it gives them.
#[derive(Debug)]
pub struct DepthStream {
    pub base_url: String,
    pub names: Table<String, InstrumentKey>,
}

/// How many hours lie between two payments of a symbol: as the last entry for it says.
pub open spec fn hours_of(funding: Seq<BinanceFundingInfo>, symbol: Seq<char>) -> Option<u32>
    decreases funding.len(),
{
    if funding.len() == 0 {
        None
    } else if funding.last().symbol@ == symbol {
        Some(funding.last().funding_interval_hours)
    } else {
        hours_of(funding.drop_last(), symbol)
    }
}

fn find_hours(funding: &[BinanceFundingInfo], symbol: &str) -> (r: Option<u32>)
    ensures
        r == hours_of(funding@, symbol@),
{
    let mut i: usize = funding.len();
    assert(funding@.take(i as int) =~= funding@);
    while i > 0
        invariant
            i <= funding@.len(),
            hours_of(funding@, symbol@) == hours_of(funding@.take(i as int), symbol@),
        decreases i,
    {
        assert(funding@.take(i as int).drop_last() =~= funding@.take(i - 1));
        i = i - 1;
        if same(funding[i].symbol.as_str(), symbol) {
            return Some(funding[i].funding_interval_hours);
        }
    }
    None
}

/// Whether a future is one that can be traded: it is of a known pair, does not expire and is open.
pub open spec fn swap_is_listed(s: BinanceFuturesSymbol) -> bool {
    types::pair_of(s.base_asset@, s.quote_asset@) is Some && s.contract_type@ == "PERPETUAL"@ && s.status@ == "TRADING"@
}

/// Whether a spot market is one that can be traded: it is of a known pair and open.
pub open spec fn spot_is_listed(s: BinanceSpotSymbol) -> bool {
    types::pair_of(s.base_asset@, s.quote_asset@) is Some && s.status@ == "TRADING"@ && s.is_spot_trading_allowed
}

/// The futures that can be traded, in order; an error where the seconds between two payments of
/// one of them cannot be counted.
pub open spec fn listed_swaps(symbols: Seq<BinanceFuturesSymbol>, funding: Seq<BinanceFundingInfo>) -> Result<
    Seq<InstrumentFacts>,
    Overflow,
>
    decreases symbols.len(),
{
    if symbols.len() == 0 {
        Ok(Seq::empty())
    } else {
        match listed_swaps(symbols.drop_last(), funding) {
            Ok(front) => {
                let last = symbols.last();
                let hours = hours_of(funding, last.symbol@);
                if !swap_is_listed(last) {
                    Ok(front)
                } else if hours matches Some(h) && h > common::MAX_FUNDING_HOURS {
                    Err(Overflow)
                } else {
                    Ok(front.push(types::swap_instrument(last, hours)->0))
                }
            },
            Err(e) => Err(e),
        }
    }
}

/// The spot markets that can be traded, in order.
pub open spec fn listed_spots(symbols: Seq<BinanceSpotSymbol>) -> Seq<InstrumentFacts>
    decreases symbols.len(),
{
    if symbols.len() == 0 {
        Seq::empty()
    } else {
        let front = listed_spots(symbols.drop_last());
        if spot_is_listed(symbols.last()) {
            front.push(types::spot_instrument(symbols.last())->0)
        } else {
            front
        }
    }
}

proof fn swap_overflow_stays(symbols: Seq<BinanceFuturesSymbol>, funding: Seq<BinanceFundingInfo>, i: int)
    requires
        0 <= i <= symbols.len(),
        listed_swaps(symbols.take(i), funding) is Err,
    ensures
        listed_swaps(symbols, funding) is Err,
    decreases symbols.len() - i,
{
    if i < symbols.len() {
        assert(symbols.take(i + 1).drop_last() =~= symbols.take(i));
        swap_overflow_stays(symbols, funding, i + 1);
    } else {
        assert(symbols.take(i) =~= symbols);
    }
}

/// The futures that can be traded, in order; an error where the seconds between two payments of
/// one of them cannot be counted.
pub fn futures_instruments(info: &BinanceFuturesExchangeInfo, funding: &[BinanceFundingInfo]) -> (r: Result<
    Vec<Instrument>,
    Overflow,
>)
    ensures
        match r {
            Ok(list) => listed_swaps(info.symbols@, funding@) == Ok::<Seq<InstrumentFacts>, Overflow>(
                common::instrument_views(list@),
            ),
            Err(_) => listed_swaps(info.symbols@, funding@) is Err,
        },
{
    let symbols = &info.symbols;
    let mut list: Vec<Instrument> = Vec::new();
    assert(common::instrument_views(list@) =~= Seq::<InstrumentFacts>::empty());
    for i in 0..symbols.len()
        invariant
            symbols@ == info.symbols@,
            listed_swaps(symbols@.take(i as int), funding@) == Ok::<Seq<InstrumentFacts>, Overflow>(
                common::instrument_views(list@),
            ),
    {
        assert(symbols@.take(i + 1).drop_last() =~= symbols@.take(i as int));
        let symbol = &symbols[i];
        let hours = find_hours(funding, symbol.symbol.as_str());
        let too_long = match hours {
            Some(h) => h > common::MAX_FUNDING_HOURS,
            None => false,
        };
        let counted = if too_long {
            None
        } else {
            hours
        };
        if let Some(meta) = BinanceSwapMeta::try_new(symbol, counted) {
            if meta.is_derivative() && meta.is_trading_allowed() {
                if too_long {
                    proof {
                        swap_overflow_stays(symbols@, funding@, i + 1);
                    }
                    return Err(Overflow);
                }
                let instrument = Instrument::from(meta);
                let ghost facts = instrument.facts();
                let ghost before = list@;
                list.push(instrument);
                assert(common::instrument_views(list@) =~= common::instrument_views(before).push(facts));
            }
        }
    }
    assert(symbols@.take(symbols@.len() as int) =~= symbols@);
    Ok(list)
}

/// The spot markets that can be traded, in order.
pub fn spot_instruments(info: &BinanceSpotExchangeInfo) -> (r: Vec<Instrument>)
    ensures
        common::instrument_views(r@) == listed_spots(info.symbols@),
{
    let symbols = &info.symbols;
    let mut list: Vec<Instrument> = Vec::new();
    assert(common::instrument_views(list@) =~= Seq::<InstrumentFacts>::empty());
    for i in 0..symbols.len()
        invariant
            common::instrument_views(list@) == listed_spots(symbols@.take(i as int)),
    {
        assert(symbols@.take(i + 1).drop_last() =~= symbols@.take(i as int));
        if let Some(meta) = BinanceSpotMeta::try_new(&symbols[i]) {
            if meta.is_trading_allowed() {
                let instrument = Instrument::from(meta);
                let ghost facts = instrument.facts();
                let ghost before = list@;
                list.push(instrument);
                assert(common::instrument_views(list@) =~= common::instrument_views(before).push(facts));
            }
        }
    }
    assert(symbols@.take(symbols@.len() as int) =~= symbols@);
    list
}

/// What a Binance client knows and how it asks the exchange.
#[derive(Debug)]
pub struct BinanceClient {
    config: BinanceConfig,
    registry: InstrumentRegistry,
    futures_public_client: Option<HttpClientBuilder>,
    spot_public_client: Option<HttpClientBuilder>,
    futures_private_client: Option<(HttpClientBuilder, BinanceHmacAuth)>,
    spot_private_client: Option<(HttpClientBuilder, BinanceHmacAuth)>,
    instruments_loaded: bool,
}


impl BinanceClient {
    pub closed spec fn config(&self) -> BinanceConfig {
        self.config
    }

    /// The instruments that are known.
    pub closed spec fn instruments(&self) -> Seq<Instrument> {
        self.registry@
    }

    /// Whether the instruments have been fetched.
    pub closed spec fn loaded(&self) -> bool {
        self.instruments_loaded
    }

    /// There is a client for each part of the exchange that is used, and a signing one where there
    /// are credentials.
    #[verifier::type_invariant]
    closed spec fn inv(self) -> bool {
        let c = self.config;
        &&& self.futures_public_client is Some <==> c.mode.trades(InstrumentType::Swap)
        &&& self.futures_public_client matches Some(b) ==> c.makes(b, InstrumentType::Swap)
        &&& self.spot_public_client is Some <==> c.mode.trades(InstrumentType::Spot)
        &&& self.spot_public_client matches Some(b) ==> c.makes(b, InstrumentType::Spot)
        &&& self.futures_private_client is Some <==> c.mode.trades(InstrumentType::Swap) && c.has_credentials()
        &&& self.futures_private_client matches Some(p) ==> c.makes(p.0, InstrumentType::Swap) && c.signs(p.1)
        &&& self.spot_private_client is Some <==> c.mode.trades(InstrumentType::Spot) && c.has_credentials()
        &&& self.spot_private_client matches Some(p) ==> c.makes(p.0, InstrumentType::Spot) && c.signs(p.1)
    }

    /// A client for the parts of the exchange that the settings name; an error where one of their
    /// addresses cannot be used.
    pub fn new(config: BinanceConfig, registry: InstrumentRegistry) -> (r: Result<BinanceClient, MarketDataError>)
        ensures
            match config.fault() {
                None => r matches Ok(c) && c.config() == config && c.instruments() == registry@ && !c.loaded(),
                Some(why) => r matches Err(MarketDataError::Other(m)) && m@ == "invalid url: "@ + why,
            },
    {
        let futures = config.mode.includes(InstrumentType::Swap);
        let spot = config.mode.includes(InstrumentType::Spot);
        let futures_public_client = if futures {
            let client = config.builder(InstrumentType::Swap);
            if let Err(e) = client.base_address() {
                return Err(MarketDataError::Other(e.message()));
            }
            Some(client)
        } else {
            None
        };
        let spot_public_client = if spot {
            let client = config.builder(InstrumentType::Spot);
            if let Err(e) = client.base_address() {
                return Err(MarketDataError::Other(e.message()));
            }
            Some(client)
        } else {
            None
        };
        let futures_private_client = if futures {
            match config.authenticator() {
                Some(auth) => Some((config.builder(InstrumentType::Swap), auth)),
                None => None,
            }
        } else {
            None
        };
        let spot_private_client = if spot {
            match config.authenticator() {
                Some(auth) => Some((config.builder(InstrumentType::Spot), auth)),
                None => None,
            }
        } else {
            None
        };
        Ok(
            BinanceClient {
                config,
                registry,
                futures_public_client,
                spot_public_client,
                futures_private_client,
                spot_private_client,
                instruments_loaded: false,
            },
        )
    }

    /// The client that asks the futures part.
    pub fn futures_client(&self) -> (r: Result<&HttpClientBuilder, MarketDataError>)
        ensures
            match r {
                Ok(b) => self.config().mode.trades(InstrumentType::Swap) && self.config().makes(*b, InstrumentType::Swap),
                Err(e) => !self.config().mode.trades(InstrumentType::Swap) && e
                    == MarketDataError::UnsupportedInstrument,
            },
    {
        proof {
            use_type_invariant(self);
        }
        match &self.futures_public_client {
            Some(client) => Ok(client),
            None => Err(MarketDataError::UnsupportedInstrument),
        }
    }

    /// The client that asks the spot part.
    pub fn spot_client(&self) -> (r: Result<&HttpClientBuilder, MarketDataError>)
        ensures
            match r {
                Ok(b) => self.config().mode.trades(InstrumentType::Spot) && self.config().makes(*b, InstrumentType::Spot),
                Err(e) => !self.config().mode.trades(InstrumentType::Spot) && e
                    == MarketDataError::UnsupportedInstrument,
            },
    {
        proof {
            use_type_invariant(self);
        }
        match &self.spot_public_client {
            Some(client) => Ok(client),
            None => Err(MarketDataError::UnsupportedInstrument),
        }
    }

    /// The client that signs requests to the futures part.
    pub fn futures_private_client(&self) -> (r: Result<&(HttpClientBuilder, BinanceHmacAuth), AccountError>)
        ensures
            match r {
                Ok(p) => self.config().mode.trades(InstrumentType::Swap) && self.config().has_credentials()
                    && self.config().makes(p.0, InstrumentType::Swap) && self.config().signs(p.1),
                Err(AccountError::Other(m)) => !(self.config().mode.trades(InstrumentType::Swap)
                    && self.config().has_credentials()) && m@ == "missing futures private client configuration"@,
                Err(_) => false,
            },
    {
        proof {
            use_type_invariant(self);
        }
        match &self.futures_private_client {
            Some(client) => Ok(client),
            None => Err(AccountError::Other("missing futures private client configuration".to_owned())),
        }
    }

    /// The client that signs requests to the spot part.
    pub fn spot_private_client(&self) -> (r: Result<&(HttpClientBuilder, BinanceHmacAuth), AccountError>)
        ensures
            match r {
                Ok(p) => self.config().mode.trades(InstrumentType::Spot) && self.config().has_credentials()
                    && self.config().makes(p.0, InstrumentType::Spot) && self.config().signs(p.1),
                Err(AccountError::Other(m)) => !(self.config().mode.trades(InstrumentType::Spot)
                    && self.config().has_credentials()) && m@ == "missing spot private client configuration"@,
                Err(_) => false,
            },
    {
        proof {
            use_type_invariant(self);
        }
        match &self.spot_private_client {
            Some(client) => Ok(client),
            None => Err(AccountError::Other("missing spot private client configuration".to_owned())),
        }
    }

    /// The instruments that are known.
    pub fn registry(&self) -> (r: &InstrumentRegistry)
        ensures
            r@ == self.instruments(),
    {
        &self.registry
    }

    /// Goes by other instruments from now on: what is registered where several clients share them.
    pub fn set_registry(&mut self, registry: InstrumentRegistry)
        ensures
            final(self).config() == old(self).config(),
            final(self).loaded() == old(self).loaded(),
            final(self).instruments() == registry@,
    {
        proof {
            use_type_invariant(&*self);
        }
        self.registry = registry;
    }

    /// Whether the instruments have still to be fetched.
    pub fn needs_instruments(&self) -> (r: bool)
        ensures
            r == !self.loaded(),
    {
        !self.instruments_loaded
    }

    /// Takes in the instruments that were fetched. Only the first time counts.
    pub fn load_instruments(&mut self, fetched: Vec<Instrument>)
        ensures
            final(self).config() == old(self).config(),
            final(self).loaded(),
            final(self).instruments() == (if old(self).loaded() {
                old(self).instruments()
            } else {
                registry::all_registered(old(self).instruments(), fetched@)
            }),
    {
        proof {
            use_type_invariant(&*self);
        }
        if !self.instruments_loaded {
            let mut registry = InstrumentRegistry::new();
            std::mem::swap(&mut registry, &mut self.registry);
            registry.insert_batch(fetched);
            self.registry = registry;
            self.instruments_loaded = true;
        }
    }

    /// The requests that tell whether the exchange answers: one to each part that is used.
    pub fn health_check(&self) -> (r: Vec<BinanceCall>)
        ensures
            ({
                let mode = self.config().mode;
                &&& r@.len() == (if mode == BinanceApiMode::Both { 2int } else { 1int })
                &&& mode.trades(InstrumentType::Swap) ==> r@[0].is(InstrumentType::Swap, false, "/fapi/v1/ping"@)
                &&& mode.trades(InstrumentType::Spot) ==> r@.last().is(InstrumentType::Spot, false, "/api/v3/ping"@)
            }),
    {
        let mut calls: Vec<BinanceCall> = Vec::new();
        if self.config.mode.includes(InstrumentType::Swap) {
            calls.push(BinanceCall { market: InstrumentType::Swap, signed: false, path: "/fapi/v1/ping".to_owned() });
        }
        if self.config.mode.includes(InstrumentType::Spot) {
            calls.push(BinanceCall { market: InstrumentType::Spot, signed: false, path: "/api/v3/ping".to_owned() });
        }
        calls
    }

    /// The request for the exchange's time: to the futures part where it is used.
    pub fn server_time(&self) -> (r: BinanceCall)
        ensures
            if self.config().mode.trades(InstrumentType::Swap) {
                r.is(InstrumentType::Swap, false, "/fapi/v1/time"@)
            } else {
                r.is(InstrumentType::Spot, false, "/api/v3/time"@)
            },
    {
        if self.config.mode.includes(InstrumentType::Swap) {
            BinanceCall { market: InstrumentType::Swap, signed: false, path: "/fapi/v1/time".to_owned() }
        } else {
            BinanceCall { market: InstrumentType::Spot, signed: false, path: "/api/v3/time".to_owned() }
        }
    }

    /// The request for a funding rate, and how often the instrument pays funding.
    pub fn funding_rate_snapshot(&self, key: InstrumentKey) -> (r: Result<(BinanceCall, FundingInterval), MarketDataError>)
        ensures
            match r {
                Ok((call, interval)) => self.config().mode.trades(InstrumentType::Swap) && (requests::funding_target(
                    self.instruments(),
                    key,
                ) matches Some(i) && interval == requests::interval_of(i) && call.is(
                    InstrumentType::Swap,
                    false,
                    "/fapi/v1/premiumIndex?symbol="@ + i.exchange_symbol@,
                )),
                Err(e) => e == MarketDataError::UnsupportedInstrument && (!self.config().mode.trades(
                    InstrumentType::Swap,
                ) || requests::funding_target(self.instruments(), key) is None),
            },
    {
        match find_funding_target(&self.registry, key) {
            Ok((symbol, interval)) => match self.futures_client() {
                Ok(_) => Ok(
                    (
                        BinanceCall {
                            market: InstrumentType::Swap,
                            signed: false,
                            path: concat("/fapi/v1/premiumIndex?symbol=", symbol.as_str()),
                        },
                        interval,
                    ),
                ),
                Err(e) => Err(e),
            },
            Err(e) => Err(e),
        }
    }

    /// The request for past funding rates, and how often the instrument pays funding. The exchange
    /// gives a thousand entries at most.
    pub fn funding_rate_history(&self, key: InstrumentKey, start: UtcTime, end: UtcTime, limit: usize) -> (r: Result<
        (BinanceCall, FundingInterval),
        MarketDataError,
    >)
        ensures
            match r {
                Ok((call, interval)) => self.config().mode.trades(InstrumentType::Swap) && (requests::funding_target(
                    self.instruments(),
                    key,
                ) matches Some(i) && interval == requests::interval_of(i) && call.is(
                    InstrumentType::Swap,
                    false,
                    requests::history_text(
                        "/fapi/v1/fundingRate?symbol="@,
                        i.exchange_symbol@,
                        (start@ / 1_000_000) as i64,
                        (end@ / 1_000_000) as i64,
                        limit,
                        1000,
                    ),
                )),
                Err(e) => e == MarketDataError::UnsupportedInstrument && (!self.config().mode.trades(
                    InstrumentType::Swap,
                ) || requests::funding_target(self.instruments(), key) is None),
            },
    {
        match find_funding_target(&self.registry, key) {
            Ok((symbol, interval)) => match self.futures_client() {
                Ok(_) => {
                    let path = history_path(
                        "/fapi/v1/fundingRate?symbol=",
                        symbol.as_str(),
                        start.timestamp_millis(),
                        end.timestamp_millis(),
                        limit,
                        1000,
                    );
                    Ok((BinanceCall { market: InstrumentType::Swap, signed: false, path }, interval))
                },
                Err(e) => Err(e),
            },
            Err(e) => Err(e),
        }
    }

    /// The requests for the balances of the parts that are used, those of spot first.
    pub fn account_calls(&self) -> (r: Result<Vec<BinanceCall>, AccountError>)
        ensures
            ({
                let mode = self.config().mode;
                match r {
                    Ok(calls) => {
                        &&& self.config().has_credentials()
                        &&& calls@.len() == (if mode == BinanceApiMode::Both { 2int } else { 1int })
                        &&& mode.trades(InstrumentType::Spot) ==> calls@[0].is(
                            InstrumentType::Spot,
                            true,
                            "/api/v3/account?omitZeroBalances=true"@,
                        )
                        &&& mode.trades(InstrumentType::Swap) ==> calls@.last().is(
                            InstrumentType::Swap,
                            true,
                            "/fapi/v2/balance"@,
                        )
                    },
                    Err(AccountError::Other(m)) => !self.config().has_credentials() && m@ == (if mode.trades(
                        InstrumentType::Spot,
                    ) {
                        "missing spot private client configuration"@
                    } else {
                        "missing futures private client configuration"@
                    }),
                    Err(_) => false,
                }
            }),
    {
        let mut calls: Vec<BinanceCall> = Vec::new();
        if self.config.mode.includes(InstrumentType::Spot) {
            if let Err(e) = self.spot_private_client() {
                return Err(e);
            }
            calls.push(
                BinanceCall {
                    market: InstrumentType::Spot,
                    signed: true,
                    path: "/api/v3/account?omitZeroBalances=true".to_owned(),
                },
            );
        }
        if self.config.mode.includes(InstrumentType::Swap) {
            if let Err(e) = self.futures_private_client() {
                return Err(e);
            }
            calls.push(BinanceCall { market: InstrumentType::Swap, signed: true, path: "/fapi/v2/balance".to_owned() });
        }
        Ok(calls)
    }

    /// The account that balances come to; `None` where a balance overflows.
    pub fn account_snapshot(
        &self,
        spot_balances: &[BinanceSpotBalance],
        futures_balances: &[BinanceFuturesBalance],
        as_of_utc: UtcTime,
    ) -> (r: Option<AccountSnapshot>)
        ensures
            r is Some <==> mappers::account_computes(spot_balances@, futures_balances@, as_of_utc@),
            r matches Some(s) ==> mappers::is_account(
                s,
                self.config().mode.trades(InstrumentType::Spot),
                self.config().mode.trades(InstrumentType::Swap),
                spot_balances@,
                futures_balances@,
                as_of_utc,
            ),
    {
        checked_segmented_account_snapshot(
            self.config.mode.includes(InstrumentType::Spot),
            self.config.mode.includes(InstrumentType::Swap),
            spot_balances,
            futures_balances,
            as_of_utc,
        )
    }

    /// Whether the account of an exchange can be asked for here.
    pub fn check_exchange(&self, exchange: Exchange) -> (r: Result<(), AccountManagerError>)
        ensures
            match r {
                Ok(_) => exchange == Exchange::Binance,
                Err(e) => exchange != Exchange::Binance && requests::is_other_exchange(e, "BinanceClient"@, exchange),
            },
    {
        if exchange != Exchange::Binance {
            return Err(other_exchange("BinanceClient", exchange));
        }
        Ok(())
    }

    /// The client order identifier of an order: its own, of which the exchange takes 36 bytes.
    pub fn format_client_id(&self, internal_id: &str) -> (r: String)
        requires
            text::cut_at(internal_id@, 36) is Some,
        ensures
            text::cut_at(internal_id@, 36) == Some(r@),
    {
        cut(internal_id, 36).unwrap()
    }

    /// Orders cannot be placed yet.
    pub fn place_order(&self, request: OrderRequest, client_order_id: String) -> (r: Result<Order, TradingError>)
        ensures
            r matches Err(TradingError::Other(m)) && m@ == "Binance place_order not implemented yet"@,
    {
        Err(TradingError::Other("Binance place_order not implemented yet".to_owned()))
    }

    /// Orders cannot be canceled yet.
    pub fn cancel_order(&self, key: InstrumentKey, order_id: &str) -> (r: Result<Order, TradingError>)
        ensures
            r matches Err(TradingError::Other(m)) && m@ == "Binance cancel_order not implemented yet"@,
    {
        Err(TradingError::Other("Binance cancel_order not implemented yet".to_owned()))
    }

    /// Open orders cannot be listed yet.
    pub fn get_open_orders(&self, key: InstrumentKey) -> (r: Result<Vec<Order>, TradingError>)
        ensures
            r matches Err(TradingError::Other(m)) && m@ == "Binance get_open_orders not implemented yet"@,
    {
        Err(TradingError::Other("Binance get_open_orders not implemented yet".to_owned()))
    }

    /// An order cannot be looked up yet.
    pub fn get_order_status(&self, key: InstrumentKey, order_id: &str) -> (r: Result<Order, TradingError>)
        ensures
            r matches Err(TradingError::Other(m)) && m@ == "Binance get_order_status not implemented yet"@,
    {
        Err(TradingError::Other("Binance get_order_status not implemented yet".to_owned()))
    }

    /// Positions cannot be listed yet.
    pub fn fetch_positions(&self) -> (r: Result<Vec<Position>, TradingError>)
        ensures
            r matches Err(TradingError::Other(m)) && m@ == "Binance fetch_positions not implemented yet"@,
    {
        Err(TradingError::Other("Binance fetch_positions not implemented yet".to_owned()))
    }

    /// The streams of executions of the parts that are used, that of spot first.
    pub fn stream_executions(&self) -> (r: Result<Vec<ExecutionStream>, AccountError>)
        ensures
            ({
                let c = self.config();
                match r {
                    Ok(streams) => {
                        &&& c.has_credentials()
                        &&& streams@.len() == (if c.mode == BinanceApiMode::Both { 2int } else { 1int })
                        &&& c.mode.trades(InstrumentType::Spot) ==> (streams@[0] matches ExecutionStream::Spot {
                            url,
                            api_key,
                            api_secret,
                        } && url@ == BINANCE_SPOT_WS_API_URL@ && c.api_key == Some(api_key) && c.api_secret == Some(
                            api_secret,
                        ))
                        &&& c.mode.trades(InstrumentType::Swap) ==> (streams@.last() matches ExecutionStream::Futures {
                            base_url,
                        } && base_url@ == c.stream_of(InstrumentType::Swap))
                    },
                    Err(AccountError::Other(m)) => !c.has_credentials() && m@ == (if !c.mode.trades(
                        InstrumentType::Spot,
                    ) {
                        "missing futures private client configuration"@
                    } else if c.api_key is None {
                        "missing api_key for Spot WS stream"@
                    } else {
                        "missing api_secret for Spot WS stream"@
                    }),
                    Err(_) => false,
                }
            }),
    {
        let mut streams: Vec<ExecutionStream> = Vec::new();
        if self.config.mode.includes(InstrumentType::Spot) {
            let api_key = match &self.config.api_key {
                Some(key) => key.clone(),
                None => return Err(AccountError::Other("missing api_key for Spot WS stream".to_owned())),
            };
            let api_secret = match &self.config.api_secret {
                Some(secret) => secret.clone(),
                None => return Err(AccountError::Other("missing api_secret for Spot WS stream".to_owned())),
            };
            streams.push(ExecutionStream::Spot { url: BINANCE_SPOT_WS_API_URL.to_owned(), api_key, api_secret });
        }
        if self.config.mode.includes(InstrumentType::Swap) {
            if let Err(e) = self.futures_private_client() {
                return Err(e);
            }
            streams.push(ExecutionStream::Futures { base_url: self.config.stream_url(InstrumentType::Swap) });
        }
        Ok(streams)
    }

    /// The request for an order book.
    pub fn fetch_order_book(&self, key: InstrumentKey) -> (r: Result<BinanceCall, PriceError>)
        ensures
            match registry::found(self.instruments(), key) {
                None => r matches Err(e) && e == PriceError::UnsupportedInstrument,
                Some(i) => if self.config().mode.trades(key.instrument_type) {
                    r matches Ok(call) && call.is(
                        key.instrument_type,
                        false,
                        (match key.instrument_type {
                            InstrumentType::Swap => "/fapi/v1/depth?symbol="@,
                            InstrumentType::Spot => "/api/v3/depth?symbol="@,
                        }) + i.exchange_symbol@ + "&limit=5"@,
                    )
                } else {
                    r matches Err(PriceError::Other(m)) && m@ == MarketDataError::UnsupportedInstrument.text()
                },
            },
    {
        let symbol = match self.registry.get(&key) {
            Some(instrument) => instrument.exchange_symbol,
            None => return Err(PriceError::UnsupportedInstrument),
        };
        let (client, start) = match key.instrument_type {
            InstrumentType::Swap => (self.futures_client(), "/fapi/v1/depth?symbol="),
            InstrumentType::Spot => (self.spot_client(), "/api/v3/depth?symbol="),
        };
        match client {
            Ok(_) => Ok(
                BinanceCall {
                    market: key.instrument_type,
                    signed: false,
                    path: concat3(start, symbol.as_str(), "&limit=5"),
                },
            ),
            Err(e) => Err(PriceError::Other(e.message())),
        }
    }

    /// The streams of the order books of some instruments: one for futures and one for spot, as far
    /// as there are keys of the kind.
    pub fn stream_order_books(&self, keys: &[InstrumentKey]) -> (r: Vec<DepthStream>)
        ensures
            ({
                let futures = requests::has_kind(keys@, InstrumentType::Swap);
                let spot = requests::has_kind(keys@, InstrumentType::Spot);
                &&& r@.len() == (if futures { 1int } else { 0int }) + (if spot { 1int } else { 0int })
                &&& futures ==> self.streams_kind(r@[0], keys@, InstrumentType::Swap)
                &&& spot ==> self.streams_kind(r@.last(), keys@, InstrumentType::Spot)
            }),
    {
        let mut streams: Vec<DepthStream> = Vec::new();
        if any_of_kind(keys, InstrumentType::Swap) {
            streams.push(
                DepthStream {
                    base_url: self.config.stream_url(InstrumentType::Swap),
                    names: make_stream_map(&self.registry, keys, InstrumentType::Swap, true),
                },
            );
        }
        if any_of_kind(keys, InstrumentType::Spot) {
            streams.push(
                DepthStream {
                    base_url: self.config.stream_url(InstrumentType::Spot),
                    names: make_stream_map(&self.registry, keys, InstrumentType::Spot, true),
                },
            );
        }
        streams
    }

    /// Whether a stream is that of the order books of the instruments of one kind.
    pub open spec fn streams_kind(&self, stream: DepthStream, keys: Seq<InstrumentKey>, kind: InstrumentType) -> bool {
        &&& stream.base_url@ == self.config().stream_of(kind)
        &&& stream.names@ == requests::stream_map(self.instruments(), keys, kind, true)
    }
}

/// The time that the exchange tells.
pub fn read_server_time(time: &BinanceServerTime) -> (r: Result<UtcTime, MarketDataError>)
    ensures
        match r {
            Ok(t) => common::time_of(time.server_time as int) == Some(t@),
            Err(MarketDataError::Parse(m)) => !time::millis_in_calendar(time.server_time as int) && m@
                == "invalid server timestamp from Binance"@,
            Err(_) => false,
        },
{
    match ms_to_datetime(time.server_time) {
        Some(t) => Ok(t),
        None => Err(MarketDataError::Parse("invalid server timestamp from Binance".to_owned())),
    }
}

/// The funding rate that a reply tells.
pub fn read_premium_index(index: &BinancePremiumIndex, key: InstrumentKey, interval: FundingInterval) -> (r: Result<
    FundingRateSnapshot,
    MarketDataError,
>)
    ensures
        match r {
            Ok(s) => mappers::premium_rate(*index, key.pair, interval) == Some(s.facts()),
            Err(MarketDataError::Parse(m)) => mappers::premium_rate(*index, key.pair, interval) is None && m@
                == "Failed to parse premium index"@,
            Err(_) => false,
        },
{
    match premium_index_to_snapshot(index, key.pair, interval) {
        Some(s) => Ok(s),
        None => Err(MarketDataError::Parse("Failed to parse premium index".to_owned())),
    }
}

/// The order book that a reply tells; the outer error tells that mid-price or spread overflow.
pub fn read_depth(depth: &BinancePartialDepth, key: InstrumentKey, timestamp_ms: i64) -> (r: Result<
    Result<OrderBookSnapshot, PriceError>,
    Overflow,
>)
    ensures
        match r {
            Ok(Ok(book)) => common::is_read_book(Some(book), key, depth.bids@, depth.asks@, timestamp_ms),
            Ok(Err(PriceError::Parse(m))) => common::is_read_book(None, key, depth.bids@, depth.asks@, timestamp_ms)
                && m@ == "failed to parse depth levels"@,
            Ok(Err(_)) => false,
            Err(_) => time::millis_in_calendar(timestamp_ms as int) && !common::raw_book_computes(
                depth.bids@,
                depth.asks@,
            ),
        },
{
    match checked_partial_depth_to_order_book(depth, key, timestamp_ms) {
        Ok(Some(book)) => Ok(Ok(book)),
        Ok(None) => Ok(Err(PriceError::Parse("failed to parse depth levels".to_owned()))),
        Err(e) => Err(e),
    }
}

} // verus!
