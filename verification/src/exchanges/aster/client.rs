use vstd::prelude::*;
use vstd::string::*;

use crate::decimal;
use crate::decimal::{Dec, Decimal};
use crate::errors::{AccountError, ClientError, MarketDataError, PriceError, TradingError};
use crate::exchanges::aster::auth::AsterHmacAuth;
use crate::exchanges::aster::mappers;
use crate::exchanges::aster::mappers::{
    aster_order_response_to_order, aster_position_risk_to_position, checked_partial_depth_to_order_book,
    ms_to_datetime, premium_index_to_snapshot,
};
use crate::exchanges::aster::types;
use crate::exchanges::aster::types::{
    AsterExchangeInfo, AsterFundingInfo, AsterFuturesBalance, AsterFuturesPositionRisk, AsterLeverageResponse,
    AsterOrderResponse, AsterPartialDepth, AsterPremiumIndex, AsterServerTime, AsterSwapMeta, AsterSymbolInfo,
};
use crate::exchanges::codec;
use crate::exchanges::codec::{decode_own_strategy, decode_strategy, decode_strategy_or_none, encode_id};
use crate::exchanges::common;
use crate::exchanges::common::{
    read_or_zero, BalanceFacts, InstrumentFacts, KindFacts, OrderFacts, Overflow, PartFacts, PositionFacts,
};
use crate::exchanges::requests;
use crate::exchanges::requests::{
    any_of_kind, depth_url, find_funding_target, find_lack, history_path, make_stream_map, not_registered,
    other_exchange, read_keys, with_leverage, ApiCall,
};
use crate::http::auth::Method;
use crate::http::client as http_client;
use crate::http::client::HttpClientBuilder;
use crate::kinds::{Currency, Exchange, ExecutionMode, FundingInterval, InstrumentType, OrderSide, OrderType};
use crate::manager::account::AccountManagerError;
use crate::manager::order::ClientOrderIds;
use crate::manager::types::{
    AccountModel, AccountPartitionRef, AccountSnapshot, BalanceView, CollateralScope, PartitionKind,
};
use crate::orders::{Order, OrderRequest, Position};
use crate::registry;
use crate::registry::InstrumentRegistry;
use crate::table::Table;
use crate::text;
use crate::text::{concat, concat3, same};
use crate::time;
use crate::time::UtcTime;
use crate::types::{FundingRateSnapshot, Instrument, InstrumentKey, OrderBookSnapshot};

verus! {

/// The section of the settings that is about Aster.
pub const ASTER_EXCHANGE_NAME: &'static str = "aster";

pub const ASTER_FUTURES_BASE_URL: &'static str = "https://fapi.asterdex.com";

pub const ASTER_FUTURES_TESTNET_URL: &'static str = "https://fapi.asterdex-testnet.com";

pub const ASTER_FUTURES_WS_BASE_URL: &'static str = "wss://fstream.asterdex.com";

pub const ASTER_FUTURES_WS_TESTNET_URL: &'static str = "wss://fstream.asterdex-testnet.com";

/// Seconds.
pub fn default_timeout() -> (r: u64)
    ensures
        r == 30,
{
    30
}

pub fn default_retries() -> (r: u32)
    ensures
        r == 3,
{
    3
}

/// Milliseconds.
pub fn default_recv_window() -> (r: u64)
    ensures
        r == 5000,
{
    5000
}

/// Settings of an Aster client.
#[derive(Clone, Debug)]
pub struct AsterConfig {
    pub timeout_secs: u64,
    pub max_retries: u32,
    pub api_key: Option<String>,
    pub api_secret: Option<String>,
    pub recv_window: u64,
    /// Another address for futures.
    pub futures_base_url: Option<String>,
    pub testnet: bool,
    /// The instruments to follow, such as `"SOLUSDT-AS-SWAP"`.
    pub instruments: Vec<String>,
}

impl Default for AsterConfig {
    fn default() -> (r: AsterConfig)
        ensures
            r.timeout_secs == 0,
            r.max_retries == 0,
            r.api_key is None,
            r.api_secret is None,
            r.recv_window == 0,
            r.futures_base_url is None,
            !r.testnet,
            r.instruments@.len() == 0,
    {
        AsterConfig {
            timeout_secs: 0,
            max_retries: 0,
            api_key: None,
            api_secret: None,
            recv_window: 0,
            futures_base_url: None,
            testnet: false,
            instruments: Vec::new(),
        }
    }
}

impl AsterConfig {
    /// The address of the exchange.
    pub open spec fn base(self) -> Seq<char> {
        match self.futures_base_url {
            Some(url) => url@,
            None => if self.testnet {
                ASTER_FUTURES_TESTNET_URL@
            } else {
                ASTER_FUTURES_BASE_URL@
            },
        }
    }

    pub fn base_url(&self) -> (r: String)
        ensures
            r@ == self.base(),
    {
        match &self.futures_base_url {
            Some(url) => url.clone(),
            None => if self.testnet {
                ASTER_FUTURES_TESTNET_URL.to_owned()
            } else {
                ASTER_FUTURES_BASE_URL.to_owned()
            },
        }
    }

    /// The address of the exchange's streams.
    pub open spec fn stream(self) -> Seq<char> {
        if self.testnet {
            ASTER_FUTURES_WS_TESTNET_URL@
        } else {
            ASTER_FUTURES_WS_BASE_URL@
        }
    }

    pub fn stream_url(&self) -> (r: String)
        ensures
            r@ == self.stream(),
    {
        if self.testnet {
            ASTER_FUTURES_WS_TESTNET_URL.to_owned()
        } else {
            ASTER_FUTURES_WS_BASE_URL.to_owned()
        }
    }

    /// What the settings lack to trade in a mode.
    pub fn validate(&self, execution_mode: ExecutionMode) -> (r: Option<String>)
        ensures
            match r {
                Some(m) => requests::lacks("Aster"@, self.api_key, self.api_secret, execution_mode) == Some(m@),
                None => requests::lacks("Aster"@, self.api_key, self.api_secret, execution_mode) is None,
            },
    {
        find_lack("Aster", &self.api_key, &self.api_secret, execution_mode)
    }

    /// The instruments to follow. A text that denotes none is left out.
    pub fn tracked_keys(&self) -> (r: Vec<InstrumentKey>)
        ensures
            r@ == requests::keys_of(self.instruments@),
    {
        read_keys(&self.instruments)
    }

    /// Whether requests can be signed.
    pub open spec fn has_credentials(self) -> bool {
        self.api_key is Some && self.api_secret is Some
    }

    /// Whether a builder makes a client with these settings.
    pub open spec fn makes(self, builder: HttpClientBuilder) -> bool {
        &&& builder.base() == self.base()
        &&& builder.timeout_secs() == self.timeout_secs
        &&& builder.retries() == self.max_retries
    }

    /// Whether an authenticator signs with these settings.
    pub open spec fn signs(self, auth: AsterHmacAuth) -> bool {
        &&& self.api_key matches Some(key) && auth.key() == key@
        &&& self.api_secret matches Some(secret) && auth.secret() == secret@
        &&& auth.window() == 5_000
    }
}

/// How many hours lie between two payments of a symbol: as the last entry for it says.
pub open spec fn hours_of(funding: Seq<AsterFundingInfo>, symbol: Seq<char>) -> Option<u8>
    decreases funding.len(),
{
    if funding.len() == 0 {
        None
    } else if funding.last().symbol@ == symbol {
        Some(funding.last().funding_interval_hours)
    } else {
        hours_of(funding.drop_last(), symbol)
    }
}

fn find_hours(funding: &[AsterFundingInfo], symbol: &str) -> (r: Option<u8>)
    ensures
        r == hours_of(funding@, symbol@),
{
    let mut i: usize = funding.len();
    assert(funding@.take(i as int) =~= funding@);
    while i > 0
        invariant
            i <= funding@.len(),
            hours_of(funding@, symbol@) == hours_of(funding@.take(i as int), symbol@),
        decreases i,
    {
        assert(funding@.take(i as int).drop_last() =~= funding@.take(i - 1));
        i = i - 1;
        if same(funding[i].symbol.as_str(), symbol) {
            return Some(funding[i].funding_interval_hours);
        }
    }
    None
}

/// The futures that can be traded, in order.
pub open spec fn listed_swaps(symbols: Seq<AsterSymbolInfo>, funding: Seq<AsterFundingInfo>) -> Seq<InstrumentFacts>
    decreases symbols.len(),
{
    if symbols.len() == 0 {
        Seq::empty()
    } else {
        let front = listed_swaps(symbols.drop_last(), funding);
        match types::swap_of(symbols.last(), hours_of(funding, symbols.last().symbol@)) {
            Some(swap) => if swap.is_trading_allowed {
                front.push(swap.instrument(Exchange::Aster))
            } else {
                front
            },
            None => front,
        }
    }
}

/// The futures that can be traded, in order.
pub fn swap_instruments(info: &AsterExchangeInfo, funding: &[AsterFundingInfo]) -> (r: Vec<Instrument>)
    ensures
        common::instrument_views(r@) == listed_swaps(info.symbols@, funding@),
{
    let symbols = &info.symbols;
    let mut list: Vec<Instrument> = Vec::new();
    assert(common::instrument_views(list@) =~= Seq::<InstrumentFacts>::empty());
    for i in 0..symbols.len()
        invariant
            common::instrument_views(list@) == listed_swaps(symbols@.take(i as int), funding@),
    {
        assert(symbols@.take(i + 1).drop_last() =~= symbols@.take(i as int));
        if let Some(meta) = AsterSwapMeta::try_new(&symbols[i], find_hours(funding, symbols[i].symbol.as_str())) {
            if meta.is_trading_allowed {
                let instrument = Instrument::from(meta);
                let ghost facts = instrument.facts();
                let ghost before = list@;
                list.push(instrument);
                assert(common::instrument_views(list@) =~= common::instrument_views(before).push(facts));
            }
        }
    }
    assert(symbols@.take(symbols@.len() as int) =~= symbols@);
    list
}

/// The one part of an account.
pub open spec fn swap_part() -> PartFacts {
    PartFacts { exchange: Exchange::Aster, kind: KindFacts::Swap, account_id: None }
}

/// What a balance comes to. A number that cannot be read counts as zero, an asset that the library
/// does not know is left out, and what is not free is locked.
pub open spec fn futures_balance(b: AsterFuturesBalance, as_of: int) -> Result<Option<BalanceFacts>, Overflow> {
    let total = common::or_zero(decimal::parsed(b.balance@));
    let free = common::or_zero(decimal::parsed(b.available_balance@));
    match total.difference(free) {
        Some(locked) => match Currency::named(b.asset@) {
            Some(asset) => Ok(
                Some(
                    BalanceFacts {
                        exchange: Exchange::Aster,
                        partition: Some(swap_part()),
                        asset,
                        total,
                        free,
                        locked,
                        borrowed: Dec::zero(),
                        unrealized_pnl: common::or_zero(decimal::parsed(b.cross_un_pnl@)),
                        scope: CollateralScope::PartitionOnly,
                        as_of,
                    },
                ),
            ),
            None => Ok(None),
        },
        None => Err(Overflow),
    }
}

/// The balances, in order; an error where one of them overflows.
pub open spec fn futures_balances(list: Seq<AsterFuturesBalance>, as_of: int) -> Result<Seq<BalanceFacts>, Overflow>
    decreases list.len(),
{
    if list.len() == 0 {
        Ok(Seq::empty())
    } else {
        common::with_balance(futures_balances(list.drop_last(), as_of), futures_balance(list.last(), as_of))
    }
}

proof fn overflow_stays(list: Seq<AsterFuturesBalance>, i: int, as_of: int)
    requires
        0 <= i <= list.len(),
        futures_balances(list.take(i), as_of) is Err,
    ensures
        futures_balances(list, as_of) is Err,
    decreases list.len() - i,
{
    if i < list.len() {
        assert(list.take(i + 1).drop_last() =~= list.take(i));
        overflow_stays(list, i + 1, as_of);
    } else {
        assert(list.take(i) =~= list);
    }
}

fn futures_balance_to_view(b: &AsterFuturesBalance, as_of_utc: UtcTime) -> (r: Result<Option<BalanceView>, Overflow>)
    ensures
        common::balance_is(r, futures_balance(*b, as_of_utc@)),
{
    let total = read_or_zero(b.balance.as_str());
    let free = read_or_zero(b.available_balance.as_str());
    let unrealized_pnl = read_or_zero(b.cross_un_pnl.as_str());
    match total.checked_sub(free) {
        Some(locked) => match Currency::from_str(b.asset.as_str()) {
            Some(asset) => Ok(
                Some(
                    BalanceView {
                        exchange: Exchange::Aster,
                        partition: Some(
                            AccountPartitionRef {
                                exchange: Exchange::Aster,
                                kind: PartitionKind::Swap,
                                account_id: None,
                            },
                        ),
                        asset,
                        total,
                        free,
                        locked,
                        borrowed: Decimal::zero(),
                        unrealized_pnl,
                        collateral_scope: CollateralScope::PartitionOnly,
                        as_of_utc,
                    },
                ),
            ),
            None => Ok(None),
        },
        None => Err(Overflow),
    }
}

/// The account that balances come to; `None` where a balance overflows.
pub fn account_snapshot(list: &[AsterFuturesBalance], as_of_utc: UtcTime) -> (r: Option<AccountSnapshot>)
    ensures
        r is Some <==> futures_balances(list@, as_of_utc@) is Ok,
        r matches Some(s) ==> {
            &&& s.exchange == Exchange::Aster
            &&& s.model == AccountModel::Segmented
            &&& common::part_views(s.partitions@) == seq![swap_part()]
            &&& futures_balances(list@, as_of_utc@) == Ok::<Seq<BalanceFacts>, Overflow>(
                common::balance_views(s.balances@),
            )
            &&& s.as_of_utc == as_of_utc
        },
{
    let mut balances: Vec<BalanceView> = Vec::new();
    assert(common::balance_views(balances@) =~= Seq::<BalanceFacts>::empty());
    for i in 0..list.len()
        invariant
            futures_balances(list@.take(i as int), as_of_utc@) == Ok::<Seq<BalanceFacts>, Overflow>(
                common::balance_views(balances@),
            ),
    {
        assert(list@.take(i + 1).drop_last() =~= list@.take(i as int));
        match futures_balance_to_view(&list[i], as_of_utc) {
            Ok(Some(view)) => {
                let ghost before = balances@;
                let ghost facts = view.facts();
                balances.push(view);
                assert(common::balance_views(balances@) =~= common::balance_views(before).push(facts));
            },
            Ok(None) => {},
            Err(_) => {
                proof {
                    overflow_stays(list@, i + 1, as_of_utc@);
                }
                return None;
            },
        }
    }
    assert(list@.take(list@.len() as int) =~= list@);
    let mut partitions: Vec<AccountPartitionRef> = Vec::new();
    partitions.push(
        AccountPartitionRef { exchange: Exchange::Aster, kind: PartitionKind::Swap, account_id: None },
    );
    assert(common::part_views(partitions@) =~= seq![swap_part()]);
    Some(AccountSnapshot { exchange: Exchange::Aster, model: AccountModel::Segmented, partitions, balances, as_of_utc })
}

/// How the exchange calls the kind of an order, and how long it says that the order is good.
pub open spec fn order_words(request: OrderRequest) -> (Seq<char>, Option<Seq<char>>) {
    match request.order_type {
        OrderType::Market => ("MARKET"@, None),
        OrderType::PostOnly => ("POST_ONLY"@, None),
        OrderType::Limit => if request.post_only {
            ("POST_ONLY"@, None)
        } else {
            ("LIMIT"@, Some("GTC"@))
        },
    }
}

/// How the exchange calls a side.
pub open spec fn side_word(side: OrderSide) -> Seq<char> {
    match side {
        OrderSide::Buy => "BUY"@,
        OrderSide::Sell => "SELL"@,
    }
}

/// The path that places an order, with quantity and price as the instrument has them; `None` where
/// they overflow.
pub open spec fn order_path(i: Instrument, request: OrderRequest, client_order_id: Seq<char>) -> Option<Seq<char>> {
    let (kind, good) = order_words(request);
    match crate::types::quantity_in_lots(request.size@, i.lot_size@) {
        None => None,
        Some(size) => {
            let start = "/fapi/v1/order?symbol="@ + i.exchange_symbol@ + "&side="@ + side_word(request.side) + "&type="@
                + kind + "&quantity="@ + size.text() + "&newClientOrderId="@ + client_order_id;
            let end = (match good {
                Some(word) => "&timeInForce="@ + word,
                None => Seq::empty(),
            }) + (if request.reduce_only {
                "&reduceOnly=true"@
            } else {
                Seq::empty()
            });
            match request.price {
                None => Some(start + end),
                Some(price) => match crate::types::price_on_tick(price@, i.tick_size@) {
                    Some(p) => Some(start + "&price="@ + p.text() + end),
                    None => None,
                },
            }
        },
    }
}

fn make_order_path(i: &Instrument, request: &OrderRequest, client_order_id: &str) -> (r: Option<String>)
    ensures
        match r {
            Some(path) => order_path(*i, *request, client_order_id@) == Some(path@),
            None => order_path(*i, *request, client_order_id@) is None,
        },
{
    let side = match request.side {
        OrderSide::Buy => "BUY",
        OrderSide::Sell => "SELL",
    };
    let (kind, good) = match request.order_type {
        OrderType::Market => ("MARKET", false),
        OrderType::PostOnly => ("POST_ONLY", false),
        OrderType::Limit => if request.post_only {
            ("POST_ONLY", false)
        } else {
            ("LIMIT", true)
        },
    };
    let size = match i.checked_normalize_quantity(request.size) {
        Some(size) => size,
        None => return None,
    };
    let mut out: String = concat3("/fapi/v1/order?symbol=", i.exchange_symbol.as_str(), "&side=");
    out.append(side);
    out.append("&type=");
    out.append(kind);
    out.append("&quantity=");
    out.append(size.to_string().as_str());
    out.append("&newClientOrderId=");
    out.append(client_order_id);
    if let Some(price) = request.price {
        match i.checked_normalize_price(price) {
            Some(p) => {
                out.append("&price=");
                out.append(p.to_string().as_str());
            },
            None => return None,
        }
    }
    let ghost so_far = out@;
    if good {
        out.append("&timeInForce=");
        out.append("GTC");
    }
    if request.reduce_only {
        out.append("&reduceOnly=true");
    }
    proof {
        let end = (if good {
            "&timeInForce="@ + "GTC"@
        } else {
            Seq::empty()
        }) + (if request.reduce_only {
            "&reduceOnly=true"@
        } else {
            Seq::empty()
        });
        assert(out@ =~= so_far + end);
        assert(order_path(*i, *request, client_order_id@)->0 =~= so_far + end);
    }
    Some(out)
}

/// The open orders that can be read, in order. `None` where one of them names no strategy.
pub open spec fn open_orders(list: Seq<AsterOrderResponse>, key: InstrumentKey) -> Option<Seq<OrderFacts>>
    decreases list.len(),
{
    if list.len() == 0 {
        Some(Seq::empty())
    } else {
        let last = list.last();
        match (open_orders(list.drop_last(), key), codec::strategy_in(last.client_order_id@)) {
            (Some(front), Some(strategy)) => match mappers::replied_order(
                last,
                key,
                strategy,
                last.client_order_id@,
            ) {
                Some(order) => Some(front.push(order)),
                None => Some(front),
            },
            _ => None,
        }
    }
}

proof fn nameless_stays(list: Seq<AsterOrderResponse>, key: InstrumentKey, i: int)
    requires
        0 <= i <= list.len(),
        open_orders(list.take(i), key) is None,
    ensures
        open_orders(list, key) is None,
    decreases list.len() - i,
{
    if i < list.len() {
        assert(list.take(i + 1).drop_last() =~= list.take(i));
        nameless_stays(list, key, i + 1);
    } else {
        assert(list.take(i) =~= list);
    }
}

/// The open orders that a reply lists. Those that cannot be read are left out; `None` where one of
/// them names no strategy.
pub fn read_open_orders(list: &[AsterOrderResponse], key: InstrumentKey) -> (r: Option<Vec<Order>>)
    ensures
        match r {
            Some(orders) => open_orders(list@, key) == Some(common::order_views(orders@)),
            None => open_orders(list@, key) is None,
        },
{
    let mut orders: Vec<Order> = Vec::new();
    assert(common::order_views(orders@) =~= Seq::<OrderFacts>::empty());
    for i in 0..list.len()
        invariant
            open_orders(list@.take(i as int), key) == Some(common::order_views(orders@)),
    {
        assert(list@.take(i + 1).drop_last() =~= list@.take(i as int));
        let id: &str = list[i].client_order_id.as_str();
        match decode_strategy(id) {
            Some(strategy) => {
                if let Some(order) = aster_order_response_to_order(&list[i], key, strategy.as_str(), id) {
                    let ghost before = orders@;
                    let ghost facts = order.facts();
                    orders.push(order);
                    assert(common::order_views(orders@) =~= common::order_views(before).push(facts));
                }
            },
            None => {
                proof {
                    nameless_stays(list@, key, i + 1);
                }
                return None;
            },
        }
    }
    assert(list@.take(list@.len() as int) =~= list@);
    Some(orders)
}

/// The order that the reply to a placed order tells.
pub fn read_placed_order(response: &AsterOrderResponse, request: &OrderRequest, client_order_id: &str) -> (r: Result<
    Order,
    TradingError,
>)
    ensures
        is_order_reply(
            r,
            mappers::replied_order(*response, request.key, request.strategy_id@, client_order_id@),
            "failed to parse Aster place_order response"@,
        ),
{
    match aster_order_response_to_order(response, request.key, request.strategy_id.as_str(), client_order_id) {
        Some(order) => Ok(order),
        None => Err(TradingError::Parse("failed to parse Aster place_order response".to_owned())),
    }
}

/// The order that the reply to a cancellation tells. The client order identifier in it tells whose
/// strategy it is.
pub fn read_canceled_order(response: &AsterOrderResponse, key: InstrumentKey, order_id: &str) -> (r: Result<
    Order,
    TradingError,
>)
    ensures
        is_order_reply(
            r,
            mappers::replied_order(
                *response,
                key,
                codec::strategy_or_none(response.client_order_id@),
                order_id@,
            ),
            "failed to parse Aster cancel_order response"@,
        ),
{
    let strategy = decode_strategy_or_none(response.client_order_id.as_str());
    match aster_order_response_to_order(response, key, strategy.as_str(), order_id) {
        Some(order) => Ok(order),
        None => Err(TradingError::Parse("failed to parse Aster cancel_order response".to_owned())),
    }
}

/// The order that the reply to a question tells.
pub fn read_order_status(response: &AsterOrderResponse, key: InstrumentKey) -> (r: Result<Order, TradingError>)
    ensures
        is_order_reply(
            r,
            mappers::replied_order(
                *response,
                key,
                codec::strategy_or_none(response.client_order_id@),
                response.client_order_id@,
            ),
            "failed to parse Aster order status response"@,
        ),
{
    let id: &str = response.client_order_id.as_str();
    let strategy = decode_strategy_or_none(id);
    match aster_order_response_to_order(response, key, strategy.as_str(), id) {
        Some(order) => Ok(order),
        None => Err(TradingError::Parse("failed to parse Aster order status response".to_owned())),
    }
}

/// Whether a result is an order, or an error with a message where there is none.
pub open spec fn is_order_reply(r: Result<Order, TradingError>, facts: Option<OrderFacts>, message: Seq<char>) -> bool {
    match (r, facts) {
        (Ok(order), Some(f)) => order.facts() == f,
        (Err(TradingError::Parse(m)), None) => m@ == message,
        _ => false,
    }
}

/// What an Aster client knows and how it asks the exchange.
#[derive(Debug)]
pub struct AsterClient {
    config: AsterConfig,
    public_client: HttpClientBuilder,
    private_client: Option<(HttpClientBuilder, AsterHmacAuth)>,
    registry: InstrumentRegistry,
    instruments_loaded: bool,
    leverage_map: Table<InstrumentKey, Decimal>,
}

impl AsterClient {
    pub closed spec fn config(&self) -> AsterConfig {
        self.config
    }

    /// The instruments that are known.
    pub closed spec fn instruments(&self) -> Seq<Instrument> {
        self.registry@
    }

    /// Whether the instruments have been fetched.
    pub closed spec fn loaded(&self) -> bool {
        self.instruments_loaded
    }

    /// The leverage that was set, by instrument.
    pub closed spec fn leverage(&self) -> Map<InstrumentKey, Decimal> {
        self.leverage_map@
    }

    /// There is a client, and a signing one where there are credentials.
    #[verifier::type_invariant]
    closed spec fn inv(self) -> bool {
        &&& self.config.makes(self.public_client)
        &&& self.private_client is Some <==> self.config.has_credentials()
        &&& self.private_client matches Some(p) ==> self.config.makes(p.0) && self.config.signs(p.1)
    }

    /// Everything but the leverage that was set.
    pub open spec fn same_but_leverage(&self, other: AsterClient) -> bool {
        &&& self.config() == other.config()
        &&& self.instruments() == other.instruments()
        &&& self.loaded() == other.loaded()
    }

    /// A client with these settings; an error where its address cannot be used.
    pub fn new(config: AsterConfig, registry: InstrumentRegistry) -> (r: Result<AsterClient, ClientError>)
        ensures
            match http_client::parsed_url(config.base()) {
                Ok(_) => {
                    &&& r matches Ok(c)
                    &&& c.config() == config
                    &&& c.instruments() == registry@
                    &&& !c.loaded()
                    &&& c.leverage() == Map::<InstrumentKey, Decimal>::empty()
                },
                Err(why) => r matches Err(ClientError::InvalidUrl(m)) && m@ == why,
            },
    {
        let public_client = HttpClientBuilder::new(config.base_url()).timeout(config.timeout_secs).max_retries(
            config.max_retries,
        );
        if let Err(e) = public_client.base_address() {
            return Err(e);
        }
        let private_client = match (&config.api_key, &config.api_secret) {
            (Some(key), Some(secret)) => Some(
                (
                    HttpClientBuilder::new(config.base_url()).timeout(config.timeout_secs).max_retries(config.max_retries),
                    AsterHmacAuth::new(key.clone(), secret.clone()),
                ),
            ),
            _ => None,
        };
        Ok(
            AsterClient {
                config,
                public_client,
                private_client,
                registry,
                instruments_loaded: false,
                leverage_map: Table::new(),
            },
        )
    }

    pub fn public_client(&self) -> (r: &HttpClientBuilder)
        ensures
            self.config().makes(*r),
    {
        proof {
            use_type_invariant(self);
        }
        &self.public_client
    }

    /// The client that signs requests.
    pub fn private_client(&self) -> (r: Result<&(HttpClientBuilder, AsterHmacAuth), AccountError>)
        ensures
            match r {
                Ok(p) => self.config().has_credentials() && self.config().makes(p.0) && self.config().signs(p.1),
                Err(e) => !self.config().has_credentials() && is_unconfigured(e),
            },
    {
        proof {
            use_type_invariant(self);
        }
        match &self.private_client {
            Some(client) => Ok(client),
            None => Err(AccountError::Other("Aster private client not configured (missing API keys)".to_owned())),
        }
    }

    /// Whether requests can be signed, else the error to answer with.
    fn signing(&self) -> (r: Result<(), TradingError>)
        ensures
            match r {
                Ok(_) => self.config().has_credentials(),
                Err(e) => !self.config().has_credentials() && is_unconfigured_trading(e),
            },
    {
        match self.private_client() {
            Ok(_) => Ok(()),
            Err(e) => Err(TradingError::from(e)),
        }
    }

    /// The instruments that are known.
    pub fn registry(&self) -> (r: &InstrumentRegistry)
        ensures
            r@ == self.instruments(),
    {
        &self.registry
    }

    /// Goes by other instruments from now on: what is registered where several clients share them.
    pub fn set_registry(&mut self, registry: InstrumentRegistry)
        ensures
            final(self).config() == old(self).config(),
            final(self).leverage() == old(self).leverage(),
            final(self).loaded() == old(self).loaded(),
            final(self).instruments() == registry@,
    {
        proof {
            use_type_invariant(&*self);
        }
        self.registry = registry;
    }

    /// Whether the instruments have still to be fetched.
    pub fn needs_instruments(&self) -> (r: bool)
        ensures
            r == !self.loaded(),
    {
        !self.instruments_loaded
    }

    /// Takes in the instruments that were fetched. Only the first time counts.
    pub fn load_instruments(&mut self, fetched: Vec<Instrument>)
        ensures
            final(self).config() == old(self).config(),
            final(self).leverage() == old(self).leverage(),
            final(self).loaded(),
            final(self).instruments() == (if old(self).loaded() {
                old(self).instruments()
            } else {
                registry::all_registered(old(self).instruments(), fetched@)
            }),
    {
        proof {
            use_type_invariant(&*self);
        }
        if !self.instruments_loaded {
            let mut registry = InstrumentRegistry::new();
            std::mem::swap(&mut registry, &mut self.registry);
            registry.insert_batch(fetched);
            self.registry = registry;
            self.instruments_loaded = true;
        }
    }

    /// The request for a funding rate, and how often the instrument pays funding.
    pub fn funding_rate_snapshot(&self, key: InstrumentKey) -> (r: Result<(ApiCall, FundingInterval), MarketDataError>)
        ensures
            match r {
                Ok((call, interval)) => requests::funding_target(self.instruments(), key) matches Some(i) && interval
                    == requests::interval_of(i) && call.is(
                    Method::Get,
                    false,
                    "/fapi/v3/premiumIndex?symbol="@ + i.exchange_symbol@,
                ),
                Err(e) => e == MarketDataError::UnsupportedInstrument && requests::funding_target(
                    self.instruments(),
                    key,
                ) is None,
            },
    {
        match find_funding_target(&self.registry, key) {
            Ok((symbol, interval)) => Ok(
                (
                    ApiCall {
                        method: Method::Get,
                        signed: false,
                        path: concat("/fapi/v3/premiumIndex?symbol=", symbol.as_str()),
                    },
                    interval,
                ),
            ),
            Err(e) => Err(e),
        }
    }

    /// The request for past funding rates, and how often the instrument pays funding. The exchange
    /// gives a thousand entries at most.
    pub fn funding_rate_history(&self, key: InstrumentKey, start: UtcTime, end: UtcTime, limit: usize) -> (r: Result<
        (ApiCall, FundingInterval),
        MarketDataError,
    >)
        ensures
            match r {
                Ok((call, interval)) => requests::funding_target(self.instruments(), key) matches Some(i) && interval
                    == requests::interval_of(i) && call.is(
                    Method::Get,
                    false,
                    requests::history_text(
                        "/fapi/v3/fundingRate?symbol="@,
                        i.exchange_symbol@,
                        (start@ / 1_000_000) as i64,
                        (end@ / 1_000_000) as i64,
                        limit,
                        1000,
                    ),
                ),
                Err(e) => e == MarketDataError::UnsupportedInstrument && requests::funding_target(
                    self.instruments(),
                    key,
                ) is None,
            },
    {
        match find_funding_target(&self.registry, key) {
            Ok((symbol, interval)) => {
                let path = history_path(
                    "/fapi/v3/fundingRate?symbol=",
                    symbol.as_str(),
                    start.timestamp_millis(),
                    end.timestamp_millis(),
                    limit,
                    1000,
                );
                Ok((ApiCall { method: Method::Get, signed: false, path }, interval))
            },
            Err(e) => Err(e),
        }
    }

    /// The request for an order book.
    pub fn fetch_order_book(&self, key: InstrumentKey) -> (r: Result<ApiCall, PriceError>)
        ensures
            match requests::funding_target(self.instruments(), key) {
                Some(i) => r matches Ok(call) && call.is(
                    Method::Get,
                    false,
                    "/fapi/v3/depth?symbol="@ + i.exchange_symbol@ + "&limit=5"@,
                ),
                None => r matches Err(e) && e == PriceError::UnsupportedInstrument,
            },
    {
        match find_funding_target(&self.registry, key) {
            Ok((symbol, _)) => Ok(
                ApiCall {
                    method: Method::Get,
                    signed: false,
                    path: concat3("/fapi/v3/depth?symbol=", symbol.as_str(), "&limit=5"),
                },
            ),
            Err(_) => Err(PriceError::UnsupportedInstrument),
        }
    }

    /// The address that streams the order books of the futures among some keys, and their names in
    /// the stream; `None` where there is no future among them.
    pub fn stream_order_books(&self, keys: &[InstrumentKey]) -> (r: Option<(String, Table<String, InstrumentKey>)>)
        ensures
            r is Some <==> requests::has_kind(keys@, InstrumentType::Swap),
            r matches Some((url, names)) ==> names@ == requests::stream_map(
                self.instruments(),
                keys@,
                InstrumentType::Swap,
                true,
            ) && url@ == self.config().stream() + "/stream?streams="@ + text::joined(
                requests::depth_names(names.rows()),
                "/"@,
            ),
    {
        if !any_of_kind(keys, InstrumentType::Swap) {
            return None;
        }
        let names = make_stream_map(&self.registry, keys, InstrumentType::Swap, true);
        let url = depth_url(self.config.stream_url().as_str(), &names);
        Some((url, names))
    }

    /// The request for the balances.
    pub fn account_call(&self) -> (r: Result<ApiCall, AccountError>)
        ensures
            match r {
                Ok(call) => self.config().has_credentials() && call.is(Method::Get, true, "/fapi/v2/balance"@),
                Err(e) => !self.config().has_credentials() && is_unconfigured(e),
            },
    {
        match self.private_client() {
            Ok(_) => Ok(ApiCall { method: Method::Get, signed: true, path: "/fapi/v2/balance".to_owned() }),
            Err(e) => Err(e),
        }
    }

    /// Whether the account of an exchange can be asked for here.
    pub fn check_exchange(&self, exchange: Exchange) -> (r: Result<(), AccountManagerError>)
        ensures
            match r {
                Ok(_) => exchange == Exchange::Aster,
                Err(e) => exchange != Exchange::Aster && requests::is_other_exchange(e, "AsterClient"@, exchange),
            },
    {
        if exchange != Exchange::Aster {
            return Err(other_exchange("AsterClient", exchange));
        }
        Ok(())
    }

    /// The request that sets the leverage of an instrument.
    pub fn set_leverage(&self, key: InstrumentKey, leverage: Decimal) -> (r: Result<ApiCall, TradingError>)
        ensures
            match (registry::found(self.instruments(), key), r) {
                (None, Err(e)) => requests::is_not_registered(e, key),
                (Some(_), Err(e)) => !self.config().has_credentials() && is_unconfigured_trading(e),
                (Some(i), Ok(call)) => self.config().has_credentials() && call.is(
                    Method::Post,
                    true,
                    "/fapi/v1/leverage?symbol="@ + i.exchange_symbol@ + "&leverage="@ + leverage@.text(),
                ),
                (None, Ok(_)) => false,
            },
    {
        let symbol = match self.registry.get(&key) {
            Some(instrument) => instrument.exchange_symbol,
            None => return Err(not_registered(key)),
        };
        match self.signing() {
            Ok(_) => {
                let mut path: String = concat3("/fapi/v1/leverage?symbol=", symbol.as_str(), "&leverage=");
                path.append(leverage.to_string().as_str());
                Ok(ApiCall { method: Method::Post, signed: true, path })
            },
            Err(e) => Err(e),
        }
    }

    /// Takes in the leverage that the exchange has set, and gives it.
    pub fn leverage_set(&mut self, key: InstrumentKey, reply: &AsterLeverageResponse) -> (r: Decimal)
        ensures
            r@ == (Dec { m: reply.leverage as int, s: 0 }),
            final(self).leverage() == old(self).leverage().insert(key, r),
            final(self).same_but_leverage(*old(self)),
    {
        proof {
            use_type_invariant(&*self);
        }
        let actual = Decimal::from_u64(reply.leverage as u64);
        let mut map: Table<InstrumentKey, Decimal> = Table::new();
        std::mem::swap(&mut map, &mut self.leverage_map);
        map.insert(key, actual);
        self.leverage_map = map;
        actual
    }

    /// The leverage that was set for an instrument.
    pub fn get_leverage(&self, key: InstrumentKey) -> (r: Option<Decimal>)
        ensures
            r == (if self.leverage().contains_key(key) {
                Some(self.leverage()[key])
            } else {
                None
            }),
    {
        match self.leverage_map.get(&key) {
            Some(l) => Some(*l),
            None => None,
        }
    }

    /// The request that places an order; `None` where quantity or price overflow.
    pub fn place_order(&self, request: &OrderRequest, client_order_id: &str) -> (r: Option<Result<ApiCall, TradingError>>)
        ensures
            match registry::found(self.instruments(), request.key) {
                None => r matches Some(Err(e)) && e == TradingError::UnsupportedInstrument,
                Some(i) => match order_path(i, *request, client_order_id@) {
                    None => r is None,
                    Some(path) => match r {
                        Some(Ok(call)) => self.config().has_credentials() && call.is(Method::Post, true, path),
                        Some(Err(e)) => !self.config().has_credentials() && is_unconfigured_trading(e),
                        None => false,
                    },
                },
            },
    {
        let instrument = match self.registry.get(&request.key) {
            Some(instrument) => instrument,
            None => return Some(Err(TradingError::UnsupportedInstrument)),
        };
        match make_order_path(&instrument, request, client_order_id) {
            Some(path) => match self.signing() {
                Ok(_) => Some(Ok(ApiCall { method: Method::Post, signed: true, path })),
                Err(e) => Some(Err(e)),
            },
            None => None,
        }
    }

    /// Whether a result is the request about an order of an instrument, or says why there is none.
    pub open spec fn asks_for_order(
        &self,
        r: Result<ApiCall, TradingError>,
        key: InstrumentKey,
        method: Method,
        start: Seq<char>,
        end: Seq<char>,
    ) -> bool {
        match (registry::found(self.instruments(), key), r) {
            (None, Err(e)) => e == TradingError::UnsupportedInstrument,
            (Some(_), Err(e)) => !self.config().has_credentials() && is_unconfigured_trading(e),
            (Some(i), Ok(call)) => self.config().has_credentials() && call.is(
                method,
                true,
                start + i.exchange_symbol@ + end,
            ),
            (None, Ok(_)) => false,
        }
    }

    fn order_call(&self, key: InstrumentKey, method: Method, start: &str, end: &str) -> (r: Result<ApiCall, TradingError>)
        ensures
            self.asks_for_order(r, key, method, start@, end@),
    {
        let symbol = match self.registry.get(&key) {
            Some(instrument) => instrument.exchange_symbol,
            None => return Err(TradingError::UnsupportedInstrument),
        };
        match self.signing() {
            Ok(_) => Ok(ApiCall { method, signed: true, path: concat3(start, symbol.as_str(), end) }),
            Err(e) => Err(e),
        }
    }

    /// The request that takes an order back.
    pub fn cancel_order(&self, key: InstrumentKey, order_id: &str) -> (r: Result<ApiCall, TradingError>)
        ensures
            self.asks_for_order(
                r,
                key,
                Method::Delete,
                "/fapi/v1/order?symbol="@,
                "&origClientOrderId="@ + order_id@,
            ),
    {
        self.order_call(
            key,
            Method::Delete,
            "/fapi/v1/order?symbol=",
            concat("&origClientOrderId=", order_id).as_str(),
        )
    }

    /// The request for the open orders of an instrument.
    pub fn get_open_orders(&self, key: InstrumentKey) -> (r: Result<ApiCall, TradingError>)
        ensures
            self.asks_for_order(r, key, Method::Get, "/fapi/v1/openOrders?symbol="@, Seq::empty()),
    {
        let end: String = String::new();
        assert(end@ =~= Seq::<char>::empty());
        self.order_call(key, Method::Get, "/fapi/v1/openOrders?symbol=", end.as_str())
    }

    /// The request for the state of an order.
    pub fn get_order_status(&self, key: InstrumentKey, order_id: &str) -> (r: Result<ApiCall, TradingError>)
        ensures
            self.asks_for_order(r, key, Method::Get, "/fapi/v1/order?symbol="@, "&origClientOrderId="@ + order_id@),
    {
        self.order_call(key, Method::Get, "/fapi/v1/order?symbol=", concat("&origClientOrderId=", order_id).as_str())
    }

    /// The request for the open positions.
    pub fn positions_call(&self) -> (r: Result<ApiCall, TradingError>)
        ensures
            match r {
                Ok(call) => self.config().has_credentials() && call.is(Method::Get, true, "/fapi/v2/positionRisk"@),
                Err(e) => !self.config().has_credentials() && is_unconfigured_trading(e),
            },
    {
        match self.signing() {
            Ok(_) => Ok(ApiCall { method: Method::Get, signed: true, path: "/fapi/v2/positionRisk".to_owned() }),
            Err(e) => Err(e),
        }
    }

    /// The open positions that a reply lists, with the leverage that was set. What is about another
    /// instrument or cannot be read is left out.
    pub fn fetch_positions(&self, risks: &[AsterFuturesPositionRisk]) -> (r: Vec<Position>)
        ensures
            common::position_views(r@) == listed_positions(self.instruments(), self.leverage(), risks@),
    {
        let mut positions: Vec<Position> = Vec::new();
        assert(common::position_views(positions@) =~= Seq::<PositionFacts>::empty());
        for i in 0..risks.len()
            invariant
                common::position_views(positions@) == listed_positions(
                    self.instruments(),
                    self.leverage(),
                    risks@.take(i as int),
                ),
        {
            assert(risks@.take(i + 1).drop_last() =~= risks@.take(i as int));
            if let Some(instrument) = self.registry.get_by_exchange_symbol(
                Exchange::Aster,
                risks[i].symbol.as_str(),
                InstrumentType::Swap,
            ) {
                if let Some(position) = aster_position_risk_to_position(&risks[i], instrument.key) {
                    let levered = with_leverage(position, &self.leverage_map);
                    let ghost before = positions@;
                    positions.push(levered);
                    assert(common::position_views(positions@) =~= common::position_views(before).push(levered.facts()));
                }
            }
        }
        assert(risks@.take(risks@.len() as int) =~= risks@);
        positions
    }

    /// The address of the stream of a user's orders and positions.
    pub fn user_stream(&self) -> (r: Result<String, AccountError>)
        ensures
            match r {
                Ok(url) => self.config().has_credentials() && url@ == self.config().stream(),
                Err(e) => !self.config().has_credentials() && is_unconfigured(e),
            },
    {
        match self.private_client() {
            Ok(_) => Ok(self.config.stream_url()),
            Err(e) => Err(e),
        }
    }
}

/// Whether an error tells that requests cannot be signed.
pub open spec fn is_unconfigured(e: AccountError) -> bool {
    e matches AccountError::Other(m) && m@ == "Aster private client not configured (missing API keys)"@
}

/// Whether an error tells that requests cannot be signed.
pub open spec fn is_unconfigured_trading(e: TradingError) -> bool {
    e matches TradingError::Other(m) && m@ == "Aster private client not configured (missing API keys)"@
}

/// A position as the reply tells it, with the leverage that was set.
pub open spec fn listed_position(
    instruments: Seq<Instrument>,
    leverage: Map<InstrumentKey, Decimal>,
    risk: AsterFuturesPositionRisk,
) -> Option<PositionFacts> {
    match registry::known_by(instruments, Exchange::Aster, risk.symbol@, InstrumentType::Swap) {
        Some(i) => match common::signed_position(
            i.key,
            risk.position_amt@,
            risk.entry_price@,
            risk.un_realized_profit@,
            risk.liquidation_price@,
        ) {
            Some(p) => Some(
                if leverage.contains_key(p.key) {
                    PositionFacts { leverage: leverage[p.key]@, ..p }
                } else {
                    p
                },
            ),
            None => None,
        },
        None => None,
    }
}

/// The positions that can be read, in order.
pub open spec fn listed_positions(
    instruments: Seq<Instrument>,
    leverage: Map<InstrumentKey, Decimal>,
    risks: Seq<AsterFuturesPositionRisk>,
) -> Seq<PositionFacts>
    decreases risks.len(),
{
    if risks.len() == 0 {
        Seq::empty()
    } else {
        let front = listed_positions(instruments, leverage, risks.drop_last());
        match listed_position(instruments, leverage, risks.last()) {
            Some(p) => front.push(p),
            None => front,
        }
    }
}

/// The time that the exchange tells.
pub fn read_server_time(reply: &AsterServerTime) -> (r: Result<UtcTime, MarketDataError>)
    ensures
        match r {
            Ok(t) => common::time_of(common::signed_millis(reply.server_time)) == Some(t@),
            Err(MarketDataError::Parse(m)) => common::time_of(common::signed_millis(reply.server_time)) is None && m@
                == "invalid server timestamp from Aster"@,
            Err(_) => false,
        },
{
    match ms_to_datetime(reply.server_time) {
        Some(t) => Ok(t),
        None => Err(MarketDataError::Parse("invalid server timestamp from Aster".to_owned())),
    }
}

/// The funding rate that a reply tells.
pub fn read_premium_index(index: &AsterPremiumIndex, key: InstrumentKey, interval: FundingInterval) -> (r: Result<
    FundingRateSnapshot,
    MarketDataError,
>)
    ensures
        match r {
            Ok(s) => mappers::premium_rate(*index, key.pair, interval) == Some(s.facts()),
            Err(MarketDataError::Parse(m)) => mappers::premium_rate(*index, key.pair, interval) is None && m@
                == "Failed to parse premium index"@,
            Err(_) => false,
        },
{
    match premium_index_to_snapshot(index, key.pair, interval) {
        Some(s) => Ok(s),
        None => Err(MarketDataError::Parse("Failed to parse premium index".to_owned())),
    }
}

/// The order book that a reply tells; the outer error tells that mid-price or spread overflow.
pub fn read_depth(depth: &AsterPartialDepth, key: InstrumentKey, timestamp_ms: i64) -> (r: Result<
    Result<OrderBookSnapshot, PriceError>,
    Overflow,
>)
    ensures
        match r {
            Ok(Ok(book)) => mappers::is_depth_book(Some(book), *depth, key, timestamp_ms),
            Ok(Err(PriceError::Parse(m))) => mappers::is_depth_book(None, *depth, key, timestamp_ms) && m@
                == "failed to parse depth levels"@,
            Ok(Err(_)) => false,
            Err(_) => time::millis_in_calendar(mappers::depth_time(*depth, timestamp_ms)) && !mappers::depth_computes(
                *depth,
            ),
        },
{
    match checked_partial_depth_to_order_book(depth, key, timestamp_ms) {
        Ok(Some(book)) => Ok(Ok(book)),
        Ok(None) => Ok(Err(PriceError::Parse("failed to parse depth levels".to_owned()))),
        Err(e) => Err(e),
    }
}

/// The client order identifiers of Aster's codec.
impl ClientOrderIds for AsterClient {
    open spec fn encoded(&self, internal_id: Seq<char>, strategy_id: Seq<char>) -> Option<Seq<char>> {
        codec::client_id(internal_id)
    }

    open spec fn decoded_strategy(&self, client_order_id: Seq<char>) -> Option<Seq<char>> {
        codec::own_strategy(client_order_id)
    }

    fn encode_client_order_id(&self, internal_id: &str, strategy_id: &str) -> (r: Option<String>) {
        encode_id(internal_id)
    }

    fn decode_strategy_id(&self, client_order_id: &str) -> (r: Option<String>) {
        decode_own_strategy(client_order_id)
    }
}

} // verus!
