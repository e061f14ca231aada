use vstd::prelude::*;
use vstd::string::*;

use crate::decimal;
use crate::decimal::{Dec, Decimal};
use crate::errors::{AccountError, MarketDataError, PriceError, TradingError};
use crate::exchanges::bybit::auth::BybitHmacAuth;
use crate::exchanges::bybit::mappers;
use crate::exchanges::bybit::mappers::{
    bybit_order_to_order_at, bybit_position_to_position, checked_order_book_to_snapshot, funding_history_to_series,
    ticker_to_funding_snapshot_at,
};
use crate::exchanges::bybit::types;
use crate::exchanges::bybit::types::{
    BybitAccountEntry, BybitApiResponse, BybitCoinBalance, BybitFundingHistoryResult, BybitInstrumentInfo,
    BybitInstrumentsResult, BybitOrderBookResult, BybitOrderEntry, BybitOrderListResult, BybitPositionEntry,
    BybitPositionResult, BybitServerTime, BybitSwapMeta, BybitTickerResult, BybitWalletBalanceResult,
};
use crate::exchanges::codec;
use crate::exchanges::codec::{decode_own_strategy, decode_strategy, encode_id};
use crate::exchanges::common;
use crate::exchanges::common::{
    read_or_zero, BalanceFacts, InstrumentFacts, KindFacts, OrderFacts, Overflow, PartFacts, PositionFacts,
};
use crate::exchanges::requests;
use crate::exchanges::requests::{
    any_of_kind, find_funding_target, find_lack, history_path, make_stream_map, not_registered, other_exchange,
    read_keys, with_leverage, ApiCall,
};
use crate::http::auth::Method;
use crate::http::client::HttpClientBuilder;
use crate::kinds::{
    Currency, Exchange, ExecutionMode, FundingInterval, InstrumentType, OrderSide, OrderStatus, OrderType,
};
use crate::manager::account::AccountManagerError;
use crate::manager::order::ClientOrderIds;
use crate::manager::types::{
    AccountModel, AccountPartitionRef, AccountSnapshot, BalanceView, CollateralScope, PartitionKind,
};
use crate::orders::{Order, OrderRequest, Position};
use crate::registry;
use crate::registry::InstrumentRegistry;
use crate::table::Table;
use crate::text;
use crate::text::{concat, concat3, parse_signed, signed_number};
use crate::time;
use crate::time::UtcTime;
use crate::types::{FundingRateSeries, FundingRateSnapshot, Instrument, InstrumentKey, OrderBookSnapshot};

verus! {

/// The section of the settings that is about Bybit.
pub const BYBIT_EXCHANGE_NAME: &'static str = "bybit";

pub const BYBIT_BASE_URL: &'static str = "https://api.bybit.com";

pub const BYBIT_TESTNET_URL: &'static str = "https://api-testnet.bybit.com";

pub const BYBIT_WS_PUBLIC_LINEAR: &'static str = "wss://stream.bybit.com/v5/public/linear";

pub const BYBIT_WS_PUBLIC_LINEAR_TESTNET: &'static str = "wss://stream-testnet.bybit.com/v5/public/linear";

pub const BYBIT_WS_PRIVATE: &'static str = "wss://stream.bybit.com/v5/private";

pub const BYBIT_WS_PRIVATE_TESTNET: &'static str = "wss://stream-testnet.bybit.com/v5/private";

/// Seconds.
pub fn default_timeout() -> (r: u64)
    ensures
        r == 30,
{
    30
}

pub fn default_retries() -> (r: u32)
    ensures
        r == 3,
{
    3
}

/// Milliseconds.
pub fn default_recv_window() -> (r: u64)
    ensures
        r == 5000,
{
    5000
}

pub fn default_account_type() -> (r: String)
    ensures
        r@ == "UNIFIED"@,
{
    "UNIFIED".to_owned()
}

/// Settings of a Bybit client.
#[derive(Clone, Debug)]
pub struct BybitConfig {
    pub timeout_secs: u64,
    pub max_retries: u32,
    pub api_key: Option<String>,
    pub api_secret: Option<String>,
    pub recv_window: u64,
    pub account_type: String,
    pub testnet: bool,
    /// The instruments to follow, such as `"BTCUSDT-BY-SWAP"`.
    pub instruments: Vec<String>,
}

impl Default for BybitConfig {
    fn default() -> (r: BybitConfig)
        ensures
            r.timeout_secs == 0,
            r.max_retries == 0,
            r.api_key is None,
            r.api_secret is None,
            r.recv_window == 0,
            r.account_type@.len() == 0,
            !r.testnet,
            r.instruments@.len() == 0,
    {
        BybitConfig {
            timeout_secs: 0,
            max_retries: 0,
            api_key: None,
            api_secret: None,
            recv_window: 0,
            account_type: String::new(),
            testnet: false,
            instruments: Vec::new(),
        }
    }
}

impl BybitConfig {
    /// The address of the exchange.
    pub open spec fn base(self) -> Seq<char> {
        if self.testnet {
            BYBIT_TESTNET_URL@
        } else {
            BYBIT_BASE_URL@
        }
    }

    pub fn base_url(&self) -> (r: String)
        ensures
            r@ == self.base(),
    {
        if self.testnet {
            BYBIT_TESTNET_URL.to_owned()
        } else {
            BYBIT_BASE_URL.to_owned()
        }
    }

    /// What the settings lack to trade in a mode.
    pub fn validate(&self, execution_mode: ExecutionMode) -> (r: Option<String>)
        ensures
            match r {
                Some(m) => requests::lacks("Bybit"@, self.api_key, self.api_secret, execution_mode) == Some(m@),
                None => requests::lacks("Bybit"@, self.api_key, self.api_secret, execution_mode) is None,
            },
    {
        find_lack("Bybit", &self.api_key, &self.api_secret, execution_mode)
    }

    /// The instruments to follow. A text that denotes none is left out.
    pub fn tracked_keys(&self) -> (r: Vec<InstrumentKey>)
        ensures
            r@ == requests::keys_of(self.instruments@),
    {
        read_keys(&self.instruments)
    }

    /// Whether requests can be signed.
    pub open spec fn has_credentials(self) -> bool {
        self.api_key is Some && self.api_secret is Some
    }

    /// Whether a builder makes a client with these settings.
    pub open spec fn makes(self, builder: HttpClientBuilder) -> bool {
        &&& builder.base() == self.base()
        &&& builder.timeout_secs() == self.timeout_secs
        &&& builder.retries() == self.max_retries
    }

    /// Whether an authenticator signs with these settings.
    pub open spec fn signs(self, auth: BybitHmacAuth) -> bool {
        &&& self.api_key matches Some(key) && auth.key() == key@
        &&& self.api_secret matches Some(secret) && auth.secret() == secret@
        &&& auth.window() == self.recv_window
    }
}

/// What the exchange says against a request.
pub open spec fn plain_error(label: Seq<char>, message: Seq<char>) -> Seq<char> {
    label + message
}

/// What the exchange says against a request, with its number for it.
pub open spec fn coded_error(label: Seq<char>, message: Seq<char>, code: i32) -> Seq<char> {
    label + message + " (code "@ + text::signed_digits(code as int) + ")"@
}

fn make_coded_error(label: &str, message: &str, code: i32) -> (r: String)
    ensures
        r@ == coded_error(label@, message@, code),
{
    let mut out: String = concat3(label, message, " (code ");
    out.append(signed_number(code as i64).as_str());
    out.append(")");
    out
}

/// Whether a reply to a request about an order is an agreement, else the error to answer with.
pub fn check_trading_reply(label: &str, ret_code: i32, ret_msg: &str) -> (r: Result<(), TradingError>)
    ensures
        match r {
            Ok(_) => ret_code == 0,
            Err(TradingError::Parse(m)) => ret_code != 0 && m@ == coded_error(label@, ret_msg@, ret_code),
            Err(_) => false,
        },
{
    if ret_code != 0 {
        return Err(TradingError::Parse(make_coded_error(label, ret_msg, ret_code)));
    }
    Ok(())
}

/// The futures of a page that can be traded, in order.
pub open spec fn listed_swaps(page: Seq<BybitInstrumentInfo>) -> Seq<InstrumentFacts>
    decreases page.len(),
{
    if page.len() == 0 {
        Seq::empty()
    } else {
        let front = listed_swaps(page.drop_last());
        match types::swap_of(page.last()) {
            Some(swap) => if swap.is_trading_allowed {
                front.push(swap.instrument(Exchange::Bybit))
            } else {
                front
            },
            None => front,
        }
    }
}

/// The instruments that the exchange lists page by page.
#[derive(Debug)]
pub struct InstrumentPages {
    list: Vec<Instrument>,
    cursor: String,
    done: bool,
}

impl InstrumentPages {
    /// The instruments of the pages so far.
    pub closed spec fn instruments(&self) -> Seq<Instrument> {
        self.list@
    }

    /// Where the next page starts; empty for the first.
    pub closed spec fn at(&self) -> Seq<char> {
        self.cursor@
    }

    /// Whether the last page has come in.
    pub closed spec fn complete(&self) -> bool {
        self.done
    }

    pub fn new() -> (r: InstrumentPages)
        ensures
            r.instruments() == Seq::<Instrument>::empty(),
            r.at() == Seq::<char>::empty(),
            !r.complete(),
    {
        InstrumentPages { list: Vec::new(), cursor: String::new(), done: false }
    }

    /// The path of the next page; `None` after the last.
    pub fn next_path(&self) -> (r: Option<String>)
        ensures
            match r {
                None => self.complete(),
                Some(path) => !self.complete() && path@ == (if self.at().len() == 0 {
                    "/v5/market/instruments-info?category=linear&limit=1000"@
                } else {
                    "/v5/market/instruments-info?category=linear&limit=1000&cursor="@ + self.at()
                }),
            },
    {
        if self.done {
            None
        } else if self.cursor.as_str().is_empty() {
            Some("/v5/market/instruments-info?category=linear&limit=1000".to_owned())
        } else {
            Some(concat("/v5/market/instruments-info?category=linear&limit=1000&cursor=", self.cursor.as_str()))
        }
    }

    /// Takes in a page. It is the last one where it names no next page or is empty. Nothing changes
    /// where the exchange says no.
    pub fn take_page(&mut self, reply: BybitApiResponse<BybitInstrumentsResult>) -> (r: Result<(), MarketDataError>)
        ensures
            match r {
                Err(MarketDataError::Parse(m)) => {
                    &&& reply.ret_code != 0
                    &&& m@ == coded_error("Bybit API error: "@, reply.ret_msg@, reply.ret_code)
                    &&& *final(self) == *old(self)
                },
                Err(_) => false,
                Ok(_) => {
                    let last = reply.result.next_page_cursor@.len() == 0 || reply.result.list@.len() == 0;
                    &&& reply.ret_code == 0
                    &&& common::instrument_views(final(self).instruments()) == common::instrument_views(
                        old(self).instruments(),
                    ) + listed_swaps(reply.result.list@)
                    &&& final(self).complete() == (old(self).complete() || last)
                    &&& !last ==> final(self).at() == reply.result.next_page_cursor@
                },
            },
    {
        if reply.ret_code != 0 {
            return Err(
                MarketDataError::Parse(make_coded_error("Bybit API error: ", reply.ret_msg.as_str(), reply.ret_code)),
            );
        }
        let page = &reply.result.list;
        let ghost start = common::instrument_views(self.list@);
        assert(start + Seq::<InstrumentFacts>::empty() =~= start);
        for i in 0..page.len()
            invariant
                start == common::instrument_views(old(self).instruments()),
                common::instrument_views(self.list@) == start + listed_swaps(page@.take(i as int)),
                self.done == old(self).done,
                self.cursor == old(self).cursor,
        {
            assert(page@.take(i + 1).drop_last() =~= page@.take(i as int));
            if let Some(meta) = BybitSwapMeta::try_new(&page[i]) {
                if meta.is_trading_allowed {
                    let instrument = Instrument::from(meta);
                    let ghost facts = instrument.facts();
                    let ghost before = self.list@;
                    self.list.push(instrument);
                    assert(common::instrument_views(self.list@) =~= common::instrument_views(before).push(facts));
                    assert((start + listed_swaps(page@.take(i as int))).push(facts) =~= start + listed_swaps(
                        page@.take(i as int),
                    ).push(facts));
                }
            }
        }
        assert(page@.take(page@.len() as int) =~= page@);
        if reply.result.next_page_cursor.as_str().is_empty() || page.len() == 0 {
            self.done = true;
        } else {
            self.cursor = reply.result.next_page_cursor;
        }
        Ok(())
    }

    /// The instruments of all pages.
    pub fn into_list(self) -> (r: Vec<Instrument>)
        ensures
            r@ == self.instruments(),
    {
        self.list
    }
}

/// The one part of an account.
pub open spec fn unified_part() -> PartFacts {
    PartFacts { exchange: Exchange::Bybit, kind: KindFacts::Unified, account_id: None }
}

/// What the balance of a coin comes to. A number that cannot be read counts as zero; a balance of
/// zero is left out, and so is a coin that the library does not know. What is not locked is free.
pub open spec fn coin_balance(coin: BybitCoinBalance, as_of: int) -> Result<Option<BalanceFacts>, Overflow> {
    let total = common::or_zero(decimal::parsed(coin.wallet_balance@));
    let locked = common::or_zero(decimal::parsed(coin.locked@));
    if total.is_zero() {
        Ok(None)
    } else {
        match total.difference(locked) {
            Some(free) => match Currency::named(coin.coin@) {
                Some(asset) => Ok(
                    Some(
                        BalanceFacts {
                            exchange: Exchange::Bybit,
                            partition: Some(unified_part()),
                            asset,
                            total,
                            free,
                            locked,
                            borrowed: Dec::zero(),
                            unrealized_pnl: common::or_zero(decimal::parsed(coin.unrealised_pnl@)),
                            scope: CollateralScope::SharedAcrossPartitions,
                            as_of,
                        },
                    ),
                ),
                None => Ok(None),
            },
            None => Err(Overflow),
        }
    }
}

/// The balances of coins, in order; an error where one of them overflows.
pub open spec fn coin_balances(coins: Seq<BybitCoinBalance>, as_of: int) -> Result<Seq<BalanceFacts>, Overflow>
    decreases coins.len(),
{
    if coins.len() == 0 {
        Ok(Seq::empty())
    } else {
        common::with_balance(coin_balances(coins.drop_last(), as_of), coin_balance(coins.last(), as_of))
    }
}

/// The coins of all accounts, one account after the other.
pub open spec fn all_coins(accounts: Seq<BybitAccountEntry>) -> Seq<BybitCoinBalance>
    decreases accounts.len(),
{
    if accounts.len() == 0 {
        Seq::empty()
    } else {
        all_coins(accounts.drop_last()) + accounts.last().coin@
    }
}

proof fn overflow_stays(coins: Seq<BybitCoinBalance>, more: Seq<BybitCoinBalance>, as_of: int)
    requires
        coin_balances(coins, as_of) is Err,
    ensures
        coin_balances(coins + more, as_of) is Err,
    decreases more.len(),
{
    if more.len() == 0 {
        assert(coins + more =~= coins);
    } else {
        assert((coins + more).drop_last() =~= coins + more.drop_last());
        overflow_stays(coins, more.drop_last(), as_of);
    }
}

proof fn coins_start(accounts: Seq<BybitAccountEntry>, i: int)
    requires
        0 <= i <= accounts.len(),
    ensures
        exists|more: Seq<BybitCoinBalance>| all_coins(accounts) == #[trigger] (all_coins(accounts.take(i)) + more),
    decreases accounts.len() - i,
{
    if i < accounts.len() {
        coins_start(accounts, i + 1);
        let rest = choose|more: Seq<BybitCoinBalance>|
            all_coins(accounts) == #[trigger] (all_coins(accounts.take(i + 1)) + more);
        assert(accounts.take(i + 1).drop_last() =~= accounts.take(i));
        let more = accounts[i].coin@ + rest;
        assert(all_coins(accounts.take(i)) + more =~= all_coins(accounts.take(i + 1)) + rest);
    } else {
        assert(accounts.take(i) =~= accounts);
        assert(all_coins(accounts) =~= all_coins(accounts.take(i)) + Seq::<BybitCoinBalance>::empty());
    }
}

fn coin_to_view(coin: &BybitCoinBalance, as_of_utc: UtcTime) -> (r: Result<Option<BalanceView>, Overflow>)
    ensures
        common::balance_is(r, coin_balance(*coin, as_of_utc@)),
{
    let total = read_or_zero(coin.wallet_balance.as_str());
    if total.is_zero() {
        return Ok(None);
    }
    let locked = read_or_zero(coin.locked.as_str());
    let free = match total.checked_sub(locked) {
        Some(free) => free,
        None => return Err(Overflow),
    };
    match Currency::from_str(coin.coin.as_str()) {
        Some(asset) => Ok(
            Some(
                BalanceView {
                    exchange: Exchange::Bybit,
                    partition: Some(
                        AccountPartitionRef {
                            exchange: Exchange::Bybit,
                            kind: PartitionKind::Unified,
                            account_id: None,
                        },
                    ),
                    asset,
                    total,
                    free,
                    locked,
                    borrowed: Decimal::zero(),
                    unrealized_pnl: read_or_zero(coin.unrealised_pnl.as_str()),
                    collateral_scope: CollateralScope::SharedAcrossPartitions,
                    as_of_utc,
                },
            ),
        ),
        None => Ok(None),
    }
}

/// Whether a snapshot is that of the accounts of a reply.
pub open spec fn is_account(s: AccountSnapshot, accounts: Seq<BybitAccountEntry>, as_of: UtcTime) -> bool {
    &&& s.exchange == Exchange::Bybit
    &&& s.model == AccountModel::Unified
    &&& common::part_views(s.partitions@) == seq![unified_part()]
    &&& coin_balances(all_coins(accounts), as_of@) == Ok::<Seq<BalanceFacts>, Overflow>(
        common::balance_views(s.balances@),
    )
    &&& s.as_of_utc == as_of
}

/// The account that a reply tells, or the error that it tells; `None` where a balance overflows.
pub fn account_snapshot(reply: &BybitApiResponse<BybitWalletBalanceResult>, as_of_utc: UtcTime) -> (r: Option<
    Result<AccountSnapshot, AccountError>,
>)
    ensures
        match r {
            Some(Err(AccountError::Other(m))) => reply.ret_code != 0 && m@ == plain_error(
                "Bybit wallet error: "@,
                reply.ret_msg@,
            ),
            Some(Err(_)) => false,
            Some(Ok(s)) => reply.ret_code == 0 && is_account(s, reply.result.list@, as_of_utc),
            None => reply.ret_code == 0 && coin_balances(all_coins(reply.result.list@), as_of_utc@) is Err,
        },
{
    if reply.ret_code != 0 {
        return Some(Err(AccountError::Other(concat("Bybit wallet error: ", reply.ret_msg.as_str()))));
    }
    let accounts = &reply.result.list;
    let mut balances: Vec<BalanceView> = Vec::new();
    assert(common::balance_views(balances@) =~= Seq::<BalanceFacts>::empty());
    for i in 0..accounts.len()
        invariant
            accounts@ == reply.result.list@,
            reply.ret_code == 0,
            coin_balances(all_coins(accounts@.take(i as int)), as_of_utc@) == Ok::<Seq<BalanceFacts>, Overflow>(
                common::balance_views(balances@),
            ),
    {
        assert(accounts@.take(i + 1).drop_last() =~= accounts@.take(i as int));
        let coins = &accounts[i].coin;
        let ghost before_this = all_coins(accounts@.take(i as int));
        assert(before_this + coins@.take(0) =~= before_this);
        for j in 0..coins.len()
            invariant
                accounts@ == reply.result.list@,
                reply.ret_code == 0,
                i < accounts@.len(),
                coins@ == accounts@[i as int].coin@,
                before_this == all_coins(accounts@.take(i as int)),
                all_coins(accounts@.take(i + 1)) == before_this + coins@,
                coin_balances(before_this + coins@.take(j as int), as_of_utc@) == Ok::<Seq<BalanceFacts>, Overflow>(
                    common::balance_views(balances@),
                ),
        {
            let ghost now = before_this + coins@.take(j + 1);
            assert(now.drop_last() =~= before_this + coins@.take(j as int));
            match coin_to_view(&coins[j], as_of_utc) {
                Ok(Some(view)) => {
                    let ghost before = balances@;
                    let ghost facts = view.facts();
                    balances.push(view);
                    assert(common::balance_views(balances@) =~= common::balance_views(before).push(facts));
                },
                Ok(None) => {},
                Err(_) => {
                    proof {
                        let rest = coins@.skip(j + 1);
                        assert(now + rest =~= all_coins(accounts@.take(i + 1)));
                        overflow_stays(now, rest, as_of_utc@);
                        coins_start(accounts@, i + 1);
                        let more = choose|more: Seq<BybitCoinBalance>|
                            all_coins(accounts@) == #[trigger] (all_coins(accounts@.take(i + 1)) + more);
                        overflow_stays(all_coins(accounts@.take(i + 1)), more, as_of_utc@);
                    }
                    return None;
                },
            }
        }
        assert(before_this + coins@.take(coins@.len() as int) =~= all_coins(accounts@.take(i + 1)));
    }
    assert(accounts@.take(accounts@.len() as int) =~= accounts@);
    let mut partitions: Vec<AccountPartitionRef> = Vec::new();
    partitions.push(
        AccountPartitionRef { exchange: Exchange::Bybit, kind: PartitionKind::Unified, account_id: None },
    );
    assert(common::part_views(partitions@) =~= seq![unified_part()]);
    Some(
        Ok(
            AccountSnapshot {
                exchange: Exchange::Bybit,
                model: AccountModel::Unified,
                partitions,
                balances,
                as_of_utc,
            },
        ),
    )
}

/// The body of a request that places an order.
#[derive(Debug)]
pub struct BybitOrderBody {
    pub category: String,
    pub symbol: String,
    pub side: String,
    pub order_type: String,
    pub qty: String,
    pub order_link_id: String,
    pub price: Option<String>,
    pub time_in_force: Option<String>,
    pub reduce_only: bool,
}

/// How long an order is good: one that must not take what is on offer says so, any other limit
/// order is good until it is canceled.
pub open spec fn good_for(request: OrderRequest) -> Option<Seq<char>> {
    if request.post_only || request.order_type == OrderType::PostOnly {
        Some("PostOnly"@)
    } else if request.order_type == OrderType::Limit {
        Some("GTC"@)
    } else {
        None
    }
}

/// Whether a body places an order, with quantity and price as the instrument has them.
pub open spec fn is_order_body(body: BybitOrderBody, i: Instrument, request: OrderRequest, client_order_id: Seq<char>) -> bool {
    &&& body.category@ == "linear"@
    &&& body.symbol@ == i.exchange_symbol@
    &&& body.side@ == (match request.side {
        OrderSide::Buy => "Buy"@,
        OrderSide::Sell => "Sell"@,
    })
    &&& body.order_type@ == (match request.order_type {
        OrderType::Market => "Market"@,
        _ => "Limit"@,
    })
    &&& crate::types::quantity_in_lots(request.size@, i.lot_size@) matches Some(size) && body.qty@ == size.text()
    &&& body.order_link_id@ == client_order_id
    &&& match request.price {
        None => body.price is None,
        Some(price) => crate::types::price_on_tick(price@, i.tick_size@) matches Some(p) && (body.price matches Some(
            written,
        ) && written@ == p.text()),
    }
    &&& common::opt_view(body.time_in_force) == good_for(request)
    &&& body.reduce_only == request.reduce_only
}

/// Whether quantity and price of an order have a value on an instrument.
pub open spec fn order_computes(i: Instrument, request: OrderRequest) -> bool {
    &&& crate::types::quantity_in_lots(request.size@, i.lot_size@) is Some
    &&& request.price matches Some(price) ==> crate::types::price_on_tick(price@, i.tick_size@) is Some
}

fn make_order_body(i: &Instrument, request: &OrderRequest, client_order_id: &str) -> (r: Option<BybitOrderBody>)
    ensures
        r is Some <==> order_computes(*i, *request),
        r matches Some(body) ==> is_order_body(body, *i, *request, client_order_id@),
{
    let size = match i.checked_normalize_quantity(request.size) {
        Some(size) => size,
        None => return None,
    };
    let price = match request.price {
        Some(price) => match i.checked_normalize_price(price) {
            Some(p) => Some(p.to_string()),
            None => return None,
        },
        None => None,
    };
    let side = match request.side {
        OrderSide::Buy => "Buy",
        OrderSide::Sell => "Sell",
    };
    let order_type = match request.order_type {
        OrderType::Market => "Market",
        _ => "Limit",
    };
    let time_in_force = if request.post_only || request.order_type == OrderType::PostOnly {
        Some("PostOnly".to_owned())
    } else if request.order_type == OrderType::Limit {
        Some("GTC".to_owned())
    } else {
        None
    };
    Some(
        BybitOrderBody {
            category: "linear".to_owned(),
            symbol: i.exchange_symbol.clone(),
            side: side.to_owned(),
            order_type: order_type.to_owned(),
            qty: size.to_string(),
            order_link_id: client_order_id.to_owned(),
            price,
            time_in_force,
            reduce_only: request.reduce_only,
        },
    )
}

/// The order that was placed, as far as the exchange's answer tells: it is new, and nothing of it
/// is filled.
pub fn placed_order(request: OrderRequest, client_order_id: String, exchange_order_id: String, now: UtcTime) -> (r: Order)
    ensures
        r.internal_id@ == client_order_id@,
        r.strategy_id@ == request.strategy_id@,
        r.client_order_id == client_order_id,
        r.exchange_order_id == Some(exchange_order_id),
        r.request == request,
        r.status == OrderStatus::New,
        r.filled_size@ == Dec::zero(),
        r.avg_fill_price is None,
        r.created_at == now,
        r.updated_at == now,
{
    Order {
        internal_id: client_order_id.clone(),
        strategy_id: request.strategy_id.clone(),
        client_order_id,
        exchange_order_id: Some(exchange_order_id),
        request,
        status: OrderStatus::New,
        filled_size: Decimal::zero(),
        avg_fill_price: None,
        created_at: now,
        updated_at: now,
    }
}

/// What is known of an order that was taken back: its identifiers and whose strategy it is.
pub open spec fn taken_back(key: InstrumentKey, order_id: Seq<char>, exchange_order_id: Seq<char>, now: int) -> OrderFacts {
    OrderFacts {
        internal_id: order_id,
        strategy_id: codec::strategy_in(order_id)->0,
        client_order_id: order_id,
        exchange_order_id: Some(exchange_order_id),
        key,
        request_strategy: codec::strategy_in(order_id)->0,
        side: OrderSide::Buy,
        order_type: OrderType::Limit,
        price: None,
        size: Dec::zero(),
        post_only: false,
        reduce_only: false,
        status: OrderStatus::Canceled,
        filled_size: Dec::zero(),
        avg_fill_price: None,
        created_at: now,
        updated_at: now,
    }
}

/// The order that was taken back, as far as the exchange's answer tells. Its identifier has to name
/// a strategy.
pub fn canceled_order(key: InstrumentKey, order_id: &str, exchange_order_id: String, now: UtcTime) -> (r: Order)
    requires
        codec::strategy_in(order_id@) is Some,
    ensures
        r.facts() == taken_back(key, order_id@, exchange_order_id@, now@),
{
    let strategy_id = decode_strategy(order_id).unwrap();
    Order {
        internal_id: order_id.to_owned(),
        strategy_id: strategy_id.clone(),
        client_order_id: order_id.to_owned(),
        exchange_order_id: Some(exchange_order_id),
        request: OrderRequest {
            key,
            strategy_id,
            side: OrderSide::Buy,
            order_type: OrderType::Limit,
            price: None,
            size: Decimal::zero(),
            post_only: false,
            reduce_only: false,
        },
        status: OrderStatus::Canceled,
        filled_size: Decimal::zero(),
        avg_fill_price: None,
        created_at: now,
        updated_at: now,
    }
}

/// The orders of a list that can be read, in order.
pub open spec fn told_orders(list: Seq<BybitOrderEntry>, key: InstrumentKey, now: int) -> Seq<OrderFacts>
    decreases list.len(),
{
    if list.len() == 0 {
        Seq::empty()
    } else {
        let front = told_orders(list.drop_last(), key, now);
        match mappers::told_order(list.last().said(), decimal::parsed(list.last().cum_exec_qty@), key, now) {
            Some(order) => front.push(order),
            None => front,
        }
    }
}

/// The open orders that a reply lists. Those that cannot be read are left out.
pub fn read_open_orders(reply: &BybitApiResponse<BybitOrderListResult>, key: InstrumentKey, now: UtcTime) -> (r: Result<
    Vec<Order>,
    TradingError,
>)
    ensures
        match r {
            Ok(orders) => reply.ret_code == 0 && common::order_views(orders@) == told_orders(
                reply.result.list@,
                key,
                now@,
            ),
            Err(TradingError::Parse(m)) => reply.ret_code != 0 && m@ == coded_error(
                "Bybit open orders error: "@,
                reply.ret_msg@,
                reply.ret_code,
            ),
            Err(_) => false,
        },
{
    match check_trading_reply("Bybit open orders error: ", reply.ret_code, reply.ret_msg.as_str()) {
        Ok(_) => {},
        Err(e) => return Err(e),
    }
    let list = &reply.result.list;
    let mut orders: Vec<Order> = Vec::new();
    assert(common::order_views(orders@) =~= Seq::<OrderFacts>::empty());
    for i in 0..list.len()
        invariant
            common::order_views(orders@) == told_orders(list@.take(i as int), key, now@),
    {
        assert(list@.take(i + 1).drop_last() =~= list@.take(i as int));
        if let Some(order) = bybit_order_to_order_at(&list[i], key, now) {
            let ghost before = orders@;
            let ghost facts = order.facts();
            orders.push(order);
            assert(common::order_views(orders@) =~= common::order_views(before).push(facts));
        }
    }
    assert(list@.take(list@.len() as int) =~= list@);
    Ok(orders)
}

/// The order that a reply tells: the first of its list.
pub fn read_order_status(reply: &BybitApiResponse<BybitOrderListResult>, key: InstrumentKey, now: UtcTime) -> (r: Result<
    Order,
    TradingError,
>)
    ensures
        ({
            let list = reply.result.list@;
            let told = if list.len() == 0 {
                None
            } else {
                mappers::told_order(list[0].said(), decimal::parsed(list[0].cum_exec_qty@), key, now@)
            };
            match r {
                Ok(order) => reply.ret_code == 0 && told == Some(order.facts()),
                Err(TradingError::Parse(m)) => if reply.ret_code != 0 {
                    m@ == coded_error("Bybit order status error: "@, reply.ret_msg@, reply.ret_code)
                } else {
                    told is None && m@ == "Bybit order not found"@
                },
                Err(_) => false,
            }
        }),
{
    match check_trading_reply("Bybit order status error: ", reply.ret_code, reply.ret_msg.as_str()) {
        Ok(_) => {},
        Err(e) => return Err(e),
    }
    if reply.result.list.len() > 0 {
        if let Some(order) = bybit_order_to_order_at(&reply.result.list[0], key, now) {
            return Ok(order);
        }
    }
    Err(TradingError::Parse("Bybit order not found".to_owned()))
}

/// The time that the exchange tells.
pub fn read_server_time(reply: &BybitApiResponse<BybitServerTime>) -> (r: Result<UtcTime, MarketDataError>)
    ensures
        match r {
            Ok(t) => reply.ret_code == 0 && (text::signed(reply.result.time_second@) matches Some(secs) && t@ == secs
                * 1_000_000_000),
            Err(MarketDataError::Parse(m)) => m@ == (if reply.ret_code != 0 {
                plain_error("Bybit server time error: "@, reply.ret_msg@)
            } else if text::signed(reply.result.time_second@) is None {
                "invalid server time seconds"@
            } else {
                "invalid server timestamp from Bybit"@
            }) && (reply.ret_code == 0 ==> (text::signed(reply.result.time_second@) matches Some(secs)
                ==> !time::in_calendar(secs * 1_000_000_000))),
            Err(_) => false,
        },
{
    if reply.ret_code != 0 {
        return Err(MarketDataError::Parse(concat("Bybit server time error: ", reply.ret_msg.as_str())));
    }
    match parse_signed(reply.result.time_second.as_str()) {
        Some(secs) => match UtcTime::from_seconds(secs) {
            Some(t) => Ok(t),
            None => Err(MarketDataError::Parse("invalid server timestamp from Bybit".to_owned())),
        },
        None => Err(MarketDataError::Parse("invalid server time seconds".to_owned())),
    }
}

/// The funding rate that a reply tells at a time: that of its first ticker.
pub fn read_ticker(
    reply: &BybitApiResponse<BybitTickerResult>,
    key: InstrumentKey,
    interval: FundingInterval,
    now: UtcTime,
) -> (r: Result<FundingRateSnapshot, MarketDataError>)
    ensures
        ({
            let list = reply.result.list@;
            match r {
                Ok(s) => reply.ret_code == 0 && list.len() > 0 && mappers::ticker_rate(list[0], key, interval, now@)
                    == Some(s.facts()),
                Err(MarketDataError::Parse(m)) => if reply.ret_code != 0 {
                    m@ == plain_error("Bybit ticker error: "@, reply.ret_msg@)
                } else if list.len() == 0 {
                    m@ == "empty ticker list from Bybit"@
                } else {
                    mappers::ticker_rate(list[0], key, interval, now@) is None && m@ == "Failed to parse Bybit ticker"@
                },
                Err(_) => false,
            }
        }),
{
    if reply.ret_code != 0 {
        return Err(MarketDataError::Parse(concat("Bybit ticker error: ", reply.ret_msg.as_str())));
    }
    if reply.result.list.len() == 0 {
        return Err(MarketDataError::Parse("empty ticker list from Bybit".to_owned()));
    }
    match ticker_to_funding_snapshot_at(&reply.result.list[0], key, interval, now) {
        Some(s) => Ok(s),
        None => Err(MarketDataError::Parse("Failed to parse Bybit ticker".to_owned())),
    }
}

/// The past funding rates that a reply tells.
pub fn read_funding_history(
    reply: &BybitApiResponse<BybitFundingHistoryResult>,
    key: InstrumentKey,
    interval: FundingInterval,
) -> (r: Result<FundingRateSeries, MarketDataError>)
    ensures
        match r {
            Ok(s) => reply.ret_code == 0 && s.key == key && s.interval == interval && common::point_views(s.points@)
                == mappers::history_points(reply.result.list@),
            Err(MarketDataError::Parse(m)) => reply.ret_code != 0 && m@ == plain_error(
                "Bybit funding history error: "@,
                reply.ret_msg@,
            ),
            Err(_) => false,
        },
{
    if reply.ret_code != 0 {
        return Err(MarketDataError::Parse(concat("Bybit funding history error: ", reply.ret_msg.as_str())));
    }
    Ok(funding_history_to_series(reply.result.list.as_slice(), key, interval))
}

/// The order book that a reply tells; the outer error tells that mid-price or spread overflow.
pub fn read_depth(reply: &BybitApiResponse<BybitOrderBookResult>, key: InstrumentKey, now_ms: i64) -> (r: Result<
    Result<OrderBookSnapshot, PriceError>,
    Overflow,
>)
    ensures
        match r {
            Ok(Ok(book)) => reply.ret_code == 0 && mappers::is_good_book(Some(book), reply.result, key, now_ms),
            Ok(Err(PriceError::Parse(m))) => if reply.ret_code != 0 {
                m@ == plain_error("Bybit orderbook error: "@, reply.ret_msg@)
            } else {
                mappers::is_good_book(None, reply.result, key, now_ms) && m@ == "failed to parse Bybit depth levels"@
            },
            Ok(Err(_)) => false,
            Err(_) => reply.ret_code == 0 && time::millis_in_calendar(mappers::book_time(reply.result, now_ms))
                && !mappers::book_computes(reply.result),
        },
{
    if reply.ret_code != 0 {
        return Ok(Err(PriceError::Parse(concat("Bybit orderbook error: ", reply.ret_msg.as_str()))));
    }
    match checked_order_book_to_snapshot(&reply.result, key, now_ms) {
        Ok(Some(book)) => Ok(Ok(book)),
        Ok(None) => Ok(Err(PriceError::Parse("failed to parse Bybit depth levels".to_owned()))),
        Err(e) => Err(e),
    }
}

/// Whether an error tells that requests cannot be signed.
pub open spec fn is_unconfigured(e: AccountError) -> bool {
    e matches AccountError::Other(m) && m@ == "Bybit private client not configured (missing API keys)"@
}

/// Whether an error tells that requests cannot be signed.
pub open spec fn is_unconfigured_trading(e: TradingError) -> bool {
    e matches TradingError::Other(m) && m@ == "Bybit private client not configured (missing API keys)"@
}

/// A position as the reply tells it, with the leverage that was set.
pub open spec fn listed_position(
    instruments: Seq<Instrument>,
    leverage: Map<InstrumentKey, Decimal>,
    entry: BybitPositionEntry,
) -> Option<PositionFacts> {
    match registry::known_by(instruments, Exchange::Bybit, entry.symbol@, InstrumentType::Swap) {
        Some(i) => match mappers::listed_position(entry, i.key) {
            Some(p) => Some(
                if leverage.contains_key(p.key) {
                    PositionFacts { leverage: leverage[p.key]@, ..p }
                } else {
                    p
                },
            ),
            None => None,
        },
        None => None,
    }
}

/// The positions that can be read, in order.
pub open spec fn listed_positions(
    instruments: Seq<Instrument>,
    leverage: Map<InstrumentKey, Decimal>,
    entries: Seq<BybitPositionEntry>,
) -> Seq<PositionFacts>
    decreases entries.len(),
{
    if entries.len() == 0 {
        Seq::empty()
    } else {
        let front = listed_positions(instruments, leverage, entries.drop_last());
        match listed_position(instruments, leverage, entries.last()) {
            Some(p) => front.push(p),
            None => front,
        }
    }
}

/// The stream of a user's orders and positions.
#[derive(Debug)]
pub struct BybitUserStream {
    pub url: String,
    pub api_key: String,
    pub api_secret: String,
}

/// The body of a request that sets a leverage: the same to buy and to sell.
#[derive(Debug)]
pub struct BybitLeverageBody {
    pub category: String,
    pub symbol: String,
    pub buy_leverage: String,
    pub sell_leverage: String,
}

/// The body of a request that takes an order back.
#[derive(Debug)]
pub struct BybitCancelBody {
    pub category: String,
    pub symbol: String,
    pub order_link_id: String,
}

/// The answer with which the exchange tells that a leverage is what it was.
pub const LEVERAGE_NOT_MODIFIED: i32 = 110_043;

/// What a Bybit client knows and how it asks the exchange.
#[derive(Debug)]
pub struct BybitClient {
    config: BybitConfig,
    public_client: HttpClientBuilder,
    private_client: Option<(HttpClientBuilder, BybitHmacAuth)>,
    registry: InstrumentRegistry,
    instruments_loaded: bool,
    leverage_map: Table<InstrumentKey, Decimal>,
}

impl BybitClient {
    pub closed spec fn config(&self) -> BybitConfig {
        self.config
    }

    /// The instruments that are known.
    pub closed spec fn instruments(&self) -> Seq<Instrument> {
        self.registry@
    }

    /// Whether the instruments have been fetched.
    pub closed spec fn loaded(&self) -> bool {
        self.instruments_loaded
    }

    /// The leverage that was set, by instrument.
    pub closed spec fn leverage(&self) -> Map<InstrumentKey, Decimal> {
        self.leverage_map@
    }

    /// There is a client, and a signing one where there are credentials.
    #[verifier::type_invariant]
    closed spec fn inv(self) -> bool {
        &&& self.config.makes(self.public_client)
        &&& self.private_client is Some <==> self.config.has_credentials()
        &&& self.private_client matches Some(p) ==> self.config.makes(p.0) && self.config.signs(p.1)
    }

    /// Everything but the leverage that was set.
    pub open spec fn same_but_leverage(&self, other: BybitClient) -> bool {
        &&& self.config() == other.config()
        &&& self.instruments() == other.instruments()
        &&& self.loaded() == other.loaded()
    }

    pub fn new(config: BybitConfig, registry: InstrumentRegistry) -> (r: BybitClient)
        ensures
            r.config() == config,
            r.instruments() == registry@,
            !r.loaded(),
            r.leverage() == Map::<InstrumentKey, Decimal>::empty(),
    {
        let public_client = HttpClientBuilder::new(config.base_url()).timeout(config.timeout_secs).max_retries(
            config.max_retries,
        );
        let private_client = match (&config.api_key, &config.api_secret) {
            (Some(key), Some(secret)) => Some(
                (
                    HttpClientBuilder::new(config.base_url()).timeout(config.timeout_secs).max_retries(config.max_retries),
                    BybitHmacAuth::new(key.clone(), secret.clone()).with_recv_window_ms(config.recv_window),
                ),
            ),
            _ => None,
        };
        BybitClient {
            config,
            public_client,
            private_client,
            registry,
            instruments_loaded: false,
            leverage_map: Table::new(),
        }
    }

    pub fn public_client(&self) -> (r: &HttpClientBuilder)
        ensures
            self.config().makes(*r),
    {
        proof {
            use_type_invariant(self);
        }
        &self.public_client
    }

    /// The client that signs requests.
    pub fn private_client(&self) -> (r: Result<&(HttpClientBuilder, BybitHmacAuth), AccountError>)
        ensures
            match r {
                Ok(p) => self.config().has_credentials() && self.config().makes(p.0) && self.config().signs(p.1),
                Err(e) => !self.config().has_credentials() && is_unconfigured(e),
            },
    {
        proof {
            use_type_invariant(self);
        }
        match &self.private_client {
            Some(client) => Ok(client),
            None => Err(AccountError::Other("Bybit private client not configured (missing API keys)".to_owned())),
        }
    }

    /// Whether requests can be signed, else the error to answer with.
    fn signing(&self) -> (r: Result<(), TradingError>)
        ensures
            match r {
                Ok(_) => self.config().has_credentials(),
                Err(e) => !self.config().has_credentials() && is_unconfigured_trading(e),
            },
    {
        match self.private_client() {
            Ok(_) => Ok(()),
            Err(e) => Err(TradingError::from(e)),
        }
    }

    /// The instruments that are known.
    pub fn registry(&self) -> (r: &InstrumentRegistry)
        ensures
            r@ == self.instruments(),
    {
        &self.registry
    }

    /// Goes by other instruments from now on: what is registered where several clients share them.
    pub fn set_registry(&mut self, registry: InstrumentRegistry)
        ensures
            final(self).config() == old(self).config(),
            final(self).leverage() == old(self).leverage(),
            final(self).loaded() == old(self).loaded(),
            final(self).instruments() == registry@,
    {
        proof {
            use_type_invariant(&*self);
        }
        self.registry = registry;
    }

    /// Whether the instruments have still to be fetched.
    pub fn needs_instruments(&self) -> (r: bool)
        ensures
            r == !self.loaded(),
    {
        !self.instruments_loaded
    }

    /// Takes in the instruments that were fetched. Only the first time counts.
    pub fn load_instruments(&mut self, fetched: Vec<Instrument>)
        ensures
            final(self).config() == old(self).config(),
            final(self).leverage() == old(self).leverage(),
            final(self).loaded(),
            final(self).instruments() == (if old(self).loaded() {
                old(self).instruments()
            } else {
                registry::all_registered(old(self).instruments(), fetched@)
            }),
    {
        proof {
            use_type_invariant(&*self);
        }
        if !self.instruments_loaded {
            let mut registry = InstrumentRegistry::new();
            std::mem::swap(&mut registry, &mut self.registry);
            registry.insert_batch(fetched);
            self.registry = registry;
            self.instruments_loaded = true;
        }
    }

    /// The request for a funding rate, and how often the instrument pays funding.
    pub fn funding_rate_snapshot(&self, key: InstrumentKey) -> (r: Result<(ApiCall, FundingInterval), MarketDataError>)
        ensures
            match r {
                Ok((call, interval)) => requests::funding_target(self.instruments(), key) matches Some(i) && interval
                    == requests::interval_of(i) && call.is(
                    Method::Get,
                    false,
                    "/v5/market/tickers?category=linear&symbol="@ + i.exchange_symbol@,
                ),
                Err(e) => e == MarketDataError::UnsupportedInstrument && requests::funding_target(
                    self.instruments(),
                    key,
                ) is None,
            },
    {
        match find_funding_target(&self.registry, key) {
            Ok((symbol, interval)) => Ok(
                (
                    ApiCall {
                        method: Method::Get,
                        signed: false,
                        path: concat("/v5/market/tickers?category=linear&symbol=", symbol.as_str()),
                    },
                    interval,
                ),
            ),
            Err(e) => Err(e),
        }
    }

    /// The request for past funding rates, and how often the instrument pays funding. The exchange
    /// gives two hundred entries at most.
    pub fn funding_rate_history(&self, key: InstrumentKey, start: UtcTime, end: UtcTime, limit: usize) -> (r: Result<
        (ApiCall, FundingInterval),
        MarketDataError,
    >)
        ensures
            match r {
                Ok((call, interval)) => requests::funding_target(self.instruments(), key) matches Some(i) && interval
                    == requests::interval_of(i) && call.is(
                    Method::Get,
                    false,
                    requests::history_text(
                        "/v5/market/funding/history?category=linear&symbol="@,
                        i.exchange_symbol@,
                        (start@ / 1_000_000) as i64,
                        (end@ / 1_000_000) as i64,
                        limit,
                        200,
                    ),
                ),
                Err(e) => e == MarketDataError::UnsupportedInstrument && requests::funding_target(
                    self.instruments(),
                    key,
                ) is None,
            },
    {
        match find_funding_target(&self.registry, key) {
            Ok((symbol, interval)) => {
                let path = history_path(
                    "/v5/market/funding/history?category=linear&symbol=",
                    symbol.as_str(),
                    start.timestamp_millis(),
                    end.timestamp_millis(),
                    limit,
                    200,
                );
                Ok((ApiCall { method: Method::Get, signed: false, path }, interval))
            },
            Err(e) => Err(e),
        }
    }

    /// The request for an order book.
    pub fn fetch_order_book(&self, key: InstrumentKey) -> (r: Result<ApiCall, PriceError>)
        ensures
            match requests::funding_target(self.instruments(), key) {
                Some(i) => r matches Ok(call) && call.is(
                    Method::Get,
                    false,
                    "/v5/market/orderbook?category=linear&symbol="@ + i.exchange_symbol@ + "&limit=5"@,
                ),
                None => r matches Err(e) && e == PriceError::UnsupportedInstrument,
            },
    {
        match find_funding_target(&self.registry, key) {
            Ok((symbol, _)) => Ok(
                ApiCall {
                    method: Method::Get,
                    signed: false,
                    path: concat3("/v5/market/orderbook?category=linear&symbol=", symbol.as_str(), "&limit=5"),
                },
            ),
            Err(_) => Err(PriceError::UnsupportedInstrument),
        }
    }

    /// The address that streams the order books of the futures among some keys, and their symbols in
    /// the stream; `None` where there is no future among them.
    pub fn stream_order_books(&self, keys: &[InstrumentKey]) -> (r: Option<(String, Table<String, InstrumentKey>)>)
        ensures
            r is Some <==> requests::has_kind(keys@, InstrumentType::Swap),
            r matches Some((url, names)) ==> names@ == requests::stream_map(
                self.instruments(),
                keys@,
                InstrumentType::Swap,
                false,
            ) && url@ == (if self.config().testnet {
                BYBIT_WS_PUBLIC_LINEAR_TESTNET@
            } else {
                BYBIT_WS_PUBLIC_LINEAR@
            }),
    {
        if !any_of_kind(keys, InstrumentType::Swap) {
            return None;
        }
        let names = make_stream_map(&self.registry, keys, InstrumentType::Swap, false);
        let url = if self.config.testnet {
            BYBIT_WS_PUBLIC_LINEAR_TESTNET.to_owned()
        } else {
            BYBIT_WS_PUBLIC_LINEAR.to_owned()
        };
        Some((url, names))
    }

    /// The request for the balances.
    pub fn account_call(&self) -> (r: Result<ApiCall, AccountError>)
        ensures
            match r {
                Ok(call) => self.config().has_credentials() && call.is(
                    Method::Get,
                    true,
                    "/v5/account/wallet-balance?accountType="@ + self.config().account_type@,
                ),
                Err(e) => !self.config().has_credentials() && is_unconfigured(e),
            },
    {
        match self.private_client() {
            Ok(_) => Ok(
                ApiCall {
                    method: Method::Get,
                    signed: true,
                    path: concat("/v5/account/wallet-balance?accountType=", self.config.account_type.as_str()),
                },
            ),
            Err(e) => Err(e),
        }
    }

    /// Whether the account of an exchange can be asked for here.
    pub fn check_exchange(&self, exchange: Exchange) -> (r: Result<(), AccountManagerError>)
        ensures
            match r {
                Ok(_) => exchange == Exchange::Bybit,
                Err(e) => exchange != Exchange::Bybit && requests::is_other_exchange(e, "BybitClient"@, exchange),
            },
    {
        if exchange != Exchange::Bybit {
            return Err(other_exchange("BybitClient", exchange));
        }
        Ok(())
    }

    /// The request for the open positions.
    pub fn positions_call(&self) -> (r: Result<ApiCall, TradingError>)
        ensures
            match r {
                Ok(call) => self.config().has_credentials() && call.is(
                    Method::Get,
                    true,
                    "/v5/position/list?category=linear&settleCoin=USDT&limit=200"@,
                ),
                Err(e) => !self.config().has_credentials() && is_unconfigured_trading(e),
            },
    {
        match self.signing() {
            Ok(_) => Ok(
                ApiCall {
                    method: Method::Get,
                    signed: true,
                    path: "/v5/position/list?category=linear&settleCoin=USDT&limit=200".to_owned(),
                },
            ),
            Err(e) => Err(e),
        }
    }

    /// The open positions that a reply lists, with the leverage that was set. What is about another
    /// instrument or cannot be read is left out.
    pub fn fetch_positions(&self, reply: &BybitApiResponse<BybitPositionResult>) -> (r: Result<Vec<Position>, TradingError>)
        ensures
            match r {
                Ok(positions) => reply.ret_code == 0 && common::position_views(positions@) == listed_positions(
                    self.instruments(),
                    self.leverage(),
                    reply.result.list@,
                ),
                Err(TradingError::Parse(m)) => reply.ret_code != 0 && m@ == plain_error(
                    "Bybit position error: "@,
                    reply.ret_msg@,
                ),
                Err(_) => false,
            },
    {
        if reply.ret_code != 0 {
            return Err(TradingError::Parse(concat("Bybit position error: ", reply.ret_msg.as_str())));
        }
        let entries = &reply.result.list;
        let mut positions: Vec<Position> = Vec::new();
        assert(common::position_views(positions@) =~= Seq::<PositionFacts>::empty());
        for i in 0..entries.len()
            invariant
                common::position_views(positions@) == listed_positions(
                    self.instruments(),
                    self.leverage(),
                    entries@.take(i as int),
                ),
        {
            assert(entries@.take(i + 1).drop_last() =~= entries@.take(i as int));
            if let Some(instrument) = self.registry.get_by_exchange_symbol(
                Exchange::Bybit,
                entries[i].symbol.as_str(),
                InstrumentType::Swap,
            ) {
                if let Some(position) = bybit_position_to_position(&entries[i], instrument.key) {
                    let levered = with_leverage(position, &self.leverage_map);
                    let ghost before = positions@;
                    positions.push(levered);
                    assert(common::position_views(positions@) =~= common::position_views(before).push(levered.facts()));
                }
            }
        }
        assert(entries@.take(entries@.len() as int) =~= entries@);
        Ok(positions)
    }

    /// The body of the request that sets the leverage of an instrument.
    pub fn set_leverage(&self, key: InstrumentKey, leverage: Decimal) -> (r: Result<BybitLeverageBody, TradingError>)
        ensures
            match (registry::found(self.instruments(), key), r) {
                (None, Err(e)) => requests::is_not_registered(e, key),
                (Some(_), Err(e)) => !self.config().has_credentials() && is_unconfigured_trading(e),
                (Some(i), Ok(body)) => {
                    &&& self.config().has_credentials()
                    &&& body.category@ == "linear"@
                    &&& body.symbol@ == i.exchange_symbol@
                    &&& body.buy_leverage@ == leverage@.text()
                    &&& body.sell_leverage@ == leverage@.text()
                },
                (None, Ok(_)) => false,
            },
    {
        let symbol = match self.registry.get(&key) {
            Some(instrument) => instrument.exchange_symbol,
            None => return Err(not_registered(key)),
        };
        match self.signing() {
            Ok(_) => Ok(
                BybitLeverageBody {
                    category: "linear".to_owned(),
                    symbol,
                    buy_leverage: leverage.to_string(),
                    sell_leverage: leverage.to_string(),
                },
            ),
            Err(e) => Err(e),
        }
    }

    /// Takes in the answer to a request that sets a leverage, and gives the leverage that holds. That
    /// it is what it was is no error.
    pub fn leverage_set(&mut self, key: InstrumentKey, leverage: Decimal, ret_code: i32, ret_msg: &str) -> (r: Result<
        Decimal,
        TradingError,
    >)
        ensures
            final(self).same_but_leverage(*old(self)),
            match r {
                Ok(l) => (ret_code == 0 || ret_code == LEVERAGE_NOT_MODIFIED) && l == leverage && final(self).leverage()
                    == old(self).leverage().insert(key, leverage),
                Err(TradingError::Parse(m)) => ret_code != 0 && ret_code != LEVERAGE_NOT_MODIFIED && m@ == coded_error(
                    "Bybit set leverage error: "@,
                    ret_msg@,
                    ret_code,
                ) && final(self).leverage() == old(self).leverage(),
                Err(_) => false,
            },
    {
        proof {
            use_type_invariant(&*self);
        }
        if ret_code != 0 && ret_code != LEVERAGE_NOT_MODIFIED {
            return Err(TradingError::Parse(make_coded_error("Bybit set leverage error: ", ret_msg, ret_code)));
        }
        let mut map: Table<InstrumentKey, Decimal> = Table::new();
        std::mem::swap(&mut map, &mut self.leverage_map);
        map.insert(key, leverage);
        self.leverage_map = map;
        Ok(leverage)
    }

    /// The leverage that was set for an instrument.
    pub fn get_leverage(&self, key: InstrumentKey) -> (r: Option<Decimal>)
        ensures
            r == (if self.leverage().contains_key(key) {
                Some(self.leverage()[key])
            } else {
                None
            }),
    {
        match self.leverage_map.get(&key) {
            Some(l) => Some(*l),
            None => None,
        }
    }

    /// The body of the request that places an order; `None` where quantity or price overflow.
    pub fn place_order(&self, request: &OrderRequest, client_order_id: &str) -> (r: Option<
        Result<BybitOrderBody, TradingError>,
    >)
        ensures
            match registry::found(self.instruments(), request.key) {
                None => r matches Some(Err(e)) && e == TradingError::UnsupportedInstrument,
                Some(i) => if order_computes(i, *request) {
                    match r {
                        Some(Ok(body)) => self.config().has_credentials() && is_order_body(
                            body,
                            i,
                            *request,
                            client_order_id@,
                        ),
                        Some(Err(e)) => !self.config().has_credentials() && is_unconfigured_trading(e),
                        None => false,
                    }
                } else {
                    r is None
                },
            },
    {
        let instrument = match self.registry.get(&request.key) {
            Some(instrument) => instrument,
            None => return Some(Err(TradingError::UnsupportedInstrument)),
        };
        match make_order_body(&instrument, request, client_order_id) {
            Some(body) => match self.signing() {
                Ok(_) => Some(Ok(body)),
                Err(e) => Some(Err(e)),
            },
            None => None,
        }
    }

    /// The body of the request that takes an order back.
    pub fn cancel_order(&self, key: InstrumentKey, order_id: &str) -> (r: Result<BybitCancelBody, TradingError>)
        ensures
            match (registry::found(self.instruments(), key), r) {
                (None, Err(e)) => e == TradingError::UnsupportedInstrument,
                (Some(_), Err(e)) => !self.config().has_credentials() && is_unconfigured_trading(e),
                (Some(i), Ok(body)) => {
                    &&& self.config().has_credentials()
                    &&& body.category@ == "linear"@
                    &&& body.symbol@ == i.exchange_symbol@
                    &&& body.order_link_id@ == order_id@
                },
                (None, Ok(_)) => false,
            },
    {
        let symbol = match self.registry.get(&key) {
            Some(instrument) => instrument.exchange_symbol,
            None => return Err(TradingError::UnsupportedInstrument),
        };
        match self.signing() {
            Ok(_) => Ok(
                BybitCancelBody { category: "linear".to_owned(), symbol, order_link_id: order_id.to_owned() },
            ),
            Err(e) => Err(e),
        }
    }

    /// Whether a result is the request about the orders of an instrument, or says why there is none.
    pub open spec fn asks_for_orders(&self, r: Result<ApiCall, TradingError>, key: InstrumentKey, end: Seq<char>) -> bool {
        match (registry::found(self.instruments(), key), r) {
            (None, Err(e)) => e == TradingError::UnsupportedInstrument,
            (Some(_), Err(e)) => !self.config().has_credentials() && is_unconfigured_trading(e),
            (Some(i), Ok(call)) => self.config().has_credentials() && call.is(
                Method::Get,
                true,
                "/v5/order/realtime?category=linear&symbol="@ + i.exchange_symbol@ + end,
            ),
            (None, Ok(_)) => false,
        }
    }

    fn orders_call(&self, key: InstrumentKey, end: &str) -> (r: Result<ApiCall, TradingError>)
        ensures
            self.asks_for_orders(r, key, end@),
    {
        let symbol = match self.registry.get(&key) {
            Some(instrument) => instrument.exchange_symbol,
            None => return Err(TradingError::UnsupportedInstrument),
        };
        match self.signing() {
            Ok(_) => Ok(
                ApiCall {
                    method: Method::Get,
                    signed: true,
                    path: concat3("/v5/order/realtime?category=linear&symbol=", symbol.as_str(), end),
                },
            ),
            Err(e) => Err(e),
        }
    }

    /// The request for the open orders of an instrument.
    pub fn get_open_orders(&self, key: InstrumentKey) -> (r: Result<ApiCall, TradingError>)
        ensures
            self.asks_for_orders(r, key, "&openOnly=0&limit=50"@),
    {
        self.orders_call(key, "&openOnly=0&limit=50")
    }

    /// The request for the state of an order.
    pub fn get_order_status(&self, key: InstrumentKey, order_id: &str) -> (r: Result<ApiCall, TradingError>)
        ensures
            self.asks_for_orders(r, key, "&orderLinkId="@ + order_id@),
    {
        self.orders_call(key, concat("&orderLinkId=", order_id).as_str())
    }

    /// The stream of a user's orders and positions.
    pub fn user_stream(&self) -> (r: Result<BybitUserStream, AccountError>)
        ensures
            match r {
                Ok(stream) => {
                    &&& self.config().api_key == Some(stream.api_key)
                    &&& self.config().api_secret == Some(stream.api_secret)
                    &&& stream.url@ == (if self.config().testnet {
                        BYBIT_WS_PRIVATE_TESTNET@
                    } else {
                        BYBIT_WS_PRIVATE@
                    })
                },
                Err(AccountError::Other(m)) => !self.config().has_credentials() && m@ == (if self.config().api_key is None {
                    "missing api_key for Bybit private WS"@
                } else {
                    "missing api_secret for Bybit private WS"@
                }),
                Err(_) => false,
            },
    {
        let api_key = match &self.config.api_key {
            Some(key) => key.clone(),
            None => return Err(AccountError::Other("missing api_key for Bybit private WS".to_owned())),
        };
        let api_secret = match &self.config.api_secret {
            Some(secret) => secret.clone(),
            None => return Err(AccountError::Other("missing api_secret for Bybit private WS".to_owned())),
        };
        let url = if self.config.testnet {
            BYBIT_WS_PRIVATE_TESTNET.to_owned()
        } else {
            BYBIT_WS_PRIVATE.to_owned()
        };
        Ok(BybitUserStream { url, api_key, api_secret })
    }
}

/// The client order identifiers of Bybit's codec.
impl ClientOrderIds for BybitClient {
    open spec fn encoded(&self, internal_id: Seq<char>, strategy_id: Seq<char>) -> Option<Seq<char>> {
        codec::client_id(internal_id)
    }

    open spec fn decoded_strategy(&self, client_order_id: Seq<char>) -> Option<Seq<char>> {
        codec::own_strategy(client_order_id)
    }

    fn encode_client_order_id(&self, internal_id: &str, strategy_id: &str) -> (r: Option<String>) {
        encode_id(internal_id)
    }

    fn decode_strategy_id(&self, client_order_id: &str) -> (r: Option<String>) {
        decode_own_strategy(client_order_id)
    }
}

} // verus!
