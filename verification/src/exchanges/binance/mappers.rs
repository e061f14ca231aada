use vstd::prelude::*;

use crate::decimal;
use crate::decimal::{Dec, Decimal};
use crate::exchanges::binance::types::{
    BinanceFundingRateHistory, BinanceFuturesBalance, BinanceFuturesOrderTradeUpdate, BinanceFuturesPositionRisk,
    BinanceFuturesWsPosition, BinanceOrderResponse, BinancePartialDepth, BinancePremiumIndex, BinanceSpotBalance,
    BinanceSpotExecutionReport, BinanceWsDepthEvent,
};
use crate::exchanges::common;
use crate::exchanges::common::{
    make_book, make_point, make_signed_patch, make_signed_position, ms_to_datetime, raise_to_zero, read_nonzero,
    read_nonzero_opt, read_upper_event_status, read_upper_reply_status, read_upper_side, BalanceFacts, KindFacts,
    OrderFacts, Overflow, PartFacts, PointFacts, RateFacts,
};
use crate::kinds::{Currency, Exchange, FundingInterval, InstrumentType, OrderType, Pairs};
use crate::manager::position::WsPositionPatch;
use crate::manager::types::{
    AccountModel, AccountPartitionRef, AccountSnapshot, BalanceView, CollateralScope, PartitionKind,
};
use crate::orders::{Order, OrderEvent, OrderRequest, Position};
use crate::text;
use crate::text::signed_number;
use crate::time;
use crate::time::UtcTime;
use crate::types::{
    FundingRatePoint, FundingRateSeries, FundingRateSnapshot, InstrumentKey, OrderBookSnapshot,
};

verus! {

/// The key of a perpetual future.
pub open spec fn swap_key(pair: Pairs) -> InstrumentKey {
    InstrumentKey { exchange: Exchange::Binance, pair, instrument_type: InstrumentType::Swap }
}

/// The funding rate that a premium index tells.
pub open spec fn premium_rate(index: BinancePremiumIndex, pair: Pairs, interval: FundingInterval) -> Option<RateFacts> {
    match (
        decimal::parsed(index.last_funding_rate@),
        decimal::parsed(index.mark_price@),
        decimal::parsed(index.index_price@),
        common::time_of(index.next_funding_time as int),
        common::time_of(index.time as int),
    ) {
        (Some(funding_rate), Some(mark_price), Some(index_price), Some(next_funding_time), Some(event_time)) => Some(
            RateFacts {
                key: swap_key(pair),
                funding_rate,
                mark_price,
                index_price,
                interest_rate: common::read_opt(common::opt_view(index.interest_rate)),
                next_funding_ms: index.next_funding_time,
                next_funding_time,
                event_ms: index.time,
                event_time,
                interval,
            },
        ),
        _ => None,
    }
}

/// A premium index as a funding rate; `None` where a number or a time in it cannot be read.
pub fn premium_index_to_snapshot(index: &BinancePremiumIndex, pair: Pairs, interval: FundingInterval) -> (r: Option<
    FundingRateSnapshot,
>)
    ensures
        match r {
            Some(s) => premium_rate(*index, pair, interval) == Some(s.facts()),
            None => premium_rate(*index, pair, interval) is None,
        },
{
    let interest_rate = match &index.interest_rate {
        Some(rate) => Decimal::from_str(rate.as_str()),
        None => None,
    };
    match (
        Decimal::from_str(index.last_funding_rate.as_str()),
        Decimal::from_str(index.mark_price.as_str()),
        Decimal::from_str(index.index_price.as_str()),
        ms_to_datetime(index.next_funding_time),
        ms_to_datetime(index.time),
    ) {
        (Some(funding_rate), Some(mark_price), Some(index_price), Some(next_funding_time_utc), Some(event_time_utc)) => Some(
            FundingRateSnapshot {
                key: InstrumentKey { exchange: Exchange::Binance, pair, instrument_type: InstrumentType::Swap },
                funding_rate,
                mark_price,
                index_price,
                interest_rate,
                next_funding_time_utc,
                next_funding_time_ms: index.next_funding_time,
                event_time_utc,
                event_time_ms: index.time,
                interval,
            },
        ),
        _ => None,
    }
}

/// The points of a history that can be read, in order.
pub open spec fn history_points(history: Seq<BinanceFundingRateHistory>) -> Seq<PointFacts>
    decreases history.len(),
{
    if history.len() == 0 {
        Seq::empty()
    } else {
        let front = history_points(history.drop_last());
        match common::point_of(history.last().funding_rate@, history.last().funding_time as int) {
            Some(p) => front.push(p),
            None => front,
        }
    }
}

/// A history of funding rates. Entries that cannot be read are left out.
pub fn funding_history_to_series(
    history: &[BinanceFundingRateHistory],
    pair: Pairs,
    interval: FundingInterval,
) -> (r: FundingRateSeries)
    ensures
        r.key == swap_key(pair),
        r.interval == interval,
        common::point_views(r.points@) == history_points(history@),
{
    let mut points: Vec<FundingRatePoint> = Vec::new();
    assert(common::point_views(points@) =~= history_points(history@.take(0)));
    for i in 0..history.len()
        invariant
            common::point_views(points@) == history_points(history@.take(i as int)),
    {
        assert(history@.take(i + 1).drop_last() =~= history@.take(i as int));
        if let Some(p) = make_point(history[i].funding_rate.as_str(), history[i].funding_time) {
            let ghost before = points@;
            points.push(p);
            assert(common::point_views(points@) =~= common::point_views(before).push(p.facts()));
        }
    }
    assert(history@.take(history@.len() as int) =~= history@);
    FundingRateSeries {
        key: InstrumentKey { exchange: Exchange::Binance, pair, instrument_type: InstrumentType::Swap },
        interval,
        points,
    }
}

/// The part of an account that trades spot.
pub open spec fn spot_part() -> PartFacts {
    PartFacts { exchange: Exchange::Binance, kind: KindFacts::Spot, account_id: Some("spot"@) }
}

/// The part of an account that trades futures.
pub open spec fn futures_part() -> PartFacts {
    PartFacts { exchange: Exchange::Binance, kind: KindFacts::Swap, account_id: Some("futures"@) }
}

pub fn binance_spot_partition() -> (r: AccountPartitionRef)
    ensures
        r.facts() == spot_part(),
{
    AccountPartitionRef { exchange: Exchange::Binance, kind: PartitionKind::Spot, account_id: Some("spot".to_owned()) }
}

pub fn binance_futures_partition() -> (r: AccountPartitionRef)
    ensures
        r.facts() == futures_part(),
{
    AccountPartitionRef {
        exchange: Exchange::Binance,
        kind: PartitionKind::Swap,
        account_id: Some("futures".to_owned()),
    }
}

/// What a spot balance comes to: nothing where it cannot be read, else the balance, whose total
/// is what is free and what is locked together.
pub open spec fn spot_balance(balance: BinanceSpotBalance, as_of: int) -> Result<Option<BalanceFacts>, Overflow> {
    match (Currency::named(balance.asset@), decimal::parsed(balance.free@), decimal::parsed(balance.locked@)) {
        (Some(asset), Some(free), Some(locked)) => match free.sum(locked) {
            Some(total) => Ok(
                Some(
                    BalanceFacts {
                        exchange: Exchange::Binance,
                        partition: Some(spot_part()),
                        asset,
                        total,
                        free,
                        locked,
                        borrowed: Dec::zero(),
                        unrealized_pnl: Dec::zero(),
                        scope: CollateralScope::PartitionOnly,
                        as_of,
                    },
                ),
            ),
            None => Err(Overflow),
        },
        _ => Ok(None),
    }
}

/// What a futures balance comes to: nothing where it cannot be read, else the balance, of which
/// what is not free is locked.
pub open spec fn futures_balance(balance: BinanceFuturesBalance, as_of: int) -> Result<Option<BalanceFacts>, Overflow> {
    match (Currency::named(balance.asset@), decimal::parsed(balance.balance@), decimal::parsed(balance.available_balance@)) {
        (Some(asset), Some(total), Some(free)) => match total.difference(free) {
            Some(rest) => match decimal::parsed(balance.cross_un_pnl@) {
                Some(unrealized_pnl) => Ok(
                    Some(
                        BalanceFacts {
                            exchange: Exchange::Binance,
                            partition: Some(futures_part()),
                            asset,
                            total,
                            free,
                            locked: common::at_least_zero(rest),
                            borrowed: Dec::zero(),
                            unrealized_pnl,
                            scope: CollateralScope::PartitionOnly,
                            as_of,
                        },
                    ),
                ),
                None => Ok(None),
            },
            None => Err(Overflow),
        },
        _ => Ok(None),
    }
}

/// A spot balance as the library keeps it, or `None` where it cannot be read.
pub fn spot_balance_to_view(balance: &BinanceSpotBalance, as_of_utc: UtcTime) -> (r: Option<BalanceView>)
    requires
        spot_balance(*balance, as_of_utc@) is Ok,
    ensures
        common::balance_is(Ok(r), spot_balance(*balance, as_of_utc@)),
{
    match checked_spot_balance_to_view(balance, as_of_utc) {
        Ok(view) => view,
        Err(_) => None,
    }
}

/// As [`spot_balance_to_view`], with an error where the total overflows.
pub fn checked_spot_balance_to_view(balance: &BinanceSpotBalance, as_of_utc: UtcTime) -> (r: Result<
    Option<BalanceView>,
    Overflow,
>)
    ensures
        common::balance_is(r, spot_balance(*balance, as_of_utc@)),
{
    match (
        Currency::from_str(balance.asset.as_str()),
        Decimal::from_str(balance.free.as_str()),
        Decimal::from_str(balance.locked.as_str()),
    ) {
        (Some(asset), Some(free), Some(locked)) => match free.checked_add(locked) {
            Some(total) => Ok(
                Some(
                    BalanceView {
                        exchange: Exchange::Binance,
                        partition: Some(binance_spot_partition()),
                        asset,
                        total,
                        free,
                        locked,
                        borrowed: Decimal::zero(),
                        unrealized_pnl: Decimal::zero(),
                        collateral_scope: CollateralScope::PartitionOnly,
                        as_of_utc,
                    },
                ),
            ),
            None => Err(Overflow),
        },
        _ => Ok(None),
    }
}

/// A futures balance as the library keeps it, or `None` where it cannot be read.
pub fn futures_balance_to_view(balance: &BinanceFuturesBalance, as_of_utc: UtcTime) -> (r: Option<BalanceView>)
    requires
        futures_balance(*balance, as_of_utc@) is Ok,
    ensures
        common::balance_is(Ok(r), futures_balance(*balance, as_of_utc@)),
{
    match checked_futures_balance_to_view(balance, as_of_utc) {
        Ok(view) => view,
        Err(_) => None,
    }
}

/// As [`futures_balance_to_view`], with an error where what is locked overflows.
pub fn checked_futures_balance_to_view(balance: &BinanceFuturesBalance, as_of_utc: UtcTime) -> (r: Result<
    Option<BalanceView>,
    Overflow,
>)
    ensures
        common::balance_is(r, futures_balance(*balance, as_of_utc@)),
{
    match (
        Currency::from_str(balance.asset.as_str()),
        Decimal::from_str(balance.balance.as_str()),
        Decimal::from_str(balance.available_balance.as_str()),
    ) {
        (Some(asset), Some(total), Some(free)) => match total.checked_sub(free) {
            Some(rest) => match Decimal::from_str(balance.cross_un_pnl.as_str()) {
                Some(unrealized_pnl) => Ok(
                    Some(
                        BalanceView {
                            exchange: Exchange::Binance,
                            partition: Some(binance_futures_partition()),
                            asset,
                            total,
                            free,
                            locked: raise_to_zero(rest),
                            borrowed: Decimal::zero(),
                            unrealized_pnl,
                            collateral_scope: CollateralScope::PartitionOnly,
                            as_of_utc,
                        },
                    ),
                ),
                None => Ok(None),
            },
            None => Err(Overflow),
        },
        _ => Ok(None),
    }
}

/// The spot balances that can be read, in order; an error where one of them overflows.
pub open spec fn spot_balances(list: Seq<BinanceSpotBalance>, as_of: int) -> Result<Seq<BalanceFacts>, Overflow>
    decreases list.len(),
{
    if list.len() == 0 {
        Ok(Seq::empty())
    } else {
        common::with_balance(spot_balances(list.drop_last(), as_of), spot_balance(list.last(), as_of))
    }
}

/// The futures balances that can be read, in order; an error where one of them overflows.
pub open spec fn futures_balances(list: Seq<BinanceFuturesBalance>, as_of: int) -> Result<Seq<BalanceFacts>, Overflow>
    decreases list.len(),
{
    if list.len() == 0 {
        Ok(Seq::empty())
    } else {
        common::with_balance(futures_balances(list.drop_last(), as_of), futures_balance(list.last(), as_of))
    }
}

proof fn spot_overflow_stays(list: Seq<BinanceSpotBalance>, i: int, as_of: int)
    requires
        0 <= i <= list.len(),
        spot_balances(list.take(i), as_of) is Err,
    ensures
        spot_balances(list, as_of) is Err,
    decreases list.len() - i,
{
    if i < list.len() {
        assert(list.take(i + 1).drop_last() =~= list.take(i));
        spot_overflow_stays(list, i + 1, as_of);
    } else {
        assert(list.take(i) =~= list);
    }
}

proof fn futures_overflow_stays(list: Seq<BinanceFuturesBalance>, i: int, as_of: int)
    requires
        0 <= i <= list.len(),
        futures_balances(list.take(i), as_of) is Err,
    ensures
        futures_balances(list, as_of) is Err,
    decreases list.len() - i,
{
    if i < list.len() {
        assert(list.take(i + 1).drop_last() =~= list.take(i));
        futures_overflow_stays(list, i + 1, as_of);
    } else {
        assert(list.take(i) =~= list);
    }
}

/// Whether no balance of an account overflows.
pub open spec fn account_computes(spot: Seq<BinanceSpotBalance>, futures: Seq<BinanceFuturesBalance>, as_of: int) -> bool {
    spot_balances(spot, as_of) is Ok && futures_balances(futures, as_of) is Ok
}

/// Whether a snapshot is that of an account: the parts that are asked for, and the balances that
/// can be read, those of spot first.
pub open spec fn is_account(
    snapshot: AccountSnapshot,
    include_spot: bool,
    include_futures: bool,
    spot: Seq<BinanceSpotBalance>,
    futures: Seq<BinanceFuturesBalance>,
    as_of: UtcTime,
) -> bool {
    &&& snapshot.exchange == Exchange::Binance
    &&& snapshot.model == AccountModel::Segmented
    &&& snapshot.as_of_utc == as_of
    &&& common::part_views(snapshot.partitions@) == (if include_spot {
        seq![spot_part()]
    } else {
        seq![]
    }) + (if include_futures {
        seq![futures_part()]
    } else {
        seq![]
    })
    &&& common::balance_views(snapshot.balances@) == spot_balances(spot, as_of@)->Ok_0 + futures_balances(
        futures,
        as_of@,
    )->Ok_0
}

/// The account that consists of a spot part and a futures part. Balances that cannot be read are
/// left out.
pub fn build_segmented_account_snapshot(
    include_spot: bool,
    include_futures: bool,
    spot_balances: &[BinanceSpotBalance],
    futures_balances: &[BinanceFuturesBalance],
    as_of_utc: UtcTime,
) -> (r: AccountSnapshot)
    requires
        account_computes(spot_balances@, futures_balances@, as_of_utc@),
    ensures
        is_account(r, include_spot, include_futures, spot_balances@, futures_balances@, as_of_utc),
{
    checked_segmented_account_snapshot(
        include_spot,
        include_futures,
        spot_balances,
        futures_balances,
        as_of_utc,
    ).unwrap()
}

/// As [`build_segmented_account_snapshot`], with `None` where a balance overflows.
pub fn checked_segmented_account_snapshot(
    include_spot: bool,
    include_futures: bool,
    spot_list: &[BinanceSpotBalance],
    futures_list: &[BinanceFuturesBalance],
    as_of_utc: UtcTime,
) -> (r: Option<AccountSnapshot>)
    ensures
        r is Some <==> account_computes(spot_list@, futures_list@, as_of_utc@),
        r matches Some(s) ==> is_account(s, include_spot, include_futures, spot_list@, futures_list@, as_of_utc),
{
    let mut partitions: Vec<AccountPartitionRef> = Vec::new();
    if include_spot {
        partitions.push(binance_spot_partition());
    }
    if include_futures {
        partitions.push(binance_futures_partition());
    }
    assert(common::part_views(partitions@) =~= (if include_spot {
        seq![spot_part()]
    } else {
        seq![]
    }) + (if include_futures {
        seq![futures_part()]
    } else {
        seq![]
    }));
    let mut balances: Vec<BalanceView> = Vec::new();
    assert(common::balance_views(balances@) =~= Seq::<BalanceFacts>::empty());
    for i in 0..spot_list.len()
        invariant
            spot_balances(spot_list@.take(i as int), as_of_utc@) == Ok::<Seq<BalanceFacts>, Overflow>(
                common::balance_views(balances@),
            ),
    {
        assert(spot_list@.take(i + 1).drop_last() =~= spot_list@.take(i as int));
        match checked_spot_balance_to_view(&spot_list[i], as_of_utc) {
            Ok(Some(view)) => {
                let ghost before = balances@;
                let ghost facts = view.facts();
                balances.push(view);
                assert(common::balance_views(balances@) =~= common::balance_views(before).push(facts));
            },
            Ok(None) => {},
            Err(_) => {
                proof {
                    spot_overflow_stays(spot_list@, i + 1, as_of_utc@);
                }
                return None;
            },
        }
    }
    assert(spot_list@.take(spot_list@.len() as int) =~= spot_list@);
    let ghost spot = common::balance_views(balances@);
    assert(spot + Seq::<BalanceFacts>::empty() =~= spot);
    for i in 0..futures_list.len()
        invariant
            futures_balances(futures_list@.take(i as int), as_of_utc@) is Ok,
            common::balance_views(balances@) == spot + futures_balances(
                futures_list@.take(i as int),
                as_of_utc@,
            )->Ok_0,
    {
        assert(futures_list@.take(i + 1).drop_last() =~= futures_list@.take(i as int));
        match checked_futures_balance_to_view(&futures_list[i], as_of_utc) {
            Ok(Some(view)) => {
                let ghost before = balances@;
                let ghost facts = view.facts();
                balances.push(view);
                assert(common::balance_views(balances@) =~= common::balance_views(before).push(facts));
            },
            Ok(None) => {},
            Err(_) => {
                proof {
                    futures_overflow_stays(futures_list@, i + 1, as_of_utc@);
                }
                return None;
            },
        }
    }
    assert(futures_list@.take(futures_list@.len() as int) =~= futures_list@);
    Some(AccountSnapshot { exchange: Exchange::Binance, model: AccountModel::Segmented, partitions, balances, as_of_utc })
}

/// A spot balance that is read adds up: its total is the sum of what is free and what is locked.
pub proof fn spot_balance_adds_up(balance: BinanceSpotBalance, as_of: int)
    requires
        spot_balance(balance, as_of) matches Ok(Some(_)),
    ensures
        spot_balance(balance, as_of) matches Ok(Some(b)) && b.free.sum(b.locked) == Some(b.total),
{
}

/// What is locked of a futures balance is never below zero.
pub proof fn futures_lock_is_no_debt(balance: BinanceFuturesBalance, as_of: int)
    requires
        futures_balance(balance, as_of) matches Ok(Some(_)),
    ensures
        futures_balance(balance, as_of) matches Ok(Some(b)) && Dec::zero().le(b.locked),
{
}

/// A depth response as an order book; `None` where a level or the time cannot be read.
pub fn partial_depth_to_order_book(depth: &BinancePartialDepth, key: InstrumentKey, timestamp_ms: i64) -> (r: Option<
    OrderBookSnapshot,
>)
    requires
        time::millis_in_calendar(timestamp_ms as int) ==> common::raw_book_computes(depth.bids@, depth.asks@),
    ensures
        common::is_read_book(r, key, depth.bids@, depth.asks@, timestamp_ms),
{
    match checked_partial_depth_to_order_book(depth, key, timestamp_ms) {
        Ok(book) => book,
        Err(_) => None,
    }
}

/// As [`partial_depth_to_order_book`], with an error where mid-price or spread overflow.
pub fn checked_partial_depth_to_order_book(depth: &BinancePartialDepth, key: InstrumentKey, timestamp_ms: i64) -> (r:
    Result<Option<OrderBookSnapshot>, Overflow>)
    ensures
        match r {
            Ok(book) => common::is_read_book(book, key, depth.bids@, depth.asks@, timestamp_ms),
            Err(_) => time::millis_in_calendar(timestamp_ms as int) && !common::raw_book_computes(
                depth.bids@,
                depth.asks@,
            ),
        },
{
    match ms_to_datetime(timestamp_ms) {
        Some(timestamp_utc) => make_book(key, &depth.bids, &depth.asks, timestamp_utc, timestamp_ms),
        None => Ok(None),
    }
}

/// The time of a depth event: that of the transaction, else that of the event, else none.
pub open spec fn depth_time(event: BinanceWsDepthEvent) -> Option<i64> {
    if event.transaction_time_ms != 0 {
        Some(event.transaction_time_ms)
    } else if event.event_time_ms != 0 {
        Some(event.event_time_ms)
    } else {
        None
    }
}

/// Whether a depth event has no time of its own or one that can be read.
pub open spec fn depth_time_reads(event: BinanceWsDepthEvent) -> bool {
    depth_time(event) matches Some(ms) ==> time::millis_in_calendar(ms as int)
}

/// Whether a result is the book of a depth event that came in at a time: the event's own time
/// counts where it has one.
pub open spec fn is_depth_book(
    r: Option<OrderBookSnapshot>,
    event: BinanceWsDepthEvent,
    key: InstrumentKey,
    now: UtcTime,
) -> bool {
    match depth_time(event) {
        Some(ms) => common::is_read_book(r, key, event.bids@, event.asks@, ms),
        None => {
            &&& r is Some <==> common::levels_of(event.bids@) is Some && common::levels_of(event.asks@) is Some
            &&& r matches Some(book) ==> common::is_raw_book(book, key, event.bids@, event.asks@, (now@ / 1_000_000) as i64)
                && book.timestamp_utc == now
        },
    }
}

/// A depth event as an order book; `None` where a level or the time cannot be read.
pub fn ws_depth_event_to_order_book(event: &BinanceWsDepthEvent, key: InstrumentKey) -> (r: Option<OrderBookSnapshot>)
    requires
        depth_time_reads(*event) ==> common::raw_book_computes(event.bids@, event.asks@),
    ensures
        exists|now: UtcTime| #[trigger] is_depth_book(r, *event, key, now) && now@ >= 0 && time::in_calendar(now@),
{
    let now = UtcTime::now();
    let r = match checked_ws_depth_event_to_order_book(event, key, now) {
        Ok(book) => book,
        Err(_) => None,
    };
    assert(is_depth_book(r, *event, key, now));
    r
}

/// As [`ws_depth_event_to_order_book`], at a given time and with an error where mid-price or
/// spread overflow.
pub fn checked_ws_depth_event_to_order_book(event: &BinanceWsDepthEvent, key: InstrumentKey, now: UtcTime) -> (r: Result<
    Option<OrderBookSnapshot>,
    Overflow,
>)
    ensures
        match r {
            Ok(book) => is_depth_book(book, *event, key, now),
            Err(_) => depth_time_reads(*event) && !common::raw_book_computes(event.bids@, event.asks@),
        },
{
    let timestamp_ms = if event.transaction_time_ms != 0 {
        event.transaction_time_ms
    } else if event.event_time_ms != 0 {
        event.event_time_ms
    } else {
        return make_book(key, &event.bids, &event.asks, now, now.timestamp_millis());
    };
    match ms_to_datetime(timestamp_ms) {
        Some(timestamp_utc) => make_book(key, &event.bids, &event.asks, timestamp_utc, timestamp_ms),
        None => Ok(None),
    }
}

/// The kind of order that a streamed execution names.
pub open spec fn event_type(s: Seq<char>) -> Option<OrderType> {
    if s == "MARKET"@ {
        Some(OrderType::Market)
    } else if s == "LIMIT"@ {
        Some(OrderType::Limit)
    } else {
        None
    }
}

fn read_event_type(s: &str) -> (r: Option<OrderType>)
    ensures
        r == event_type(s@),
{
    if s.eq("MARKET") {
        Some(OrderType::Market)
    } else if s.eq("LIMIT") {
        Some(OrderType::Limit)
    } else {
        None
    }
}

/// The kind of order that the reply to an order request names; one that is not known counts as a
/// market order.
pub open spec fn reply_type(s: Seq<char>) -> OrderType {
    if s == "LIMIT"@ {
        OrderType::Limit
    } else if s == "LIMIT_MAKER"@ || s == "POST_ONLY"@ {
        OrderType::PostOnly
    } else {
        OrderType::Market
    }
}

fn read_reply_type(s: &str) -> (r: OrderType)
    ensures
        r == reply_type(s@),
{
    if s.eq("LIMIT") {
        OrderType::Limit
    } else if s.eq("LIMIT_MAKER") || s.eq("POST_ONLY") {
        OrderType::PostOnly
    } else {
        OrderType::Market
    }
}

/// What a streamed execution says in writing.
pub struct Execution {
    pub client_order_id: Seq<char>,
    pub side: Seq<char>,
    pub order_type: Seq<char>,
    pub status: Seq<char>,
    pub quantity: Seq<char>,
    pub price: Seq<char>,
    pub filled: Seq<char>,
    pub average: Seq<char>,
    pub created_ms: int,
    pub updated_ms: int,
}

impl BinanceSpotExecutionReport {
    pub open spec fn said(self) -> Execution {
        Execution {
            client_order_id: self.client_order_id@,
            side: self.side@,
            order_type: self.order_type@,
            status: self.order_status@,
            quantity: self.order_quantity@,
            price: self.order_price@,
            filled: self.cumulative_filled_quantity@,
            average: self.last_executed_price@,
            created_ms: self.order_creation_time as int,
            updated_ms: self.transaction_time as int,
        }
    }
}

impl BinanceFuturesOrderTradeUpdate {
    pub open spec fn said(self) -> Execution {
        Execution {
            client_order_id: self.client_order_id@,
            side: self.side@,
            order_type: self.order_type@,
            status: self.order_status@,
            quantity: self.original_quantity@,
            price: self.original_price@,
            filled: self.order_filled_accumulated_quantity@,
            average: self.average_price@,
            created_ms: self.order_trade_time as int,
            updated_ms: self.order_trade_time as int,
        }
    }
}

/// The order that a streamed execution is about, where it can be read. The exchange knows the
/// order by the client's number only, and not whose strategy it is.
pub open spec fn executed_order(said: Execution, key: InstrumentKey) -> Option<OrderFacts> {
    match (
        common::upper_side(said.side),
        event_type(said.order_type),
        common::upper_event_status(said.status),
        decimal::parsed(said.quantity),
        decimal::parsed(said.filled),
        common::time_of(said.created_ms),
        common::time_of(said.updated_ms),
    ) {
        (
            Some(side),
            Some(order_type),
            Some(status),
            Some(size),
            Some(filled_size),
            Some(created_at),
            Some(updated_at),
        ) => Some(
            OrderFacts {
                internal_id: said.client_order_id,
                strategy_id: ""@,
                client_order_id: said.client_order_id,
                exchange_order_id: Some(said.client_order_id),
                key,
                request_strategy: ""@,
                side,
                order_type,
                price: common::nonzero(decimal::parsed(said.price)),
                size,
                post_only: false,
                reduce_only: false,
                status,
                filled_size,
                avg_fill_price: common::nonzero(decimal::parsed(said.average)),
                created_at,
                updated_at,
            },
        ),
        _ => None,
    }
}

/// A spot execution as an event, or `None` where it cannot be read.
pub fn spot_execution_to_order_event(report: &BinanceSpotExecutionReport, key: InstrumentKey) -> (r: Option<OrderEvent>)
    ensures
        common::event_is(r, executed_order(report.said(), key)),
{
    match (
        read_upper_side(report.side.as_str()),
        read_event_type(report.order_type.as_str()),
        read_upper_event_status(report.order_status.as_str()),
        Decimal::from_str(report.order_quantity.as_str()),
        Decimal::from_str(report.cumulative_filled_quantity.as_str()),
        ms_to_datetime(report.order_creation_time),
        ms_to_datetime(report.transaction_time),
    ) {
        (
            Some(side),
            Some(order_type),
            Some(status),
            Some(size),
            Some(filled_size),
            Some(created_at),
            Some(updated_at),
        ) => {
            let order = Order {
                internal_id: report.client_order_id.clone(),
                strategy_id: "".to_owned(),
                client_order_id: report.client_order_id.clone(),
                exchange_order_id: Some(report.client_order_id.clone()),
                request: OrderRequest {
                    key,
                    strategy_id: "".to_owned(),
                    side,
                    order_type,
                    price: read_nonzero(report.order_price.as_str()),
                    size,
                    post_only: false,
                    reduce_only: false,
                },
                status,
                filled_size,
                avg_fill_price: read_nonzero(report.last_executed_price.as_str()),
                created_at,
                updated_at,
            };
            proof {
                crate::orders::event_keeps_order(order);
            }
            Some(OrderEvent::from(order))
        },
        _ => None,
    }
}

/// A futures execution as an event, or `None` where it cannot be read.
pub fn futures_execution_to_order_event(report: &BinanceFuturesOrderTradeUpdate, key: InstrumentKey) -> (r: Option<
    OrderEvent,
>)
    ensures
        common::event_is(r, executed_order(report.said(), key)),
{
    match (
        read_upper_side(report.side.as_str()),
        read_event_type(report.order_type.as_str()),
        read_upper_event_status(report.order_status.as_str()),
        Decimal::from_str(report.original_quantity.as_str()),
        Decimal::from_str(report.order_filled_accumulated_quantity.as_str()),
        ms_to_datetime(report.order_trade_time),
    ) {
        (Some(side), Some(order_type), Some(status), Some(size), Some(filled_size), Some(traded_at)) => {
            let order = Order {
                internal_id: report.client_order_id.clone(),
                strategy_id: "".to_owned(),
                client_order_id: report.client_order_id.clone(),
                exchange_order_id: Some(report.client_order_id.clone()),
                request: OrderRequest {
                    key,
                    strategy_id: "".to_owned(),
                    side,
                    order_type,
                    price: read_nonzero(report.original_price.as_str()),
                    size,
                    post_only: false,
                    reduce_only: false,
                },
                status,
                filled_size,
                avg_fill_price: read_nonzero(report.average_price.as_str()),
                created_at: traded_at,
                updated_at: traded_at,
            };
            proof {
                crate::orders::event_keeps_order(order);
            }
            Some(OrderEvent::from(order))
        },
        _ => None,
    }
}

/// The average price of what was filled: as the reply gives it, else what was paid in all
/// divided by what was filled.
pub open spec fn reply_average(response: BinanceOrderResponse, filled: Dec) -> Result<Option<Dec>, Overflow> {
    match common::nonzero(common::read_opt(common::opt_view(response.avg_price))) {
        Some(price) => Ok(Some(price)),
        None => match common::nonzero(common::read_opt(common::opt_view(response.cummulative_quote_qty))) {
            Some(paid) => if filled.is_zero() {
                Ok(None)
            } else {
                match paid.quotient(filled) {
                    Some(price) => Ok(Some(price)),
                    None => Err(Overflow),
                }
            },
            None => Ok(None),
        },
    }
}

/// When the order of a reply was made: as the reply says, else when it was last changed.
pub open spec fn reply_created(response: BinanceOrderResponse, updated_at: int) -> int {
    match response.time {
        Some(ms) => match common::time_of(ms as int) {
            Some(t) => t,
            None => updated_at,
        },
        None => updated_at,
    }
}

/// The order of a reply to an order request, where it can be read; an error where the average
/// price overflows.
pub open spec fn replied_order(
    response: BinanceOrderResponse,
    key: InstrumentKey,
    strategy_id: Seq<char>,
    internal_id: Seq<char>,
) -> Result<Option<OrderFacts>, Overflow> {
    match (
        common::time_of(response.update_time as int),
        common::upper_side(response.side@),
        common::upper_reply_status(response.status@),
        decimal::parsed(response.orig_qty@),
        decimal::parsed(response.executed_qty@),
    ) {
        (Some(updated_at), Some(side), Some(status), Some(size), Some(filled_size)) => match reply_average(
            response,
            filled_size,
        ) {
            Ok(avg_fill_price) => Ok(
                Some(
                    OrderFacts {
                        internal_id,
                        strategy_id,
                        client_order_id: response.client_order_id@,
                        exchange_order_id: Some(text::signed_digits(response.order_id as int)),
                        key,
                        request_strategy: strategy_id,
                        side,
                        order_type: reply_type(response.order_type@),
                        price: common::nonzero(decimal::parsed(response.price@)),
                        size,
                        post_only: false,
                        reduce_only: false,
                        status,
                        filled_size,
                        avg_fill_price,
                        created_at: reply_created(response, updated_at),
                        updated_at,
                    },
                ),
            ),
            Err(e) => Err(e),
        },
        _ => Ok(None),
    }
}

/// The order of a reply to an order request, or `None` where it cannot be read.
pub fn binance_order_response_to_order(
    response: &BinanceOrderResponse,
    key: InstrumentKey,
    strategy_id: &str,
    internal_id: &str,
) -> (r: Option<Order>)
    requires
        replied_order(*response, key, strategy_id@, internal_id@) is Ok,
    ensures
        common::order_is(r, replied_order(*response, key, strategy_id@, internal_id@)->Ok_0),
{
    match checked_order_response_to_order(response, key, strategy_id, internal_id) {
        Ok(order) => order,
        Err(_) => None,
    }
}

/// As [`binance_order_response_to_order`], with an error where the average price overflows.
pub fn checked_order_response_to_order(
    response: &BinanceOrderResponse,
    key: InstrumentKey,
    strategy_id: &str,
    internal_id: &str,
) -> (r: Result<Option<Order>, Overflow>)
    ensures
        match r {
            Ok(order) => replied_order(*response, key, strategy_id@, internal_id@) is Ok && common::order_is(
                order,
                replied_order(*response, key, strategy_id@, internal_id@)->Ok_0,
            ),
            Err(_) => replied_order(*response, key, strategy_id@, internal_id@) is Err,
        },
{
    match (
        ms_to_datetime(response.update_time),
        read_upper_side(response.side.as_str()),
        read_upper_reply_status(response.status.as_str()),
        Decimal::from_str(response.orig_qty.as_str()),
        Decimal::from_str(response.executed_qty.as_str()),
    ) {
        (Some(updated_at), Some(side), Some(status), Some(size), Some(filled_size)) => {
            let avg_fill_price = match read_nonzero_opt(&response.avg_price) {
                Some(price) => Some(price),
                None => if filled_size.is_zero() {
                    None
                } else {
                    match read_nonzero_opt(&response.cummulative_quote_qty) {
                        Some(paid) => match paid.checked_div(filled_size) {
                            Some(price) => Some(price),
                            None => return Err(Overflow),
                        },
                        None => None,
                    }
                },
            };
            let created_at = match response.time {
                Some(ms) => match ms_to_datetime(ms) {
                    Some(t) => t,
                    None => updated_at,
                },
                None => updated_at,
            };
            Ok(
                Some(
                    Order {
                        internal_id: internal_id.to_owned(),
                        strategy_id: strategy_id.to_owned(),
                        client_order_id: response.client_order_id.clone(),
                        exchange_order_id: Some(signed_number(response.order_id)),
                        request: OrderRequest {
                            key,
                            strategy_id: strategy_id.to_owned(),
                            side,
                            order_type: read_reply_type(response.order_type.as_str()),
                            price: read_nonzero(response.price.as_str()),
                            size,
                            post_only: false,
                            reduce_only: false,
                        },
                        status,
                        filled_size,
                        avg_fill_price,
                        created_at,
                        updated_at,
                    },
                ),
            )
        },
        _ => Ok(None),
    }
}

/// An open futures position, or `None` where it is of size zero or cannot be read.
pub fn binance_position_risk_to_position(risk: &BinanceFuturesPositionRisk, key: InstrumentKey) -> (r: Option<Position>)
    ensures
        common::position_is(
            r,
            common::signed_position(
                key,
                risk.position_amt@,
                risk.entry_price@,
                risk.un_realized_profit@,
                risk.liquidation_price@,
            ),
        ),
{
    make_signed_position(
        key,
        risk.position_amt.as_str(),
        risk.entry_price.as_str(),
        risk.un_realized_profit.as_str(),
        risk.liquidation_price.as_str(),
    )
}

/// A streamed change of a position, or `None` where its numbers cannot be read. Size zero is a
/// change like any other: it tells that the position is closed.
pub fn ws_position_to_patch(ws_pos: &BinanceFuturesWsPosition, key: InstrumentKey) -> (r: Option<WsPositionPatch>)
    ensures
        common::patch_is(
            r,
            common::signed_patch(key, ws_pos.position_amt@, ws_pos.entry_price@, ws_pos.unrealized_profit@),
        ),
{
    make_signed_patch(
        key,
        ws_pos.position_amt.as_str(),
        ws_pos.entry_price.as_str(),
        ws_pos.unrealized_profit.as_str(),
    )
}

} // verus!
