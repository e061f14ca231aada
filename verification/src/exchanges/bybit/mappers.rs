use vstd::prelude::*;

use crate::decimal;
use crate::decimal::{Dec, Decimal};
use crate::exchanges::bybit::types::{
    BybitFundingRateEntry, BybitLinearTicker, BybitOrderBookResult, BybitOrderEntry, BybitPositionEntry,
    BybitWsOrderUpdate, BybitWsPositionUpdate,
};
use crate::exchanges::codec;
use crate::exchanges::codec::decode_strategy_or_none;
use crate::exchanges::common;
use crate::exchanges::common::{
    raw_level_to_price_level, read_nonzero, read_or_zero, to_signed, OrderFacts, Overflow, PatchFacts, PointFacts,
    PositionFacts, RateFacts,
};
use crate::kinds::{FundingInterval, OrderSide, OrderStatus, OrderType};
use crate::manager::position::WsPositionPatch;
use crate::orders::{Order, OrderEvent, OrderRequest, Position};
use crate::text;
use crate::text::parse_unsigned;
use crate::time;
use crate::time::UtcTime;
use crate::types;
use crate::types::{
    FundingRatePoint, FundingRateSeries, FundingRateSnapshot, InstrumentKey, OrderBookSnapshot, PriceLevel,
};

verus! {

/// The time so many milliseconds after the start of 1970, if the calendar reaches that far.
pub fn ms_to_datetime(ms: u64) -> (r: Option<UtcTime>)
    ensures
        match r {
            Some(t) => common::time_of(common::signed_millis(ms)) == Some(t@),
            None => common::time_of(common::signed_millis(ms)) is None,
        },
{
    UtcTime::from_millis(to_signed(ms))
}

/// The time that a text tells in milliseconds.
pub open spec fn written_time(s: Seq<char>) -> Option<int> {
    match text::unsigned(s) {
        Some(ms) => common::time_of(common::signed_millis(ms)),
        None => None,
    }
}

fn read_time(s: &str) -> (r: Option<UtcTime>)
    ensures
        match r {
            Some(t) => written_time(s@) == Some(t@),
            None => written_time(s@) is None,
        },
{
    match parse_unsigned(s) {
        Some(ms) => ms_to_datetime(ms),
        None => None,
    }
}

/// The funding rate that a ticker tells at a time. The exchange does not tell the time.
pub open spec fn ticker_rate(ticker: BybitLinearTicker, key: InstrumentKey, interval: FundingInterval, now: int) -> Option<
    RateFacts,
> {
    match (
        decimal::parsed(ticker.funding_rate@),
        decimal::parsed(ticker.mark_price@),
        decimal::parsed(ticker.index_price@),
        written_time(ticker.next_funding_time@),
    ) {
        (Some(funding_rate), Some(mark_price), Some(index_price), Some(next_funding_time)) => Some(
            RateFacts {
                key,
                funding_rate,
                mark_price,
                index_price,
                interest_rate: None,
                next_funding_ms: common::signed_millis(text::unsigned(ticker.next_funding_time@)->0) as i64,
                next_funding_time,
                event_ms: (now / 1_000_000) as i64,
                event_time: now,
                interval,
            },
        ),
        _ => None,
    }
}

/// A ticker as a funding rate at a time; `None` where a number or the time in it cannot be read.
pub fn ticker_to_funding_snapshot_at(
    ticker: &BybitLinearTicker,
    key: InstrumentKey,
    interval: FundingInterval,
    now: UtcTime,
) -> (r: Option<FundingRateSnapshot>)
    ensures
        match r {
            Some(s) => ticker_rate(*ticker, key, interval, now@) == Some(s.facts()),
            None => ticker_rate(*ticker, key, interval, now@) is None,
        },
{
    match (
        Decimal::from_str(ticker.funding_rate.as_str()),
        Decimal::from_str(ticker.mark_price.as_str()),
        Decimal::from_str(ticker.index_price.as_str()),
        parse_unsigned(ticker.next_funding_time.as_str()),
    ) {
        (Some(funding_rate), Some(mark_price), Some(index_price), Some(ms)) => match ms_to_datetime(ms) {
            Some(next_funding_time_utc) => Some(
                FundingRateSnapshot {
                    key,
                    funding_rate,
                    mark_price,
                    index_price,
                    interest_rate: None,
                    next_funding_time_utc,
                    next_funding_time_ms: to_signed(ms),
                    event_time_utc: now,
                    event_time_ms: now.timestamp_millis(),
                    interval,
                },
            ),
            None => None,
        },
        _ => None,
    }
}

/// A ticker as a funding rate at the time that the clock shows.
pub fn ticker_to_funding_snapshot(ticker: &BybitLinearTicker, key: InstrumentKey, interval: FundingInterval) -> (r: Option<
    FundingRateSnapshot,
>)
    ensures
        match r {
            Some(s) => ticker_rate(*ticker, key, interval, s.event_time_utc@) == Some(s.facts()) && s.event_time_utc@
                >= 0,
            None => ticker_rate(*ticker, key, interval, 0) is None,
        },
{
    ticker_to_funding_snapshot_at(ticker, key, interval, UtcTime::now())
}

/// The points of a history that can be read, in order.
pub open spec fn history_points(entries: Seq<BybitFundingRateEntry>) -> Seq<PointFacts>
    decreases entries.len(),
{
    if entries.len() == 0 {
        Seq::empty()
    } else {
        let front = history_points(entries.drop_last());
        let last = entries.last();
        match (decimal::parsed(last.funding_rate@), written_time(last.funding_rate_timestamp@)) {
            (Some(funding_rate), Some(event_time)) => front.push(
                PointFacts {
                    funding_rate,
                    event_ms: common::signed_millis(text::unsigned(last.funding_rate_timestamp@)->0) as i64,
                    event_time,
                },
            ),
            _ => front,
        }
    }
}

/// A history of funding rates. Entries that cannot be read are left out.
pub fn funding_history_to_series(entries: &[BybitFundingRateEntry], key: InstrumentKey, interval: FundingInterval) -> (r:
    FundingRateSeries)
    ensures
        r.key == key,
        r.interval == interval,
        common::point_views(r.points@) == history_points(entries@),
{
    let mut points: Vec<FundingRatePoint> = Vec::new();
    assert(common::point_views(points@) =~= history_points(entries@.take(0)));
    for i in 0..entries.len()
        invariant
            common::point_views(points@) == history_points(entries@.take(i as int)),
    {
        assert(entries@.take(i + 1).drop_last() =~= entries@.take(i as int));
        if let (Some(funding_rate), Some(ms)) = (
            Decimal::from_str(entries[i].funding_rate.as_str()),
            parse_unsigned(entries[i].funding_rate_timestamp.as_str()),
        ) {
            if let Some(event_time_utc) = ms_to_datetime(ms) {
                let p = FundingRatePoint { funding_rate, event_time_utc, event_time_ms: to_signed(ms) };
                let ghost before = points@;
                points.push(p);
                assert(common::point_views(points@) =~= common::point_views(before).push(p.facts()));
            }
        }
    }
    assert(entries@.take(entries@.len() as int) =~= entries@);
    FundingRateSeries { key, interval, points }
}

/// The levels that can be read, in order.
pub open spec fn good_levels(raw: Seq<[String; 2]>) -> Seq<(Dec, Dec)>
    decreases raw.len(),
{
    if raw.len() == 0 {
        Seq::empty()
    } else {
        let front = good_levels(raw.drop_last());
        match common::level_of(raw.last()[0]@, raw.last()[1]@) {
            Some(level) => front.push(level),
            None => front,
        }
    }
}

fn read_good_levels(raw: &Vec<[String; 2]>) -> (r: Vec<PriceLevel>)
    ensures
        common::level_views(r@) == good_levels(raw@),
{
    let mut levels: Vec<PriceLevel> = Vec::new();
    assert(common::level_views(levels@) =~= Seq::<(Dec, Dec)>::empty());
    for i in 0..raw.len()
        invariant
            common::level_views(levels@) == good_levels(raw@.take(i as int)),
    {
        assert(raw@.take(i + 1).drop_last() =~= raw@.take(i as int));
        if let Some(level) = raw_level_to_price_level(&raw[i]) {
            let ghost before = levels@;
            levels.push(level);
            assert(common::level_views(levels@) =~= common::level_views(before).push((level.price@, level.quantity@)));
        }
    }
    assert(raw@.take(raw@.len() as int) =~= raw@);
    levels
}

/// The time of an order book: as it says, else a given one.
pub open spec fn book_time(ob: BybitOrderBookResult, now_ms: i64) -> int {
    match ob.ts {
        Some(ms) => common::signed_millis(ms),
        None => now_ms as int,
    }
}

/// Whether mid-price and spread of an order book have a value.
pub open spec fn book_computes(ob: BybitOrderBookResult) -> bool {
    match (common::first_price(Some(good_levels(ob.b@))), common::first_price(Some(good_levels(ob.a@)))) {
        (Some(bid), Some(ask)) => types::mid_price(bid, ask) is Some && ask.difference(bid) is Some,
        _ => true,
    }
}

/// Whether a result is an order book at a time, with `None` where the time is beyond the calendar.
/// Levels that cannot be read are left out.
pub open spec fn is_good_book(
    r: Option<OrderBookSnapshot>,
    ob: BybitOrderBookResult,
    key: InstrumentKey,
    now_ms: i64,
) -> bool {
    &&& r is Some <==> time::millis_in_calendar(book_time(ob, now_ms))
    &&& r matches Some(book) ==> {
        &&& common::level_views(book.bids@) == good_levels(ob.b@)
        &&& common::level_views(book.asks@) == good_levels(ob.a@)
        &&& book.timestamp_utc@ == book_time(ob, now_ms) * 1_000_000
        &&& book.is_book(key, book.bids@, book.asks@, book.timestamp_utc, book_time(ob, now_ms) as i64)
    }
}

/// An order book at the time that it tells, else at the time that the clock shows.
pub fn order_book_to_snapshot(ob: &BybitOrderBookResult, key: InstrumentKey) -> (r: Option<OrderBookSnapshot>)
    requires
        (ob.ts matches Some(ms) ==> time::millis_in_calendar(common::signed_millis(ms))) ==> book_computes(*ob),
    ensures
        exists|now_ms: i64| #[trigger] is_good_book(r, *ob, key, now_ms) && time::millis_in_calendar(now_ms as int),
{
    let now_ms: i64 = UtcTime::now().timestamp_millis();
    let r = match checked_order_book_to_snapshot(ob, key, now_ms) {
        Ok(book) => book,
        Err(_) => None,
    };
    assert(is_good_book(r, *ob, key, now_ms));
    r
}

/// As [`order_book_to_snapshot`], at a given time and with an error where mid-price or spread
/// overflow.
pub fn checked_order_book_to_snapshot(ob: &BybitOrderBookResult, key: InstrumentKey, now_ms: i64) -> (r: Result<
    Option<OrderBookSnapshot>,
    Overflow,
>)
    ensures
        match r {
            Ok(book) => is_good_book(book, *ob, key, now_ms),
            Err(_) => time::millis_in_calendar(book_time(*ob, now_ms)) && !book_computes(*ob),
        },
{
    let timestamp_ms = match ob.ts {
        Some(ms) => to_signed(ms),
        None => now_ms,
    };
    match UtcTime::from_millis(timestamp_ms) {
        Some(timestamp_utc) => {
            let bids = read_good_levels(&ob.b);
            let asks = read_good_levels(&ob.a);
            assert(common::first_price(Some(good_levels(ob.b@))) == types::top_price(bids@));
            assert(common::first_price(Some(good_levels(ob.a@))) == types::top_price(asks@));
            match OrderBookSnapshot::checked_new(key, bids, asks, timestamp_utc, timestamp_ms) {
                Some(book) => Ok(Some(book)),
                None => Err(Overflow),
            }
        },
        None => Ok(None),
    }
}

/// The size of a position with its sign: what is sold counts below zero. `None` where the side is
/// not known.
pub open spec fn with_sign(size: Dec, side: Seq<char>) -> Option<Dec> {
    if side == "Buy"@ {
        Some(size)
    } else if side == "Sell"@ {
        Some(size.neg())
    } else {
        None
    }
}

fn give_sign(size: Decimal, side: &str) -> (r: Option<Decimal>)
    ensures
        decimal::view_opt(r) == with_sign(size@, side@),
{
    if side.eq("Buy") {
        Some(size)
    } else if side.eq("Sell") {
        Some(size.neg())
    } else {
        None
    }
}

/// A position as the exchange lists it: not one of size zero, and not one whose side is not known.
/// The leverage is one where it cannot be read.
pub open spec fn listed_position(entry: BybitPositionEntry, key: InstrumentKey) -> Option<PositionFacts> {
    match (
        common::nonzero(decimal::parsed(entry.size@)),
        decimal::parsed(entry.avg_price@),
        decimal::parsed(entry.unrealised_pnl@),
    ) {
        (Some(raw_size), Some(entry_price), Some(unrealized_pnl)) => match with_sign(raw_size, entry.side@) {
            Some(size) => Some(
                PositionFacts {
                    key,
                    size,
                    entry_price,
                    unrealized_pnl,
                    leverage: match decimal::parsed(entry.leverage@) {
                        Some(l) => l,
                        None => Dec::one(),
                    },
                    liquidation_price: common::nonzero(decimal::parsed(entry.liq_price@)),
                },
            ),
            None => None,
        },
        _ => None,
    }
}

/// An open position, or `None` where it is of size zero or cannot be read.
pub fn bybit_position_to_position(entry: &BybitPositionEntry, key: InstrumentKey) -> (r: Option<Position>)
    ensures
        common::position_is(r, listed_position(*entry, key)),
{
    match (
        read_nonzero(entry.size.as_str()),
        Decimal::from_str(entry.avg_price.as_str()),
        Decimal::from_str(entry.unrealised_pnl.as_str()),
    ) {
        (Some(raw_size), Some(entry_price), Some(unrealized_pnl)) => match give_sign(raw_size, entry.side.as_str()) {
            Some(size) => Some(
                Position {
                    key,
                    size,
                    entry_price,
                    unrealized_pnl,
                    leverage: match Decimal::from_str(entry.leverage.as_str()) {
                        Some(l) => l,
                        None => Decimal::one(),
                    },
                    liquidation_price: read_nonzero(entry.liq_price.as_str()),
                },
            ),
            None => None,
        },
        _ => None,
    }
}

/// A position that was sold has the opposite size of one that was bought, and is the same
/// otherwise.
pub proof fn short_mirrors_long(long: BybitPositionEntry, short: BybitPositionEntry, key: InstrumentKey)
    requires
        long.side@ == "Buy"@,
        short.side@ == "Sell"@,
        short.size@ == long.size@,
        short.avg_price@ == long.avg_price@,
        short.unrealised_pnl@ == long.unrealised_pnl@,
        short.leverage@ == long.leverage@,
        short.liq_price@ == long.liq_price@,
    ensures
        match (listed_position(long, key), listed_position(short, key)) {
            (Some(l), Some(s)) => s == (PositionFacts { size: l.size.neg(), ..l }),
            (None, None) => true,
            _ => false,
        },
{
    reveal_strlit("Buy");
    reveal_strlit("Sell");
    assert("Buy"@.len() != "Sell"@.len());
}

/// The side that the exchange names.
pub open spec fn named_side(s: Seq<char>) -> Option<OrderSide> {
    if s == "Buy"@ {
        Some(OrderSide::Buy)
    } else if s == "Sell"@ {
        Some(OrderSide::Sell)
    } else {
        None
    }
}

fn read_side(s: &str) -> (r: Option<OrderSide>)
    ensures
        r == named_side(s@),
{
    if s.eq("Buy") {
        Some(OrderSide::Buy)
    } else if s.eq("Sell") {
        Some(OrderSide::Sell)
    } else {
        None
    }
}

/// The kind of order that the exchange names; one that is not known counts as a market order.
pub open spec fn named_type(s: Seq<char>) -> OrderType {
    if s == "Limit"@ {
        OrderType::Limit
    } else {
        OrderType::Market
    }
}

fn read_type(s: &str) -> (r: OrderType)
    ensures
        r == named_type(s@),
{
    if s.eq("Limit") {
        OrderType::Limit
    } else {
        OrderType::Market
    }
}

/// The state that the exchange names.
pub open spec fn named_status(s: Seq<char>) -> Option<OrderStatus> {
    if s == "New"@ || s == "Untriggered"@ {
        Some(OrderStatus::New)
    } else if s == "PartiallyFilled"@ {
        Some(OrderStatus::PartiallyFilled)
    } else if s == "Filled"@ {
        Some(OrderStatus::Filled)
    } else if s == "Cancelled"@ || s == "Deactivated"@ || s == "Expired"@ {
        Some(OrderStatus::Canceled)
    } else if s == "Rejected"@ {
        Some(OrderStatus::Rejected)
    } else {
        None
    }
}

fn read_status(s: &str) -> (r: Option<OrderStatus>)
    ensures
        r == named_status(s@),
{
    if s.eq("New") || s.eq("Untriggered") {
        Some(OrderStatus::New)
    } else if s.eq("PartiallyFilled") {
        Some(OrderStatus::PartiallyFilled)
    } else if s.eq("Filled") {
        Some(OrderStatus::Filled)
    } else if s.eq("Cancelled") || s.eq("Deactivated") || s.eq("Expired") {
        Some(OrderStatus::Canceled)
    } else if s.eq("Rejected") {
        Some(OrderStatus::Rejected)
    } else {
        None
    }
}

/// What an order says in writing.
pub struct Said {
    pub order_id: Seq<char>,
    pub order_link_id: Seq<char>,
    pub side: Seq<char>,
    pub order_type: Seq<char>,
    pub status: Seq<char>,
    pub price: Seq<char>,
    pub qty: Seq<char>,
    pub avg_price: Seq<char>,
    pub reduce_only: bool,
    pub created_time: Seq<char>,
    pub updated_time: Seq<char>,
}

impl BybitOrderEntry {
    pub open spec fn said(self) -> Said {
        Said {
            order_id: self.order_id@,
            order_link_id: self.order_link_id@,
            side: self.side@,
            order_type: self.order_type@,
            status: self.order_status@,
            price: self.price@,
            qty: self.qty@,
            avg_price: self.avg_price@,
            reduce_only: self.reduce_only,
            created_time: self.created_time@,
            updated_time: self.updated_time@,
        }
    }
}

impl BybitWsOrderUpdate {
    pub open spec fn said(self) -> Said {
        Said {
            order_id: self.order_id@,
            order_link_id: self.order_link_id@,
            side: self.side@,
            order_type: self.order_type@,
            status: self.order_status@,
            price: self.price@,
            qty: self.qty@,
            avg_price: self.avg_price@,
            reduce_only: self.reduce_only,
            created_time: self.created_time@,
            updated_time: self.updated_time@,
        }
    }
}

/// When an order was made: as it says, else now.
pub open spec fn created(said: Said, now: int) -> int {
    match written_time(said.created_time) {
        Some(t) => t,
        None => now,
    }
}

/// When an order was last changed: as it says, else when it was made.
pub open spec fn updated(said: Said, now: int) -> int {
    match written_time(said.updated_time) {
        Some(t) => t,
        None => created(said, now),
    }
}

/// The order that the exchange tells of, where it can be read. The client order identifier tells
/// whose strategy it is.
pub open spec fn told_order(said: Said, filled: Option<Dec>, key: InstrumentKey, now: int) -> Option<OrderFacts> {
    match (named_side(said.side), named_status(said.status), decimal::parsed(said.qty), filled) {
        (Some(side), Some(status), Some(size), Some(filled_size)) => Some(
            OrderFacts {
                internal_id: said.order_link_id,
                strategy_id: codec::strategy_or_none(said.order_link_id),
                client_order_id: said.order_link_id,
                exchange_order_id: Some(said.order_id),
                key,
                request_strategy: codec::strategy_or_none(said.order_link_id),
                side,
                order_type: named_type(said.order_type),
                price: common::nonzero(decimal::parsed(said.price)),
                size,
                post_only: false,
                reduce_only: said.reduce_only,
                status,
                filled_size,
                avg_fill_price: common::nonzero(decimal::parsed(said.avg_price)),
                created_at: created(said, now),
                updated_at: updated(said, now),
            },
        ),
        _ => None,
    }
}

/// The order of an entry at a time, or `None` where it cannot be read.
pub fn bybit_order_to_order_at(entry: &BybitOrderEntry, key: InstrumentKey, now: UtcTime) -> (r: Option<Order>)
    ensures
        common::order_is(r, told_order(entry.said(), decimal::parsed(entry.cum_exec_qty@), key, now@)),
{
    match (
        read_side(entry.side.as_str()),
        read_status(entry.order_status.as_str()),
        Decimal::from_str(entry.qty.as_str()),
        Decimal::from_str(entry.cum_exec_qty.as_str()),
    ) {
        (Some(side), Some(status), Some(size), Some(filled_size)) => {
            let strategy_id = decode_strategy_or_none(entry.order_link_id.as_str());
            let created_at = match read_time(entry.created_time.as_str()) {
                Some(t) => t,
                None => now,
            };
            let updated_at = match read_time(entry.updated_time.as_str()) {
                Some(t) => t,
                None => created_at,
            };
            Some(
                Order {
                    internal_id: entry.order_link_id.clone(),
                    strategy_id: strategy_id.clone(),
                    client_order_id: entry.order_link_id.clone(),
                    exchange_order_id: Some(entry.order_id.clone()),
                    request: OrderRequest {
                        key,
                        strategy_id,
                        side,
                        order_type: read_type(entry.order_type.as_str()),
                        price: read_nonzero(entry.price.as_str()),
                        size,
                        post_only: false,
                        reduce_only: entry.reduce_only,
                    },
                    status,
                    filled_size,
                    avg_fill_price: read_nonzero(entry.avg_price.as_str()),
                    created_at,
                    updated_at,
                },
            )
        },
        _ => None,
    }
}

/// The order of an entry, or `None` where it cannot be read. An order that does not say when it was
/// made counts as made at the time that the clock shows.
pub fn bybit_order_to_order(entry: &BybitOrderEntry, key: InstrumentKey) -> (r: Option<Order>)
    ensures
        exists|now: int|
            now >= 0 && common::order_is(
                r,
                #[trigger] told_order(entry.said(), decimal::parsed(entry.cum_exec_qty@), key, now),
            ),
{
    bybit_order_to_order_at(entry, key, UtcTime::now())
}

/// A streamed order at a time as an event, or `None` where it cannot be read. What is filled counts
/// as zero where it cannot be read.
pub fn ws_order_to_order_event_at(update: &BybitWsOrderUpdate, key: InstrumentKey, now: UtcTime) -> (r: Option<OrderEvent>)
    ensures
        common::event_is(
            r,
            told_order(update.said(), Some(common::or_zero(decimal::parsed(update.cum_exec_qty@))), key, now@),
        ),
{
    match (
        read_side(update.side.as_str()),
        read_status(update.order_status.as_str()),
        Decimal::from_str(update.qty.as_str()),
    ) {
        (Some(side), Some(status), Some(size)) => {
            let strategy_id = decode_strategy_or_none(update.order_link_id.as_str());
            let created_at = match read_time(update.created_time.as_str()) {
                Some(t) => t,
                None => now,
            };
            let updated_at = match read_time(update.updated_time.as_str()) {
                Some(t) => t,
                None => created_at,
            };
            let order = Order {
                internal_id: update.order_link_id.clone(),
                strategy_id: strategy_id.clone(),
                client_order_id: update.order_link_id.clone(),
                exchange_order_id: Some(update.order_id.clone()),
                request: OrderRequest {
                    key,
                    strategy_id,
                    side,
                    order_type: read_type(update.order_type.as_str()),
                    price: read_nonzero(update.price.as_str()),
                    size,
                    post_only: false,
                    reduce_only: update.reduce_only,
                },
                status,
                filled_size: read_or_zero(update.cum_exec_qty.as_str()),
                avg_fill_price: read_nonzero(update.avg_price.as_str()),
                created_at,
                updated_at,
            };
            proof {
                crate::orders::event_keeps_order(order);
            }
            Some(OrderEvent::from(order))
        },
        _ => None,
    }
}

/// A streamed order as an event at the time that the clock shows.
pub fn ws_order_to_order_event(update: &BybitWsOrderUpdate, key: InstrumentKey) -> (r: Option<OrderEvent>)
    ensures
        exists|now: int|
            now >= 0 && common::event_is(
                r,
                #[trigger] told_order(
                    update.said(),
                    Some(common::or_zero(decimal::parsed(update.cum_exec_qty@))),
                    key,
                    now,
                ),
            ),
{
    ws_order_to_order_event_at(update, key, UtcTime::now())
}

/// A streamed change of a position, unless its size cannot be read. A side that is not known tells
/// that the position is closed.
pub open spec fn told_patch(update: BybitWsPositionUpdate, key: InstrumentKey) -> Option<PatchFacts> {
    match decimal::parsed(update.size@) {
        Some(raw_size) => Some(
            PatchFacts {
                key,
                size: common::or_zero(with_sign(raw_size, update.side@)),
                entry_price: common::or_zero(decimal::parsed(update.entry_price@)),
                unrealized_pnl: common::or_zero(decimal::parsed(update.unrealised_pnl@)),
            },
        ),
        None => None,
    }
}

/// A streamed change of a position, or `None` where its size cannot be read.
pub fn ws_position_to_patch(update: &BybitWsPositionUpdate, key: InstrumentKey) -> (r: Option<WsPositionPatch>)
    ensures
        common::patch_is(r, told_patch(*update, key)),
{
    match Decimal::from_str(update.size.as_str()) {
        Some(raw_size) => {
            let size = match give_sign(raw_size, update.side.as_str()) {
                Some(size) => size,
                None => Decimal::zero(),
            };
            Some(
                WsPositionPatch {
                    key,
                    size,
                    entry_price: read_or_zero(update.entry_price.as_str()),
                    unrealized_pnl: read_or_zero(update.unrealised_pnl.as_str()),
                },
            )
        },
        None => None,
    }
}

} // verus!
