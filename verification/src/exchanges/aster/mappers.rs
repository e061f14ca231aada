use vstd::prelude::*;

use crate::decimal;
use crate::decimal::Decimal;
use crate::exchanges::aster::types::{
    AsterDepthLevel, AsterFundingRateHistory, AsterFuturesOrderTradeUpdate, AsterFuturesPositionRisk,
    AsterFuturesWsPosition, AsterOrderResponse, AsterPartialDepth, AsterPremiumIndex,
};
use crate::exchanges::codec;
use crate::exchanges::codec::decode_strategy_or_none;
use crate::exchanges::common;
use crate::exchanges::common::{
    make_signed_patch, make_signed_position, read_nonzero, read_nonzero_opt, read_upper_event_status,
    read_upper_reply_status, read_upper_side, to_signed, OrderFacts, Overflow, PointFacts, RateFacts,
};
use crate::kinds::{Exchange, FundingInterval, InstrumentType, OrderType, Pairs};
use crate::manager::position::WsPositionPatch;
use crate::orders::{Order, OrderEvent, OrderRequest, Position};
use crate::text;
use crate::text::{number, signed_number};
use crate::time;
use crate::time::UtcTime;
use crate::types;
use crate::types::{
    FundingRatePoint, FundingRateSeries, FundingRateSnapshot, InstrumentKey, OrderBookSnapshot, PriceLevel,
};

verus! {

/// An open position, or `None` where it is of size zero or cannot be read.
pub fn aster_position_risk_to_position(risk: &AsterFuturesPositionRisk, key: InstrumentKey) -> (r: Option<Position>)
    ensures
        common::position_is(
            r,
            common::signed_position(
                key,
                risk.position_amt@,
                risk.entry_price@,
                risk.un_realized_profit@,
                risk.liquidation_price@,
            ),
        ),
{
    make_signed_position(
        key,
        risk.position_amt.as_str(),
        risk.entry_price.as_str(),
        risk.un_realized_profit.as_str(),
        risk.liquidation_price.as_str(),
    )
}

/// The time so many milliseconds after the start of 1970, if the calendar reaches that far.
pub fn ms_to_datetime(ms: u64) -> (r: Option<UtcTime>)
    ensures
        match r {
            Some(t) => common::time_of(common::signed_millis(ms)) == Some(t@),
            None => common::time_of(common::signed_millis(ms)) is None,
        },
{
    UtcTime::from_millis(to_signed(ms))
}

/// The key of a perpetual future.
pub open spec fn swap_key(pair: Pairs) -> InstrumentKey {
    InstrumentKey { exchange: Exchange::Aster, pair, instrument_type: InstrumentType::Swap }
}

/// The funding rate that a premium index tells. The exchange does not tell an index price with it:
/// the mark price stands for it.
pub open spec fn premium_rate(index: AsterPremiumIndex, pair: Pairs, interval: FundingInterval) -> Option<RateFacts> {
    match (
        common::time_of(common::signed_millis(index.time)),
        common::time_of(common::signed_millis(index.next_funding_time)),
    ) {
        (Some(event_time), Some(next_funding_time)) => Some(
            RateFacts {
                key: swap_key(pair),
                funding_rate: index.last_funding_rate@,
                mark_price: index.mark_price@,
                index_price: index.mark_price@,
                interest_rate: None,
                next_funding_ms: common::signed_millis(index.next_funding_time) as i64,
                next_funding_time,
                event_ms: common::signed_millis(index.time) as i64,
                event_time,
                interval,
            },
        ),
        _ => None,
    }
}

/// A premium index as a funding rate; `None` where a time in it cannot be read.
pub fn premium_index_to_snapshot(index: &AsterPremiumIndex, pair: Pairs, interval: FundingInterval) -> (r: Option<
    FundingRateSnapshot,
>)
    ensures
        match r {
            Some(s) => premium_rate(*index, pair, interval) == Some(s.facts()),
            None => premium_rate(*index, pair, interval) is None,
        },
{
    match (ms_to_datetime(index.time), ms_to_datetime(index.next_funding_time)) {
        (Some(event_time_utc), Some(next_funding_time_utc)) => Some(
            FundingRateSnapshot {
                key: InstrumentKey { exchange: Exchange::Aster, pair, instrument_type: InstrumentType::Swap },
                funding_rate: index.last_funding_rate,
                mark_price: index.mark_price,
                index_price: index.mark_price,
                interest_rate: None,
                next_funding_time_utc,
                next_funding_time_ms: to_signed(index.next_funding_time),
                event_time_utc,
                event_time_ms: to_signed(index.time),
                interval,
            },
        ),
        _ => None,
    }
}

/// The points of a history whose time can be read, in order.
pub open spec fn history_points(history: Seq<AsterFundingRateHistory>) -> Seq<PointFacts>
    decreases history.len(),
{
    if history.len() == 0 {
        Seq::empty()
    } else {
        let front = history_points(history.drop_last());
        let ms = common::signed_millis(history.last().funding_time);
        match common::time_of(ms) {
            Some(event_time) => front.push(
                PointFacts { funding_rate: history.last().funding_rate@, event_ms: ms as i64, event_time },
            ),
            None => front,
        }
    }
}

/// A history of funding rates. Entries whose time cannot be read are left out.
pub fn funding_history_to_series(history: &[AsterFundingRateHistory], pair: Pairs, interval: FundingInterval) -> (r:
    FundingRateSeries)
    ensures
        r.key == swap_key(pair),
        r.interval == interval,
        common::point_views(r.points@) == history_points(history@),
{
    let mut points: Vec<FundingRatePoint> = Vec::new();
    assert(common::point_views(points@) =~= history_points(history@.take(0)));
    for i in 0..history.len()
        invariant
            common::point_views(points@) == history_points(history@.take(i as int)),
    {
        assert(history@.take(i + 1).drop_last() =~= history@.take(i as int));
        if let Some(event_time_utc) = ms_to_datetime(history[i].funding_time) {
            let p = FundingRatePoint {
                funding_rate: history[i].funding_rate,
                event_time_utc,
                event_time_ms: to_signed(history[i].funding_time),
            };
            let ghost before = points@;
            points.push(p);
            assert(common::point_views(points@) =~= common::point_views(before).push(p.facts()));
        }
    }
    assert(history@.take(history@.len() as int) =~= history@);
    FundingRateSeries {
        key: InstrumentKey { exchange: Exchange::Aster, pair, instrument_type: InstrumentType::Swap },
        interval,
        points,
    }
}

/// Levels as the library keeps them.
pub open spec fn levels_of(raw: Seq<AsterDepthLevel>) -> Seq<PriceLevel> {
    raw.map_values(|l: AsterDepthLevel| PriceLevel { price: l.0, quantity: l.1 })
}

fn make_levels(raw: &Vec<AsterDepthLevel>) -> (r: Vec<PriceLevel>)
    ensures
        r@ == levels_of(raw@),
{
    let mut out: Vec<PriceLevel> = Vec::new();
    assert(out@ =~= levels_of(raw@.take(0)));
    for i in 0..raw.len()
        invariant
            out@ == levels_of(raw@.take(i as int)),
    {
        let ghost before = out@;
        out.push(PriceLevel { price: raw[i].0, quantity: raw[i].1 });
        assert(out@ =~= levels_of(raw@.take(i + 1)));
    }
    assert(raw@.take(raw@.len() as int) =~= raw@);
    out
}

/// When a depth message was made: as it says, else when it came in.
pub open spec fn depth_time(depth: AsterPartialDepth, timestamp_ms: i64) -> int {
    match depth.message_time {
        Some(ms) => common::signed_millis(ms),
        None => timestamp_ms as int,
    }
}

/// Whether mid-price and spread of a depth message have a value.
pub open spec fn depth_computes(depth: AsterPartialDepth) -> bool {
    types::book_computes(levels_of(depth.bids@), levels_of(depth.asks@))
}

/// Whether a result is the book of a depth message that came in at a time, with `None` where its
/// own time cannot be read.
pub open spec fn is_depth_book(
    r: Option<OrderBookSnapshot>,
    depth: AsterPartialDepth,
    key: InstrumentKey,
    timestamp_ms: i64,
) -> bool {
    &&& r is Some <==> time::millis_in_calendar(depth_time(depth, timestamp_ms))
    &&& r matches Some(book) ==> book.timestamp_utc@ == depth_time(depth, timestamp_ms) * 1_000_000 && book.is_book(
        key,
        levels_of(depth.bids@),
        levels_of(depth.asks@),
        book.timestamp_utc,
        timestamp_ms,
    )
}

/// A depth message as an order book; `None` where its time cannot be read.
pub fn partial_depth_to_order_book(depth: &AsterPartialDepth, key: InstrumentKey, timestamp_ms: i64) -> (r: Option<
    OrderBookSnapshot,
>)
    requires
        time::millis_in_calendar(depth_time(*depth, timestamp_ms)) ==> depth_computes(*depth),
    ensures
        is_depth_book(r, *depth, key, timestamp_ms),
{
    match checked_partial_depth_to_order_book(depth, key, timestamp_ms) {
        Ok(book) => book,
        Err(_) => None,
    }
}

/// As [`partial_depth_to_order_book`], with an error where mid-price or spread overflow.
pub fn checked_partial_depth_to_order_book(depth: &AsterPartialDepth, key: InstrumentKey, timestamp_ms: i64) -> (r:
    Result<Option<OrderBookSnapshot>, Overflow>)
    ensures
        match r {
            Ok(book) => is_depth_book(book, *depth, key, timestamp_ms),
            Err(_) => time::millis_in_calendar(depth_time(*depth, timestamp_ms)) && !depth_computes(*depth),
        },
{
    let ms = match depth.message_time {
        Some(ms) => to_signed(ms),
        None => timestamp_ms,
    };
    match UtcTime::from_millis(ms) {
        Some(timestamp_utc) => match OrderBookSnapshot::checked_new(
            key,
            make_levels(&depth.bids),
            make_levels(&depth.asks),
            timestamp_utc,
            timestamp_ms,
        ) {
            Some(book) => Ok(Some(book)),
            None => Err(Overflow),
        },
        None => Ok(None),
    }
}

/// Whether the kind of an order says that it must not take what is on offer.
pub open spec fn says_post_only(s: Seq<char>) -> bool {
    s == "LIMIT_MAKER"@ || s == "POST_ONLY"@
}

fn is_post_only(s: &str) -> (r: bool)
    ensures
        r == says_post_only(s@),
{
    s.eq("LIMIT_MAKER") || s.eq("POST_ONLY")
}

/// The kind of order that a streamed execution names.
pub open spec fn event_type(s: Seq<char>) -> Option<OrderType> {
    if s == "MARKET"@ {
        Some(OrderType::Market)
    } else if s == "LIMIT"@ || says_post_only(s) {
        Some(OrderType::Limit)
    } else {
        None
    }
}

fn read_event_type(s: &str) -> (r: Option<OrderType>)
    ensures
        r == event_type(s@),
{
    if s.eq("MARKET") {
        Some(OrderType::Market)
    } else if s.eq("LIMIT") || is_post_only(s) {
        Some(OrderType::Limit)
    } else {
        None
    }
}

/// The kind of order that the reply to an order request names; one that is not known counts as a
/// market order.
pub open spec fn reply_type(s: Seq<char>) -> OrderType {
    match event_type(s) {
        Some(t) => t,
        None => OrderType::Market,
    }
}

/// When the order of a reply was last changed: as the reply says, else when it was made.
pub open spec fn reply_updated(response: AsterOrderResponse) -> Option<int> {
    match (response.update_time, response.time) {
        (Some(ms), _) => common::time_of(ms as int),
        (None, Some(ms)) => common::time_of(ms as int),
        (None, None) => None,
    }
}

/// When the order of a reply was made: as the reply says, else when it was last changed.
pub open spec fn reply_created(response: AsterOrderResponse, updated_at: int) -> int {
    match response.time {
        Some(ms) => match common::time_of(ms as int) {
            Some(t) => t,
            None => updated_at,
        },
        None => updated_at,
    }
}

/// The order of a reply to an order request, where it can be read.
pub open spec fn replied_order(
    response: AsterOrderResponse,
    key: InstrumentKey,
    strategy_id: Seq<char>,
    internal_id: Seq<char>,
) -> Option<OrderFacts> {
    match (
        reply_updated(response),
        common::upper_side(response.side@),
        common::upper_reply_status(response.status@),
        decimal::parsed(response.orig_qty@),
        decimal::parsed(response.executed_qty@),
    ) {
        (Some(updated_at), Some(side), Some(status), Some(size), Some(filled_size)) => Some(
            OrderFacts {
                internal_id,
                strategy_id,
                client_order_id: response.client_order_id@,
                exchange_order_id: Some(text::signed_digits(response.order_id as int)),
                key,
                request_strategy: strategy_id,
                side,
                order_type: reply_type(response.order_type@),
                price: common::nonzero(decimal::parsed(response.price@)),
                size,
                post_only: says_post_only(response.order_type@),
                reduce_only: false,
                status,
                filled_size,
                avg_fill_price: common::nonzero(common::read_opt(common::opt_view(response.avg_price))),
                created_at: reply_created(response, updated_at),
                updated_at,
            },
        ),
        _ => None,
    }
}

/// The order of a reply to an order request, or `None` where it cannot be read.
pub fn aster_order_response_to_order(
    response: &AsterOrderResponse,
    key: InstrumentKey,
    strategy_id: &str,
    internal_id: &str,
) -> (r: Option<Order>)
    ensures
        common::order_is(r, replied_order(*response, key, strategy_id@, internal_id@)),
{
    let updated = match (response.update_time, response.time) {
        (Some(ms), _) => UtcTime::from_millis(ms),
        (None, Some(ms)) => UtcTime::from_millis(ms),
        (None, None) => None,
    };
    match (
        updated,
        read_upper_side(response.side.as_str()),
        read_upper_reply_status(response.status.as_str()),
        Decimal::from_str(response.orig_qty.as_str()),
        Decimal::from_str(response.executed_qty.as_str()),
    ) {
        (Some(updated_at), Some(side), Some(status), Some(size), Some(filled_size)) => {
            let created_at = match response.time {
                Some(ms) => match UtcTime::from_millis(ms) {
                    Some(t) => t,
                    None => updated_at,
                },
                None => updated_at,
            };
            let order_type = match read_event_type(response.order_type.as_str()) {
                Some(t) => t,
                None => OrderType::Market,
            };
            Some(
                Order {
                    internal_id: internal_id.to_owned(),
                    strategy_id: strategy_id.to_owned(),
                    client_order_id: response.client_order_id.clone(),
                    exchange_order_id: Some(signed_number(response.order_id)),
                    request: OrderRequest {
                        key,
                        strategy_id: strategy_id.to_owned(),
                        side,
                        order_type,
                        price: read_nonzero(response.price.as_str()),
                        size,
                        post_only: is_post_only(response.order_type.as_str()),
                        reduce_only: false,
                    },
                    status,
                    filled_size,
                    avg_fill_price: read_nonzero_opt(&response.avg_price),
                    created_at,
                    updated_at,
                },
            )
        },
        _ => None,
    }
}

/// The order that a streamed execution is about, where it can be read. The client order identifier
/// tells whose strategy it is.
pub open spec fn executed_order(report: AsterFuturesOrderTradeUpdate, key: InstrumentKey) -> Option<OrderFacts> {
    match (
        common::upper_side(report.side@),
        event_type(report.order_type@),
        common::upper_event_status(report.order_status@),
        decimal::parsed(report.original_quantity@),
        decimal::parsed(report.order_filled_accumulated_quantity@),
        common::time_of(report.order_trade_time as int),
    ) {
        (Some(side), Some(order_type), Some(status), Some(size), Some(filled_size), Some(traded_at)) => Some(
            OrderFacts {
                internal_id: report.client_order_id@,
                strategy_id: codec::strategy_or_none(report.client_order_id@),
                client_order_id: report.client_order_id@,
                exchange_order_id: Some(text::digits(report.order_id as nat)),
                key,
                request_strategy: codec::strategy_or_none(report.client_order_id@),
                side,
                order_type,
                price: common::nonzero(decimal::parsed(report.original_price@)),
                size,
                post_only: says_post_only(report.order_type@),
                reduce_only: false,
                status,
                filled_size,
                avg_fill_price: common::nonzero(decimal::parsed(report.average_price@)),
                created_at: traded_at,
                updated_at: traded_at,
            },
        ),
        _ => None,
    }
}

/// A streamed execution as an event, or `None` where it cannot be read.
pub fn aster_execution_to_order_event(report: &AsterFuturesOrderTradeUpdate, key: InstrumentKey) -> (r: Option<OrderEvent>)
    ensures
        common::event_is(r, executed_order(*report, key)),
{
    match (
        read_upper_side(report.side.as_str()),
        read_event_type(report.order_type.as_str()),
        read_upper_event_status(report.order_status.as_str()),
        Decimal::from_str(report.original_quantity.as_str()),
        Decimal::from_str(report.order_filled_accumulated_quantity.as_str()),
        UtcTime::from_millis(report.order_trade_time),
    ) {
        (Some(side), Some(order_type), Some(status), Some(size), Some(filled_size), Some(traded_at)) => {
            let strategy_id = decode_strategy_or_none(report.client_order_id.as_str());
            let order = Order {
                internal_id: report.client_order_id.clone(),
                strategy_id: strategy_id.clone(),
                client_order_id: report.client_order_id.clone(),
                exchange_order_id: Some(number(report.order_id)),
                request: OrderRequest {
                    key,
                    strategy_id,
                    side,
                    order_type,
                    price: read_nonzero(report.original_price.as_str()),
                    size,
                    post_only: is_post_only(report.order_type.as_str()),
                    reduce_only: false,
                },
                status,
                filled_size,
                avg_fill_price: read_nonzero(report.average_price.as_str()),
                created_at: traded_at,
                updated_at: traded_at,
            };
            proof {
                crate::orders::event_keeps_order(order);
            }
            Some(OrderEvent::from(order))
        },
        _ => None,
    }
}

/// A streamed change of a position, or `None` where its numbers cannot be read. Size zero is a
/// change like any other: it tells that the position is closed.
pub fn ws_position_to_patch(ws_pos: &AsterFuturesWsPosition, key: InstrumentKey) -> (r: Option<WsPositionPatch>)
    ensures
        common::patch_is(
            r,
            common::signed_patch(key, ws_pos.position_amt@, ws_pos.entry_price@, ws_pos.unrealized_profit@),
        ),
{
    make_signed_patch(
        key,
        ws_pos.position_amt.as_str(),
        ws_pos.entry_price.as_str(),
        ws_pos.unrealized_profit.as_str(),
    )
}

} // verus!
