use vstd::prelude::*;

use crate::decimal;
use crate::decimal::Dec;
use crate::decimal_laws;
use crate::exchanges::binance::client;
use crate::exchanges::binance::mappers;
use crate::exchanges::binance::types;
use crate::exchanges::binance::types::{
    BinanceFilter, BinanceFundingInfo, BinanceFundingRateHistory, BinanceFuturesBalance,
    BinanceFuturesOrderTradeUpdate, BinanceFuturesSymbol, BinanceOrderResponse, BinancePremiumIndex,
    BinanceSpotBalance, BinanceSpotExecutionReport, BinanceSpotSymbol, BinanceWsDepthEvent,
};
use crate::exchanges::binance::ws;
use crate::exchanges::common;
use crate::exchanges::reading_laws;
use crate::fill_laws;
use crate::kinds::{
    Currency, Exchange, FundingInterval, InstrumentType, OrderSide, OrderStatus, OrderType, Pairs,
};
use crate::manager::types::{BalanceView, CollateralScope};
use crate::orders::{Order, OrderEvent};
use crate::registry;
use crate::text;
use crate::time;
use crate::time::UtcTime;
use crate::types::{FundingRatePoint, FundingRateSnapshot, Instrument, InstrumentKey, OrderBookSnapshot};

verus! {

/// The words for kinds of orders are not the same.
proof fn kind_words_differ()
    ensures
        "MARKET"@ != "LIMIT"@,
        "LIMIT"@ != "POST_ONLY"@,
        "LIMIT"@ != "LIMIT_MAKER"@,
{
    reveal_strlit("MARKET");
    reveal_strlit("LIMIT");
    reveal_strlit("POST_ONLY");
    reveal_strlit("LIMIT_MAKER");
    assert("MARKET"@.len() == 6 && "LIMIT"@.len() == 5 && "POST_ONLY"@.len() == 9 && "LIMIT_MAKER"@.len() == 11);
}

/// A number that is zero has no units, and every other one has some.
proof fn zero_means_no_units(d: Option<Dec>)
    ensures
        d matches Some(n) ==> (n.is_zero() <==> n.units() == 0),
{
    if let Some(n) = d {
        decimal_laws::units_have_sign(n);
    }
}

/// The order of a reply is the one that the reply tells of, field by field: its size is what was
/// asked for, its filled size is what was executed.
pub proof fn reply_is_told(
    o: Order,
    response: BinanceOrderResponse,
    key: InstrumentKey,
    strategy_id: Seq<char>,
    internal_id: Seq<char>,
)
    requires
        mappers::replied_order(response, key, strategy_id, internal_id) == Ok::<_, common::Overflow>(Some(o.facts())),
    ensures
        decimal::parsed(response.orig_qty@) == Some(o.request.size@),
        decimal::parsed(response.executed_qty@) == Some(o.filled_size@),
        o.request.side == OrderSide::Buy <==> response.side@ == "BUY"@,
        o.request.side == OrderSide::Sell <==> response.side@ == "SELL"@,
        o.request.order_type == OrderType::Limit <==> response.order_type@ == "LIMIT"@,
        o.request.order_type == OrderType::PostOnly <==> response.order_type@ == "LIMIT_MAKER"@ || response.order_type@
            == "POST_ONLY"@,
        o.status == OrderStatus::New <==> response.status@ == "NEW"@ || response.status@ == "PENDING_NEW"@,
        o.status == OrderStatus::PartiallyFilled <==> response.status@ == "PARTIALLY_FILLED"@,
        o.status == OrderStatus::Filled <==> response.status@ == "FILLED"@,
        o.status == OrderStatus::Canceled <==> response.status@ == "CANCELED"@ || response.status@ == "EXPIRED"@
            || response.status@ == "EXPIRED_IN_MATCH"@,
        o.status == OrderStatus::Rejected <==> response.status@ == "REJECTED"@,
        o.request.price matches Some(p) ==> decimal::parsed(response.price@) == Some(p@) && p@.units() != 0,
        o.request.price is None ==> (decimal::parsed(response.price@) matches Some(p) ==> p.units() == 0),
        o.request.key == key,
        !o.request.reduce_only,
        !o.request.post_only,
        o.client_order_id@ == response.client_order_id@,
        o.internal_id@ == internal_id,
        o.strategy_id@ == strategy_id,
        o.request.strategy_id@ == strategy_id,
        o.exchange_order_id matches Some(id) && id@ == text::signed_digits(response.order_id as int),
        o.updated_at@ == response.update_time * 1_000_000,
        response.time matches Some(ms) ==> (time::millis_in_calendar(ms as int) ==> o.created_at@ == ms * 1_000_000),
        response.time matches Some(ms) ==> (!time::millis_in_calendar(ms as int) ==> o.created_at@ == o.updated_at@),
        response.time is None ==> o.created_at@ == o.updated_at@,
{
    reading_laws::capital_side_is_what_it_says(response.side@);
    reading_laws::capital_reply_is_what_it_says(response.status@);
    kind_words_differ();
    zero_means_no_units(decimal::parsed(response.price@));
}

/// Where a reply tells that no more was executed than was asked for, its order has no more filled
/// than its size.
pub proof fn reply_fills_no_more_than_its_size(
    o: Order,
    response: BinanceOrderResponse,
    key: InstrumentKey,
    strategy_id: Seq<char>,
    internal_id: Seq<char>,
)
    requires
        mappers::replied_order(response, key, strategy_id, internal_id) == Ok::<_, common::Overflow>(Some(o.facts())),
        decimal::parsed(response.executed_qty@) matches Some(executed) && (decimal::parsed(response.orig_qty@) matches Some(
            asked,
        ) && executed.units() <= asked.units()),
    ensures
        o.filled_size@.units() <= o.request.size@.units(),
{
}

/// An average price that a reply gives is the order's.
pub proof fn given_average_counts(
    o: Order,
    response: BinanceOrderResponse,
    key: InstrumentKey,
    strategy_id: Seq<char>,
    internal_id: Seq<char>,
    average: Dec,
)
    requires
        mappers::replied_order(response, key, strategy_id, internal_id) == Ok::<_, common::Overflow>(Some(o.facts())),
        response.avg_price matches Some(written) && decimal::parsed(written@) == Some(average),
        average.units() != 0,
    ensures
        o.avg_fill_price matches Some(p) && p@ == average,
{
    decimal_laws::units_have_sign(average);
}

/// Where a reply gives no average price, the order's is such that what was filled at that price
/// costs what was paid.
pub proof fn average_times_filled_is_paid(
    o: Order,
    response: BinanceOrderResponse,
    key: InstrumentKey,
    strategy_id: Seq<char>,
    internal_id: Seq<char>,
    paid: Dec,
    average: Dec,
)
    requires
        mappers::replied_order(response, key, strategy_id, internal_id) == Ok::<_, common::Overflow>(Some(o.facts())),
        response.avg_price is None,
        response.cummulative_quote_qty matches Some(written) && decimal::parsed(written@) == Some(paid),
        paid.units() != 0,
        o.filled_size@.units() != 0,
        average.wf(),
        average.units() * o.filled_size@.units() == paid.units() * fill_laws::one_in_units(),
    ensures
        o.avg_fill_price matches Some(p) && p@.units() * o.filled_size@.units() == paid.units()
            * fill_laws::one_in_units(),
{
    decimal_laws::units_have_sign(paid);
    decimal_laws::units_have_sign(o.filled_size@);
    assert(average.is_quotient(paid, o.filled_size@));
    decimal_laws::quotient_is_exact(paid, o.filled_size@);
}

/// An order of which nothing is filled, and whose reply gives no average price, has none.
pub proof fn nothing_filled_has_no_average(
    o: Order,
    response: BinanceOrderResponse,
    key: InstrumentKey,
    strategy_id: Seq<char>,
    internal_id: Seq<char>,
)
    requires
        mappers::replied_order(response, key, strategy_id, internal_id) == Ok::<_, common::Overflow>(Some(o.facts())),
        response.avg_price is None,
        o.filled_size@.units() == 0,
    ensures
        o.avg_fill_price is None,
{
    decimal_laws::units_have_sign(o.filled_size@);
}

/// The order of a spot execution is the one that the report tells of, field by field.
pub proof fn spot_execution_is_told(event: OrderEvent, report: BinanceSpotExecutionReport, key: InstrumentKey)
    requires
        common::event_is(Some(event), mappers::executed_order(report.said(), key)),
    ensures
        decimal::parsed(report.order_quantity@) == Some(event.order().request.size@),
        decimal::parsed(report.cumulative_filled_quantity@) == Some(event.order().filled_size@),
        event.order().request.side == OrderSide::Buy <==> report.side@ == "BUY"@,
        event.order().request.side == OrderSide::Sell <==> report.side@ == "SELL"@,
        event.order().request.order_type == OrderType::Market <==> report.order_type@ == "MARKET"@,
        event.order().request.order_type == OrderType::Limit <==> report.order_type@ == "LIMIT"@,
        event.order().status == OrderStatus::New <==> report.order_status@ == "NEW"@,
        event.order().status == OrderStatus::PartiallyFilled <==> report.order_status@ == "PARTIALLY_FILLED"@,
        event.order().status == OrderStatus::Filled <==> report.order_status@ == "FILLED"@,
        event.order().status == OrderStatus::Canceled <==> report.order_status@ == "CANCELED"@ || report.order_status@
            == "EXPIRED"@,
        event.order().status == OrderStatus::Rejected <==> report.order_status@ == "REJECTED"@,
        event.order().request.price matches Some(p) ==> decimal::parsed(report.order_price@) == Some(p@) && p@.units()
            != 0,
        event.order().request.price is None ==> (decimal::parsed(report.order_price@) matches Some(p) ==> p.units() == 0),
        event.order().avg_fill_price matches Some(p) ==> decimal::parsed(report.last_executed_price@) == Some(p@)
            && p@.units() != 0,
        event.order().avg_fill_price is None ==> (decimal::parsed(report.last_executed_price@) matches Some(p)
            ==> p.units() == 0),
        event.order().request.key == key,
        !event.order().request.reduce_only,
        !event.order().request.post_only,
        event.order().client_order_id@ == report.client_order_id@,
        event.order().internal_id@ == report.client_order_id@,
        event.order().exchange_order_id matches Some(id) && id@ == report.client_order_id@,
        event.order().strategy_id@ == ""@,
        event.order().request.strategy_id@ == ""@,
        event.order().created_at@ == report.order_creation_time * 1_000_000,
        event.order().updated_at@ == report.transaction_time * 1_000_000,
{
    reading_laws::capital_side_is_what_it_says(report.side@);
    reading_laws::capital_status_is_what_it_says(report.order_status@);
    kind_words_differ();
    zero_means_no_units(decimal::parsed(report.order_price@));
    zero_means_no_units(decimal::parsed(report.last_executed_price@));
}

/// The order of a futures execution is the one that the report tells of, field by field.
pub proof fn futures_execution_is_told(event: OrderEvent, report: BinanceFuturesOrderTradeUpdate, key: InstrumentKey)
    requires
        common::event_is(Some(event), mappers::executed_order(report.said(), key)),
    ensures
        decimal::parsed(report.original_quantity@) == Some(event.order().request.size@),
        decimal::parsed(report.order_filled_accumulated_quantity@) == Some(event.order().filled_size@),
        event.order().request.side == OrderSide::Buy <==> report.side@ == "BUY"@,
        event.order().request.side == OrderSide::Sell <==> report.side@ == "SELL"@,
        event.order().request.order_type == OrderType::Market <==> report.order_type@ == "MARKET"@,
        event.order().request.order_type == OrderType::Limit <==> report.order_type@ == "LIMIT"@,
        event.order().status == OrderStatus::New <==> report.order_status@ == "NEW"@,
        event.order().status == OrderStatus::PartiallyFilled <==> report.order_status@ == "PARTIALLY_FILLED"@,
        event.order().status == OrderStatus::Filled <==> report.order_status@ == "FILLED"@,
        event.order().status == OrderStatus::Canceled <==> report.order_status@ == "CANCELED"@ || report.order_status@
            == "EXPIRED"@,
        event.order().status == OrderStatus::Rejected <==> report.order_status@ == "REJECTED"@,
        event.order().request.price matches Some(p) ==> decimal::parsed(report.original_price@) == Some(p@) && p@.units()
            != 0,
        event.order().request.price is None ==> (decimal::parsed(report.original_price@) matches Some(p) ==> p.units()
            == 0),
        event.order().avg_fill_price matches Some(p) ==> decimal::parsed(report.average_price@) == Some(p@) && p@.units()
            != 0,
        event.order().avg_fill_price is None ==> (decimal::parsed(report.average_price@) matches Some(p) ==> p.units()
            == 0),
        event.order().request.key == key,
        !event.order().request.reduce_only,
        !event.order().request.post_only,
        event.order().client_order_id@ == report.client_order_id@,
        event.order().internal_id@ == report.client_order_id@,
        event.order().exchange_order_id matches Some(id) && id@ == report.client_order_id@,
        event.order().strategy_id@ == ""@,
        event.order().request.strategy_id@ == ""@,
        event.order().created_at@ == report.order_trade_time * 1_000_000,
        event.order().updated_at@ == report.order_trade_time * 1_000_000,
{
    reading_laws::capital_side_is_what_it_says(report.side@);
    reading_laws::capital_status_is_what_it_says(report.order_status@);
    kind_words_differ();
    zero_means_no_units(decimal::parsed(report.original_price@));
    zero_means_no_units(decimal::parsed(report.average_price@));
}

/// A spot execution is of a spot market, a futures execution of a future, each of the instrument
/// that goes by its symbol.
pub proof fn executions_are_of_their_markets(
    spot: OrderEvent,
    spot_report: BinanceSpotExecutionReport,
    future: OrderEvent,
    futures_report: BinanceFuturesOrderTradeUpdate,
    instruments: Seq<Instrument>,
)
    requires
        common::event_is(Some(spot), ws::spot_order(instruments, spot_report)),
        common::event_is(Some(future), ws::futures_order(instruments, futures_report)),
    ensures
        spot.order().request.key.instrument_type == InstrumentType::Spot,
        spot.order().request.key.exchange == Exchange::Binance,
        future.order().request.key.instrument_type == InstrumentType::Swap,
        future.order().request.key.exchange == Exchange::Binance,
        exists|i: Instrument| #[trigger]
            instruments.contains(i) && i.key == spot.order().request.key && i.exchange_symbol@ == spot_report.symbol@,
        exists|i: Instrument| #[trigger]
            instruments.contains(i) && i.key == future.order().request.key && i.exchange_symbol@
                == futures_report.symbol@,
{
    registry::known_goes_by(instruments, Exchange::Binance, spot_report.symbol@, InstrumentType::Spot);
    registry::known_goes_by(instruments, Exchange::Binance, futures_report.symbol@, InstrumentType::Swap);
}

/// A spot balance tells what the exchange tells, under the same names.
pub proof fn spot_balance_is_as_written(b: BalanceView, told: BinanceSpotBalance, as_of: int)
    requires
        common::balance_is(Ok(Some(b)), mappers::spot_balance(told, as_of)),
    ensures
        b.exchange == Exchange::Binance,
        Currency::named(told.asset@) == Some(b.asset),
        decimal::parsed(told.free@) == Some(b.free@),
        decimal::parsed(told.locked@) == Some(b.locked@),
        b.borrowed@.units() == 0,
        b.unrealized_pnl@.units() == 0,
        b.collateral_scope == CollateralScope::PartitionOnly,
        b.partition matches Some(part) && part.kind is Spot && part.exchange == Exchange::Binance,
        b.as_of_utc@ == as_of,
{
    decimal_laws::units_have_sign(Dec::zero());
}

/// What is free and what is locked of a spot balance make up what is held.
pub proof fn spot_balance_adds_up(b: BalanceView, told: BinanceSpotBalance, as_of: int)
    requires
        common::balance_is(Ok(Some(b)), mappers::spot_balance(told, as_of)),
        b.free@.wf(),
        b.locked@.wf(),
        b.free@.exact_sum(b.locked@) is Some,
    ensures
        b.total@.units() == b.free@.units() + b.locked@.units(),
{
    decimal_laws::sum_units(b.free@, b.locked@);
}

/// A futures balance tells what the exchange tells, under the same names.
pub proof fn futures_balance_is_as_written(b: BalanceView, told: BinanceFuturesBalance, as_of: int)
    requires
        common::balance_is(Ok(Some(b)), mappers::futures_balance(told, as_of)),
    ensures
        b.exchange == Exchange::Binance,
        Currency::named(told.asset@) == Some(b.asset),
        decimal::parsed(told.balance@) == Some(b.total@),
        decimal::parsed(told.available_balance@) == Some(b.free@),
        decimal::parsed(told.cross_un_pnl@) == Some(b.unrealized_pnl@),
        b.borrowed@.units() == 0,
        b.collateral_scope == CollateralScope::PartitionOnly,
        b.partition matches Some(part) && part.kind is Swap && part.exchange == Exchange::Binance,
        b.as_of_utc@ == as_of,
        b.locked@.units() >= 0,
{
    decimal_laws::units_have_sign(Dec::zero());
    decimal_laws::units_have_sign(b.locked@);
    reading_laws::raised_balance_is_no_debt(b.total@.difference(b.free@)->0);
}

/// What is locked of a futures balance is what is held and not free; nothing is locked where more
/// is free than is held.
pub proof fn futures_balance_adds_up(b: BalanceView, told: BinanceFuturesBalance, as_of: int)
    requires
        common::balance_is(Ok(Some(b)), mappers::futures_balance(told, as_of)),
        b.total@.wf(),
        b.free@.wf(),
        b.total@.exact_difference(b.free@) is Some,
    ensures
        b.total@.units() >= b.free@.units() ==> b.locked@.units() + b.free@.units() == b.total@.units(),
        b.total@.units() < b.free@.units() ==> b.locked@.units() == 0,
{
    decimal_laws::difference_units(b.total@, b.free@);
    reading_laws::raised_balance_is_no_debt(b.total@.difference(b.free@)->0);
}

/// A funding rate has each number from the field of that name.
pub proof fn premium_is_as_written(s: FundingRateSnapshot, index: BinancePremiumIndex, pair: Pairs, interval: FundingInterval)
    requires
        mappers::premium_rate(index, pair, interval) == Some(s.facts()),
    ensures
        s.key.exchange == Exchange::Binance,
        s.key.pair == pair,
        s.key.instrument_type == InstrumentType::Swap,
        s.interval == interval,
        decimal::parsed(index.last_funding_rate@) == Some(s.funding_rate@),
        decimal::parsed(index.mark_price@) == Some(s.mark_price@),
        decimal::parsed(index.index_price@) == Some(s.index_price@),
        s.interest_rate matches Some(r) ==> (index.interest_rate matches Some(written) && decimal::parsed(written@) == Some(
            r@,
        )),
        s.interest_rate is None ==> (index.interest_rate matches Some(written) ==> decimal::parsed(written@) is None),
        s.next_funding_time_ms == index.next_funding_time,
        s.next_funding_time_utc@ == index.next_funding_time * 1_000_000,
        s.event_time_ms == index.time,
        s.event_time_utc@ == index.time * 1_000_000,
{
}

/// A history whose entries can all be read has a point for each of them, in the same order.
pub proof fn history_is_as_written(points: Seq<FundingRatePoint>, history: Seq<BinanceFundingRateHistory>)
    requires
        common::point_views(points) == mappers::history_points(history),
        forall|i: int|
            0 <= i < history.len() ==> decimal::parsed((#[trigger] history[i]).funding_rate@) is Some && common::time_of(
                history[i].funding_time as int,
            ) is Some,
    ensures
        points.len() == history.len(),
        forall|i: int|
            0 <= i < history.len() ==> decimal::parsed(history[i].funding_rate@) == Some(
                (#[trigger] points[i]).funding_rate@,
            ) && points[i].event_time_ms == history[i].funding_time && points[i].event_time_utc@
                == history[i].funding_time * 1_000_000,
    decreases history.len(),
{
    assert(points.len() == common::point_views(points).len());
    if history.len() > 0 {
        let front = history.drop_last();
        assert forall|i: int| 0 <= i < front.len() implies decimal::parsed((#[trigger] front[i]).funding_rate@) is Some
            && common::time_of(front[i].funding_time as int) is Some by {
            assert(front[i] == history[i]);
        }
        assert(decimal::parsed(history[history.len() - 1].funding_rate@) is Some);
        assert(mappers::history_points(history).len() == mappers::history_points(front).len() + 1);
        assert(common::point_views(points.drop_last()) =~= common::point_views(points).drop_last());
        assert(common::point_views(points).drop_last() =~= mappers::history_points(front));
        history_is_as_written(points.drop_last(), front);
        assert(common::point_views(points).last() == points.last().facts());
        assert forall|i: int| 0 <= i < history.len() implies decimal::parsed(history[i].funding_rate@) == Some(
            (#[trigger] points[i]).funding_rate@,
        ) && points[i].event_time_ms == history[i].funding_time && points[i].event_time_utc@ == history[i].funding_time
            * 1_000_000 by {
            if i < history.len() - 1 {
                assert(points.drop_last()[i] == points[i]);
                assert(front[i] == history[i]);
            } else {
                assert(points[i] == points.last());
            }
        }
    }
}

/// The bids of a depth event are the bids of its book and the asks its asks. The time of the
/// transaction counts before that of the event, and that before the time when the event came in.
pub proof fn depth_is_as_told(book: OrderBookSnapshot, event: BinanceWsDepthEvent, key: InstrumentKey, now: UtcTime)
    requires
        mappers::is_depth_book(Some(book), event, key, now),
    ensures
        book.key == key,
        book.bids@.len() == event.bids@.len(),
        book.asks@.len() == event.asks@.len(),
        forall|i: int| 0 <= i < event.bids@.len() ==> reading_laws::is_written(#[trigger] book.bids@[i], event.bids@[i]),
        forall|i: int| 0 <= i < event.asks@.len() ==> reading_laws::is_written(#[trigger] book.asks@[i], event.asks@[i]),
        event.transaction_time_ms != 0 ==> book.timestamp_ms == event.transaction_time_ms && book.timestamp_utc@
            == event.transaction_time_ms * 1_000_000,
        event.transaction_time_ms == 0 && event.event_time_ms != 0 ==> book.timestamp_ms == event.event_time_ms
            && book.timestamp_utc@ == event.event_time_ms * 1_000_000,
        event.transaction_time_ms == 0 && event.event_time_ms == 0 ==> book.timestamp_utc == now,
{
    reading_laws::levels_are_read_one_for_one(event.bids@);
    reading_laws::levels_are_read_one_for_one(event.asks@);
    let b = common::levels_of(event.bids@)->0;
    let a = common::levels_of(event.asks@)->0;
    assert(b == common::level_views(book.bids@));
    assert(a == common::level_views(book.asks@));
    assert forall|i: int| 0 <= i < event.bids@.len() implies reading_laws::is_written(
        #[trigger] book.bids@[i],
        event.bids@[i],
    ) by {
        assert(b[i] == (book.bids@[i].price@, book.bids@[i].quantity@));
    }
    assert forall|i: int| 0 <= i < event.asks@.len() implies reading_laws::is_written(
        #[trigger] book.asks@[i],
        event.asks@[i],
    ) by {
        assert(a[i] == (book.asks@[i].price@, book.asks@[i].quantity@));
    }
}

/// The step of prices is what the first filter on prices says.
pub proof fn first_price_filter_counts(filters: Seq<BinanceFilter>, k: int)
    requires
        0 <= k < filters.len(),
        filters[k] is PriceFilter,
        forall|j: int| 0 <= j < k ==> !((#[trigger] filters[j]) is PriceFilter),
    ensures
        types::filter_tick(filters) == Some(filters[k]->tick_size@),
    decreases filters.len(),
{
    if k > 0 {
        assert(!(filters[0] is PriceFilter));
        let rest = filters.skip(1);
        assert(rest[k - 1] == filters[k]);
        assert forall|j: int| 0 <= j < k - 1 implies !((#[trigger] rest[j]) is PriceFilter) by {
            assert(rest[j] == filters[j + 1]);
        }
        first_price_filter_counts(rest, k - 1);
    }
}

/// The step of quantities is what the first filter on quantities says.
pub proof fn first_quantity_filter_counts(filters: Seq<BinanceFilter>, k: int)
    requires
        0 <= k < filters.len(),
        filters[k] is LotSize,
        forall|j: int| 0 <= j < k ==> !((#[trigger] filters[j]) is LotSize),
    ensures
        types::filter_step(filters) == Some(filters[k]->step_size@),
    decreases filters.len(),
{
    if k > 0 {
        assert(!(filters[0] is LotSize));
        let rest = filters.skip(1);
        assert(rest[k - 1] == filters[k]);
        assert forall|j: int| 0 <= j < k - 1 implies !((#[trigger] rest[j]) is LotSize) by {
            assert(rest[j] == filters[j + 1]);
        }
        first_quantity_filter_counts(rest, k - 1);
    }
}

/// The least worth of an order is what the first filter on it says, the newer field before the
/// older one.
pub proof fn first_worth_filter_counts(filters: Seq<BinanceFilter>, k: int)
    requires
        0 <= k < filters.len(),
        filters[k] is MinNotional || filters[k] is Notional,
        forall|j: int| 0 <= j < k ==> !((#[trigger] filters[j]) is MinNotional) && !(filters[j] is Notional),
    ensures
        filters[k] matches BinanceFilter::MinNotional { notional: Some(n), .. } ==> types::filter_notional(filters) == Some(
            n@,
        ),
        filters[k] matches BinanceFilter::MinNotional { notional: None, min_notional: Some(n) } ==> types::filter_notional(
            filters,
        ) == Some(n@),
        filters[k] matches BinanceFilter::Notional { min_notional: Some(n) } ==> types::filter_notional(filters) == Some(
            n@,
        ),
    decreases filters.len(),
{
    if k > 0 {
        assert(!(filters[0] is MinNotional) && !(filters[0] is Notional));
        let rest = filters.skip(1);
        assert(rest[k - 1] == filters[k]);
        assert forall|j: int| 0 <= j < k - 1 implies !((#[trigger] rest[j]) is MinNotional) && !(rest[j] is Notional) by {
            assert(rest[j] == filters[j + 1]);
        }
        first_worth_filter_counts(rest, k - 1);
    }
}

/// A future has the pair of its own assets, the steps of its own filters, and is a future.
pub proof fn future_is_as_listed(i: Instrument, info: BinanceFuturesSymbol, hours: Option<u32>)
    requires
        types::swap_instrument(info, hours) == Some(i.facts()),
    ensures
        i.key.exchange == Exchange::Binance,
        i.key.instrument_type == InstrumentType::Swap,
        types::pair_of(info.base_asset@, info.quote_asset@) == Some(i.key.pair),
        i.exchange_symbol@ == info.symbol@,
        i.exchange_id@ == info.symbol@,
        types::filter_tick(info.filters@) matches Some(s) ==> (decimal::parsed(s) matches Some(d) ==> i.tick_size@ == d),
        types::filter_tick(info.filters@) is None ==> i.tick_size@ == Dec::one(),
        types::filter_step(info.filters@) matches Some(s) ==> (decimal::parsed(s) matches Some(d) ==> i.lot_size@ == d),
        types::filter_step(info.filters@) is None ==> i.lot_size@ == Dec::one(),
        types::filter_notional(info.filters@) matches Some(s) ==> decimal::view_opt(i.min_notional) == decimal::parsed(s),
        types::filter_notional(info.filters@) is None ==> i.min_notional is None,
        decimal::view_opt(i.contract_size) == decimal::view_opt(info.contract_size),
        i.multiplier@ == Dec::one(),
        hours is None <==> i.funding_interval is None,
        hours == Some(1u32) <==> i.funding_interval == Some(FundingInterval::EveryHour),
        hours == Some(4u32) <==> i.funding_interval == Some(FundingInterval::Every4Hours),
        hours == Some(8u32) <==> i.funding_interval == Some(FundingInterval::Every8Hours),
{
}

/// A spot market has the pair of its own assets, the steps of its own filters, and pays no funding.
pub proof fn spot_is_as_listed(i: Instrument, info: BinanceSpotSymbol)
    requires
        types::spot_instrument(info) == Some(i.facts()),
    ensures
        i.key.exchange == Exchange::Binance,
        i.key.instrument_type == InstrumentType::Spot,
        types::pair_of(info.base_asset@, info.quote_asset@) == Some(i.key.pair),
        i.exchange_symbol@ == info.symbol@,
        i.exchange_id@ == info.symbol@,
        types::filter_tick(info.filters@) matches Some(s) ==> (decimal::parsed(s) matches Some(d) ==> i.tick_size@ == d),
        types::filter_tick(info.filters@) is None ==> i.tick_size@ == Dec::one(),
        types::filter_step(info.filters@) matches Some(s) ==> (decimal::parsed(s) matches Some(d) ==> i.lot_size@ == d),
        types::filter_step(info.filters@) is None ==> i.lot_size@ == Dec::one(),
        types::filter_notional(info.filters@) matches Some(s) ==> decimal::view_opt(i.min_notional) == decimal::parsed(s),
        types::filter_notional(info.filters@) is None ==> i.min_notional is None,
        i.contract_size is None,
        i.multiplier@ == Dec::one(),
        i.funding_interval is None,
{
}

/// A pair is of the currencies that its two assets name, the base first.
pub proof fn pair_is_of_its_assets(base: Seq<char>, quote: Seq<char>, pair: Pairs)
    requires
        types::pair_of(base, quote) == Some(pair),
    ensures
        Currency::named(base) is Some,
        Currency::named(quote) is Some,
        Pairs::of_currencies(Currency::named(base)->0, Currency::named(quote)->0) == Some(pair),
{
}

/// The hours between two payments of a symbol are what the last entry for it says.
pub proof fn last_entry_tells_hours(funding: Seq<BinanceFundingInfo>, symbol: Seq<char>, k: int)
    requires
        0 <= k < funding.len(),
        funding[k].symbol@ == symbol,
        forall|j: int| k < j < funding.len() ==> (#[trigger] funding[j]).symbol@ != symbol,
    ensures
        client::hours_of(funding, symbol) == Some(funding[k].funding_interval_hours),
    decreases funding.len(),
{
    if k < funding.len() - 1 {
        assert(funding[funding.len() - 1].symbol@ != symbol);
        assert(funding.drop_last()[k] == funding[k]);
        last_entry_tells_hours(funding.drop_last(), symbol, k);
    }
}

} // verus!
