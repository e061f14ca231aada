use vstd::prelude::*;

use crate::decimal;
use crate::decimal::Dec;
use crate::decimal_laws;
use crate::exchanges::aster::client;
use crate::exchanges::aster::mappers;
use crate::exchanges::aster::types;
use crate::exchanges::aster::types::{
    AsterFilter, AsterFundingInfo, AsterFundingRateHistory, AsterFuturesBalance, AsterFuturesOrderTradeUpdate,
    AsterFuturesPositionRisk, AsterOrderResponse, AsterPartialDepth, AsterPremiumIndex, AsterSymbolInfo,
};
use crate::exchanges::aster::ws;
use crate::exchanges::codec;
use crate::exchanges::common;
use crate::exchanges::reading_laws;
use crate::kinds::{
    Currency, Exchange, FundingInterval, InstrumentType, OrderSide, OrderStatus, OrderType, Pairs,
};
use crate::manager::types::{BalanceView, CollateralScope};
use crate::orders::{Order, OrderEvent, OrderRequest, Position};
use crate::registry;
use crate::text;
use crate::time;
use crate::types::{FundingRatePoint, FundingRateSnapshot, Instrument, InstrumentKey, OrderBookSnapshot};

verus! {

/// The words for kinds of orders are not the same.
proof fn kind_words_differ()
    ensures
        "MARKET"@ != "LIMIT"@,
        "MARKET"@ != "POST_ONLY"@,
        "MARKET"@ != "LIMIT_MAKER"@,
        "LIMIT"@ != "POST_ONLY"@,
        "LIMIT"@ != "LIMIT_MAKER"@,
        "POST_ONLY"@ != "LIMIT_MAKER"@,
{
    reveal_strlit("MARKET");
    reveal_strlit("LIMIT");
    reveal_strlit("POST_ONLY");
    reveal_strlit("LIMIT_MAKER");
    assert("MARKET"@.len() == 6 && "LIMIT"@.len() == 5 && "POST_ONLY"@.len() == 9 && "LIMIT_MAKER"@.len() == 11);
}

/// A number that is zero has no units, and every other one has some.
proof fn zero_means_no_units(d: Option<Dec>)
    ensures
        d matches Some(n) ==> (n.is_zero() <==> n.units() == 0),
{
    if let Some(n) = d {
        decimal_laws::units_have_sign(n);
    }
}

/// The order of a reply is the one that the reply tells of, field by field: its size is what was
/// asked for, its filled size is what was executed.
pub proof fn reply_is_told(
    o: Order,
    response: AsterOrderResponse,
    key: InstrumentKey,
    strategy_id: Seq<char>,
    internal_id: Seq<char>,
)
    requires
        common::order_is(Some(o), mappers::replied_order(response, key, strategy_id, internal_id)),
    ensures
        decimal::parsed(response.orig_qty@) == Some(o.request.size@),
        decimal::parsed(response.executed_qty@) == Some(o.filled_size@),
        o.request.side == OrderSide::Buy <==> response.side@ == "BUY"@,
        o.request.side == OrderSide::Sell <==> response.side@ == "SELL"@,
        o.request.order_type == OrderType::Limit <==> response.order_type@ == "LIMIT"@ || response.order_type@
            == "LIMIT_MAKER"@ || response.order_type@ == "POST_ONLY"@,
        o.request.order_type != OrderType::Limit ==> o.request.order_type == OrderType::Market,
        o.request.post_only <==> response.order_type@ == "LIMIT_MAKER"@ || response.order_type@ == "POST_ONLY"@,
        o.status == OrderStatus::New <==> response.status@ == "NEW"@ || response.status@ == "PENDING_NEW"@,
        o.status == OrderStatus::PartiallyFilled <==> response.status@ == "PARTIALLY_FILLED"@,
        o.status == OrderStatus::Filled <==> response.status@ == "FILLED"@,
        o.status == OrderStatus::Canceled <==> response.status@ == "CANCELED"@ || response.status@ == "EXPIRED"@
            || response.status@ == "EXPIRED_IN_MATCH"@,
        o.status == OrderStatus::Rejected <==> response.status@ == "REJECTED"@,
        o.request.price matches Some(p) ==> decimal::parsed(response.price@) == Some(p@) && p@.units() != 0,
        o.request.price is None ==> (decimal::parsed(response.price@) matches Some(p) ==> p.units() == 0),
        o.avg_fill_price matches Some(p) ==> (response.avg_price matches Some(written) && decimal::parsed(written@)
            == Some(p@)) && p@.units() != 0,
        o.avg_fill_price is None ==> (response.avg_price matches Some(written) ==> (decimal::parsed(written@) matches Some(
            p,
        ) ==> p.units() == 0)),
        o.request.key == key,
        !o.request.reduce_only,
        o.client_order_id@ == response.client_order_id@,
        o.internal_id@ == internal_id,
        o.strategy_id@ == strategy_id,
        o.request.strategy_id@ == strategy_id,
        o.exchange_order_id matches Some(id) && id@ == text::signed_digits(response.order_id as int),
        response.update_time matches Some(ms) ==> o.updated_at@ == ms * 1_000_000,
        response.update_time is None ==> (response.time matches Some(ms) && o.updated_at@ == ms * 1_000_000),
        response.time matches Some(ms) ==> (time::millis_in_calendar(ms as int) ==> o.created_at@ == ms * 1_000_000),
        response.time matches Some(ms) ==> (!time::millis_in_calendar(ms as int) ==> o.created_at@ == o.updated_at@),
        response.time is None ==> o.created_at@ == o.updated_at@,
{
    reading_laws::capital_side_is_what_it_says(response.side@);
    reading_laws::capital_reply_is_what_it_says(response.status@);
    kind_words_differ();
    zero_means_no_units(decimal::parsed(response.price@));
    zero_means_no_units(common::read_opt(common::opt_view(response.avg_price)));
}

/// A reply is an order just where its side, its state, both of its quantities and its time can be
/// read.
pub proof fn reply_is_read(response: AsterOrderResponse, key: InstrumentKey, strategy_id: Seq<char>, internal_id: Seq<char>)
    ensures
        common::order_is(None, mappers::replied_order(response, key, strategy_id, internal_id))
            <==> common::upper_side(response.side@) is None || common::upper_reply_status(response.status@) is None
            || decimal::parsed(response.orig_qty@) is None || decimal::parsed(response.executed_qty@) is None
            || mappers::reply_updated(response) is None,
{
}

/// Where a reply tells that no more was executed than was asked for, its order has no more filled
/// than its size.
pub proof fn reply_fills_no_more_than_its_size(
    o: Order,
    response: AsterOrderResponse,
    key: InstrumentKey,
    strategy_id: Seq<char>,
    internal_id: Seq<char>,
)
    requires
        common::order_is(Some(o), mappers::replied_order(response, key, strategy_id, internal_id)),
        decimal::parsed(response.executed_qty@) matches Some(executed) && (decimal::parsed(response.orig_qty@) matches Some(
            asked,
        ) && executed.units() <= asked.units()),
    ensures
        o.filled_size@.units() <= o.request.size@.units(),
{
}

/// More executed of the same order is more filled: of two replies that differ in what was executed,
/// the orders have the same size, and what lies between their filled sizes is what lies between the
/// executed quantities.
pub proof fn later_reply_fills_more(
    before: Order,
    first: AsterOrderResponse,
    after: Order,
    second: AsterOrderResponse,
    key: InstrumentKey,
    strategy_id: Seq<char>,
    internal_id: Seq<char>,
    executed: Dec,
    executed_later: Dec,
)
    requires
        common::order_is(Some(before), mappers::replied_order(first, key, strategy_id, internal_id)),
        common::order_is(Some(after), mappers::replied_order(second, key, strategy_id, internal_id)),
        first.orig_qty@ == second.orig_qty@,
        decimal::parsed(first.executed_qty@) == Some(executed),
        decimal::parsed(second.executed_qty@) == Some(executed_later),
    ensures
        after.request.size@ == before.request.size@,
        after.filled_size@.units() - before.filled_size@.units() == executed_later.units() - executed.units(),
{
}

/// The order of a streamed execution is the one that the report tells of, field by field.
pub proof fn execution_is_told(event: OrderEvent, report: AsterFuturesOrderTradeUpdate, key: InstrumentKey)
    requires
        common::event_is(Some(event), mappers::executed_order(report, key)),
    ensures
        decimal::parsed(report.original_quantity@) == Some(event.order().request.size@),
        decimal::parsed(report.order_filled_accumulated_quantity@) == Some(event.order().filled_size@),
        event.order().request.side == OrderSide::Buy <==> report.side@ == "BUY"@,
        event.order().request.side == OrderSide::Sell <==> report.side@ == "SELL"@,
        event.order().request.order_type == OrderType::Market <==> report.order_type@ == "MARKET"@,
        event.order().request.order_type == OrderType::Limit <==> report.order_type@ == "LIMIT"@ || report.order_type@
            == "LIMIT_MAKER"@ || report.order_type@ == "POST_ONLY"@,
        event.order().request.post_only <==> report.order_type@ == "LIMIT_MAKER"@ || report.order_type@ == "POST_ONLY"@,
        event.order().status == OrderStatus::New <==> report.order_status@ == "NEW"@,
        event.order().status == OrderStatus::PartiallyFilled <==> report.order_status@ == "PARTIALLY_FILLED"@,
        event.order().status == OrderStatus::Filled <==> report.order_status@ == "FILLED"@,
        event.order().status == OrderStatus::Canceled <==> report.order_status@ == "CANCELED"@ || report.order_status@
            == "EXPIRED"@,
        event.order().status == OrderStatus::Rejected <==> report.order_status@ == "REJECTED"@,
        event.order().request.price matches Some(p) ==> decimal::parsed(report.original_price@) == Some(p@) && p@.units()
            != 0,
        event.order().request.price is None ==> (decimal::parsed(report.original_price@) matches Some(p) ==> p.units()
            == 0),
        event.order().avg_fill_price matches Some(p) ==> decimal::parsed(report.average_price@) == Some(p@) && p@.units()
            != 0,
        event.order().avg_fill_price is None ==> (decimal::parsed(report.average_price@) matches Some(p) ==> p.units()
            == 0),
        event.order().request.key == key,
        !event.order().request.reduce_only,
        event.order().client_order_id@ == report.client_order_id@,
        event.order().internal_id@ == report.client_order_id@,
        event.order().strategy_id@ == codec::strategy_or_none(report.client_order_id@),
        event.order().request.strategy_id@ == event.order().strategy_id@,
        event.order().exchange_order_id matches Some(id) && id@ == text::digits(report.order_id as nat),
        event.order().created_at@ == report.order_trade_time * 1_000_000,
        event.order().updated_at@ == report.order_trade_time * 1_000_000,
{
    reading_laws::capital_side_is_what_it_says(report.side@);
    reading_laws::capital_status_is_what_it_says(report.order_status@);
    kind_words_differ();
    zero_means_no_units(decimal::parsed(report.original_price@));
    zero_means_no_units(decimal::parsed(report.average_price@));
}

/// The instrument of a streamed execution is the one that goes by its symbol.
pub proof fn execution_is_of_its_symbol(
    event: OrderEvent,
    instruments: Seq<Instrument>,
    report: AsterFuturesOrderTradeUpdate,
)
    requires
        common::event_is(Some(event), ws::user_order(instruments, report)),
    ensures
        exists|i: Instrument| #[trigger]
            instruments.contains(i) && i.key == event.order().request.key && i.exchange_symbol@ == report.symbol@,
        event.order().request.key.exchange == Exchange::Aster,
        event.order().request.key.instrument_type == InstrumentType::Swap,
        decimal::parsed(report.original_quantity@) == Some(event.order().request.size@),
        decimal::parsed(report.order_filled_accumulated_quantity@) == Some(event.order().filled_size@),
{
    registry::known_goes_by(instruments, Exchange::Aster, report.symbol@, InstrumentType::Swap);
}

/// How the path of an order starts: symbol, side and kind, each under its name.
pub open spec fn starts_with(path: Seq<char>, symbol: Seq<char>, side: Seq<char>, kind: Seq<char>) -> bool {
    ("/fapi/v1/order?symbol="@ + symbol + "&side="@ + side + "&type="@ + kind + "&quantity="@).is_prefix_of(path)
}

/// The path that places an order asks for its side, in the words that the exchange's own orders
/// are read by, and for its kind.
pub proof fn path_names_side_and_kind(i: Instrument, request: OrderRequest, client_order_id: Seq<char>, path: Seq<char>)
    requires
        client::order_path(i, request, client_order_id) == Some(path),
    ensures
        common::upper_side(client::side_word(request.side)) == Some(request.side),
        request.side == OrderSide::Buy && request.order_type == OrderType::Market ==> starts_with(
            path,
            i.exchange_symbol@,
            "BUY"@,
            "MARKET"@,
        ),
        request.side == OrderSide::Sell && request.order_type == OrderType::Market ==> starts_with(
            path,
            i.exchange_symbol@,
            "SELL"@,
            "MARKET"@,
        ),
        request.side == OrderSide::Buy && request.order_type == OrderType::Limit && !request.post_only ==> starts_with(
            path,
            i.exchange_symbol@,
            "BUY"@,
            "LIMIT"@,
        ),
        request.side == OrderSide::Sell && request.order_type == OrderType::Limit && !request.post_only ==> starts_with(
            path,
            i.exchange_symbol@,
            "SELL"@,
            "LIMIT"@,
        ),
        request.side == OrderSide::Buy && (request.order_type == OrderType::PostOnly || request.order_type
            == OrderType::Limit && request.post_only) ==> starts_with(path, i.exchange_symbol@, "BUY"@, "POST_ONLY"@),
        request.side == OrderSide::Sell && (request.order_type == OrderType::PostOnly || request.order_type
            == OrderType::Limit && request.post_only) ==> starts_with(path, i.exchange_symbol@, "SELL"@, "POST_ONLY"@),
{
    reading_laws::capital_side_is_what_it_says(client::side_word(request.side));
    let kind = client::order_words(request).0;
    let head = "/fapi/v1/order?symbol="@ + i.exchange_symbol@ + "&side="@ + client::side_word(request.side) + "&type="@
        + kind + "&quantity="@;
    assert forall|k: int| 0 <= k < head.len() implies head[k] == path[k] by {}
    assert(head.is_prefix_of(path)) by {
        assert(path.subrange(0, head.len() as int) =~= head);
    }
}

/// The path of a purchase is no path of a sale of the same kind, whatever else they ask for.
pub proof fn purchase_is_no_sale(i: Instrument, bought: OrderRequest, sold: OrderRequest, a: Seq<char>, b: Seq<char>)
    requires
        bought.side == OrderSide::Buy,
        sold.side == OrderSide::Sell,
    ensures
        client::order_path(i, bought, a) is Some ==> client::order_path(i, bought, a) != client::order_path(i, sold, b),
{
    reveal_strlit("BUY");
    reveal_strlit("SELL");
    if client::order_path(i, bought, a) == client::order_path(i, sold, b) && client::order_path(i, bought, a) is Some {
        let p = client::order_path(i, bought, a)->0;
        let n = ("/fapi/v1/order?symbol="@ + i.exchange_symbol@ + "&side="@).len() as int;
        let head = "/fapi/v1/order?symbol="@ + i.exchange_symbol@ + "&side="@;
        assert((head + "BUY"@)[n] == 'B');
        assert(p[n] == 'B');
        assert((head + "SELL"@)[n] == 'S');
        assert((client::order_path(i, sold, b)->0)[n] == 'S');
    }
}

/// A path that only reduces a position is the path that does not, and says so at its end.
pub proof fn reducing_path_says_so(i: Instrument, request: OrderRequest, reducing: OrderRequest, client_order_id: Seq<char>)
    requires
        !request.reduce_only,
        reducing == (OrderRequest { reduce_only: true, ..request }),
        client::order_path(i, request, client_order_id) is Some,
    ensures
        client::order_path(i, reducing, client_order_id) matches Some(path) && path == client::order_path(
            i,
            request,
            client_order_id,
        )->0 + "&reduceOnly=true"@,
{
    let plain = client::order_path(i, request, client_order_id)->0;
    assert(client::order_path(i, reducing, client_order_id)->0 =~= plain + "&reduceOnly=true"@);
}

/// Only a plain limit order says how long it is good; without a price a path ends with that word,
/// or with the identifier.
pub proof fn path_ends_with_time_in_force(i: Instrument, request: OrderRequest, client_order_id: Seq<char>, path: Seq<char>)
    requires
        client::order_path(i, request, client_order_id) == Some(path),
        !request.reduce_only,
    ensures
        request.order_type == OrderType::Limit && !request.post_only ==> ("&timeInForce=GTC"@).is_suffix_of(path),
        (request.order_type != OrderType::Limit || request.post_only) && request.price is None ==> (
        "&newClientOrderId="@ + client_order_id).is_suffix_of(path),
{
    reveal_strlit("&timeInForce=GTC");
    reveal_strlit("&timeInForce=");
    reveal_strlit("GTC");
    assert("&timeInForce=GTC"@ =~= "&timeInForce="@ + "GTC"@);
    let tail = if request.order_type == OrderType::Limit && !request.post_only {
        "&timeInForce=GTC"@
    } else {
        "&newClientOrderId="@ + client_order_id
    };
    if request.order_type == OrderType::Limit && !request.post_only || request.price is None {
        assert(path.subrange(path.len() - tail.len(), path.len() as int) =~= tail);
    }
}

/// A balance tells what the exchange tells, under the same names: what is held, and what of it is
/// free.
pub proof fn balance_is_as_written(b: BalanceView, told: AsterFuturesBalance, as_of: int)
    requires
        common::balance_is(Ok(Some(b)), client::futures_balance(told, as_of)),
    ensures
        b.exchange == Exchange::Aster,
        Currency::named(told.asset@) == Some(b.asset),
        decimal::parsed(told.balance@) matches Some(t) ==> b.total@ == t,
        decimal::parsed(told.balance@) is None ==> b.total@.units() == 0,
        decimal::parsed(told.available_balance@) matches Some(f) ==> b.free@ == f,
        decimal::parsed(told.available_balance@) is None ==> b.free@.units() == 0,
        decimal::parsed(told.cross_un_pnl@) matches Some(u) ==> b.unrealized_pnl@ == u,
        decimal::parsed(told.cross_un_pnl@) is None ==> b.unrealized_pnl@.units() == 0,
        b.borrowed@.units() == 0,
        b.collateral_scope == CollateralScope::PartitionOnly,
        b.partition matches Some(part) && part.exchange == Exchange::Aster && part.kind is Swap && part.account_id
            is None,
        b.as_of_utc@ == as_of,
{
    decimal_laws::units_have_sign(Dec::zero());
}

/// What is free and what is locked make up what is held.
pub proof fn balance_adds_up(b: BalanceView, told: AsterFuturesBalance, as_of: int)
    requires
        common::balance_is(Ok(Some(b)), client::futures_balance(told, as_of)),
        b.total@.wf(),
        b.free@.wf(),
        b.total@.exact_difference(b.free@) is Some,
    ensures
        b.free@.units() + b.locked@.units() == b.total@.units(),
{
    decimal_laws::difference_units(b.total@, b.free@);
}

/// A listed position is the one that the reply tells of, on the instrument that goes by its symbol,
/// and with the leverage that was set for that instrument.
pub proof fn position_is_listed(
    p: Position,
    instruments: Seq<Instrument>,
    leverage: Map<InstrumentKey, decimal::Decimal>,
    risk: AsterFuturesPositionRisk,
)
    requires
        common::position_is(Some(p), client::listed_position(instruments, leverage, risk)),
    ensures
        decimal::parsed(risk.position_amt@) == Some(p.size@),
        p.size@.units() != 0,
        decimal::parsed(risk.entry_price@) == Some(p.entry_price@),
        decimal::parsed(risk.un_realized_profit@) == Some(p.unrealized_pnl@),
        p.liquidation_price matches Some(l) ==> decimal::parsed(risk.liquidation_price@) == Some(l@) && l@.units() != 0,
        p.liquidation_price is None ==> (decimal::parsed(risk.liquidation_price@) matches Some(l) ==> l.units() == 0),
        leverage.contains_key(p.key) ==> p.leverage@ == leverage[p.key]@,
        !leverage.contains_key(p.key) ==> p.leverage@ == Dec::one(),
        p.key.exchange == Exchange::Aster,
        p.key.instrument_type == InstrumentType::Swap,
        exists|i: Instrument| #[trigger]
            instruments.contains(i) && i.key == p.key && i.exchange_symbol@ == risk.symbol@,
{
    registry::known_goes_by(instruments, Exchange::Aster, risk.symbol@, InstrumentType::Swap);
    decimal_laws::units_have_sign(p.size@);
    zero_means_no_units(decimal::parsed(risk.liquidation_price@));
}

/// A funding rate has each number from the field of that name; the mark price stands for the index
/// price too.
pub proof fn premium_is_as_written(s: FundingRateSnapshot, index: AsterPremiumIndex, pair: Pairs, interval: FundingInterval)
    requires
        mappers::premium_rate(index, pair, interval) == Some(s.facts()),
    ensures
        s.key.exchange == Exchange::Aster,
        s.key.pair == pair,
        s.key.instrument_type == InstrumentType::Swap,
        s.interval == interval,
        s.funding_rate@ == index.last_funding_rate@,
        s.mark_price@ == index.mark_price@,
        s.index_price@ == index.mark_price@,
        s.interest_rate is None,
        index.next_funding_time <= i64::MAX ==> s.next_funding_time_ms == index.next_funding_time
            && s.next_funding_time_utc@ == index.next_funding_time * 1_000_000,
        index.time <= i64::MAX ==> s.event_time_ms == index.time && s.event_time_utc@ == index.time * 1_000_000,
{
}

/// A history whose times can all be read has a point for each entry, in the same order.
pub proof fn history_is_as_written(points: Seq<FundingRatePoint>, history: Seq<AsterFundingRateHistory>)
    requires
        common::point_views(points) == mappers::history_points(history),
        forall|i: int|
            0 <= i < history.len() ==> common::time_of(common::signed_millis((#[trigger] history[i]).funding_time))
                is Some,
    ensures
        points.len() == history.len(),
        forall|i: int|
            0 <= i < history.len() ==> (#[trigger] points[i]).funding_rate@ == history[i].funding_rate@ && (
            history[i].funding_time <= i64::MAX ==> points[i].event_time_ms == history[i].funding_time
                && points[i].event_time_utc@ == history[i].funding_time * 1_000_000),
    decreases history.len(),
{
    assert(points.len() == common::point_views(points).len());
    if history.len() > 0 {
        let front = history.drop_last();
        assert forall|i: int| 0 <= i < front.len() implies common::time_of(
            common::signed_millis((#[trigger] front[i]).funding_time),
        ) is Some by {
            assert(front[i] == history[i]);
        }
        assert(common::time_of(common::signed_millis(history[history.len() - 1].funding_time)) is Some);
        assert(mappers::history_points(history).len() == mappers::history_points(front).len() + 1);
        assert(common::point_views(points.drop_last()) =~= common::point_views(points).drop_last());
        assert(common::point_views(points).drop_last() =~= mappers::history_points(front));
        history_is_as_written(points.drop_last(), front);
        assert(common::point_views(points).last() == points.last().facts());
        assert forall|i: int| 0 <= i < history.len() implies (#[trigger] points[i]).funding_rate@
            == history[i].funding_rate@ && (history[i].funding_time <= i64::MAX ==> points[i].event_time_ms
            == history[i].funding_time && points[i].event_time_utc@ == history[i].funding_time * 1_000_000) by {
            if i < history.len() - 1 {
                assert(points.drop_last()[i] == points[i]);
                assert(front[i] == history[i]);
            } else {
                assert(points[i] == points.last());
            }
        }
    }
}

/// The bids of a depth message are the bids of its book and the asks its asks, each with its price
/// and quantity; the best prices are the first of each side.
pub proof fn depth_is_as_told(book: OrderBookSnapshot, depth: AsterPartialDepth, key: InstrumentKey, timestamp_ms: i64)
    requires
        mappers::is_depth_book(Some(book), depth, key, timestamp_ms),
    ensures
        book.key == key,
        book.timestamp_ms == timestamp_ms,
        book.bids@.len() == depth.bids@.len(),
        book.asks@.len() == depth.asks@.len(),
        forall|i: int|
            0 <= i < depth.bids@.len() ==> (#[trigger] book.bids@[i]).price == depth.bids@[i].0 && book.bids@[i].quantity
                == depth.bids@[i].1,
        forall|i: int|
            0 <= i < depth.asks@.len() ==> (#[trigger] book.asks@[i]).price == depth.asks@[i].0 && book.asks@[i].quantity
                == depth.asks@[i].1,
        depth.bids@.len() > 0 ==> (book.best_bid matches Some(b) && b@ == depth.bids@[0].0@),
        depth.asks@.len() > 0 ==> (book.best_ask matches Some(a) && a@ == depth.asks@[0].0@),
        depth.bids@.len() == 0 ==> book.best_bid is None,
        depth.asks@.len() == 0 ==> book.best_ask is None,
        depth.message_time matches Some(ms) ==> (ms <= i64::MAX ==> book.timestamp_utc@ == ms * 1_000_000),
        depth.message_time is None ==> book.timestamp_utc@ == timestamp_ms * 1_000_000,
{
}

/// The step of prices is what the last filter on prices says.
pub proof fn last_price_filter_counts(filters: Seq<AsterFilter>, k: int)
    requires
        0 <= k < filters.len(),
        filters[k] is PriceFilter,
        forall|j: int| k < j < filters.len() ==> !((#[trigger] filters[j]) is PriceFilter),
    ensures
        types::filter_tick(filters) == filters[k]->tick_size@,
    decreases filters.len(),
{
    if k < filters.len() - 1 {
        assert(!(filters[filters.len() - 1] is PriceFilter));
        assert(filters.drop_last()[k] == filters[k]);
        last_price_filter_counts(filters.drop_last(), k);
    }
}

/// The step of quantities is what the last filter on quantities says.
pub proof fn last_quantity_filter_counts(filters: Seq<AsterFilter>, k: int)
    requires
        0 <= k < filters.len(),
        filters[k] is LotSize,
        forall|j: int| k < j < filters.len() ==> !((#[trigger] filters[j]) is LotSize),
    ensures
        types::filter_step(filters) == filters[k]->step_size@,
    decreases filters.len(),
{
    if k < filters.len() - 1 {
        assert(!(filters[filters.len() - 1] is LotSize));
        assert(filters.drop_last()[k] == filters[k]);
        last_quantity_filter_counts(filters.drop_last(), k);
    }
}

/// The least worth of an order is what the last filter on it says.
pub proof fn last_worth_filter_counts(filters: Seq<AsterFilter>, k: int)
    requires
        0 <= k < filters.len(),
        filters[k] is MinNotional,
        forall|j: int| k < j < filters.len() ==> !((#[trigger] filters[j]) is MinNotional),
    ensures
        types::filter_notional(filters) == Some(filters[k]->notional@),
    decreases filters.len(),
{
    if k < filters.len() - 1 {
        assert(!(filters[filters.len() - 1] is MinNotional));
        assert(filters.drop_last()[k] == filters[k]);
        last_worth_filter_counts(filters.drop_last(), k);
    }
}

/// A future has the steps of its own filters, neither of them zero, and pays funding as often as
/// the exchange says.
pub proof fn future_is_as_listed(i: Instrument, info: AsterSymbolInfo, hours: Option<u8>)
    requires
        types::swap_of(info, hours) matches Some(swap) && i.facts() == swap.instrument(Exchange::Aster),
    ensures
        i.key.exchange == Exchange::Aster,
        i.key.instrument_type == InstrumentType::Swap,
        Pairs::named(info.pair@) == Some(i.key.pair),
        i.exchange_symbol@ == info.symbol@,
        i.exchange_id@ == info.symbol@,
        i.tick_size@ == types::filter_tick(info.filters@),
        i.lot_size@ == types::filter_step(info.filters@),
        decimal::view_opt(i.min_notional) == types::filter_notional(info.filters@),
        i.tick_size@.units() != 0,
        i.lot_size@.units() != 0,
        i.contract_size matches Some(size) && size@ == Dec::one(),
        i.multiplier@ == Dec::one(),
        i.funding_interval == Some(FundingInterval::EveryHour) <==> hours == Some(1u8),
        i.funding_interval == Some(FundingInterval::Every4Hours) <==> hours == Some(4u8),
        i.funding_interval == Some(FundingInterval::Every8Hours) <==> hours == Some(8u8),
        i.funding_interval is None <==> hours != Some(1u8) && hours != Some(4u8) && hours != Some(8u8),
{
    decimal_laws::units_have_sign(i.tick_size@);
    decimal_laws::units_have_sign(i.lot_size@);
}

/// The hours between two payments of a symbol are what the last entry for it says.
pub proof fn last_entry_tells_hours(funding: Seq<AsterFundingInfo>, symbol: Seq<char>, k: int)
    requires
        0 <= k < funding.len(),
        funding[k].symbol@ == symbol,
        forall|j: int| k < j < funding.len() ==> (#[trigger] funding[j]).symbol@ != symbol,
    ensures
        client::hours_of(funding, symbol) == Some(funding[k].funding_interval_hours),
    decreases funding.len(),
{
    if k < funding.len() - 1 {
        assert(funding[funding.len() - 1].symbol@ != symbol);
        assert(funding.drop_last()[k] == funding[k]);
        last_entry_tells_hours(funding.drop_last(), symbol, k);
    }
}

} // verus!
