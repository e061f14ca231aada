use vstd::prelude::*;

use crate::decimal;
use crate::decimal::Dec;
use crate::decimal_laws;
use crate::exchanges::bybit::client;
use crate::exchanges::bybit::client::BybitOrderBody;
use crate::exchanges::bybit::mappers;
use crate::exchanges::bybit::types;
use crate::exchanges::bybit::types::{
    BybitAccountEntry, BybitCoinBalance, BybitFundingRateEntry, BybitInstrumentInfo, BybitLinearTicker, BybitOrderBookResult,
    BybitOrderEntry, BybitPositionEntry, BybitWsOrderUpdate, BybitWsPositionUpdate,
};
use crate::exchanges::codec;
use crate::exchanges::common;
use crate::exchanges::reading_laws;
use crate::kinds::{
    Currency, Exchange, FundingInterval, InstrumentType, OrderSide, OrderStatus, OrderType, Pairs,
};
use crate::manager::position::WsPositionPatch;
use crate::manager::types::{BalanceView, CollateralScope};
use crate::orders::{Order, OrderEvent, OrderRequest, Position};
use crate::registry;
use crate::text;
use crate::time;
use crate::time::UtcTime;
use crate::types::{FundingRatePoint, FundingRateSnapshot, Instrument, InstrumentKey, OrderBookSnapshot};

verus! {

/// The words for the two sides are not the same.
proof fn side_words_differ()
    ensures
        "Buy"@ != "Sell"@,
{
    reveal_strlit("Buy");
    reveal_strlit("Sell");
    assert("Buy"@.len() != "Sell"@.len());
}

/// A side is what it says, and nothing else is a side.
pub proof fn side_is_what_it_says(s: Seq<char>)
    ensures
        mappers::named_side(s) == Some(OrderSide::Buy) <==> s == "Buy"@,
        mappers::named_side(s) == Some(OrderSide::Sell) <==> s == "Sell"@,
{
    side_words_differ();
}

/// A kind of order is what it says: only what is called a limit order is one.
pub proof fn kind_is_what_it_says(s: Seq<char>)
    ensures
        mappers::named_type(s) == OrderType::Limit <==> s == "Limit"@,
        mappers::named_type(s) == OrderType::Market <==> s != "Limit"@,
{
}

/// A state is what it says, and nothing else is a state.
pub proof fn status_is_what_it_says(s: Seq<char>)
    ensures
        mappers::named_status(s) == Some(OrderStatus::New) <==> s == "New"@ || s == "Untriggered"@,
        mappers::named_status(s) == Some(OrderStatus::PartiallyFilled) <==> s == "PartiallyFilled"@,
        mappers::named_status(s) == Some(OrderStatus::Filled) <==> s == "Filled"@,
        mappers::named_status(s) == Some(OrderStatus::Canceled) <==> s == "Cancelled"@ || s == "Deactivated"@ || s
            == "Expired"@,
        mappers::named_status(s) == Some(OrderStatus::Rejected) <==> s == "Rejected"@,
        mappers::named_status(s) != Some(OrderStatus::PendingSubmit),
{
    reveal_strlit("New");
    reveal_strlit("Untriggered");
    reveal_strlit("PartiallyFilled");
    reveal_strlit("Filled");
    reveal_strlit("Cancelled");
    reveal_strlit("Deactivated");
    reveal_strlit("Expired");
    reveal_strlit("Rejected");
    assert("New"@.len() == 3 && "PartiallyFilled"@.len() == 15 && "Filled"@.len() == 6 && "Expired"@.len() == 7);
    assert("Untriggered"@.len() == 11 && "Deactivated"@.len() == 11 && "Untriggered"@[0] == 'U' && "Deactivated"@[0]
        == 'D');
    assert("Cancelled"@.len() == 9 && "Rejected"@.len() == 8);
}

/// The side that a body asks for is the side of the request: whoever reads the word as the words
/// of the exchange's own orders are read finds it again.
pub proof fn body_side_reads_back(body: BybitOrderBody, i: Instrument, request: OrderRequest, client_order_id: Seq<char>)
    requires
        client::is_order_body(body, i, request, client_order_id),
    ensures
        mappers::named_side(body.side@) == Some(request.side),
        body.side@ == "Buy"@ <==> request.side == OrderSide::Buy,
        body.side@ == "Sell"@ <==> request.side == OrderSide::Sell,
{
    side_words_differ();
}

/// The bodies of a purchase and of a sale name different sides, whatever else they ask for.
pub proof fn purchase_is_no_sale(
    purchase: BybitOrderBody,
    bought: OrderRequest,
    sale: BybitOrderBody,
    sold: OrderRequest,
    i: Instrument,
    j: Instrument,
    purchase_id: Seq<char>,
    sale_id: Seq<char>,
)
    requires
        bought.side == OrderSide::Buy,
        sold.side == OrderSide::Sell,
        client::is_order_body(purchase, i, bought, purchase_id),
        client::is_order_body(sale, j, sold, sale_id),
    ensures
        purchase.side@ != sale.side@,
{
    side_words_differ();
}

/// The kind that a body asks for: a market order is called one, and every other order reads back
/// as a limit order.
pub proof fn body_kind_reads_back(body: BybitOrderBody, i: Instrument, request: OrderRequest, client_order_id: Seq<char>)
    requires
        client::is_order_body(body, i, request, client_order_id),
    ensures
        body.order_type@ == "Market"@ <==> request.order_type == OrderType::Market,
        body.order_type@ == "Limit"@ <==> request.order_type != OrderType::Market,
        mappers::named_type(body.order_type@) == OrderType::Market <==> request.order_type == OrderType::Market,
{
    reveal_strlit("Market");
    reveal_strlit("Limit");
    assert("Market"@.len() != "Limit"@.len());
}

/// How long a body asks its order to be good. An order that must not take what is on offer always
/// says so, and no other order does; a market order is not good for any time.
pub proof fn body_time_in_force(body: BybitOrderBody, i: Instrument, request: OrderRequest, client_order_id: Seq<char>)
    requires
        client::is_order_body(body, i, request, client_order_id),
    ensures
        (body.time_in_force matches Some(word) && word@ == "PostOnly"@) <==> (request.post_only || request.order_type
            == OrderType::PostOnly),
        (body.time_in_force matches Some(word) && word@ == "GTC"@) <==> (request.order_type == OrderType::Limit
            && !request.post_only),
        body.time_in_force is None <==> (request.order_type == OrderType::Market && !request.post_only),
{
    reveal_strlit("PostOnly");
    reveal_strlit("GTC");
    assert("PostOnly"@.len() != "GTC"@.len());
}

/// A body is about the instrument, under the identifier that was given; it has a price just where
/// the request has one, and reduces a position just where the request says so.
pub proof fn body_keeps_request(body: BybitOrderBody, i: Instrument, request: OrderRequest, client_order_id: Seq<char>)
    requires
        client::is_order_body(body, i, request, client_order_id),
    ensures
        body.category@ == "linear"@,
        body.symbol@ == i.exchange_symbol@,
        body.order_link_id@ == client_order_id,
        body.price is Some <==> request.price is Some,
        body.reduce_only == request.reduce_only,
{
}

/// The order of an entry is the one that the entry tells of, field by field: its size is what was
/// asked for, its filled size is what was executed.
pub proof fn entry_is_told(o: Order, entry: BybitOrderEntry, key: InstrumentKey, now: int)
    requires
        common::order_is(
            Some(o),
            mappers::told_order(entry.said(), decimal::parsed(entry.cum_exec_qty@), key, now),
        ),
    ensures
        decimal::parsed(entry.qty@) == Some(o.request.size@),
        decimal::parsed(entry.cum_exec_qty@) == Some(o.filled_size@),
        o.request.side == OrderSide::Buy <==> entry.side@ == "Buy"@,
        o.request.side == OrderSide::Sell <==> entry.side@ == "Sell"@,
        o.request.order_type == OrderType::Limit <==> entry.order_type@ == "Limit"@,
        o.request.order_type == OrderType::Market <==> entry.order_type@ != "Limit"@,
        o.status == OrderStatus::New <==> entry.order_status@ == "New"@ || entry.order_status@ == "Untriggered"@,
        o.status == OrderStatus::PartiallyFilled <==> entry.order_status@ == "PartiallyFilled"@,
        o.status == OrderStatus::Filled <==> entry.order_status@ == "Filled"@,
        o.status == OrderStatus::Canceled <==> entry.order_status@ == "Cancelled"@ || entry.order_status@
            == "Deactivated"@ || entry.order_status@ == "Expired"@,
        o.status == OrderStatus::Rejected <==> entry.order_status@ == "Rejected"@,
        o.request.price matches Some(p) ==> decimal::parsed(entry.price@) == Some(p@) && p@.units() != 0,
        o.request.price is None ==> (decimal::parsed(entry.price@) matches Some(p) ==> p.units() == 0),
        o.avg_fill_price matches Some(p) ==> decimal::parsed(entry.avg_price@) == Some(p@) && p@.units() != 0,
        o.avg_fill_price is None ==> (decimal::parsed(entry.avg_price@) matches Some(p) ==> p.units() == 0),
        o.request.key == key,
        o.request.reduce_only == entry.reduce_only,
        !o.request.post_only,
        o.client_order_id@ == entry.order_link_id@,
        o.internal_id@ == entry.order_link_id@,
        o.exchange_order_id matches Some(id) && id@ == entry.order_id@,
        o.strategy_id@ == o.request.strategy_id@,
        o.strategy_id@ == codec::strategy_or_none(entry.order_link_id@),
        mappers::written_time(entry.created_time@) matches Some(t) ==> o.created_at@ == t,
        mappers::written_time(entry.created_time@) is None ==> o.created_at@ == now,
        mappers::written_time(entry.updated_time@) matches Some(t) ==> o.updated_at@ == t,
        mappers::written_time(entry.updated_time@) is None ==> o.updated_at@ == o.created_at@,
{
    side_is_what_it_says(entry.side@);
    status_is_what_it_says(entry.order_status@);
    zero_means_no_units(entry.price@);
    zero_means_no_units(entry.avg_price@);
}

/// An entry is an order just where its side, its state and both of its quantities can be read.
pub proof fn entry_is_read(entry: BybitOrderEntry, key: InstrumentKey, now: int)
    ensures
        common::order_is(
            None,
            mappers::told_order(entry.said(), decimal::parsed(entry.cum_exec_qty@), key, now),
        ) <==> mappers::named_side(entry.side@) is None || mappers::named_status(entry.order_status@) is None
            || decimal::parsed(entry.qty@) is None || decimal::parsed(entry.cum_exec_qty@) is None,
{
}

/// Where an entry tells that no more was executed than was asked for, its order has no more filled
/// than its size.
pub proof fn entry_fills_no_more_than_its_size(o: Order, entry: BybitOrderEntry, key: InstrumentKey, now: int)
    requires
        common::order_is(
            Some(o),
            mappers::told_order(entry.said(), decimal::parsed(entry.cum_exec_qty@), key, now),
        ),
        decimal::parsed(entry.cum_exec_qty@) matches Some(executed) && (decimal::parsed(entry.qty@) matches Some(asked)
            && executed.units() <= asked.units()),
    ensures
        o.filled_size@.units() <= o.request.size@.units(),
{
}

/// A number that is zero has no units, and every other one has some.
proof fn zero_means_no_units(s: Seq<char>)
    ensures
        decimal::parsed(s) matches Some(d) ==> (d.is_zero() <==> d.units() == 0),
{
    if let Some(d) = decimal::parsed(s) {
        decimal_laws::units_have_sign(d);
    }
}

/// The order of a streamed update is the one that the update tells of, field by field.
pub proof fn update_is_told(event: OrderEvent, update: BybitWsOrderUpdate, key: InstrumentKey, now: int)
    requires
        common::event_is(
            Some(event),
            mappers::told_order(
                update.said(),
                Some(common::or_zero(decimal::parsed(update.cum_exec_qty@))),
                key,
                now,
            ),
        ),
    ensures
        decimal::parsed(update.qty@) == Some(event.order().request.size@),
        decimal::parsed(update.cum_exec_qty@) matches Some(executed) ==> event.order().filled_size@ == executed,
        decimal::parsed(update.cum_exec_qty@) is None ==> event.order().filled_size@.units() == 0,
        event.order().request.side == OrderSide::Buy <==> update.side@ == "Buy"@,
        event.order().request.side == OrderSide::Sell <==> update.side@ == "Sell"@,
        event.order().request.order_type == OrderType::Limit <==> update.order_type@ == "Limit"@,
        event.order().request.order_type == OrderType::Market <==> update.order_type@ != "Limit"@,
        event.order().status == OrderStatus::New <==> update.order_status@ == "New"@ || update.order_status@
            == "Untriggered"@,
        event.order().status == OrderStatus::PartiallyFilled <==> update.order_status@ == "PartiallyFilled"@,
        event.order().status == OrderStatus::Filled <==> update.order_status@ == "Filled"@,
        event.order().status == OrderStatus::Canceled <==> update.order_status@ == "Cancelled"@ || update.order_status@
            == "Deactivated"@ || update.order_status@ == "Expired"@,
        event.order().status == OrderStatus::Rejected <==> update.order_status@ == "Rejected"@,
        event.order().request.price matches Some(p) ==> decimal::parsed(update.price@) == Some(p@) && p@.units() != 0,
        event.order().avg_fill_price matches Some(p) ==> decimal::parsed(update.avg_price@) == Some(p@) && p@.units()
            != 0,
        event.order().avg_fill_price is None ==> (decimal::parsed(update.avg_price@) matches Some(p) ==> p.units() == 0),
        event.order().request.price is None ==> (decimal::parsed(update.price@) matches Some(p) ==> p.units() == 0),
        event.order().request.key == key,
        event.order().request.reduce_only == update.reduce_only,
        !event.order().request.post_only,
        event.order().client_order_id@ == update.order_link_id@,
        event.order().internal_id@ == update.order_link_id@,
        event.order().exchange_order_id matches Some(id) && id@ == update.order_id@,
        event.order().strategy_id@ == event.order().request.strategy_id@,
        event.order().strategy_id@ == codec::strategy_or_none(update.order_link_id@),
        mappers::written_time(update.created_time@) matches Some(t) ==> event.order().created_at@ == t,
        mappers::written_time(update.created_time@) is None ==> event.order().created_at@ == now,
        mappers::written_time(update.updated_time@) matches Some(t) ==> event.order().updated_at@ == t,
        mappers::written_time(update.updated_time@) is None ==> event.order().updated_at@ == event.order().created_at@,
{
    side_is_what_it_says(update.side@);
    status_is_what_it_says(update.order_status@);
    zero_means_no_units(update.price@);
    zero_means_no_units(update.avg_price@);
    decimal_laws::units_have_sign(Dec::zero());
}

/// A position has the size that the exchange lists, above zero where it was bought and below zero
/// where it was sold; its prices are the ones that are listed under their names.
pub proof fn position_is_listed(p: Position, entry: BybitPositionEntry, key: InstrumentKey)
    requires
        common::position_is(Some(p), mappers::listed_position(entry, key)),
    ensures
        entry.side@ == "Buy"@ || entry.side@ == "Sell"@,
        decimal::parsed(entry.size@) matches Some(size) && {
            &&& size.units() != 0
            &&& entry.side@ == "Buy"@ ==> p.size@.units() == size.units()
            &&& entry.side@ == "Sell"@ ==> p.size@.units() == -size.units()
        },
        p.key == key,
        decimal::parsed(entry.avg_price@) == Some(p.entry_price@),
        decimal::parsed(entry.unrealised_pnl@) == Some(p.unrealized_pnl@),
        decimal::parsed(entry.leverage@) matches Some(l) ==> p.leverage@ == l,
        decimal::parsed(entry.leverage@) is None ==> p.leverage@ == Dec::one(),
        p.liquidation_price matches Some(l) ==> decimal::parsed(entry.liq_price@) == Some(l@) && l@.units() != 0,
        p.liquidation_price is None ==> (decimal::parsed(entry.liq_price@) matches Some(l) ==> l.units() == 0),
{
    side_words_differ();
    zero_means_no_units(entry.size@);
    zero_means_no_units(entry.liq_price@);
    if let Some(size) = decimal::parsed(entry.size@) {
        decimal_laws::neg_units(size);
    }
}

/// A streamed change of a position tells the size with its sign; where no side is known the
/// position is closed. A price or profit that cannot be read counts as zero.
pub proof fn patch_is_told(p: WsPositionPatch, update: BybitWsPositionUpdate, key: InstrumentKey)
    requires
        common::patch_is(Some(p), mappers::told_patch(update, key)),
    ensures
        decimal::parsed(update.size@) matches Some(size) && {
            &&& update.side@ == "Buy"@ ==> p.size@.units() == size.units()
            &&& update.side@ == "Sell"@ ==> p.size@.units() == -size.units()
            &&& update.side@ != "Buy"@ && update.side@ != "Sell"@ ==> p.size@.units() == 0
        },
        p.key == key,
        decimal::parsed(update.entry_price@) matches Some(e) ==> p.entry_price@ == e,
        decimal::parsed(update.entry_price@) is None ==> p.entry_price@.units() == 0,
        decimal::parsed(update.unrealised_pnl@) matches Some(u) ==> p.unrealized_pnl@ == u,
        decimal::parsed(update.unrealised_pnl@) is None ==> p.unrealized_pnl@.units() == 0,
{
    side_words_differ();
    decimal_laws::units_have_sign(Dec::zero());
    if let Some(size) = decimal::parsed(update.size@) {
        decimal_laws::neg_units(size);
    }
}

/// A position in the list of an account is on the instrument that goes by its symbol, and has the
/// leverage that was set for it, else the one that the exchange tells.
pub proof fn account_position_is_listed(
    p: Position,
    instruments: Seq<Instrument>,
    leverage: Map<InstrumentKey, decimal::Decimal>,
    entry: BybitPositionEntry,
)
    requires
        common::position_is(Some(p), client::listed_position(instruments, leverage, entry)),
    ensures
        p.key.exchange == Exchange::Bybit,
        p.key.instrument_type == InstrumentType::Swap,
        exists|i: Instrument| #[trigger]
            instruments.contains(i) && i.key == p.key && i.exchange_symbol@ == entry.symbol@,
        decimal::parsed(entry.size@) matches Some(size) && {
            &&& entry.side@ == "Buy"@ ==> p.size@.units() == size.units()
            &&& entry.side@ == "Sell"@ ==> p.size@.units() == -size.units()
        },
        decimal::parsed(entry.avg_price@) == Some(p.entry_price@),
        decimal::parsed(entry.unrealised_pnl@) == Some(p.unrealized_pnl@),
        leverage.contains_key(p.key) ==> p.leverage@ == leverage[p.key]@,
        !leverage.contains_key(p.key) ==> (decimal::parsed(entry.leverage@) matches Some(l) ==> p.leverage@ == l),
{
    registry::known_goes_by(instruments, Exchange::Bybit, entry.symbol@, InstrumentType::Swap);
    side_words_differ();
    if let Some(size) = decimal::parsed(entry.size@) {
        decimal_laws::neg_units(size);
    }
}

/// A streamed change tells the same as the list of positions: the same size, side, price and profit
/// give the same position.
pub proof fn patch_agrees_with_list(
    patch: WsPositionPatch,
    update: BybitWsPositionUpdate,
    p: Position,
    entry: BybitPositionEntry,
    key: InstrumentKey,
)
    requires
        common::patch_is(Some(patch), mappers::told_patch(update, key)),
        common::position_is(Some(p), mappers::listed_position(entry, key)),
        update.size@ == entry.size@,
        update.side@ == entry.side@,
        update.entry_price@ == entry.avg_price@,
        update.unrealised_pnl@ == entry.unrealised_pnl@,
    ensures
        patch.size@ == p.size@,
        patch.entry_price@ == p.entry_price@,
        patch.unrealized_pnl@ == p.unrealized_pnl@,
{
    side_words_differ();
}

/// A funding rate has each number from the field of that name.
pub proof fn ticker_is_as_written(
    s: FundingRateSnapshot,
    ticker: BybitLinearTicker,
    key: InstrumentKey,
    interval: FundingInterval,
    now: int,
)
    requires
        mappers::ticker_rate(ticker, key, interval, now) == Some(s.facts()),
    ensures
        s.key == key,
        s.interval == interval,
        decimal::parsed(ticker.funding_rate@) == Some(s.funding_rate@),
        decimal::parsed(ticker.mark_price@) == Some(s.mark_price@),
        decimal::parsed(ticker.index_price@) == Some(s.index_price@),
        s.interest_rate is None,
        text::unsigned(ticker.next_funding_time@) matches Some(ms) && (ms <= i64::MAX ==> s.next_funding_time_ms == ms
            && s.next_funding_time_utc@ == ms * 1_000_000),
        s.event_time_utc@ == now,
        i64::MIN <= now / 1_000_000 <= i64::MAX ==> s.event_time_ms == now / 1_000_000,
{
}

/// A history whose entries can all be read has a point for each of them, in the same order.
pub proof fn history_is_as_written(points: Seq<FundingRatePoint>, entries: Seq<BybitFundingRateEntry>)
    requires
        common::point_views(points) == mappers::history_points(entries),
        forall|i: int|
            0 <= i < entries.len() ==> decimal::parsed((#[trigger] entries[i]).funding_rate@) is Some
                && mappers::written_time(entries[i].funding_rate_timestamp@) is Some,
    ensures
        points.len() == entries.len(),
        forall|i: int|
            0 <= i < entries.len() ==> decimal::parsed(entries[i].funding_rate@) == Some(
                (#[trigger] points[i]).funding_rate@,
            ) && mappers::written_time(entries[i].funding_rate_timestamp@) == Some(points[i].event_time_utc@),
    decreases entries.len(),
{
    assert(points.len() == common::point_views(points).len());
    if entries.len() > 0 {
        let front = entries.drop_last();
        assert forall|i: int| 0 <= i < front.len() implies decimal::parsed((#[trigger] front[i]).funding_rate@) is Some
            && mappers::written_time(front[i].funding_rate_timestamp@) is Some by {
            assert(front[i] == entries[i]);
        }
        assert(mappers::history_points(entries).len() == mappers::history_points(front).len() + 1);
        assert(points.len() > 0);
        assert(common::point_views(points.drop_last()) =~= common::point_views(points).drop_last());
        assert(common::point_views(points).drop_last() =~= mappers::history_points(front));
        history_is_as_written(points.drop_last(), front);
        assert(common::point_views(points).last() == points.last().facts());
        assert forall|i: int| 0 <= i < entries.len() implies decimal::parsed(entries[i].funding_rate@) == Some(
            (#[trigger] points[i]).funding_rate@,
        ) && mappers::written_time(entries[i].funding_rate_timestamp@) == Some(points[i].event_time_utc@) by {
            if i < entries.len() - 1 {
                assert(points.drop_last()[i] == points[i]);
                assert(front[i] == entries[i]);
            } else {
                assert(points[i] == points.last());
            }
        }
    }
}

/// The levels of a book whose levels can all be read are those that are written, one for one: the
/// first number is the price, the second the quantity.
pub proof fn good_levels_are_as_written(raw: Seq<[String; 2]>)
    requires
        forall|i: int|
            0 <= i < raw.len() ==> decimal::parsed((#[trigger] raw[i])[0]@) is Some && decimal::parsed(raw[i][1]@)
                is Some,
    ensures
        mappers::good_levels(raw).len() == raw.len(),
        forall|i: int|
            0 <= i < raw.len() ==> decimal::parsed(raw[i][0]@) == Some((#[trigger] mappers::good_levels(raw)[i]).0)
                && decimal::parsed(raw[i][1]@) == Some(mappers::good_levels(raw)[i].1),
    decreases raw.len(),
{
    if raw.len() > 0 {
        let front = raw.drop_last();
        assert forall|i: int| 0 <= i < front.len() implies decimal::parsed((#[trigger] front[i])[0]@) is Some
            && decimal::parsed(front[i][1]@) is Some by {
            assert(front[i] == raw[i]);
        }
        good_levels_are_as_written(front);
        let all = mappers::good_levels(raw);
        assert forall|i: int| 0 <= i < raw.len() implies decimal::parsed(raw[i][0]@) == Some((#[trigger] all[i]).0)
            && decimal::parsed(raw[i][1]@) == Some(all[i].1) by {
            if i < raw.len() - 1 {
                assert(front[i] == raw[i]);
                assert(mappers::good_levels(front)[i] == all[i]);
            }
        }
    }
}

/// The bids of an order book are the levels under `b` and its asks those under `a`, each as it is
/// written; the time is the book's own where it tells one.
pub proof fn book_is_as_written(book: OrderBookSnapshot, ob: BybitOrderBookResult, key: InstrumentKey, now_ms: i64)
    requires
        mappers::is_good_book(Some(book), ob, key, now_ms),
        forall|i: int|
            0 <= i < ob.b@.len() ==> decimal::parsed((#[trigger] ob.b@[i])[0]@) is Some && decimal::parsed(ob.b@[i][1]@)
                is Some,
        forall|i: int|
            0 <= i < ob.a@.len() ==> decimal::parsed((#[trigger] ob.a@[i])[0]@) is Some && decimal::parsed(ob.a@[i][1]@)
                is Some,
    ensures
        book.key == key,
        book.bids@.len() == ob.b@.len(),
        book.asks@.len() == ob.a@.len(),
        forall|i: int| 0 <= i < ob.b@.len() ==> reading_laws::is_written(#[trigger] book.bids@[i], ob.b@[i]),
        forall|i: int| 0 <= i < ob.a@.len() ==> reading_laws::is_written(#[trigger] book.asks@[i], ob.a@[i]),
        ob.b@.len() > 0 ==> decimal::view_opt(book.best_bid) == decimal::parsed(ob.b@[0][0]@),
        ob.a@.len() > 0 ==> decimal::view_opt(book.best_ask) == decimal::parsed(ob.a@[0][0]@),
        ob.ts matches Some(ms) ==> (ms <= i64::MAX ==> book.timestamp_ms == ms && book.timestamp_utc@ == ms * 1_000_000),
        ob.ts is None ==> book.timestamp_ms == now_ms && book.timestamp_utc@ == now_ms * 1_000_000,
{
    good_levels_are_as_written(ob.b@);
    good_levels_are_as_written(ob.a@);
    let b = mappers::good_levels(ob.b@);
    let a = mappers::good_levels(ob.a@);
    assert(b.len() == common::level_views(book.bids@).len());
    assert(a.len() == common::level_views(book.asks@).len());
    assert forall|i: int| 0 <= i < ob.b@.len() implies reading_laws::is_written(#[trigger] book.bids@[i], ob.b@[i]) by {
        assert(b[i] == (book.bids@[i].price@, book.bids@[i].quantity@));
    }
    assert forall|i: int| 0 <= i < ob.a@.len() implies reading_laws::is_written(#[trigger] book.asks@[i], ob.a@[i]) by {
        assert(a[i] == (book.asks@[i].price@, book.asks@[i].quantity@));
    }
    if ob.b@.len() > 0 {
        assert(reading_laws::is_written(book.bids@[0], ob.b@[0]));
    }
    if ob.a@.len() > 0 {
        assert(reading_laws::is_written(book.asks@[0], ob.a@[0]));
    }
}

/// A balance tells what the exchange tells, under the same names: what is held, and what of it is
/// locked. It is never zero.
pub proof fn coin_is_as_written(b: BalanceView, coin: BybitCoinBalance, as_of: int)
    requires
        common::balance_is(Ok(Some(b)), client::coin_balance(coin, as_of)),
    ensures
        b.exchange == Exchange::Bybit,
        Currency::named(coin.coin@) == Some(b.asset),
        decimal::parsed(coin.wallet_balance@) == Some(b.total@),
        b.total@.units() != 0,
        decimal::parsed(coin.locked@) matches Some(l) ==> b.locked@ == l,
        decimal::parsed(coin.locked@) is None ==> b.locked@.units() == 0,
        decimal::parsed(coin.unrealised_pnl@) matches Some(u) ==> b.unrealized_pnl@ == u,
        decimal::parsed(coin.unrealised_pnl@) is None ==> b.unrealized_pnl@.units() == 0,
        b.borrowed@.units() == 0,
        b.collateral_scope == CollateralScope::SharedAcrossPartitions,
        b.partition matches Some(part) && part.exchange == Exchange::Bybit && part.kind is Unified && part.account_id
            is None,
        b.as_of_utc@ == as_of,
{
    decimal_laws::units_have_sign(Dec::zero());
    decimal_laws::units_have_sign(b.total@);
}

/// What is free and what is locked make up what is held.
pub proof fn coin_adds_up(b: BalanceView, coin: BybitCoinBalance, as_of: int)
    requires
        common::balance_is(Ok(Some(b)), client::coin_balance(coin, as_of)),
        b.total@.wf(),
        b.locked@.wf(),
        b.total@.exact_difference(b.locked@) is Some,
    ensures
        b.free@.units() + b.locked@.units() == b.total@.units(),
{
    decimal_laws::difference_units(b.total@, b.locked@);
}

/// A future has the steps that its own filters tell: the step of prices from the price filter, the
/// step of quantities and the least worth from the filter on quantities.
pub proof fn future_is_as_listed(i: Instrument, info: BybitInstrumentInfo)
    requires
        types::swap_of(info) matches Some(swap) && i.facts() == swap.instrument(Exchange::Bybit),
    ensures
        info.contract_type@ == "LinearPerpetual"@,
        i.key.exchange == Exchange::Bybit,
        i.key.instrument_type == InstrumentType::Swap,
        Pairs::named(info.base_coin@ + info.quote_coin@) == Some(i.key.pair),
        i.exchange_symbol@ == info.symbol@,
        i.exchange_id@ == info.symbol@,
        decimal::parsed(info.price_filter.tick_size@) == Some(i.tick_size@),
        decimal::parsed(info.lot_size_filter.qty_step@) == Some(i.lot_size@),
        i.tick_size@.units() != 0,
        i.lot_size@.units() != 0,
        i.min_notional matches Some(least) ==> decimal::parsed(info.lot_size_filter.min_notional_value@) == Some(least@)
            && least@.units() != 0,
        i.min_notional is None ==> (decimal::parsed(info.lot_size_filter.min_notional_value@) matches Some(least)
            ==> least.units() == 0),
        i.contract_size matches Some(size) && size@ == Dec::one(),
        i.multiplier@ == Dec::one(),
        i.funding_interval == Some(FundingInterval::EveryHour) <==> info.funding_interval == 60,
        i.funding_interval == Some(FundingInterval::Every4Hours) <==> info.funding_interval == 240,
        i.funding_interval is None <==> info.funding_interval == 0,
        info.funding_interval == 480 ==> i.funding_interval == Some(FundingInterval::Every8Hours),
{
    decimal_laws::units_have_sign(i.tick_size@);
    decimal_laws::units_have_sign(i.lot_size@);
    zero_means_no_units(info.lot_size_filter.min_notional_value@);
}

/// What is known of an order that was taken back: it is canceled, nothing of it is filled, and it
/// keeps the identifiers that it was known under.
pub proof fn taken_back_is_canceled(o: Order, key: InstrumentKey, order_id: Seq<char>, exchange_order_id: Seq<char>, now: int)
    requires
        o.facts() == client::taken_back(key, order_id, exchange_order_id, now),
    ensures
        o.status == OrderStatus::Canceled,
        o.filled_size@.units() == 0,
        o.request.key == key,
        o.client_order_id@ == order_id,
        o.internal_id@ == order_id,
        o.exchange_order_id matches Some(id) && id@ == exchange_order_id,
        o.created_at@ == now,
        o.updated_at@ == now,
        codec::strategy_in(order_id) matches Some(strategy) ==> o.strategy_id@ == strategy && o.request.strategy_id@
            == strategy,
{
    decimal_laws::units_have_sign(Dec::zero());
}

/// An order that was placed is the one that was asked for, under the identifiers that were given:
/// it is new, and nothing of it is filled.
pub proof fn placed_order_is_new(
    request: OrderRequest,
    client_order_id: String,
    exchange_order_id: String,
    now: UtcTime,
    o: Order,
)
    requires
        call_ensures(client::placed_order, (request, client_order_id, exchange_order_id, now), o),
    ensures
        o.request == request,
        o.status == OrderStatus::New,
        !o.status.is_final(),
        o.filled_size@.units() == 0,
        o.avg_fill_price is None,
        o.client_order_id@ == client_order_id@,
        o.internal_id@ == client_order_id@,
        o.exchange_order_id matches Some(id) && id@ == exchange_order_id@,
        o.created_at == now,
        o.updated_at == now,
{
    decimal_laws::units_have_sign(Dec::zero());
}

/// A time in writing is the number of milliseconds that it writes.
pub proof fn written_time_is_in_milliseconds(s: Seq<char>, ms: u64)
    requires
        text::unsigned(s) == Some(ms),
        ms <= i64::MAX,
    ensures
        time::millis_in_calendar(ms as int) ==> mappers::written_time(s) == Some(ms * 1_000_000),
        !time::millis_in_calendar(ms as int) ==> mappers::written_time(s) is None,
{
}

/// Every coin of every account is among the coins, and no other is.
pub proof fn coins_are_those_of_the_accounts(accounts: Seq<BybitAccountEntry>, coin: BybitCoinBalance)
    ensures
        client::all_coins(accounts).contains(coin) <==> exists|i: int|
            0 <= i < accounts.len() && (#[trigger] accounts[i]).coin@.contains(coin),
    decreases accounts.len(),
{
    if accounts.len() > 0 {
        let front = accounts.drop_last();
        coins_are_those_of_the_accounts(front, coin);
        let (a, b) = (client::all_coins(front), accounts.last().coin@);
        let all = a + b;
        if all.contains(coin) {
            let k = choose|k: int| 0 <= k < all.len() && all[k] == coin;
            if k < a.len() {
                assert(a[k] == coin);
                let i = choose|i: int| 0 <= i < front.len() && (#[trigger] front[i]).coin@.contains(coin);
                assert(accounts[i].coin@.contains(coin));
            } else {
                assert(b[k - a.len()] == coin);
                assert(accounts[accounts.len() - 1].coin@.contains(coin));
            }
        }
        if exists|i: int| 0 <= i < accounts.len() && (#[trigger] accounts[i]).coin@.contains(coin) {
            let i = choose|i: int| 0 <= i < accounts.len() && (#[trigger] accounts[i]).coin@.contains(coin);
            if i < front.len() {
                assert(front[i].coin@.contains(coin));
                let k = choose|k: int| 0 <= k < a.len() && a[k] == coin;
                assert(all[k] == coin);
            } else {
                let k = choose|k: int| 0 <= k < b.len() && b[k] == coin;
                assert(all[a.len() + k] == coin);
            }
        }
    }
}

} // verus!
