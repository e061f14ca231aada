use vstd::prelude::*;

use crate::decimal::{Dec, Decimal};
use crate::decimal_laws;
use crate::errors::TradingError;
use crate::fill_laws;
use crate::kinds::{InstrumentType, OrderSide, OrderStatus};
use crate::manager::position;
use crate::manager::position::{PollStep, PositionManager};
use crate::orders::{Order, OrderEvent, Position};
use crate::text;
use crate::types::InstrumentKey;

verus! {

/// How much of an order was filled when it was last seen, in units.
pub open spec fn seen_units(fills: Map<Seq<char>, Decimal>, id: Seq<char>) -> int {
    if fills.contains_key(id) {
        fills[id]@.units()
    } else {
        0
    }
}

/// How much is held of an instrument, in units: above zero what was bought, below zero what was
/// sold.
pub open spec fn held_units(positions: Map<InstrumentKey, Position>, key: InstrumentKey) -> int {
    if positions.contains_key(key) {
        positions[key].size@.units()
    } else {
        0
    }
}

/// What an order counts for: all of it that is filled, bought above zero and sold below.
pub open spec fn order_units(order: Order) -> int {
    match order.request.side {
        OrderSide::Buy => order.filled_size@.units(),
        OrderSide::Sell => -order.filled_size@.units(),
    }
}

/// A position moves by what was filled since the order was last seen: up where it buys, down where
/// it sells.
pub proof fn only_news_moves_size(m: PositionManager, order: Order, size: Dec, entry: Dec, fill: Dec)
    requires
        m.moved(order) == Some((size, entry)),
        order.filled_size@.wf(),
        position::seen_fill(m.fills(), order.internal_id@).wf(),
        order.filled_size@.exact_difference(position::seen_fill(m.fills(), order.internal_id@)) == Some(fill),
        fill_laws::size_is_exact(position::held(m.positions(), order.request.key).0, order.request.side, fill),
    ensures
        order.request.side == OrderSide::Buy ==> size.units() - held_units(m.positions(), order.request.key)
            == order.filled_size@.units() - seen_units(m.fills(), order.internal_id@),
        order.request.side == OrderSide::Sell ==> held_units(m.positions(), order.request.key) - size.units()
            == order.filled_size@.units() - seen_units(m.fills(), order.internal_id@),
{
    let seen = position::seen_fill(m.fills(), order.internal_id@);
    let (old_size, old_entry) = position::held(m.positions(), order.request.key);
    decimal_laws::units_have_sign(Dec::zero());
    decimal_laws::difference_units(order.filled_size@, seen);
    fill_laws::fill_moves_size(old_size, old_entry, order.request.side, fill, position::fill_price(order));
}

/// An order that is not done is remembered as far as it is filled, and one that is done is
/// forgotten. Other orders are remembered as before.
pub proof fn fills_are_remembered(fills: Map<Seq<char>, Decimal>, order: Order, other: Seq<char>)
    requires
        other != order.internal_id@,
    ensures
        order.status == OrderStatus::Filled ==> seen_units(
            position::fills_after(fills, order),
            order.internal_id@,
        ) == 0,
        order.status != OrderStatus::Filled ==> seen_units(
            position::fills_after(fills, order),
            order.internal_id@,
        ) == order.filled_size@.units(),
        seen_units(position::fills_after(fills, order), other) == seen_units(fills, other),
{
}

/// Two reports on one order move a position as the later one alone does: what the first one told
/// does not count twice.
pub proof fn fills_do_not_count_twice(
    m: PositionManager,
    first: Order,
    after_first: PositionManager,
    p: Position,
    second: Order,
    size: Dec,
    entry: Dec,
    fill: Dec,
    later_fill: Dec,
)
    requires
        first.status == OrderStatus::PartiallyFilled,
        second.internal_id@ == first.internal_id@,
        second.request.key == first.request.key,
        second.request.side == first.request.side,
        !m.fills().contains_key(first.internal_id@),
        p.key == first.request.key,
        m.moved(first) == Some((p.size@, p.entry_price@)),
        after_first.positions() == position::kept(m.positions(), p),
        after_first.fills() == position::fills_after(m.fills(), first),
        after_first.moved(second) == Some((size, entry)),
        first.filled_size@.wf(),
        second.filled_size@.wf(),
        first.filled_size@.exact_difference(Dec::zero()) == Some(fill),
        second.filled_size@.exact_difference(first.filled_size@) == Some(later_fill),
        fill_laws::size_is_exact(position::held(m.positions(), first.request.key).0, first.request.side, fill),
        fill_laws::size_is_exact(
            position::held(after_first.positions(), first.request.key).0,
            first.request.side,
            later_fill,
        ),
    ensures
        size.units() - held_units(m.positions(), first.request.key) == order_units(second),
{
    only_news_moves_size(m, first, p.size@, p.entry_price@, fill);
    only_news_moves_size(after_first, second, size, entry, later_fill);
    decimal_laws::units_have_sign(p.size@);
}

/// What is kept of a position that is put in: the position itself, unless nothing is held. The
/// others stay as they were.
pub proof fn kept_position_is_the_one_put_in(positions: Map<InstrumentKey, Position>, p: Position, other: InstrumentKey)
    requires
        other != p.key,
    ensures
        held_units(position::kept(positions, p), p.key) == p.size@.units(),
        position::kept(positions, p).contains_key(p.key) <==> p.size@.units() != 0,
        p.size@.units() != 0 ==> position::kept(positions, p)[p.key] == p,
        position::kept(positions, p).contains_key(other) <==> positions.contains_key(other),
        positions.contains_key(other) ==> position::kept(positions, p)[other] == positions[other],
{
    decimal_laws::units_have_sign(p.size@);
}

/// Of a list of positions the last one on an instrument counts.
pub proof fn last_listed_position_counts(list: Seq<Position>, k: int)
    requires
        0 <= k < list.len(),
        forall|j: int| k < j < list.len() ==> (#[trigger] list[j]).key != list[k].key,
    ensures
        held_units(position::all_kept(list), list[k].key) == list[k].size@.units(),
    decreases list.len(),
{
    decimal_laws::units_have_sign(list[k].size@);
    if k < list.len() - 1 {
        assert(list[list.len() - 1].key != list[k].key);
        assert(list.drop_last()[k] == list[k]);
        last_listed_position_counts(list.drop_last(), k);
    }
}

/// Only a fill moves a position, and never one of spot.
pub proof fn only_fills_move_positions(event: OrderEvent)
    ensures
        position::moves_position(event) ==> event.order().request.key.instrument_type != InstrumentType::Spot,
        position::moves_position(event) ==> event.order().status == OrderStatus::Filled || event.order().status
            == OrderStatus::PartiallyFilled,
        event.order().request.key.instrument_type != InstrumentType::Spot && event == OrderEvent::of(event.order()) && (
        event.order().status == OrderStatus::Filled || event.order().status == OrderStatus::PartiallyFilled)
            ==> position::moves_position(event),
{
}

/// A report is news just where more or less is filled than was seen.
pub proof fn news_is_a_change_of_fill(m: PositionManager, order: Order)
    requires
        order.filled_size@.wf(),
        position::seen_fill(m.fills(), order.internal_id@).wf(),
        order.filled_size@.exact_difference(position::seen_fill(m.fills(), order.internal_id@)) is Some,
    ensures
        m.is_news(order) <==> order.filled_size@.units() != seen_units(m.fills(), order.internal_id@),
{
    let seen = position::seen_fill(m.fills(), order.internal_id@);
    decimal_laws::units_have_sign(Dec::zero());
    decimal_laws::difference_units(order.filled_size@, seen);
    decimal_laws::units_have_sign(order.filled_size@.difference(seen)->0);
}

/// A reply with positions is taken over; a failure is asked again, but for an exchange that has no
/// positions to fetch, which is asked once more and then no more.
pub proof fn positions_are_asked_for_again(
    positions: Vec<Position>,
    error: TradingError,
    taken: PollStep,
    failed: PollStep,
    failed_again: PollStep,
)
    requires
        call_ensures(position::poll_step, (false, Ok(positions)), taken),
        call_ensures(position::poll_step, (true, Err(error)), failed),
        call_ensures(position::poll_step, (false, Err(error)), failed_again),
    ensures
        taken == PollStep::Sync(positions),
        failed is Retry <==> failed_again is Retry,
        failed is Retry || failed is Skip,
        failed is Skip <==> failed_again is Stop,
        failed is Skip <==> text::has_part(error.text(), "not implemented"@),
{
}

/// A fill is priced as the exchange tells, and at nothing where it does not tell.
pub proof fn fill_is_priced_as_told(order: Order)
    ensures
        order.avg_fill_price matches Some(p) ==> position::fill_price(order) == p@,
        order.avg_fill_price is None ==> position::fill_price(order).units() == 0,
{
    decimal_laws::units_have_sign(Dec::zero());
}

} // verus!
