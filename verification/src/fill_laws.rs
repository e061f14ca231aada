use vstd::arithmetic::power;
use vstd::prelude::*;

use crate::decimal::{Dec, MAX_SCALE};
use crate::decimal_laws;
use crate::kinds::{OrderSide, OrderStatus};
use crate::orders;
use crate::orders::{Order, OrderEvent};

verus! {

/// How many units there are to one.
pub open spec fn one_in_units() -> int {
    power::pow(10, MAX_SCALE as nat)
}

/// The size of a number in units.
pub open spec fn magnitude(units: int) -> int {
    if units < 0 {
        -units
    } else {
        units
    }
}

/// What a fill adds to a position, in units: what is bought adds, what is sold takes away.
pub open spec fn change(side: OrderSide, fill: Dec) -> int {
    match side {
        OrderSide::Buy => fill.units(),
        OrderSide::Sell => -fill.units(),
    }
}

/// The other side.
pub open spec fn other_side(side: OrderSide) -> OrderSide {
    match side {
        OrderSide::Buy => OrderSide::Sell,
        OrderSide::Sell => OrderSide::Buy,
    }
}

/// A fill whose direction a sum can take in without rounding.
pub open spec fn size_is_exact(size: Dec, side: OrderSide, fill: Dec) -> bool {
    &&& size.wf()
    &&& fill.wf()
    &&& side == OrderSide::Buy ==> size.exact_sum(fill) is Some
    &&& side == OrderSide::Sell ==> size.exact_sum(fill.neg()) is Some
}

/// A fill whose average with what is held is a number, reached without rounding.
pub open spec fn average_is_exact(size: Dec, entry: Dec, fill: Dec, price: Dec, average: Dec) -> bool {
    &&& entry.wf()
    &&& price.wf()
    &&& average.wf()
    &&& size.abs().multiplies_exactly(entry)
    &&& fill.multiplies_exactly(price)
    &&& (size.abs().product(entry)->0).exact_sum(fill.product(price)->0) is Some
    &&& average.units() * (magnitude(size.units()) + fill.units()) == magnitude(size.units()) * entry.units()
        + fill.units() * price.units()
}

/// A fill moves the size of a position by exactly what was bought or sold.
pub proof fn fill_moves_size(size: Dec, entry: Dec, side: OrderSide, fill: Dec, price: Dec)
    requires
        size_is_exact(size, side, fill),
        orders::after_fill(size, entry, side, fill, price) is Some,
    ensures
        (orders::after_fill(size, entry, side, fill, price)->0).0.units() == size.units() + change(side, fill),
{
    decimal_laws::neg_units(fill);
    match side {
        OrderSide::Buy => decimal_laws::sum_units(size, fill),
        OrderSide::Sell => decimal_laws::sum_units(size, fill.neg()),
    }
}

/// A fill that opens or grows a position leaves it with the average of what was paid: the entry
/// price times the new size is what was held at the old price and what came in at the fill's.
pub proof fn growing_fill_averages(size: Dec, entry: Dec, side: OrderSide, fill: Dec, price: Dec, average: Dec)
    requires
        size_is_exact(size, side, fill),
        average_is_exact(size, entry, fill, price, average),
        fill.units() > 0,
        side == OrderSide::Buy ==> size.units() >= 0,
        side == OrderSide::Sell ==> size.units() <= 0,
    ensures
        orders::after_fill(size, entry, side, fill, price) matches Some((new_size, new_entry)) && new_size.units()
            == size.units() + change(side, fill) && new_entry.units() * magnitude(new_size.units()) == magnitude(
            size.units(),
        ) * entry.units() + fill.units() * price.units(),
{
    let signed = if side == OrderSide::Buy { fill } else { fill.neg() };
    decimal_laws::neg_units(fill);
    decimal_laws::sum_units(size, signed);
    decimal_laws::units_have_sign(size);
    decimal_laws::units_have_sign(fill);
    decimal_laws::units_have_sign(signed);
    decimal_laws::neg_units(size);
    decimal_laws::units_have_sign(size.neg());
    decimal_laws::units_have_sign(signed.neg());
    decimal_laws::neg_units(signed);
    decimal_laws::abs_units(size);
    let new_size = size.sum(signed)->0;
    decimal_laws::units_have_sign(new_size);
    decimal_laws::abs_units(new_size);
    decimal_laws::product_units(size.abs(), entry);
    decimal_laws::product_units(fill, price);
    let held = size.abs().product(entry)->0;
    let added = fill.product(price)->0;
    decimal_laws::sum_units(held, added);
    let total = held.sum(added)->0;
    let z = one_in_units();
    let (h, a) = (held.units(), added.units());
    assert((h + a) * z == h * z + a * z) by (nonlinear_arith);
    assert(average.is_quotient(total, new_size.abs()));
    decimal_laws::quotient_is_exact(total, new_size.abs());
    power::lemma_pow_positive(10, MAX_SCALE as nat);
}

/// The entry price of a position that opens or grows lies between the old one and the fill's.
pub proof fn grown_entry_lies_between(size: Dec, entry: Dec, side: OrderSide, fill: Dec, price: Dec, average: Dec)
    requires
        size_is_exact(size, side, fill),
        average_is_exact(size, entry, fill, price, average),
        fill.units() > 0,
        side == OrderSide::Buy ==> size.units() >= 0,
        side == OrderSide::Sell ==> size.units() <= 0,
    ensures
        orders::after_fill(size, entry, side, fill, price) matches Some((_, new_entry)) && (entry.units()
            <= price.units() ==> entry.units() <= new_entry.units() <= price.units()) && (price.units()
            <= entry.units() ==> price.units() <= new_entry.units() <= entry.units()),
{
    growing_fill_averages(size, entry, side, fill, price, average);
    let after = orders::after_fill(size, entry, side, fill, price)->0;
    let (e, p, n, a, b) = (entry.units(), price.units(), after.1.units(), magnitude(size.units()), fill.units());
    assert((e <= p ==> e <= n && n <= p) && (p <= e ==> p <= n && n <= e)) by (nonlinear_arith)
        requires
            n * (a + b) == a * e + b * p,
            a >= 0,
            b > 0,
    ;
}

/// What a fill does to a short position is the mirror of what it does to a long one.
pub proof fn short_mirrors_long(size: Dec, entry: Dec, side: OrderSide, fill: Dec, price: Dec)
    requires
        size_is_exact(size, side, fill),
    ensures
        match (
            orders::after_fill(size, entry, side, fill, price),
            orders::after_fill(size.neg(), entry, other_side(side), fill, price),
        ) {
            (Some((a, e)), Some((b, f))) => b == a.neg() && f == e,
            (None, None) => true,
            _ => false,
        },
{
    let signed = if side == OrderSide::Buy { fill } else { fill.neg() };
    decimal_laws::sum_of_opposites(size, signed);
    assert(fill.neg().neg() == fill);
    assert(size.neg().abs() == size.abs());
    let n = size.exact_sum(signed)->0;
    assert(n.neg().abs() == n.abs());
}

/// Buying and selling the same amount, one after the other, leaves the size as it was.
pub proof fn opposite_fills_cancel(size: Dec, entry: Dec, side: OrderSide, fill: Dec, price: Dec, back: Dec)
    requires
        size_is_exact(size, side, fill),
        orders::after_fill(size, entry, side, fill, price) is Some,
        ({
            let after = orders::after_fill(size, entry, side, fill, price)->0;
            &&& size_is_exact(after.0, other_side(side), fill)
            &&& orders::after_fill(after.0, after.1, other_side(side), fill, back) is Some
        }),
    ensures
        ({
            let after = orders::after_fill(size, entry, side, fill, price)->0;
            (orders::after_fill(after.0, after.1, other_side(side), fill, back)->0).0.units() == size.units()
        }),
{
    let after = orders::after_fill(size, entry, side, fill, price)->0;
    fill_moves_size(size, entry, side, fill, price);
    fill_moves_size(after.0, after.1, other_side(side), fill, back);
}

/// A fill against a position leaves its entry price alone, unless nothing is left of it.
pub proof fn opposing_fill_keeps_entry(size: Dec, entry: Dec, side: OrderSide, fill: Dec, price: Dec)
    requires
        size_is_exact(size, side, fill),
        fill.units() > 0,
        side == OrderSide::Buy ==> size.units() < 0,
        side == OrderSide::Sell ==> size.units() > 0,
    ensures
        orders::after_fill(size, entry, side, fill, price) matches Some((new_size, new_entry)) && (if new_size.units()
            == 0 {
            new_entry.units() == 0
        } else {
            new_entry == entry
        }),
{
    let signed = if side == OrderSide::Buy { fill } else { fill.neg() };
    decimal_laws::neg_units(fill);
    decimal_laws::sum_units(size, signed);
    decimal_laws::units_have_sign(size);
    decimal_laws::units_have_sign(fill);
    decimal_laws::units_have_sign(signed);
    decimal_laws::neg_units(size);
    decimal_laws::units_have_sign(size.neg());
    decimal_laws::units_have_sign(size.sum(signed)->0);
    decimal_laws::units_have_sign(Dec::zero());
}

/// An event says by its kind where the order of it stands, and loses nothing of the order.
pub proof fn event_tells_status(order: Order)
    ensures
        OrderEvent::of(order) is Filled <==> order.status == OrderStatus::Filled,
        OrderEvent::of(order) is PartiallyFilled <==> order.status == OrderStatus::PartiallyFilled,
        OrderEvent::of(order) is Canceled <==> order.status == OrderStatus::Canceled,
        OrderEvent::of(order) is Rejected <==> order.status == OrderStatus::Rejected,
        OrderEvent::of(order).order() == order,
{
}

/// An order is done if and only if no fill can come any more.
pub proof fn done_orders_are_three(status: OrderStatus)
    ensures
        status.is_final() <==> !(status == OrderStatus::PendingSubmit || status == OrderStatus::New || status
            == OrderStatus::PartiallyFilled),
{
}

/// A report tells how far an order is filled and where it stands; what was asked for, and how the
/// library knows the order, it leaves alone.
pub proof fn report_keeps_request(order: Order, report: Order)
    ensures
        ({
            let after = order.with_exchange_update(report);
            &&& after.request == order.request
            &&& after.internal_id == order.internal_id
            &&& after.client_order_id == order.client_order_id
            &&& after.strategy_id == order.strategy_id
            &&& after.created_at == order.created_at
            &&& after.status == report.status
            &&& after.filled_size == report.filled_size
            &&& after.avg_fill_price == report.avg_fill_price
            &&& after.updated_at == report.updated_at
            &&& order.exchange_order_id is Some ==> after.exchange_order_id == order.exchange_order_id
            &&& order.exchange_order_id is None ==> after.exchange_order_id == report.exchange_order_id
        }),
{
}

/// Of two reports, one after the other, the later one counts.
pub proof fn later_report_counts(order: Order, first: Order, second: Order)
    ensures
        ({
            let after = order.with_exchange_update(first).with_exchange_update(second);
            &&& after.status == second.status
            &&& after.filled_size == second.filled_size
            &&& after.avg_fill_price == second.avg_fill_price
            &&& after.updated_at == second.updated_at
            &&& after.request == order.request
        }),
{
}

} // verus!
