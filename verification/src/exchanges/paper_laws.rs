use vstd::arithmetic::power;
use vstd::prelude::*;

use crate::decimal;
use crate::decimal::{Dec, Decimal, MAX_SCALE};
use crate::decimal_laws;
use crate::exchanges::mock;
use crate::exchanges::mock::{MockExchange, Paper};
use crate::fill_laws;
use crate::kinds::{Currency, OrderSide, OrderStatus, OrderType};
use crate::orders::{Order, OrderRequest};
use crate::time::UtcTime;
use crate::types::{InstrumentKey, OrderBookSnapshot};

verus! {

/// A size that takes a fill in, on its side, without rounding.
pub open spec fn size_is_exact(size: Dec, side: OrderSide, fill: Dec) -> bool {
    &&& size.wf()
    &&& fill.wf()
    &&& side == OrderSide::Buy ==> size.exact_sum(fill) is Some
    &&& side == OrderSide::Sell ==> size.exact_difference(fill) is Some
}

/// A paper purchase raises the size of a position by exactly what was filled, a paper sale lowers
/// it by as much.
pub proof fn paper_fill_moves_size(size: Dec, entry: Dec, side: OrderSide, fill: Dec, price: Dec)
    requires
        size_is_exact(size, side, fill),
        mock::moved(size, entry, side, fill, price) is Some,
    ensures
        (mock::moved(size, entry, side, fill, price)->0).0.units() == size.units() + fill_laws::change(side, fill),
{
    match side {
        OrderSide::Buy => decimal_laws::sum_units(size, fill),
        OrderSide::Sell => decimal_laws::difference_units(size, fill),
    }
}

/// A purchase and a sale of the same size, one after the other, leave the size as it was.
pub proof fn paper_round_trip_keeps_size(size: Dec, entry: Dec, side: OrderSide, fill: Dec, price: Dec, back: Dec)
    requires
        size_is_exact(size, side, fill),
        mock::moved(size, entry, side, fill, price) is Some,
        ({
            let after = mock::moved(size, entry, side, fill, price)->0;
            &&& size_is_exact(after.0, fill_laws::other_side(side), fill)
            &&& mock::moved(after.0, after.1, fill_laws::other_side(side), fill, back) is Some
        }),
    ensures
        ({
            let after = mock::moved(size, entry, side, fill, price)->0;
            (mock::moved(after.0, after.1, fill_laws::other_side(side), fill, back)->0).0.units() == size.units()
        }),
{
    let after = mock::moved(size, entry, side, fill, price)->0;
    paper_fill_moves_size(size, entry, side, fill, price);
    paper_fill_moves_size(after.0, after.1, fill_laws::other_side(side), fill, back);
}

/// A paper position that grows has the average of what was paid as its entry price, and one that a
/// purchase leaves short or flat, or a sale long or flat, keeps the price that it had.
pub proof fn paper_fill_averages(size: Dec, entry: Dec, side: OrderSide, fill: Dec, price: Dec, average: Dec)
    requires
        size_is_exact(size, side, fill),
        fill_laws::average_is_exact(size, entry, fill, price, average),
        fill.units() > 0,
        side == OrderSide::Buy ==> size.units() >= 0,
        side == OrderSide::Sell ==> size.units() <= 0,
    ensures
        mock::moved(size, entry, side, fill, price) matches Some((new_size, new_entry)) && new_size.units()
            == size.units() + fill_laws::change(side, fill) && new_entry.units() * fill_laws::magnitude(
            new_size.units(),
        ) == fill_laws::magnitude(size.units()) * entry.units() + fill.units() * price.units(),
{
    decimal_laws::units_have_sign(size);
    decimal_laws::neg_units(size);
    decimal_laws::units_have_sign(size.neg());
    decimal_laws::abs_units(size);
    decimal_laws::units_have_sign(Dec::zero());
    match side {
        OrderSide::Buy => {
            decimal_laws::sum_units(size, fill);
            assert(size.abs() == size);
        },
        OrderSide::Sell => decimal_laws::difference_units(size, fill),
    }
    let new_size = if side == OrderSide::Buy { size.sum(fill)->0 } else { size.difference(fill)->0 };
    decimal_laws::units_have_sign(new_size);
    decimal_laws::abs_units(new_size);
    decimal_laws::neg_units(new_size);
    decimal_laws::units_have_sign(new_size.neg());
    let whole = if side == OrderSide::Buy { new_size } else { new_size.abs() };
    decimal_laws::product_units(size.abs(), entry);
    decimal_laws::product_units(fill, price);
    let held = size.abs().product(entry)->0;
    let added = fill.product(price)->0;
    decimal_laws::sum_units(held, added);
    let total = held.sum(added)->0;
    let z = fill_laws::one_in_units();
    let (h, a) = (held.units(), added.units());
    assert((h + a) * z == h * z + a * z) by (nonlinear_arith);
    assert(average.is_quotient(total, whole));
    decimal_laws::quotient_is_exact(total, whole);
}

/// A paper fill that leaves a position on the side that it was on before, or flat, and takes away
/// from it, leaves the entry price as it was.
pub proof fn paper_reduction_keeps_entry(size: Dec, entry: Dec, side: OrderSide, fill: Dec, price: Dec)
    requires
        size_is_exact(size, side, fill),
        fill.units() > 0,
        side == OrderSide::Buy ==> size.units() + fill.units() <= 0,
        side == OrderSide::Sell ==> size.units() - fill.units() >= 0,
    ensures
        mock::moved(size, entry, side, fill, price) matches Some((_, new_entry)) && new_entry == entry,
{
    decimal_laws::units_have_sign(Dec::zero());
    match side {
        OrderSide::Buy => decimal_laws::sum_units(size, fill),
        OrderSide::Sell => decimal_laws::difference_units(size, fill),
    }
}

/// A purchase that turns a short paper position long blends the prices with the short size counted
/// below zero: entry price times size is what the short came to and what was paid, added up.
pub proof fn paper_purchase_past_flat(size: Dec, entry: Dec, fill: Dec, price: Dec, average: Dec)
    requires
        size_is_exact(size, OrderSide::Buy, fill),
        size.units() + fill.units() > 0,
        entry.wf(),
        price.wf(),
        average.wf(),
        size.multiplies_exactly(entry),
        fill.multiplies_exactly(price),
        (size.product(entry)->0).exact_sum(fill.product(price)->0) is Some,
        average.units() * (size.units() + fill.units()) == size.units() * entry.units() + fill.units() * price.units(),
    ensures
        mock::moved(size, entry, OrderSide::Buy, fill, price) matches Some((new_size, new_entry)) && new_size.units() > 0
            && new_entry.units() * new_size.units() == size.units() * entry.units() + fill.units() * price.units(),
{
    decimal_laws::units_have_sign(Dec::zero());
    decimal_laws::sum_units(size, fill);
    let new_size = size.sum(fill)->0;
    decimal_laws::units_have_sign(new_size);
    decimal_laws::product_units(size, entry);
    decimal_laws::product_units(fill, price);
    let held = size.product(entry)->0;
    let added = fill.product(price)->0;
    decimal_laws::sum_units(held, added);
    let total = held.sum(added)->0;
    let z = fill_laws::one_in_units();
    let (h, a) = (held.units(), added.units());
    assert((h + a) * z == h * z + a * z) by (nonlinear_arith);
    assert(average.is_quotient(total, new_size));
    decimal_laws::quotient_is_exact(total, new_size);
}

/// A sale that turns a long paper position short blends the prices with both sizes counted above
/// zero.
pub proof fn paper_sale_past_flat(size: Dec, entry: Dec, fill: Dec, price: Dec, average: Dec)
    requires
        size_is_exact(size, OrderSide::Sell, fill),
        size.units() >= 0,
        size.units() - fill.units() < 0,
        entry.wf(),
        price.wf(),
        average.wf(),
        size.multiplies_exactly(entry),
        fill.multiplies_exactly(price),
        (size.product(entry)->0).exact_sum(fill.product(price)->0) is Some,
        average.units() * (fill.units() - size.units()) == size.units() * entry.units() + fill.units() * price.units(),
    ensures
        mock::moved(size, entry, OrderSide::Sell, fill, price) matches Some((new_size, new_entry)) && new_size.units() < 0
            && new_entry.units() * -new_size.units() == size.units() * entry.units() + fill.units() * price.units(),
{
    decimal_laws::units_have_sign(Dec::zero());
    decimal_laws::units_have_sign(size);
    decimal_laws::difference_units(size, fill);
    assert(size.abs() == size);
    let new_size = size.difference(fill)->0;
    decimal_laws::units_have_sign(new_size);
    decimal_laws::abs_units(new_size);
    decimal_laws::product_units(size, entry);
    decimal_laws::product_units(fill, price);
    let held = size.product(entry)->0;
    let added = fill.product(price)->0;
    decimal_laws::sum_units(held, added);
    let total = held.sum(added)->0;
    let z = fill_laws::one_in_units();
    let (h, a) = (held.units(), added.units());
    assert((h + a) * z == h * z + a * z) by (nonlinear_arith);
    assert(average.is_quotient(total, new_size.abs()));
    decimal_laws::quotient_is_exact(total, new_size.abs());
}

/// A fill leaves every other position and every other balance as it was, and the open orders too.
pub proof fn paper_fill_leaves_the_rest(
    after: MockExchange,
    before: MockExchange,
    request: OrderRequest,
    price: Dec,
    other: InstrumentKey,
    currency: Currency,
)
    requires
        after.filled_from(before, request, price),
        other != request.key,
        currency != Currency::USDT,
    ensures
        after.position_of(other) == before.position_of(other),
        after.holds().balances@.contains_key(currency) <==> before.holds().balances@.contains_key(currency),
        before.holds().balances@.contains_key(currency) ==> after.holds().balances@[currency]
            == before.holds().balances@[currency],
        after.holds().open_orders@ == before.holds().open_orders@,
{
}

/// A paper order that is filled is filled whole and at the price; one that rests is new, and
/// nothing of it is filled. Either way it is the order that was asked for.
pub proof fn paper_order_is_the_one_asked_for(
    order: Order,
    request: OrderRequest,
    client_order_id: Seq<char>,
    exchange_order_id: Seq<char>,
    filled: Option<Dec>,
    now: UtcTime,
)
    requires
        MockExchange::is_paper_order(order, request, client_order_id, exchange_order_id, filled, now),
    ensures
        order.request == request,
        order.strategy_id@ == request.strategy_id@,
        order.client_order_id@ == client_order_id,
        order.exchange_order_id matches Some(id) && id@ == exchange_order_id,
        filled is Some <==> order.status == OrderStatus::Filled,
        filled is None <==> order.status == OrderStatus::New,
        filled matches Some(price) ==> order.filled_size@.units() == request.size@.units() && (
        order.avg_fill_price matches Some(p) && p@ == price),
        filled is None ==> order.filled_size@.units() == 0 && order.avg_fill_price is None,
{
    decimal_laws::units_have_sign(Dec::zero());
}

/// Growing a paper short gives the same entry price as growing the long that mirrors it.
pub proof fn paper_short_mirrors_long(size: Dec, entry: Dec, fill: Dec, price: Dec)
    requires
        size.units() >= 0,
        fill.units() > 0,
        size_is_exact(size, OrderSide::Buy, fill),
    ensures
        match (
            mock::moved(size, entry, OrderSide::Buy, fill, price),
            mock::moved(size.neg(), entry, OrderSide::Sell, fill, price),
        ) {
            (Some((a, e)), Some((b, f))) => b == a.neg() && f == e,
            (None, None) => true,
            _ => false,
        },
{
    decimal_laws::units_have_sign(size);
    decimal_laws::sum_units(size, fill);
    decimal_laws::sum_of_opposites(size, fill);
    let n = size.exact_sum(fill)->0;
    decimal_laws::units_have_sign(n);
    decimal_laws::neg_units(n);
    decimal_laws::units_have_sign(Dec::zero());
    assert(size.neg().abs() == size);
    assert(n.neg().abs() == n);
}

/// What a purchase costs leaves the balance, what a sale brings comes in: total and free balance
/// move by exactly the value, and alike.
pub proof fn paper_fill_pays_its_worth(total: Dec, free: Dec, side: OrderSide, notional: Dec)
    requires
        size_is_exact(total, fill_laws::other_side(side), notional),
        size_is_exact(free, fill_laws::other_side(side), notional),
    ensures
        mock::paid(total, free, side, notional) matches Some((t, f)) && t.units() == total.units()
            - fill_laws::change(side, notional) && f.units() == free.units() - fill_laws::change(side, notional),
{
    match side {
        OrderSide::Buy => {
            decimal_laws::difference_units(total, notional);
            decimal_laws::difference_units(free, notional);
        },
        OrderSide::Sell => {
            decimal_laws::sum_units(total, notional);
            decimal_laws::sum_units(free, notional);
        },
    }
}

/// After a fill the paper account holds so much more or less of the instrument, and so much less or
/// more money: the size times the price.
pub proof fn paper_fill_exchanges_money_for_size(
    after: MockExchange,
    before: MockExchange,
    request: OrderRequest,
    price: Dec,
    worth: Dec,
)
    requires
        after.filled_from(before, request, price),
        before.holds().balances@.contains_key(Currency::USDT),
        price.wf(),
        worth.wf(),
        worth.units() * fill_laws::one_in_units() == request.size@.units() * price.units(),
        ({
            let b = before.holds().balances@[Currency::USDT];
            let notional = request.size@.product(price)->0;
            &&& size_is_exact(b.total@, fill_laws::other_side(request.side), notional)
            &&& size_is_exact(b.free@, fill_laws::other_side(request.side), notional)
        }),
        size_is_exact(before.position_of(request.key).0, request.side, request.size@),
        mock::moved(
            before.position_of(request.key).0,
            before.position_of(request.key).1,
            request.side,
            request.size@,
            price,
        ) is Some,
    ensures
        after.holds().positions@.contains_key(request.key),
        after.holds().positions@[request.key].size@.units() == before.position_of(request.key).0.units()
            + fill_laws::change(request.side, request.size@),
        after.holds().balances@[Currency::USDT].total@.units() == before.holds().balances@[Currency::USDT].total@.units()
            - fill_laws::change(request.side, worth),
        after.holds().balances@[Currency::USDT].free@.units() == before.holds().balances@[Currency::USDT].free@.units()
            - fill_laws::change(request.side, worth),
{
    let was = before.position_of(request.key);
    paper_fill_moves_size(was.0, was.1, request.side, request.size@, price);
    let b = before.holds().balances@[Currency::USDT];
    assert(worth.is_product(request.size@, price));
    decimal_laws::product_units(request.size@, price);
    let notional = request.size@.product(price)->0;
    let z = fill_laws::one_in_units();
    power::lemma_pow_positive(10, MAX_SCALE as nat);
    let (x, y) = (notional.units(), worth.units());
    assert(x == y) by (nonlinear_arith)
        requires
            x * z == y * z,
            z > 0,
    ;
    paper_fill_pays_its_worth(b.total@, b.free@, request.side, notional);
}

/// A purchase is filled at the lowest price that is asked, a sale at the highest that is bid.
pub proof fn paper_fill_is_at_the_book(mock: MockExchange, request: OrderRequest, book: OrderBookSnapshot)
    requires
        mock.outcome(request, book) is Fills,
    ensures
        mock.outcome(request, book) matches Paper::Fills(price) && (request.side == OrderSide::Buy
            ==> decimal::view_opt(book.best_ask) == Some(price)) && (request.side == OrderSide::Sell
            ==> decimal::view_opt(book.best_bid) == Some(price)),
{
}

/// A limit order that may take what is on offer rests only where the book asks more, or bids less,
/// than its own price.
pub proof fn resting_limit_is_worse_than_the_book(
    mock: MockExchange,
    request: OrderRequest,
    book: OrderBookSnapshot,
    own: Decimal,
)
    requires
        mock.outcome(request, book) is Rests,
        request.order_type == OrderType::Limit,
        !request.post_only,
        request.price == Some(own),
    ensures
        request.side == OrderSide::Buy ==> (decimal::view_opt(book.best_ask) matches Some(ask) && own@.units()
            < ask.units()),
        request.side == OrderSide::Sell ==> (decimal::view_opt(book.best_bid) matches Some(bid) && bid.units()
            < own@.units()),
{
}

/// Only a purchase is refused for want of money, and only where what it costs is more than is free.
pub proof fn only_dear_purchases_are_refused(
    request: OrderRequest,
    price: Option<Dec>,
    balance: Option<(Dec, Dec)>,
    position: (Dec, Dec),
)
    requires
        mock::paper(request, price, balance, position) is TooPoor,
    ensures
        request.side == OrderSide::Buy,
        mock::paper(request, price, balance, position) matches Paper::TooPoor(needed, there) && (balance matches Some(b)
            ==> there == b.1 && there.units() < needed.units()) && (balance is None ==> there.units() == 0),
{
    decimal_laws::units_have_sign(Dec::zero());
}

/// A purchase that what is free pays for is not refused for want of money, and a sale never is.
pub proof fn covered_order_is_not_refused(
    request: OrderRequest,
    price: Dec,
    total: Dec,
    free: Dec,
    position: (Dec, Dec),
    worth: Dec,
)
    requires
        request.size@.product(price) == Some(worth),
        worth.units() <= free.units() || request.side == OrderSide::Sell,
    ensures
        !(mock::paper(request, Some(price), Some((total, free)), position) is TooPoor),
        request.order_type == OrderType::Market && mock::paid(total, free, request.side, worth) is Some && mock::moved(
            position.0,
            position.1,
            request.side,
            request.size@,
            price,
        ) is Some ==> mock::paper(request, Some(price), Some((total, free)), position) == Paper::Fills(price),
{
}

} // verus!
