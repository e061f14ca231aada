use vstd::arithmetic::power;
use vstd::prelude::*;

use crate::config::types::FatFingerConfig;
use crate::decimal;
use crate::decimal::{Dec, MAX_SCALE};
use crate::decimal_laws;
use crate::errors::TradingError;
use crate::fill_laws;
use crate::kinds::{Exchange, OrderType};
use crate::manager::order;
use crate::manager::order::{Guard, OrderManager, Preparation};
use crate::orders::OrderRequest;
use crate::text;
use crate::types;
use crate::types::Instrument;

verus! {

/// How far two numbers are apart, in units.
pub open spec fn distance(a: Dec, b: Dec) -> int {
    fill_laws::magnitude(a.units() - b.units())
}

/// A price whose distance from the mid-price is `percent` of the mid-price, which is `ratio` of it,
/// with no digit lost on the way.
pub open spec fn is_percent_away(price: Dec, mid: Dec, ratio: Dec, percent: Dec) -> bool {
    &&& price.wf()
    &&& mid.wf()
    &&& ratio.wf()
    &&& percent.wf()
    &&& mid.units() != 0
    &&& price.exact_difference(mid) is Some
    &&& ratio.units() * mid.units() == distance(price, mid) * fill_laws::one_in_units()
    &&& percent.units() == 100 * ratio.units()
}

/// The deviation of a price is how many percent of the mid-price it lies away from it, above or
/// below.
pub proof fn deviation_is_distance(price: Dec, mid: Dec, ratio: Dec, percent: Dec)
    requires
        is_percent_away(price, mid, ratio, percent),
    ensures
        order::deviation_pct(price, mid) matches Some(d) && d.units() == percent.units() && d.units() * mid.units()
            == 100 * distance(price, mid) * fill_laws::one_in_units() && (mid.units() > 0 ==> d.units() >= 0),
{
    let z = fill_laws::one_in_units();
    power::lemma_pow_positive(10, MAX_SCALE as nat);
    decimal_laws::difference_units(price, mid);
    let d = price.difference(mid)->0;
    decimal_laws::abs_units(d);
    decimal_laws::units_have_sign(mid);
    assert(ratio.is_quotient(d.abs(), mid));
    decimal_laws::quotient_is_exact(d.abs(), mid);
    let q = d.abs().quotient(mid)->0;
    let (x, y, m) = (q.units(), ratio.units(), mid.units());
    assert(x == y) by (nonlinear_arith)
        requires
            x * m == y * m,
            m != 0,
    ;
    let hundred = Dec::hundred();
    assert(hundred.units() == 100 * z);
    let p = percent.units();
    assert(p * z == x * (100 * z)) by (nonlinear_arith)
        requires
            p == 100 * x,
    ;
    assert(percent.is_product(q, hundred));
    decimal_laws::product_units(q, hundred);
    let r = q.product(hundred)->0;
    let u = r.units();
    assert(u == p) by (nonlinear_arith)
        requires
            u * z == p * z,
            z > 0,
    ;
    let w = distance(price, mid);
    assert(p * m == 100 * w * z) by (nonlinear_arith)
        requires
            p == 100 * y,
            y * m == w * z,
    ;
    if m > 0 {
        assert(p >= 0) by (nonlinear_arith)
            requires
                p == 100 * y,
                y * m == w * z,
                w >= 0,
                z > 0,
                m > 0,
        ;
    }
}

/// Prices that lie equally far above and below the mid-price have the same deviation.
pub proof fn deviation_has_two_sides(above: Dec, below: Dec, mid: Dec)
    requires
        above.difference(mid) is Some,
        below.difference(mid) == Some((above.difference(mid)->0).neg()),
    ensures
        order::deviation_pct(above, mid) == order::deviation_pct(below, mid),
{
    let d = above.difference(mid)->0;
    assert(d.neg().abs() == d.abs());
}

/// The price of an order that passes the limits lies in the band around the mid-price: not below
/// the mid-price less the largest deviation, and not above the mid-price and the largest deviation.
pub proof fn passing_price_is_in_band(
    limits: FatFingerConfig,
    req: OrderRequest,
    price: Dec,
    mid: Dec,
    ratio: Dec,
    percent: Dec,
)
    requires
        order::guard(limits, req, Some(mid)) is Pass,
        decimal::view_opt(req.price) == Some(price),
        mid.units() > 0,
        is_percent_away(price, mid, ratio, percent),
    ensures
        ({
            let hundred = 100 * fill_laws::one_in_units();
            let max = limits.max_price_deviation_pct@.units();
            mid.units() * (hundred - max) <= hundred * price.units() <= mid.units() * (hundred + max)
        }),
{
    deviation_is_distance(price, mid, ratio, percent);
    let z = fill_laws::one_in_units();
    let max = limits.max_price_deviation_pct@.units();
    let (m, p, w, d) = (mid.units(), price.units(), distance(price, mid), percent.units());
    power::lemma_pow_positive(10, MAX_SCALE as nat);
    let k = 100 * z;
    assert(w * k <= max * m) by (nonlinear_arith)
        requires
            d * m == 100 * w * z,
            k == 100 * z,
            d <= max,
            m > 0,
    ;
    assert((p - m) * k <= w * k && (m - p) * k <= w * k) by (nonlinear_arith)
        requires
            p - m <= w,
            m - p <= w,
            k > 0,
    ;
    assert((p - m) * k == k * p - m * k && (m - p) * k == m * k - k * p) by (nonlinear_arith);
    assert(m * (k - max) == m * k - max * m && m * (k + max) == m * k + max * m) by (nonlinear_arith);
}

/// An order that the manager lets pass has a price in the band around the mid-price of the book that
/// the manager holds, on both sides.
pub proof fn manager_keeps_the_band(m: OrderManager, req: OrderRequest, price: Dec, mid: Dec, ratio: Dec, percent: Dec)
    requires
        call_ensures(OrderManager::checked_fat_finger, (&m, &req), Some(Ok(()))),
        m.books().contains_key(req.key),
        decimal::view_opt(m.books()[req.key].mid) == Some(mid),
        decimal::view_opt(req.price) == Some(price),
        mid.units() > 0,
        is_percent_away(price, mid, ratio, percent),
    ensures
        ({
            let hundred = 100 * fill_laws::one_in_units();
            let max = m.limits().max_price_deviation_pct@.units();
            mid.units() * (hundred - max) <= hundred * price.units() <= mid.units() * (hundred + max)
        }),
        req.size@.units() <= m.limits().max_order_size@.units(),
{
    passing_price_is_in_band(m.limits(), req, price, mid, ratio, percent);
}

/// An order that is refused for its price is out of the band, by as much as the refusal says.
pub proof fn refused_price_is_out_of_band(
    limits: FatFingerConfig,
    req: OrderRequest,
    price: Dec,
    mid: Dec,
    ratio: Dec,
    percent: Dec,
)
    requires
        order::guard(limits, req, Some(mid)) is BandViolated,
        decimal::view_opt(req.price) == Some(price),
        mid.units() > 0,
        is_percent_away(price, mid, ratio, percent),
    ensures
        order::guard(limits, req, Some(mid)) matches Guard::BandViolated(d) && d.units() == percent.units(),
        limits.max_price_deviation_pct@.units() * mid.units() < 100 * distance(price, mid)
            * fill_laws::one_in_units(),
{
    deviation_is_distance(price, mid, ratio, percent);
    let (max, m, d) = (limits.max_price_deviation_pct@.units(), mid.units(), percent.units());
    assert(max * m < d * m) by (nonlinear_arith)
        requires
            max < d,
            m > 0,
    ;
}

/// An order that passes is neither larger nor worth more than the limits allow, and takes what is
/// on offer unless it is a limit order that says otherwise.
pub proof fn passing_order_is_within_limits(
    limits: FatFingerConfig,
    req: OrderRequest,
    mid: Option<Dec>,
    reference: Dec,
)
    requires
        order::guard(limits, req, mid) is Pass,
        match req.price {
            Some(price) => reference == price@,
            None => mid == Some(reference),
        },
        req.size@.wf(),
        reference.wf(),
        reference.multiplies_exactly(req.size@),
    ensures
        req.size@.units() <= limits.max_order_size@.units(),
        reference.units() * req.size@.units() <= limits.max_order_notional_usd@.units() * fill_laws::one_in_units(),
        req.post_only ==> req.order_type == OrderType::Limit,
        req.price is Some ==> mid is Some && (mid->0).units() != 0,
{
    let z = fill_laws::one_in_units();
    power::lemma_pow_positive(10, MAX_SCALE as nat);
    decimal_laws::product_units(reference, req.size@);
    let v = reference.product(req.size@)->0;
    let (x, max) = (v.units(), limits.max_order_notional_usd@.units());
    assert(x * z <= max * z) by (nonlinear_arith)
        requires
            x <= max,
            z > 0,
    ;
    if mid is Some {
        decimal_laws::units_have_sign(mid->0);
    }
}

/// An order with a price that is within every limit passes.
pub proof fn priced_order_within_limits_passes(
    limits: FatFingerConfig,
    req: OrderRequest,
    price: Dec,
    mid: Dec,
    ratio: Dec,
    percent: Dec,
)
    requires
        decimal::view_opt(req.price) == Some(price),
        req.post_only ==> req.order_type == OrderType::Limit,
        req.size@.wf(),
        req.size@.units() <= limits.max_order_size@.units(),
        price.multiplies_exactly(req.size@),
        price.units() * req.size@.units() <= limits.max_order_notional_usd@.units() * fill_laws::one_in_units(),
        mid.units() > 0,
        is_percent_away(price, mid, ratio, percent),
        100 * distance(price, mid) * fill_laws::one_in_units() <= limits.max_price_deviation_pct@.units()
            * mid.units(),
    ensures
        order::guard(limits, req, Some(mid)) is Pass,
{
    let z = fill_laws::one_in_units();
    power::lemma_pow_positive(10, MAX_SCALE as nat);
    decimal_laws::product_units(price, req.size@);
    let v = price.product(req.size@)->0;
    let (x, top) = (v.units(), limits.max_order_notional_usd@.units());
    assert(x <= top) by (nonlinear_arith)
        requires
            x * z <= top * z,
            z > 0,
    ;
    deviation_is_distance(price, mid, ratio, percent);
    decimal_laws::units_have_sign(mid);
    let (max, m, d) = (limits.max_price_deviation_pct@.units(), mid.units(), percent.units());
    assert(d <= max) by (nonlinear_arith)
        requires
            d * m <= max * m,
            m > 0,
    ;
}

/// An order without a price that is within the limits at the mid-price passes.
pub proof fn unpriced_order_within_limits_passes(limits: FatFingerConfig, req: OrderRequest, mid: Dec)
    requires
        req.price is None,
        req.post_only ==> req.order_type == OrderType::Limit,
        req.size@.wf(),
        mid.wf(),
        req.size@.units() <= limits.max_order_size@.units(),
        mid.multiplies_exactly(req.size@),
        mid.units() * req.size@.units() <= limits.max_order_notional_usd@.units() * fill_laws::one_in_units(),
    ensures
        order::guard(limits, req, Some(mid)) is Pass,
{
    let z = fill_laws::one_in_units();
    power::lemma_pow_positive(10, MAX_SCALE as nat);
    decimal_laws::product_units(mid, req.size@);
    let v = mid.product(req.size@)->0;
    let (x, top) = (v.units(), limits.max_order_notional_usd@.units());
    assert(x <= top) by (nonlinear_arith)
        requires
            x * z <= top * z,
            z > 0,
    ;
}

/// A refusal names what was asked for and the limit that it is above.
pub proof fn refusal_names_what_is_too_much(
    limits: FatFingerConfig,
    req: OrderRequest,
    mid: Option<Dec>,
    r: Result<(), TradingError>,
)
    requires
        order::answers_guard(r, order::guard(limits, req, mid), limits, req),
    ensures
        r is Ok <==> order::guard(limits, req, mid) is Pass,
        r matches Err(TradingError::MaxOrderSizeExceeded { requested, max }) ==> requested == req.size && max
            == limits.max_order_size && max@.units() < requested@.units(),
        r matches Err(TradingError::MaxNotionalExceeded { requested, max }) ==> max == limits.max_order_notional_usd
            && max@.units() < requested@.units(),
        r matches Err(TradingError::PriceBandViolation { deviation_pct, max_pct }) ==> max_pct
            == limits.max_price_deviation_pct && max_pct@.units() < deviation_pct@.units(),
        r matches Err(TradingError::InvalidPostOnly) ==> req.post_only && req.order_type != OrderType::Limit,
{
}

/// A request that goes out is the one that was made, but for its size and its price, and is worth
/// nothing or as much as the instrument asks for.
pub proof fn accepted_request_is_the_one_made(
    limits: FatFingerConfig,
    instrument: Instrument,
    req: OrderRequest,
    mid: Option<Dec>,
    out: OrderRequest,
)
    requires
        order::prepares(limits, Some(instrument), req, mid, Preparation::Accepted(out)),
    ensures
        out.key == req.key,
        out.strategy_id == req.strategy_id,
        out.side == req.side,
        out.order_type == req.order_type,
        out.post_only == req.post_only,
        out.reduce_only == req.reduce_only,
        out.price is Some <==> req.price is Some,
        out.size@.units() <= limits.max_order_size@.units(),
        instrument.min_notional matches Some(min) ==> (out.price matches Some(price) ==> (price@.wf() && out.size@.wf()
            && price@.multiplies_exactly(out.size@) ==> price@.units() * out.size@.units() == 0 || min@.units()
            * fill_laws::one_in_units() <= price@.units() * out.size@.units())),
{
    if instrument.min_notional is Some && out.price is Some && (out.price->0)@.wf() && out.size@.wf()
        && (out.price->0)@.multiplies_exactly(out.size@) {
        worth_is_zero_or_enough((instrument.min_notional->0)@, (out.price->0)@, out.size@);
    }
}

/// An order may be placed if and only if it is worth nothing or at least the minimum.
pub proof fn worth_is_zero_or_enough(min: Dec, price: Dec, quantity: Dec)
    requires
        price.wf(),
        quantity.wf(),
        price.multiplies_exactly(quantity),
    ensures
        types::notional_valid(Some(min), price, quantity) == Some(
            price.units() * quantity.units() == 0 || min.units() * fill_laws::one_in_units() <= price.units()
                * quantity.units(),
        ),
{
    let z = fill_laws::one_in_units();
    power::lemma_pow_positive(10, MAX_SCALE as nat);
    decimal_laws::product_units(price, quantity);
    let v = price.product(quantity)->0;
    decimal_laws::units_have_sign(v);
    let (x, m) = (v.units(), min.units());
    assert((x * z == 0 <==> x == 0) && (m * z <= x * z <==> m <= x)) by (nonlinear_arith)
        requires
            z > 0,
    ;
}

/// Orders of one strategy at one time are told apart by their running number.
pub proof fn running_number_tells_orders_apart(
    strategy: Seq<char>,
    timestamp_ms: i64,
    exchange: Exchange,
    first: u32,
    second: u32,
)
    requires
        first != second,
    ensures
        order::order_id(strategy, timestamp_ms, exchange, first) != order::order_id(
            strategy,
            timestamp_ms,
            exchange,
            second,
        ),
{
    let front = strategy + seq!['-'] + text::signed_digits(timestamp_ms as int) + seq!['-'] + exchange.code() + seq!['-'];
    let a = text::digits(first as nat);
    let b = text::digits(second as nat);
    text::digits_are_digits(first as nat);
    text::digits_are_digits(second as nat);
    let x = order::order_id(strategy, timestamp_ms, exchange, first);
    let y = order::order_id(strategy, timestamp_ms, exchange, second);
    assert(x =~= front + a);
    assert(y =~= front + b);
    assert(x.skip(front.len() as int) =~= a);
    assert(y.skip(front.len() as int) =~= b);
}

} // verus!
