use vstd::prelude::*;

use crate::config::types::FatFingerConfig;
use crate::decimal::Dec;
use crate::decimal_laws;
use crate::errors::TradingError;
use crate::fill_laws;
use crate::kinds::OrderStatus;
use crate::manager::limit_laws;
use crate::manager::order;
use crate::manager::order::{OrderManager, Preparation};
use crate::orders::{Order, OrderRequest};
use crate::time::UtcTime;
use crate::types;
use crate::types::{Instrument, InstrumentKey};

verus! {

/// The size of a request that goes out is the largest whole number of lots that is not above the
/// size that was asked for.
pub proof fn accepted_size_is_in_lots(
    limits: FatFingerConfig,
    instrument: Instrument,
    req: OrderRequest,
    mid: Option<Dec>,
    out: OrderRequest,
)
    requires
        order::prepares(limits, Some(instrument), req, mid, Preparation::Accepted(out)),
        instrument.lot_size@.wf(),
        instrument.lot_size@.units() > 0,
        decimal_laws::divides(req.size@, instrument.lot_size@),
        (req.size@.quotient(instrument.lot_size@)->0).floor().multiplies_exactly(instrument.lot_size@),
    ensures
        out.size@.units() <= req.size@.units() < out.size@.units() + instrument.lot_size@.units(),
        exists|n: int| decimal_laws::is_multiple(out.size@, n, instrument.lot_size@),
{
    decimal_laws::units_have_sign(instrument.lot_size@);
    types::normalized_quantity_is_largest(req.size@, instrument.lot_size@);
}

/// The price of a request that goes out is the tick nearest to the price that was asked for.
pub proof fn accepted_price_is_on_tick(
    limits: FatFingerConfig,
    instrument: Instrument,
    req: OrderRequest,
    mid: Option<Dec>,
    out: OrderRequest,
    asked: Dec,
)
    requires
        order::prepares(limits, Some(instrument), req, mid, Preparation::Accepted(out)),
        req.price matches Some(price) && price@ == asked,
        instrument.tick_size@.wf(),
        instrument.tick_size@.units() > 0,
        decimal_laws::divides(asked, instrument.tick_size@),
        (asked.quotient(instrument.tick_size@)->0).round().multiplies_exactly(instrument.tick_size@),
    ensures
        out.price matches Some(price) && (exists|n: int| decimal_laws::is_multiple(price@, n, instrument.tick_size@))
            && -instrument.tick_size@.units() <= 2 * (asked.units() - price@.units()) <= instrument.tick_size@.units(),
{
    decimal_laws::units_have_sign(instrument.tick_size@);
    types::normalized_price_is_nearest(asked, instrument.tick_size@);
}

/// A request is refused as worth too little only where it is worth something, and less than the
/// instrument asks for.
pub proof fn refused_worth_is_too_little(
    limits: FatFingerConfig,
    instrument: Instrument,
    req: OrderRequest,
    mid: Option<Dec>,
    worth: Dec,
    size: Dec,
    price: Dec,
)
    requires
        order::prepares(limits, Some(instrument), req, mid, Preparation::BelowMinNotional(worth)),
        order::normalized_parts(instrument, req) == Some((size, Some(price))),
        size.wf(),
        price.wf(),
        price.multiplies_exactly(size),
    ensures
        instrument.min_notional matches Some(min) && {
            &&& price.units() * size.units() != 0
            &&& price.units() * size.units() < min@.units() * fill_laws::one_in_units()
            &&& worth.units() * fill_laws::one_in_units() == price.units() * size.units()
        },
{
    decimal_laws::product_units(price, size);
    if let Some(min) = instrument.min_notional {
        limit_laws::worth_is_zero_or_enough(min@, price, size);
    }
}

/// A new order is the request as it goes out: it waits for an answer, nothing of it is filled, and
/// the exchange does not know it yet.
pub proof fn pending_order_is_the_request(
    o: Order,
    internal_id: Seq<char>,
    client_order_id: Seq<char>,
    req: OrderRequest,
    now: UtcTime,
)
    requires
        order::is_pending_order(o, internal_id, client_order_id, req, now),
    ensures
        o.request == req,
        o.strategy_id@ == req.strategy_id@,
        o.internal_id@ == internal_id,
        o.client_order_id@ == client_order_id,
        o.status == OrderStatus::PendingSubmit,
        !o.status.is_final(),
        o.filled_size@.units() == 0,
        o.avg_fill_price is None,
        o.exchange_order_id is None,
        o.created_at@ == o.updated_at@,
{
    decimal_laws::units_have_sign(Dec::zero());
}

/// An acknowledgement changes nothing but the state of an order that waited, the exchange's
/// identifier where none was known, and the time. The second one changes nothing any more, where
/// the first brought an identifier.
pub proof fn acknowledging_twice_is_once(o: Order, ack: Order, now: UtcTime, later: UtcTime)
    requires
        ack.exchange_order_id is Some,
    ensures
        order::acknowledged(o, ack, now).request == o.request,
        order::acknowledged(o, ack, now).internal_id == o.internal_id,
        order::acknowledged(o, ack, now).client_order_id == o.client_order_id,
        order::acknowledged(o, ack, now).strategy_id == o.strategy_id,
        order::acknowledged(o, ack, now).created_at == o.created_at,
        order::acknowledged(o, ack, now).filled_size == o.filled_size,
        order::acknowledged(o, ack, now).status != OrderStatus::PendingSubmit,
        o.status == OrderStatus::PendingSubmit ==> order::acknowledged(o, ack, now).status == OrderStatus::New,
        o.status != OrderStatus::PendingSubmit ==> order::acknowledged(o, ack, now).status == o.status,
        o.exchange_order_id is None ==> order::acknowledged(o, ack, now).exchange_order_id == ack.exchange_order_id,
        o.exchange_order_id is Some ==> order::acknowledged(o, ack, now).exchange_order_id == o.exchange_order_id,
        order::acknowledged(order::acknowledged(o, ack, now), ack, later) == order::acknowledged(o, ack, now),
{
}

/// A report that names an order by its own identifier is on that order; one that does not is on the
/// order that its client identifier belongs to.
pub proof fn report_finds_its_order(active: Map<Seq<char>, Order>, clients: Map<Seq<char>, String>, report: Order)
    ensures
        report.internal_id@.len() > 0 && active.contains_key(report.internal_id@) ==> order::reported_order(
            active,
            clients,
            report,
        ) == Some(report.internal_id@),
        report.internal_id@.len() > 0 && !active.contains_key(report.internal_id@) ==> order::reported_order(
            active,
            clients,
            report,
        ) is None,
        report.internal_id@.len() == 0 && clients.contains_key(report.client_order_id@) && active.contains_key(
            clients[report.client_order_id@]@,
        ) ==> order::reported_order(active, clients, report) == Some(clients[report.client_order_id@]@),
        report.internal_id@.len() == 0 && !clients.contains_key(report.client_order_id@) ==> order::reported_order(
            active,
            clients,
            report,
        ) is None,
        order::reported_order(active, clients, report) matches Some(id) ==> active.contains_key(id),
{
}

/// An order that the exchange holds open is not missing, and neither is one on another instrument.
pub proof fn open_order_is_not_missing(m: OrderManager, id: Seq<char>, key: InstrumentKey, open: Seq<Order>, k: int)
    requires
        m.active().contains_key(id),
    ensures
        0 <= k < open.len() && open[k].client_order_id@ == m.active()[id].client_order_id@ ==> !m.is_missing(id, key, open),
        m.active()[id].request.key != key ==> !m.is_missing(id, key, open),
        m.active()[id].request.key == key && open.len() == 0 ==> m.is_missing(id, key, open),
{
}

/// A refusal names its reason: an instrument that is not known, or a worth below the least.
pub proof fn refusal_names_its_reason(
    e: TradingError,
    instrument: Instrument,
    limits: FatFingerConfig,
    worth: Dec,
)
    requires
        order::refuses(e, Preparation::BelowMinNotional(worth), Some(instrument), limits),
    ensures
        e matches TradingError::MinNotionalViolated { requested, min } && requested@ == worth && (
        instrument.min_notional matches Some(least) ==> min@ == least@),
{
}

} // verus!
