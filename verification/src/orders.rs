use vstd::prelude::*;

use crate::decimal::{Dec, Decimal};
use crate::decimal_laws;
use crate::kinds::{OrderSide, OrderStatus, OrderType};
use crate::time::UtcTime;
use crate::types::InstrumentKey;

verus! {

/// What a strategy asks for.
#[derive(Debug, PartialEq)]
pub struct OrderRequest {
    pub key: InstrumentKey,
    pub strategy_id: String,
    pub side: OrderSide,
    pub order_type: OrderType,
    pub price: Option<Decimal>,
    pub size: Decimal,
    pub post_only: bool,
    pub reduce_only: bool,
}

impl Clone for OrderRequest {
    fn clone(&self) -> (r: OrderRequest)
        ensures
            r == *self,
    {
        OrderRequest {
            key: self.key,
            strategy_id: self.strategy_id.clone(),
            side: self.side,
            order_type: self.order_type,
            price: self.price,
            size: self.size,
            post_only: self.post_only,
            reduce_only: self.reduce_only,
        }
    }
}

/// An order and where it stands.
#[derive(Debug, PartialEq)]
pub struct Order {
    pub internal_id: String,
    pub strategy_id: String,
    pub client_order_id: String,
    pub exchange_order_id: Option<String>,
    pub request: OrderRequest,
    pub status: OrderStatus,
    pub filled_size: Decimal,
    pub avg_fill_price: Option<Decimal>,
    pub created_at: UtcTime,
    pub updated_at: UtcTime,
}

/// A copy of a text that may be absent.
pub fn copy_opt_string(s: &Option<String>) -> (r: Option<String>)
    ensures
        r == *s,
{
    match s {
        Some(s) => Some(s.clone()),
        None => None,
    }
}

impl Clone for Order {
    fn clone(&self) -> (r: Order)
        ensures
            r == *self,
    {
        Order {
            internal_id: self.internal_id.clone(),
            strategy_id: self.strategy_id.clone(),
            client_order_id: self.client_order_id.clone(),
            exchange_order_id: copy_opt_string(&self.exchange_order_id),
            request: self.request.clone(),
            status: self.status,
            filled_size: self.filled_size,
            avg_fill_price: self.avg_fill_price,
            created_at: self.created_at,
            updated_at: self.updated_at,
        }
    }
}

impl OrderStatus {
    /// No further change is to come.
    pub open spec fn is_final(self) -> bool {
        self == OrderStatus::Filled || self == OrderStatus::Canceled || self == OrderStatus::Rejected
    }
}

impl Order {
    pub fn is_pending_submit(&self) -> (r: bool)
        ensures
            r == (self.status == OrderStatus::PendingSubmit),
    {
        self.status == OrderStatus::PendingSubmit
    }

    pub fn is_pending_or_new(&self) -> (r: bool)
        ensures
            r == (self.status == OrderStatus::PendingSubmit || self.status == OrderStatus::New),
    {
        self.status == OrderStatus::PendingSubmit || self.status == OrderStatus::New
    }

    pub fn is_final_state(&self) -> (r: bool)
        ensures
            r == self.status.is_final(),
    {
        self.status == OrderStatus::Filled || self.status == OrderStatus::Canceled || self.status
            == OrderStatus::Rejected
    }

    /// Gives the order a status as of a time.
    pub fn mark_at(&mut self, status: OrderStatus, now: UtcTime)
        ensures
            *final(self) == (Order { status, updated_at: now, ..*old(self) }),
    {
        self.status = status;
        self.updated_at = now;
    }

    /// The order is on the exchange's book. The time of the update is what the clock shows.
    pub fn mark_new(&mut self)
        ensures
            *final(self) == (Order { status: OrderStatus::New, updated_at: final(self).updated_at, ..*old(self) }),
            final(self).updated_at@ >= 0,
    {
        self.mark_at(OrderStatus::New, UtcTime::now());
    }

    /// The order was refused. The time of the update is what the clock shows.
    pub fn mark_rejected(&mut self)
        ensures
            *final(self) == (Order {
                status: OrderStatus::Rejected,
                updated_at: final(self).updated_at,
                ..*old(self)
            }),
            final(self).updated_at@ >= 0,
    {
        self.mark_at(OrderStatus::Rejected, UtcTime::now());
    }

    /// The order was taken back. The time of the update is what the clock shows.
    pub fn mark_canceled(&mut self)
        ensures
            *final(self) == (Order {
                status: OrderStatus::Canceled,
                updated_at: final(self).updated_at,
                ..*old(self)
            }),
            final(self).updated_at@ >= 0,
    {
        self.mark_at(OrderStatus::Canceled, UtcTime::now());
    }

    /// This order with what an exchange reports of it: status, fill and time are taken over, the
    /// exchange's identifier only where none is known yet.
    pub open spec fn with_exchange_update(self, update: Order) -> Order {
        Order {
            status: update.status,
            filled_size: update.filled_size,
            avg_fill_price: update.avg_fill_price,
            updated_at: update.updated_at,
            exchange_order_id: if self.exchange_order_id is None {
                update.exchange_order_id
            } else {
                self.exchange_order_id
            },
            ..self
        }
    }

    /// Takes over what an exchange reports of the order.
    pub fn apply_exchange_update(&mut self, exchange_order: &Order)
        ensures
            *final(self) == old(self).with_exchange_update(*exchange_order),
    {
        self.status = exchange_order.status;
        self.filled_size = exchange_order.filled_size;
        self.avg_fill_price = exchange_order.avg_fill_price;
        self.updated_at = exchange_order.updated_at;
        if self.exchange_order_id.is_none() {
            self.exchange_order_id = copy_opt_string(&exchange_order.exchange_order_id);
        }
    }
}

/// Applying the same report twice is the same as applying it once.
pub proof fn exchange_update_is_idempotent(order: Order, update: Order)
    ensures
        order.with_exchange_update(update).with_exchange_update(update) == order.with_exchange_update(update),
{
}

impl Default for Order {
    fn default() -> (r: Order)
        ensures
            r.internal_id@ == Seq::<char>::empty(),
            r.strategy_id@ == Seq::<char>::empty(),
            r.client_order_id@ == Seq::<char>::empty(),
            r.exchange_order_id is None,
            r.request.key == InstrumentKey::default_key(),
            r.request.strategy_id@ == Seq::<char>::empty(),
            r.request.side == OrderSide::Buy,
            r.request.order_type == OrderType::Market,
            r.request.price is None,
            r.request.size@ == Dec::zero(),
            !r.request.post_only,
            !r.request.reduce_only,
            r.status == OrderStatus::PendingSubmit,
            r.filled_size@ == Dec::zero(),
            r.avg_fill_price is None,
            r.created_at == r.updated_at,
            r.created_at@ >= 0,
    {
        let now = UtcTime::now();
        Order {
            internal_id: String::new(),
            strategy_id: String::new(),
            client_order_id: String::new(),
            exchange_order_id: None,
            request: OrderRequest {
                key: InstrumentKey::default(),
                strategy_id: String::new(),
                side: OrderSide::Buy,
                order_type: OrderType::Market,
                price: None,
                size: Decimal::zero(),
                post_only: false,
                reduce_only: false,
            },
            status: OrderStatus::PendingSubmit,
            filled_size: Decimal::zero(),
            avg_fill_price: None,
            created_at: now,
            updated_at: now,
        }
    }
}

/// A change of an order, told to whoever listens.
#[derive(Debug, PartialEq)]
pub enum OrderEvent {
    New(Order),
    PartiallyFilled(Order),
    Filled(Order),
    Canceled(Order),
    Rejected(Order),
}

impl OrderEvent {
    /// The order that the event is about.
    pub open spec fn order(self) -> Order {
        match self {
            OrderEvent::New(o) => o,
            OrderEvent::PartiallyFilled(o) => o,
            OrderEvent::Filled(o) => o,
            OrderEvent::Canceled(o) => o,
            OrderEvent::Rejected(o) => o,
        }
    }

    /// The event that fits an order's status; one that is not yet on the book counts as new.
    pub open spec fn of(order: Order) -> OrderEvent {
        match order.status {
            OrderStatus::PartiallyFilled => OrderEvent::PartiallyFilled(order),
            OrderStatus::Filled => OrderEvent::Filled(order),
            OrderStatus::Canceled => OrderEvent::Canceled(order),
            OrderStatus::Rejected => OrderEvent::Rejected(order),
            _ => OrderEvent::New(order),
        }
    }

    pub fn inner(&self) -> (r: &Order)
        ensures
            *r == self.order(),
    {
        match self {
            OrderEvent::New(o) => o,
            OrderEvent::PartiallyFilled(o) => o,
            OrderEvent::Filled(o) => o,
            OrderEvent::Canceled(o) => o,
            OrderEvent::Rejected(o) => o,
        }
    }

    pub fn into_inner(self) -> (r: Order)
        ensures
            r == self.order(),
    {
        match self {
            OrderEvent::New(o) => o,
            OrderEvent::PartiallyFilled(o) => o,
            OrderEvent::Filled(o) => o,
            OrderEvent::Canceled(o) => o,
            OrderEvent::Rejected(o) => o,
        }
    }
}

impl Clone for OrderEvent {
    fn clone(&self) -> (r: OrderEvent)
        ensures
            r == *self,
    {
        match self {
            OrderEvent::New(o) => OrderEvent::New(o.clone()),
            OrderEvent::PartiallyFilled(o) => OrderEvent::PartiallyFilled(o.clone()),
            OrderEvent::Filled(o) => OrderEvent::Filled(o.clone()),
            OrderEvent::Canceled(o) => OrderEvent::Canceled(o.clone()),
            OrderEvent::Rejected(o) => OrderEvent::Rejected(o.clone()),
        }
    }
}

impl From<Order> for OrderEvent {
    fn from(order: Order) -> (r: OrderEvent) {
        match order.status {
            OrderStatus::PartiallyFilled => OrderEvent::PartiallyFilled(order),
            OrderStatus::Filled => OrderEvent::Filled(order),
            OrderStatus::Canceled => OrderEvent::Canceled(order),
            OrderStatus::Rejected => OrderEvent::Rejected(order),
            _ => OrderEvent::New(order),
        }
    }
}

impl vstd::std_specs::convert::FromSpecImpl<Order> for OrderEvent {
    open spec fn obeys_from_spec() -> bool {
        true
    }

    open spec fn from_spec(order: Order) -> OrderEvent {
        OrderEvent::of(order)
    }
}

/// An event made from an order gives the order back.
pub proof fn event_keeps_order(order: Order)
    ensures
        OrderEvent::of(order).order() == order,
{
}

/// What is held of an instrument: positive when long, negative when short.
#[derive(Clone, Copy, Debug, PartialEq)]
pub struct Position {
    pub key: InstrumentKey,
    pub size: Decimal,
    pub entry_price: Decimal,
    pub unrealized_pnl: Decimal,
    pub leverage: Decimal,
    pub liquidation_price: Option<Decimal>,
}

impl Default for Position {
    fn default() -> (r: Position)
        ensures
            r.key == InstrumentKey::default_key(),
            r.size@ == Dec::zero(),
            r.entry_price@ == Dec::zero(),
            r.unrealized_pnl@ == Dec::zero(),
            r.leverage@ == Dec::one(),
            r.liquidation_price is None,
    {
        Position {
            key: InstrumentKey::default(),
            size: Decimal::zero(),
            entry_price: Decimal::zero(),
            unrealized_pnl: Decimal::zero(),
            leverage: Decimal::one(),
            liquidation_price: None,
        }
    }
}

/// A fill with its direction: bought is positive, sold is negative.
pub open spec fn signed_fill(side: OrderSide, fill: Dec) -> Dec {
    if side == OrderSide::Buy {
        fill
    } else {
        fill.neg()
    }
}

/// The average entry price after adding a fill to a position that then has the size `new_size`.
/// `None` where a step overflows.
pub open spec fn blended_entry(size: Dec, entry: Dec, fill: Dec, price: Dec, new_size: Dec) -> Option<Dec> {
    match (size.abs().product(entry), fill.product(price)) {
        (Some(held), Some(added)) => match held.sum(added) {
            Some(total) => total.quotient(new_size.abs()),
            None => None,
        },
        _ => None,
    }
}

/// Size and entry price after a fill. A position that closes has no entry price; one that opens
/// or grows has the average of what was paid; any other keeps its entry price. `None` where a
/// step overflows.
pub open spec fn after_fill(size: Dec, entry: Dec, side: OrderSide, fill: Dec, price: Dec) -> Option<(Dec, Dec)> {
    let signed = signed_fill(side, fill);
    match size.sum(signed) {
        None => None,
        Some(new_size) => if new_size.is_zero() {
            Some((new_size, Dec::zero()))
        } else if size.is_zero() || size.sign() == signed.sign() {
            match blended_entry(size, entry, fill, price, new_size) {
                Some(new_entry) => Some((new_size, new_entry)),
                None => None,
            }
        } else {
            Some((new_size, entry))
        },
    }
}

impl Position {
    /// Takes a fill into the position.
    pub fn apply_fill(&mut self, side: OrderSide, fill_size: Decimal, fill_price: Decimal)
        requires
            after_fill(old(self).size@, old(self).entry_price@, side, fill_size@, fill_price@) is Some,
        ensures
            after_fill(old(self).size@, old(self).entry_price@, side, fill_size@, fill_price@) == Some(
                (final(self).size@, final(self).entry_price@),
            ),
            *final(self) == (Position {
                size: final(self).size,
                entry_price: final(self).entry_price,
                ..*old(self)
            }),
    {
        let applied = self.checked_apply_fill(side, fill_size, fill_price);
    }

    /// Takes a fill into the position and says so, or leaves it unchanged where the arithmetic
    /// overflows.
    pub fn checked_apply_fill(&mut self, side: OrderSide, fill_size: Decimal, fill_price: Decimal) -> (r: bool)
        ensures
            r <==> after_fill(old(self).size@, old(self).entry_price@, side, fill_size@, fill_price@) is Some,
            r ==> after_fill(old(self).size@, old(self).entry_price@, side, fill_size@, fill_price@) == Some(
                (final(self).size@, final(self).entry_price@),
            ),
            *final(self) == (Position {
                size: final(self).size,
                entry_price: final(self).entry_price,
                ..*old(self)
            }),
            !r ==> *final(self) == *old(self),
    {
        let signed = if side == OrderSide::Buy { fill_size } else { fill_size.neg() };
        let new_size = match self.size.checked_add(signed) {
            Some(new_size) => new_size,
            None => return false,
        };
        if new_size.is_zero() {
            self.entry_price = Decimal::zero();
        } else if self.size.is_zero() || self.size.sign() == signed.sign() {
            let held = match self.size.abs().checked_mul(self.entry_price) {
                Some(held) => held,
                None => return false,
            };
            let added = match fill_size.checked_mul(fill_price) {
                Some(added) => added,
                None => return false,
            };
            let total = match held.checked_add(added) {
                Some(total) => total,
                None => return false,
            };
            match total.checked_div(new_size.abs()) {
                Some(entry) => {
                    self.entry_price = entry;
                },
                None => return false,
            }
        }
        self.size = new_size;
        true
    }
}

/// A fill of the whole size on the other side closes the position: nothing is held and no entry
/// price is left.
pub proof fn opposite_fill_closes(size: Dec, entry: Dec, price: Dec)
    requires
        size.wf(),
        !size.is_zero(),
    ensures
        ({
            let side = if size.m > 0 { OrderSide::Sell } else { OrderSide::Buy };
            let after = after_fill(size, entry, side, size.abs(), price);
            after is Some && (after->0).0.is_zero() && (after->0).1 == Dec::zero()
        }),
{
    let side = if size.m > 0 { OrderSide::Sell } else { OrderSide::Buy };
    let signed = signed_fill(side, size.abs());
    assert(signed == size.neg());
    decimal_laws::aligned_at_own_scale(size);
    decimal_laws::aligned_at_own_scale(signed);
}

/// A fill that only takes away from a position leaves its entry price as it was.
pub proof fn reducing_fill_keeps_entry(size: Dec, entry: Dec, side: OrderSide, fill: Dec, price: Dec)
    requires
        !size.is_zero(),
        size.sign() != signed_fill(side, fill).sign(),
        after_fill(size, entry, side, fill, price) is Some,
        !(after_fill(size, entry, side, fill, price)->0).0.is_zero(),
    ensures
        (after_fill(size, entry, side, fill, price)->0).1 == entry,
{
}

} // verus!
