use vstd::prelude::*;
use vstd::string::*;

use crate::config::types::FatFingerConfig;
use crate::decimal;
use crate::decimal::{Dec, Decimal};
use crate::errors::TradingError;
use crate::kinds::{Exchange, OrderStatus, OrderType};
use crate::orders::{Order, OrderEvent, OrderRequest};
use crate::registry;
use crate::registry::InstrumentRegistry;
use crate::table::Table;
use crate::text;
use crate::text::{number, signed_number};
use crate::time::UtcTime;
use crate::types;
use crate::types::{Instrument, InstrumentKey, OrderBookSnapshot, OrderBookUpdate};

verus! {

/// Settings of an order manager.
#[derive(Clone, Copy, Debug)]
pub struct OrderManagerConfig {
    pub mailbox_capacity: usize,
    pub event_broadcast_capacity: usize,
    pub ws_channel_capacity: usize,
    /// Seconds between two reconciliations.
    pub reconcile_interval: u64,
    pub fat_finger: FatFingerConfig,
}

impl Default for OrderManagerConfig {
    fn default() -> (r: OrderManagerConfig)
        ensures
            r.mailbox_capacity == 128,
            r.event_broadcast_capacity == 1024,
            r.ws_channel_capacity == 1024,
            r.reconcile_interval == 30,
            r.fat_finger.max_order_size@ == (Dec { m: 10, s: 0 }),
            r.fat_finger.max_order_notional_usd@ == (Dec { m: 100_000, s: 0 }),
            r.fat_finger.max_price_deviation_pct@ == (Dec { m: 5, s: 0 }),
    {
        OrderManagerConfig {
            mailbox_capacity: 128,
            event_broadcast_capacity: 1024,
            ws_channel_capacity: 1024,
            reconcile_interval: 30,
            fat_finger: FatFingerConfig::default(),
        }
    }
}

/// How an exchange's client order identifiers are made from an order's own identifier, and what
/// can be read back from them.
pub trait ClientOrderIds {
    /// `None` where no client order identifier can be made.
    spec fn encoded(&self, internal_id: Seq<char>, strategy_id: Seq<char>) -> Option<Seq<char>>;

    spec fn decoded_strategy(&self, client_order_id: Seq<char>) -> Option<Seq<char>>;

    /// The client order identifier under which an exchange knows an order.
    fn encode_client_order_id(&self, internal_id: &str, strategy_id: &str) -> (r: Option<String>)
        ensures
            match r {
                Some(s) => self.encoded(internal_id@, strategy_id@) == Some(s@),
                None => self.encoded(internal_id@, strategy_id@) is None,
            },
    ;

    /// The strategy of a client order identifier; `None` where its form is not known or it was not
    /// made here.
    fn decode_strategy_id(&self, client_order_id: &str) -> (r: Option<String>)
        ensures
            match r {
                Some(s) => self.decoded_strategy(client_order_id@) == Some(s@),
                None => self.decoded_strategy(client_order_id@) is None,
            },
    ;
}

/// What the limits say of an order.
pub enum Guard {
    Pass,
    InvalidPostOnly,
    SizeExceeded,
    PriceNotReady,
    /// The value is above the limit.
    NotionalExceeded(Dec),
    /// The price is this many percent away from the mid-price.
    BandViolated(Dec),
    /// A product, difference or quotient has no value.
    Overflow,
}

/// How far a price is from the mid-price, in percent of the mid-price. `None` is overflow.
pub open spec fn deviation_pct(price: Dec, mid: Dec) -> Option<Dec> {
    match price.difference(mid) {
        None => None,
        Some(d) => match d.abs().quotient(mid) {
            None => None,
            Some(q) => q.product(Dec::hundred()),
        },
    }
}

/// The price that an order is valued at: its own, else the mid-price.
pub open spec fn reference_price(price: Option<Dec>, mid: Option<Dec>) -> Option<Dec> {
    match price {
        Some(p) => Some(p),
        None => mid,
    }
}

/// Judges an order by the limits, the first violation first.
pub open spec fn guard(limits: FatFingerConfig, req: OrderRequest, mid: Option<Dec>) -> Guard {
    let price = decimal::view_opt(req.price);
    if req.post_only && req.order_type != OrderType::Limit {
        Guard::InvalidPostOnly
    } else if limits.max_order_size@.lt(req.size@) {
        Guard::SizeExceeded
    } else {
        match reference_price(price, mid) {
            None => Guard::PriceNotReady,
            Some(reference) => match reference.product(req.size@) {
                None => Guard::Overflow,
                Some(notional) => if limits.max_order_notional_usd@.lt(notional) {
                    Guard::NotionalExceeded(notional)
                } else {
                    match (price, mid) {
                        (None, _) => Guard::Pass,
                        (Some(_), None) => Guard::PriceNotReady,
                        (Some(limit), Some(mid)) => if mid.is_zero() {
                            Guard::PriceNotReady
                        } else {
                            match deviation_pct(limit, mid) {
                                None => Guard::Overflow,
                                Some(deviation) => if limits.max_price_deviation_pct@.lt(deviation) {
                                    Guard::BandViolated(deviation)
                                } else {
                                    Guard::Pass
                                },
                            }
                        },
                    }
                },
            },
        }
    }
}

/// The answer that goes with a judgement.
pub open spec fn answers_guard(r: Result<(), TradingError>, g: Guard, limits: FatFingerConfig, req: OrderRequest) -> bool {
    match (g, r) {
        (Guard::Pass, Ok(_)) => true,
        (Guard::InvalidPostOnly, Err(TradingError::InvalidPostOnly)) => true,
        (Guard::SizeExceeded, Err(TradingError::MaxOrderSizeExceeded { requested, max })) => {
            requested == req.size && max == limits.max_order_size
        },
        (Guard::PriceNotReady, Err(TradingError::PriceNotReady)) => true,
        (Guard::NotionalExceeded(notional), Err(TradingError::MaxNotionalExceeded { requested, max })) => {
            requested@ == notional && max == limits.max_order_notional_usd
        },
        (Guard::BandViolated(deviation), Err(TradingError::PriceBandViolation { deviation_pct, max_pct })) => {
            deviation_pct@ == deviation && max_pct == limits.max_price_deviation_pct
        },
        _ => false,
    }
}

/// A request with its size cut to lots and its price put on a tick. `None` is overflow.
pub open spec fn normalized_parts(instrument: Instrument, req: OrderRequest) -> Option<(Dec, Option<Dec>)> {
    match types::quantity_in_lots(req.size@, instrument.lot_size@) {
        None => None,
        Some(size) => match req.price {
            None => Some((size, None)),
            Some(price) => match types::price_on_tick(price@, instrument.tick_size@) {
                None => None,
                Some(price) => Some((size, Some(price))),
            },
        },
    }
}

/// Whether one request is the normalized form of another.
pub open spec fn is_normalized(instrument: Instrument, req: OrderRequest, out: OrderRequest) -> bool {
    &&& normalized_parts(instrument, req) == Some((out.size@, decimal::view_opt(out.price)))
    &&& out == (OrderRequest { size: out.size, price: out.price, ..req })
}

/// The price that decides on the minimum value: zero without one.
pub open spec fn price_or_zero(price: Option<Dec>) -> Dec {
    match price {
        Some(p) => p,
        None => Dec::zero(),
    }
}

/// What becomes of a request before anything is sent.
pub enum Preparation {
    /// It goes out in this form.
    Accepted(OrderRequest),
    UnsupportedInstrument,
    /// The value is neither zero nor up to the minimum.
    BelowMinNotional(Dec),
    /// The limits say no.
    Refused(OrderRequest, Guard),
    Overflow,
}

/// Whether a request, in the form `out` once it is normalized, is prepared as `p`.
pub open spec fn prepares(
    limits: FatFingerConfig,
    instrument: Option<Instrument>,
    req: OrderRequest,
    mid: Option<Dec>,
    p: Preparation,
) -> bool {
    match instrument {
        None => p is UnsupportedInstrument,
        Some(instrument) => match normalized_parts(instrument, req) {
            None => p is Overflow,
            Some((size, price)) => match price_or_zero(price).product(size) {
                None => p is Overflow,
                Some(notional) => if types::notional_valid(
                    decimal::view_opt(instrument.min_notional),
                    price_or_zero(price),
                    size,
                ) == Some(false) {
                    p == Preparation::BelowMinNotional(notional)
                } else {
                    match p {
                        Preparation::Accepted(out) => {
                            is_normalized(instrument, req, out) && guard(limits, out, mid) is Pass
                        },
                        Preparation::Refused(out, g) => {
                            &&& is_normalized(instrument, req, out)
                            &&& guard(limits, out, mid) == g
                            &&& !(g is Pass)
                            &&& !(g is Overflow)
                        },
                        Preparation::Overflow => exists|out: OrderRequest| #[trigger]
                            is_normalized(instrument, req, out) && guard(limits, out, mid) is Overflow,
                        _ => false,
                    }
                },
            },
        },
    }
}

/// Whether a request goes out.
pub open spec fn accepts(
    limits: FatFingerConfig,
    instrument: Option<Instrument>,
    req: OrderRequest,
    mid: Option<Dec>,
) -> bool {
    exists|out: OrderRequest| #[trigger] prepares(limits, instrument, req, mid, Preparation::Accepted(out))
}

/// An order's own identifier: strategy, time, exchange code and a running number.
pub open spec fn order_id(strategy_id: Seq<char>, timestamp_ms: i64, exchange: Exchange, seq: u32) -> Seq<char> {
    strategy_id + seq!['-'] + text::signed_digits(timestamp_ms as int) + seq!['-'] + exchange.code() + seq!['-']
        + text::digits(seq as nat)
}

/// The identifier of an order that is about to be sent.
pub fn make_order_id(strategy_id: &str, timestamp_ms: i64, exchange: Exchange, seq: u32) -> (r: String)
    ensures
        r@ == order_id(strategy_id@, timestamp_ms, exchange, seq),
{
    let mut out: String = strategy_id.to_owned();
    out.push('-');
    out.append(signed_number(timestamp_ms).as_str());
    out.push('-');
    out.append(exchange.short_code());
    out.push('-');
    out.append(number(seq as u64).as_str());
    assert(out@ =~= order_id(strategy_id@, timestamp_ms, exchange, seq));
    out
}

/// A new order that waits for the exchange's answer.
pub open spec fn is_pending_order(
    order: Order,
    internal_id: Seq<char>,
    client_order_id: Seq<char>,
    req: OrderRequest,
    now: UtcTime,
) -> bool {
    &&& order.internal_id@ == internal_id
    &&& order.strategy_id@ == req.strategy_id@
    &&& order.client_order_id@ == client_order_id
    &&& order.exchange_order_id is None
    &&& order.request == req
    &&& order.status == OrderStatus::PendingSubmit
    &&& order.filled_size@ == Dec::zero()
    &&& order.avg_fill_price is None
    &&& order.created_at == now
    &&& order.updated_at == now
}

/// The orders of one exchange that are not yet done, and what is needed to judge new ones.
#[derive(Debug)]
pub struct OrderManager {
    exchange: Exchange,
    fat_finger: FatFingerConfig,
    prices: Table<InstrumentKey, OrderBookSnapshot>,
    active_orders: Table<String, Order>,
    client_ids: Table<String, String>,
}

impl OrderManager {
    pub closed spec fn exchange(&self) -> Exchange {
        self.exchange
    }

    pub closed spec fn limits(&self) -> FatFingerConfig {
        self.fat_finger
    }

    /// The last order book of each instrument.
    pub closed spec fn books(&self) -> Map<InstrumentKey, OrderBookSnapshot> {
        self.prices@
    }

    /// The orders that are not yet done, by their own identifier.
    pub closed spec fn active(&self) -> Map<Seq<char>, Order> {
        self.active_orders@
    }

    /// The orders' own identifiers, by client order identifier.
    pub closed spec fn client_map(&self) -> Map<Seq<char>, String> {
        self.client_ids@
    }

    /// The mid-price of an instrument, where its book has one.
    pub open spec fn mid(&self, key: InstrumentKey) -> Option<Dec> {
        if self.books().contains_key(key) {
            decimal::view_opt(self.books()[key].mid)
        } else {
            None
        }
    }

    /// Every order that is kept is filed under its own identifier and is not done.
    #[verifier::type_invariant]
    pub open spec fn inv(self) -> bool {
        forall|id: Seq<char>| #[trigger]
            self.active().contains_key(id) ==> self.active()[id].internal_id@ == id && !self.active()[id].status.is_final()
    }

    /// Orders and client order identifiers belong together one to one.
    pub open spec fn linked(self) -> bool {
        &&& forall|id: Seq<char>| #[trigger]
            self.active().contains_key(id) ==> self.client_map().contains_key(self.active()[id].client_order_id@)
                && self.client_map()[self.active()[id].client_order_id@]@ == id
        &&& forall|c: Seq<char>| #[trigger]
            self.client_map().contains_key(c) ==> self.active().contains_key(self.client_map()[c]@)
                && self.active()[self.client_map()[c]@].client_order_id@ == c
    }

    /// Only the orders and their client identifiers may differ.
    pub open spec fn same_but_orders(self, other: OrderManager) -> bool {
        &&& self.exchange() == other.exchange()
        &&& self.limits() == other.limits()
        &&& self.books() == other.books()
    }

    /// A manager without orders.
    pub fn new(exchange: Exchange, fat_finger: FatFingerConfig) -> (r: OrderManager)
        ensures
            r.exchange() == exchange,
            r.limits() == fat_finger,
            r.books() == Map::<InstrumentKey, OrderBookSnapshot>::empty(),
            r.active() == Map::<Seq<char>, Order>::empty(),
            r.client_map() == Map::<Seq<char>, String>::empty(),
            r.linked(),
    {
        OrderManager {
            exchange,
            fat_finger,
            prices: Table::new(),
            active_orders: Table::new(),
            client_ids: Table::new(),
        }
    }

    /// Takes in an order book.
    pub fn handle_price(&mut self, update: OrderBookUpdate)
        ensures
            final(self).books() == old(self).books().insert(update.snapshot.key, update.snapshot),
            final(self).exchange() == old(self).exchange(),
            final(self).limits() == old(self).limits(),
            final(self).active() == old(self).active(),
            final(self).client_map() == old(self).client_map(),
    {
        proof {
            use_type_invariant(&*self);
        }
        let mut prices: Table<InstrumentKey, OrderBookSnapshot> = Table::new();
        std::mem::swap(&mut prices, &mut self.prices);
        prices.insert(update.snapshot.key, update.snapshot);
        self.prices = prices;
    }

    fn mid_of(&self, key: &InstrumentKey) -> (r: Option<Decimal>)
        ensures
            decimal::view_opt(r) == self.mid(*key),
    {
        match self.prices.get(key) {
            Some(book) => book.mid,
            None => None,
        }
    }

    /// Judges an order by the limits.
    pub fn check_fat_finger(&self, req: &OrderRequest) -> (r: Result<(), TradingError>)
        requires
            !(guard(self.limits(), *req, self.mid(req.key)) is Overflow),
        ensures
            answers_guard(r, guard(self.limits(), *req, self.mid(req.key)), self.limits(), *req),
    {
        self.checked_fat_finger(req).unwrap()
    }

    /// Judges an order by the limits, or gives `None` where the arithmetic overflows.
    pub fn checked_fat_finger(&self, req: &OrderRequest) -> (r: Option<Result<(), TradingError>>)
        ensures
            r is None <==> guard(self.limits(), *req, self.mid(req.key)) is Overflow,
            r matches Some(answer) ==> answers_guard(
                answer,
                guard(self.limits(), *req, self.mid(req.key)),
                self.limits(),
                *req,
            ),
    {
        if req.post_only && req.order_type != OrderType::Limit {
            return Some(Err(TradingError::InvalidPostOnly));
        }
        let max_size = self.fat_finger.max_order_size;
        if max_size.less_than(req.size) {
            return Some(Err(TradingError::MaxOrderSizeExceeded { requested: req.size, max: max_size }));
        }
        let mid = self.mid_of(&req.key);
        let reference = match req.price {
            Some(price) => price,
            None => match mid {
                Some(mid) => mid,
                None => return Some(Err(TradingError::PriceNotReady)),
            },
        };
        let notional = match reference.checked_mul(req.size) {
            Some(notional) => notional,
            None => return None,
        };
        let max_notional = self.fat_finger.max_order_notional_usd;
        if max_notional.less_than(notional) {
            return Some(Err(TradingError::MaxNotionalExceeded { requested: notional, max: max_notional }));
        }
        if let Some(limit) = req.price {
            let mid = match mid {
                Some(mid) => mid,
                None => return Some(Err(TradingError::PriceNotReady)),
            };
            if mid.is_zero() {
                return Some(Err(TradingError::PriceNotReady));
            }
            let difference = match limit.checked_sub(mid) {
                Some(difference) => difference.abs(),
                None => return None,
            };
            let fraction = match difference.checked_div(mid) {
                Some(fraction) => fraction,
                None => return None,
            };
            let deviation = match fraction.checked_mul(Decimal::hundred()) {
                Some(deviation) => deviation,
                None => return None,
            };
            let max_pct = self.fat_finger.max_price_deviation_pct;
            if max_pct.less_than(deviation) {
                return Some(Err(TradingError::PriceBandViolation { deviation_pct: deviation, max_pct }));
            }
        }
        Some(Ok(()))
    }

    /// The form in which a request would go out, or why it may not; `None` where the arithmetic
    /// overflows.
    pub fn prepare_order(&self, registry: &InstrumentRegistry, request: OrderRequest) -> (r: Option<
        Result<OrderRequest, TradingError>,
    >)
        ensures
            ({
                let instrument = registry::found(registry@, request.key);
                let mid = self.mid(request.key);
                match r {
                    None => prepares(self.limits(), instrument, request, mid, Preparation::Overflow),
                    Some(Ok(out)) => prepares(self.limits(), instrument, request, mid, Preparation::Accepted(out)),
                    Some(Err(e)) => exists|p: Preparation| #[trigger]
                        prepares(self.limits(), instrument, request, mid, p) && refuses(e, p, instrument, self.limits()),
                }
            }),
    {
        let ghost instrument_view = registry::found(registry@, request.key);
        let ghost mid = self.mid(request.key);
        let instrument = match registry.get(&request.key) {
            Some(instrument) => instrument,
            None => {
                assert(prepares(self.limits(), instrument_view, request, mid, Preparation::UnsupportedInstrument));
                return Some(Err(TradingError::UnsupportedInstrument));
            },
        };
        let size = match instrument.checked_normalize_quantity(request.size) {
            Some(size) => size,
            None => return None,
        };
        let price = match request.price {
            Some(price) => match instrument.checked_normalize_price(price) {
                Some(price) => Some(price),
                None => return None,
            },
            None => None,
        };
        let out = OrderRequest { size, price, ..request };
        let value_price = match price {
            Some(price) => price,
            None => Decimal::zero(),
        };
        let notional = match value_price.checked_mul(size) {
            Some(notional) => notional,
            None => return None,
        };
        assert(is_normalized(instrument, request, out));
        if !instrument.is_notional_valid(value_price, size) {
            let min = match instrument.min_notional {
                Some(min) => min,
                None => Decimal::zero(),
            };
            assert(prepares(self.limits(), instrument_view, request, mid, Preparation::BelowMinNotional(notional@)));
            return Some(Err(TradingError::MinNotionalViolated { requested: notional, min }));
        }
        match self.checked_fat_finger(&out) {
            None => None,
            Some(Ok(_)) => Some(Ok(out)),
            Some(Err(e)) => {
                assert(prepares(
                    self.limits(),
                    instrument_view,
                    request,
                    mid,
                    Preparation::Refused(out, guard(self.limits(), out, mid)),
                ));
                Some(Err(e))
            },
        }
    }
}

/// The event that answers an exchange's report on an order: the order is looked up by its own
/// identifier where the report has one, else by its client identifier.
pub open spec fn reported_order(
    active: Map<Seq<char>, Order>,
    clients: Map<Seq<char>, String>,
    report: Order,
) -> Option<Seq<char>> {
    let id = if report.internal_id@.len() > 0 {
        report.internal_id@
    } else if clients.contains_key(report.client_order_id@) {
        clients[report.client_order_id@]@
    } else {
        report.internal_id@
    };
    if report.internal_id@.len() == 0 && !clients.contains_key(report.client_order_id@) {
        None
    } else if active.contains_key(id) {
        Some(id)
    } else {
        None
    }
}

impl OrderManager {
    /// Files a new order under its identifier and its client identifier.
    fn track(&mut self, order: Order)
        requires
            !order.status.is_final(),
        ensures
            final(self).active() == old(self).active().insert(order.internal_id@, order),
            final(self).client_map().dom() == old(self).client_map().dom().insert(order.client_order_id@),
            final(self).client_map()[order.client_order_id@]@ == order.internal_id@,
            forall|c: Seq<char>|
                c != order.client_order_id@ && old(self).client_map().contains_key(c) ==> #[trigger] final(self).client_map()[c] == old(self).client_map()[c],
            final(self).same_but_orders(*old(self)),
    {
        proof {
            use_type_invariant(&*self);
        }
        let mut active: Table<String, Order> = Table::new();
        std::mem::swap(&mut active, &mut self.active_orders);
        let mut clients: Table<String, String> = Table::new();
        std::mem::swap(&mut clients, &mut self.client_ids);
        let id = order.internal_id.clone();
        clients.insert(order.client_order_id.clone(), id.clone());
        active.insert(id, order);
        self.client_ids = clients;
        proof {
            assert forall|i: Seq<char>| #[trigger] active@.contains_key(i) implies active@[i].internal_id@ == i
                && !active@[i].status.is_final() by {
                if i != order.internal_id@ {
                    assert(old(self).active().contains_key(i));
                }
            }
        }
        self.active_orders = active;
    }

    /// Forgets an order and a client identifier.
    fn forget(&mut self, internal_id: &String, client_order_id: &String)
        ensures
            final(self).active() == old(self).active().remove(internal_id@),
            final(self).client_map() == old(self).client_map().remove(client_order_id@),
            final(self).same_but_orders(*old(self)),
    {
        proof {
            use_type_invariant(&*self);
        }
        let mut active: Table<String, Order> = Table::new();
        std::mem::swap(&mut active, &mut self.active_orders);
        let mut clients: Table<String, String> = Table::new();
        std::mem::swap(&mut clients, &mut self.client_ids);
        let gone = active.remove(internal_id);
        let gone_client = clients.remove(client_order_id);
        self.client_ids = clients;
        proof {
            assert forall|i: Seq<char>| #[trigger] active@.contains_key(i) implies active@[i].internal_id@ == i
                && !active@[i].status.is_final() by {
                assert(old(self).active().contains_key(i));
            }
        }
        self.active_orders = active;
    }

    /// Puts an order in the place of the one with the same identifier.
    fn refile(&mut self, order: Order)
        requires
            !order.status.is_final(),
        ensures
            final(self).active() == old(self).active().insert(order.internal_id@, order),
            final(self).client_map() == old(self).client_map(),
            final(self).same_but_orders(*old(self)),
    {
        proof {
            use_type_invariant(&*self);
        }
        let mut active: Table<String, Order> = Table::new();
        std::mem::swap(&mut active, &mut self.active_orders);
        active.insert(order.internal_id.clone(), order);
        proof {
            assert forall|i: Seq<char>| #[trigger] active@.contains_key(i) implies active@[i].internal_id@ == i
                && !active@[i].status.is_final() by {
                if i != order.internal_id@ {
                    assert(old(self).active().contains_key(i));
                }
            }
        }
        self.active_orders = active;
    }

    /// Takes a request: normalizes and checks it, gives it identifiers and files it as pending, so
    /// that a report on it finds it. `None` where the arithmetic overflows or the exchange cannot
    /// be given an identifier; nothing is filed then, nor where the request is refused. The time
    /// of the identifier and that of the order are handed in, and so is the running number.
    pub fn process_submit_order_at<C: ClientOrderIds>(
        &mut self,
        registry: &InstrumentRegistry,
        ids: &C,
        request: OrderRequest,
        timestamp_ms: i64,
        seq: u32,
        now: UtcTime,
    ) -> (r: Option<Result<Order, TradingError>>)
        ensures
            ({
                let instrument = registry::found(registry@, request.key);
                let mid = old(self).mid(request.key);
                let limits = old(self).limits();
                match r {
                    None => {
                        &&& prepares(limits, instrument, request, mid, Preparation::Overflow) || (ids.encoded(
                            order_id(request.strategy_id@, timestamp_ms, old(self).exchange(), seq),
                            request.strategy_id@,
                        ) is None && accepts(limits, instrument, request, mid))
                        &&& *final(self) == *old(self)
                    },
                    Some(Err(e)) => {
                        &&& exists|p: Preparation| #[trigger]
                            prepares(limits, instrument, request, mid, p) && refuses(e, p, instrument, limits)
                        &&& *final(self) == *old(self)
                    },
                    Some(Ok(order)) => {
                        let id = order_id(request.strategy_id@, timestamp_ms, old(self).exchange(), seq);
                        let client_id = order.client_order_id@;
                        &&& ids.encoded(id, request.strategy_id@) == Some(client_id)
                        &&& prepares(limits, instrument, request, mid, Preparation::Accepted(order.request))
                        &&& is_pending_order(order, id, client_id, order.request, now)
                        &&& final(self).active() == old(self).active().insert(id, order)
                        &&& final(self).client_map().dom() == old(self).client_map().dom().insert(client_id)
                        &&& final(self).client_map()[client_id]@ == id
                        &&& forall|c: Seq<char>|
                            c != client_id && old(self).client_map().contains_key(c) ==> #[trigger] final(self).client_map()[c] == old(self).client_map()[c]
                        &&& final(self).same_but_orders(*old(self))
                        // Fresh identifiers keep orders and client identifiers one to one.
                        &&& old(self).linked() && !old(self).active().contains_key(id)
                            && !old(self).client_map().contains_key(client_id) ==> final(self).linked()
                    },
                }
            }),
    {
        let req = match self.prepare_order(registry, request) {
            None => return None,
            Some(Err(e)) => return Some(Err(e)),
            Some(Ok(req)) => req,
        };
        let internal_id = make_order_id(req.strategy_id.as_str(), timestamp_ms, self.exchange, seq);
        let client_order_id = match ids.encode_client_order_id(internal_id.as_str(), req.strategy_id.as_str()) {
            Some(client_order_id) => client_order_id,
            None => return None,
        };
        let order = Order {
            internal_id,
            strategy_id: req.strategy_id.clone(),
            client_order_id,
            exchange_order_id: None,
            request: req,
            status: OrderStatus::PendingSubmit,
            filled_size: Decimal::zero(),
            avg_fill_price: None,
            created_at: now,
            updated_at: now,
        };
        let answer = order.clone();
        self.track(order);
        proof {
            if old(self).linked() && !old(self).active().contains_key(order.internal_id@)
                && !old(self).client_map().contains_key(order.client_order_id@) {
                assert(self.linked()) by {
                    assert forall|i: Seq<char>| #[trigger] self.active().contains_key(i) implies self.client_map().contains_key(
                        self.active()[i].client_order_id@,
                    ) && self.client_map()[self.active()[i].client_order_id@]@ == i by {
                        if i != order.internal_id@ {
                            assert(old(self).active().contains_key(i));
                            let c = old(self).active()[i].client_order_id@;
                            assert(old(self).client_map().contains_key(c));
                            assert(c != order.client_order_id@);
                            assert(self.client_map()[c] == old(self).client_map()[c]);
                            assert(self.client_map().dom().contains(c));
                        } else {
                            assert(self.client_map().dom().contains(order.client_order_id@));
                        }
                    }
                    assert forall|c: Seq<char>| #[trigger]
                        self.client_map().contains_key(c) implies self.active().contains_key(self.client_map()[c]@)
                        && self.active()[self.client_map()[c]@].client_order_id@ == c by {
                        if c != order.client_order_id@ {
                            assert(self.client_map().dom().contains(c));
                            assert(old(self).client_map().contains_key(c));
                            assert(self.client_map()[c] == old(self).client_map()[c]);
                        }
                    }
                }
            }
        }
        Some(Ok(answer))
    }

    /// Takes a request at the time that the clock shows. What is filed and answered is what
    /// `process_submit_order_at` does for the two times that were read.
    pub fn process_submit_order<C: ClientOrderIds>(
        &mut self,
        registry: &InstrumentRegistry,
        ids: &C,
        request: OrderRequest,
        seq: u32,
    ) -> (r: Option<Result<Order, TradingError>>)
        ensures
            ({
                let instrument = registry::found(registry@, request.key);
                let mid = old(self).mid(request.key);
                let limits = old(self).limits();
                match r {
                    None => {
                        &&& prepares(limits, instrument, request, mid, Preparation::Overflow) || (accepts(
                            limits,
                            instrument,
                            request,
                            mid,
                        ) && exists|ms: i64|
                            ms >= 0 && ids.encoded(
                                #[trigger] order_id(request.strategy_id@, ms, old(self).exchange(), seq),
                                request.strategy_id@,
                            ) is None)
                        &&& *final(self) == *old(self)
                    },
                    Some(Err(e)) => {
                        &&& exists|p: Preparation| #[trigger]
                            prepares(limits, instrument, request, mid, p) && refuses(e, p, instrument, limits)
                        &&& *final(self) == *old(self)
                    },
                    Some(Ok(order)) => {
                        &&& prepares(limits, instrument, request, mid, Preparation::Accepted(order.request))
                        &&& exists|ms: i64|
                            ms >= 0 && order.internal_id@ == #[trigger] order_id(
                                request.strategy_id@,
                                ms,
                                old(self).exchange(),
                                seq,
                            )
                        &&& ids.encoded(order.internal_id@, request.strategy_id@) == Some(order.client_order_id@)
                        &&& is_pending_order(
                            order,
                            order.internal_id@,
                            order.client_order_id@,
                            order.request,
                            order.created_at,
                        )
                        &&& order.created_at@ >= 0
                        &&& final(self).active() == old(self).active().insert(order.internal_id@, order)
                        &&& final(self).client_map().dom() == old(self).client_map().dom().insert(
                            order.client_order_id@,
                        )
                        &&& final(self).client_map()[order.client_order_id@]@ == order.internal_id@
                        &&& forall|c: Seq<char>|
                            c != order.client_order_id@ && old(self).client_map().contains_key(c) ==> #[trigger] final(
                                self).client_map()[c] == old(self).client_map()[c]
                        &&& final(self).same_but_orders(*old(self))
                        &&& old(self).linked() && !old(self).active().contains_key(order.internal_id@)
                            && !old(self).client_map().contains_key(order.client_order_id@) ==> final(self).linked()
                    },
                }
            }),
    {
        let timestamp_ms: i64 = UtcTime::now().timestamp_millis();
        self.process_submit_order_at(registry, ids, request, timestamp_ms, seq, UtcTime::now())
    }

    /// The order that is to be taken back at the exchange, as it stands now; or that there is no
    /// such order.
    pub fn process_cancel_order(&self, internal_id: &String) -> (r: Result<Order, TradingError>)
        ensures
            match r {
                Ok(order) => self.active().contains_key(internal_id@) && order == self.active()[internal_id@],
                Err(TradingError::OrderNotFound { exchange, order_id }) => {
                    &&& !self.active().contains_key(internal_id@)
                    &&& exchange@ == self.exchange().variant()
                    &&& order_id@ == internal_id@
                },
                Err(_) => false,
            },
    {
        match self.active_orders.get(internal_id) {
            Some(order) => Ok(order.clone()),
            None => Err(
                TradingError::OrderNotFound {
                    exchange: self.exchange.variant_name().to_owned(),
                    order_id: internal_id.clone(),
                },
            ),
        }
    }

    /// Takes in the exchange's answer to an order that was sent, and gives the event to tell. An
    /// acknowledgement moves an order on only while it is pending, so that it never undoes what a
    /// report has already said; a failure rejects only a pending order.
    pub fn handle_submit_result(
        &mut self,
        internal_id: &String,
        result: Result<Order, TradingError>,
        now: UtcTime,
    ) -> (r: Option<OrderEvent>)
        ensures
            final(self).same_but_orders(*old(self)),
            !old(self).active().contains_key(internal_id@) ==> r is None && *final(self) == *old(self),
            old(self).active().contains_key(internal_id@) ==> ({
                let order = old(self).active()[internal_id@];
                match result {
                    Ok(ack) => {
                        let after = acknowledged(order, ack, now);
                        &&& final(self).active() == old(self).active().insert(internal_id@, after)
                        &&& final(self).client_map() == old(self).client_map()
                        &&& r == (if order.status == OrderStatus::PendingSubmit {
                            Some(OrderEvent::New(after))
                        } else {
                            None
                        })
                    },
                    Err(_) => if order.status == OrderStatus::PendingSubmit {
                        let after = Order { status: OrderStatus::Rejected, updated_at: now, ..order };
                        &&& final(self).active() == old(self).active().remove(internal_id@)
                        &&& final(self).client_map() == old(self).client_map().remove(order.client_order_id@)
                        &&& r == Some(OrderEvent::Rejected(after))
                    } else {
                        &&& r is None
                        &&& final(self).active() == old(self).active()
                        &&& final(self).client_map() == old(self).client_map()
                    },
                }
            }),
            // What is told is what is kept: an order that is done is kept no more.
            r matches Some(event) ==> event == OrderEvent::of(event.order()) && event.order().internal_id@ == internal_id@
                && (event.order().status.is_final() <==> !final(self).active().contains_key(internal_id@)),
            old(self).linked() ==> final(self).linked(),
    {
        proof {
            use_type_invariant(&*self);
        }
        let mut order = match self.active_orders.get(internal_id) {
            Some(order) => order.clone(),
            None => return None,
        };
        match result {
            Ok(ack) => {
                if order.exchange_order_id.is_none() {
                    order.exchange_order_id = ack.exchange_order_id;
                    order.updated_at = now;
                }
                let event = if order.is_pending_submit() {
                    order.mark_at(OrderStatus::New, now);
                    Some(OrderEvent::from(order.clone()))
                } else {
                    None
                };
                self.refile(order);
                event
            },
            Err(_) => if order.is_pending_submit() {
                let client_order_id = order.client_order_id.clone();
                self.forget(internal_id, &client_order_id);
                order.mark_at(OrderStatus::Rejected, now);
                Some(OrderEvent::from(order))
            } else {
                None
            },
        }
    }

    /// Takes in the exchange's answer to a cancellation, and gives the event to tell. The order is
    /// dropped where the exchange confirms; a failure changes nothing.
    pub fn handle_cancel_result(&mut self, internal_id: &String, result: Result<Order, TradingError>) -> (r: Option<
        OrderEvent,
    >)
        ensures
            match result {
                Ok(canceled) => {
                    &&& final(self).active() == old(self).active().remove(internal_id@)
                    &&& final(self).client_map() == old(self).client_map().remove(canceled.client_order_id@)
                    &&& final(self).same_but_orders(*old(self))
                    &&& r == Some(OrderEvent::of(Order { internal_id: *internal_id, ..canceled }))
                    &&& old(self).linked() && old(self).active().contains_key(internal_id@) && old(self).active()[internal_id@].client_order_id@ == canceled.client_order_id@ ==> final(self).linked()
                },
                Err(_) => r is None && *final(self) == *old(self),
            },
    {
        match result {
            Ok(mut canceled) => {
                canceled.internal_id = internal_id.clone();
                self.forget(internal_id, &canceled.client_order_id);
                Some(OrderEvent::from(canceled))
            },
            Err(_) => None,
        }
    }

    /// Takes in a report from the exchange's stream, and gives the event to tell. A report on an
    /// order that is not known changes nothing.
    pub fn handle_ws_event(&mut self, event: &OrderEvent) -> (r: Option<OrderEvent>)
        ensures
            final(self).same_but_orders(*old(self)),
            match reported_order(old(self).active(), old(self).client_map(), event.order()) {
                None => r is None && *final(self) == *old(self),
                Some(id) => {
                    let after = old(self).active()[id].with_exchange_update(event.order());
                    &&& r == Some(OrderEvent::of(after))
                    &&& after.status.is_final() ==> final(self).active() == old(self).active().remove(id) && final(self).client_map() == old(self).client_map().remove(after.client_order_id@)
                    &&& !after.status.is_final() ==> final(self).active() == old(self).active().insert(id, after)
                        && final(self).client_map() == old(self).client_map()
                },
            },
            // What is told is what was reported, and is kept unless the order is done.
            r matches Some(told) ==> {
                &&& told.order().status == event.order().status
                &&& told.order().filled_size@ == event.order().filled_size@
                &&& told.order().status.is_final() <==> !final(self).active().contains_key(told.order().internal_id@)
            },
            old(self).linked() ==> final(self).linked(),
    {
        proof {
            use_type_invariant(&*self);
        }
        let report = event.inner();
        let internal_id = if report.internal_id.as_str().is_empty() {
            match self.client_ids.get(&report.client_order_id) {
                Some(id) => id.clone(),
                None => return None,
            }
        } else {
            report.internal_id.clone()
        };
        let mut order = match self.active_orders.get(&internal_id) {
            Some(order) => order.clone(),
            None => return None,
        };
        order.apply_exchange_update(report);
        if order.is_final_state() {
            self.forget(&internal_id, &order.client_order_id);
        } else {
            self.refile(order.clone());
        }
        Some(OrderEvent::from(order))
    }

    /// The instruments with orders that are not done, each once.
    pub fn keys_to_check(&self) -> (r: Vec<InstrumentKey>)
        ensures
            forall|k: InstrumentKey| #[trigger]
                r@.contains(k) <==> exists|id: Seq<char>| #[trigger]
                    self.active().contains_key(id) && self.active()[id].request.key == k,
            r@.no_duplicates(),
    {
        let n: usize = self.active_orders.len();
        let ghost rows = self.active_orders.rows();
        let mut keys: Vec<InstrumentKey> = Vec::new();
        for i in 0..n
            invariant
                n == rows.len(),
                rows == self.active_orders.rows(),
                forall|k: InstrumentKey| #[trigger]
                    keys@.contains(k) <==> exists|j: int| 0 <= j < i && (#[trigger] rows[j]).1.request.key == k,
                keys@.no_duplicates(),
        {
            let (_, order) = self.active_orders.row(i);
            let key = order.request.key;
            let mut seen: bool = false;
            for j in 0..keys.len()
                invariant
                    seen <==> exists|m: int| 0 <= m < j && #[trigger] keys@[m] == key,
            {
                if keys[j] == key {
                    seen = true;
                }
            }
            let ghost before = keys@;
            if !seen {
                keys.push(key);
            }
            proof {
                assert(before.contains(key) <==> seen);
                assert forall|k: InstrumentKey| #[trigger]
                    keys@.contains(k) <==> exists|j: int| 0 <= j < i + 1 && (#[trigger] rows[j]).1.request.key == k by {
                    assert(rows[i as int].1.request.key == key);
                    if keys@.contains(k) {
                        let m = choose|m: int| 0 <= m < keys@.len() && keys@[m] == k;
                        if m < before.len() {
                            assert(before[m] == k);
                            assert(before.contains(k));
                        }
                    }
                    if exists|j: int| 0 <= j < i + 1 && (#[trigger] rows[j]).1.request.key == k {
                        let j = choose|j: int| 0 <= j < i + 1 && (#[trigger] rows[j]).1.request.key == k;
                        if j < i {
                            assert(before.contains(k));
                        }
                        if before.contains(k) {
                            let m = choose|m: int| 0 <= m < before.len() && before[m] == k;
                            assert(keys@[m] == k);
                        } else {
                            assert(keys@[keys@.len() - 1] == k);
                        }
                    }
                }
            }
        }
        proof {
            assert forall|k: InstrumentKey| #[trigger]
                keys@.contains(k) <==> exists|id: Seq<char>| #[trigger]
                    self.active().contains_key(id) && self.active()[id].request.key == k by {
                if keys@.contains(k) {
                    let j = choose|j: int| 0 <= j < n && (#[trigger] rows[j]).1.request.key == k;
                    assert(self.active().contains_key(crate::table::Key::key(&rows[j].0)));
                }
                if exists|id: Seq<char>| #[trigger]
                    self.active().contains_key(id) && self.active()[id].request.key == k {
                    let id = choose|id: Seq<char>| #[trigger]
                        self.active().contains_key(id) && self.active()[id].request.key == k;
                    assert(crate::table::holds(rows, id));
                    let j = choose|j: int| 0 <= j < rows.len() && crate::table::Key::key(&(#[trigger] rows[j]).0) == id;
                    assert(rows[j].1.request.key == k);
                }
            }
        }
        keys
    }

    /// Whether an order is on an instrument but not among the orders that the exchange holds open
    /// there.
    pub open spec fn is_missing(&self, id: Seq<char>, key: InstrumentKey, open: Seq<Order>) -> bool {
        &&& self.active().contains_key(id)
        &&& self.active()[id].request.key == key
        &&& forall|i: int|
            0 <= i < open.len() ==> (#[trigger] open[i]).client_order_id@ != self.active()[id].client_order_id@
    }

    /// The orders on an instrument that the exchange does not hold open: own identifier and client
    /// identifier of each, every order once.
    pub fn missing_orders(&self, key: InstrumentKey, open: &Vec<Order>) -> (r: Vec<(String, String)>)
        ensures
            forall|i: int|
                #![trigger r@[i]]
                0 <= i < r@.len() ==> self.is_missing(r@[i].0@, key, open@) && r@[i].1@
                    == self.active()[r@[i].0@].client_order_id@,
            forall|id: Seq<char>| #[trigger]
                self.is_missing(id, key, open@) ==> exists|i: int| 0 <= i < r@.len() && (#[trigger] r@[i]).0@ == id,
            forall|i: int, j: int|
                #![trigger r@[i], r@[j]]
                0 <= i < j < r@.len() ==> r@[i].0@ != r@[j].0@,
    {
        let n: usize = self.active_orders.len();
        let ghost rows = self.active_orders.rows();
        let mut out: Vec<(String, String)> = Vec::new();
        let ghost mut from: Seq<int> = Seq::empty();
        for i in 0..n
            invariant
                n == rows.len(),
                rows == self.active_orders.rows(),
                crate::table::distinct(rows),
                from.len() == out@.len(),
                forall|a: int| 0 <= a < from.len() ==> 0 <= #[trigger] from[a] < i && rows[from[a]].0@ == out@[a].0@,
                forall|a: int, b: int|
                    #![trigger from[a], from[b]]
                    0 <= a < b < from.len() ==> from[a] < from[b],
                forall|a: int|
                    #![trigger out@[a]]
                    0 <= a < out@.len() ==> self.is_missing(out@[a].0@, key, open@) && out@[a].1@
                        == self.active()[out@[a].0@].client_order_id@,
                forall|j: int|
                    #![trigger rows[j]]
                    0 <= j < i && self.is_missing(rows[j].0@, key, open@) ==> exists|a: int|
                        0 <= a < out@.len() && (#[trigger] out@[a]).0@ == rows[j].0@,
        {
            let (id, order) = self.active_orders.row(i);
            let mut is_open: bool = false;
            for j in 0..open.len()
                invariant
                    is_open <==> exists|m: int|
                        0 <= m < j && (#[trigger] open@[m]).client_order_id@ == order.client_order_id@,
            {
                if open[j].client_order_id.as_str().eq(order.client_order_id.as_str()) {
                    is_open = true;
                }
            }
            let ghost before = out@;
            if order.request.key == key && !is_open {
                out.push((id.clone(), order.client_order_id.clone()));
                proof {
                    from = from.push(i as int);
                }
            }
            proof {
                assert(rows[i as int].0@ == id@);
                assert forall|j: int|
                    #![trigger rows[j]]
                    0 <= j < i + 1 && self.is_missing(rows[j].0@, key, open@) implies exists|a: int|
                    0 <= a < out@.len() && (#[trigger] out@[a]).0@ == rows[j].0@ by {
                    if j < i {
                        let a = choose|a: int| 0 <= a < before.len() && (#[trigger] before[a]).0@ == rows[j].0@;
                        assert(out@[a] == before[a]);
                    } else {
                        assert(out@[out@.len() - 1].0@ == rows[j].0@);
                    }
                }
            }
        }
        proof {
            assert forall|id: Seq<char>| #[trigger] self.is_missing(id, key, open@) implies exists|a: int|
                0 <= a < out@.len() && (#[trigger] out@[a]).0@ == id by {
                assert(crate::table::holds(rows, id));
                let j = choose|j: int| 0 <= j < rows.len() && crate::table::Key::key(&(#[trigger] rows[j]).0) == id;
                assert(self.is_missing(rows[j].0@, key, open@));
            }
            assert forall|a: int, b: int|
                #![trigger out@[a], out@[b]]
                0 <= a < b < out@.len() implies out@[a].0@ != out@[b].0@ by {
                assert(from[a] < from[b]);
                assert(rows[from[a]].0@ != rows[from[b]].0@);
            }
        }
        out
    }

    /// Takes in the status of an order that the exchange no longer holds open, and gives the event
    /// to tell. Only a final status changes anything: the order is dropped.
    pub fn handle_missing_status(
        &mut self,
        internal_id: &String,
        client_order_id: &String,
        result: Result<Order, TradingError>,
    ) -> (r: Option<OrderEvent>)
        ensures
            match result {
                Ok(status) => if status.status.is_final() {
                    &&& final(self).active() == old(self).active().remove(internal_id@)
                    &&& final(self).client_map() == old(self).client_map().remove(client_order_id@)
                    &&& final(self).same_but_orders(*old(self))
                    &&& r == Some(OrderEvent::of(Order { internal_id: *internal_id, ..status }))
                    &&& old(self).linked() && old(self).active().contains_key(internal_id@) && old(self).active()[internal_id@].client_order_id@ == client_order_id@ ==> final(self).linked()
                } else {
                    r is None && *final(self) == *old(self)
                },
                Err(_) => r is None && *final(self) == *old(self),
            },
    {
        match result {
            Ok(mut status) => {
                status.internal_id = internal_id.clone();
                if !status.is_final_state() {
                    return None;
                }
                self.forget(internal_id, client_order_id);
                Some(OrderEvent::from(status))
            },
            Err(_) => None,
        }
    }

    /// How many orders are not done.
    pub fn active_count(&self) -> (r: usize)
        ensures
            r == self.active().dom().len(),
            self.active().dom().finite(),
    {
        let n: usize = self.active_orders.len();
        proof {
            crate::table::rows_count(self.active_orders.rows(), self.active_orders@);
        }
        n
    }

    /// The order with an identifier, as it stands now.
    pub fn find(&self, internal_id: &String) -> (r: Option<Order>)
        ensures
            match r {
                Some(order) => self.active().contains_key(internal_id@) && order == self.active()[internal_id@],
                None => !self.active().contains_key(internal_id@),
            },
    {
        match self.active_orders.get(internal_id) {
            Some(order) => Some(order.clone()),
            None => None,
        }
    }
}

/// An order after the exchange's acknowledgement: its exchange identifier is taken over where none
/// is known, and a pending order becomes new.
pub open spec fn acknowledged(order: Order, ack: Order, now: UtcTime) -> Order {
    let pending = order.status == OrderStatus::PendingSubmit;
    let unknown = order.exchange_order_id is None;
    Order {
        exchange_order_id: if unknown { ack.exchange_order_id } else { order.exchange_order_id },
        status: if pending { OrderStatus::New } else { order.status },
        updated_at: if unknown || pending { now } else { order.updated_at },
        ..order
    }
}

/// An acknowledgement never takes an order back from what a report has said of it.
pub proof fn acknowledgement_never_downgrades(order: Order, ack: Order, now: UtcTime)
    ensures
        order.status != OrderStatus::PendingSubmit ==> acknowledged(order, ack, now).status == order.status,
        acknowledged(order, ack, now).filled_size == order.filled_size,
        acknowledged(order, ack, now).avg_fill_price == order.avg_fill_price,
{
}

/// The error that goes with a preparation that ends in a refusal.
pub open spec fn refuses(e: TradingError, p: Preparation, instrument: Option<Instrument>, limits: FatFingerConfig) -> bool {
    match p {
        Preparation::UnsupportedInstrument => e is UnsupportedInstrument,
        Preparation::BelowMinNotional(notional) => match e {
            TradingError::MinNotionalViolated { requested, min } => {
                &&& requested@ == notional
                &&& min@ == price_or_zero(decimal::view_opt(instrument->0.min_notional))
            },
            _ => false,
        },
        Preparation::Refused(out, g) => answers_guard(Err(e), g, limits, out),
        _ => false,
    }
}

} // verus!
