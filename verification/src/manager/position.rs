use vstd::prelude::*;

use crate::decimal::{Dec, Decimal};
use crate::decimal_laws;
use crate::errors::TradingError;
use crate::kinds::{InstrumentType, OrderStatus};
use crate::manager::position_laws;
use crate::orders;
use crate::orders::{Order, OrderEvent, Position};
use crate::table::Table;
use crate::text;
use crate::types::InstrumentKey;

verus! {

/// Settings of a position manager.
#[derive(Clone, Copy, Debug)]
pub struct PositionManagerConfig {
    pub mailbox_capacity: usize,
    pub event_broadcast_capacity: usize,
    /// Seconds between two reconciliations.
    pub reconcile_interval: u64,
}

impl Default for PositionManagerConfig {
    fn default() -> (r: PositionManagerConfig)
        ensures
            r == (PositionManagerConfig {
                mailbox_capacity: 1024,
                event_broadcast_capacity: 1024,
                reconcile_interval: 30,
            }),
    {
        PositionManagerConfig { mailbox_capacity: 1024, event_broadcast_capacity: 1024, reconcile_interval: 30 }
    }
}

/// A change of a position as an exchange streams it.
#[derive(Clone, Copy, Debug, PartialEq)]
pub struct WsPositionPatch {
    pub key: InstrumentKey,
    pub size: Decimal,
    pub entry_price: Decimal,
    pub unrealized_pnl: Decimal,
}

/// Whether an exchange has no positions to fetch, so that asking again is of no use.
pub fn is_not_implemented(error: &TradingError) -> (r: bool)
    ensures
        r == text::has_part(error.text(), "not implemented"@),
{
    text::contains(error.message().as_str(), "not implemented")
}

/// What comes of asking an exchange for its positions.
#[derive(Debug)]
pub enum PollStep {
    /// The positions as they are now.
    Sync(Vec<Position>),
    /// Ask again later; the exchange has no positions to fetch.
    Skip,
    /// Ask again later; this time it failed.
    Retry(String),
    /// Ask no more.
    Stop,
}

/// What comes of a reply. An exchange that has no positions to fetch is asked once more, any other
/// failure is asked again.
pub fn poll_step(first: bool, fetched: Result<Vec<Position>, TradingError>) -> (r: PollStep)
    ensures
        match fetched {
            Ok(positions) => r == PollStep::Sync(positions),
            Err(e) => if !text::has_part(e.text(), "not implemented"@) {
                r matches PollStep::Retry(m) && m@ == e.text()
            } else if first {
                r is Skip
            } else {
                r is Stop
            },
        },
{
    match fetched {
        Ok(positions) => PollStep::Sync(positions),
        Err(e) => if !is_not_implemented(&e) {
            PollStep::Retry(e.message())
        } else if first {
            PollStep::Skip
        } else {
            PollStep::Stop
        },
    }
}

/// The positions after one is put in; one of size zero is not kept.
pub open spec fn kept(positions: Map<InstrumentKey, Position>, p: Position) -> Map<InstrumentKey, Position> {
    if p.size@.is_zero() {
        positions.remove(p.key)
    } else {
        positions.insert(p.key, p)
    }
}

/// The positions that are left of a list: for each key the last one, unless its size is zero.
pub open spec fn all_kept(list: Seq<Position>) -> Map<InstrumentKey, Position>
    decreases list.len(),
{
    if list.len() == 0 {
        Map::empty()
    } else {
        kept(all_kept(list.drop_last()), list.last())
    }
}

/// An order event that moves a position: a fill of something other than spot.
pub open spec fn moves_position(event: OrderEvent) -> bool {
    let order = event.order();
    &&& event is Filled || event is PartiallyFilled
    &&& order.status == OrderStatus::Filled || order.status == OrderStatus::PartiallyFilled
    &&& order.request.key.instrument_type != InstrumentType::Spot
}

/// What was filled of an order when it was last seen.
pub open spec fn seen_fill(fills: Map<Seq<char>, Decimal>, id: Seq<char>) -> Dec {
    if fills.contains_key(id) {
        fills[id]@
    } else {
        Dec::zero()
    }
}

/// The fills that are remembered after an order was filled this far: one that is done need not be
/// remembered.
pub open spec fn fills_after(fills: Map<Seq<char>, Decimal>, order: Order) -> Map<Seq<char>, Decimal> {
    if order.status == OrderStatus::Filled {
        fills.remove(order.internal_id@)
    } else {
        fills.insert(order.internal_id@, order.filled_size)
    }
}

/// The price of a fill; zero where the exchange gives none.
pub open spec fn fill_price(order: Order) -> Dec {
    match order.avg_fill_price {
        Some(p) => p@,
        None => Dec::zero(),
    }
}

/// Size and entry price of an instrument.
pub open spec fn held(positions: Map<InstrumentKey, Position>, key: InstrumentKey) -> (Dec, Dec) {
    if positions.contains_key(key) {
        (positions[key].size@, positions[key].entry_price@)
    } else {
        (Dec::zero(), Dec::zero())
    }
}

/// What an order event does to the positions.
#[derive(Debug)]
pub enum FillOutcome {
    /// Nothing.
    Ignored,
    /// The position is now this one; it is to be told.
    Moved(Position),
    /// The arithmetic overflows.
    Overflow,
}

/// The positions of one exchange. A position of size zero is not kept.
#[derive(Debug)]
pub struct PositionManager {
    positions: Table<InstrumentKey, Position>,
    order_fills: Table<String, Decimal>,
}

impl PositionManager {
    /// The positions, by key.
    pub closed spec fn positions(&self) -> Map<InstrumentKey, Position> {
        self.positions@
    }

    /// How far each order that is not done was filled when it was last seen.
    pub closed spec fn fills(&self) -> Map<Seq<char>, Decimal> {
        self.order_fills@
    }

    /// No position of size zero is kept, and each is filed under its own key.
    #[verifier::type_invariant]
    pub open spec fn inv(self) -> bool {
        forall|k: InstrumentKey| #[trigger]
            self.positions().contains_key(k) ==> self.positions()[k].key == k && !self.positions()[k].size@.is_zero()
    }

    /// A manager without positions.
    pub fn new() -> (r: PositionManager)
        ensures
            r.positions() == Map::<InstrumentKey, Position>::empty(),
            r.fills() == Map::<Seq<char>, Decimal>::empty(),
    {
        PositionManager { positions: Table::new(), order_fills: Table::new() }
    }

    /// The position of an instrument.
    pub fn get_position(&self, key: &InstrumentKey) -> (r: Option<Position>)
        ensures
            match r {
                Some(p) => self.positions().contains_key(*key) && p == self.positions()[*key] && p.key == *key
                    && !p.size@.is_zero(),
                None => !self.positions().contains_key(*key),
            },
    {
        proof {
            use_type_invariant(self);
        }
        match self.positions.get(key) {
            Some(p) => Some(*p),
            None => None,
        }
    }

    /// All positions, each once.
    pub fn get_all_positions(&self) -> (r: Vec<Position>)
        ensures
            forall|i: int|
                #![trigger r@[i]]
                0 <= i < r@.len() ==> self.positions().contains_key(r@[i].key) && self.positions()[r@[i].key] == r@[i],
            forall|k: InstrumentKey| #[trigger]
                self.positions().contains_key(k) ==> exists|i: int| 0 <= i < r@.len() && (#[trigger] r@[i]).key == k,
            forall|i: int, j: int|
                #![trigger r@[i], r@[j]]
                0 <= i < j < r@.len() ==> r@[i].key != r@[j].key,
    {
        proof {
            use_type_invariant(self);
        }
        let n: usize = self.positions.len();
        let ghost rows = self.positions.rows();
        let mut out: Vec<Position> = Vec::new();
        for i in 0..n
            invariant
                self.inv(),
                n == rows.len(),
                rows == self.positions.rows(),
                out@.len() == i,
                forall|j: int|
                    #![trigger rows[j]]
                    0 <= j < n ==> self.positions().contains_key(rows[j].0) && self.positions()[rows[j].0] == rows[j].1,
                forall|j: int| 0 <= j < i ==> #[trigger] out@[j] == rows[j].1,
        {
            let (_, p) = self.positions.row(i);
            out.push(*p);
        }
        proof {
            assert forall|i: int|
                #![trigger out@[i]]
                0 <= i < out@.len() implies self.positions().contains_key(out@[i].key) && self.positions()[out@[i].key]
                == out@[i] by {
                assert(self.positions().contains_key(rows[i].0));
            }
            assert forall|k: InstrumentKey| #[trigger] self.positions().contains_key(k) implies exists|i: int|
                0 <= i < out@.len() && (#[trigger] out@[i]).key == k by {
                assert(crate::table::holds(rows, k));
                let j = choose|j: int| 0 <= j < rows.len() && crate::table::Key::key(&(#[trigger] rows[j]).0) == k;
                assert(out@[j] == rows[j].1);
            }
            assert forall|i: int, j: int|
                #![trigger out@[i], out@[j]]
                0 <= i < j < out@.len() implies out@[i].key != out@[j].key by {
                assert(self.positions().contains_key(rows[i].0));
                assert(self.positions().contains_key(rows[j].0));
            }
        }
        out
    }

    /// Puts a position in, or takes it out where its size is zero.
    fn keep(&mut self, p: Position)
        ensures
            final(self).positions() == kept(old(self).positions(), p),
            final(self).fills() == old(self).fills(),
    {
        proof {
            use_type_invariant(&*self);
        }
        let mut positions: Table<InstrumentKey, Position> = Table::new();
        std::mem::swap(&mut positions, &mut self.positions);
        if p.size.is_zero() {
            let gone = positions.remove(&p.key);
        } else {
            positions.insert(p.key, p);
        }
        proof {
            assert forall|k: InstrumentKey| #[trigger] positions@.contains_key(k) implies positions@[k].key == k
                && !positions@[k].size@.is_zero() by {
                if k != p.key {
                    assert(old(self).positions().contains_key(k));
                }
            }
        }
        self.positions = positions;
    }

    /// Takes over the positions that an exchange reports, in place of all that were known.
    pub fn sync_positions(&mut self, list: &Vec<Position>)
        ensures
            final(self).positions() == all_kept(list@),
            final(self).fills() == old(self).fills(),
    {
        self.positions = Table::new();
        for i in 0..list.len()
            invariant
                self.positions() == all_kept(list@.take(i as int)),
                self.fills() == old(self).fills(),
        {
            assert(list@.take(i + 1).drop_last() =~= list@.take(i as int));
            self.keep(list[i]);
        }
        assert(list@.take(list@.len() as int) =~= list@);
    }

    /// Takes in a change that an exchange streams, and gives the position to tell. Size, entry
    /// price and unrealized profit are the streamed ones; the rest stays as it was known.
    pub fn handle_position_patch(&mut self, patch: &WsPositionPatch) -> (r: Position)
        ensures
            r.key == patch.key,
            r.size == patch.size,
            r.entry_price == patch.entry_price,
            r.unrealized_pnl == patch.unrealized_pnl,
            old(self).positions().contains_key(patch.key) ==> r.leverage == old(self).positions()[patch.key].leverage
                && r.liquidation_price == old(self).positions()[patch.key].liquidation_price,
            !old(self).positions().contains_key(patch.key) ==> r.leverage@ == Dec::one() && r.liquidation_price is None,
            final(self).positions() == kept(old(self).positions(), r),
            position_laws::held_units(final(self).positions(), patch.key) == patch.size@.units(),
            final(self).fills() == old(self).fills(),
    {
        let mut p = match self.get_position(&patch.key) {
            Some(p) => p,
            None => Position { key: patch.key, ..Position::default() },
        };
        p.size = patch.size;
        p.entry_price = patch.entry_price;
        p.unrealized_pnl = patch.unrealized_pnl;
        self.keep(p);
        proof {
            decimal_laws::units_have_sign(p.size@);
        }
        p
    }

    /// What an order event is worth: the position after it, where it moves one. `None` where the
    /// arithmetic overflows.
    pub open spec fn moved(&self, order: Order) -> Option<(Dec, Dec)> {
        let (size, entry) = held(self.positions(), order.request.key);
        match order.filled_size@.difference(seen_fill(self.fills(), order.internal_id@)) {
            None => None,
            Some(fill) => orders::after_fill(size, entry, order.request.side, fill, fill_price(order)),
        }
    }

    /// Whether an order event brings a fill that was not seen yet.
    pub open spec fn is_news(&self, order: Order) -> bool {
        match order.filled_size@.difference(seen_fill(self.fills(), order.internal_id@)) {
            None => true,
            Some(fill) => !fill.is_zero(),
        }
    }

    /// Takes a fill into the position of its instrument. Only what was filled since the order was
    /// last seen counts.
    pub fn handle_order_event(&mut self, event: &OrderEvent) -> (r: FillOutcome)
        ensures
            match r {
                FillOutcome::Ignored => {
                    &&& !moves_position(*event) || !old(self).is_news(event.order())
                    &&& *final(self) == *old(self)
                },
                FillOutcome::Overflow => {
                    &&& moves_position(*event)
                    &&& old(self).is_news(event.order())
                    &&& old(self).moved(event.order()) is None
                    &&& *final(self) == *old(self)
                },
                FillOutcome::Moved(p) => {
                    let order = event.order();
                    &&& moves_position(*event)
                    &&& old(self).is_news(order)
                    &&& p.key == order.request.key
                    &&& old(self).moved(order) == Some((p.size@, p.entry_price@))
                    &&& old(self).positions().contains_key(p.key) ==> p == (Position {
                        size: p.size,
                        entry_price: p.entry_price,
                        ..old(self).positions()[p.key]
                    })
                    &&& !old(self).positions().contains_key(p.key) ==> p.unrealized_pnl@ == Dec::zero() && p.leverage@
                        == Dec::one() && p.liquidation_price is None
                    &&& final(self).positions() == kept(old(self).positions(), p)
                    &&& final(self).fills() == fills_after(old(self).fills(), order)
                },
            },
    {
        let order = match event {
            OrderEvent::Filled(order) => order,
            OrderEvent::PartiallyFilled(order) => order,
            _ => return FillOutcome::Ignored,
        };
        if order.status != OrderStatus::Filled && order.status != OrderStatus::PartiallyFilled {
            return FillOutcome::Ignored;
        }
        let key = order.request.key;
        if key.instrument_type == InstrumentType::Spot {
            return FillOutcome::Ignored;
        }
        let previous = match self.order_fills.get(&order.internal_id) {
            Some(fill) => *fill,
            None => Decimal::zero(),
        };
        let fill = match order.filled_size.checked_sub(previous) {
            Some(fill) => fill,
            None => return FillOutcome::Overflow,
        };
        if fill.is_zero() {
            return FillOutcome::Ignored;
        }
        let price = match order.avg_fill_price {
            Some(price) => price,
            None => Decimal::zero(),
        };
        let mut p = match self.get_position(&key) {
            Some(p) => p,
            None => Position { key, ..Position::default() },
        };
        if !p.checked_apply_fill(order.request.side, fill, price) {
            return FillOutcome::Overflow;
        }
        self.remember_fill(order);
        self.keep(p);
        FillOutcome::Moved(p)
    }

    fn remember_fill(&mut self, order: &Order)
        ensures
            final(self).fills() == fills_after(old(self).fills(), *order),
            final(self).positions() == old(self).positions(),
    {
        proof {
            use_type_invariant(&*self);
        }
        let mut fills: Table<String, Decimal> = Table::new();
        std::mem::swap(&mut fills, &mut self.order_fills);
        if order.status == OrderStatus::Filled {
            let gone = fills.remove(&order.internal_id);
        } else {
            fills.insert(order.internal_id.clone(), order.filled_size);
        }
        self.order_fills = fills;
    }
}

/// An event on a partly filled order that comes a second time finds nothing new.
pub proof fn repeated_partial_fill_is_no_news(fills: Map<Seq<char>, Decimal>, order: Order)
    requires
        order.status == OrderStatus::PartiallyFilled,
        order.filled_size@.wf(),
    ensures
        ({
            let seen = seen_fill(fills_after(fills, order), order.internal_id@);
            let again = order.filled_size@.difference(seen);
            again is Some && (again->0).is_zero()
        }),
{
    let f = order.filled_size@;
    decimal_laws::aligned_at_own_scale(f);
}

/// A list without zero sizes and without repeated keys is kept as it is.
pub proof fn sync_keeps_every_listed_position(list: Seq<Position>, i: int)
    requires
        0 <= i < list.len(),
        forall|j: int| #![trigger list[j]] 0 <= j < list.len() ==> !list[j].size@.is_zero(),
        forall|j: int, k: int|
            #![trigger list[j], list[k]]
            0 <= j < k < list.len() ==> list[j].key != list[k].key,
    ensures
        all_kept(list).contains_key(list[i].key),
        all_kept(list)[list[i].key] == list[i],
    decreases list.len(),
{
    let front = list.drop_last();
    if i < front.len() {
        assert forall|j: int| #![trigger front[j]] 0 <= j < front.len() implies !front[j].size@.is_zero() by {
            assert(front[j] == list[j]);
        }
        assert forall|j: int, k: int| #![trigger front[j], front[k]] 0 <= j < k < front.len() implies front[j].key
            != front[k].key by {
            assert(front[j] == list[j] && front[k] == list[k]);
        }
        sync_keeps_every_listed_position(front, i);
        assert(front[i] == list[i]);
        assert(list[list.len() - 1].key != list[i].key);
    }
}

} // verus!
