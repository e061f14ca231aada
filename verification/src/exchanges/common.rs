use vstd::prelude::*;

use crate::decimal;
use crate::decimal::{Dec, Decimal};
use crate::kinds::{Currency, Exchange, FundingInterval, InstrumentType, OrderSide, OrderStatus, OrderType, Pairs};
use crate::manager::position::WsPositionPatch;
use crate::manager::types::{AccountPartitionRef, BalanceView, CollateralScope, PartitionKind};
use crate::orders::{Order, OrderEvent, Position};
use crate::text::concat;
use crate::time;
use crate::time::UtcTime;
use crate::types;
use crate::types::{FundingRatePoint, FundingRateSnapshot, Instrument, InstrumentKey, OrderBookSnapshot, PriceLevel};

verus! {

/// A sum, difference or quotient has no value.
#[derive(Clone, Copy, Debug, PartialEq, Eq, Structural)]
pub struct Overflow;

/// The text of an optional text.
pub open spec fn opt_view(s: Option<String>) -> Option<Seq<char>> {
    match s {
        Some(s) => Some(s@),
        None => None,
    }
}

/// A number that is read, unless it is zero.
pub open spec fn nonzero(d: Option<Dec>) -> Option<Dec> {
    match d {
        Some(d) => if d.is_zero() { None } else { Some(d) },
        None => None,
    }
}

/// A number, or zero where none can be read.
pub open spec fn or_zero(d: Option<Dec>) -> Dec {
    match d {
        Some(d) => d,
        None => Dec::zero(),
    }
}

/// Reads a number; zero counts as none.
pub fn read_nonzero(s: &str) -> (r: Option<Decimal>)
    ensures
        decimal::view_opt(r) == nonzero(decimal::parsed(s@)),
{
    match Decimal::from_str(s) {
        Some(d) => if d.is_zero() { None } else { Some(d) },
        None => None,
    }
}

/// Reads a number; zero where none can be read.
pub fn read_or_zero(s: &str) -> (r: Decimal)
    ensures
        r@ == or_zero(decimal::parsed(s@)),
{
    match Decimal::from_str(s) {
        Some(d) => d,
        None => Decimal::zero(),
    }
}

/// A number that is not below zero: the number itself, or zero.
pub open spec fn at_least_zero(d: Dec) -> Dec {
    if d.lt(Dec::zero()) {
        Dec::zero()
    } else {
        d
    }
}

pub fn raise_to_zero(d: Decimal) -> (r: Decimal)
    ensures
        r@ == at_least_zero(d@),
{
    if d.less_than(Decimal::zero()) {
        Decimal::zero()
    } else {
        d
    }
}

/// The number that a text holds, if there is a text.
pub open spec fn read_opt(text: Option<Seq<char>>) -> Option<Dec> {
    match text {
        Some(s) => decimal::parsed(s),
        None => None,
    }
}

/// Reads the number that a text holds, if there is a text; zero counts as none.
pub fn read_nonzero_opt(text: &Option<String>) -> (r: Option<Decimal>)
    ensures
        decimal::view_opt(r) == nonzero(read_opt(opt_view(*text))),
{
    match text {
        Some(s) => read_nonzero(s.as_str()),
        None => None,
    }
}

/// The time so many milliseconds after the start of 1970, in nanoseconds.
pub open spec fn time_of(ms: int) -> Option<int> {
    if time::millis_in_calendar(ms) {
        Some(ms * 1_000_000)
    } else {
        None
    }
}

/// What is to be known of an order.
pub struct OrderFacts {
    pub internal_id: Seq<char>,
    pub strategy_id: Seq<char>,
    pub client_order_id: Seq<char>,
    pub exchange_order_id: Option<Seq<char>>,
    pub key: InstrumentKey,
    pub request_strategy: Seq<char>,
    pub side: OrderSide,
    pub order_type: OrderType,
    pub price: Option<Dec>,
    pub size: Dec,
    pub post_only: bool,
    pub reduce_only: bool,
    pub status: OrderStatus,
    pub filled_size: Dec,
    pub avg_fill_price: Option<Dec>,
    pub created_at: int,
    pub updated_at: int,
}

impl Order {
    pub open spec fn facts(self) -> OrderFacts {
        OrderFacts {
            internal_id: self.internal_id@,
            strategy_id: self.strategy_id@,
            client_order_id: self.client_order_id@,
            exchange_order_id: opt_view(self.exchange_order_id),
            key: self.request.key,
            request_strategy: self.request.strategy_id@,
            side: self.request.side,
            order_type: self.request.order_type,
            price: decimal::view_opt(self.request.price),
            size: self.request.size@,
            post_only: self.request.post_only,
            reduce_only: self.request.reduce_only,
            status: self.status,
            filled_size: self.filled_size@,
            avg_fill_price: decimal::view_opt(self.avg_fill_price),
            created_at: self.created_at@,
            updated_at: self.updated_at@,
        }
    }
}

/// What is to be known of a position.
pub struct PositionFacts {
    pub key: InstrumentKey,
    pub size: Dec,
    pub entry_price: Dec,
    pub unrealized_pnl: Dec,
    pub leverage: Dec,
    pub liquidation_price: Option<Dec>,
}

impl Position {
    pub open spec fn facts(self) -> PositionFacts {
        PositionFacts {
            key: self.key,
            size: self.size@,
            entry_price: self.entry_price@,
            unrealized_pnl: self.unrealized_pnl@,
            leverage: self.leverage@,
            liquidation_price: decimal::view_opt(self.liquidation_price),
        }
    }
}

/// What is to be known of a streamed change of a position.
pub struct PatchFacts {
    pub key: InstrumentKey,
    pub size: Dec,
    pub entry_price: Dec,
    pub unrealized_pnl: Dec,
}

impl WsPositionPatch {
    pub open spec fn facts(self) -> PatchFacts {
        PatchFacts {
            key: self.key,
            size: self.size@,
            entry_price: self.entry_price@,
            unrealized_pnl: self.unrealized_pnl@,
        }
    }
}

/// A kind of account part by its name.
pub enum KindFacts {
    Unified,
    Spot,
    Swap,
    Margin,
    Funding,
    Options,
    Other(Seq<char>),
}

/// What is to be known of a part of an account.
pub struct PartFacts {
    pub exchange: Exchange,
    pub kind: KindFacts,
    pub account_id: Option<Seq<char>>,
}

impl AccountPartitionRef {
    pub open spec fn facts(self) -> PartFacts {
        PartFacts {
            exchange: self.exchange,
            kind: match self.kind {
                PartitionKind::Unified => KindFacts::Unified,
                PartitionKind::Spot => KindFacts::Spot,
                PartitionKind::Swap => KindFacts::Swap,
                PartitionKind::Margin => KindFacts::Margin,
                PartitionKind::Funding => KindFacts::Funding,
                PartitionKind::Options => KindFacts::Options,
                PartitionKind::Other(name) => KindFacts::Other(name@),
            },
            account_id: opt_view(self.account_id),
        }
    }
}

/// What is to be known of a balance.
pub struct BalanceFacts {
    pub exchange: Exchange,
    pub partition: Option<PartFacts>,
    pub asset: Currency,
    pub total: Dec,
    pub free: Dec,
    pub locked: Dec,
    pub borrowed: Dec,
    pub unrealized_pnl: Dec,
    pub scope: CollateralScope,
    pub as_of: int,
}

impl BalanceView {
    pub open spec fn facts(self) -> BalanceFacts {
        BalanceFacts {
            exchange: self.exchange,
            partition: match self.partition {
                Some(p) => Some(p.facts()),
                None => None,
            },
            asset: self.asset,
            total: self.total@,
            free: self.free@,
            locked: self.locked@,
            borrowed: self.borrowed@,
            unrealized_pnl: self.unrealized_pnl@,
            scope: self.collateral_scope,
            as_of: self.as_of_utc@,
        }
    }
}

/// What is to be known of a funding rate.
pub struct RateFacts {
    pub key: InstrumentKey,
    pub funding_rate: Dec,
    pub mark_price: Dec,
    pub index_price: Dec,
    pub interest_rate: Option<Dec>,
    pub next_funding_ms: i64,
    pub next_funding_time: int,
    pub event_ms: i64,
    pub event_time: int,
    pub interval: FundingInterval,
}

impl FundingRateSnapshot {
    pub open spec fn facts(self) -> RateFacts {
        RateFacts {
            key: self.key,
            funding_rate: self.funding_rate@,
            mark_price: self.mark_price@,
            index_price: self.index_price@,
            interest_rate: decimal::view_opt(self.interest_rate),
            next_funding_ms: self.next_funding_time_ms,
            next_funding_time: self.next_funding_time_utc@,
            event_ms: self.event_time_ms,
            event_time: self.event_time_utc@,
            interval: self.interval,
        }
    }
}

/// What is to be known of a past funding rate.
pub struct PointFacts {
    pub funding_rate: Dec,
    pub event_ms: i64,
    pub event_time: int,
}

impl FundingRatePoint {
    pub open spec fn facts(self) -> PointFacts {
        PointFacts {
            funding_rate: self.funding_rate@,
            event_ms: self.event_time_ms,
            event_time: self.event_time_utc@,
        }
    }
}

/// What is to be known of an instrument.
pub struct InstrumentFacts {
    pub key: InstrumentKey,
    pub exchange_symbol: Seq<char>,
    pub exchange_id: Seq<char>,
    pub tick_size: Dec,
    pub lot_size: Dec,
    pub min_notional: Option<Dec>,
    pub contract_size: Option<Dec>,
    pub multiplier: Dec,
    pub funding_interval: Option<FundingInterval>,
}

impl Instrument {
    pub open spec fn facts(self) -> InstrumentFacts {
        InstrumentFacts {
            key: self.key,
            exchange_symbol: self.exchange_symbol@,
            exchange_id: self.exchange_id@,
            tick_size: self.tick_size@,
            lot_size: self.lot_size@,
            min_notional: decimal::view_opt(self.min_notional),
            contract_size: decimal::view_opt(self.contract_size),
            multiplier: self.multiplier@,
            funding_interval: self.funding_interval,
        }
    }
}

/// A point of a rate and a time in writing; `None` where either cannot be read.
pub open spec fn point_of(rate: Seq<char>, ms: int) -> Option<PointFacts> {
    match (decimal::parsed(rate), time_of(ms)) {
        (Some(funding_rate), Some(event_time)) => Some(PointFacts { funding_rate, event_ms: ms as i64, event_time }),
        _ => None,
    }
}

/// Instruments as facts.
pub open spec fn instrument_views(list: Seq<Instrument>) -> Seq<InstrumentFacts> {
    list.map_values(|i: Instrument| i.facts())
}

/// Changes of positions as facts.
pub open spec fn patch_views(list: Seq<WsPositionPatch>) -> Seq<PatchFacts> {
    list.map_values(|p: WsPositionPatch| p.facts())
}

/// Orders as facts.
pub open spec fn order_views(list: Seq<Order>) -> Seq<OrderFacts> {
    list.map_values(|o: Order| o.facts())
}

/// Positions as facts.
pub open spec fn position_views(list: Seq<Position>) -> Seq<PositionFacts> {
    list.map_values(|p: Position| p.facts())
}

/// Points as facts.
pub open spec fn point_views(points: Seq<FundingRatePoint>) -> Seq<PointFacts> {
    points.map_values(|p: FundingRatePoint| p.facts())
}

/// Parts as facts.
pub open spec fn part_views(parts: Seq<AccountPartitionRef>) -> Seq<PartFacts> {
    parts.map_values(|p: AccountPartitionRef| p.facts())
}

/// Balances as facts.
pub open spec fn balance_views(balances: Seq<BalanceView>) -> Seq<BalanceFacts> {
    balances.map_values(|b: BalanceView| b.facts())
}

/// Whether a result is what a balance comes to.
pub open spec fn balance_is(
    r: Result<Option<BalanceView>, Overflow>,
    b: Result<Option<BalanceFacts>, Overflow>,
) -> bool {
    match (r, b) {
        (Ok(Some(view)), Ok(Some(facts))) => view.facts() == facts,
        (Ok(None), Ok(None)) => true,
        (Err(_), Err(_)) => true,
        _ => false,
    }
}

/// A list of balances with one more; one that cannot be read is left out.
pub open spec fn with_balance(
    front: Result<Seq<BalanceFacts>, Overflow>,
    last: Result<Option<BalanceFacts>, Overflow>,
) -> Result<Seq<BalanceFacts>, Overflow> {
    match (front, last) {
        (Ok(list), Ok(Some(b))) => Ok(list.push(b)),
        (Ok(list), Ok(None)) => Ok(list),
        _ => Err(Overflow),
    }
}

pub fn make_point(rate: &str, ms: i64) -> (r: Option<FundingRatePoint>)
    ensures
        match r {
            Some(p) => point_of(rate@, ms as int) == Some(p.facts()),
            None => point_of(rate@, ms as int) is None,
        },
{
    match (Decimal::from_str(rate), UtcTime::from_millis(ms)) {
        (Some(funding_rate), Some(event_time_utc)) => Some(
            FundingRatePoint { funding_rate, event_time_utc, event_time_ms: ms },
        ),
        _ => None,
    }
}

/// A price and a quantity in writing as a level; `None` where either cannot be read.
pub open spec fn level_of(price: Seq<char>, quantity: Seq<char>) -> Option<(Dec, Dec)> {
    match (decimal::parsed(price), decimal::parsed(quantity)) {
        (Some(p), Some(q)) => Some((p, q)),
        _ => None,
    }
}

/// Levels as numbers.
pub open spec fn level_views(levels: Seq<PriceLevel>) -> Seq<(Dec, Dec)> {
    levels.map_values(|l: PriceLevel| (l.price@, l.quantity@))
}

/// Levels in writing as numbers, where all of them can be read.
pub open spec fn levels_of(raw: Seq<[String; 2]>) -> Option<Seq<(Dec, Dec)>>
    decreases raw.len(),
{
    if raw.len() == 0 {
        Some(Seq::empty())
    } else {
        match (levels_of(raw.drop_last()), level_of(raw.last()[0]@, raw.last()[1]@)) {
            (Some(front), Some(level)) => Some(front.push(level)),
            _ => None,
        }
    }
}

/// A level that is written as a price and a quantity.
pub fn raw_level_to_price_level(raw: &[String; 2]) -> (r: Option<PriceLevel>)
    ensures
        match r {
            Some(l) => level_of(raw[0]@, raw[1]@) == Some((l.price@, l.quantity@)),
            None => level_of(raw[0]@, raw[1]@) is None,
        },
{
    match (Decimal::from_str(raw[0].as_str()), Decimal::from_str(raw[1].as_str())) {
        (Some(price), Some(quantity)) => Some(PriceLevel { price, quantity }),
        _ => None,
    }
}

/// Levels in writing; `None` where one of them cannot be read.
pub fn read_levels(raw: &Vec<[String; 2]>) -> (r: Option<Vec<PriceLevel>>)
    ensures
        match r {
            Some(levels) => levels_of(raw@) == Some(level_views(levels@)),
            None => levels_of(raw@) is None,
        },
{
    let mut levels: Vec<PriceLevel> = Vec::new();
    assert(level_views(levels@) =~= Seq::<(Dec, Dec)>::empty());
    for i in 0..raw.len()
        invariant
            levels_of(raw@.take(i as int)) == Some(level_views(levels@)),
    {
        assert(raw@.take(i + 1).drop_last() =~= raw@.take(i as int));
        match raw_level_to_price_level(&raw[i]) {
            Some(level) => {
                let ghost before = levels@;
                levels.push(level);
                assert(level_views(levels@) =~= level_views(before).push((level.price@, level.quantity@)));
            },
            None => {
                proof {
                    bad_level_stays(raw@, i + 1);
                }
                return None;
            },
        }
    }
    assert(raw@.take(raw@.len() as int) =~= raw@);
    Some(levels)
}

proof fn bad_level_stays(raw: Seq<[String; 2]>, i: int)
    requires
        0 <= i <= raw.len(),
        levels_of(raw.take(i)) is None,
    ensures
        levels_of(raw) is None,
    decreases raw.len() - i,
{
    if i < raw.len() {
        assert(raw.take(i + 1).drop_last() =~= raw.take(i));
        bad_level_stays(raw, i + 1);
    } else {
        assert(raw.take(i) =~= raw);
    }
}

/// The first price of levels in writing.
pub open spec fn first_price(levels: Option<Seq<(Dec, Dec)>>) -> Option<Dec> {
    match levels {
        Some(l) => if l.len() == 0 { None } else { Some(l[0].0) },
        None => None,
    }
}

/// Whether mid-price and spread of a book in writing have a value.
pub open spec fn raw_book_computes(bids: Seq<[String; 2]>, asks: Seq<[String; 2]>) -> bool {
    match (first_price(levels_of(bids)), first_price(levels_of(asks))) {
        (Some(bid), Some(ask)) => types::mid_price(bid, ask) is Some && ask.difference(bid) is Some,
        _ => true,
    }
}

/// Whether a snapshot is the one of a book in writing.
pub open spec fn is_raw_book(
    book: OrderBookSnapshot,
    key: InstrumentKey,
    bids: Seq<[String; 2]>,
    asks: Seq<[String; 2]>,
    timestamp_ms: i64,
) -> bool {
    &&& levels_of(bids) == Some(level_views(book.bids@))
    &&& levels_of(asks) == Some(level_views(book.asks@))
    &&& book.is_book(key, book.bids@, book.asks@, book.timestamp_utc, timestamp_ms)
}

/// Whether a result is the book of levels in writing, with `None` where one of them or the time
/// cannot be read.
pub open spec fn is_read_book(
    r: Option<OrderBookSnapshot>,
    key: InstrumentKey,
    bids: Seq<[String; 2]>,
    asks: Seq<[String; 2]>,
    timestamp_ms: i64,
) -> bool {
    &&& r is Some <==> levels_of(bids) is Some && levels_of(asks) is Some && time::millis_in_calendar(
        timestamp_ms as int,
    )
    &&& r matches Some(book) ==> is_raw_book(book, key, bids, asks, timestamp_ms) && book.timestamp_utc@
        == timestamp_ms * 1_000_000
}

/// A book in writing at a time; `Ok(None)` where something cannot be read.
pub fn make_book(
    key: InstrumentKey,
    bids: &Vec<[String; 2]>,
    asks: &Vec<[String; 2]>,
    timestamp_utc: UtcTime,
    timestamp_ms: i64,
) -> (r: Result<Option<OrderBookSnapshot>, Overflow>)
    ensures
        match r {
            Ok(None) => levels_of(bids@) is None || levels_of(asks@) is None,
            Ok(Some(book)) => is_raw_book(book, key, bids@, asks@, timestamp_ms) && book.timestamp_utc == timestamp_utc
                && raw_book_computes(bids@, asks@),
            Err(_) => levels_of(bids@) is Some && levels_of(asks@) is Some && !raw_book_computes(bids@, asks@),
        },
{
    match (read_levels(bids), read_levels(asks)) {
        (Some(bid_levels), Some(ask_levels)) => {
            assert(first_price(levels_of(bids@)) == types::top_price(bid_levels@));
            assert(first_price(levels_of(asks@)) == types::top_price(ask_levels@));
            match OrderBookSnapshot::checked_new(key, bid_levels, ask_levels, timestamp_utc, timestamp_ms) {
                Some(book) => Ok(Some(book)),
                None => Err(Overflow),
            }
        },
        _ => Ok(None),
    }
}

/// The side that an exchange names.
pub open spec fn upper_side(s: Seq<char>) -> Option<OrderSide> {
    if s == "BUY"@ {
        Some(OrderSide::Buy)
    } else if s == "SELL"@ {
        Some(OrderSide::Sell)
    } else {
        None
    }
}

pub fn read_upper_side(s: &str) -> (r: Option<OrderSide>)
    ensures
        r == upper_side(s@),
{
    if s.eq("BUY") {
        Some(OrderSide::Buy)
    } else if s.eq("SELL") {
        Some(OrderSide::Sell)
    } else {
        None
    }
}

/// The state that a streamed execution names.
pub open spec fn upper_event_status(s: Seq<char>) -> Option<OrderStatus> {
    if s == "NEW"@ {
        Some(OrderStatus::New)
    } else if s == "PARTIALLY_FILLED"@ {
        Some(OrderStatus::PartiallyFilled)
    } else if s == "FILLED"@ {
        Some(OrderStatus::Filled)
    } else if s == "CANCELED"@ || s == "EXPIRED"@ {
        Some(OrderStatus::Canceled)
    } else if s == "REJECTED"@ {
        Some(OrderStatus::Rejected)
    } else {
        None
    }
}

pub fn read_upper_event_status(s: &str) -> (r: Option<OrderStatus>)
    ensures
        r == upper_event_status(s@),
{
    if s.eq("NEW") {
        Some(OrderStatus::New)
    } else if s.eq("PARTIALLY_FILLED") {
        Some(OrderStatus::PartiallyFilled)
    } else if s.eq("FILLED") {
        Some(OrderStatus::Filled)
    } else if s.eq("CANCELED") || s.eq("EXPIRED") {
        Some(OrderStatus::Canceled)
    } else if s.eq("REJECTED") {
        Some(OrderStatus::Rejected)
    } else {
        None
    }
}

/// The state that the reply to an order request names: besides those of streamed executions an
/// order that is about to be new, and one that expired while it was matched.
pub open spec fn upper_reply_status(s: Seq<char>) -> Option<OrderStatus> {
    if s == "PENDING_NEW"@ {
        Some(OrderStatus::New)
    } else if s == "EXPIRED_IN_MATCH"@ {
        Some(OrderStatus::Canceled)
    } else {
        upper_event_status(s)
    }
}

pub fn read_upper_reply_status(s: &str) -> (r: Option<OrderStatus>)
    ensures
        r == upper_reply_status(s@),
{
    if s.eq("PENDING_NEW") {
        Some(OrderStatus::New)
    } else if s.eq("EXPIRED_IN_MATCH") {
        Some(OrderStatus::Canceled)
    } else {
        read_upper_event_status(s)
    }
}

/// Whether a result is the order with such facts.
pub open spec fn order_is(r: Option<Order>, facts: Option<OrderFacts>) -> bool {
    match r {
        Some(order) => facts == Some(order.facts()),
        None => facts is None,
    }
}

/// Whether a result is the event of the order with such facts.
pub open spec fn event_is(r: Option<OrderEvent>, facts: Option<OrderFacts>) -> bool {
    match r {
        Some(event) => facts == Some(event.order().facts()) && event == OrderEvent::of(event.order()),
        None => facts is None,
    }
}

/// Whether a result is the position with such facts.
pub open spec fn position_is(r: Option<Position>, facts: Option<PositionFacts>) -> bool {
    match r {
        Some(p) => facts == Some(p.facts()),
        None => facts is None,
    }
}

/// Whether a result is the change with such facts.
pub open spec fn patch_is(r: Option<WsPositionPatch>, facts: Option<PatchFacts>) -> bool {
    match r {
        Some(p) => facts == Some(p.facts()),
        None => facts is None,
    }
}

/// A position at an exchange that gives its signed size, unless the size is zero.
pub open spec fn signed_position(
    key: InstrumentKey,
    size: Seq<char>,
    entry: Seq<char>,
    pnl: Seq<char>,
    liquidation: Seq<char>,
) -> Option<PositionFacts> {
    match (nonzero(decimal::parsed(size)), decimal::parsed(entry), decimal::parsed(pnl)) {
        (Some(size), Some(entry_price), Some(unrealized_pnl)) => Some(
            PositionFacts {
                key,
                size,
                entry_price,
                unrealized_pnl,
                leverage: Dec::one(),
                liquidation_price: nonzero(decimal::parsed(liquidation)),
            },
        ),
        _ => None,
    }
}

pub fn make_signed_position(key: InstrumentKey, size: &str, entry: &str, pnl: &str, liquidation: &str) -> (r: Option<
    Position,
>)
    ensures
        position_is(r, signed_position(key, size@, entry@, pnl@, liquidation@)),
{
    match (read_nonzero(size), Decimal::from_str(entry), Decimal::from_str(pnl)) {
        (Some(size), Some(entry_price), Some(unrealized_pnl)) => Some(
            Position {
                key,
                size,
                entry_price,
                unrealized_pnl,
                leverage: Decimal::one(),
                liquidation_price: read_nonzero(liquidation),
            },
        ),
        _ => None,
    }
}

/// A streamed change of a position at an exchange that gives its signed size. Size zero tells
/// that the position is closed.
pub open spec fn signed_patch(key: InstrumentKey, size: Seq<char>, entry: Seq<char>, pnl: Seq<char>) -> Option<PatchFacts> {
    match (decimal::parsed(size), decimal::parsed(entry), decimal::parsed(pnl)) {
        (Some(size), Some(entry_price), Some(unrealized_pnl)) => Some(
            PatchFacts { key, size, entry_price, unrealized_pnl },
        ),
        _ => None,
    }
}

pub fn make_signed_patch(key: InstrumentKey, size: &str, entry: &str, pnl: &str) -> (r: Option<WsPositionPatch>)
    ensures
        patch_is(r, signed_patch(key, size@, entry@, pnl@)),
{
    match (Decimal::from_str(size), Decimal::from_str(entry), Decimal::from_str(pnl)) {
        (Some(size), Some(entry_price), Some(unrealized_pnl)) => Some(
            WsPositionPatch { key, size, entry_price, unrealized_pnl },
        ),
        _ => None,
    }
}

/// The symbol of a pair: base and quote currency, one after the other.
pub fn pairs_to_symbol(pair: Pairs) -> (r: String)
    ensures
        r@ == pair.text(),
{
    proof {
        crate::kinds::pairs_text_is_base_and_quote(pair);
    }
    concat(pair.base().to_string().as_str(), pair.quote().to_string().as_str())
}

/// The time so many milliseconds after the start of 1970, if the calendar reaches that far.
pub fn ms_to_datetime(ms: i64) -> (r: Option<UtcTime>)
    ensures
        r is Some <==> time::millis_in_calendar(ms as int),
        r matches Some(t) ==> t@ == ms * 1_000_000,
{
    UtcTime::from_millis(ms)
}

/// A number of milliseconds that is read as one with a sign: those from the middle of the range on
/// are negative.
pub open spec fn signed_millis(ms: u64) -> int {
    if ms <= i64::MAX {
        ms as int
    } else {
        ms - 0x1_0000_0000_0000_0000
    }
}

pub fn to_signed(ms: u64) -> (r: i64)
    ensures
        r == signed_millis(ms),
{
    if ms <= i64::MAX as u64 {
        ms as i64
    } else {
        -((u64::MAX - ms) as i64) - 1
    }
}

/// What is to be known of a perpetual future.
pub struct SwapFacts {
    pub symbol: Seq<char>,
    pub base_currency: Currency,
    pub quote_currency: Currency,
    pub pairs: Pairs,
    pub tick_size: Dec,
    pub lot_size: Dec,
    pub min_notional: Option<Dec>,
    pub is_trading_allowed: bool,
    pub funding_interval: Option<FundingInterval>,
}

impl SwapFacts {
    /// The instrument that a perpetual future is on an exchange.
    pub open spec fn instrument(self, exchange: Exchange) -> InstrumentFacts {
        InstrumentFacts {
            key: InstrumentKey { exchange, pair: self.pairs, instrument_type: InstrumentType::Swap },
            exchange_symbol: self.symbol,
            exchange_id: self.symbol,
            tick_size: self.tick_size,
            lot_size: self.lot_size,
            min_notional: self.min_notional,
            contract_size: Some(Dec::one()),
            multiplier: Dec::one(),
            funding_interval: self.funding_interval,
        }
    }
}

/// How often funding is paid, in hours.
pub open spec fn interval_of_hours(hours: u32) -> FundingInterval {
    if hours == 1 {
        FundingInterval::EveryHour
    } else if hours == 4 {
        FundingInterval::Every4Hours
    } else if hours == 8 {
        FundingInterval::Every8Hours
    } else {
        FundingInterval::CustomSeconds((hours * 3600) as u32)
    }
}

/// The most hours whose seconds can be counted.
pub const MAX_FUNDING_HOURS: u32 = 1_193_046;

/// How often funding is paid, in hours.
pub fn hours_to_funding_interval(hours: u32) -> (r: FundingInterval)
    requires
        hours <= MAX_FUNDING_HOURS,
    ensures
        r == interval_of_hours(hours),
{
    match hours {
        1 => FundingInterval::EveryHour,
        4 => FundingInterval::Every4Hours,
        8 => FundingInterval::Every8Hours,
        h => FundingInterval::CustomSeconds(h * 3600),
    }
}

/// What an exchange says of an instrument, read into the terms of the library.
pub trait BaseInstrumentMeta {
    fn symbol(&self) -> &str;

    fn base_currency(&self) -> Currency;

    fn quote_currency(&self) -> Currency;

    fn pairs(&self) -> Pairs;

    fn is_derivative(&self) -> bool;

    fn is_trading_allowed(&self) -> bool;

    fn tick_size(&self) -> Decimal;

    fn lot_size(&self) -> Decimal;

    fn min_notional(&self) -> Option<Decimal>;
}

/// An instrument without an expiry.
pub trait SwapInstrumentMeta: BaseInstrumentMeta {
    fn contract_size(&self) -> Option<Decimal>;

    fn funding_interval(&self) -> Option<FundingInterval>;
}

/// An instrument that is delivered at once.
pub trait SpotInstrumentMeta: BaseInstrumentMeta {}

} // verus!
