use vstd::arithmetic::power;
use vstd::prelude::*;

use crate::decimal;
use crate::decimal::{Dec, MAX_SCALE};
use crate::decimal_laws;
use crate::exchanges::common;
use crate::fill_laws;
use crate::kinds::{FundingInterval, OrderSide, OrderStatus};
use crate::manager::position::WsPositionPatch;
use crate::orders::Position;
use crate::types;
use crate::types::{InstrumentKey, OrderBookSnapshot, PriceLevel};

verus! {

/// A side in capitals is what it says, and nothing else is a side.
pub proof fn capital_side_is_what_it_says(s: Seq<char>)
    ensures
        common::upper_side(s) == Some(OrderSide::Buy) <==> s == "BUY"@,
        common::upper_side(s) == Some(OrderSide::Sell) <==> s == "SELL"@,
{
    reveal_strlit("BUY");
    reveal_strlit("SELL");
    assert("BUY"@.len() != "SELL"@.len());
}

/// The state of a streamed execution is what it says, and nothing else is a state.
pub proof fn capital_status_is_what_it_says(s: Seq<char>)
    ensures
        common::upper_event_status(s) == Some(OrderStatus::New) <==> s == "NEW"@,
        common::upper_event_status(s) == Some(OrderStatus::PartiallyFilled) <==> s == "PARTIALLY_FILLED"@,
        common::upper_event_status(s) == Some(OrderStatus::Filled) <==> s == "FILLED"@,
        common::upper_event_status(s) == Some(OrderStatus::Canceled) <==> s == "CANCELED"@ || s == "EXPIRED"@,
        common::upper_event_status(s) == Some(OrderStatus::Rejected) <==> s == "REJECTED"@,
        common::upper_event_status(s) != Some(OrderStatus::PendingSubmit),
{
    reveal_strlit("NEW");
    reveal_strlit("PARTIALLY_FILLED");
    reveal_strlit("FILLED");
    reveal_strlit("CANCELED");
    reveal_strlit("EXPIRED");
    reveal_strlit("REJECTED");
    assert("NEW"@.len() == 3 && "PARTIALLY_FILLED"@.len() == 16 && "FILLED"@.len() == 6 && "EXPIRED"@.len() == 7);
    assert("CANCELED"@[0] == 'C' && "REJECTED"@[0] == 'R' && "CANCELED"@.len() == 8 && "REJECTED"@.len() == 8);
}

/// A reply names the states of a stream, and two more: one that is about to be new, and one that
/// expired while it was matched.
pub proof fn capital_reply_is_what_it_says(s: Seq<char>)
    ensures
        common::upper_reply_status(s) == Some(OrderStatus::New) <==> s == "NEW"@ || s == "PENDING_NEW"@,
        common::upper_reply_status(s) == Some(OrderStatus::PartiallyFilled) <==> s == "PARTIALLY_FILLED"@,
        common::upper_reply_status(s) == Some(OrderStatus::Filled) <==> s == "FILLED"@,
        common::upper_reply_status(s) == Some(OrderStatus::Canceled) <==> s == "CANCELED"@ || s == "EXPIRED"@ || s
            == "EXPIRED_IN_MATCH"@,
        common::upper_reply_status(s) == Some(OrderStatus::Rejected) <==> s == "REJECTED"@,
{
    capital_status_is_what_it_says(s);
    reveal_strlit("NEW");
    reveal_strlit("PARTIALLY_FILLED");
    reveal_strlit("FILLED");
    reveal_strlit("CANCELED");
    reveal_strlit("EXPIRED");
    reveal_strlit("REJECTED");
    reveal_strlit("PENDING_NEW");
    reveal_strlit("EXPIRED_IN_MATCH");
    assert("PENDING_NEW"@.len() == 11 && "EXPIRED_IN_MATCH"@.len() == 16);
    assert("PARTIALLY_FILLED"@.len() == 16 && "PARTIALLY_FILLED"@[0] == 'P' && "EXPIRED_IN_MATCH"@[0] == 'E');
    assert("NEW"@.len() == 3 && "FILLED"@.len() == 6 && "EXPIRED"@.len() == 7 && "CANCELED"@.len() == 8
        && "REJECTED"@.len() == 8);
}

/// Levels in writing are read one for one: the first word of each is its price, the second its
/// quantity.
pub proof fn levels_are_read_one_for_one(raw: Seq<[String; 2]>)
    requires
        common::levels_of(raw) is Some,
    ensures
        (common::levels_of(raw)->0).len() == raw.len(),
        forall|i: int|
            #![trigger (common::levels_of(raw)->0)[i]]
            0 <= i < raw.len() ==> decimal::parsed(raw[i][0]@) == Some((common::levels_of(raw)->0)[i].0)
                && decimal::parsed(raw[i][1]@) == Some((common::levels_of(raw)->0)[i].1),
    decreases raw.len(),
{
    if raw.len() > 0 {
        levels_are_read_one_for_one(raw.drop_last());
        let front = common::levels_of(raw.drop_last())->0;
        let all = common::levels_of(raw)->0;
        assert forall|i: int| #![trigger all[i]] 0 <= i < raw.len() implies decimal::parsed(raw[i][0]@) == Some(all[i].0)
            && decimal::parsed(raw[i][1]@) == Some(all[i].1) by {
            if i < front.len() {
                assert(all[i] == front[i]);
                assert(raw.drop_last()[i] == raw[i]);
            }
        }
    }
}

/// Whether a level of a book is one in writing: its price and its quantity.
pub open spec fn is_written(level: PriceLevel, raw: [String; 2]) -> bool {
    decimal::parsed(raw[0]@) == Some(level.price@) && decimal::parsed(raw[1]@) == Some(level.quantity@)
}

/// The bids of a book in writing are its bids and the asks its asks, each level as it is written.
pub proof fn book_has_the_written_levels(
    book: OrderBookSnapshot,
    key: InstrumentKey,
    bids: Seq<[String; 2]>,
    asks: Seq<[String; 2]>,
    timestamp_ms: i64,
)
    requires
        common::is_read_book(Some(book), key, bids, asks, timestamp_ms),
    ensures
        book.key == key,
        book.timestamp_ms == timestamp_ms,
        book.timestamp_utc@ == timestamp_ms * 1_000_000,
        book.bids@.len() == bids.len(),
        book.asks@.len() == asks.len(),
        forall|i: int| 0 <= i < bids.len() ==> is_written(#[trigger] book.bids@[i], bids[i]),
        forall|i: int| 0 <= i < asks.len() ==> is_written(#[trigger] book.asks@[i], asks[i]),
        bids.len() > 0 ==> decimal::view_opt(book.best_bid) == decimal::parsed(bids[0][0]@),
        asks.len() > 0 ==> decimal::view_opt(book.best_ask) == decimal::parsed(asks[0][0]@),
{
    levels_are_read_one_for_one(bids);
    levels_are_read_one_for_one(asks);
    let b = common::levels_of(bids)->0;
    let a = common::levels_of(asks)->0;
    assert(b == common::level_views(book.bids@));
    assert(a == common::level_views(book.asks@));
    assert forall|i: int| 0 <= i < bids.len() implies is_written(#[trigger] book.bids@[i], bids[i]) by {
        assert(b[i] == (book.bids@[i].price@, book.bids@[i].quantity@));
    }
    assert forall|i: int| 0 <= i < asks.len() implies is_written(#[trigger] book.asks@[i], asks[i]) by {
        assert(a[i] == (book.asks@[i].price@, book.asks@[i].quantity@));
    }
    if bids.len() > 0 {
        assert(is_written(book.bids@[0], bids[0]));
    }
    if asks.len() > 0 {
        assert(is_written(book.asks@[0], asks[0]));
    }
}

/// What a book tells of its prices follows from the first level of each side: the mid-price is half
/// way between them, and the spread is what the ask is above the bid.
pub proof fn book_prices_follow_from_its_tops(
    book: OrderBookSnapshot,
    key: InstrumentKey,
    bids: Seq<PriceLevel>,
    asks: Seq<PriceLevel>,
    timestamp_utc: crate::time::UtcTime,
    timestamp_ms: i64,
    half: Dec,
)
    requires
        book.is_book(key, bids, asks, timestamp_utc, timestamp_ms),
        bids.len() > 0,
        asks.len() > 0,
        bids[0].price@.wf(),
        asks[0].price@.wf(),
        bids[0].price@.exact_sum(asks[0].price@) is Some,
        asks[0].price@.exact_difference(bids[0].price@) is Some,
        half.wf(),
        2 * half.units() == bids[0].price@.units() + asks[0].price@.units(),
    ensures
        book.best_bid matches Some(b) && b@ == bids[0].price@,
        book.best_ask matches Some(a) && a@ == asks[0].price@,
        book.mid matches Some(m) && 2 * m@.units() == bids[0].price@.units() + asks[0].price@.units(),
        book.spread matches Some(s) && s@.units() == asks[0].price@.units() - bids[0].price@.units(),
{
    let bid = bids[0].price@;
    let ask = asks[0].price@;
    mid_is_half_way(bid, ask, half);
    decimal_laws::difference_units(ask, bid);
}

/// The mid-price is half way between bid and ask, whichever comes first.
pub proof fn mid_is_half_way(bid: Dec, ask: Dec, half: Dec)
    requires
        bid.wf(),
        ask.wf(),
        bid.exact_sum(ask) is Some,
        half.wf(),
        2 * half.units() == bid.units() + ask.units(),
    ensures
        types::mid_price(bid, ask) matches Some(m) && 2 * m.units() == bid.units() + ask.units() && (bid.units()
            <= ask.units() ==> bid.units() <= m.units() <= ask.units()),
{
    decimal_laws::sum_units(bid, ask);
    let total = bid.sum(ask)->0;
    let z = fill_laws::one_in_units();
    power::lemma_pow_positive(10, MAX_SCALE as nat);
    let (h, t) = (half.units(), total.units());
    assert(Dec::two().units() == 2 * z);
    assert(h * (2 * z) == t * z) by (nonlinear_arith)
        requires
            2 * h == t,
    ;
    assert(half.is_quotient(total, Dec::two()));
    decimal_laws::quotient_is_exact(total, Dec::two());
    let m = (total.quotient(Dec::two())->0).units();
    assert(2 * m == t) by (nonlinear_arith)
        requires
            m * (2 * z) == t * z,
            z > 0,
    ;
}

/// A position that gives its signed size is read as it is written: size, entry price, profit and
/// liquidation price from their own words, and none of size zero.
pub proof fn signed_position_is_as_written(
    p: Position,
    key: InstrumentKey,
    size: Seq<char>,
    entry: Seq<char>,
    pnl: Seq<char>,
    liquidation: Seq<char>,
)
    requires
        common::position_is(Some(p), common::signed_position(key, size, entry, pnl, liquidation)),
    ensures
        p.key == key,
        decimal::parsed(size) == Some(p.size@),
        decimal::parsed(entry) == Some(p.entry_price@),
        decimal::parsed(pnl) == Some(p.unrealized_pnl@),
        p.size@.units() != 0,
        p.leverage@.units() == fill_laws::one_in_units(),
        p.liquidation_price matches Some(l) ==> decimal::parsed(liquidation) == Some(l@),
{
    decimal_laws::units_have_sign(p.size@);
}

/// A streamed change that gives its signed size is read as it is written.
pub proof fn signed_patch_is_as_written(
    p: WsPositionPatch,
    key: InstrumentKey,
    size: Seq<char>,
    entry: Seq<char>,
    pnl: Seq<char>,
)
    requires
        common::patch_is(Some(p), common::signed_patch(key, size, entry, pnl)),
    ensures
        p.key == key,
        decimal::parsed(size) == Some(p.size@),
        decimal::parsed(entry) == Some(p.entry_price@),
        decimal::parsed(pnl) == Some(p.unrealized_pnl@),
{
}

/// How many seconds lie between two payments of funding.
pub open spec fn seconds(interval: FundingInterval) -> int {
    match interval {
        FundingInterval::EveryHour => 3_600,
        FundingInterval::Every4Hours => 14_400,
        FundingInterval::Every8Hours => 28_800,
        FundingInterval::CustomSeconds(s) => s as int,
    }
}

/// However it is named, an interval of so many hours is as many times 3600 seconds.
pub proof fn interval_lasts_its_hours(hours: u32)
    requires
        hours <= common::MAX_FUNDING_HOURS,
    ensures
        seconds(common::interval_of_hours(hours)) == hours * 3_600,
{
}

/// A time in milliseconds is the same time in nanoseconds.
pub proof fn milliseconds_are_kept(ms: int)
    ensures
        common::time_of(ms) matches Some(t) ==> t == ms * 1_000_000,
{
}

/// A count of milliseconds that fits a signed number is that number.
pub proof fn signed_millis_keeps_what_fits(ms: u64)
    requires
        ms <= i64::MAX,
    ensures
        common::signed_millis(ms) == ms,
{
}

/// A balance that must not be negative is raised to zero at most.
pub proof fn raised_balance_is_no_debt(d: Dec)
    ensures
        common::at_least_zero(d).units() >= 0,
        d.units() >= 0 ==> common::at_least_zero(d) == d,
        d.units() < 0 ==> common::at_least_zero(d).units() == 0,
{
    decimal_laws::units_have_sign(Dec::zero());
}

} // verus!
