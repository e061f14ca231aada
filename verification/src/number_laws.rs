use vstd::prelude::*;

use crate::decimal::{Dec, Decimal};
use crate::decimal_laws;
use crate::time::UtcTime;

verus! {

/// Of two numbers either one is the smaller or they are equal, whatever their scales, and what is
/// not larger is smaller or equal.
pub proof fn numbers_are_ordered(a: Decimal, b: Decimal, less: bool, at_most: bool, equal: bool, more: bool)
    requires
        call_ensures(Decimal::less_than, (a, b), less),
        call_ensures(Decimal::at_most, (a, b), at_most),
        call_ensures(Decimal::equals, (a, b), equal),
        call_ensures(Decimal::less_than, (b, a), more),
    ensures
        less <==> a@.units() < b@.units(),
        equal <==> a@.units() == b@.units(),
        at_most <==> less || equal,
        !more <==> at_most,
{
}

/// What was added and is taken away again leaves the number.
pub proof fn taking_away_undoes_adding(a: Decimal, b: Decimal, sum: Decimal, back: Decimal)
    requires
        a@.wf(),
        b@.wf(),
        a@.exact_sum(b@) is Some,
        sum@.exact_difference(b@) is Some,
        call_ensures(Decimal::checked_add, (a, b), Some(sum)),
        call_ensures(Decimal::checked_sub, (sum, b), Some(back)),
    ensures
        sum@.units() == a@.units() + b@.units(),
        back@.units() == a@.units(),
{
    decimal_laws::sum_units(a@, b@);
    decimal_laws::difference_units(sum@, b@);
}

/// The opposite of a number lies as far on the other side of zero, and a number without its sign is
/// the number or its opposite, whichever is not below zero.
pub proof fn signs_turn_round(a: Decimal, opposite: Decimal, size: Decimal, sign: i8)
    requires
        call_ensures(Decimal::neg, (a,), opposite),
        call_ensures(Decimal::abs, (a,), size),
        call_ensures(Decimal::sign, (&a,), sign),
    ensures
        opposite@.units() == -a@.units(),
        size@.units() >= 0,
        size@.units() == a@.units() || size@.units() == -a@.units(),
        sign == 1 <==> a@.units() > 0,
        sign == 0 <==> a@.units() == 0,
        sign == -1 <==> a@.units() < 0,
{
    decimal_laws::neg_units(a@);
    decimal_laws::abs_units(a@);
    decimal_laws::units_have_sign(a@);
}

/// The numbers that are spelled out are what they say, counted in units of one.
pub proof fn named_numbers_are_what_they_say(zero: Decimal, one: Decimal, two: Decimal, hundred: Decimal, n: u64, d: Decimal)
    requires
        call_ensures(Decimal::zero, (), zero),
        call_ensures(Decimal::one, (), one),
        call_ensures(Decimal::two, (), two),
        call_ensures(Decimal::hundred, (), hundred),
        call_ensures(Decimal::from_u64, (n,), d),
    ensures
        zero@.units() == 0,
        one@.units() > 0,
        two@.units() == 2 * one@.units(),
        hundred@.units() == 100 * one@.units(),
        d@.units() == n * one@.units(),
{
    decimal_laws::units_have_sign(Dec::zero());
    decimal_laws::units_have_sign(Dec::one());
}

/// A time that was made of milliseconds tells them again.
pub proof fn milliseconds_read_back(ms: i64, t: UtcTime, read: i64)
    requires
        call_ensures(UtcTime::from_millis, (ms,), Some(t)),
        call_ensures(UtcTime::timestamp_millis, (&t,), read),
    ensures
        read == ms,
{
}

/// A second is a thousand milliseconds: the same time comes of either.
pub proof fn seconds_are_milliseconds(seconds: i64, ms: i64, a: UtcTime, b: UtcTime, between: i128)
    requires
        ms == 1000 * seconds,
        call_ensures(UtcTime::from_seconds, (seconds,), Some(a)),
        call_ensures(UtcTime::from_millis, (ms,), Some(b)),
        call_ensures(UtcTime::nanos_since, (&a, &b), between),
    ensures
        a@ == b@,
        between == 0,
{
}

/// A time that is put together of its parts is the same time.
pub proof fn parts_make_the_time(t: UtcTime, parts: (i64, u32), again: UtcTime)
    requires
        call_ensures(UtcTime::parts, (&t,), parts),
        call_ensures(UtcTime::from_parts, (parts.0, parts.1), Some(again)),
    ensures
        again@ == t@,
{
}

/// The later of two times is so much after the earlier one, and the earlier one so much before it.
pub proof fn time_runs_forward(a: UtcTime, b: UtcTime, forth: i128, back: i128)
    requires
        call_ensures(UtcTime::nanos_since, (&b, &a), forth),
        call_ensures(UtcTime::nanos_since, (&a, &b), back),
    ensures
        forth == -back,
        a@ < b@ <==> forth > 0,
        a@ + forth == b@,
{
}

} // verus!
