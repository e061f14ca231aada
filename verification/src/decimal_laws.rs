use vstd::arithmetic::power;
use vstd::prelude::*;

use crate::decimal::{Dec, MAX_SCALE};

verus! {

/// Writing a number at its own scale keeps its mantissa.
pub proof fn aligned_at_own_scale(d: Dec)
    ensures
        d.aligned(d.s) == d.m,
{
    power::lemma_pow0(10);
    assert((d.s - d.s) as nat == 0);
    assert(d.m * 1 == d.m) by (nonlinear_arith);
}

/// Writing a number at a larger scale does not change the number.
pub proof fn aligned_keeps_units(d: Dec, s: nat)
    requires
        d.s <= s <= MAX_SCALE,
    ensures
        (Dec { m: d.aligned(s), s }).units() == d.units(),
{
    let x = power::pow(10, (s - d.s) as nat);
    let y = power::pow(10, (MAX_SCALE - s) as nat);
    power::lemma_pow_adds(10, (s - d.s) as nat, (MAX_SCALE - s) as nat);
    assert((s - d.s) as nat + (MAX_SCALE - s) as nat == (MAX_SCALE - d.s) as nat);
    assert((d.m * x) * y == d.m * (x * y)) by (nonlinear_arith);
}

/// An exact sum is the sum of the two numbers.
pub proof fn exact_sum_adds_units(a: Dec, b: Dec)
    requires
        a.wf(),
        b.wf(),
        a.exact_sum(b) is Some,
    ensures
        (a.exact_sum(b)->0).units() == a.units() + b.units(),
{
    let pa = power::pow(10, (MAX_SCALE - a.s) as nat);
    let pb = power::pow(10, (MAX_SCALE - b.s) as nat);
    assert(0 * pa == 0 && 0 * pb == 0);
    let s = if a.s >= b.s { a.s } else { b.s };
    aligned_keeps_units(a, s);
    aligned_keeps_units(b, s);
    let p = power::pow(10, (MAX_SCALE - s) as nat);
    let x = a.aligned(s);
    let y = b.aligned(s);
    assert((x + y) * p == x * p + y * p) by (nonlinear_arith);
}

/// An exact difference is the difference of the two numbers.
pub proof fn exact_difference_subtracts_units(a: Dec, b: Dec)
    requires
        a.wf(),
        b.wf(),
        a.exact_difference(b) is Some,
    ensures
        (a.exact_difference(b)->0).units() == a.units() - b.units(),
{
    let pa = power::pow(10, (MAX_SCALE - a.s) as nat);
    let pb = power::pow(10, (MAX_SCALE - b.s) as nat);
    assert(0 * pa == 0 && 0 * pb == 0);
    assert((-b.m) * pb == -(b.m * pb)) by (nonlinear_arith);
    let s = if a.s >= b.s { a.s } else { b.s };
    aligned_keeps_units(a, s);
    aligned_keeps_units(b, s);
    let p = power::pow(10, (MAX_SCALE - s) as nat);
    let x = a.aligned(s);
    let y = b.aligned(s);
    assert((x - y) * p == x * p - y * p) by (nonlinear_arith);
}

/// Stripping trailing zeros does not change the number and leaves none to strip.
pub proof fn normalized_keeps_units(d: Dec)
    requires
        d.s <= MAX_SCALE,
    ensures
        d.normalized().units() == d.units(),
        d.normalized().s <= d.s,
        d.normalized().s == 0 || d.normalized().m % 10 != 0,
        d.wf() ==> d.normalized().wf(),
    decreases d.s,
{
    if d.s > 0 && d.m % 10 == 0 {
        let next = Dec { m: d.m / 10, s: (d.s - 1) as nat };
        normalized_keeps_units(next);
        let k = (MAX_SCALE - d.s) as nat;
        power::lemma_pow_adds(10, 1, k);
        power::lemma_pow1(10);
        let p = power::pow(10, k);
        assert((MAX_SCALE - next.s) as nat == 1 + k);
        let q = d.m / 10;
        assert(d.m == q * 10);
        assert(q * (10 * p) == (q * 10) * p) by (nonlinear_arith);
    }
}

/// A number without a fraction, `k` whole ones.
pub open spec fn whole(k: int) -> Dec {
    Dec { m: k, s: 0 }
}

/// Whether a number is `k` times a step.
pub open spec fn is_multiple(d: Dec, k: int, step: Dec) -> bool {
    d.units() == k * step.units()
}

/// A whole multiple of a number that fits is that many of its units.
pub proof fn whole_multiple_units(k: int, d: Dec)
    requires
        d.wf(),
        whole(k).multiplies_exactly(d),
    ensures
        whole(k).product(d) matches Some(p) && p.wf() && p.units() == k * d.units(),
{
    let p = power::pow(10, (MAX_SCALE - d.s) as nat);
    let z = power::pow(10, MAX_SCALE as nat);
    power::lemma_pow_positive(10, MAX_SCALE as nat);
    let r = whole(k).product(d)->0;
    if whole(k).exact_product(d) is Some {
        let m = d.m;
        assert((k * m) * p == k * (m * p)) by (nonlinear_arith);
        assert(k == 0 ==> k * (m * p) == 0) by (nonlinear_arith);
        assert(m == 0 ==> k * (m * p) == 0) by (nonlinear_arith);
        assert(0 * z == 0);
    } else {
        let u = r.units();
        let x = d.units();
        assert(u == k * x) by (nonlinear_arith)
            requires
                u * z == (k * z) * x,
                z > 0,
        ;
    }
}

/// Order and equality of numbers do not depend on how many zeros they are written with.
pub proof fn order_ignores_trailing_zeros(a: Dec, b: Dec)
    requires
        a.s <= MAX_SCALE,
        b.s <= MAX_SCALE,
    ensures
        a.normalized().lt(b.normalized()) == a.lt(b),
        a.normalized().same(b.normalized()) == a.same(b),
{
    normalized_keeps_units(a);
    normalized_keeps_units(b);
}

/// The sign of a number is the sign of its units.
pub proof fn units_have_sign(d: Dec)
    ensures
        d.units() > 0 <==> d.m > 0,
        d.units() == 0 <==> d.m == 0,
{
    let p = power::pow(10, (MAX_SCALE - d.s) as nat);
    power::lemma_pow_positive(10, (MAX_SCALE - d.s) as nat);
    let m = d.m;
    assert(m > 0 ==> m * p > 0) by (nonlinear_arith)
        requires
            p > 0,
    ;
    assert(m < 0 ==> m * p < 0) by (nonlinear_arith)
        requires
            p > 0,
    ;
    assert(m == 0 ==> m * p == 0) by (nonlinear_arith);
}

/// Whether two numbers divide without rounding.
pub open spec fn divides(a: Dec, b: Dec) -> bool {
    b.m != 0 && a.divides_exactly(b)
}

/// Where an exact quotient fits, division gives it.
pub proof fn quotient_is_exact(a: Dec, b: Dec)
    requires
        divides(a, b),
    ensures
        a.quotient(b) matches Some(q) && q.is_quotient(a, b),
{
    if a.m == 0 {
        let z = power::pow(10, MAX_SCALE as nat);
        let x = b.units();
        let y = power::pow(10, (MAX_SCALE - a.s) as nat);
        assert((0 * z) * x == (0 * y) * z) by (nonlinear_arith);
        assert(Dec::zero().is_quotient(a, b));
    }
}

/// A whole number of steps divides by the step, however it is written.
pub proof fn multiples_divide(a: Dec, n: int, step: Dec)
    requires
        step.m != 0,
        whole(n).wf(),
        is_multiple(a, n, step),
    ensures
        divides(a, step),
{
    let z = power::pow(10, MAX_SCALE as nat);
    let x = step.units();
    assert((n * z) * x == (n * x) * z) by (nonlinear_arith);
    assert(whole(n).is_quotient(a, step));
}

/// An exact quotient, written as a mantissa over a power of ten.
pub proof fn exact_quotient_scales(a: Dec, b: Dec)
    requires
        divides(a, b),
    ensures
        power::pow(10, (a.quotient(b)->0).s) > 0,
        (a.quotient(b)->0).m * b.units() == a.units() * power::pow(10, (a.quotient(b)->0).s),
{
    let q = a.quotient(b)->0;
    let one = power::pow(10, q.s);
    let rest = power::pow(10, (MAX_SCALE - q.s) as nat);
    power::lemma_pow_positive(10, q.s);
    power::lemma_pow_positive(10, (MAX_SCALE - q.s) as nat);
    power::lemma_pow_adds(10, q.s, (MAX_SCALE - q.s) as nat);
    assert(q.s + (MAX_SCALE - q.s) as nat == MAX_SCALE as nat);
    let m = q.m;
    let x = b.units();
    let y = a.units();
    assert(m * x == y * one) by (nonlinear_arith)
        requires
            (m * rest) * x == y * (one * rest),
            rest > 0,
    ;
}

/// Where the quotient is exact, rounding it down gives the largest whole number of steps that is
/// not above the dividend.
pub proof fn floor_is_largest(a: Dec, step: Dec)
    requires
        divides(a, step),
        step.units() > 0,
    ensures
        ({
            let n = (a.quotient(step)->0).floor().m;
            n * step.units() <= a.units() < (n + 1) * step.units()
        }),
{
    exact_quotient_scales(a, step);
    let q = a.quotient(step)->0;
    let one = power::pow(10, q.s);
    let m = q.m;
    let n = m / one;
    let r = m % one;
    let x = step.units();
    let y = a.units();
    vstd::arithmetic::div_mod::lemma_fundamental_div_mod(m, one);
    assert(0 <= r < one);
    assert(n * x <= y && y < (n + 1) * x) by (nonlinear_arith)
        requires
            m == one * n + r,
            0 <= r < one,
            m * x == y * one,
            x > 0,
            one > 0,
    ;
}

/// Where the quotient is exact, rounding it gives the whole number of steps that is nearest to the
/// dividend, the even one of two that are equally near.
pub proof fn round_is_nearest(a: Dec, step: Dec)
    requires
        divides(a, step),
        step.units() > 0,
    ensures
        ({
            let n = (a.quotient(step)->0).round().m;
            let off = a.units() - n * step.units();
            &&& -step.units() <= 2 * off <= step.units()
            &&& 2 * off == step.units() || 2 * off == -step.units() ==> n % 2 == 0
        }),
{
    exact_quotient_scales(a, step);
    let q = a.quotient(step)->0;
    let one = power::pow(10, q.s);
    let x = step.units();
    let y = a.units();
    let m = q.m;
    let size = q.abs().m;
    let whole = size / one;
    let rest = size % one;
    vstd::arithmetic::div_mod::lemma_fundamental_div_mod(size, one);
    assert(0 <= rest < one);
    let up = 2 * rest > one || (2 * rest == one && whole % 2 == 1);
    let near = if up { whole + 1 } else { whole };
    // The distance in parts of a step.
    let d = size - near * one;
    assert(-one <= 2 * d <= one && (2 * d == one || 2 * d == -one ==> near % 2 == 0)) by {
        assert(near * one == if up { one * whole + one } else { one * whole }) by (nonlinear_arith)
            requires
                near == if up { whole + 1 } else { whole },
        ;
    }
    let n = q.round().m;
    let sign = q.sign();
    assert(n == sign * near);
    assert((m > 0 ==> n == near) && (m < 0 ==> n == -near) && (m == 0 ==> n == 0)) by (nonlinear_arith)
        requires
            n == sign * near,
            sign == if m < 0 { -1int } else if m == 0 { 0int } else { 1int },
    ;
    let e = if m < 0 { -d } else { d };
    if m == 0 {
        assert(0 * x == 0);
        assert(y == 0) by (nonlinear_arith)
            requires
                y * one == 0,
                one > 0,
        ;
    } else {
        assert(m - n * one == e) by (nonlinear_arith)
            requires
                d == size - near * one,
                (m > 0 && size == m && n == near && e == d) || (m < 0 && size == -m && n == -near && e == -d),
        ;
        let off = y - n * x;
        assert(off * one == e * x) by (nonlinear_arith)
            requires
                m * x == y * one,
                m - n * one == e,
                off == y - n * x,
        ;
        assert(-x <= 2 * off <= x && (2 * off == x ==> 2 * e == one) && (2 * off == -x ==> 2 * e == -one)) by (nonlinear_arith)
            requires
                off * one == e * x,
                -one <= 2 * e <= one,
                x > 0,
                one > 0,
        ;
        assert(near % 2 == 0 ==> n % 2 == 0);
    }
}

/// The exact quotient of a whole number of steps is that number.
pub proof fn steps_divide_evenly(a: Dec, n: int, step: Dec)
    requires
        divides(a, step),
        is_multiple(a, n, step),
        step.units() > 0,
    ensures
        (a.quotient(step)->0).floor() == whole(n),
        (a.quotient(step)->0).round() == whole(n),
{
    exact_quotient_scales(a, step);
    let q = a.quotient(step)->0;
    let one = power::pow(10, q.s);
    let x = step.units();
    let m = q.m;
    assert(m == n * one) by (nonlinear_arith)
        requires
            m * x == (n * x) * one,
            x > 0,
    ;
    let size = q.abs().m;
    let k = if n < 0 { -n } else { n };
    assert(size == k * one && (m < 0 <==> n < 0) && (m == 0 <==> n == 0)) by (nonlinear_arith)
        requires
            m == n * one,
            one > 0,
            size == if m < 0 { -m } else { m },
            k == if n < 0 { -n } else { n },
    ;
    vstd::arithmetic::div_mod::lemma_div_multiples_vanish(n, one);
    vstd::arithmetic::div_mod::lemma_div_multiples_vanish(k, one);
    vstd::arithmetic::div_mod::lemma_mod_multiples_basic(k, one);
    assert(one * n == n * one && one * k == k * one) by (nonlinear_arith);
    assert(-1 * k == -k && 1 * k == k && 0 * k == 0);
}

/// The opposite number has the opposite units.
pub proof fn neg_units(a: Dec)
    ensures
        a.neg().units() == -a.units(),
        a.wf() ==> a.neg().wf(),
{
    let p = power::pow(10, (MAX_SCALE - a.s) as nat);
    let m = a.m;
    assert((-m) * p == -(m * p)) by (nonlinear_arith);
}

/// A number without its sign has as many units, counted from zero up.
pub proof fn abs_units(a: Dec)
    ensures
        a.abs().units() == (if a.units() < 0 {
            -a.units()
        } else {
            a.units()
        }),
        a.wf() ==> a.abs().wf(),
        a.abs().m == 0 <==> a.m == 0,
{
    units_have_sign(a);
    neg_units(a);
    let p = power::pow(10, (MAX_SCALE - a.s) as nat);
    power::lemma_pow_positive(10, (MAX_SCALE - a.s) as nat);
    let m = a.m;
    assert(m < 0 ==> m * p < 0) by (nonlinear_arith)
        requires
            p > 0,
    ;
}

/// A sum that fits is the sum of the two numbers.
pub proof fn sum_units(a: Dec, b: Dec)
    requires
        a.wf(),
        b.wf(),
        a.exact_sum(b) is Some,
    ensures
        a.sum(b) matches Some(c) && c.wf() && c.units() == a.units() + b.units(),
{
    exact_sum_adds_units(a, b);
}

/// A difference that fits is the difference of the two numbers.
pub proof fn difference_units(a: Dec, b: Dec)
    requires
        a.wf(),
        b.wf(),
        a.exact_difference(b) is Some,
    ensures
        a.difference(b) matches Some(c) && c.wf() && c.units() == a.units() - b.units(),
{
    exact_difference_subtracts_units(a, b);
}

/// A product that fits is the product of the two numbers.
pub proof fn product_units(a: Dec, b: Dec)
    requires
        a.wf(),
        b.wf(),
        a.multiplies_exactly(b),
    ensures
        a.product(b) matches Some(p) && p.is_product(a, b),
{
    if a.exact_product(b) is Some {
        let z = power::pow(10, MAX_SCALE as nat);
        let pa = power::pow(10, (MAX_SCALE - a.s) as nat);
        let pb = power::pow(10, (MAX_SCALE - b.s) as nat);
        let (x, y) = (a.m, b.m);
        if x == 0 || y == 0 {
            assert(x == 0 ==> (0 * z) * z == (x * pa) * (y * pb)) by (nonlinear_arith);
            assert(y == 0 ==> (0 * z) * z == (x * pa) * (y * pb)) by (nonlinear_arith);
        } else {
            let ps = power::pow(10, (MAX_SCALE - (a.s + b.s)) as nat);
            power::lemma_pow_adds(10, (MAX_SCALE - (a.s + b.s)) as nat, MAX_SCALE as nat);
            power::lemma_pow_adds(10, (MAX_SCALE - a.s) as nat, (MAX_SCALE - b.s) as nat);
            assert((MAX_SCALE - (a.s + b.s)) as nat + MAX_SCALE as nat == (MAX_SCALE - a.s) as nat + (MAX_SCALE
                - b.s) as nat);
            assert(((x * y) * ps) * z == (x * pa) * (y * pb)) by (nonlinear_arith)
                requires
                    ps * z == pa * pb,
            ;
        }
    }
}

/// Both numbers turned round, a sum is turned round.
pub proof fn sum_of_opposites(a: Dec, b: Dec)
    requires
        a.exact_sum(b) is Some,
    ensures
        a.neg().exact_sum(b.neg()) == Some((a.exact_sum(b)->0).neg()),
        a.neg().exact_difference(b) == Some((a.exact_sum(b)->0).neg()),
{
    let s = if a.s >= b.s { a.s } else { b.s };
    let x = power::pow(10, (s - a.s) as nat);
    let y = power::pow(10, (s - b.s) as nat);
    let (m, n) = (a.m, b.m);
    assert((-m) * x == -(m * x) && (-n) * y == -(n * y)) by (nonlinear_arith);
}

} // verus!
