use vstd::arithmetic::power;
use vstd::prelude::*;

use crate::text;

verus! {

/// Largest magnitude of a mantissa: 96 bits, all set.
pub const MAX_MANTISSA: i128 = 79_228_162_514_264_337_593_543_950_335;

/// Largest number of digits behind the decimal point.
pub const MAX_SCALE: u32 = 28;

/// The number `m / 10^s`.
pub struct Dec {
    pub m: int,
    pub s: nat,
}

impl Dec {
    /// The mantissa fits in 96 bits and the scale is at most 28.
    pub open spec fn wf(self) -> bool {
        &&& -MAX_MANTISSA <= self.m <= MAX_MANTISSA
        &&& self.s <= MAX_SCALE
    }

    /// The number counted in steps of `10^-28`, the finest step there is.
    pub open spec fn units(self) -> int {
        self.m * power::pow(10, (MAX_SCALE - self.s) as nat)
    }

    /// The mantissa of the same number when written with `s` digits behind the point.
    pub open spec fn aligned(self, s: nat) -> int {
        self.m * power::pow(10, (s - self.s) as nat)
    }

    pub open spec fn zero() -> Dec {
        Dec { m: 0, s: 0 }
    }

    pub open spec fn one() -> Dec {
        Dec { m: 1, s: 0 }
    }

    pub open spec fn two() -> Dec {
        Dec { m: 2, s: 0 }
    }

    pub open spec fn hundred() -> Dec {
        Dec { m: 100, s: 0 }
    }

    pub open spec fn is_zero(self) -> bool {
        self.m == 0
    }

    pub open spec fn neg(self) -> Dec {
        Dec { m: -self.m, s: self.s }
    }

    pub open spec fn abs(self) -> Dec {
        Dec { m: if self.m < 0 { -self.m } else { self.m }, s: self.s }
    }

    /// -1, 0 or 1.
    pub open spec fn sign(self) -> int {
        if self.m < 0 {
            -1
        } else if self.m == 0 {
            0
        } else {
            1
        }
    }

    pub open spec fn lt(self, other: Dec) -> bool {
        self.units() < other.units()
    }

    pub open spec fn le(self, other: Dec) -> bool {
        self.units() <= other.units()
    }

    /// Equal as numbers: `1.5` and `1.50` are.
    pub open spec fn same(self, other: Dec) -> bool {
        self.units() == other.units()
    }

    /// The exact sum at the larger of the two scales, where it fits; a zero leaves the other
    /// operand as it is.
    pub open spec fn exact_sum(self, other: Dec) -> Option<Dec> {
        if self.m == 0 {
            Some(other)
        } else if other.m == 0 {
            Some(self)
        } else {
            let s = if self.s >= other.s { self.s } else { other.s };
            let exact = Dec { m: self.aligned(s) + other.aligned(s), s };
            if exact.wf() { Some(exact) } else { None }
        }
    }

    /// The exact difference at the larger of the two scales, where it fits.
    pub open spec fn exact_difference(self, other: Dec) -> Option<Dec> {
        if self.m == 0 {
            Some(other.neg())
        } else if other.m == 0 {
            Some(self)
        } else {
            let s = if self.s >= other.s { self.s } else { other.s };
            let exact = Dec { m: self.aligned(s) - other.aligned(s), s };
            if exact.wf() { Some(exact) } else { None }
        }
    }

    /// The exact product at the sum of the two scales, where it fits.
    pub open spec fn exact_product(self, other: Dec) -> Option<Dec> {
        if self.m == 0 || other.m == 0 {
            Some(Dec::zero())
        } else {
            let exact = Dec { m: self.m * other.m, s: self.s + other.s };
            if exact.wf() { Some(exact) } else { None }
        }
    }

    /// The sum, exact where it fits and rounded elsewhere. `None` is overflow.
    pub open spec fn sum(self, other: Dec) -> Option<Dec> {
        match self.exact_sum(other) {
            Some(exact) => Some(exact),
            None => rounded_sum(self, other),
        }
    }

    /// The difference, exact where it fits and rounded elsewhere. `None` is overflow.
    pub open spec fn difference(self, other: Dec) -> Option<Dec> {
        match self.exact_difference(other) {
            Some(exact) => Some(exact),
            None => rounded_difference(self, other),
        }
    }

    /// Whether the number is exactly what a multiplication gives.
    pub open spec fn is_product(self, a: Dec, b: Dec) -> bool {
        self.wf() && self.units() * power::pow(10, MAX_SCALE as nat) == a.units() * b.units()
    }

    /// Whether a product is a number that fits, perhaps without zeros that it ends with.
    pub open spec fn multiplies_exactly(self, other: Dec) -> bool {
        exists|p: Dec| p.is_product(self, other)
    }

    /// The product: exact wherever that fits, at the sum of the two scales if possible and else as
    /// [`rounded_product`] writes it. `None` is overflow.
    pub open spec fn product(self, other: Dec) -> Option<Dec> {
        let written = rounded_product(self, other);
        if self.exact_product(other) is Some {
            self.exact_product(other)
        } else if self.multiplies_exactly(other) && !(written matches Some(p) && p.is_product(self, other)) {
            Some(choose|p: Dec| p.is_product(self, other))
        } else {
            written
        }
    }

    /// Whether the number is exactly what a division gives.
    pub open spec fn is_quotient(self, a: Dec, b: Dec) -> bool {
        self.wf() && self.units() * b.units() == a.units() * power::pow(10, MAX_SCALE as nat)
    }

    /// Whether a quotient is a number that fits, so that nothing has to be rounded.
    pub open spec fn divides_exactly(self, other: Dec) -> bool {
        exists|q: Dec| q.is_quotient(self, other)
    }

    /// The quotient: exact wherever that fits, and as [`rounded_quotient`] writes it. `None` is
    /// division by zero or overflow.
    pub open spec fn quotient(self, other: Dec) -> Option<Dec> {
        let written = rounded_quotient(self, other);
        if other.m == 0 {
            None
        } else if self.m == 0 {
            Some(Dec::zero())
        } else if self.divides_exactly(other) && !(written matches Some(q) && q.is_quotient(self, other)) {
            Some(choose|q: Dec| q.is_quotient(self, other))
        } else {
            written
        }
    }

    /// The largest integer that is not above the number.
    pub open spec fn floor(self) -> Dec {
        Dec { m: self.m / power::pow(10, self.s), s: 0 }
    }

    /// The nearest integer; a tie goes to the even one.
    pub open spec fn round(self) -> Dec {
        let one = power::pow(10, self.s);
        let whole = self.abs().m / one;
        let rest = self.abs().m % one;
        let up = 2 * rest > one || (2 * rest == one && whole % 2 == 1);
        let magnitude = if up { whole + 1 } else { whole };
        Dec { m: self.sign() * magnitude, s: 0 }
    }

    /// The same number without trailing zeros behind the point.
    pub open spec fn normalized(self) -> Dec
        decreases self.s,
    {
        if self.s > 0 && self.m % 10 == 0 {
            (Dec { m: self.m / 10, s: (self.s - 1) as nat }).normalized()
        } else {
            self
        }
    }

    /// Decimal notation: a minus sign where negative, the whole part, and where the scale is not
    /// zero a point and exactly `s` digits.
    pub open spec fn text(self) -> Seq<char> {
        let one = power::pow(10, self.s);
        let whole = text::digits((self.abs().m / one) as nat);
        let sign = if self.m < 0 { seq!['-'] } else { Seq::<char>::empty() };
        if self.s == 0 {
            sign + whole
        } else {
            sign + whole + seq!['.'] + text::padded_digits((self.abs().m % one) as nat, self.s)
        }
    }
}

/// What `rust_decimal::Decimal::checked_add` gives where the exact sum does not fit.
pub uninterp spec fn rounded_sum(a: Dec, b: Dec) -> Option<Dec>;

/// What `rust_decimal::Decimal::checked_sub` gives where the exact difference does not fit.
pub uninterp spec fn rounded_difference(a: Dec, b: Dec) -> Option<Dec>;

/// What `rust_decimal::Decimal::checked_mul` gives where the exact product does not fit at the sum of
/// the scales.
pub uninterp spec fn rounded_product(a: Dec, b: Dec) -> Option<Dec>;

/// What `rust_decimal::Decimal::checked_div` gives for two numbers other than zero.
pub uninterp spec fn rounded_quotient(a: Dec, b: Dec) -> Option<Dec>;

/// What `rust_decimal::Decimal::from_str` reads from a text; `None` where it refuses the text.
pub uninterp spec fn parsed(s: Seq<char>) -> Option<Dec>;

/// A decimal number of up to 96 bits with up to 28 digits behind the point.
#[derive(Clone, Copy, Debug)]
pub struct Decimal {
    mantissa: i128,
    scale: u32,
}

impl View for Decimal {
    type V = Dec;

    closed spec fn view(&self) -> Dec {
        Dec { m: self.mantissa as int, s: self.scale as nat }
    }
}

/// The view of a number that may be absent.
pub open spec fn view_opt(d: Option<Decimal>) -> Option<Dec> {
    match d {
        Some(d) => Some(d@),
        None => None,
    }
}

impl Decimal {
    #[verifier::type_invariant]
    pub open spec fn inv(self) -> bool {
        self@.wf()
    }
}

/// A number is determined by its mantissa and scale.
pub proof fn decimal_ext(a: Decimal, b: Decimal)
    requires
        a@ == b@,
    ensures
        a == b,
{
}

/// Calls `rust_decimal::Decimal::checked_add`. Its source adds at the larger scale in wide
/// arithmetic, hands back the other operand where one is zero, and rounds or refuses only what
/// does not fit in 96 bits.
#[verifier::external_body]
fn outside_add(a: Decimal, b: Decimal) -> (r: Option<Decimal>)
    requires
        a@.wf(),
        b@.wf(),
    ensures
        a@.exact_sum(b@) is Some ==> view_opt(r) == a@.exact_sum(b@),
        a@.exact_sum(b@) is None ==> view_opt(r) == rounded_sum(a@, b@),
{
    let x = rust_decimal::Decimal::from_i128_with_scale(a.mantissa, a.scale);
    let y = rust_decimal::Decimal::from_i128_with_scale(b.mantissa, b.scale);
    match x.checked_add(y) {
        Some(z) => Some(Decimal { mantissa: z.mantissa(), scale: z.scale() }),
        None => None,
    }
}

/// Calls `rust_decimal::Decimal::checked_sub`, which shares its source with `checked_add`.
#[verifier::external_body]
fn outside_sub(a: Decimal, b: Decimal) -> (r: Option<Decimal>)
    requires
        a@.wf(),
        b@.wf(),
    ensures
        a@.exact_difference(b@) is Some ==> view_opt(r) == a@.exact_difference(b@),
        a@.exact_difference(b@) is None ==> view_opt(r) == rounded_difference(a@, b@),
{
    let x = rust_decimal::Decimal::from_i128_with_scale(a.mantissa, a.scale);
    let y = rust_decimal::Decimal::from_i128_with_scale(b.mantissa, b.scale);
    match x.checked_sub(y) {
        Some(z) => Some(Decimal { mantissa: z.mantissa(), scale: z.scale() }),
        None => None,
    }
}

/// Calls `rust_decimal::Decimal::checked_mul`. Its source multiplies the mantissas in wide
/// arithmetic at the sum of the scales and gives plain zero where one operand is zero. What does not
/// fit in 96 bits at a scale of 28 loses as many digits as it has to, and no more: where those are
/// zeros, the product is still exact. How any other product is rounded or refused is left to the
/// name.
#[verifier::external_body]
fn outside_mul(a: Decimal, b: Decimal) -> (r: Option<Decimal>)
    requires
        a@.wf(),
        b@.wf(),
    ensures
        a@.exact_product(b@) is Some ==> view_opt(r) == a@.exact_product(b@),
        a@.exact_product(b@) is None ==> view_opt(r) == rounded_product(a@, b@),
        a@.exact_product(b@) is None && a@.multiplies_exactly(b@) ==> view_opt(r) is Some && (view_opt(
            r,
        )->0).is_product(a@, b@),
{
    let x = rust_decimal::Decimal::from_i128_with_scale(a.mantissa, a.scale);
    let y = rust_decimal::Decimal::from_i128_with_scale(b.mantissa, b.scale);
    match x.checked_mul(y) {
        Some(z) => Some(Decimal { mantissa: z.mantissa(), scale: z.scale() }),
        None => None,
    }
}

/// Calls `rust_decimal::Decimal::checked_div`. Its source refuses a divisor of zero and gives plain
/// zero for a dividend of zero. For other numbers it divides the digits and goes on with the
/// remainder times powers of ten, as many as fit, until nothing remains or no digit more fits: where
/// an exact quotient fits, nothing remains in the end and the number is that quotient. With how many
/// zeros behind the point it is written, and how any other quotient is rounded, is left to the name.
#[verifier::external_body]
fn outside_div(a: Decimal, b: Decimal) -> (r: Option<Decimal>)
    requires
        a@.wf(),
        b@.wf(),
    ensures
        b@.is_zero() ==> r is None,
        !b@.is_zero() && a@.is_zero() ==> view_opt(r) == Some(Dec::zero()),
        !b@.is_zero() && !a@.is_zero() ==> view_opt(r) == rounded_quotient(a@, b@),
        !b@.is_zero() && !a@.is_zero() && a@.divides_exactly(b@) ==> view_opt(r) is Some && (view_opt(
            r,
        )->0).is_quotient(a@, b@),
{
    let x = rust_decimal::Decimal::from_i128_with_scale(a.mantissa, a.scale);
    let y = rust_decimal::Decimal::from_i128_with_scale(b.mantissa, b.scale);
    match x.checked_div(y) {
        Some(z) => Some(Decimal { mantissa: z.mantissa(), scale: z.scale() }),
        None => None,
    }
}

/// Calls `rust_decimal::Decimal::floor`, documented as the largest integer that is not above the
/// number. The source gives it with a scale of zero.
#[verifier::external_body]
fn outside_floor(a: Decimal) -> (r: Decimal)
    requires
        a@.wf(),
    ensures
        r@ == a@.floor(),
{
    let z = rust_decimal::Decimal::from_i128_with_scale(a.mantissa, a.scale).floor();
    Decimal { mantissa: z.mantissa(), scale: z.scale() }
}

/// Calls `rust_decimal::Decimal::round`, documented as rounding to an integer with ties going to
/// the even neighbour. The source gives it with a scale of zero.
#[verifier::external_body]
fn outside_round(a: Decimal) -> (r: Decimal)
    requires
        a@.wf(),
    ensures
        r@ == a@.round(),
{
    let z = rust_decimal::Decimal::from_i128_with_scale(a.mantissa, a.scale).round();
    Decimal { mantissa: z.mantissa(), scale: z.scale() }
}

/// Calls `rust_decimal::Decimal::normalize`, documented as stripping trailing zeros.
#[verifier::external_body]
fn outside_normalize(a: Decimal) -> (r: Decimal)
    requires
        a@.wf(),
    ensures
        r@ == a@.normalized(),
{
    let z = rust_decimal::Decimal::from_i128_with_scale(a.mantissa, a.scale).normalize();
    Decimal { mantissa: z.mantissa(), scale: z.scale() }
}

/// Calls `<rust_decimal::Decimal as Ord>::cmp`, which orders two numbers by value whatever their
/// scales, and writes its answer as -1, 0 or 1.
#[verifier::external_body]
fn outside_order(a: Decimal, b: Decimal) -> (r: i8)
    requires
        a@.wf(),
        b@.wf(),
    ensures
        r == -1 || r == 0 || r == 1,
        r == -1 <==> a@.lt(b@),
        r == 0 <==> a@.same(b@),
{
    let x = rust_decimal::Decimal::from_i128_with_scale(a.mantissa, a.scale);
    let y = rust_decimal::Decimal::from_i128_with_scale(b.mantissa, b.scale);
    match x.cmp(&y) {
        std::cmp::Ordering::Less => -1,
        std::cmp::Ordering::Equal => 0,
        std::cmp::Ordering::Greater => 1,
    }
}

/// Calls `<rust_decimal::Decimal as FromStr>::from_str`. What it reads from which text is left
/// to the name.
#[verifier::external_body]
fn outside_parse(s: &str) -> (r: Option<Decimal>)
    ensures
        view_opt(r) == parsed(s@),
{
    match s.parse::<rust_decimal::Decimal>() {
        Ok(z) => Some(Decimal { mantissa: z.mantissa(), scale: z.scale() }),
        Err(_) => None,
    }
}

/// Calls `rust_decimal`'s `Display`: the digits of the mantissa with the point `scale` digits
/// from the right, a zero before the point where no digit is left of it.
#[verifier::external_body]
fn outside_display(a: Decimal) -> (r: String)
    requires
        a@.wf(),
    ensures
        r@ == a@.text(),
{
    rust_decimal::Decimal::from_i128_with_scale(a.mantissa, a.scale).to_string()
}

impl Decimal {
    /// The number `num / 10^scale`.
    pub fn new(num: i64, scale: u32) -> (r: Decimal)
        requires
            scale <= MAX_SCALE,
        ensures
            r@ == (Dec { m: num as int, s: scale as nat }),
    {
        Decimal { mantissa: num as i128, scale }
    }

    /// The number `mantissa / 10^scale`, or `None` where there is no such number.
    pub fn from_parts(mantissa: i128, scale: u32) -> (r: Option<Decimal>)
        ensures
            r is Some <==> (Dec { m: mantissa as int, s: scale as nat }).wf(),
            r matches Some(d) ==> d@ == (Dec { m: mantissa as int, s: scale as nat }),
    {
        if scale <= MAX_SCALE && -MAX_MANTISSA <= mantissa && mantissa <= MAX_MANTISSA {
            Some(Decimal { mantissa, scale })
        } else {
            None
        }
    }

    pub fn from_u64(num: u64) -> (r: Decimal)
        ensures
            r@ == (Dec { m: num as int, s: 0 }),
    {
        Decimal { mantissa: num as i128, scale: 0 }
    }

    pub fn zero() -> (r: Decimal)
        ensures
            r@ == Dec::zero(),
    {
        Decimal { mantissa: 0, scale: 0 }
    }

    pub fn one() -> (r: Decimal)
        ensures
            r@ == Dec::one(),
    {
        Decimal { mantissa: 1, scale: 0 }
    }

    pub fn two() -> (r: Decimal)
        ensures
            r@ == Dec::two(),
    {
        Decimal { mantissa: 2, scale: 0 }
    }

    pub fn hundred() -> (r: Decimal)
        ensures
            r@ == Dec::hundred(),
    {
        Decimal { mantissa: 100, scale: 0 }
    }

    /// The largest number there is.
    pub fn max_value() -> (r: Decimal)
        ensures
            r@ == (Dec { m: MAX_MANTISSA as int, s: 0 }),
    {
        Decimal { mantissa: MAX_MANTISSA, scale: 0 }
    }

    pub fn mantissa(&self) -> (r: i128)
        ensures
            r == self@.m,
    {
        self.mantissa
    }

    pub fn scale(&self) -> (r: u32)
        ensures
            r == self@.s,
            r <= MAX_SCALE,
    {
        proof {
            use_type_invariant(self);
        }
        self.scale
    }

    pub fn is_zero(&self) -> (r: bool)
        ensures
            r == self@.is_zero(),
    {
        self.mantissa == 0
    }

    pub fn neg(self) -> (r: Decimal)
        ensures
            r@ == self@.neg(),
    {
        proof {
            use_type_invariant(&self);
        }
        Decimal { mantissa: -self.mantissa, scale: self.scale }
    }

    pub fn abs(self) -> (r: Decimal)
        ensures
            r@ == self@.abs(),
    {
        proof {
            use_type_invariant(&self);
        }
        if self.mantissa < 0 {
            Decimal { mantissa: -self.mantissa, scale: self.scale }
        } else {
            self
        }
    }

    /// -1, 0 or 1.
    pub fn sign(&self) -> (r: i8)
        ensures
            r == self@.sign(),
    {
        if self.mantissa < 0 {
            -1
        } else if self.mantissa == 0 {
            0
        } else {
            1
        }
    }

    /// The sum, or `None` where it overflows.
    pub fn checked_add(self, other: Decimal) -> (r: Option<Decimal>)
        ensures
            view_opt(r) == self@.sum(other@),
    {
        proof {
            use_type_invariant(&self);
            use_type_invariant(&other);
        }
        outside_add(self, other)
    }

    /// The difference, or `None` where it overflows.
    pub fn checked_sub(self, other: Decimal) -> (r: Option<Decimal>)
        ensures
            view_opt(r) == self@.difference(other@),
    {
        proof {
            use_type_invariant(&self);
            use_type_invariant(&other);
        }
        outside_sub(self, other)
    }

    /// The product, or `None` where it overflows.
    pub fn checked_mul(self, other: Decimal) -> (r: Option<Decimal>)
        ensures
            view_opt(r) == self@.product(other@),
    {
        proof {
            use_type_invariant(&self);
            use_type_invariant(&other);
        }
        outside_mul(self, other)
    }

    /// The quotient, or `None` where the divisor is zero or the quotient overflows.
    pub fn checked_div(self, other: Decimal) -> (r: Option<Decimal>)
        ensures
            view_opt(r) == self@.quotient(other@),
    {
        proof {
            use_type_invariant(&self);
            use_type_invariant(&other);
        }
        outside_div(self, other)
    }

    pub fn floor(self) -> (r: Decimal)
        ensures
            r@ == self@.floor(),
    {
        proof {
            use_type_invariant(&self);
        }
        outside_floor(self)
    }

    pub fn round(self) -> (r: Decimal)
        ensures
            r@ == self@.round(),
    {
        proof {
            use_type_invariant(&self);
        }
        outside_round(self)
    }

    pub fn normalize(self) -> (r: Decimal)
        ensures
            r@ == self@.normalized(),
    {
        proof {
            use_type_invariant(&self);
        }
        outside_normalize(self)
    }

    pub fn less_than(self, other: Decimal) -> (r: bool)
        ensures
            r == self@.lt(other@),
    {
        proof {
            use_type_invariant(&self);
            use_type_invariant(&other);
        }
        outside_order(self, other) == -1
    }

    pub fn at_most(self, other: Decimal) -> (r: bool)
        ensures
            r == self@.le(other@),
    {
        proof {
            use_type_invariant(&self);
            use_type_invariant(&other);
        }
        outside_order(self, other) != 1
    }

    /// Whether two numbers are equal as numbers, whatever their scales.
    pub fn equals(self, other: Decimal) -> (r: bool)
        ensures
            r == self@.same(other@),
    {
        proof {
            use_type_invariant(&self);
            use_type_invariant(&other);
        }
        outside_order(self, other) == 0
    }

    /// The number that a text denotes, or `None` where it denotes none.
    pub fn from_str(s: &str) -> (r: Option<Decimal>)
        ensures
            view_opt(r) == parsed(s@),
    {
        outside_parse(s)
    }

    /// Decimal notation.
    pub fn to_string(&self) -> (r: String)
        ensures
            r@ == self@.text(),
    {
        proof {
            use_type_invariant(self);
        }
        outside_display(*self)
    }
}

impl PartialEq for Decimal {
    fn eq(&self, other: &Decimal) -> (r: bool) {
        self.equals(*other)
    }
}

impl vstd::std_specs::cmp::PartialEqSpecImpl for Decimal {
    open spec fn obeys_eq_spec() -> bool {
        true
    }

    open spec fn eq_spec(&self, other: &Decimal) -> bool {
        self@.same(other@)
    }
}

} // verus!
