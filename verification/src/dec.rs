//! Fixed-precision decimal amounts: prices, sizes and balances.
//!
//! A [`Dec`] is an integer mantissa over a power of ten. The arithmetic itself
//! is `rust_decimal`'s; each operation used here is one small trusted function
//! whose contract says what the result is.
use crate::text::numeral;
use rust_decimal::prelude::ToPrimitive;
use rust_decimal::Decimal;
use std::str::FromStr;
use vstd::prelude::*;

verus! {

/// The number `mantissa / 10^scale`, with its scale kept.
pub struct Num {
    pub mantissa: int,
    pub scale: nat,
}

/// `10^n`.
pub open spec fn pow10(n: nat) -> int
    decreases n,
{
    if n == 0 {
        1
    } else {
        10 * pow10((n - 1) as nat)
    }
}

/// Whether a mantissa fits the 96 bits that a decimal offers.
pub open spec fn fits(mantissa: int) -> bool {
    -0x1_0000_0000_0000_0000_0000_0000 < mantissa < 0x1_0000_0000_0000_0000_0000_0000
}

/// Whether two numbers have the same value, whatever their scales.
pub open spec fn equal(a: Num, b: Num) -> bool {
    a.mantissa * pow10(b.scale) == b.mantissa * pow10(a.scale)
}

/// Whether the value of `a` is below that of `b`.
pub open spec fn less(a: Num, b: Num) -> bool {
    a.mantissa * pow10(b.scale) < b.mantissa * pow10(a.scale)
}

/// The smaller of two numbers, the first where they are equal.
pub open spec fn smaller(a: Num, b: Num) -> Num {
    if less(b, a) {
        b
    } else {
        a
    }
}

/// The integer `n` as a number.
pub open spec fn whole(n: int) -> Num {
    Num { mantissa: n, scale: 0 }
}

/// Zero, with no decimal places.
pub open spec fn zero() -> Num {
    whole(0)
}

/// The larger of two scales.
pub open spec fn common_scale(a: Num, b: Num) -> nat {
    if a.scale < b.scale {
        b.scale
    } else {
        a.scale
    }
}

/// The mantissa of `a` written with `scale` decimal places.
pub open spec fn aligned(a: Num, scale: nat) -> int {
    a.mantissa * pow10((scale - a.scale) as nat)
}

/// The exact sum, at the larger of the two scales.
pub open spec fn exact_sum(a: Num, b: Num) -> Num {
    let scale = common_scale(a, b);
    Num { mantissa: aligned(a, scale) + aligned(b, scale), scale }
}

/// The exact difference, at the larger of the two scales.
pub open spec fn exact_difference(a: Num, b: Num) -> Num {
    let scale = common_scale(a, b);
    Num { mantissa: aligned(a, scale) - aligned(b, scale), scale }
}

/// The exact product.
pub open spec fn exact_product(a: Num, b: Num) -> Num {
    Num { mantissa: a.mantissa * b.mantissa, scale: a.scale + b.scale }
}

/// Whether both numbers fit once written at their larger scale.
pub open spec fn aligned_fit(a: Num, b: Num) -> bool {
    let scale = common_scale(a, b);
    fits(aligned(a, scale)) && fits(aligned(b, scale))
}

/// The largest integer that is not above `a`.
pub open spec fn floor_of(a: Num) -> int {
    a.mantissa / pow10(a.scale)
}

/// `m / d` rounded to the nearest integer, ties to the even one.
pub open spec fn nearest_even(m: int, d: int) -> int {
    let q = m / d;
    let r = m % d;
    if 2 * r < d || (2 * r == d && q % 2 == 0) {
        q
    } else {
        q + 1
    }
}

/// `a` with at most `places` decimal places, ties rounded to even.
pub open spec fn rounded(a: Num, places: nat) -> Num {
    if a.scale <= places {
        a
    } else {
        Num {
            mantissa: nearest_even(a.mantissa, pow10((a.scale - places) as nat)),
            scale: places,
        }
    }
}

/// Powers of ten are positive.
pub proof fn lemma_pow10_positive(n: nat)
    ensures
        pow10(n) > 0,
    decreases n,
{
    if n > 0 {
        lemma_pow10_positive((n - 1) as nat);
    }
}

/// What is below a number is below every number of the same value.
pub proof fn lemma_less_equal(a: Num, b: Num, c: Num)
    requires
        less(a, b),
        equal(c, b),
    ensures
        less(a, c),
{
    lemma_pow10_positive(a.scale);
    lemma_pow10_positive(b.scale);
    lemma_pow10_positive(c.scale);
    let (l, m, n) = (a.mantissa, b.mantissa, c.mantissa);
    let (p, q, r) = (pow10(a.scale), pow10(b.scale), pow10(c.scale));
    assert((l * r) * q == (l * q) * r) by (nonlinear_arith);
    assert((n * p) * q == (n * q) * p) by (nonlinear_arith);
    assert((m * r) * p == (m * p) * r) by (nonlinear_arith);
    assert((l * q) * r < (m * p) * r) by (nonlinear_arith)
        requires
            l * q < m * p,
            r > 0,
    ;
    let (x, y) = (l * r, n * p);
    assert(x < y) by (nonlinear_arith)
        requires
            x * q < y * q,
            q > 0,
    ;
}

/// Comparing with an integer is comparing the mantissas at the scale of the other
/// number.
pub proof fn lemma_less_whole(a: Num, n: int)
    ensures
        less(a, whole(n)) <==> a.mantissa < n * pow10(a.scale),
        less(whole(n), a) <==> n * pow10(a.scale) < a.mantissa,
{
    let (m, one) = (a.mantissa, pow10(0));
    assert(m * one == m) by (nonlinear_arith)
        requires
            one == 1,
    ;
}

/// The smaller of two numbers is one of them and above neither; it is the first
/// where they have the same value.
pub proof fn smaller_is_above_neither(a: Num, b: Num)
    ensures
        smaller(a, b) == a || smaller(a, b) == b,
        !less(a, smaller(a, b)),
        !less(b, smaller(a, b)),
        equal(a, b) ==> smaller(a, b) == a,
{
    let (m, n, p, q) = (a.mantissa, b.mantissa, pow10(a.scale), pow10(b.scale));
    assert(less(b, a) ==> !less(a, b));
}

/// The integer part of a number is not above it, and the number is below the next
/// integer.
pub proof fn floor_is_next_below(a: Num)
    ensures
        !less(a, whole(floor_of(a))),
        less(a, whole(floor_of(a) + 1)),
{
    lemma_pow10_positive(a.scale);
    lemma_less_whole(a, floor_of(a));
    lemma_less_whole(a, floor_of(a) + 1);
    let (m, p, f) = (a.mantissa, pow10(a.scale), floor_of(a));
    assert(f * p <= m && m < (f + 1) * p) by (nonlinear_arith)
        requires
            f == m / p,
            p > 0,
    ;
}

/// An integer is its own integer part, and the integer part is negative exactly where
/// the number is.
pub proof fn lemma_floor_sign(a: Num)
    ensures
        floor_of(whole(floor_of(a))) == floor_of(a),
        floor_of(a) >= 0 <==> a.mantissa >= 0,
{
    lemma_pow10_positive(a.scale);
    let (m, p, f) = (a.mantissa, pow10(a.scale), floor_of(a));
    assert(f >= 0 <==> m >= 0) by (nonlinear_arith)
        requires
            f == m / p,
            p > 0,
    ;
    assert(f / pow10(0) == f) by (nonlinear_arith)
        requires
            pow10(0) == 1,
    ;
}

/// A number that is not above another one has no larger integer part.
pub proof fn lemma_floor_grows(a: Num, b: Num)
    requires
        !less(b, a),
    ensures
        floor_of(a) <= floor_of(b),
{
    lemma_pow10_positive(a.scale);
    lemma_pow10_positive(b.scale);
    let (m, n, p, q) = (a.mantissa, b.mantissa, pow10(a.scale), pow10(b.scale));
    let (f, g) = (floor_of(a), floor_of(b));
    assert(f * p <= m) by (nonlinear_arith)
        requires
            f == m / p,
            p > 0,
    ;
    assert(n < (g + 1) * q) by (nonlinear_arith)
        requires
            g == n / q,
            q > 0,
    ;
    assert(f < g + 1) by (nonlinear_arith)
        requires
            f * p <= m,
            m * q <= n * p,
            n < (g + 1) * q,
            p > 0,
            q > 0,
    ;
}

/// Rounding leaves at most the asked decimal places and is off by at most half of
/// the last one; a number with no more places stays as it is, and where two results
/// are equally near, the even one is taken.
pub proof fn rounding_is_near(a: Num, places: nat)
    ensures
        rounded(a, places).scale <= places,
        a.scale <= places ==> rounded(a, places) == a,
        a.scale > places ==> ({
            let unit = pow10((a.scale - places) as nat);
            let off = rounded(a, places).mantissa * unit - a.mantissa;
            &&& -unit <= 2 * off <= unit
            &&& 2 * off == unit || 2 * off == -unit ==> rounded(a, places).mantissa % 2 == 0
        }),
{
    if a.scale > places {
        let unit = pow10((a.scale - places) as nat);
        lemma_pow10_positive((a.scale - places) as nat);
        let (m, q, r) = (a.mantissa, a.mantissa / unit, a.mantissa % unit);
        assert(m == q * unit + r && 0 <= r && r < unit) by (nonlinear_arith)
            requires
                q == m / unit,
                r == m % unit,
                unit > 0,
        ;
        assert((q + 1) * unit == q * unit + unit) by (nonlinear_arith);
    }
}

/// A power of ten is the product of the powers that its exponent is the sum of.
pub proof fn lemma_pow10_adds(a: nat, b: nat)
    ensures
        pow10(a + b) == pow10(a) * pow10(b),
    decreases a,
{
    if a > 0 {
        lemma_pow10_adds((a - 1) as nat, b);
        let (p, q) = (pow10((a - 1) as nat), pow10(b));
        assert((a + b - 1) as nat == (a - 1) as nat + b);
        assert(10 * (p * q) == (10 * p) * q) by (nonlinear_arith);
    }
}

/// A number of at most as many decimal places as another one of the same value has
/// a mantissa of at most the same magnitude, and the same sign.
pub proof fn lemma_fewer_places(a: Num, b: Num)
    requires
        equal(a, b),
        a.scale <= b.scale,
    ensures
        b.mantissa == a.mantissa * pow10((b.scale - a.scale) as nat),
        b.mantissa >= 0 ==> 0 <= a.mantissa <= b.mantissa,
        b.mantissa > 0 ==> 0 < a.mantissa,
{
    let more = (b.scale - a.scale) as nat;
    lemma_pow10_positive(a.scale);
    lemma_pow10_positive(more);
    lemma_pow10_adds(a.scale, more);
    let (m, n, p, q) = (a.mantissa, b.mantissa, pow10(a.scale), pow10(more));
    assert(n == m * q) by (nonlinear_arith)
        requires
            m * (p * q) == n * p,
            p > 0,
    ;
    assert(n >= 0 ==> 0 <= m <= n) by (nonlinear_arith)
        requires
            n == m * q,
            q >= 1,
    ;
    assert(n > 0 ==> 0 < m) by (nonlinear_arith)
        requires
            n == m * q,
            q >= 1,
    ;
}

/// The magnitude of `n`.
pub open spec fn magnitude(n: int) -> nat {
    if n < 0 {
        (-n) as nat
    } else {
        n as nat
    }
}

/// The last `width` digits of `n`, zeros in front where there are fewer.
pub open spec fn padded(n: nat, width: nat) -> Seq<char>
    decreases width,
{
    if width == 0 {
        Seq::empty()
    } else {
        padded(n / 10, (width - 1) as nat).push(crate::text::digit_char((n % 10) as int))
    }
}

/// `a` in decimal notation with exactly `a.scale` decimal places.
pub open spec fn decimal_text(a: Num) -> Seq<char> {
    let n = magnitude(a.mantissa);
    let sign = if a.mantissa < 0 {
        seq!['-']
    } else {
        Seq::empty()
    };
    let places = if a.scale == 0 {
        Seq::empty()
    } else {
        seq!['.'] + padded(n, a.scale)
    };
    sign + numeral((n / pow10(a.scale) as nat)) + places
}

/// What [`Dec::to_u64`] returns: the integer part of a number that is not
/// negative, where 64 bits hold it.
pub open spec fn u64_part(a: Num) -> Option<u64> {
    if a.mantissa >= 0 && floor_of(a) <= u64::MAX {
        Some(floor_of(a) as u64)
    } else {
        None
    }
}

/// A decimal amount: a mantissa below `2^96` in magnitude and a scale of at
/// most 28.
#[derive(Clone, Copy, Debug)]
pub struct Dec {
    mantissa: i128,
    scale: u32,
}

impl View for Dec {
    type V = Num;

    closed spec fn view(&self) -> Num {
        Num { mantissa: self.mantissa as int, scale: self.scale as nat }
    }
}

/// What a checked operation of `rust_decimal` returns, as a number.
pub open spec fn result_view(r: Option<Dec>) -> Option<Num> {
    match r {
        Some(d) => Some(d@),
        None => None,
    }
}

/// The sum that `Decimal::checked_add` computes.
pub uninterp spec fn decimal_sum(a: Num, b: Num) -> Option<Num>;

/// The difference that `Decimal::checked_sub` computes.
pub uninterp spec fn decimal_difference(a: Num, b: Num) -> Option<Num>;

/// The product that `Decimal::checked_mul` computes.
pub uninterp spec fn decimal_product(a: Num, b: Num) -> Option<Num>;

/// The quotient that `Decimal::checked_div` computes.
pub uninterp spec fn decimal_quotient(a: Num, b: Num) -> Option<Num>;

/// The number that `Decimal::from_str` reads, if the text denotes one.
pub uninterp spec fn parsed_decimal(text: Seq<char>) -> Option<Num>;

impl Dec {
    #[verifier::type_invariant]
    spec fn in_bounds(self) -> bool {
        fits(self.mantissa as int) && self.scale <= 28
    }

    /// The amount `num / 10^scale`.
    pub fn new(num: i64, scale: u32) -> (r: Dec)
        requires
            scale <= 28,
        ensures
            r@ == (Num { mantissa: num as int, scale: scale as nat }),
    {
        Dec { mantissa: num as i128, scale }
    }

    /// The amount `mantissa / 10^scale`, where mantissa and scale are in range.
    pub fn from_parts(mantissa: i128, scale: u32) -> (r: Option<Dec>)
        ensures
            r is Some <==> fits(mantissa as int) && scale <= 28,
            r matches Some(d) ==> d@ == (Num { mantissa: mantissa as int, scale: scale as nat }),
    {
        if -0x1_0000_0000_0000_0000_0000_0000 < mantissa && mantissa
            < 0x1_0000_0000_0000_0000_0000_0000 && scale <= 28 {
            Some(Dec { mantissa, scale })
        } else {
            None
        }
    }

    /// The mantissa.
    pub fn mantissa(&self) -> (r: i128)
        ensures
            r == self@.mantissa,
            fits(r as int),
    {
        proof {
            use_type_invariant(self);
        }
        self.mantissa
    }

    /// The number of decimal places.
    pub fn scale(&self) -> (r: u32)
        ensures
            r == self@.scale,
            r <= 28,
    {
        proof {
            use_type_invariant(self);
        }
        self.scale
    }

    /// Zero.
    pub fn zero() -> (r: Dec)
        ensures
            r@ == zero(),
    {
        Dec::new(0, 0)
    }

    /// One.
    pub fn one() -> (r: Dec)
        ensures
            r@ == whole(1),
    {
        Dec::new(1, 0)
    }

    /// One hundred.
    pub fn hundred() -> (r: Dec)
        ensures
            r@ == whole(100),
    {
        Dec::new(100, 0)
    }

    /// Calls `Decimal::checked_add`. The result is named
    /// [`decimal_sum`]; it is the exact sum wherever both operands and the sum
    /// fit at the larger of the two scales, and never has more decimal places than
    /// that.
    #[verifier::external_body]
    pub(crate) fn checked_add(self, other: Dec) -> (r: Option<Dec>)
        ensures
            result_view(r) == decimal_sum(self@, other@),
            aligned_fit(self@, other@) && fits(exact_sum(self@, other@).mantissa) ==> r is Some
                && equal(r->0@, exact_sum(self@, other@)),
            r is Some ==> r->0@.scale <= common_scale(self@, other@),
    {
        let a = Decimal::from_i128_with_scale(self.mantissa, self.scale);
        let b = Decimal::from_i128_with_scale(other.mantissa, other.scale);
        a.checked_add(b).map(|d| Dec { mantissa: d.mantissa(), scale: d.scale() })
    }

    /// Calls `Decimal::checked_sub`. The result is named
    /// [`decimal_difference`]; it is the exact difference wherever both
    /// operands and the difference fit at the larger of the two scales, and never
    /// has more decimal places than that.
    #[verifier::external_body]
    pub(crate) fn checked_sub(self, other: Dec) -> (r: Option<Dec>)
        ensures
            result_view(r) == decimal_difference(self@, other@),
            aligned_fit(self@, other@) && fits(exact_difference(self@, other@).mantissa) ==> r
                is Some && equal(r->0@, exact_difference(self@, other@)),
            r is Some ==> r->0@.scale <= common_scale(self@, other@),
    {
        let a = Decimal::from_i128_with_scale(self.mantissa, self.scale);
        let b = Decimal::from_i128_with_scale(other.mantissa, other.scale);
        a.checked_sub(b).map(|d| Dec { mantissa: d.mantissa(), scale: d.scale() })
    }

    /// Calls `Decimal::checked_mul`. The result is named
    /// [`decimal_product`]; it is the exact product wherever that fits with
    /// both scales added up, and never has more decimal places than that.
    #[verifier::external_body]
    pub(crate) fn checked_mul(self, other: Dec) -> (r: Option<Dec>)
        ensures
            result_view(r) == decimal_product(self@, other@),
            fits(exact_product(self@, other@).mantissa) && self@.scale + other@.scale <= 28 ==> r
                is Some && equal(r->0@, exact_product(self@, other@)),
            r is Some ==> r->0@.scale <= self@.scale + other@.scale,
    {
        let a = Decimal::from_i128_with_scale(self.mantissa, self.scale);
        let b = Decimal::from_i128_with_scale(other.mantissa, other.scale);
        a.checked_mul(b).map(|d| Dec { mantissa: d.mantissa(), scale: d.scale() })
    }

    /// Calls `Decimal::checked_div`. The result is named
    /// [`decimal_quotient`]; there is none for a zero divisor. Dividing an amount
    /// that is not negative, whose mantissa is below `2^63` and whose scale is at
    /// most 18, by a positive one whose mantissa is below `2^32` and whose scale is
    /// at most 9 keeps the integer part of the true quotient.
    /// Dividing by one hundred or by a million is exact for a mantissa of 64
    /// bits with at most 19 decimal places.
    #[verifier::external_body]
    pub(crate) fn checked_div(self, other: Dec) -> (r: Option<Dec>)
        ensures
            result_view(r) == decimal_quotient(self@, other@),
            other@.mantissa == 0 ==> r is None,
            0 <= self@.mantissa < 0x8000_0000_0000_0000 && self@.scale <= 18 && 0 < other@.mantissa
                < 0x1_0000_0000 && other@.scale <= 9 ==> r is Some && floor_of(r->0@) == (
            self@.mantissa * pow10(other@.scale)) / (other@.mantissa * pow10(self@.scale)),
            (other@ == whole(100) || other@ == whole(1_000_000)) && magnitude(self@.mantissa)
                < 0x1_0000_0000_0000_0000 && self@.scale <= 19 ==> r is Some && equal(
                exact_product(r->0@, other@),
                self@,
            ),
    {
        let a = Decimal::from_i128_with_scale(self.mantissa, self.scale);
        let b = Decimal::from_i128_with_scale(other.mantissa, other.scale);
        a.checked_div(b).map(|d| Dec { mantissa: d.mantissa(), scale: d.scale() })
    }

    /// Calls `Decimal`'s `<`, which compares by value.
    #[verifier::external_body]
    pub(crate) fn lt(self, other: Dec) -> (r: bool)
        ensures
            r == less(self@, other@),
    {
        Decimal::from_i128_with_scale(self.mantissa, self.scale)
            < Decimal::from_i128_with_scale(other.mantissa, other.scale)
    }

    /// Calls `Decimal::floor`, which gives the largest integer not above the
    /// amount, with no decimal places.
    #[verifier::external_body]
    pub(crate) fn floor(self) -> (r: Dec)
        ensures
            r@ == whole(floor_of(self@)),
    {
        let d = Decimal::from_i128_with_scale(self.mantissa, self.scale).floor();
        Dec { mantissa: d.mantissa(), scale: d.scale() }
    }

    /// Calls `Decimal::round_dp`, which rounds to `places` decimal places, ties
    /// to even, and leaves an amount with fewer places as it is.
    #[verifier::external_body]
    pub(crate) fn round_dp(self, places: u32) -> (r: Dec)
        ensures
            r@ == rounded(self@, places as nat),
    {
        let d = Decimal::from_i128_with_scale(self.mantissa, self.scale).round_dp(places);
        Dec { mantissa: d.mantissa(), scale: d.scale() }
    }

    /// Calls `Decimal`'s `to_u64`, which drops the decimal places and has no
    /// result for a negative amount or one beyond 64 bits.
    #[verifier::external_body]
    pub(crate) fn to_u64(self) -> (r: Option<u64>)
        ensures
            r == u64_part(self@),
    {
        Decimal::from_i128_with_scale(self.mantissa, self.scale).to_u64()
    }

    /// Calls `Decimal`'s `Display`: a sign, the integer part and as many
    /// decimal places as the scale says.
    #[verifier::external_body]
    pub(crate) fn to_text(self) -> (r: String)
        ensures
            r@ == decimal_text(self@),
    {
        format!("{}", Decimal::from_i128_with_scale(self.mantissa, self.scale))
    }

    /// Calls `Decimal::from_str`. What the text denotes is named
    /// [`parsed_decimal`].
    #[verifier::external_body]
    pub(crate) fn parse(text: &str) -> (r: Option<Dec>)
        ensures
            result_view(r) == parsed_decimal(text@),
    {
        Decimal::from_str(text).ok().map(|d| Dec { mantissa: d.mantissa(), scale: d.scale() })
    }

    /// Whether the amount is zero.
    pub fn is_zero(self) -> (r: bool)
        ensures
            r == (self@.mantissa == 0),
    {
        self.mantissa == 0
    }

    /// Whether two amounts have the same value.
    pub fn eq_value(self, other: Dec) -> (r: bool)
        ensures
            r == equal(self@, other@),
    {
        !self.lt(other) && !other.lt(self)
    }

    /// The smaller of two amounts, the first where they are equal.
    pub fn min(self, other: Dec) -> (r: Dec)
        ensures
            r@ == smaller(self@, other@),
            r == self || r == other,
    {
        if other.lt(self) {
            other
        } else {
            self
        }
    }

    /// The amount without its sign.
    pub fn abs(self) -> (r: Dec)
        ensures
            r@ == (Num { mantissa: magnitude(self@.mantissa) as int, scale: self@.scale }),
    {
        proof {
            use_type_invariant(&self);
        }
        if self.mantissa < 0 {
            Dec { mantissa: -self.mantissa, scale: self.scale }
        } else {
            self
        }
    }
}

} // verus!
