//! Fixed-point numbers with six decimal places, and the rounding division
//! that the camera's formulas are built on.

use vstd::prelude::*;

verus! {

/// How many raw units make up the number one.
pub const UNIT: i64 = 1_000_000;

/// How many raw units make up one half.
pub const HALF_UNIT: i64 = 500_000;

/// A number with six decimal places: `raw` counts its millionths.
#[derive(Clone, Copy, Debug, PartialEq, Eq, Structural)]
pub struct Fixed {
    pub raw: i64,
}

impl View for Fixed {
    type V = int;

    /// The count of millionths, as an integer.
    open spec fn view(&self) -> int {
        self.raw as int
    }
}

impl Fixed {
    /// The fixed-point number that equals the whole number `value`.
    pub fn from_int(value: i32) -> (r: Fixed)
        ensures
            r@ == value * UNIT,
    {
        Fixed { raw: (value as i64) * UNIT }
    }
}

/// The integer nearest to the rational `n / d`; a tie goes away from zero.
pub open spec fn round_div(n: int, d: int) -> int
    recommends
        d > 0,
{
    if n >= 0 {
        (2 * n + d) / (2 * d)
    } else {
        -((d - 2 * n) / (2 * d))
    }
}

/// `v` brought into the range of an `i64`.
pub open spec fn saturate(v: int) -> int {
    if v < i64::MIN {
        i64::MIN as int
    } else if v > i64::MAX {
        i64::MAX as int
    } else {
        v
    }
}

/// The quotient of nonnegative `n` by `d`, rounded half up, from the
/// truncated quotient and the remainder.
proof fn lemma_round_half_up(n: int, d: int)
    requires
        n >= 0,
        d > 0,
    ensures
        (2 * n + d) / (2 * d) == n / d + (if 2 * (n % d) >= d { 1int } else { 0int }),
{
    let q = n / d;
    let r = n % d;
    vstd::arithmetic::div_mod::lemma_fundamental_div_mod(n, d);
    vstd::arithmetic::div_mod::lemma_mod_bound(n, d);
    assert(n == d * q + r);
    assert(d * q == q * d) by (nonlinear_arith);
    if 2 * r >= d {
        assert(2 * n + d == (q + 1) * (2 * d) + (2 * r - d)) by (nonlinear_arith)
            requires
                n == q * d + r,
        ;
        vstd::arithmetic::div_mod::lemma_fundamental_div_mod_converse(
            2 * n + d,
            2 * d,
            q + 1,
            2 * r - d,
        );
    } else {
        assert(2 * n + d == q * (2 * d) + (2 * r + d)) by (nonlinear_arith)
            requires
                n == q * d + r,
        ;
        vstd::arithmetic::div_mod::lemma_fundamental_div_mod_converse(
            2 * n + d,
            2 * d,
            q,
            2 * r + d,
        );
    }
}

/// `round_div` is off from the exact quotient by at most one half.
pub proof fn lemma_round_div_is_nearest(n: int, d: int)
    requires
        d > 0,
    ensures
        -d <= 2 * (round_div(n, d) * d - n) <= d,
{
    let m = if n >= 0 { n } else { -n };
    let q = m / d;
    let r = m % d;
    lemma_round_half_up(m, d);
    vstd::arithmetic::div_mod::lemma_fundamental_div_mod(m, d);
    vstd::arithmetic::div_mod::lemma_mod_bound(m, d);
    let k = (2 * m + d) / (2 * d);
    assert(d * q == q * d) by (nonlinear_arith);
    assert((q + 1) * d == q * d + d) by (nonlinear_arith);
    assert(-d <= 2 * (k * d - m) <= d);
    assert((-k) * d == -(k * d)) by (nonlinear_arith);
}

/// Negating the dividend negates the rounded quotient.
pub proof fn lemma_round_div_is_odd(n: int, d: int)
    requires
        d > 0,
    ensures
        round_div(-n, d) == -round_div(n, d),
{
    if n == 0 {
        assert((0 + d) / (2 * d) == 0) by {
            vstd::arithmetic::div_mod::lemma_fundamental_div_mod_converse(d, 2 * d, 0, d);
        }
    }
}

/// A dividend that is a multiple of the divisor is divided without error.
pub proof fn lemma_round_div_of_multiple(q: int, d: int)
    requires
        d > 0,
    ensures
        round_div(q * d, d) == q,
{
    let m = if q >= 0 { q } else { -q };
    assert(2 * (m * d) + d == m * (2 * d) + d) by (nonlinear_arith);
    vstd::arithmetic::div_mod::lemma_fundamental_div_mod_converse(2 * (m * d) + d, 2 * d, m, d);
    assert((-q) * d == -(q * d)) by (nonlinear_arith);
    assert(q >= 0 ==> q * d >= 0) by (nonlinear_arith)
        requires
            d > 0,
    ;
    assert(q < 0 ==> q * d < 0) by (nonlinear_arith)
        requires
            d > 0,
    ;
}

/// A rounded quotient is within every whole bound that the exact quotient
/// is within.
pub proof fn lemma_round_div_within(n: int, d: int, bound: int)
    requires
        d > 0,
        -bound * d <= n <= bound * d,
    ensures
        -bound <= round_div(n, d) <= bound,
{
    let q = round_div(n, d);
    lemma_round_div_is_nearest(n, d);
    assert(q <= bound) by (nonlinear_arith)
        requires
            2 * (q * d - n) <= d,
            n <= bound * d,
            d > 0,
    ;
    assert(-bound <= q) by (nonlinear_arith)
        requires
            -d <= 2 * (q * d - n),
            -bound * d <= n,
            d > 0,
    ;
}

/// The rounded quotients of two dividends add up to the rounded quotient
/// of their sum, up to one.
pub proof fn lemma_round_div_of_sum(a: int, b: int, d: int)
    requires
        d > 0,
    ensures
        -1 <= round_div(a, d) + round_div(b, d) - round_div(a + b, d) <= 1,
{
    let qa = round_div(a, d);
    let qb = round_div(b, d);
    let qs = round_div(a + b, d);
    lemma_round_div_is_nearest(a, d);
    lemma_round_div_is_nearest(b, d);
    lemma_round_div_is_nearest(a + b, d);
    assert((qa + qb - qs) * d == qa * d + qb * d - qs * d) by (nonlinear_arith);
    assert(-1 <= qa + qb - qs <= 1) by (nonlinear_arith)
        requires
            -3 * d <= 2 * ((qa + qb - qs) * d) <= 3 * d,
            d > 0,
    ;
}

/// Computes `round_div(n, d)`.
pub(crate) fn round_div_i128(n: i128, d: i128) -> (q: i128)
    requires
        d > 0,
        n > i128::MIN,
    ensures
        q == round_div(n as int, d as int),
        n >= 0 ==> 0 <= q <= n,
        n <= 0 ==> n <= q <= 0,
{
    let m: i128 = if n >= 0 { n } else { -n };
    let t: i128 = m / d;
    let r: i128 = m % d;
    proof {
        lemma_round_half_up(m as int, d as int);
        vstd::arithmetic::div_mod::lemma_fundamental_div_mod(m as int, d as int);
        vstd::arithmetic::div_mod::lemma_mod_bound(m as int, d as int);
        assert(t * d <= m) by (nonlinear_arith)
            requires
                m == d * t + r,
                r >= 0,
        ;
        assert(t <= m) by (nonlinear_arith)
            requires
                t * d <= m,
                d >= 1,
                t >= 0,
        ;
    }
    let up: bool = r >= d - r;
    proof {
        if up {
            assert(2 * t + 1 <= m) by (nonlinear_arith)
                requires
                    m == d * t + r,
                    r >= 1,
                    d >= 2,
                    t >= 0,
            ;
        }
    }
    if n >= 0 {
        if up { t + 1 } else { t }
    } else {
        if up { -(t + 1) } else { -t }
    }
}

/// Computes `v * UNIT`.
pub(crate) fn times_unit(v: i128) -> (r: i128)
    requires
        -0x1_0000_0000_0000_0000_0000_0000 <= v <= 0x1_0000_0000_0000_0000_0000_0000,
    ensures
        r == v * UNIT,
{
    v * 1_000_000
}

/// Computes `v * HALF_UNIT`.
pub(crate) fn times_half_unit(v: u32) -> (r: i128)
    ensures
        r == v * HALF_UNIT,
{
    (v as i128) * 500_000
}

/// Computes `saturate(v)`.
pub(crate) fn saturate_i128(v: i128) -> (r: i64)
    ensures
        r == saturate(v as int),
{
    if v < i64::MIN as i128 {
        i64::MIN
    } else if v > i64::MAX as i128 {
        i64::MAX
    } else {
        v as i64
    }
}

} // verus!
