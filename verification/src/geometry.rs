//! Integer 2D geometry: points, coordinate bounds, clamping, rounding
//! division and an integer square root.
//!
//! All engine coordinates are integer pixel values confined to
//! `[-COORD_LIMIT, COORD_LIMIT]`, which keeps squared distances and cross
//! products comfortably inside `i64`.

use vstd::prelude::*;

verus! {

/// Bound on every stored coordinate, radius and width (2^24 pixels).
pub const COORD_LIMIT: i64 = 16_777_216;

/// A 2D point (or vector) in integer pixel coordinates.
#[derive(Clone, Copy, PartialEq, Eq, Structural, Debug)]
pub struct Point {
    pub x: i64,
    pub y: i64,
}

impl Point {
    /// The coordinate lies within the engine's coordinate range.
    pub open spec fn in_range(self) -> bool {
        -COORD_LIMIT <= self.x <= COORD_LIMIT && -COORD_LIMIT <= self.y <= COORD_LIMIT
    }

    pub fn zero() -> (p: Point)
        ensures
            p == (Point { x: 0i64, y: 0i64 }),
    {
        Point { x: 0, y: 0 }
    }
}

/// The square of an integer.
pub open spec fn sq(v: int) -> int {
    v * v
}

/// A square is monotone in the magnitude of its argument.
pub proof fn lemma_sq_bound(v: int, b: int)
    requires
        -b <= v <= b,
        0 <= b,
    ensures
        0 <= sq(v) <= sq(b),
{
    assert(0 <= v * v <= b * b) by (nonlinear_arith)
        requires -b <= v <= b && 0 <= b;
}

/// A product is bounded by the product of the factors' bounds.
pub proof fn lemma_mul_bound(x: int, y: int, bx: int, by: int)
    requires
        -bx <= x <= bx,
        -by <= y <= by,
        0 <= bx,
        0 <= by,
    ensures
        -(bx * by) <= x * y <= bx * by,
{
    assert(-(bx * by) <= x * y <= bx * by) by (nonlinear_arith)
        requires -bx <= x <= bx && -by <= y <= by && 0 <= bx && 0 <= by;
}

/// `v` clamped into `[lo, hi]`.
pub open spec fn spec_clamp(v: int, lo: int, hi: int) -> int {
    if v < lo { lo } else if v > hi { hi } else { v }
}

pub fn clamp_i64(v: i64, lo: i64, hi: i64) -> (r: i64)
    requires
        lo <= hi,
    ensures
        r == spec_clamp(v as int, lo as int, hi as int),
{
    if v < lo { lo } else if v > hi { hi } else { v }
}

/// Division truncated toward zero (the sign convention of hardware
/// division), for a positive divisor.
pub open spec fn spec_div_trunc(a: int, d: int) -> int {
    if a >= 0 { a / d } else { -((-a) / d) }
}

/// Division rounded to the nearest integer, halves away from zero, for a
/// positive divisor.
pub open spec fn spec_round_div(a: int, d: int) -> int {
    if a >= 0 { (2 * a + d) / (2 * d) } else { -((2 * (-a) + d) / (2 * d)) }
}

pub fn div_trunc(a: i64, d: i64) -> (r: i64)
    requires
        d >= 1,
        -COORD_LIMIT * 16 <= a <= COORD_LIMIT * 16,
    ensures
        r == spec_div_trunc(a as int, d as int),
{
    if a >= 0 {
        ((a as u64) / (d as u64)) as i64
    } else {
        let m = (-a) as u64;
        -((m / (d as u64)) as i64)
    }
}

pub fn round_div(a: i64, d: i64) -> (r: i64)
    requires
        d >= 1,
        -COORD_LIMIT * 4 <= a <= COORD_LIMIT * 4,
        d <= COORD_LIMIT,
    ensures
        r == spec_round_div(a as int, d as int),
{
    if a >= 0 {
        (((2 * (a as u64) + (d as u64)) / (2 * (d as u64)))) as i64
    } else {
        let m = (-a) as u64;
        -(((2 * m + (d as u64)) / (2 * (d as u64))) as i64)
    }
}

/// Squared Euclidean distance between two in-range points.
pub open spec fn spec_dist_sq(a: Point, b: Point) -> int {
    sq(a.x - b.x) + sq(a.y - b.y)
}

pub fn dist_sq(a: Point, b: Point) -> (r: i64)
    requires
        a.in_range(),
        b.in_range(),
    ensures
        r == spec_dist_sq(a, b),
        r >= 0,
{
    let dx = a.x - b.x;
    let dy = a.y - b.y;
    proof {
        lemma_sq_bound(dx as int, 2 * COORD_LIMIT as int);
        lemma_sq_bound(dy as int, 2 * COORD_LIMIT as int);
    }
    dx * dx + dy * dy
}

/// Floor of the square root of a nonnegative integer.
pub open spec fn spec_isqrt(n: nat) -> nat
    decreases n,
{
    if n == 0 {
        0nat
    } else {
        let r = spec_isqrt((n - 1) as nat);
        if sq(r as int + 1) <= n {
            r + 1
        } else {
            r
        }
    }
}

/// `spec_isqrt(n)` is the unique value whose square brackets `n`.
pub proof fn lemma_isqrt_brackets(n: nat)
    ensures
        sq(spec_isqrt(n) as int) <= n < sq(spec_isqrt(n) as int + 1),
    decreases n,
{
    if n > 0 {
        lemma_isqrt_brackets((n - 1) as nat);
        let r = spec_isqrt((n - 1) as nat) as int;
        assert(r * r <= (r + 1) * (r + 1) && (r + 1) * (r + 1) < (r + 2) * (r + 2))
            by (nonlinear_arith)
            requires r >= 0;
        if sq(r + 1) <= n {
            assert(spec_isqrt(n) == r + 1);
            assert(n <= sq(r + 1));
            assert(n < sq(r + 2));
        } else {
            assert(spec_isqrt(n) == r);
        }
    } else {
        assert(spec_isqrt(n) == 0);
        assert(sq(0int) == 0 && sq(1int) == 1);
    }
}

/// Any two values whose squares bracket the same `n` are equal.
pub proof fn lemma_isqrt_unique(n: int, a: int, b: int)
    requires
        0 <= a,
        0 <= b,
        sq(a) <= n < sq(a + 1),
        sq(b) <= n < sq(b + 1),
    ensures
        a == b,
{
    assert(a < b ==> sq(a + 1) <= sq(b)) by (nonlinear_arith)
        requires 0 <= a && 0 <= b;
    assert(b < a ==> sq(b + 1) <= sq(a)) by (nonlinear_arith)
        requires 0 <= a && 0 <= b;
}

/// The magnitude of a truncating division never exceeds the dividend's.
pub proof fn lemma_div_trunc_abs(a: int, d: int)
    requires
        d >= 1,
    ensures
        a >= 0 ==> 0 <= spec_div_trunc(a, d) <= a,
        a < 0 ==> a <= spec_div_trunc(a, d) <= 0,
{
    if a >= 0 {
        vstd::arithmetic::div_mod::lemma_div_pos_is_pos(a, d);
        vstd::arithmetic::div_mod::lemma_div_nonincreasing(a, d);
    } else {
        vstd::arithmetic::div_mod::lemma_div_pos_is_pos(-a, d);
        vstd::arithmetic::div_mod::lemma_div_nonincreasing(-a, d);
    }
}

/// A rounding division followed by the multiplication back overshoots the
/// dividend by at most the divisor.
pub proof fn lemma_round_mul_bound(a: int, d: int, bound: int)
    requires
        d >= 1,
        0 <= bound,
        -bound <= a <= bound,
    ensures
        -(bound + d) <= spec_round_div(a, d) * d <= bound + d,
{
    if a >= 0 {
        let x = 2 * a + d;
        let dd = 2 * d;
        vstd::arithmetic::div_mod::lemma_fundamental_div_mod(x, dd);
        let q = x / dd;
        let r = x % dd;
        assert(q * dd == x - r);
        assert(q * (2 * d) == 2 * (q * d)) by (nonlinear_arith);
    } else {
        let x = 2 * (-a) + d;
        let dd = 2 * d;
        vstd::arithmetic::div_mod::lemma_fundamental_div_mod(x, dd);
        let q = x / dd;
        let r = x % dd;
        assert(q * dd == x - r);
        assert(q * (2 * d) == 2 * (q * d)) by (nonlinear_arith);
        assert((-q) * d == -(q * d)) by (nonlinear_arith);
    }
}

/// Truncating division for `i128` intermediates, positive divisor.
pub fn div_trunc_i128(a: i128, d: i128) -> (r: i128)
    requires
        d >= 1,
        -170141183460469231731687303715884105727i128 <= a,
    ensures
        r == spec_div_trunc(a as int, d as int),
{
    proof {
        lemma_div_trunc_abs(a as int, d as int);
    }
    if a >= 0 {
        ((a as u128) / (d as u128)) as i128
    } else {
        let m = (-a) as u128;
        -((m / (d as u128)) as i128)
    }
}

/// Floor of the square root of `n`.
pub fn isqrt(n: u64) -> (r: u64)
    requires
        n < 4611686018427387904u64,
    ensures
        sq(r as int) <= n < sq(r as int + 1),
        r == spec_isqrt(n as nat),
{
    proof {
        lemma_isqrt_brackets(n as nat);
    }
    let mut lo: u64 = 0;
    let mut hi: u64 = 2147483648u64;
    proof {
        assert(sq(2147483648int + 1) > n);
    }
    while lo < hi
        invariant
            lo <= hi <= 2147483648u64,
            sq(lo as int) <= n,
            sq(hi as int + 1) > n,
        decreases hi - lo,
    {
        let mid = lo + (hi - lo + 1) / 2;
        proof {
            lemma_sq_bound(mid as int, 2147483648int);
        }
        if mid * mid <= n {
            lo = mid;
        } else {
            hi = mid - 1;
        }
    }
    proof {
        lemma_isqrt_unique(n as int, lo as int, spec_isqrt(n as nat) as int);
    }
    lo
}

} // verus!
