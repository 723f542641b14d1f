//! Fixed-point scale and the small arithmetic helpers the effect chain shares.

use vstd::prelude::*;

verus! {

/// One whole unit: fixed-point values count millionths of the real value.
pub const SCALE: i64 = 1_000_000;

/// Largest magnitude a sample may take anywhere in the chain: 64 whole units.
/// The audio backend delivers samples in [-1, 1], so this headroom is never
/// reached in ordinary operation; stages that could exceed it (an extreme
/// volume setting, interpolation between extreme neighbours) saturate here
/// instead of overflowing.
pub const HEADROOM: i64 = 64_000_000;

/// Truncating (toward zero) division, the rounding every stage of the chain
/// uses when it drops a factor of `SCALE` from a product.
pub open spec fn div_trunc(a: int, d: int) -> int
    recommends
        d > 0,
{
    if a >= 0 {
        a / d
    } else {
        -((-a) / d)
    }
}

/// Divides a fixed-point product back down by `SCALE`, truncating toward zero.
pub fn div_scale(a: i64) -> (r: i64)
    requires
        a > i64::MIN,
    ensures
        r == div_trunc(a as int, SCALE as int),
{
    if a >= 0 {
        ((a as u64) / (SCALE as u64)) as i64
    } else {
        -((((-a) as u64) / (SCALE as u64)) as i64)
    }
}

/// The magnitude of a value.
pub open spec fn abs_spec(v: int) -> int {
    if v >= 0 {
        v
    } else {
        -v
    }
}

/// A value clamped into the chain's representable range.
pub open spec fn sat_spec(v: int) -> int {
    if v > HEADROOM {
        HEADROOM as int
    } else if v < -HEADROOM {
        -(HEADROOM as int)
    } else {
        v
    }
}

/// Saturates a sample at the chain's headroom.
pub fn saturate(v: i64) -> (r: i64)
    ensures
        r == sat_spec(v as int),
        -HEADROOM <= r <= HEADROOM,
{
    if v > HEADROOM {
        HEADROOM
    } else if v < -HEADROOM {
        -HEADROOM
    } else {
        v
    }
}

/// Truncating division by an arbitrary positive divisor.
pub fn div_trunc_i64(a: i64, d: i64) -> (r: i64)
    requires
        a > i64::MIN,
        d > 0,
    ensures
        r == div_trunc(a as int, d as int),
{
    if a >= 0 {
        ((a as u64) / (d as u64)) as i64
    } else {
        -((((-a) as u64) / (d as u64)) as i64)
    }
}

/// Divides a double-width fixed-point product down by `SCALE`, truncating
/// toward zero.
pub fn div_scale_wide(a: i128) -> (r: i128)
    requires
        a > i128::MIN,
    ensures
        r == div_trunc(a as int, SCALE as int),
{
    if a >= 0 {
        ((a as u128) / (SCALE as u128)) as i128
    } else {
        -((((-a) as u128) / (SCALE as u128)) as i128)
    }
}

/// Saturates a double-width value into the chain's sample range.
pub fn saturate_wide(v: i128) -> (r: i64)
    ensures
        r == sat_spec(v as int),
        -HEADROOM <= r <= HEADROOM,
{
    if v > HEADROOM as i128 {
        HEADROOM
    } else if v < -(HEADROOM as i128) {
        -HEADROOM
    } else {
        v as i64
    }
}

/// A value clamped into `[lo, hi]`.
pub open spec fn clamp_spec(v: int, lo: int, hi: int) -> int
    recommends
        lo <= hi,
{
    if v < lo {
        lo
    } else if v > hi {
        hi
    } else {
        v
    }
}

/// Clamps a value into `[lo, hi]`.
pub fn clamp_i64(v: i64, lo: i64, hi: i64) -> (r: i64)
    requires
        lo <= hi,
    ensures
        r == clamp_spec(v as int, lo as int, hi as int),
        lo <= r <= hi,
{
    if v < lo {
        lo
    } else if v > hi {
        hi
    } else {
        v
    }
}

/// The integer square root: the spec-side definition counts up from zero, so
/// it is exactly the greatest `r` with `r * r <= x` (see `lemma_isqrt_bounds`).
pub open spec fn isqrt_spec(x: nat) -> nat
    decreases x,
{
    if x == 0 {
        0
    } else {
        let r = isqrt_spec((x - 1) as nat);
        if (r + 1) * (r + 1) <= x {
            r + 1
        } else {
            r
        }
    }
}

pub proof fn lemma_isqrt_bounds(x: nat)
    ensures
        isqrt_spec(x) * isqrt_spec(x) <= x,
        x < (isqrt_spec(x) + 1) * (isqrt_spec(x) + 1),
    decreases x,
{
    let s = isqrt_spec(x);
    if x > 0 {
        lemma_isqrt_bounds((x - 1) as nat);
        let r = isqrt_spec((x - 1) as nat);
        if (r + 1) * (r + 1) <= x {
            assert(s == r + 1);
            assert(s * s <= x && x < (s + 1) * (s + 1)) by (nonlinear_arith)
                requires
                    s == r + 1,
                    (r + 1) * (r + 1) <= x,
                    x - 1 < (r + 1) * (r + 1),
            ;
        } else {
            assert(s == r);
            assert(s * s <= x && x < (s + 1) * (s + 1)) by (nonlinear_arith)
                requires
                    s == r,
                    r * r <= x - 1,
                    x < (r + 1) * (r + 1),
            ;
        }
    } else {
        assert(s == 0);
        assert(s * s <= x && x < (s + 1) * (s + 1)) by (nonlinear_arith)
            requires
                s == 0,
                x == 0,
        ;
    }
}

/// Any `r` bracketed by the square-root inequalities is the integer root.
pub proof fn lemma_isqrt_unique(x: nat, r: nat)
    requires
        r * r <= x,
        x < (r + 1) * (r + 1),
    ensures
        r == isqrt_spec(x),
{
    lemma_isqrt_bounds(x);
    let s = isqrt_spec(x);
    if r < s {
        assert((r + 1) * (r + 1) <= s * s) by (nonlinear_arith)
            requires
                r + 1 <= s,
        ;
    }
    if s < r {
        assert((s + 1) * (s + 1) <= r * r) by (nonlinear_arith)
            requires
                s + 1 <= r,
        ;
    }
}

/// The integer square root never decreases.
pub proof fn lemma_isqrt_monotone(x: nat, y: nat)
    requires
        x <= y,
    ensures
        isqrt_spec(x) <= isqrt_spec(y),
{
    lemma_isqrt_bounds(x);
    lemma_isqrt_bounds(y);
    let a = isqrt_spec(x);
    let b = isqrt_spec(y);
    if a > b {
        assert((b + 1) * (b + 1) <= a * a) by (nonlinear_arith)
            requires
                b + 1 <= a,
        ;
    }
}

/// Binary-search integer square root.
pub fn isqrt_u64(x: u64) -> (r: u64)
    ensures
        r as nat == isqrt_spec(x as nat),
        r * r <= x,
        x < (r + 1) * (r + 1),
{
    let mut lo: u64 = 0;
    let mut hi: u64 = 0xFFFF_FFFF;
    assert((0xFFFF_FFFFu64 + 1) * (0xFFFF_FFFFu64 + 1) > x as int);
    while lo < hi
        invariant
            lo <= hi <= 0xFFFF_FFFF,
            lo * lo <= x,
            x < (hi + 1) * (hi + 1),
        decreases hi - lo,
    {
        let mid: u64 = lo + (hi - lo + 1) / 2;
        assert(lo < mid <= hi);
        assert(mid * mid <= 0xFFFF_FFFFu64 * 0xFFFF_FFFFu64) by (nonlinear_arith)
            requires
                mid <= 0xFFFF_FFFFu64,
        ;
        if mid * mid <= x {
            lo = mid;
        } else {
            hi = mid - 1;
        }
    }
    proof {
        lemma_isqrt_unique(x as nat, lo as nat);
    }
    lo
}

} // verus!
