//! Fixed-point sine and cosine for the modulation oscillator and the Hann
//! window.
//!
//! The half-wave is Bhaskara's rational approximation
//! `sin x ~= 16 x (pi - x) / (5 pi^2 - 4 x (pi - x))` carried out in
//! millionths; the full wave negates it on the second half of the period.
//! The approximation is exact at 0, pi and 2 pi, stays within the unit range
//! (proved below), and is deterministic, which is all the chain relies on.

use vstd::prelude::*;

use crate::fixed::{div_trunc, div_scale, SCALE};

verus! {

/// Half a turn, in millionths of a radian.
pub const PI_FX: i64 = 3_141_593;

/// A full turn, in millionths of a radian.  (Phases live in `[0, TWO_PI_FX)`.)
pub const TWO_PI_FX: i64 = 6_283_185;

/// A quarter turn, in millionths of a radian.
pub const HALF_PI_FX: i64 = 1_570_796;

/// `pi * pi` in millionths, the constant of Bhaskara's denominator.
pub const PI_SQ_FX: i64 = 9_869_604;

/// Bhaskara's approximation on the first half-period, `x` in `[0, PI_FX]`.
pub open spec fn sin_half_spec(x: int) -> int
    recommends
        0 <= x <= PI_FX,
{
    let q = (x * (PI_FX - x)) / (SCALE as int);
    (16 * q * SCALE) / (5 * PI_SQ_FX - 4 * q)
}

/// The full sine wave, `p` in `[0, TWO_PI_FX)`.
pub open spec fn sin_spec(p: int) -> int
    recommends
        0 <= p < TWO_PI_FX,
{
    if p <= PI_FX {
        sin_half_spec(p)
    } else {
        -sin_half_spec(p - PI_FX)
    }
}

/// Cosine as the sine shifted a quarter turn, `p` in `[0, TWO_PI_FX)`.
pub open spec fn cos_spec(p: int) -> int
    recommends
        0 <= p < TWO_PI_FX,
{
    if p + HALF_PI_FX >= TWO_PI_FX {
        sin_spec(p + HALF_PI_FX - TWO_PI_FX)
    } else {
        sin_spec(p + HALF_PI_FX)
    }
}

fn sin_half(x: i64) -> (r: i64)
    requires
        0 <= x <= PI_FX,
    ensures
        r == sin_half_spec(x as int),
        0 <= r <= SCALE,
{
    proof {
        assert(4 * (x * (PI_FX - x)) <= PI_FX * PI_FX) by (nonlinear_arith)
            requires
                0 <= x <= PI_FX,
        ;
        assert(x * (PI_FX - x) >= 0) by (nonlinear_arith)
            requires
                0 <= x <= PI_FX,
        ;
    }
    let prod: i64 = x * (PI_FX - x);
    let q: i64 = div_scale(prod);
    proof {
        assert(q <= 2_467_401 && q >= 0) by (nonlinear_arith)
            requires
                0 <= prod <= 2_467_401_644_412,
                q == div_trunc(prod as int, SCALE as int),
                SCALE == 1_000_000,
        ;
    }
    let den: i64 = 5 * PI_SQ_FX - 4 * q;
    let num: i64 = 16 * q * SCALE;
    proof {
        assert(num <= den * SCALE) by (nonlinear_arith)
            requires
                20 * q <= 5 * PI_SQ_FX,
                num == 16 * q * SCALE,
                den == 5 * PI_SQ_FX - 4 * q,
                SCALE == 1_000_000,
                q >= 0,
        ;
        assert(num / den <= SCALE && num / den >= 0) by (nonlinear_arith)
            requires
                0 <= num <= den * SCALE,
                den > 0,
        ;
    }
    ((num as u64) / (den as u64)) as i64
}

/// The fixed-point sine of a phase in `[0, TWO_PI_FX)`.
pub fn sin_fx(p: i64) -> (r: i64)
    requires
        0 <= p < TWO_PI_FX,
    ensures
        r == sin_spec(p as int),
        -SCALE <= r <= SCALE,
{
    if p <= PI_FX {
        sin_half(p)
    } else {
        -sin_half(p - PI_FX)
    }
}

/// The fixed-point cosine of a phase in `[0, TWO_PI_FX)`.
pub fn cos_fx(p: i64) -> (r: i64)
    requires
        0 <= p < TWO_PI_FX,
    ensures
        r == cos_spec(p as int),
        -SCALE <= r <= SCALE,
{
    let q: i64 = p + HALF_PI_FX;
    if q >= TWO_PI_FX {
        sin_fx(q - TWO_PI_FX)
    } else {
        sin_fx(q)
    }
}

} // verus!
