//! Four-point cubic interpolation, used to synthesize the periodic extra
//! sample that nudges the stream toward the higher output rate.

use vstd::prelude::*;

use crate::fixed::{div_scale, div_trunc, HEADROOM, SCALE};

verus! {

/// The cubic blend through four points evaluated at `t` in `[0, SCALE]`:
/// `a0 t^3 + a1 t^2 + a2 t + a3` with the classic coefficients
/// `a0 = p3 - p2 - p0 + p1`, `a1 = p0 - p1 - a0`, `a2 = p2 - p0`, `a3 = p1`.
pub open spec fn cubic_spec(p0: int, p1: int, p2: int, p3: int, t: int) -> int
    recommends
        0 <= t <= SCALE,
{
    let a0 = p3 - p2 - p0 + p1;
    let a1 = p0 - p1 - a0;
    let a2 = p2 - p0;
    let a3 = p1;
    let t2 = div_trunc(t * t, SCALE as int);
    let t3 = div_trunc(t2 * t, SCALE as int);
    div_trunc(a0 * t3 + a1 * t2 + a2 * t, SCALE as int) + a3
}

/// Evaluates the cubic blend in fixed point.  Pure and deterministic: the
/// result depends on the five arguments alone.
pub fn cubic_interpolate(p0: i64, p1: i64, p2: i64, p3: i64, t: i64) -> (r: i64)
    requires
        -HEADROOM <= p0 <= HEADROOM,
        -HEADROOM <= p1 <= HEADROOM,
        -HEADROOM <= p2 <= HEADROOM,
        -HEADROOM <= p3 <= HEADROOM,
        0 <= t <= SCALE,
    ensures
        r == cubic_spec(p0 as int, p1 as int, p2 as int, p3 as int, t as int),
        -13 * HEADROOM <= r <= 13 * HEADROOM,
{
    let a0: i64 = p3 - p2 - p0 + p1;
    let a1: i64 = p0 - p1 - a0;
    let a2: i64 = p2 - p0;
    let a3: i64 = p1;
    proof {
        assert(0 <= t * t <= SCALE * SCALE) by (nonlinear_arith)
            requires
                0 <= t <= SCALE,
        ;
        assert(0 <= div_trunc(t * t, SCALE as int) <= SCALE) by (nonlinear_arith)
            requires
                0 <= t * t <= SCALE * SCALE,
                SCALE == 1_000_000,
        ;
    }
    let t2: i64 = div_scale(t * t);
    proof {
        assert(0 <= t2 * t <= SCALE * SCALE) by (nonlinear_arith)
            requires
                0 <= t2 <= SCALE,
                0 <= t <= SCALE,
        ;
        assert(0 <= div_trunc(t2 * t, SCALE as int) <= SCALE) by (nonlinear_arith)
            requires
                0 <= t2 * t <= SCALE * SCALE,
                SCALE == 1_000_000,
        ;
    }
    let t3: i64 = div_scale(t2 * t);
    proof {
        let h = HEADROOM as int;
        assert(-4 * h * SCALE <= a0 * t3 <= 4 * h * SCALE && -6 * h * SCALE <= a1 * t2 <= 6 * h
            * SCALE && -2 * h * SCALE <= a2 * t <= 2 * h * SCALE) by (nonlinear_arith)
            requires
                -4 * h <= a0 <= 4 * h,
                -6 * h <= a1 <= 6 * h,
                -2 * h <= a2 <= 2 * h,
                0 <= t3 <= SCALE,
                0 <= t2 <= SCALE,
                0 <= t <= SCALE,
                h == HEADROOM,
                SCALE == 1_000_000,
        ;
        assert(-12 * (HEADROOM as int) <= div_trunc(
            a0 * t3 + a1 * t2 + a2 * t,
            SCALE as int,
        ) <= 12 * (HEADROOM as int)) by (nonlinear_arith)
            requires
                -12 * (HEADROOM as int) * SCALE <= a0 * t3 + a1 * t2 + a2 * t <= 12 * (
                HEADROOM as int) * SCALE,
                SCALE == 1_000_000,
                HEADROOM == 64_000_000,
        ;
    }
    div_scale(a0 * t3 + a1 * t2 + a2 * t) + a3
}

} // verus!
