//! The noise gate and its envelope follower.
//!
//! Per sample this stage measures the level, follows it with an
//! attack/release-timed filter plus a second smoothing blend, and derives a
//! multiplier: unity at or above the threshold, and below it a soft
//! `ratio^1.5 * (0.15 + 0.85 * ratio)` transition that falls continuously to
//! zero.  A slowly adapting estimate of the raw signal level is kept
//! alongside (one exponential-moving-average step per processed block).

use vstd::prelude::*;

use crate::fixed::{abs_spec, div_scale, div_trunc, isqrt_spec, isqrt_u64, SCALE};

verus! {

/// Largest sample magnitude this stage accepts (two whole units).  The capture
/// stage feeds it modulated samples, which stay within about 1.015 units.
pub const GATE_IN_MAX: i64 = 2_000_000;

/// Initial signal-level estimate (0.01, matching the default
/// noise threshold).
pub const INITIAL_SIGNAL_ESTIMATE: i64 = 10_000;

/// The weight the old value keeps in the per-block signal-level average.
pub const ESTIMATE_KEEP: i64 = 950_000;

/// The first-order blend `(a * w + b * (SCALE - w)) / SCALE`.
pub open spec fn blend_spec(a: int, b: int, w: int) -> int {
    div_trunc(a * w + b * (SCALE - w), SCALE as int)
}

/// A blend of two values never leaves their common range.
pub proof fn lemma_blend_bounded(a: int, b: int, w: int, c: int)
    requires
        0 <= a <= c,
        0 <= b <= c,
        0 <= w <= SCALE,
    ensures
        0 <= blend_spec(a, b, w) <= c,
{
    assert(0 <= div_trunc(a * w + b * (SCALE - w), SCALE as int) <= c) by (nonlinear_arith)
        requires
            0 <= a <= c,
            0 <= b <= c,
            0 <= w <= SCALE,
            SCALE == 1_000_000,
    ;
}

/// The summed magnitudes of a block of samples.
pub open spec fn sum_abs_spec(s: Seq<i64>) -> int
    decreases s.len(),
{
    if s.len() == 0 {
        0
    } else {
        sum_abs_spec(s.drop_last()) + abs_spec(s.last() as int)
    }
}

/// The transition curve below the threshold, as a function of the
/// envelope-to-threshold ratio (both ends of the curve are fixed: see
/// `lemma_gate_curve_continuous`).
pub open spec fn gate_curve_spec(ratio: int) -> int
    recommends
        0 <= ratio <= SCALE,
{
    let curve = isqrt_spec(((ratio * ratio * ratio) / (SCALE as int)) as nat) as int;
    div_trunc(curve * (150_000 + div_trunc(850_000 * ratio, SCALE as int)), SCALE as int)
}

/// The gating multiplier: unity at or above the threshold, the transition
/// curve below it.  A threshold that is not positive disables gating
/// (the envelope, never negative, then always reaches the unity branch).
pub open spec fn gate_multiplier_spec(envelope: int, threshold: int) -> int
    recommends
        envelope >= 0,
{
    if envelope >= threshold {
        SCALE as int
    } else {
        gate_curve_spec(envelope * SCALE / threshold)
    }
}

/// The level a sample drives the envelope toward: its magnitude when above
/// the threshold, silence otherwise.
pub open spec fn env_target_spec(sample: int, threshold: int) -> int {
    if abs_spec(sample) > threshold {
        abs_spec(sample)
    } else {
        0
    }
}

/// One envelope step: pick the attack or release coefficient by whether the
/// level is rising, blend toward the target, then blend once more with the
/// smoothing weight.
pub open spec fn env_next_spec(
    envelope: int,
    sample: int,
    threshold: int,
    attack_coeff: int,
    release_coeff: int,
    smoothing: int,
) -> int {
    let target = env_target_spec(sample, threshold);
    let alpha = if target > envelope {
        attack_coeff
    } else {
        release_coeff
    };
    blend_spec(blend_spec(envelope, target, alpha), target, smoothing)
}

pub struct EnvelopeGate {
    pub envelope: i64,
    pub signal_estimate: i64,
}

fn blend(a: i64, b: i64, w: i64) -> (r: i64)
    requires
        0 <= a <= GATE_IN_MAX,
        0 <= b <= GATE_IN_MAX,
        0 <= w <= SCALE,
    ensures
        r == blend_spec(a as int, b as int, w as int),
        0 <= r <= GATE_IN_MAX,
{
    proof {
        assert(0 <= a * w + b * (SCALE - w) <= GATE_IN_MAX * SCALE) by (nonlinear_arith)
            requires
                0 <= a <= GATE_IN_MAX,
                0 <= b <= GATE_IN_MAX,
                0 <= w <= SCALE,
        ;
        assert(div_trunc(a * w + b * (SCALE - w), SCALE as int) <= GATE_IN_MAX) by (nonlinear_arith)
            requires
                0 <= a * w + b * (SCALE - w) <= GATE_IN_MAX * SCALE,
                SCALE == 1_000_000,
                GATE_IN_MAX == 2_000_000,
        ;
    }
    div_scale(a * w + b * (SCALE - w))
}

/// The gating multiplier in fixed point; see `gate_multiplier_spec`.
pub fn gate_multiplier(envelope: i64, threshold: i64) -> (m: i64)
    requires
        0 <= envelope <= GATE_IN_MAX,
    ensures
        m == gate_multiplier_spec(envelope as int, threshold as int),
        0 <= m <= SCALE,
{
    if envelope >= threshold {
        SCALE
    } else {
        proof {
            assert(0 <= envelope * SCALE <= GATE_IN_MAX * SCALE) by (nonlinear_arith)
                requires
                    0 <= envelope <= GATE_IN_MAX,
                    SCALE == 1_000_000,
            ;
        }
        let scaled_env: i64 = envelope * SCALE;
        let ratio: i64 = ((scaled_env as u64) / (threshold as u64)) as i64;
        proof {
            assert(0 <= (envelope * SCALE) / (threshold as int) < SCALE) by (nonlinear_arith)
                requires
                    0 <= envelope < threshold,
                    SCALE == 1_000_000,
            ;
            assert(0 <= ratio * ratio < SCALE * SCALE && 0 <= ratio * ratio * ratio < SCALE * SCALE
                * SCALE) by (nonlinear_arith)
                requires
                    0 <= ratio < SCALE,
            ;
        }
        let cubed: i64 = ratio * ratio * ratio;
        proof {
            assert(0 <= div_trunc(cubed as int, SCALE as int) < SCALE * SCALE) by (nonlinear_arith)
                requires
                    0 <= cubed < SCALE * SCALE * SCALE,
                    SCALE == 1_000_000,
            ;
        }
        let cubed_scaled: i64 = div_scale(cubed);
        let root: u64 = isqrt_u64(cubed_scaled as u64);
        proof {
            assert(0 <= root < SCALE) by (nonlinear_arith)
                requires
                    root * root <= cubed_scaled < SCALE * SCALE,
                    root >= 0,
                    SCALE == 1_000_000,
            ;
        }
        let curve: i64 = root as i64;
        let transition: i64 = 150_000 + div_scale(850_000 * ratio);
        proof {
            assert(0 <= div_trunc(850_000 * ratio, SCALE as int) <= 850_000) by (nonlinear_arith)
                requires
                    0 <= ratio < SCALE,
                    SCALE == 1_000_000,
            ;
            assert(0 <= curve * transition <= SCALE * SCALE) by (nonlinear_arith)
                requires
                    0 <= curve < SCALE,
                    0 <= transition <= SCALE,
            ;
            assert(0 <= div_trunc(curve * transition, SCALE as int) <= SCALE) by (nonlinear_arith)
                requires
                    0 <= curve * transition <= SCALE * SCALE,
                    SCALE == 1_000_000,
            ;
        }
        div_scale(curve * transition)
    }
}

impl EnvelopeGate {
    /// The follower's invariant: the envelope tracks sample levels and stays
    /// within their range; the signal estimate averages raw levels in the
    /// unit range.
    pub open spec fn wf(self) -> bool {
        &&& 0 <= self.envelope <= GATE_IN_MAX
        &&& 0 <= self.signal_estimate <= SCALE
    }

    pub fn new() -> (g: Self)
        ensures
            g.wf(),
            g.envelope == 0,
            g.signal_estimate == INITIAL_SIGNAL_ESTIMATE,
    {
        EnvelopeGate { envelope: 0, signal_estimate: INITIAL_SIGNAL_ESTIMATE }
    }

    /// Runs one sample through the noise gate: updates the envelope and
    /// returns the sample scaled by the gating multiplier.  The attack and release
    /// coefficients are the caller's per-block smoothing weights in
    /// `[0, SCALE]` (each derived from its time constant; a coefficient of
    /// zero makes the envelope follow the target immediately).
    pub fn process(
        &mut self,
        sample: i64,
        threshold: i64,
        attack_coeff: i64,
        release_coeff: i64,
        smoothing: i64,
    ) -> (out: i64)
        requires
            old(self).wf(),
            -GATE_IN_MAX <= sample <= GATE_IN_MAX,
            0 <= attack_coeff <= SCALE,
            0 <= release_coeff <= SCALE,
            0 <= smoothing <= SCALE,
        ensures
            final(self).wf(),
            final(self).envelope == env_next_spec(
                old(self).envelope as int,
                sample as int,
                threshold as int,
                attack_coeff as int,
                release_coeff as int,
                smoothing as int,
            ),
            final(self).signal_estimate == old(self).signal_estimate,
            out == div_trunc(
                sample * gate_multiplier_spec(final(self).envelope as int, threshold as int),
                SCALE as int,
            ),
            -GATE_IN_MAX <= out <= GATE_IN_MAX,
    {
        let level: i64 = if sample >= 0 {
            sample
        } else {
            -sample
        };
        let target: i64 = if level > threshold {
            level
        } else {
            0
        };
        let alpha: i64 = if target > self.envelope {
            attack_coeff
        } else {
            release_coeff
        };
        let once: i64 = blend(self.envelope, target, alpha);
        self.envelope = blend(once, target, smoothing);
        let m: i64 = gate_multiplier(self.envelope, threshold);
        proof {
            assert(-GATE_IN_MAX * SCALE <= sample * m <= GATE_IN_MAX * SCALE) by (nonlinear_arith)
                requires
                    -GATE_IN_MAX <= sample <= GATE_IN_MAX,
                    0 <= m <= SCALE,
            ;
            assert(-GATE_IN_MAX <= div_trunc(sample * m, SCALE as int) <= GATE_IN_MAX)
                by (nonlinear_arith)
                requires
                    -GATE_IN_MAX * SCALE <= sample * m <= GATE_IN_MAX * SCALE,
                    SCALE == 1_000_000,
                    GATE_IN_MAX == 2_000_000,
            ;
        }
        div_scale(sample * m)
    }

    /// Folds one block of raw input into the slowly adapting signal-level
    /// estimate: an exponential moving average of the block's mean magnitude,
    /// applied once per block.  An empty block leaves the estimate untouched.
    pub fn observe_block(&mut self, block: &Vec<i64>)
        requires
            old(self).wf(),
            forall|j: int| 0 <= j < block@.len() ==> -SCALE <= #[trigger] block@[j] <= SCALE,
        ensures
            final(self).wf(),
            final(self).envelope == old(self).envelope,
            block@.len() == 0 ==> final(self).signal_estimate == old(self).signal_estimate,
            block@.len() > 0 ==> final(self).signal_estimate == blend_spec(
                old(self).signal_estimate as int,
                sum_abs_spec(block@) / block@.len() as int,
                ESTIMATE_KEEP as int,
            ),
    {
        let n: usize = block.len();
        if n == 0 {
            return ;
        }
        let mut sum: u128 = 0;
        let mut i: usize = 0;
        while i < n
            invariant
                0 <= i <= n,
                n == block@.len(),
                forall|j: int| 0 <= j < block@.len() ==> -SCALE <= #[trigger] block@[j] <= SCALE,
                sum == sum_abs_spec(block@.take(i as int)),
                sum <= (i as int) * (SCALE as int),
            decreases n - i,
        {
            let v: i64 = block[i];
            let a: i64 = if v >= 0 {
                v
            } else {
                -v
            };
            proof {
                assert(block@.take(i as int + 1).drop_last() =~= block@.take(i as int));
                assert(block@.take(i as int + 1).last() == block@[i as int]);
                assert((i as int + 1) * (SCALE as int) == (i as int) * (SCALE as int) + SCALE);
            }
            sum = sum + (a as u128);
            i = i + 1;
        }
        proof {
            assert(block@.take(n as int) =~= block@);
            assert(0 <= sum_abs_spec(block@) / (n as int) <= SCALE) by (nonlinear_arith)
                requires
                    0 <= sum_abs_spec(block@) <= (n as int) * (SCALE as int),
                    n >= 1,
                    SCALE == 1_000_000,
            ;
        }
        let mean: i64 = (sum / (n as u128)) as i64;
        proof {
            lemma_blend_bounded(
                self.signal_estimate as int,
                mean as int,
                ESTIMATE_KEEP as int,
                SCALE as int,
            );
        }
        self.signal_estimate = blend(self.signal_estimate, mean, ESTIMATE_KEEP);
    }
}

/// The transition curve never decreases and never leaves `[0, SCALE]`: the
/// multiplier climbs from silence at a ratio of zero to unity at a ratio of
/// one with no dip on the way.
pub proof fn lemma_gate_curve_monotone(r1: int, r2: int)
    requires
        0 <= r1 <= r2 <= SCALE,
    ensures
        gate_curve_spec(r1) <= gate_curve_spec(r2),
        0 <= gate_curve_spec(r1),
        gate_curve_spec(r2) <= SCALE,
{
    let c1 = (r1 * r1 * r1) / (SCALE as int);
    let c2 = (r2 * r2 * r2) / (SCALE as int);
    assert(0 <= r1 * r1 * r1 <= r2 * r2 * r2 <= SCALE * SCALE * SCALE) by (nonlinear_arith)
        requires
            0 <= r1 <= r2 <= SCALE,
    ;
    assert(0 <= c1 <= c2 <= SCALE * SCALE) by (nonlinear_arith)
        requires
            0 <= r1 * r1 * r1 <= r2 * r2 * r2 <= SCALE * SCALE * SCALE,
            c1 == (r1 * r1 * r1) / (SCALE as int),
            c2 == (r2 * r2 * r2) / (SCALE as int),
            SCALE == 1_000_000,
    ;
    crate::fixed::lemma_isqrt_monotone(c1 as nat, c2 as nat);
    crate::fixed::lemma_isqrt_bounds(c2 as nat);
    let s1 = isqrt_spec(c1 as nat) as int;
    let s2 = isqrt_spec(c2 as nat) as int;
    assert(s2 <= SCALE) by (nonlinear_arith)
        requires
            s2 * s2 <= SCALE * SCALE,
            s2 >= 0,
            SCALE == 1_000_000,
    ;
    let t1 = 150_000 + div_trunc(850_000 * r1, SCALE as int);
    let t2 = 150_000 + div_trunc(850_000 * r2, SCALE as int);
    assert(150_000 <= t1 <= t2 <= SCALE) by (nonlinear_arith)
        requires
            0 <= r1 <= r2 <= SCALE,
            t1 == 150_000 + div_trunc(850_000 * r1, SCALE as int),
            t2 == 150_000 + div_trunc(850_000 * r2, SCALE as int),
            SCALE == 1_000_000,
    ;
    assert(0 <= s1 * t1 <= s2 * t2 <= SCALE * SCALE) by (nonlinear_arith)
        requires
            0 <= s1 <= s2 <= SCALE,
            0 <= t1 <= t2 <= SCALE,
    ;
    assert(0 <= div_trunc(s1 * t1, SCALE as int) <= div_trunc(s2 * t2, SCALE as int) && div_trunc(
        s2 * t2,
        SCALE as int,
    ) <= SCALE) by (nonlinear_arith)
        requires
            0 <= s1 * t1 <= s2 * t2 <= SCALE * SCALE,
            SCALE == 1_000_000,
    ;
}

/// The whole multiplier never decreases as the envelope rises: silence stays
/// gated, loud signal passes, and the soft region in between climbs with no
/// audible step at the threshold.
pub proof fn lemma_gate_multiplier_monotone(e1: int, e2: int, threshold: int)
    requires
        0 <= e1 <= e2,
    ensures
        gate_multiplier_spec(e1, threshold) <= gate_multiplier_spec(e2, threshold),
        0 <= gate_multiplier_spec(e1, threshold),
        gate_multiplier_spec(e2, threshold) <= SCALE,
{
    if e1 >= threshold {
        assert(e2 >= threshold);
    } else {
        let r1 = e1 * SCALE / threshold;
        assert(0 <= r1 < SCALE) by (nonlinear_arith)
            requires
                0 <= e1 < threshold,
                r1 == e1 * SCALE / threshold,
                SCALE == 1_000_000,
        ;
        if e2 >= threshold {
            lemma_gate_curve_monotone(r1, SCALE as int);
            lemma_gate_curve_continuous(threshold);
        } else {
            let r2 = e2 * SCALE / threshold;
            assert(r1 <= r2 < SCALE) by (nonlinear_arith)
                requires
                    0 <= e1 <= e2 < threshold,
                    r1 == e1 * SCALE / threshold,
                    r2 == e2 * SCALE / threshold,
                    SCALE == 1_000_000,
            ;
            lemma_gate_curve_monotone(r1, r2);
            lemma_gate_curve_monotone(r2, SCALE as int);
        }
    }
}

/// Both ends of the transition curve are pinned: at a ratio of one it meets
/// the unity branch exactly, and at a ratio of zero it is silent.  Together
/// with the unity branch at and above the threshold, the multiplier has no
/// jump at the threshold boundary.
pub proof fn lemma_gate_curve_continuous(threshold: int)
    requires
        threshold > 0,
    ensures
        gate_curve_spec(SCALE as int) == SCALE,
        gate_curve_spec(0) == 0,
        gate_multiplier_spec(threshold, threshold) == SCALE,
{
    assert((1_000_000int * 1_000_000 * 1_000_000) / 1_000_000 == 1_000_000_000_000int)
        by (nonlinear_arith);
    assert(1_000_000nat * 1_000_000nat <= 1_000_000_000_000nat) by (nonlinear_arith);
    assert(1_000_000_000_000nat < (1_000_000nat + 1) * (1_000_000nat + 1)) by (nonlinear_arith);
    crate::fixed::lemma_isqrt_unique(1_000_000_000_000nat, 1_000_000nat);
    assert((850_000int * 1_000_000) / 1_000_000 == 850_000) by (nonlinear_arith);
    assert((1_000_000int * 1_000_000) / 1_000_000 == 1_000_000) by (nonlinear_arith);
    assert((0int * 0 * 0) / 1_000_000 == 0) by (nonlinear_arith);
    assert(isqrt_spec(0nat) == 0);
    assert((850_000int * 0) / 1_000_000 == 0) by (nonlinear_arith);
    assert((0int * (150_000 + 0)) / 1_000_000 == 0) by (nonlinear_arith);
}

} // verus!
