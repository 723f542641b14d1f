//! The capture stage: the real-time producer.
//!
//! For each raw input sample, in order: advance the modulation phase, apply
//! the sine/cosine amplitude modulation, run the noise gate, scale by the
//! output volume (saturating at the chain's headroom), append the processed
//! sample to the ring and — best-effort — to the analysis window, and every
//! 441st ring entry synthesize one extra interpolated sample.  After the
//! block, trim the ring down to its configured capacity.

use vstd::prelude::*;

use crate::fixed::{
    clamp_i64, clamp_spec, div_scale, div_scale_wide, div_trunc, sat_spec, saturate,
    saturate_wide, HEADROOM, SCALE,
};
use crate::gate::{
    blend_spec, env_next_spec, gate_multiplier_spec, sum_abs_spec, EnvelopeGate, ESTIMATE_KEEP,
    GATE_IN_MAX,
};
use crate::interp::{cubic_interpolate, cubic_spec};
use crate::osc::{advance_spec, PhaseOscillator};
use crate::params::ParameterStore;
use crate::ring::AudioRing;
use crate::trig::{cos_fx, cos_spec, sin_fx, sin_spec, TWO_PI_FX};
use crate::window::{win_push_spec, AnalysisWindow};

verus! {

/// Every this-many ring entries, one extra sample is interpolated in,
/// nudging 44.1 kHz material toward a 48 kHz pace.
pub const INTERP_PERIOD: usize = 441;

/// The interpolation point, halfway between the two newest samples.
pub const INTERP_MIDPOINT: i64 = 500_000;

/// The depth of the amplitude modulation (0.015).
pub const MOD_DEPTH: i64 = 15_000;

/// The top of the modulation frequency's documented range (20 Hz); the
/// capture stage clamps the setting here so each phase increment stays
/// inside one turn.
pub const MOD_FREQ_MAX: i64 = 20_000_000;

/// One per-block snapshot of the tunable parameters, read once per capture
/// block.  `attack_coeff` and `release_coeff` are the envelope smoothing
/// weights already derived from their time constants by the control path
/// (`exp(-1 / (rate * time))` in fixed point, zero for a non-positive time
/// constant, so a coefficient of zero follows the target immediately).
pub struct CaptureParams {
    pub volume: i64,
    pub threshold: i64,
    pub attack_coeff: i64,
    pub release_coeff: i64,
    pub smoothing: i64,
    pub mod_freq: i64,
    pub ring_capacity: usize,
}

/// Stamps one per-block snapshot from the parameter store.  The attack and
/// release envelope weights cannot be derived here — each is
/// `exp(-1 / (rate * time))`, which the control path computes at its
/// floating-point edge from the stored times — so the caller passes them in.
pub fn snapshot_params(store: &ParameterStore, attack_coeff: i64, release_coeff: i64) -> (p:
    CaptureParams)
    ensures
        p.volume == store.volume,
        p.threshold == store.noise_threshold,
        p.attack_coeff == attack_coeff,
        p.release_coeff == release_coeff,
        p.smoothing == store.smoothing,
        p.mod_freq == store.mod_frequency,
        p.ring_capacity == store.ring_capacity,
{
    CaptureParams {
        volume: store.volume,
        threshold: store.noise_threshold,
        attack_coeff,
        release_coeff,
        smoothing: store.smoothing,
        mod_freq: store.mod_frequency,
        ring_capacity: store.ring_capacity,
    }
}

/// The modulation frequency actually used: the setting clamped into its
/// documented range.
pub open spec fn freq_used_spec(p: CaptureParams) -> int {
    clamp_spec(p.mod_freq as int, 0, MOD_FREQ_MAX as int)
}

/// The envelope weights actually used: settings clamped into `[0, SCALE]`,
/// the range the blends are defined over.
pub open spec fn attack_used_spec(p: CaptureParams) -> int {
    clamp_spec(p.attack_coeff as int, 0, SCALE as int)
}

pub open spec fn release_used_spec(p: CaptureParams) -> int {
    clamp_spec(p.release_coeff as int, 0, SCALE as int)
}

pub open spec fn smoothing_used_spec(p: CaptureParams) -> int {
    clamp_spec(p.smoothing as int, 0, SCALE as int)
}

/// The amplitude modulation: `s * (1 + 0.015 * (0.7 sin + 0.3 cos))` at the
/// given phase, in fixed point.
pub open spec fn modulated_spec(s: int, phase: int) -> int {
    let tone = div_trunc(700_000 * sin_spec(phase) + 300_000 * cos_spec(phase), SCALE as int);
    let factor = SCALE + div_trunc(MOD_DEPTH * tone, SCALE as int);
    div_trunc(s * factor, SCALE as int)
}

/// One full chain step for one input sample: the new phase, the new
/// envelope, and the processed sample that lands in the buffers.
pub open spec fn step_spec(phase: int, env: int, s: int, p: CaptureParams, sr: int) -> (
    int,
    int,
    int,
) {
    let phase2 = advance_spec(phase, freq_used_spec(p), sr);
    let m = modulated_spec(s, phase2);
    let env2 = env_next_spec(
        env,
        m,
        p.threshold as int,
        attack_used_spec(p),
        release_used_spec(p),
        smoothing_used_spec(p),
    );
    let g = div_trunc(m * gate_multiplier_spec(env2, p.threshold as int), SCALE as int);
    let out = sat_spec(div_trunc(g * (p.volume as int), SCALE as int));
    (phase2, env2, out)
}

/// The ring after one processed sample: the sample itself, then — whenever
/// the length lands on the interpolation period — one extra sample
/// interpolated at the midpoint of the two newest entries, with the current
/// sample standing in for the missing lookahead point.
pub open spec fn ring_after_spec(ring: Seq<i64>, out: int) -> Seq<i64> {
    let r2 = ring.push(out as i64);
    if r2.len() as int % (INTERP_PERIOD as int) == 0 && r2.len() > 2 {
        let p0 = r2[r2.len() - 2] as int;
        let p1 = r2[r2.len() - 1] as int;
        r2.push(sat_spec(cubic_spec(p0, p1, out, out, INTERP_MIDPOINT as int)) as i64)
    } else {
        r2
    }
}

/// The whole block, folded left to right: the final phase, the final
/// envelope, the ring contents before trimming, and the analysis window
/// (`use_win` false models the block whose best-effort window write was
/// skipped).
pub open spec fn block_spec(
    inputs: Seq<i64>,
    phase: int,
    env: int,
    ring: Seq<i64>,
    win: Seq<i64>,
    wcap: int,
    use_win: bool,
    p: CaptureParams,
    sr: int,
) -> (int, int, Seq<i64>, Seq<i64>)
    decreases inputs.len(),
{
    if inputs.len() == 0 {
        (phase, env, ring, win)
    } else {
        let prev = block_spec(inputs.drop_last(), phase, env, ring, win, wcap, use_win, p, sr);
        let st = step_spec(prev.0, prev.1, inputs.last() as int, p, sr);
        let ring2 = ring_after_spec(prev.2, st.2);
        let win2 = if use_win {
            win_push_spec(prev.3, st.2 as i64, wcap)
        } else {
            prev.3
        };
        (st.0, st.1, ring2, win2)
    }
}

/// The real-time producer: the modulation oscillator and the noise gate it
/// owns exclusively, advanced block by block.
pub struct CaptureStage {
    pub osc: PhaseOscillator,
    pub gate: EnvelopeGate,
}

impl CaptureStage {
    pub open spec fn wf(self) -> bool {
        &&& self.osc.wf()
        &&& self.gate.wf()
    }

    pub fn new() -> (c: Self)
        ensures
            c.wf(),
            c.osc.phase == 0,
            c.gate.envelope == 0,
    {
        CaptureStage { osc: PhaseOscillator::new(), gate: EnvelopeGate::new() }
    }

    /// Runs one raw input block through the whole chain.  Input samples must
    /// be normalized to the unit range (the audio backend's convention).
    /// When `window_available` is false — the analysis window's lock was
    /// contended — the block's window writes are skipped entirely rather
    /// than waited for; the ring is never skipped.  After the per-sample
    /// loop the ring is trimmed from the front to the configured capacity.
    pub fn process_block(
        &mut self,
        input: &Vec<i64>,
        p: &CaptureParams,
        sample_rate: u32,
        ring: &mut AudioRing,
        window: &mut AnalysisWindow,
        window_available: bool,
    )
        requires
            old(self).wf(),
            old(ring).wf(),
            old(window).wf(),
            sample_rate >= 1000,
            forall|j: int| 0 <= j < input@.len() ==> -SCALE <= #[trigger] input@[j] <= SCALE,
        ensures
            final(self).wf(),
            final(ring).wf(),
            final(window).wf(),
            final(window).cap() == old(window).cap(),
            final(self).osc.phase == block_spec(
                input@,
                old(self).osc.phase as int,
                old(self).gate.envelope as int,
                old(ring)@,
                old(window)@,
                old(window).cap(),
                window_available,
                *p,
                sample_rate as int,
            ).0,
            final(self).gate.envelope == block_spec(
                input@,
                old(self).osc.phase as int,
                old(self).gate.envelope as int,
                old(ring)@,
                old(window)@,
                old(window).cap(),
                window_available,
                *p,
                sample_rate as int,
            ).1,
            ({
                let full = block_spec(
                    input@,
                    old(self).osc.phase as int,
                    old(self).gate.envelope as int,
                    old(ring)@,
                    old(window)@,
                    old(window).cap(),
                    window_available,
                    *p,
                    sample_rate as int,
                ).2;
                if full.len() <= p.ring_capacity {
                    final(ring)@ == full
                } else {
                    final(ring)@ == full.skip(full.len() - p.ring_capacity)
                }
            }),
            window_available ==> final(window)@ == block_spec(
                input@,
                old(self).osc.phase as int,
                old(self).gate.envelope as int,
                old(ring)@,
                old(window)@,
                old(window).cap(),
                window_available,
                *p,
                sample_rate as int,
            ).3,
            !window_available ==> final(window)@ == old(window)@,
            input@.len() == 0 ==> final(self).gate.signal_estimate == old(
                self,
            ).gate.signal_estimate,
            input@.len() > 0 ==> final(self).gate.signal_estimate == blend_spec(
                old(self).gate.signal_estimate as int,
                sum_abs_spec(input@) / input@.len() as int,
                ESTIMATE_KEEP as int,
            ),
    {
        self.gate.observe_block(input);
        let freq_used: i64 = clamp_i64(p.mod_freq, 0, MOD_FREQ_MAX);
        let attack_used: i64 = clamp_i64(p.attack_coeff, 0, SCALE);
        let release_used: i64 = clamp_i64(p.release_coeff, 0, SCALE);
        let smoothing_used: i64 = clamp_i64(p.smoothing, 0, SCALE);
        let ghost g_phase0: int = self.osc.phase as int;
        let ghost g_env0: int = self.gate.envelope as int;
        let ghost g_ring0: Seq<i64> = ring@;
        let ghost g_win0: Seq<i64> = window@;
        let ghost g_wcap: int = window.cap();
        let ghost g_est: i64 = self.gate.signal_estimate;
        let n: usize = input.len();
        let mut i: usize = 0;
        while i < n
            invariant
                0 <= i <= n,
                n == input@.len(),
                forall|j: int| 0 <= j < input@.len() ==> -SCALE <= #[trigger] input@[j] <= SCALE,
                self.wf(),
                ring.wf(),
                window.wf(),
                window.cap() == g_wcap,
                self.gate.signal_estimate == g_est,
                sample_rate >= 1000,
                freq_used == freq_used_spec(*p),
                attack_used == attack_used_spec(*p),
                release_used == release_used_spec(*p),
                smoothing_used == smoothing_used_spec(*p),
                0 <= freq_used <= MOD_FREQ_MAX,
                0 <= attack_used <= SCALE,
                0 <= release_used <= SCALE,
                0 <= smoothing_used <= SCALE,
                self.osc.phase == block_spec(
                    input@.take(i as int),
                    g_phase0,
                    g_env0,
                    g_ring0,
                    g_win0,
                    g_wcap,
                    window_available,
                    *p,
                    sample_rate as int,
                ).0,
                self.gate.envelope == block_spec(
                    input@.take(i as int),
                    g_phase0,
                    g_env0,
                    g_ring0,
                    g_win0,
                    g_wcap,
                    window_available,
                    *p,
                    sample_rate as int,
                ).1,
                ring@ == block_spec(
                    input@.take(i as int),
                    g_phase0,
                    g_env0,
                    g_ring0,
                    g_win0,
                    g_wcap,
                    window_available,
                    *p,
                    sample_rate as int,
                ).2,
                window_available ==> window@ == block_spec(
                    input@.take(i as int),
                    g_phase0,
                    g_env0,
                    g_ring0,
                    g_win0,
                    g_wcap,
                    window_available,
                    *p,
                    sample_rate as int,
                ).3,
                !window_available ==> window@ == g_win0,
            decreases n - i,
        {
            let ghost prev = block_spec(
                input@.take(i as int),
                g_phase0,
                g_env0,
                g_ring0,
                g_win0,
                g_wcap,
                window_available,
                *p,
                sample_rate as int,
            );
            let s: i64 = input[i];
            let phase: i64 = self.osc.advance(freq_used, sample_rate);
            let m: i64 = modulate(s, phase);
            let g: i64 = self.gate.process(
                m,
                p.threshold,
                attack_used,
                release_used,
                smoothing_used,
            );
            proof {
                let vol = p.volume as int;
                assert(-(0x1_0000_0000_0000_0000int * 0x4000_0000_0000_0000) <= g * vol <= (
                0x1_0000_0000_0000_0000int * 0x4000_0000_0000_0000)) by (nonlinear_arith)
                    requires
                        -GATE_IN_MAX <= g <= GATE_IN_MAX,
                        i64::MIN <= vol <= i64::MAX,
                        GATE_IN_MAX == 2_000_000,
                ;
            }
            let wide: i128 = (g as i128) * (p.volume as i128);
            let scaled: i128 = div_scale_wide(wide);
            let out: i64 = saturate_wide(scaled);
            let ghost st = step_spec(prev.0, prev.1, s as int, *p, sample_rate as int);
            proof {
                assert(st.2 == out as int);
            }
            ring.append(out);
            if window_available {
                window.push(out);
            }
            let rl: usize = ring.len();
            if rl % INTERP_PERIOD == 0 && rl > 2 {
                let p0: i64 = ring.get(rl - 2);
                let p1: i64 = ring.get(rl - 1);
                let ip: i64 = cubic_interpolate(p0, p1, out, out, INTERP_MIDPOINT);
                ring.append(saturate(ip));
            }
            proof {
                assert(input@.take(i as int + 1).drop_last() =~= input@.take(i as int));
                assert(input@.take(i as int + 1).last() == input@[i as int]);
                assert(ring@ =~= ring_after_spec(prev.2, st.2));
            }
            i = i + 1;
        }
        proof {
            assert(input@.take(n as int) =~= input@);
        }
        ring.trim_to(p.ring_capacity);
    }
}

/// Applies the amplitude modulation to one sample.
fn modulate(s: i64, phase: i64) -> (m: i64)
    requires
        -SCALE <= s <= SCALE,
        0 <= phase < TWO_PI_FX,
    ensures
        m == modulated_spec(s as int, phase as int),
        -GATE_IN_MAX <= m <= GATE_IN_MAX,
{
    let sv: i64 = sin_fx(phase);
    let cv: i64 = cos_fx(phase);
    proof {
        assert(-SCALE * SCALE <= 700_000 * sv + 300_000 * cv <= SCALE * SCALE)
            by (nonlinear_arith)
            requires
                -SCALE <= sv <= SCALE,
                -SCALE <= cv <= SCALE,
                SCALE == 1_000_000,
        ;
        assert(-SCALE <= div_trunc(700_000 * sv + 300_000 * cv, SCALE as int) <= SCALE)
            by (nonlinear_arith)
            requires
                -SCALE * SCALE <= 700_000 * sv + 300_000 * cv <= SCALE * SCALE,
                SCALE == 1_000_000,
        ;
    }
    let tone: i64 = div_scale(700_000 * sv + 300_000 * cv);
    proof {
        assert(-MOD_DEPTH <= div_trunc(MOD_DEPTH * tone, SCALE as int) <= MOD_DEPTH)
            by (nonlinear_arith)
            requires
                -SCALE <= tone <= SCALE,
                SCALE == 1_000_000,
                MOD_DEPTH == 15_000,
        ;
    }
    let factor: i64 = SCALE + div_scale(MOD_DEPTH * tone);
    proof {
        assert(-2 * SCALE * SCALE <= s * factor <= 2 * SCALE * SCALE) by (nonlinear_arith)
            requires
                -SCALE <= s <= SCALE,
                0 < factor <= SCALE + MOD_DEPTH,
                SCALE == 1_000_000,
                MOD_DEPTH == 15_000,
        ;
        assert(-GATE_IN_MAX <= div_trunc(s * factor, SCALE as int) <= GATE_IN_MAX)
            by (nonlinear_arith)
            requires
                -2 * SCALE * SCALE <= s * factor <= 2 * SCALE * SCALE,
                SCALE == 1_000_000,
                GATE_IN_MAX == 2_000_000,
        ;
    }
    div_scale(s * factor)
}

} // verus!
