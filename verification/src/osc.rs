//! The amplitude-modulation phase accumulator.

use vstd::prelude::*;

use crate::fixed::SCALE;
use crate::trig::TWO_PI_FX;

verus! {

/// A running phase angle, kept in `[0, TWO_PI_FX)`.  Each processed sample
/// advances it by `2 pi * frequency / sample_rate` and wraps it back into one
/// turn; the capture stage owns one exclusively.
pub struct PhaseOscillator {
    pub phase: i64,
}

/// The per-sample increment `2 pi * f / rate`, in millionths of a radian.
pub open spec fn increment_spec(freq_fx: int, sample_rate: int) -> int
    recommends
        sample_rate >= 1,
{
    (TWO_PI_FX * freq_fx) / (SCALE * sample_rate)
}

/// One step: add the increment; on reaching a full turn, subtract one.
pub open spec fn advance_spec(phase: int, freq_fx: int, sample_rate: int) -> int {
    let p = phase + increment_spec(freq_fx, sample_rate);
    if p >= TWO_PI_FX {
        p - TWO_PI_FX
    } else {
        p
    }
}

/// A frequency below the sample rate keeps each increment inside one turn.
pub proof fn lemma_increment_in_range(freq_fx: int, sample_rate: int)
    requires
        0 <= freq_fx < SCALE * sample_rate,
        sample_rate >= 1,
    ensures
        0 <= increment_spec(freq_fx, sample_rate) < TWO_PI_FX,
{
    let den = SCALE * sample_rate;
    assert(0 <= (TWO_PI_FX * freq_fx) / den < TWO_PI_FX) by (nonlinear_arith)
        requires
            0 <= freq_fx < den,
            den >= SCALE == 1_000_000,
            TWO_PI_FX == 6_283_185,
    ;
}

/// The phase after a whole sequence of advances, each step a (frequency,
/// sample rate) pair.
pub open spec fn phase_after_spec(start: int, steps: Seq<(int, int)>) -> int
    decreases steps.len(),
{
    if steps.len() == 0 {
        start
    } else {
        advance_spec(phase_after_spec(start, steps.drop_last()), steps.last().0, steps.last().1)
    }
}

/// After any sequence of advances whose frequencies lie below their sample
/// rates, the phase is still inside `[0, 2 pi)`.
pub proof fn lemma_phase_in_range(start: int, steps: Seq<(int, int)>)
    requires
        0 <= start < TWO_PI_FX,
        forall|i: int| 0 <= i < steps.len() ==> 0 <= (#[trigger] steps[i]).0 < SCALE * steps[i].1,
        forall|i: int| 0 <= i < steps.len() ==> (#[trigger] steps[i]).1 >= 1,
    ensures
        0 <= phase_after_spec(start, steps) < TWO_PI_FX,
    decreases steps.len(),
{
    if steps.len() > 0 {
        assert(forall|i: int|
            0 <= i < steps.drop_last().len() ==> #[trigger] steps.drop_last()[i] == steps[i]);
        lemma_phase_in_range(start, steps.drop_last());
        lemma_increment_in_range(steps.last().0, steps.last().1);
    }
}

impl PhaseOscillator {
    /// The accumulator's invariant: the phase stays inside one turn.
    pub open spec fn wf(self) -> bool {
        0 <= self.phase < TWO_PI_FX
    }

    pub fn new() -> (o: Self)
        ensures
            o.wf(),
            o.phase == 0,
    {
        PhaseOscillator { phase: 0 }
    }

    /// Advances the phase one sample at the given modulation frequency and
    /// returns the new phase.  The frequency must lie below the sample rate,
    /// which keeps the increment below a full turn.
    pub fn advance(&mut self, freq_fx: i64, sample_rate: u32) -> (phase: i64)
        requires
            old(self).wf(),
            sample_rate >= 1,
            0 <= freq_fx < SCALE * (sample_rate as int),
        ensures
            final(self).phase == advance_spec(
                old(self).phase as int,
                freq_fx as int,
                sample_rate as int,
            ),
            final(self).wf(),
            phase == final(self).phase,
    {
        proof {
            lemma_increment_in_range(freq_fx as int, sample_rate as int);
        }
        let num: u128 = (TWO_PI_FX as u128) * (freq_fx as u128);
        let den: u128 = (SCALE as u128) * (sample_rate as u128);
        let inc: i64 = (num / den) as i64;
        assert(inc == increment_spec(freq_fx as int, sample_rate as int));
        let p: i64 = self.phase + inc;
        if p >= TWO_PI_FX {
            self.phase = p - TWO_PI_FX;
        } else {
            self.phase = p;
        }
        self.phase
    }
}

} // verus!
