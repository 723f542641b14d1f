//! The live-tunable effect parameters.
//!
//! The control path owns one store, edits single fields, and hands the
//! capture stage a by-value snapshot once per block, so the audio path never
//! holds a lock across a block.  Setters store what they are given — an
//! out-of-range setting is accepted here and clamped only at the use sites
//! that require it (the capture stage clamps the modulation frequency and
//! the smoothing weights; the volume is applied with saturation).  Times are
//! seconds and weights are plain ratios, all in millionths; the documented
//! ranges are volume 0–1, threshold 0–0.1, attack 0–0.1 s, release 0–0.5 s,
//! smoothing 0–1 and modulation frequency 0–20 Hz.
//!
//! Each constant below doubles as the fallback the console falls back to —
//! and reports — when an adjustment cannot be parsed.

use vstd::prelude::*;

verus! {

/// Default output volume, 0.9.
pub const DEFAULT_VOLUME: i64 = 900_000;

/// Default noise-gate threshold, 0.01.
pub const DEFAULT_NOISE_THRESHOLD: i64 = 10_000;

/// Default attack time, 10 ms.
pub const DEFAULT_ATTACK_TIME: i64 = 10_000;

/// Default release time, 100 ms.
pub const DEFAULT_RELEASE_TIME: i64 = 100_000;

/// Default envelope smoothing weight, 0.7.
pub const DEFAULT_SMOOTHING: i64 = 700_000;

/// Default modulation frequency, 5 Hz.
pub const DEFAULT_MOD_FREQUENCY: i64 = 5_000_000;

/// Default ring-buffer capacity in samples.
pub const DEFAULT_RING_CAPACITY: usize = 2400;

pub struct ParameterStore {
    pub volume: i64,
    pub noise_threshold: i64,
    pub attack_time: i64,
    pub release_time: i64,
    pub smoothing: i64,
    pub mod_frequency: i64,
    pub ring_capacity: usize,
}

impl ParameterStore {
    /// Every field at its documented default.
    pub fn new() -> (s: Self)
        ensures
            s.volume == DEFAULT_VOLUME,
            s.noise_threshold == DEFAULT_NOISE_THRESHOLD,
            s.attack_time == DEFAULT_ATTACK_TIME,
            s.release_time == DEFAULT_RELEASE_TIME,
            s.smoothing == DEFAULT_SMOOTHING,
            s.mod_frequency == DEFAULT_MOD_FREQUENCY,
            s.ring_capacity == DEFAULT_RING_CAPACITY,
    {
        ParameterStore {
            volume: DEFAULT_VOLUME,
            noise_threshold: DEFAULT_NOISE_THRESHOLD,
            attack_time: DEFAULT_ATTACK_TIME,
            release_time: DEFAULT_RELEASE_TIME,
            smoothing: DEFAULT_SMOOTHING,
            mod_frequency: DEFAULT_MOD_FREQUENCY,
            ring_capacity: DEFAULT_RING_CAPACITY,
        }
    }

    pub fn set_volume(&mut self, v: i64)
        ensures
            *final(self) == (ParameterStore { volume: v, ..*old(self) }),
    {
        self.volume = v;
    }

    pub fn set_noise_threshold(&mut self, v: i64)
        ensures
            *final(self) == (ParameterStore { noise_threshold: v, ..*old(self) }),
    {
        self.noise_threshold = v;
    }

    pub fn set_attack_time(&mut self, v: i64)
        ensures
            *final(self) == (ParameterStore { attack_time: v, ..*old(self) }),
    {
        self.attack_time = v;
    }

    pub fn set_release_time(&mut self, v: i64)
        ensures
            *final(self) == (ParameterStore { release_time: v, ..*old(self) }),
    {
        self.release_time = v;
    }

    pub fn set_smoothing(&mut self, v: i64)
        ensures
            *final(self) == (ParameterStore { smoothing: v, ..*old(self) }),
    {
        self.smoothing = v;
    }

    pub fn set_mod_frequency(&mut self, v: i64)
        ensures
            *final(self) == (ParameterStore { mod_frequency: v, ..*old(self) }),
    {
        self.mod_frequency = v;
    }

    pub fn set_ring_capacity(&mut self, v: usize)
        ensures
            *final(self) == (ParameterStore { ring_capacity: v, ..*old(self) }),
    {
        self.ring_capacity = v;
    }
}

} // verus!
