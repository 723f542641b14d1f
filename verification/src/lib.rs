//! Real-time voice-transformation core.
//!
//! The processing chain (amplitude modulation, an adaptive noise gate, cubic
//! interpolation, a bounded ring buffer between the capture and playback
//! paths, and a magnitude-spectrum analyzer) is written over signed
//! fixed-point samples: an `i64` counts millionths, so `fixed::SCALE` stands
//! for the real value 1.0.  The surrounding program converts the audio
//! backend's floating-point samples to and from this representation at the
//! edges; every rule and formula of the chain itself lives here.

pub mod capture;
pub mod fixed;
pub mod gate;
pub mod interp;
pub mod osc;
pub mod params;
pub mod playback;
pub mod ring;
pub mod spectrum;
pub mod trig;
pub mod window;
