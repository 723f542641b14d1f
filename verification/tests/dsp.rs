use voice_transformer::capture::{CaptureParams, CaptureStage};
use voice_transformer::fixed::{SCALE};
use voice_transformer::gate::{gate_multiplier, EnvelopeGate};
use voice_transformer::interp::cubic_interpolate;
use voice_transformer::osc::PhaseOscillator;
use voice_transformer::playback::render_block;
use voice_transformer::ring::AudioRing;
use voice_transformer::spectrum::analyze;
use voice_transformer::trig::TWO_PI_FX;
use voice_transformer::window::AnalysisWindow;

fn quiet_params(ring_capacity: usize) -> CaptureParams {
    CaptureParams {
        volume: SCALE,
        threshold: 10_000,
        attack_coeff: 0,
        release_coeff: 0,
        smoothing: 0,
        mod_freq: 0,
        ring_capacity,
    }
}

#[test]
fn phase_stays_in_range_over_many_advances() {
    let mut osc = PhaseOscillator::new();
    for step in 0..100_000u64 {
        let freq = (step % 25) as i64 * 1_000_000;
        osc.advance(freq, 44_100);
        assert!(0 <= osc.phase && osc.phase < TWO_PI_FX);
    }
}

#[test]
fn phase_increment_is_exact_at_five_hertz() {
    let mut osc = PhaseOscillator::new();
    let phase = osc.advance(5_000_000, 44_100);
    // floor(6_283_185 * 5_000_000 / (1_000_000 * 44_100))
    assert_eq!(phase, 712);
    assert_eq!(osc.phase, 712);
}

#[test]
fn phase_wraps_after_a_full_turn() {
    let mut osc = PhaseOscillator::new();
    for _ in 0..20_000 {
        osc.advance(19_000_000, 44_100);
        assert!(0 <= osc.phase && osc.phase < TWO_PI_FX);
    }
}

#[test]
fn cubic_interpolation_example() {
    // cubic(0, 1, 1, 0, 0.5) = 1.25
    assert_eq!(cubic_interpolate(0, SCALE, SCALE, 0, 500_000), 1_250_000);
}

#[test]
fn cubic_interpolation_is_deterministic() {
    let a = cubic_interpolate(123_456, -654_321, 42, 999_999, 250_000);
    let b = cubic_interpolate(123_456, -654_321, 42, 999_999, 250_000);
    assert_eq!(a, b);
}

#[test]
fn gate_multiplier_example_below_threshold() {
    // envelope 0.005, threshold 0.01: ratio 0.5, curve 0.5^1.5,
    // multiplier ~ 0.2033 (exactly 203_292 in millionths).
    assert_eq!(gate_multiplier(5_000, 10_000), 203_292);
}

#[test]
fn gate_multiplier_passthrough_above_threshold() {
    // envelope 0.02 > threshold 0.01: the multiplier is exactly one.
    assert_eq!(gate_multiplier(20_000, 10_000), SCALE);
}

#[test]
fn gate_multiplier_continuous_at_threshold_boundary() {
    // both sides of ratio = 1 give exactly one...
    assert_eq!(gate_multiplier(10_000, 10_000), SCALE);
    assert_eq!(gate_multiplier(10_001, 10_000), SCALE);
    assert_eq!(gate_multiplier(9_999, 10_000), 999_765);
    // ...and the curve bottoms out at zero.
    assert_eq!(gate_multiplier(0, 10_000), 0);
}

#[test]
fn gate_multiplier_climbs_with_the_envelope() {
    let mut last = 0i64;
    for envelope in (0..=12_000).step_by(500) {
        let m = gate_multiplier(envelope, 10_000);
        assert!(m >= last);
        last = m;
    }
    assert_eq!(last, SCALE);
}

#[test]
fn gate_envelope_follows_level_with_immediate_coefficients() {
    let mut gate = EnvelopeGate::new();
    let out = gate.process(20_000, 10_000, 0, 0, 0);
    assert_eq!(gate.envelope, 20_000);
    assert_eq!(out, 20_000);
}

#[test]
fn gate_silences_below_threshold() {
    let mut gate = EnvelopeGate::new();
    let out = gate.process(5_000, 10_000, 0, 0, 0);
    assert_eq!(gate.envelope, 0);
    assert_eq!(out, 0);
}

#[test]
fn gate_keeps_sign_of_loud_samples() {
    let mut gate = EnvelopeGate::new();
    let out = gate.process(-20_000, 10_000, 0, 0, 0);
    assert_eq!(out, -20_000);
}

#[test]
fn gate_signal_estimate_moves_slowly() {
    let mut gate = EnvelopeGate::new();
    let block = vec![SCALE, -SCALE];
    gate.observe_block(&block);
    // 0.95 * 0.01 + 0.05 * 1.0 = 0.0595
    assert_eq!(gate.signal_estimate, 59_500);
    assert_eq!(gate.envelope, 0);
}

#[test]
fn ring_trim_keeps_the_last_capacity_samples() {
    let mut ring = AudioRing::new();
    for v in 0..10i64 {
        ring.append(v);
    }
    ring.trim_to(4);
    assert_eq!(ring.len(), 4);
    for i in 0..4usize {
        assert_eq!(ring.get(i), 6 + i as i64);
    }
}

#[test]
fn ring_trim_leaves_short_buffers_alone() {
    let mut ring = AudioRing::new();
    ring.append(7);
    ring.append(8);
    ring.trim_to(5);
    assert_eq!(ring.len(), 2);
    assert_eq!(ring.get(0), 7);
    assert_eq!(ring.get(1), 8);
}

#[test]
fn playback_underrun_outputs_pure_silence_and_keeps_the_ring() {
    let mut ring = AudioRing::new();
    ring.append(1);
    ring.append(2);
    ring.append(3);
    let out = render_block(&mut ring, 8);
    assert_eq!(out.len(), 8);
    assert!(out.iter().all(|&v| v == 0));
    assert_eq!(ring.len(), 3);
    assert_eq!(ring.get(0), 1);
}

#[test]
fn playback_scales_and_drains_the_front() {
    let mut ring = AudioRing::new();
    ring.append(1_000_000);
    ring.append(2_000_000);
    ring.append(4);
    let out = render_block(&mut ring, 2);
    assert_eq!(out, vec![900_000, 1_800_000]);
    assert_eq!(ring.len(), 1);
    assert_eq!(ring.get(0), 4);
}

#[test]
fn analysis_window_drops_the_oldest() {
    let mut w = AnalysisWindow::new(2);
    w.push(1);
    w.push(2);
    w.push(3);
    assert_eq!(w.len(), 2);
    assert_eq!(w.get(0), 2);
    assert_eq!(w.get(1), 3);
}

#[test]
fn spectrum_of_silence_is_all_zero() {
    let mut w = AnalysisWindow::new(8);
    for _ in 0..8 {
        w.push(0);
    }
    let frame = analyze(&w, 8, 44_100);
    assert_eq!(frame.magnitudes.len(), 4);
    assert!(frame.magnitudes.iter().all(|&m| m == 0));
    assert_eq!(frame.sample_rate, 44_100);
    assert_eq!(frame.fft_size, 8);
}

#[test]
fn spectrum_of_a_short_window_is_all_zero_regardless_of_content() {
    let mut w = AnalysisWindow::new(8);
    w.push(500_000);
    w.push(-400_000);
    w.push(300_000);
    let frame = analyze(&w, 8, 48_000);
    assert_eq!(frame.magnitudes.len(), 4);
    assert!(frame.magnitudes.iter().all(|&m| m == 0));
}

#[test]
fn spectrum_of_a_tone_is_reproducible_and_nonnegative() {
    let mut w = AnalysisWindow::new(16);
    for i in 0..16i64 {
        w.push(if i % 2 == 0 { 800_000 } else { -800_000 });
    }
    let a = analyze(&w, 16, 44_100);
    let b = analyze(&w, 16, 44_100);
    assert_eq!(a.magnitudes, b.magnitudes);
    assert_eq!(a.magnitudes.len(), 8);
    assert!(a.magnitudes.iter().all(|&m| m >= 0));
    assert!(a.magnitudes.iter().any(|&m| m > 0));
}

#[test]
fn capture_block_processes_one_sample_exactly() {
    let mut stage = CaptureStage::new();
    let mut ring = AudioRing::new();
    let mut window = AnalysisWindow::new(4);
    let input = vec![SCALE];
    let p = quiet_params(100);
    stage.process_block(&input, &p, 44_100, &mut ring, &mut window, true);
    // With frequency zero the phase stays at zero, where the modulation
    // factor is exactly 1 + 0.015 * 0.3 = 1.0045.
    assert_eq!(stage.osc.phase, 0);
    assert_eq!(ring.len(), 1);
    assert_eq!(ring.get(0), 1_004_500);
    assert_eq!(window.len(), 1);
    assert_eq!(window.get(0), 1_004_500);
    assert_eq!(stage.gate.envelope, 1_004_500);
}

#[test]
fn capture_block_of_silence_stays_silent() {
    let mut stage = CaptureStage::new();
    let mut ring = AudioRing::new();
    let mut window = AnalysisWindow::new(8);
    let input = vec![0, 0, 0];
    let p = quiet_params(100);
    stage.process_block(&input, &p, 44_100, &mut ring, &mut window, true);
    assert_eq!(ring.len(), 3);
    for i in 0..3usize {
        assert_eq!(ring.get(i), 0);
    }
}

#[test]
fn capture_handles_an_empty_block() {
    let mut stage = CaptureStage::new();
    let mut ring = AudioRing::new();
    let mut window = AnalysisWindow::new(8);
    let input: Vec<i64> = Vec::new();
    let p = quiet_params(100);
    stage.process_block(&input, &p, 44_100, &mut ring, &mut window, true);
    assert_eq!(ring.len(), 0);
    assert_eq!(window.len(), 0);
    assert_eq!(stage.gate.signal_estimate, 10_000);
}

#[test]
fn capture_block_respects_the_ring_capacity() {
    let mut stage = CaptureStage::new();
    let mut ring = AudioRing::new();
    let mut window = AnalysisWindow::new(8);
    let input = vec![0, 0, 0, 0, 0];
    let p = quiet_params(2);
    stage.process_block(&input, &p, 44_100, &mut ring, &mut window, true);
    assert_eq!(ring.len(), 2);
}

#[test]
fn capture_skips_the_window_when_it_is_unavailable() {
    let mut stage = CaptureStage::new();
    let mut ring = AudioRing::new();
    let mut window = AnalysisWindow::new(8);
    let input = vec![SCALE, SCALE];
    let p = quiet_params(100);
    stage.process_block(&input, &p, 44_100, &mut ring, &mut window, false);
    assert_eq!(ring.len(), 2);
    assert_eq!(window.len(), 0);
}

#[test]
fn capture_interpolates_every_441st_ring_sample() {
    let mut stage = CaptureStage::new();
    let mut ring = AudioRing::new();
    let mut window = AnalysisWindow::new(8);
    for _ in 0..440 {
        ring.append(0);
    }
    let input = vec![SCALE];
    let p = quiet_params(1_000);
    stage.process_block(&input, &p, 44_100, &mut ring, &mut window, true);
    // The 441st entry triggers one extra sample, interpolated between the
    // previous entry (0) and the fresh sample (1_004_500) at t = 0.5.
    assert_eq!(ring.len(), 442);
    assert_eq!(ring.get(440), 1_004_500);
    assert_eq!(ring.get(441), 1_130_062);
}
