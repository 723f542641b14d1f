use voice_transformer::capture::snapshot_params;
use voice_transformer::params::ParameterStore;

#[test]
fn store_starts_at_the_documented_defaults() {
    let s = ParameterStore::new();
    assert_eq!(s.volume, 900_000);
    assert_eq!(s.noise_threshold, 10_000);
    assert_eq!(s.attack_time, 10_000);
    assert_eq!(s.release_time, 100_000);
    assert_eq!(s.smoothing, 700_000);
    assert_eq!(s.mod_frequency, 5_000_000);
    assert_eq!(s.ring_capacity, 2400);
}

#[test]
fn setters_store_what_they_are_given() {
    let mut s = ParameterStore::new();
    s.set_volume(1_500_000);
    s.set_noise_threshold(-3);
    s.set_mod_frequency(99_000_000);
    s.set_ring_capacity(7);
    assert_eq!(s.volume, 1_500_000);
    assert_eq!(s.noise_threshold, -3);
    assert_eq!(s.mod_frequency, 99_000_000);
    assert_eq!(s.ring_capacity, 7);
    // untouched fields keep their values
    assert_eq!(s.smoothing, 700_000);
}

#[test]
fn snapshot_carries_the_store_and_the_derived_coefficients() {
    let mut s = ParameterStore::new();
    s.set_volume(800_000);
    s.set_smoothing(600_000);
    let p = snapshot_params(&s, 123, 456);
    assert_eq!(p.volume, 800_000);
    assert_eq!(p.threshold, 10_000);
    assert_eq!(p.attack_coeff, 123);
    assert_eq!(p.release_coeff, 456);
    assert_eq!(p.smoothing, 600_000);
    assert_eq!(p.mod_freq, 5_000_000);
    assert_eq!(p.ring_capacity, 2400);
}
