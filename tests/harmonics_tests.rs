use additive_fm_synth::harmonics::{harmonic_multiplier, HarmonicSwitches, HARMONIC_COUNT};

#[test]
fn only_the_fundamental_starts_enabled() {
    let h = HarmonicSwitches::new();
    assert!(h.is_enabled(0));
    for i in 1..HARMONIC_COUNT {
        assert!(!h.is_enabled(i));
    }
}

#[test]
fn toggle_flips_one_harmonic() {
    let mut h = HarmonicSwitches::new();
    assert!(h.toggle(3));
    assert!(h.is_enabled(3));
    assert!(h.is_enabled(0));
    assert!(h.toggle(0));
    assert!(!h.is_enabled(0));
    assert!(h.toggle(3));
    assert!(!h.is_enabled(3));
}

#[test]
fn out_of_range_toggle_changes_nothing() {
    let mut h = HarmonicSwitches::new();
    assert!(!h.toggle(64));
    assert!(!h.toggle(usize::MAX));
    assert!(h.is_enabled(0));
    for i in 1..HARMONIC_COUNT {
        assert!(!h.is_enabled(i));
    }
}

#[test]
fn multipliers_count_from_one() {
    assert_eq!(harmonic_multiplier(0), 1);
    assert_eq!(harmonic_multiplier(1), 2);
    assert_eq!(harmonic_multiplier(63), 64);
}
