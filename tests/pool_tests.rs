use additive_fm_synth::envelope::{Segment, Stage};
use additive_fm_synth::harmonics::{HARMONIC_COUNT, OPERATOR_COUNT};
use additive_fm_synth::pool::{MixPolicy, VoicePool};

#[test]
fn empty_pool() {
    let p = VoicePool::new();
    assert_eq!(p.len(), 0);
    assert!(!p.is_playing());
    assert_eq!(p.find(60), None);
    assert_eq!(p.mix_divisor(MixPolicy::Total), 0);
    assert_eq!(p.mix_divisor(MixPolicy::Sounding), 0);
    assert_eq!(p.harmonics_count(), 0);
    assert_eq!(p.operators_count(), 0);
    assert!(p.notes().is_empty());
}

#[test]
fn voices_are_made_once_per_note() {
    let mut p = VoicePool::new();
    assert_eq!(p.note_on(60), 0);
    assert_eq!(p.note_on(64), 1);
    assert_eq!(p.note_on(60), 0);
    assert_eq!(p.len(), 2);
    assert_eq!(p.find(64), Some(1));
    assert_eq!(p.notes(), vec![60, 64]);
    assert_eq!(p.harmonics_count(), HARMONIC_COUNT);
    assert_eq!(p.operators_count(), OPERATOR_COUNT);
    assert_eq!(p.harmonics_count(), 64);
    assert_eq!(p.operators_count(), 6);
}

#[test]
fn note_off_of_unknown_note_changes_nothing() {
    let mut p = VoicePool::new();
    p.note_on(60);
    assert_eq!(p.note_off(61), None);
    assert_eq!(p.len(), 1);
    assert!(p.voice(0).active);
    assert_eq!(p.voice(0).envelope.stage, Stage::Attack);
}

#[test]
fn note_off_releases_the_voice_but_keeps_it() {
    let mut p = VoicePool::new();
    p.note_on(60);
    p.note_on(67);
    assert_eq!(p.note_off(67), Some(1));
    let v = p.voice(1);
    assert!(!v.active);
    assert_eq!(v.envelope.stage, Stage::Release);
    assert_eq!(p.len(), 2);
    assert_eq!(p.active_notes(), vec![60]);
    assert!(!p.is_released(1));
}

#[test]
fn playing_lasts_until_the_release_runs_out() {
    let mut p = VoicePool::new();
    let slot = p.note_on(60);
    for _ in 0..100 {
        assert_eq!(p.advance(slot, false), Segment::Rise);
        assert!(p.is_playing());
    }
    p.note_off(60);
    assert!(p.is_playing());
    assert!(p.active_notes().is_empty());
    assert_eq!(p.advance(slot, false), Segment::Fade);
    assert!(p.is_playing());
    assert_eq!(p.advance(slot, true), Segment::Silent);
    assert!(p.is_released(slot));
    assert!(!p.is_playing());
}

#[test]
fn first_sample_of_a4_is_in_the_attack_ramp() {
    let mut p = VoicePool::new();
    let slot = p.note_on(69);
    assert_eq!(p.voice(slot).note, 69);
    assert_eq!(p.advance(slot, false), Segment::Rise);
    assert_eq!(p.voice(slot).envelope.stage, Stage::Attack);
}

#[test]
fn mix_divisor_policies() {
    let mut p = VoicePool::new();
    let a = p.note_on(60);
    p.note_on(62);
    p.note_on(64);
    p.note_off(60);
    p.advance(a, true);
    assert!(p.is_released(a));
    assert_eq!(p.mix_divisor(MixPolicy::Total), 3);
    assert_eq!(p.mix_divisor(MixPolicy::Sounding), 2);
    p.note_on(60);
    assert_eq!(p.mix_divisor(MixPolicy::Sounding), 3);
}

#[test]
fn restarting_a_released_voice_reuses_it() {
    let mut p = VoicePool::new();
    let a = p.note_on(72);
    p.note_off(72);
    p.advance(a, true);
    assert!(p.is_released(a));
    assert_eq!(p.note_on(72), a);
    assert!(p.voice(a).active);
    assert_eq!(p.voice(a).envelope.stage, Stage::Attack);
    assert_eq!(p.len(), 1);
}
