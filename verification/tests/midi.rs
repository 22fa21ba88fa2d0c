use wavetable::graintable;
use wavetable::voiceset::{Voice, Voiceset};
use wavetable::Synth;

#[test]
fn voice_default_and_use() {
    let mut v = Voice::default();
    assert!(v.is_free());
    assert_eq!(v.note, None);
    v.use_voice(60);
    assert!(!v.is_free());
    assert_eq!(v.note, Some(60));
    assert_eq!(v.time, 0);
    v.free_voice();
    assert!(v.is_free());
    assert_eq!(v.note, Some(60));
}

#[test]
fn voiceset_default() {
    let v = Voiceset::default();
    assert_eq!(v.voice.len(), 8);
    assert_eq!(v.vol_env.params.decay_time, 0);
    assert_eq!(v.vol_env.params.attack_time, 882);
    assert_eq!(v.mod_env.params.decay_time, 8820);
}

#[test]
fn note_on_takes_lowest_free_voice() {
    let mut s = Synth::default();
    assert_eq!(s.note_on(60), Some(0));
    assert_eq!(s.note_on(62), Some(1));
    assert!(!s.voices.voice[0].is_free());
    assert_eq!(s.voices.voice[0].note, Some(60));
    assert_eq!(s.voices.voice[0].wavetable_mip, 3);
    assert_eq!(s.voices.voice[1].wavetable_mip, 3);
    assert_eq!(s.voices.vol_env.time[0], 0);
    assert!(s.voices.vol_env.note[0]);
    assert!(s.voices.mod_env.note[1]);
    s.note_off(60);
    assert!(s.voices.voice[0].is_free());
    assert!(!s.voices.vol_env.note[0]);
    assert!(!s.voices.mod_env.note[0]);
    assert!(s.voices.vol_env.note[1]);
    assert_eq!(s.note_on(17), Some(0));
    assert_eq!(s.voices.voice[0].wavetable_mip, 0);
    assert_eq!(s.voices.voice[0].note, Some(17));
}

#[test]
fn ninth_note_is_dropped() {
    let mut s = Synth::default();
    for n in 0..8u8 {
        assert_eq!(s.note_on(40 + n), Some(n as usize));
    }
    assert_eq!(s.note_on(10), None);
    for i in 0..8 {
        assert_eq!(s.voices.voice[i].note, Some(40 + i as u8));
    }
}

#[test]
fn midi_messages_dispatch() {
    let mut s = Synth::default();
    assert_eq!(s.process_midi_event([144, 100, 90]), Some(0));
    assert_eq!(s.voices.voice[0].wavetable_mip, 6);
    assert_eq!(s.process_midi_event([176, 100, 90]), None);
    assert!(!s.voices.voice[0].is_free());
    assert_eq!(s.process_midi_event([128, 100, 0]), None);
    assert!(s.voices.voice[0].is_free());
    assert_eq!(s.process_midi_event([128, 100, 0]), None);
    assert!(s.voices.voice[0].is_free());
}

#[test]
fn note_off_frees_every_voice_with_the_note() {
    let mut s = Synth::default();
    s.note_on(50);
    s.note_on(50);
    s.note_on(51);
    s.note_off(50);
    assert!(s.voices.voice[0].is_free());
    assert!(s.voices.voice[1].is_free());
    assert!(!s.voices.voice[2].is_free());
}

#[test]
fn grain_synth_sets_both_mips_and_clears_note() {
    let mut s = graintable::Synth::default();
    assert_eq!(s.process_midi_event([144, 89, 1]), Some(0));
    assert_eq!(s.voices.voice[0].wavetable_mip, 6);
    assert_eq!(s.voices.voice[0].grain_mip, 6);
    assert_eq!(s.note_on(30), Some(1));
    assert_eq!(s.voices.voice[1].grain_mip, 1);
    assert_eq!(s.process_midi_event([128, 89, 1]), None);
    assert!(s.voices.voice[0].is_free());
    assert_eq!(s.voices.voice[0].note, None);
    assert!(!s.voices.vol_env.note[0]);
    assert_eq!(s.voices.voice[1].note, Some(30));
}

#[test]
fn default_synths_are_at_rest() {
    let s = Synth::default();
    let g = graintable::Synth::default();
    for v in [&s.voices, &g.voices] {
        assert_eq!(v.vol_env.time, vec![100000; 8]);
        assert_eq!(v.mod_env.time, vec![100000; 8]);
        assert_eq!(v.vol_env.note, vec![false; 8]);
        assert_eq!(v.vol_env.params.decay_time, 0);
        assert_eq!(v.mod_env.params.decay_time, 8820);
        for i in 0..8 {
            assert!(v.voice[i].is_free());
            assert_eq!(v.voice[i].time, 0);
            assert_eq!(v.voice[i].wavetable_mip, 0);
        }
    }
}
