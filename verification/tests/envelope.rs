use wavetable::voiceset::modmatrix::{Env, EnvParams, EnvStep, Segment};

fn env(a: usize, d: usize, r: usize) -> Env {
    Env { time: vec![0; 2], note: vec![false; 2], params: EnvParams { attack_time: a, decay_time: d, release_time: r } }
}

fn seg(s: EnvStep) -> Segment {
    s.segment
}

#[test]
fn env_params_default() {
    let p = EnvParams::default();
    assert_eq!(p.attack_time, 882);
    assert_eq!(p.decay_time, 8820);
    assert_eq!(p.release_time, 882);
}

#[test]
fn env_default_is_at_rest() {
    let mut e = Env::default();
    assert_eq!(e.time, vec![100000; 8]);
    assert_eq!(e.note, vec![false; 8]);
    for v in 0..8 {
        assert_eq!(e.next(v), EnvStep { segment: Segment::Finished, release_from: None });
        assert_eq!(e.time[v], 100000);
    }
}

#[test]
fn held_note_walks_attack_decay_sustain() {
    let mut e = env(2, 3, 2);
    e.restart_env(1);
    assert_eq!(e.time[1], 0);
    assert!(e.note[1]);
    let got: Vec<Segment> = (0..8).map(|_| seg(e.next(1))).collect();
    assert_eq!(
        got,
        vec![
            Segment::Attack(0),
            Segment::Attack(1),
            Segment::Decay(0),
            Segment::Decay(1),
            Segment::Decay(2),
            Segment::Sustain,
            Segment::Sustain,
            Segment::Sustain,
        ]
    );
    assert_eq!(e.time[1], 5);
    assert_eq!(e.time[0], 0);
}

#[test]
fn release_lasts_release_time() {
    let mut e = env(2, 3, 3);
    e.restart_env(0);
    for _ in 0..10 {
        e.next(0);
    }
    e.note[0] = false;
    let got: Vec<EnvStep> = (0..5).map(|_| e.next(0)).collect();
    assert_eq!(got[0], EnvStep { segment: Segment::Release(0), release_from: None });
    assert_eq!(seg(got[1]), Segment::Release(1));
    assert_eq!(seg(got[2]), Segment::Release(2));
    assert_eq!(seg(got[3]), Segment::Finished);
    assert_eq!(seg(got[4]), Segment::Finished);
    assert_eq!(e.time[0], 8);
}

#[test]
fn early_let_go_releases_from_reached_point() {
    let mut e = env(4, 4, 2);
    e.restart_env(0);
    e.next(0);
    e.next(0);
    e.note[0] = false;
    assert_eq!(e.next(0), EnvStep { segment: Segment::Release(0), release_from: Some(Segment::Attack(1)) });
    assert_eq!(e.time[0], 9);
    assert!(!e.note[0]);
    assert_eq!(e.next(0), EnvStep { segment: Segment::Release(1), release_from: None });
    assert_eq!(e.next(0), EnvStep { segment: Segment::Finished, release_from: None });
}

#[test]
fn let_go_during_decay() {
    let mut e = env(2, 4, 0);
    e.restart_env(0);
    for _ in 0..4 {
        e.next(0);
    }
    e.note[0] = false;
    assert_eq!(e.next(0), EnvStep { segment: Segment::Finished, release_from: Some(Segment::Decay(1)) });
    assert_eq!(e.time[0], 6);
}

#[test]
fn released_voice_falls_silent_and_stays_silent() {
    for start in [1usize, 3, 6, 7, 9, 20] {
        let mut e = env(2, 3, 4);
        e.time[0] = start;
        e.note[0] = false;
        let got: Vec<Segment> = (0..8).map(|_| seg(e.next(0))).collect();
        let first = got.iter().position(|s| *s == Segment::Finished).unwrap();
        assert!(first <= 4);
        assert!(got[first..].iter().all(|s| *s == Segment::Finished));
    }
}
