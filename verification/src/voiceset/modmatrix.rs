//! The envelope generators: per-voice ADSR state machines.
//!
//! An envelope moves through attack, decay and sustain while its note is held, and
//! through release once the note is let go. This module decides, sample by sample,
//! which segment each voice is in and how far into it; the curve drawn over a segment
//! (its slope and level) is applied by the caller.
use vstd::prelude::*;

verus! {

/// Timing of an envelope, in samples.
#[derive(Clone, Copy, Debug, PartialEq, Eq, Structural)]
pub struct EnvParams {
    pub attack_time: usize,
    pub decay_time: usize,
    pub release_time: usize,
}

impl Default for EnvParams {
    /// 882 samples of attack (20 ms at 44.1 kHz), 8820 of decay, 882 of release.
    fn default() -> (p: EnvParams)
        ensures
            p.attack_time == 882,
            p.decay_time == 8820,
            p.release_time == 882,
    {
        EnvParams { attack_time: 882, decay_time: 8820, release_time: 882 }
    }
}

/// Where an envelope is on its curve for one sample.
#[derive(Clone, Copy, Debug, PartialEq, Eq, Structural)]
pub enum Segment {
    /// The given number of samples into the attack.
    Attack(usize),
    /// The given number of samples into the decay.
    Decay(usize),
    /// Holding at the sustain level.
    Sustain,
    /// The given number of samples into the release.
    Release(usize),
    /// The release is over: the voice is silent.
    Finished,
}

/// The outcome of advancing one voice's envelope by one sample.
#[derive(Clone, Copy, Debug, PartialEq, Eq, Structural)]
pub struct EnvStep {
    /// The segment of this sample.
    pub segment: Segment,
    /// When the note was let go during attack or decay, the point of the held curve
    /// (one sample back) from which the release now starts; otherwise `None`.
    pub release_from: Option<Segment>,
}

/// The segment of a held envelope `time` samples after its note started.
pub open spec fn held_segment(time: nat, p: EnvParams) -> Segment {
    if time < p.attack_time {
        Segment::Attack(time as usize)
    } else if time < p.attack_time + p.decay_time {
        Segment::Decay((time - p.attack_time) as usize)
    } else {
        Segment::Sustain
    }
}

/// The envelope time after one step from `time`.
pub open spec fn next_time(time: nat, note: bool, p: EnvParams) -> nat {
    let held_end: nat = (p.attack_time + p.decay_time) as nat;
    if note {
        if time < held_end {
            time + 1
        } else {
            time
        }
    } else {
        let start: nat = if time < held_end {
            held_end
        } else {
            time
        };
        if start - held_end >= p.release_time {
            start
        } else {
            start + 1
        }
    }
}

/// What one step from `time` reports.
pub open spec fn next_step(time: nat, note: bool, p: EnvParams) -> EnvStep {
    let held_end: nat = (p.attack_time + p.decay_time) as nat;
    if note {
        EnvStep { segment: held_segment(time, p), release_from: None }
    } else {
        let forced = time < held_end;
        let start: nat = if forced {
            held_end
        } else {
            time
        };
        EnvStep {
            segment: if start - held_end >= p.release_time {
                Segment::Finished
            } else {
                Segment::Release((start - held_end) as usize)
            },
            release_from: if forced {
                Some(held_segment((time - 1) as nat, p))
            } else {
                None
            },
        }
    }
}

/// The inputs on which one step is defined: the length of attack plus decay fits in `usize`
/// wherever the step needs it (everywhere but in the attack of a held note), a note let go
/// during attack or decay has run at least one sample, and the new time fits.
pub open spec fn step_defined(time: nat, note: bool, p: EnvParams) -> bool {
    &&& (!note || time >= p.attack_time ==> p.attack_time + p.decay_time <= usize::MAX)
    &&& (!note && time < p.attack_time + p.decay_time ==> time > 0)
    &&& next_time(time, note, p) <= usize::MAX
}

/// The time after `k` steps from `time`, the note flag staying as it is.
pub open spec fn time_after(time: nat, note: bool, p: EnvParams, k: nat) -> nat
    decreases k,
{
    if k == 0 {
        time
    } else {
        time_after(next_time(time, note, p), note, p, (k - 1) as nat)
    }
}

/// While its note is held, an envelope started at `time <= attack + decay` advances one
/// sample per step until the end of the decay and then holds: after `k` steps its time is
/// `min(time + k, attack + decay)`, and that step reports attack, then decay, then sustain.
pub proof fn lemma_held_envelope(time: nat, p: EnvParams, k: nat)
    requires
        time <= p.attack_time + p.decay_time,
    ensures
        time_after(time, true, p, k) == if time + k < p.attack_time + p.decay_time {
            time + k
        } else {
            (p.attack_time + p.decay_time) as nat
        },
        next_step(time_after(time, true, p, k), true, p).segment == held_segment(
            time_after(time, true, p, k),
            p,
        ),
        next_step(time_after(time, true, p, k), true, p).release_from is None,
    decreases k,
{
    if k > 0 {
        lemma_held_envelope(next_time(time, true, p), p, (k - 1) as nat);
    }
}

/// Each step of a held note reports how far into its segment it is: a step at time `t`
/// before the end of the attack reports `Attack(t)`, one during the decay reports
/// `Decay(t - attack_time)`, and both advance the time by one sample; past the decay a step
/// reports `Sustain` and leaves the time alone.
pub proof fn lemma_held_step_positions(time: nat, p: EnvParams)
    requires
        time <= usize::MAX,
    ensures
        time < p.attack_time ==> next_step(time, true, p) == (EnvStep {
            segment: Segment::Attack(time as usize),
            release_from: None,
        }) && next_time(time, true, p) == time + 1,
        p.attack_time <= time < p.attack_time + p.decay_time ==> next_step(time, true, p) == (EnvStep {
            segment: Segment::Decay((time - p.attack_time) as usize),
            release_from: None,
        }) && next_time(time, true, p) == time + 1,
        time >= p.attack_time + p.decay_time ==> next_step(time, true, p) == (EnvStep {
            segment: Segment::Sustain,
            release_from: None,
        }) && next_time(time, true, p) == time,
{
}

/// Each step of a let-go note reports how far into the release it is, counted from the end
/// of the decay: at time `t` past the decay, `Release(t - attack_time - decay_time)` until the
/// release time has run out and `Finished` from then on. A note let go at time `t` during
/// attack or decay first jumps to the end of the decay and reports the point one sample
/// back on the held curve (`Attack(t - 1)` or `Decay(t - 1 - attack_time)`) to release from.
pub proof fn lemma_released_step_positions(time: nat, p: EnvParams)
    requires
        time <= usize::MAX,
        p.attack_time + p.decay_time <= usize::MAX,
        time < p.attack_time + p.decay_time ==> time > 0,
    ensures
        ({
            let held_end = p.attack_time + p.decay_time;
            let start: nat = if time < held_end {
                held_end as nat
            } else {
                time
            };
            &&& next_step(time, false, p).segment == if start - held_end < p.release_time {
                Segment::Release((start - held_end) as usize)
            } else {
                Segment::Finished
            }
            &&& next_time(time, false, p) == if start - held_end < p.release_time {
                start + 1
            } else {
                start
            }
            &&& next_step(time, false, p).release_from == if time >= held_end {
                None
            } else if time - 1 < p.attack_time {
                Some(Segment::Attack((time - 1) as usize))
            } else {
                Some(Segment::Decay((time - 1 - p.attack_time) as usize))
            }
        }),
{
}

/// Sustain holds: a held envelope past its decay stays where it is and reports `Sustain`.
pub proof fn lemma_sustain_holds(time: nat, p: EnvParams)
    requires
        time >= p.attack_time + p.decay_time,
    ensures
        next_time(time, true, p) == time,
        next_step(time, true, p) == (EnvStep { segment: Segment::Sustain, release_from: None }),
{
}

/// The release lasts exactly `release_time` samples: from the start of the release, step
/// `k` reports `Release(k)` for `k < release_time` and `Finished` from then on, and the
/// time stops at the end of the release.
pub proof fn lemma_release_length(p: EnvParams, k: nat)
    ensures
        time_after((p.attack_time + p.decay_time) as nat, false, p, k) == p.attack_time + p.decay_time + if k < p.release_time {
            k
        } else {
            p.release_time as nat
        },
        next_step(time_after((p.attack_time + p.decay_time) as nat, false, p, k), false, p).segment
            == if k < p.release_time {
            Segment::Release(k as usize)
        } else {
            Segment::Finished
        },
{
    lemma_release_run(p, 0, k);
}

proof fn lemma_release_run(p: EnvParams, done: nat, k: nat)
    requires
        done <= p.release_time,
    ensures
        time_after((p.attack_time + p.decay_time + done) as nat, false, p, k) == p.attack_time + p.decay_time + if done + k < p.release_time {
            done + k
        } else {
            p.release_time as nat
        },
        next_step(time_after((p.attack_time + p.decay_time + done) as nat, false, p, k), false, p).segment
            == if done + k < p.release_time {
            Segment::Release((done + k) as usize)
        } else {
            Segment::Finished
        },
    decreases k,
{
    if k > 0 {
        if done < p.release_time {
            assert(next_time((p.attack_time + p.decay_time + done) as nat, false, p) == p.attack_time
                + p.decay_time + done + 1);
            lemma_release_run(p, done + 1, (k - 1) as nat);
        } else {
            lemma_release_run(p, done, (k - 1) as nat);
        }
    }
}

/// A finished envelope stays finished: its time no longer changes and every step
/// reports `Finished`.
pub proof fn lemma_finished_is_final(time: nat, p: EnvParams, k: nat)
    requires
        time >= p.attack_time + p.decay_time + p.release_time,
    ensures
        time_after(time, false, p, k) == time,
        next_step(time_after(time, false, p, k), false, p).segment == Segment::Finished,
    decreases k,
{
    if k > 0 {
        lemma_finished_is_final(time, p, (k - 1) as nat);
    }
}

/// Letting a note go during attack or decay starts the release at once, from the point of
/// the held curve reached one sample earlier.
pub proof fn lemma_let_go_early(time: nat, p: EnvParams)
    requires
        0 < time < p.attack_time + p.decay_time,
        p.release_time > 0,
    ensures
        next_time(time, false, p) == p.attack_time + p.decay_time + 1,
        next_step(time, false, p) == (EnvStep {
            segment: Segment::Release(0),
            release_from: Some(held_segment((time - 1) as nat, p)),
        }),
{
}

/// Counting steps from the far end: `k + 1` steps are `k` steps followed by one more.
proof fn lemma_time_after_last(time: nat, note: bool, p: EnvParams, k: nat)
    ensures
        time_after(time, note, p, k + 1) == next_time(time_after(time, note, p, k), note, p),
    decreases k,
{
    if k > 0 {
        lemma_time_after_last(next_time(time, note, p), note, p, (k - 1) as nat);
    } else {
        assert(time_after(next_time(time, note, p), note, p, 0) == next_time(time, note, p));
    }
}

/// From a time at or past the end of the decay, a released envelope advances one sample per
/// step until the end of its release and then stays there.
proof fn lemma_released_run(time: nat, p: EnvParams, k: nat)
    requires
        time >= p.attack_time + p.decay_time,
    ensures
        time_after(time, false, p, k) == if time >= p.attack_time + p.decay_time + p.release_time {
            time
        } else if time + k < p.attack_time + p.decay_time + p.release_time {
            time + k
        } else {
            (p.attack_time + p.decay_time + p.release_time) as nat
        },
    decreases k,
{
    if k > 0 {
        lemma_released_run(next_time(time, false, p), p, (k - 1) as nat);
    }
}

/// A released envelope falls silent within `release_time + 1` steps and stays silent: from
/// any time, once the note is let go, step `k` reports `Finished` for every
/// `k >= release_time`, and a step that reports `Finished` is followed only by such steps.
pub proof fn lemma_released_falls_silent(time: nat, p: EnvParams, k: nat)
    ensures
        k >= p.release_time ==> next_step(time_after(time, false, p, k), false, p).segment
            == Segment::Finished,
        next_step(time_after(time, false, p, k), false, p).segment == Segment::Finished
            ==> next_step(time_after(time, false, p, k + 1), false, p).segment == Segment::Finished,
{
    if k > 0 {
        let u = next_time(time, false, p);
        assert(time_after(time, false, p, k) == time_after(u, false, p, (k - 1) as nat));
        lemma_released_run(u, p, (k - 1) as nat);
    }
    lemma_time_after_last(time, false, p, k);
}

/// A bank of envelopes, one per voice.
pub struct Env {
    /// Samples since the note started, per voice.
    pub time: Vec<usize>,
    /// Whether the note of each voice is held.
    pub note: Vec<bool>,
    pub params: EnvParams,
}

/// The state of an envelope bank as mathematical values.
pub ghost struct EnvView {
    pub time: Seq<usize>,
    pub note: Seq<bool>,
    pub params: EnvParams,
}

impl View for Env {
    type V = EnvView;

    open spec fn view(&self) -> EnvView {
        EnvView { time: self.time@, note: self.note@, params: self.params }
    }
}

impl EnvView {
    /// The bank with the envelope of `voice` started from the beginning.
    pub open spec fn restarted(self, voice: int) -> EnvView {
        EnvView { time: self.time.update(voice, 0), note: self.note.update(voice, true), ..self }
    }

    /// Restarting voice `v` puts its envelope at time 0 with the note held and leaves every
    /// other voice and the timing alone.
    pub proof fn lemma_restart_one_voice(self, v: int)
        requires
            0 <= v < self.time.len(),
            0 <= v < self.note.len(),
        ensures
            self.restarted(v).time[v] == 0,
            self.restarted(v).note[v],
            self.restarted(v).time.len() == self.time.len(),
            self.restarted(v).note.len() == self.note.len(),
            self.restarted(v).params == self.params,
            forall|j: int| 0 <= j < self.time.len() && j != v ==> self.restarted(v).time[j] == self.time[j],
            forall|j: int| 0 <= j < self.note.len() && j != v ==> self.restarted(v).note[j] == self.note[j],
    {
    }

    /// The bank with the notes of the voices picked by `which` let go.
    pub open spec fn let_go_where(self, which: spec_fn(int) -> bool) -> EnvView {
        EnvView {
            note: Seq::new(
                self.note.len(),
                |i: int|
                    if which(i) {
                        false
                    } else {
                        self.note[i]
                    },
            ),
            ..self
        }
    }
}

impl Env {
    /// Starts the envelope of `voice` from the beginning of its attack.
    pub fn restart_env(&mut self, voice: usize)
        requires
            voice < old(self).time.len(),
            voice < old(self).note.len(),
        ensures
            final(self)@ == old(self)@.restarted(voice as int),
    {
        self.time.set(voice, 0);
        self.note.set(voice, true);
    }

    /// Advances the envelope of `voice` by one sample and reports the segment of that sample.
    ///
    /// A held note walks through attack and decay and then stays at sustain. A note let go
    /// during attack or decay jumps to the start of the release, and the report carries the
    /// point it was let go at. The release then runs for `release_time` samples, after which
    /// every step reports `Finished` and changes nothing.
    pub fn next(&mut self, voice: usize) -> (step: EnvStep)
        requires
            voice < old(self).time.len(),
            voice < old(self).note.len(),
            step_defined(old(self).time[voice as int] as nat, old(self).note[voice as int], old(self).params),
        ensures
            step == next_step(old(self).time[voice as int] as nat, old(self).note[voice as int], old(self).params),
            final(self).time@ == old(self).time@.update(
                voice as int,
                next_time(old(self).time[voice as int] as nat, old(self).note[voice as int], old(self).params) as usize,
            ),
            final(self).note@ == old(self).note@,
            final(self).params == old(self).params,
    {
        let a = self.params.attack_time;
        let d = self.params.decay_time;
        let r = self.params.release_time;
        let t = self.time[voice];
        if self.note[voice] {
            if t < a {
                self.time.set(voice, t + 1);
                EnvStep { segment: Segment::Attack(t), release_from: None }
            } else if t < a + d {
                self.time.set(voice, t + 1);
                EnvStep { segment: Segment::Decay(t - a), release_from: None }
            } else {
                EnvStep { segment: Segment::Sustain, release_from: None }
            }
        } else {
            let held_end = a + d;
            let mut release_from: Option<Segment> = None;
            let mut start = t;
            if t < held_end {
                // the note was let go before the sustain: release from the point reached
                let before = t - 1;
                release_from = if before < a {
                    Some(Segment::Attack(before))
                } else {
                    Some(Segment::Decay(before - a))
                };
                start = held_end;
            }
            if start - held_end >= r {
                self.time.set(voice, start);
                EnvStep { segment: Segment::Finished, release_from }
            } else {
                self.time.set(voice, start + 1);
                EnvStep { segment: Segment::Release(start - held_end), release_from }
            }
        }
    }
}

impl Default for Env {
    /// Eight voices, all far past their release, none held.
    fn default() -> (e: Env)
        ensures
            e.time@ == Seq::new(8, |i: int| 100000usize),
            e.note@ == Seq::new(8, |i: int| false),
            e.params == (EnvParams { attack_time: 882, decay_time: 8820, release_time: 882 }),
    {
        let time: Vec<usize> = vec![100000; 8];
        let note: Vec<bool> = vec![false; 8];
        let e = Env { time, note, params: EnvParams::default() };
        assert(e.time@ =~= Seq::new(8, |i: int| 100000usize));
        assert(e.note@ =~= Seq::new(8, |i: int| false));
        e
    }
}

} // verus!
