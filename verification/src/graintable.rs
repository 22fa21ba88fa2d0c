//! The graintable synthesizer: two wavetable oscillators and a grain oscillator per voice.
//!
//! Its reaction to MIDI differs from the wavetable synthesizer's: a note-on also chooses the
//! grain oscillator's mip level, and a note-off clears the note of the voices it frees.
pub mod params;

use vstd::prelude::*;
use crate::voiceset::interp::{f32_mip_offset, mip_offset_upto, saturate};
use crate::voiceset::modmatrix::EnvParams;
use crate::voiceset::{Voice, Voiceset, VoicesetView, VOICES};
use crate::{as_voice_index, find_free_voice, first_free, note_mip, plays, LOWEST_NOTE, NOTE_OFF, NOTE_ON};

verus! {

/// Offset of mip level `mip` inside the mip-map buffer of a table of `len` samples,
/// for tables with up to nine mip levels: 0 for level 0, `len * (2 - 2^(1 - mip))` for
/// levels 1 to 9, and 0 past level 9. The product is formed in `f32`, so beyond 2^24 it
/// is rounded (`f32_mip_offset`).
pub fn mip_offset(mip: usize, len: usize) -> (r: usize)
    ensures
        r == saturate(f32_mip_offset(mip as nat, len as nat, 9)),
{
    mip_offset_upto(mip, len, 9)
}

/// The state after a note-on: the lowest-numbered free voice takes the note, both its mip
/// levels are chosen from the note and both its envelopes restart. With no free voice
/// nothing changes.
pub open spec fn grain_note_on(s: VoicesetView, note: u8) -> VoicesetView {
    match first_free(s.voice) {
        None => s,
        Some(i) => VoicesetView {
            voice: s.voice.update(
                i as int,
                Voice {
                    wavetable_mip: note_mip(note),
                    grain_mip: note_mip(note),
                    ..s.voice[i as int].started(note)
                },
            ),
            vol_env: s.vol_env.restarted(i as int),
            mod_env: s.mod_env.restarted(i as int),
        },
    }
}

/// The state after a note-off: every voice playing the note loses it and is freed, and the
/// notes of its two envelopes are let go.
pub open spec fn grain_note_off(s: VoicesetView, note: u8) -> VoicesetView {
    VoicesetView {
        voice: Seq::new(
            s.voice.len(),
            |i: int|
                if plays(s.voice, i, note) {
                    Voice { note: None, ..s.voice[i].released() }
                } else {
                    s.voice[i]
                },
        ),
        vol_env: s.vol_env.let_go_where(|i: int| plays(s.voice, i, note)),
        mod_env: s.mod_env.let_go_where(|i: int| plays(s.voice, i, note)),
    }
}

/// A note-off of the note a note-on just started leaves that voice free and silent: it has
/// no note any more, and both its envelopes are released from the start.
pub proof fn lemma_grain_note_on_then_off(s: VoicesetView, note: u8)
    requires
        s.well_formed(),
        first_free(s.voice) is Some,
    ensures
        ({
            let i = first_free(s.voice)->0 as int;
            let after = grain_note_off(grain_note_on(s, note), note);
            &&& after.voice[i].available()
            &&& after.voice[i].note is None
            &&& !after.vol_env.note[i]
            &&& !after.mod_env.note[i]
        }),
{
    crate::lemma_first_free_is_lowest(s.voice);
}

/// A second note-off of the same note changes nothing: the voices it freed no longer hold
/// the note.
pub proof fn lemma_grain_note_off_idempotent(s: VoicesetView, note: u8)
    requires
        s.well_formed(),
    ensures
        grain_note_off(grain_note_off(s, note), note) == grain_note_off(s, note),
{
    let once = grain_note_off(s, note);
    let twice = grain_note_off(once, note);
    assert(twice.voice =~= once.voice);
    assert(twice.vol_env.note =~= once.vol_env.note);
    assert(twice.mod_env.note =~= once.mod_env.note);
}

/// What a note-on does, in terms of the voices and envelopes alone: the lowest-numbered free
/// voice `i` is taken for the note (busy, playing it, at time 0, its mip level one lower per
/// octave above note 17), both its envelopes start their attack with the note held, and every
/// other voice, every other envelope and the envelope timings stay as they were.
pub proof fn lemma_grain_note_on_starts_lowest_free_voice(s: VoicesetView, note: u8, i: int)
    requires
        s.well_formed(),
        note >= 17,
        0 <= i < VOICES,
        s.voice[i].free,
        forall|j: int| 0 <= j < i ==> !s.voice[j].free,
    ensures
        ({
            let t = grain_note_on(s, note);
            let v = t.voice[i];
            &&& !v.free
            &&& v.note == Some(note)
            &&& v.time == 0
            &&& v.wavetable_mip == ((note - 17) / 12) as usize
            &&& v.grain_mip == ((note - 17) / 12) as usize
            &&& t.vol_env.time[i] == 0 && t.vol_env.note[i]
            &&& t.mod_env.time[i] == 0 && t.mod_env.note[i]
            &&& t.voice.len() == s.voice.len()
            &&& t.vol_env.time.len() == s.vol_env.time.len()
            &&& t.vol_env.note.len() == s.vol_env.note.len()
            &&& t.mod_env.time.len() == s.mod_env.time.len()
            &&& t.mod_env.note.len() == s.mod_env.note.len()
            &&& t.vol_env.params == s.vol_env.params
            &&& t.mod_env.params == s.mod_env.params
            &&& forall|j: int| 0 <= j < s.voice.len() && j != i ==> t.voice[j] == s.voice[j]
            &&& forall|j: int| 0 <= j < s.vol_env.time.len() && j != i ==> t.vol_env.time[j] == s.vol_env.time[j]
            &&& forall|j: int| 0 <= j < s.vol_env.note.len() && j != i ==> t.vol_env.note[j] == s.vol_env.note[j]
            &&& forall|j: int| 0 <= j < s.mod_env.time.len() && j != i ==> t.mod_env.time[j] == s.mod_env.time[j]
            &&& forall|j: int| 0 <= j < s.mod_env.note.len() && j != i ==> t.mod_env.note[j] == s.mod_env.note[j]
        }),
{
    crate::lemma_first_free_is_lowest(s.voice);
    match first_free(s.voice) {
        Some(k) => {
            if (k as int) < i {
                assert(!s.voice[k as int].free);
            } else if (k as int) > i {
                assert(!s.voice[i].available());
            }
        },
        None => {
            assert(!s.voice[i].available());
        },
    }
}

/// With every voice busy a note-on changes nothing.
pub proof fn lemma_grain_note_on_all_busy(s: VoicesetView, note: u8)
    requires
        s.well_formed(),
        forall|j: int| 0 <= j < VOICES ==> !s.voice[j].free,
    ensures
        (grain_note_on(s, note)) == s,
{
    crate::lemma_first_free_is_lowest(s.voice);
    match first_free(s.voice) {
        Some(k) => {
            assert(!s.voice[k as int].free);
        },
        None => {},
    }
}

/// What a note-off does, in terms of the voices and envelopes alone: every voice playing the
/// note becomes free (and loses the note) and the notes of both its envelopes are let go;
/// every voice not playing it keeps its state and its envelopes keep theirs; no envelope time
/// or timing changes.
pub proof fn lemma_grain_note_off_releases_exactly_that_note(s: VoicesetView, note: u8)
    requires
        s.well_formed(),
    ensures
        ({
            let t = grain_note_off(s, note);
            &&& t.voice.len() == s.voice.len()
            &&& t.vol_env.note.len() == s.vol_env.note.len()
            &&& t.mod_env.note.len() == s.mod_env.note.len()
            &&& t.vol_env.time == s.vol_env.time
            &&& t.mod_env.time == s.mod_env.time
            &&& t.vol_env.params == s.vol_env.params
            &&& t.mod_env.params == s.mod_env.params
            &&& forall|j: int|
                0 <= j < VOICES && s.voice[j].note == Some(note) ==> {
                    let v = #[trigger] t.voice[j];
                    &&& v.free
                    &&& v.note is None
                    &&& v.time == s.voice[j].time
                    &&& v.wavetable_mip == s.voice[j].wavetable_mip
                    &&& v.grain_mip == s.voice[j].grain_mip
                    &&& !t.vol_env.note[j]
                    &&& !t.mod_env.note[j]
                }
            &&& forall|j: int|
                0 <= j < s.voice.len() && !(0 <= j < VOICES && s.voice[j].note == Some(note))
                    ==> #[trigger] t.voice[j] == s.voice[j]
            &&& forall|j: int|
                0 <= j < s.vol_env.note.len() && !(0 <= j < VOICES && s.voice[j].note == Some(note))
                    ==> #[trigger] t.vol_env.note[j] == s.vol_env.note[j]
            &&& forall|j: int|
                0 <= j < s.mod_env.note.len() && !(0 <= j < VOICES && s.voice[j].note == Some(note))
                    ==> #[trigger] t.mod_env.note[j] == s.mod_env.note[j]
        }),
{
}

/// The graintable synthesizer's reaction to MIDI.
pub struct Synth {
    pub voices: Voiceset,
}

impl View for Synth {
    type V = VoicesetView;

    open spec fn view(&self) -> VoicesetView {
        self.voices@
    }
}

impl Synth {
    /// Handles one MIDI message: 128 lets a note go, 144 starts one, anything else is
    /// ignored. Returns the voice a note-on started.
    pub fn process_midi_event(&mut self, data: [u8; 3]) -> (started: Option<usize>)
        requires
            old(self)@.well_formed(),
            data[0] == NOTE_ON ==> old(self)@.note_on_defined(data[1]),
        ensures
            final(self)@.well_formed(),
            data[0] == NOTE_OFF ==> final(self)@ == grain_note_off(old(self)@, data[1]) && started is None,
            data[0] == NOTE_ON ==> final(self)@ == grain_note_on(old(self)@, data[1]) && started
                == as_voice_index(first_free(old(self)@.voice)),
            data[0] != NOTE_OFF && data[0] != NOTE_ON ==> final(self)@ == old(self)@ && started is None,
    {
        if data[0] == NOTE_OFF {
            self.note_off(data[1]);
            None
        } else if data[0] == NOTE_ON {
            self.note_on(data[1])
        } else {
            None
        }
    }

    /// Starts `note` on the lowest-numbered free voice and returns that voice; with every
    /// voice busy the note is dropped.
    pub fn note_on(&mut self, note: u8) -> (started: Option<usize>)
        requires
            old(self)@.well_formed(),
            old(self)@.note_on_defined(note),
        ensures
            final(self)@ == grain_note_on(old(self)@, note),
            final(self)@.well_formed(),
            started == as_voice_index(first_free(old(self)@.voice)),
    {
        let i = match find_free_voice(&self.voices) {
            Some(i) => i,
            None => return None,
        };
        assert(first_free(self@.voice) == Some(i as nat));
        self.voices.vol_env.restart_env(i);
        self.voices.mod_env.restart_env(i);
        let mut v = self.voices.voice[i];
        v.use_voice(note);
        let mip = ((note - LOWEST_NOTE) / 12) as usize;
        v.wavetable_mip = mip;
        v.grain_mip = mip;
        self.voices.voice.set(i, v);
        Some(i)
    }

    /// Clears `note` from every voice playing it, frees those voices and lets their
    /// envelopes go into release.
    pub fn note_off(&mut self, note: u8)
        requires
            old(self)@.well_formed(),
        ensures
            final(self)@ == grain_note_off(old(self)@, note),
            final(self)@.well_formed(),
    {
        let ghost start = self@;
        let mut i: usize = 0;
        while i < VOICES
            invariant
                i <= VOICES,
                start == old(self)@,
                start.well_formed(),
                self.voices.voice@.len() == start.voice.len(),
                self.voices.vol_env.note@.len() == start.vol_env.note.len(),
                self.voices.mod_env.note@.len() == start.mod_env.note.len(),
                self.voices.vol_env.time@ == start.vol_env.time,
                self.voices.mod_env.time@ == start.mod_env.time,
                self.voices.vol_env.params == start.vol_env.params,
                self.voices.mod_env.params == start.mod_env.params,
                forall|k: int|
                    0 <= k < start.voice.len() ==> #[trigger] self.voices.voice@[k] == if k < i {
                        grain_note_off(start, note).voice[k]
                    } else {
                        start.voice[k]
                    },
                forall|k: int|
                    0 <= k < start.vol_env.note.len() ==> #[trigger] self.voices.vol_env.note@[k]
                        == if k < i {
                        grain_note_off(start, note).vol_env.note[k]
                    } else {
                        start.vol_env.note[k]
                    },
                forall|k: int|
                    0 <= k < start.mod_env.note.len() ==> #[trigger] self.voices.mod_env.note@[k]
                        == if k < i {
                        grain_note_off(start, note).mod_env.note[k]
                    } else {
                        start.mod_env.note[k]
                    },
            decreases VOICES - i,
        {
            if self.voices.voice[i].note == Some(note) {
                let mut v = self.voices.voice[i];
                v.note = None;
                v.free_voice();
                self.voices.voice.set(i, v);
                self.voices.vol_env.note.set(i, false);
                self.voices.mod_env.note.set(i, false);
            }
            i += 1;
        }
        assert(self.voices.voice@ =~= grain_note_off(start, note).voice);
        assert(self.voices.vol_env.note@ =~= grain_note_off(start, note).vol_env.note);
        assert(self.voices.mod_env.note@ =~= grain_note_off(start, note).mod_env.note);
    }
}

impl Default for Synth {
    /// Eight free voices with their envelopes at rest.
    fn default() -> (s: Synth)
        ensures
            s@.well_formed(),
            s.voices.voice.len() == VOICES,
            forall|i: int|
                0 <= i < VOICES ==> #[trigger] s@.voice[i].available() && s@.voice[i].note is None
                    && s@.voice[i].time == 0 && s@.voice[i].wavetable_mip == 0
                    && s@.voice[i].grain_mip == 0,
            s@.vol_env.time == Seq::new(8, |i: int| 100000usize),
            s@.vol_env.note == Seq::new(8, |i: int| false),
            s@.vol_env.params == (EnvParams { attack_time: 882, decay_time: 0, release_time: 882 }),
            s@.mod_env.time == Seq::new(8, |i: int| 100000usize),
            s@.mod_env.note == Seq::new(8, |i: int| false),
            s@.mod_env.params == (EnvParams { attack_time: 882, decay_time: 8820, release_time: 882 }),
    {
        Synth { voices: Voiceset::default() }
    }
}

} // verus!
