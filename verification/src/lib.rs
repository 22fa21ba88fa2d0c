//! Verified core of a wavetable synthesizer: mip-map layout arithmetic,
//! polyphonic voice allocation driven by MIDI, and the ADSR envelope state machine.
pub mod graintable;
pub mod plugin;
pub mod resources;
pub mod voiceset;

use vstd::prelude::*;
use crate::voiceset::modmatrix::EnvParams;
use crate::voiceset::{Voice, Voiceset, VoicesetView, VOICES};

verus! {

/// MIDI status byte of a note-off message on channel 1.
pub const NOTE_OFF: u8 = 128;

/// MIDI status byte of a note-on message on channel 1.
pub const NOTE_ON: u8 = 144;

/// Lowest MIDI note for which a mip level is defined.
pub const LOWEST_NOTE: u8 = 17;

/// The lowest-numbered free voice at index `from` or above, among the first `VOICES`.
pub open spec fn first_free_from(voices: Seq<Voice>, from: nat) -> Option<nat>
    decreases VOICES - from,
{
    if from >= VOICES {
        None
    } else if voices[from as int].available() {
        Some(from)
    } else {
        first_free_from(voices, from + 1)
    }
}

/// The lowest-numbered free voice, if any.
pub open spec fn first_free(voices: Seq<Voice>) -> Option<nat> {
    first_free_from(voices, 0)
}

/// A voice number as an index.
pub open spec fn as_voice_index(i: Option<nat>) -> Option<usize> {
    match i {
        Some(i) => Some(i as usize),
        None => None,
    }
}

/// The wavetable mip level for `note`: one level down per octave above note 17.
pub open spec fn note_mip(note: u8) -> usize {
    ((note - LOWEST_NOTE) / 12) as usize
}

/// Whether voice `i` is playing `note` and is among the first `VOICES`.
pub open spec fn plays(voices: Seq<Voice>, i: int, note: u8) -> bool {
    0 <= i < VOICES && voices[i].note == Some(note)
}

impl VoicesetView {
    /// The state after a note-on: the lowest-numbered free voice takes the note, its mip
    /// level is chosen from the note and both its envelopes restart. With no free voice
    /// nothing changes.
    pub open spec fn note_on(self, note: u8) -> VoicesetView {
        match first_free(self.voice) {
            None => self,
            Some(i) => VoicesetView {
                voice: self.voice.update(
                    i as int,
                    Voice { wavetable_mip: note_mip(note), ..self.voice[i as int].started(note) },
                ),
                vol_env: self.vol_env.restarted(i as int),
                mod_env: self.mod_env.restarted(i as int),
            },
        }
    }

    /// The state after a note-off: every voice playing the note is freed and the notes of
    /// its two envelopes are let go.
    pub open spec fn note_off(self, note: u8) -> VoicesetView {
        VoicesetView {
            voice: Seq::new(
                self.voice.len(),
                |i: int|
                    if plays(self.voice, i, note) {
                        self.voice[i].released()
                    } else {
                        self.voice[i]
                    },
            ),
            vol_env: self.vol_env.let_go_where(|i: int| plays(self.voice, i, note)),
            mod_env: self.mod_env.let_go_where(|i: int| plays(self.voice, i, note)),
        }
    }

    /// Whether a note-on for `note` is defined here: the mip level of a note below 17
    /// cannot be computed, which only matters when a voice is free to take it.
    pub open spec fn note_on_defined(self, note: u8) -> bool {
        first_free(self.voice) is Some ==> note >= LOWEST_NOTE
    }
}

/// The voice a note-on picks is free, and every voice numbered below it is busy; when none
/// is picked, all `VOICES` voices are busy.
pub proof fn lemma_first_free_is_lowest(voices: Seq<Voice>)
    requires
        voices.len() >= VOICES,
    ensures
        first_free(voices) matches Some(i) ==> i < VOICES && voices[i as int].available() && forall|j: int|
            0 <= j < i ==> !#[trigger] voices[j].available(),
        first_free(voices) is None ==> forall|j: int| 0 <= j < VOICES ==> !#[trigger] voices[j].available(),
{
    lemma_first_free_from(voices, 0);
}

proof fn lemma_first_free_from(voices: Seq<Voice>, from: nat)
    requires
        voices.len() >= VOICES,
    ensures
        first_free_from(voices, from) matches Some(i) ==> from <= i < VOICES && voices[i as int].available()
            && forall|j: int| from <= j < i ==> !#[trigger] voices[j].available(),
        first_free_from(voices, from) is None ==> forall|j: int|
            from <= j < VOICES ==> !#[trigger] voices[j].available(),
    decreases VOICES - from,
{
    if from < VOICES {
        lemma_first_free_from(voices, from + 1);
    }
}

/// A note-on followed by a note-off of the same note gives the voice back: the voice the
/// note-on took is free again and both its envelopes are released.
pub proof fn lemma_note_on_then_off(s: VoicesetView, note: u8)
    requires
        s.well_formed(),
        first_free(s.voice) is Some,
    ensures
        ({
            let i = first_free(s.voice)->0 as int;
            let after = s.note_on(note).note_off(note);
            &&& after.voice[i].available()
            &&& after.voice[i].note == Some(note)
            &&& !after.vol_env.note[i]
            &&& !after.mod_env.note[i]
            &&& after.vol_env.time[i] == 0
            &&& after.mod_env.time[i] == 0
        }),
{
    lemma_first_free_is_lowest(s.voice);
}

/// A note-on never takes a busy voice: every voice that was playing keeps its state, and
/// so do both its envelopes.
pub proof fn lemma_note_on_spares_busy_voices(s: VoicesetView, note: u8, j: int)
    requires
        s.well_formed(),
        0 <= j < VOICES,
        !s.voice[j].available(),
    ensures
        s.note_on(note).voice[j] == s.voice[j],
        s.note_on(note).vol_env.time[j] == s.vol_env.time[j],
        s.note_on(note).vol_env.note[j] == s.vol_env.note[j],
        s.note_on(note).mod_env.time[j] == s.mod_env.time[j],
        s.note_on(note).mod_env.note[j] == s.mod_env.note[j],
{
    lemma_first_free_is_lowest(s.voice);
}

/// A note-off leaves alone every voice that is not playing that note, and the envelope
/// times of all voices.
pub proof fn lemma_note_off_spares_other_notes(s: VoicesetView, note: u8, j: int)
    requires
        s.well_formed(),
        0 <= j < VOICES,
        s.voice[j].note != Some(note),
    ensures
        s.note_off(note).voice[j] == s.voice[j],
        s.note_off(note).vol_env.note[j] == s.vol_env.note[j],
        s.note_off(note).mod_env.note[j] == s.mod_env.note[j],
        s.note_off(note).vol_env.time == s.vol_env.time,
        s.note_off(note).mod_env.time == s.mod_env.time,
{
}

/// A second note-off of the same note changes nothing more.
pub proof fn lemma_note_off_idempotent(s: VoicesetView, note: u8)
    requires
        s.well_formed(),
    ensures
        s.note_off(note).note_off(note) == s.note_off(note),
{
    let once = s.note_off(note);
    let twice = once.note_off(note);
    assert(twice.voice =~= once.voice);
    assert(twice.vol_env.note =~= once.vol_env.note);
    assert(twice.mod_env.note =~= once.mod_env.note);
}

/// What a note-on does, in terms of the voices and envelopes alone: the lowest-numbered free
/// voice `i` is taken for the note (busy, playing it, at time 0, its mip level one lower per
/// octave above note 17), both its envelopes start their attack with the note held, and every
/// other voice, every other envelope and the envelope timings stay as they were.
pub proof fn lemma_note_on_starts_lowest_free_voice(s: VoicesetView, note: u8, i: int)
    requires
        s.well_formed(),
        note >= 17,
        0 <= i < VOICES,
        s.voice[i].free,
        forall|j: int| 0 <= j < i ==> !s.voice[j].free,
    ensures
        ({
            let t = s.note_on(note);
            let v = t.voice[i];
            &&& !v.free
            &&& v.note == Some(note)
            &&& v.time == 0
            &&& v.wavetable_mip == ((note - 17) / 12) as usize
            &&& v.grain_mip == s.voice[i].grain_mip
            &&& t.vol_env.time[i] == 0 && t.vol_env.note[i]
            &&& t.mod_env.time[i] == 0 && t.mod_env.note[i]
            &&& t.voice.len() == s.voice.len()
            &&& t.vol_env.time.len() == s.vol_env.time.len()
            &&& t.vol_env.note.len() == s.vol_env.note.len()
            &&& t.mod_env.time.len() == s.mod_env.time.len()
            &&& t.mod_env.note.len() == s.mod_env.note.len()
            &&& t.vol_env.params == s.vol_env.params
            &&& t.mod_env.params == s.mod_env.params
            &&& forall|j: int| 0 <= j < s.voice.len() && j != i ==> t.voice[j] == s.voice[j]
            &&& forall|j: int| 0 <= j < s.vol_env.time.len() && j != i ==> t.vol_env.time[j] == s.vol_env.time[j]
            &&& forall|j: int| 0 <= j < s.vol_env.note.len() && j != i ==> t.vol_env.note[j] == s.vol_env.note[j]
            &&& forall|j: int| 0 <= j < s.mod_env.time.len() && j != i ==> t.mod_env.time[j] == s.mod_env.time[j]
            &&& forall|j: int| 0 <= j < s.mod_env.note.len() && j != i ==> t.mod_env.note[j] == s.mod_env.note[j]
        }),
{
    crate::lemma_first_free_is_lowest(s.voice);
    match first_free(s.voice) {
        Some(k) => {
            if (k as int) < i {
                assert(!s.voice[k as int].free);
            } else if (k as int) > i {
                assert(!s.voice[i].available());
            }
        },
        None => {
            assert(!s.voice[i].available());
        },
    }
}

/// With every voice busy a note-on changes nothing.
pub proof fn lemma_note_on_all_busy(s: VoicesetView, note: u8)
    requires
        s.well_formed(),
        forall|j: int| 0 <= j < VOICES ==> !s.voice[j].free,
    ensures
        (s.note_on(note)) == s,
{
    crate::lemma_first_free_is_lowest(s.voice);
    match first_free(s.voice) {
        Some(k) => {
            assert(!s.voice[k as int].free);
        },
        None => {},
    }
}

/// What a note-off does, in terms of the voices and envelopes alone: every voice playing the
/// note becomes free (and keeps its note) and the notes of both its envelopes are let go;
/// every voice not playing it keeps its state and its envelopes keep theirs; no envelope time
/// or timing changes.
pub proof fn lemma_note_off_releases_exactly_that_note(s: VoicesetView, note: u8)
    requires
        s.well_formed(),
    ensures
        ({
            let t = s.note_off(note);
            &&& t.voice.len() == s.voice.len()
            &&& t.vol_env.note.len() == s.vol_env.note.len()
            &&& t.mod_env.note.len() == s.mod_env.note.len()
            &&& t.vol_env.time == s.vol_env.time
            &&& t.mod_env.time == s.mod_env.time
            &&& t.vol_env.params == s.vol_env.params
            &&& t.mod_env.params == s.mod_env.params
            &&& forall|j: int|
                0 <= j < VOICES && s.voice[j].note == Some(note) ==> {
                    let v = #[trigger] t.voice[j];
                    &&& v.free
                    &&& v.note == Some(note)
                    &&& v.time == s.voice[j].time
                    &&& v.wavetable_mip == s.voice[j].wavetable_mip
                    &&& v.grain_mip == s.voice[j].grain_mip
                    &&& !t.vol_env.note[j]
                    &&& !t.mod_env.note[j]
                }
            &&& forall|j: int|
                0 <= j < s.voice.len() && !(0 <= j < VOICES && s.voice[j].note == Some(note))
                    ==> #[trigger] t.voice[j] == s.voice[j]
            &&& forall|j: int|
                0 <= j < s.vol_env.note.len() && !(0 <= j < VOICES && s.voice[j].note == Some(note))
                    ==> #[trigger] t.vol_env.note[j] == s.vol_env.note[j]
            &&& forall|j: int|
                0 <= j < s.mod_env.note.len() && !(0 <= j < VOICES && s.voice[j].note == Some(note))
                    ==> #[trigger] t.mod_env.note[j] == s.mod_env.note[j]
        }),
{
}

/// Looks for the lowest-numbered free voice.
pub(crate) fn find_free_voice(voices: &Voiceset) -> (r: Option<usize>)
    requires
        voices@.well_formed(),
    ensures
        r is None <==> first_free(voices@.voice) is None,
        r matches Some(i) ==> i < VOICES && first_free(voices@.voice) == Some(i as nat),
{
    let mut i: usize = 0;
    while i < VOICES && !voices.voice[i].is_free()
        invariant
            i <= VOICES,
            voices@.well_formed(),
            first_free_from(voices@.voice, 0) == first_free_from(voices@.voice, i as nat),
        decreases VOICES - i,
    {
        i += 1;
    }
    if i >= VOICES {
        None
    } else {
        Some(i)
    }
}

/// The synthesizer's reaction to MIDI: which voices sound and how their envelopes run.
pub struct Synth {
    pub voices: Voiceset,
}

impl View for Synth {
    type V = VoicesetView;

    open spec fn view(&self) -> VoicesetView {
        self.voices@
    }
}

impl Synth {
    /// Handles one MIDI message: 128 lets a note go, 144 starts one, anything else is
    /// ignored. Returns the voice a note-on started.
    pub fn process_midi_event(&mut self, data: [u8; 3]) -> (started: Option<usize>)
        requires
            old(self)@.well_formed(),
            data[0] == NOTE_ON ==> old(self)@.note_on_defined(data[1]),
        ensures
            final(self)@.well_formed(),
            data[0] == NOTE_OFF ==> final(self)@ == old(self)@.note_off(data[1]) && started is None,
            data[0] == NOTE_ON ==> final(self)@ == old(self)@.note_on(data[1]) && started
                == as_voice_index(first_free(old(self)@.voice)),
            data[0] != NOTE_OFF && data[0] != NOTE_ON ==> final(self)@ == old(self)@ && started is None,
    {
        if data[0] == NOTE_OFF {
            self.note_off(data[1]);
            None
        } else if data[0] == NOTE_ON {
            self.note_on(data[1])
        } else {
            None
        }
    }

    /// Starts `note` on the lowest-numbered free voice and returns that voice; with every
    /// voice busy the note is dropped.
    pub fn note_on(&mut self, note: u8) -> (started: Option<usize>)
        requires
            old(self)@.well_formed(),
            old(self)@.note_on_defined(note),
        ensures
            final(self)@ == old(self)@.note_on(note),
            final(self)@.well_formed(),
            started == as_voice_index(first_free(old(self)@.voice)),
    {
        let i = match find_free_voice(&self.voices) {
            Some(i) => i,
            None => return None,
        };
        assert(first_free(self@.voice) == Some(i as nat));
        let mut v = self.voices.voice[i];
        v.use_voice(note);
        v.wavetable_mip = ((note - LOWEST_NOTE) / 12) as usize;
        self.voices.voice.set(i, v);
        self.voices.vol_env.restart_env(i);
        self.voices.mod_env.restart_env(i);
        Some(i)
    }

    /// Frees every voice playing `note` and lets its envelopes go into release.
    pub fn note_off(&mut self, note: u8)
        requires
            old(self)@.well_formed(),
        ensures
            final(self)@ == old(self)@.note_off(note),
            final(self)@.well_formed(),
    {
        let ghost start = self@;
        let mut i: usize = 0;
        while i < VOICES
            invariant
                i <= VOICES,
                start == old(self)@,
                start.well_formed(),
                self.voices.voice@.len() == start.voice.len(),
                self.voices.vol_env.note@.len() == start.vol_env.note.len(),
                self.voices.mod_env.note@.len() == start.mod_env.note.len(),
                self.voices.vol_env.time@ == start.vol_env.time,
                self.voices.mod_env.time@ == start.mod_env.time,
                self.voices.vol_env.params == start.vol_env.params,
                self.voices.mod_env.params == start.mod_env.params,
                forall|k: int|
                    0 <= k < start.voice.len() ==> #[trigger] self.voices.voice@[k] == if k < i {
                        start.note_off(note).voice[k]
                    } else {
                        start.voice[k]
                    },
                forall|k: int|
                    0 <= k < start.vol_env.note.len() ==> #[trigger] self.voices.vol_env.note@[k]
                        == if k < i {
                        start.note_off(note).vol_env.note[k]
                    } else {
                        start.vol_env.note[k]
                    },
                forall|k: int|
                    0 <= k < start.mod_env.note.len() ==> #[trigger] self.voices.mod_env.note@[k]
                        == if k < i {
                        start.note_off(note).mod_env.note[k]
                    } else {
                        start.mod_env.note[k]
                    },
            decreases VOICES - i,
        {
            if self.voices.voice[i].note == Some(note) {
                let mut v = self.voices.voice[i];
                v.free_voice();
                self.voices.voice.set(i, v);
                self.voices.vol_env.note.set(i, false);
                self.voices.mod_env.note.set(i, false);
            }
            i += 1;
        }
        assert(self.voices.voice@ =~= start.note_off(note).voice);
        assert(self.voices.vol_env.note@ =~= start.note_off(note).vol_env.note);
        assert(self.voices.mod_env.note@ =~= start.note_off(note).mod_env.note);
    }
}

impl Default for Synth {
    /// Eight free voices with their envelopes at rest.
    fn default() -> (s: Synth)
        ensures
            s@.well_formed(),
            s.voices.voice.len() == VOICES,
            forall|i: int|
                0 <= i < VOICES ==> #[trigger] s@.voice[i].available() && s@.voice[i].note is None
                    && s@.voice[i].time == 0 && s@.voice[i].wavetable_mip == 0
                    && s@.voice[i].grain_mip == 0,
            s@.vol_env.time == Seq::new(8, |i: int| 100000usize),
            s@.vol_env.note == Seq::new(8, |i: int| false),
            s@.vol_env.params == (EnvParams { attack_time: 882, decay_time: 0, release_time: 882 }),
            s@.mod_env.time == Seq::new(8, |i: int| 100000usize),
            s@.mod_env.note == Seq::new(8, |i: int| false),
            s@.mod_env.params == (EnvParams { attack_time: 882, decay_time: 8820, release_time: 882 }),
    {
        Synth { voices: Voiceset::default() }
    }
}

} // verus!
