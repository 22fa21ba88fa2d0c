//! The voices of the synthesizer and their envelopes.
pub mod interp;
pub mod modmatrix;

use vstd::prelude::*;
use crate::voiceset::interp::{f32_mip_offset, mip_offset_upto, saturate};
use crate::voiceset::modmatrix::{Env, EnvParams, EnvView};

verus! {

/// Number of voices that can sound at once.
pub const VOICES: usize = 8;

/// Offset of mip level `mip` inside the mip-map buffer of a table of `len` samples,
/// for tables with up to nine mip levels: 0 for level 0, `len * (2 - 2^(1 - mip))` for
/// levels 1 to 9, and 0 past level 9. The product is formed in `f32`, so beyond 2^24 it
/// is rounded (`f32_mip_offset`).
pub fn mip_offset(mip: usize, len: usize) -> (r: usize)
    ensures
        r == saturate(f32_mip_offset(mip as nat, len as nat, 9)),
{
    mip_offset_upto(mip, len, 9)
}

/// One voice of the synthesizer: whether it is free, and the note it plays.
#[derive(Clone, Copy, Debug)]
pub struct Voice {
    /// Whether the voice is free to take a new note.
    pub free: bool,
    /// The note last given to this voice.
    pub note: Option<u8>,
    /// Samples since the voice was started.
    pub time: usize,
    /// Mip level the wavetable oscillators read from, chosen from the note.
    pub wavetable_mip: usize,
    /// Mip level the grain oscillator reads from, chosen from the note.
    pub grain_mip: usize,
}

impl Voice {
    /// Whether the voice is free to take a new note.
    pub open spec fn available(self) -> bool {
        self.free
    }

    /// This voice taken for `note`.
    pub open spec fn started(self, note: u8) -> Voice {
        Voice { free: false, note: Some(note), time: 0, ..self }
    }

    /// This voice given back.
    pub open spec fn released(self) -> Voice {
        Voice { free: true, ..self }
    }

    /// Taking a voice for a note makes it busy, gives it the note and restarts its time;
    /// giving it back frees it and changes nothing else.
    pub proof fn lemma_take_and_give_back(self, note: u8)
        ensures
            !self.started(note).free,
            self.started(note).note == Some(note),
            self.started(note).time == 0,
            self.started(note).wavetable_mip == self.wavetable_mip,
            self.started(note).grain_mip == self.grain_mip,
            self.released().free,
            self.released().note == self.note,
            self.released().time == self.time,
            self.released().wavetable_mip == self.wavetable_mip,
            self.released().grain_mip == self.grain_mip,
    {
    }

    pub fn is_free(&self) -> (r: bool)
        ensures
            r == self.available(),
    {
        self.free
    }

    /// Takes the voice for `note`, starting it from time 0.
    pub fn use_voice(&mut self, note: u8)
        ensures
            *final(self) == old(self).started(note),
    {
        self.free = false;
        self.note = Some(note);
        self.time = 0;
    }

    /// Gives the voice back; it keeps its note until it is taken again.
    pub fn free_voice(&mut self)
        ensures
            *final(self) == old(self).released(),
    {
        self.free = true;
    }
}

impl Default for Voice {
    /// A free voice with no note, reading from mip level 0.
    fn default() -> (v: Voice)
        ensures
            v.available(),
            v.note is None,
            v.time == 0,
            v.wavetable_mip == 0,
            v.grain_mip == 0,
    {
        Voice { free: true, note: None, time: 0, wavetable_mip: 0, grain_mip: 0 }
    }
}

/// The polyphony state of the synthesizer: its voices and their two envelope banks.
pub struct Voiceset {
    pub voice: Vec<Voice>,
    /// Envelope that shapes the volume of each voice.
    pub vol_env: Env,
    /// Envelope that modulates the filter of each voice.
    pub mod_env: Env,
}

/// The state of a voice set as mathematical values.
pub ghost struct VoicesetView {
    pub voice: Seq<Voice>,
    pub vol_env: EnvView,
    pub mod_env: EnvView,
}

impl View for Voiceset {
    type V = VoicesetView;

    open spec fn view(&self) -> VoicesetView {
        VoicesetView { voice: self.voice@, vol_env: self.vol_env@, mod_env: self.mod_env@ }
    }
}

impl VoicesetView {
    /// Every voice index below `VOICES` is backed by a voice and by both envelopes.
    pub open spec fn well_formed(self) -> bool {
        &&& self.voice.len() >= VOICES
        &&& self.vol_env.time.len() >= VOICES
        &&& self.vol_env.note.len() >= VOICES
        &&& self.mod_env.time.len() >= VOICES
        &&& self.mod_env.note.len() >= VOICES
    }
}

impl Default for Voiceset {
    /// Eight free voices; the volume envelope has no decay, the modulation envelope the
    /// default timing.
    fn default() -> (v: Voiceset)
        ensures
            v@.well_formed(),
            v.voice.len() == VOICES,
            forall|i: int|
                0 <= i < VOICES ==> #[trigger] v.voice[i].available() && v.voice[i].note is None
                    && v.voice[i].time == 0 && v.voice[i].wavetable_mip == 0
                    && v.voice[i].grain_mip == 0,
            v.vol_env.time@ == Seq::new(8, |i: int| 100000usize),
            v.vol_env.note@ == Seq::new(8, |i: int| false),
            v.vol_env.params == (EnvParams { attack_time: 882, decay_time: 0, release_time: 882 }),
            v.mod_env.time@ == Seq::new(8, |i: int| 100000usize),
            v.mod_env.note@ == Seq::new(8, |i: int| false),
            v.mod_env.params == (EnvParams { attack_time: 882, decay_time: 8820, release_time: 882 }),
    {
        let mut vol_env = Env::default();
        vol_env.params = EnvParams { decay_time: 0, ..EnvParams::default() };
        let voice: Vec<Voice> = vec![Voice::default(); VOICES];
        Voiceset { voice, vol_env, mod_env: Env::default() }
    }
}

} // verus!
