# wavetable

A polyphonic wavetable synthesizer, split in two.

`src/` is the verified library. It decides everything that is not sample
arithmetic:

- `voiceset::interp` — where each waveform of each mip level lives in the mip buffer
  (`mip_offset`, `WaveTable` layout, the wrap-around taps of the interpolation
  coefficients);
- `voiceset::modmatrix` — the ADSR envelope state machine (`Env::next` reports the segment
  and position of every sample);
- `voiceset` and the crate root — voices and their allocation on MIDI note-on/note-off;
- `graintable` — the same for the graintable variant, and its parameter names;
- `plugin` — the parameter names and units the plugin shows;
- `resources` — combining built-in and found wavetables.

`app/` is ordinary Rust: WAV loading (hound), preset directories (dirs), the
floating-point signal processing (oversampling, mip mapping, interpolation, envelope
curves), parameters shared with the host, and the VST plugin (vst).
