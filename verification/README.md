# arcorrust

A terminal synthesizer: play notes on the computer keyboard, shape the sound
with oscillators, a filter, envelopes, an LFO and a chain of effects, run an
arpeggiator, load and save presets, and record to WAV.

The crate is a Verus library with an ordinary Rust program around it.

- `src/` is the verified library. Every function carries a contract that
  Verus proves; the public proof functions named `law_*` state properties that
  span several functions.
  - `keyboard`: which key plays which MIDI note, and note names.
  - `keymap`: which command a key press or release stands for.
  - `panels`: panel navigation, parameter selection and what changing a
    parameter does.
  - `sound`: the selector types of the engine and the set of LFO destinations.
  - `arpeggiator`: held notes, patterns, octave expansion and stepping.
  - `voices`: which voice a new note takes and which a note-off releases.
  - `held`: notes held on the keyboard and their auto-release.
  - `effects`: delay-line positions, sample-and-hold counting, phaser stage
    counts, stepped settings and the pink-noise row schedule.
  - `preset`: the preset list kept in name order, the selection in it, and
    preset file names.
  - `piano`: where the keys of the on-screen piano go.
  - `wav`: the bytes of a recording's WAV file and its file name.
- `app/` is the program: the audio engine and effects (floating point, cpal),
  the terminal interface (ratatui, crossterm), preset files (serde_json) and
  the event loop. It asks the library for every decision listed above.
- `tests/` runs the library on concrete values.
