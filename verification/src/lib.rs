//! Verified core of a terminal synthesizer: key mapping, panel navigation,
//! arpeggiator sequencing, preset bookkeeping and WAV framing.

pub mod keyboard;
pub mod sound;
pub mod panels;
pub mod arpeggiator;
pub mod preset;
pub mod wav;
pub mod piano;
pub mod keymap;
pub mod voices;
pub mod effects;
pub mod held;
