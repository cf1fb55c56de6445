//! Four-voice chords for building a progression by hand: a generator that
//! draws each voice inside its choral range, the names of pitches and chords,
//! the menu of the interactive session, and the sample clock of the tone
//! synthesizer.

pub mod answer;
pub mod chord;
pub mod clock;
pub mod generator;
pub mod notation;
pub mod session;
pub mod source;
