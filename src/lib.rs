//! A music-notation model and a compiler from a compact text notation to
//! fully resolved notation entries.
//!
//! - `pitch`: semitones, octaves, pitch classes and notes;
//! - `duration`: rhythmic values, their tweaks, meter and tempo;
//! - `scale`: keys, scales and the resolution of solfege syllables;
//! - `entry`: the primitive notation events;
//! - `fretted`: fretboards, hand shapes, picks and strums;
//! - `proto`: the top-level entry union;
//! - `line`, `slice`: sequences of shared entries and views of them;
//! - `context`, `shape`, `parser`: the parser and its context;
//! - `text`: byte-level scanning; `error`: failure kinds.

pub mod pitch;
pub mod duration;
pub mod scale;
pub mod entry;
pub mod error;
pub mod fretted;
pub mod proto;
pub mod line;
pub mod slice;
pub mod text;
pub mod context;
pub mod shape;
pub mod parser;
