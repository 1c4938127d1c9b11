//! Conversion of Japanese kana text into the sets of Latin keystroke
//! sequences ("romaji") that a typing host may accept for each syllable.
//!
//! The library scans its input left to right, resolving two-character
//! contracted syllables before single characters and applying the positional
//! rules for the geminate marker and the moraic nasal. Every public operation
//! is total: characters outside the syllable table pass through unchanged.

pub mod engine;
pub mod laws;
pub mod record;
pub mod table;

pub use engine::WasmTypingCore;
pub use record::RomajiData;
