//! Recognition, intent analysis, translation and synthesis of speech.

pub mod audio;
pub mod builder;
pub mod events;
pub mod recognizer;
pub mod synthesizer;
