//! Rendering engine for a two-sided powerline shell prompt.
//!
//! Styled text fragments (`Chunk`) are joined into capped `Segment`s, whose
//! renderings make up the left and right prompts; the inline styling codes
//! are then bracketed with shell-specific zero-width markers.

pub mod assembly;
pub mod constants;
pub mod misc;
pub mod prompt;
pub mod setup;
pub mod style;
pub mod text;
