//! The filename parser: an ordered pipeline of patterns over the file stem.

pub mod basic;
pub mod filename;
pub mod patterns;

pub use filename::{parsed, ParsedMedia, ParsedMediaView, Parser};
pub use patterns::MediaHint;
