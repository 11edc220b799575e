//! Vector tile service: tiles, style, fonts and sprites.

pub mod types;
pub mod client;
