//! Map service: export, tiles, legend, metadata and identify.

pub mod enums;
pub mod types;
pub mod export;
pub mod client;
