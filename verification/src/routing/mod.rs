//! Network analysis: routes, service areas, closest facilities and cost
//! matrices.

pub mod types;
pub mod params;
pub mod client;
pub mod results;
