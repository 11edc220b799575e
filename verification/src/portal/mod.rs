//! Portal (ArcGIS Online / Portal for ArcGIS) content, groups, sharing,
//! publishing and service definitions.

pub mod service_definition;
pub mod definitions;
pub mod validation;
pub mod messages;
pub mod types;
pub mod client;
pub mod publishing;
