//! Verified core of an ArcGIS REST client: request construction, response
//! classification, identifiers and service-definition validation.

pub mod text;
pub mod parse;
pub mod json;
pub mod error;
pub mod http;
pub mod query;
pub mod esri;
pub mod ids;
pub mod geometry;
pub mod portal;
pub mod geoprocessing;
pub mod map;
pub mod routing;
pub mod version_management;
pub mod vector_tile;
pub mod places;
pub mod image;
