//! Parameters of the network analysis solves. Geometries are held as their
//! compact JSON, and decimal quantities as the decimal text sent.

use vstd::prelude::*;
use crate::routing::types::{
    DirectionsLength, DirectionsStyle, DirectionsTimeAttribute, ImpedanceAttribute, NALocation,
    OutputLine, RestrictionAttribute, TravelDirection, TravelMode, UTurnPolicy,
};

verus! {

/// Parameters of a route solve.
#[derive(Debug, Clone)]
pub struct RouteParameters {
    pub stops: Vec<NALocation>,
    pub barriers: Option<Vec<NALocation>>,
    pub polyline_barriers: Option<Vec<String>>,
    pub polygon_barriers: Option<Vec<String>>,
    pub return_directions: Option<bool>,
    pub return_routes: Option<bool>,
    pub return_stops: Option<bool>,
    pub return_barriers: Option<bool>,
    pub out_sr: Option<i32>,
    pub impedance_attribute: Option<ImpedanceAttribute>,
    pub restriction_attribute_names: Option<Vec<RestrictionAttribute>>,
    /// Attribute parameter values, as JSON text.
    pub attribute_parameter_values: Option<String>,
    pub use_hierarchy: Option<bool>,
    pub start_time: Option<i64>,
    pub uturn_policy: Option<UTurnPolicy>,
    pub directions_length_units: Option<DirectionsLength>,
    pub directions_time_attribute: Option<DirectionsTimeAttribute>,
    pub directions_style: Option<DirectionsStyle>,
    pub directions_language: Option<String>,
    pub preserve_first_stop: Option<bool>,
    pub preserve_last_stop: Option<bool>,
    pub find_best_sequence: Option<bool>,
    pub return_to_start: Option<bool>,
    pub use_time_windows: Option<bool>,
    pub accumulate_attribute_names: Option<Vec<String>>,
    pub output_lines: Option<OutputLine>,
    pub travel_mode: Option<TravelMode>,
}

/// Parameters of a service area solve.
#[derive(Debug, Clone)]
pub struct ServiceAreaParameters {
    pub facilities: Vec<NALocation>,
    /// Break values, each as the JSON number text sent.
    pub default_breaks: Vec<String>,
    pub barriers: Option<Vec<NALocation>>,
    pub polyline_barriers: Option<Vec<String>>,
    pub polygon_barriers: Option<Vec<String>>,
    pub travel_direction: Option<TravelDirection>,
    pub out_sr: Option<i32>,
    pub impedance_attribute: Option<ImpedanceAttribute>,
    pub merge_similar_polygon_ranges: Option<bool>,
    pub split_polygons_at_breaks: Option<bool>,
    pub trim_outer_polygon: Option<bool>,
    /// Trim distance, as the decimal text sent.
    pub trim_polygon_distance: Option<String>,
    pub time_of_day: Option<i64>,
    pub use_hierarchy: Option<bool>,
    pub uturn_policy: Option<UTurnPolicy>,
    pub restriction_attribute_names: Option<Vec<RestrictionAttribute>>,
    pub travel_mode: Option<TravelMode>,
    pub return_facilities: Option<bool>,
    pub return_barriers: Option<bool>,
    pub return_polygons: Option<bool>,
}

/// Parameters of a closest facility solve.
#[derive(Debug, Clone)]
pub struct ClosestFacilityParameters {
    pub incidents: Vec<NALocation>,
    pub facilities: Vec<NALocation>,
    pub default_target_facility_count: Option<i32>,
    pub barriers: Option<Vec<NALocation>>,
    pub polyline_barriers: Option<Vec<String>>,
    pub polygon_barriers: Option<Vec<String>>,
    pub travel_direction: Option<TravelDirection>,
    pub out_sr: Option<i32>,
    pub impedance_attribute: Option<ImpedanceAttribute>,
    pub accumulate_attribute_names: Option<Vec<String>>,
    pub return_directions: Option<bool>,
    pub return_routes: Option<bool>,
    pub return_facilities: Option<bool>,
    pub return_incidents: Option<bool>,
    pub return_barriers: Option<bool>,
    pub output_lines: Option<OutputLine>,
    pub time_of_day: Option<i64>,
    pub use_hierarchy: Option<bool>,
    pub uturn_policy: Option<UTurnPolicy>,
    pub restriction_attribute_names: Option<Vec<RestrictionAttribute>>,
    pub travel_mode: Option<TravelMode>,
}

/// Parameters of an origin-destination cost matrix.
#[derive(Debug, Clone)]
pub struct ODCostMatrixParameters {
    pub origins: Vec<NALocation>,
    pub destinations: Vec<NALocation>,
    pub barriers: Option<Vec<NALocation>>,
    pub polyline_barriers: Option<Vec<String>>,
    pub polygon_barriers: Option<Vec<String>>,
    pub travel_direction: Option<TravelDirection>,
    pub out_sr: Option<i32>,
    pub impedance_attribute: Option<ImpedanceAttribute>,
    pub accumulate_attribute_names: Option<Vec<String>>,
    pub time_of_day: Option<i64>,
    pub use_hierarchy: Option<bool>,
    pub uturn_policy: Option<UTurnPolicy>,
    pub restriction_attribute_names: Option<Vec<RestrictionAttribute>>,
    pub travel_mode: Option<TravelMode>,
}

} // verus!
