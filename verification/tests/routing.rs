use arcgis::http::RequestBody;
use arcgis::routing::client::{RoutingServiceClient, features_text};
use arcgis::routing::params::RouteParameters;
use arcgis::routing::results::{CostSlot, cost_indexes, cost_slot, matrix_key_id};
use arcgis::routing::types::{CurbApproach, NALocation, TravelDirection, stop_sequence};

fn route_params(stops: Vec<NALocation>) -> RouteParameters {
    RouteParameters {
        stops,
        barriers: None,
        polyline_barriers: None,
        polygon_barriers: None,
        return_directions: Some(true),
        return_routes: None,
        return_stops: Some(false),
        return_barriers: None,
        out_sr: Some(4326),
        impedance_attribute: None,
        restriction_attribute_names: None,
        attribute_parameter_values: None,
        use_hierarchy: None,
        start_time: None,
        uturn_policy: None,
        directions_length_units: None,
        directions_time_attribute: None,
        directions_style: None,
        directions_language: None,
        preserve_first_stop: None,
        preserve_last_stop: None,
        find_best_sequence: None,
        return_to_start: None,
        use_time_windows: None,
        accumulate_attribute_names: None,
        output_lines: None,
        travel_mode: None,
    }
}

#[test]
fn locations_render_as_a_feature_set() {
    let a = NALocation::new("{\"x\":1,\"y\":2}".to_string()).with_name("Stop \"A\"".to_string());
    let b = NALocation::new("{\"x\":3,\"y\":4}".to_string());
    assert_eq!(
        features_text(&vec![a, b]),
        "{\"features\":[{\"attributes\":{\"Name\":\"Stop \\\"A\\\"\"},\"geometry\":{\"x\":1,\"y\":2}},{\"attributes\":{\"Name\":\"\"},\"geometry\":{\"x\":3,\"y\":4}}]}"
    );
    assert_eq!(features_text(&Vec::new()), "{\"features\":[]}");
}

#[test]
fn route_request_form() {
    let c = RoutingServiceClient::new("https://h/NAServer/Route".to_string());
    let p = route_params(vec![NALocation::new("{}".to_string())]);
    let r = c.solve_route_request(&p, &Some("tok".to_string()));
    assert_eq!(r.url, "https://h/NAServer/Route/solve");
    match r.body {
        RequestBody::Form(f) => {
            let keys: Vec<&str> = f.iter().map(|(k, _)| k.as_str()).collect();
            assert_eq!(keys, vec!["stops", "f", "returnDirections", "returnStops", "outSR", "token"]);
            assert_eq!(f[2].1, "true");
            assert_eq!(f[3].1, "false");
            assert_eq!(f[4].1, "4326");
        }
        _ => panic!("expected a form"),
    }
}

#[test]
fn curb_approach_codes_round_trip() {
    for c in [CurbApproach::EitherSide, CurbApproach::RightSide, CurbApproach::LeftSide, CurbApproach::NoUTurn] {
        assert_eq!(CurbApproach::from_code(c.code()), Some(c));
    }
    assert_eq!(CurbApproach::from_code(2), Some(CurbApproach::LeftSide));
    assert_eq!(CurbApproach::from_code(4), None);
    assert_eq!(CurbApproach::from_code(-1), None);
    assert_eq!(CurbApproach::NoUTurn.as_param(), "esriNANoUTurn");
    assert_eq!(TravelDirection::ToFacility.as_param(), "esriNATravelDirectionToFacility");
}

#[test]
fn later_cost_attributes_win_and_only_those_with_values_count() {
    let names: Vec<String> = ["TravelTime", "Miles", "Minutes", "Kilometers"].iter().map(|s| s.to_string()).collect();
    assert_eq!(cost_indexes(&names, 4), (Some(2), Some(3)));
    assert_eq!(cost_indexes(&names, 2), (Some(0), Some(1)));
    assert_eq!(cost_indexes(&names, 0), (None, None));
    assert_eq!(cost_slot("Minutes"), Some(CostSlot::Time));
    assert_eq!(cost_slot("Feet"), None);
}

#[test]
fn matrix_keys_and_sequences() {
    assert_eq!(matrix_key_id("costAttributeNames"), None);
    assert_eq!(matrix_key_id("12"), Some(Some(12)));
    assert_eq!(matrix_key_id("-3"), Some(Some(-3)));
    assert_eq!(matrix_key_id("x1"), Some(None));
    assert_eq!(stop_sequence(4294967297), 1);
    assert_eq!(stop_sequence(-1), -1);
}
