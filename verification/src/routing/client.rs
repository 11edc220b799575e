//! Solve requests of a network analysis service.

use vstd::prelude::*;
use crate::http::{
    ApiRequest, f_json, form_post, form_value, lemma_form_value_append, lemma_form_value_pair,
    opt_pair, pair, push_opt, push_pair,
};
use crate::json::{array_text, json_array, json_object, json_quote, json_string, render_object};
use crate::query::{no_pairs, opt_bool, opt_i32, push_opt_bool, push_opt_i32, push_opt_str, opt_str};
use crate::routing::params::{
    ClosestFacilityParameters, ODCostMatrixParameters, RouteParameters, ServiceAreaParameters,
};
use crate::routing::types::{NALocation, TravelDirection};
use crate::text::concat2;

verus! {

/// Client for one network analysis service, identified by its base URL.
#[derive(Debug, Clone)]
pub struct RoutingServiceClient {
    base_url: String,
}

/// The name of a location, or empty text when it has none.
pub open spec fn name_or_empty(n: Option<String>) -> Seq<char> {
    match n {
        Some(s) => s@,
        None => Seq::empty(),
    }
}

/// A location as a feature: `{"attributes":{"Name":<name>},"geometry":<geometry>}`
/// (members in the key order a JSON map keeps).
pub open spec fn feature_json(l: NALocation) -> Seq<char> {
    json_object(
        seq![
            ("attributes"@, json_object(seq![("Name"@, json_quote(name_or_empty(l.name)))])),
            ("geometry"@, l.geometry@),
        ],
    )
}

/// Locations as a feature set: `{"features":[<feature>,...]}`.
pub open spec fn features_json(ls: Seq<NALocation>) -> Seq<char> {
    json_object(seq![("features"@, json_array(ls.map_values(|l: NALocation| feature_json(l))))])
}

fn feature_text(l: &NALocation) -> (r: String)
    ensures
        r@ == feature_json(*l),
{
    let name = match &l.name {
        Some(n) => json_string(n.as_str()),
        None => json_string(""),
    };
    proof {
        reveal_strlit("");
    }
    let mut attrs = no_pairs();
    push_pair(&mut attrs, "Name", name.as_str());
    let inner = render_object(&attrs);
    let mut members = no_pairs();
    push_pair(&mut members, "attributes", inner.as_str());
    push_pair(&mut members, "geometry", l.geometry.as_str());
    proof {
        assert(attrs.deep_view() =~= seq![("Name"@, json_quote(name_or_empty(l.name)))]);
        assert(members.deep_view() =~= seq![
            ("attributes"@, json_object(seq![("Name"@, json_quote(name_or_empty(l.name)))])),
            ("geometry"@, l.geometry@),
        ]);
    }
    render_object(&members)
}

/// Renders locations as a feature set.
pub fn features_text(ls: &Vec<NALocation>) -> (r: String)
    ensures
        r@ == features_json(ls@),
{
    let mut items: Vec<String> = Vec::new();
    let mut i: usize = 0;
    while i < ls.len()
        invariant
            i <= ls@.len(),
            items.deep_view().len() == i,
            forall|k: int| 0 <= k < i ==> #[trigger] items.deep_view()[k] == feature_json(ls@[k]),
        decreases ls@.len() - i,
    {
        let ghost before = items.deep_view();
        let t = feature_text(&ls[i]);
        let ghost tv = t@;
        items.push(t);
        proof {
            assert(items.deep_view() =~= before.push(tv));
        }
        i = i + 1;
    }
    proof {
        assert(items.deep_view() =~= ls@.map_values(|l: NALocation| feature_json(l)));
    }
    let arr = array_text(&items);
    let mut members = no_pairs();
    push_pair(&mut members, "features", arr.as_str());
    proof {
        assert(members.deep_view() =~= seq![
            ("features"@, json_array(ls@.map_values(|l: NALocation| feature_json(l)))),
        ]);
    }
    render_object(&members)
}

/// The form of a route solve.
pub open spec fn route_form(p: RouteParameters, token: Option<Seq<char>>) -> Seq<
    (Seq<char>, Seq<char>),
> {
    pair("stops"@, features_json(p.stops@)) + f_json() + opt_pair(
        "returnDirections"@,
        opt_bool(p.return_directions),
    ) + opt_pair("returnRoutes"@, opt_bool(p.return_routes)) + opt_pair(
        "returnStops"@,
        opt_bool(p.return_stops),
    ) + opt_pair("outSR"@, opt_i32(p.out_sr)) + opt_pair("token"@, token)
}

/// The form of a service area solve.
pub open spec fn service_area_form(p: ServiceAreaParameters, token: Option<Seq<char>>) -> Seq<
    (Seq<char>, Seq<char>),
> {
    pair("facilities"@, features_json(p.facilities@)) + pair(
        "defaultBreaks"@,
        json_array(p.default_breaks.deep_view()),
    ) + f_json() + opt_pair("outSR"@, opt_i32(p.out_sr)) + opt_pair(
        "returnPolygons"@,
        opt_bool(p.return_polygons),
    ) + opt_pair("token"@, token)
}

/// The `travelDirection` value of a closest facility solve.
pub open spec fn travel_direction_param(d: Option<TravelDirection>) -> Option<Seq<char>> {
    match d {
        Some(x) => Some(x.wire_name()),
        None => None,
    }
}

/// The form of a closest facility solve.
pub open spec fn closest_facility_form(
    p: ClosestFacilityParameters,
    token: Option<Seq<char>>,
) -> Seq<(Seq<char>, Seq<char>)> {
    pair("incidents"@, features_json(p.incidents@)) + pair(
        "facilities"@,
        features_json(p.facilities@),
    ) + f_json() + opt_pair("outSR"@, opt_i32(p.out_sr)) + opt_pair(
        "defaultTargetFacilityCount"@,
        opt_i32(p.default_target_facility_count),
    ) + opt_pair("returnCFRoutes"@, opt_bool(p.return_routes)) + opt_pair(
        "travelDirection"@,
        travel_direction_param(p.travel_direction),
    ) + opt_pair("token"@, token)
}

/// The form of an origin-destination cost matrix request.
pub open spec fn od_cost_matrix_form(p: ODCostMatrixParameters, token: Option<Seq<char>>) -> Seq<
    (Seq<char>, Seq<char>),
> {
    pair("origins"@, features_json(p.origins@)) + pair(
        "destinations"@,
        features_json(p.destinations@),
    ) + f_json() + opt_pair("outSR"@, opt_i32(p.out_sr)) + opt_pair("token"@, token)
}

impl RoutingServiceClient {
    /// Base URL of the service.
    pub closed spec fn base(&self) -> Seq<char> {
        self.base_url@
    }

    /// A client for the service at `base_url`.
    pub fn new(base_url: String) -> (r: RoutingServiceClient)
        ensures
            r.base() == base_url@,
    {
        RoutingServiceClient { base_url }
    }

    /// The route solve: `POST <base>/solve` with the stops as a feature set.
    pub fn solve_route_request(&self, params: &RouteParameters, token: &Option<String>) -> (r:
        ApiRequest)
        ensures
            r.is_form_post(self.base() + "/solve"@, route_form(*params, token.deep_view())),
    {
        let stops = features_text(&params.stops);
        let mut form = no_pairs();
        push_pair(&mut form, "stops", stops.as_str());
        push_pair(&mut form, "f", "json");
        push_opt_bool(&mut form, "returnDirections", params.return_directions);
        push_opt_bool(&mut form, "returnRoutes", params.return_routes);
        push_opt_bool(&mut form, "returnStops", params.return_stops);
        push_opt_i32(&mut form, "outSR", params.out_sr);
        push_opt(&mut form, "token", token);
        form_post(concat2(self.base_url.as_str(), "/solve"), form)
    }

    /// The service area solve: `POST <base>/solveServiceArea` with the
    /// facilities and the break values.
    pub fn solve_service_area_request(
        &self,
        params: &ServiceAreaParameters,
        token: &Option<String>,
    ) -> (r: ApiRequest)
        ensures
            r.is_form_post(
                self.base() + "/solveServiceArea"@,
                service_area_form(*params, token.deep_view()),
            ),
    {
        let facilities = features_text(&params.facilities);
        let breaks = array_text(&params.default_breaks);
        let mut form = no_pairs();
        push_pair(&mut form, "facilities", facilities.as_str());
        push_pair(&mut form, "defaultBreaks", breaks.as_str());
        push_pair(&mut form, "f", "json");
        push_opt_i32(&mut form, "outSR", params.out_sr);
        push_opt_bool(&mut form, "returnPolygons", params.return_polygons);
        push_opt(&mut form, "token", token);
        form_post(concat2(self.base_url.as_str(), "/solveServiceArea"), form)
    }

    /// The closest facility solve: `POST <base>/solveClosestFacility` with
    /// incidents and facilities as feature sets.
    pub fn solve_closest_facility_request(
        &self,
        params: &ClosestFacilityParameters,
        token: &Option<String>,
    ) -> (r: ApiRequest)
        ensures
            r.is_form_post(
                self.base() + "/solveClosestFacility"@,
                closest_facility_form(*params, token.deep_view()),
            ),
    {
        let incidents = features_text(&params.incidents);
        let facilities = features_text(&params.facilities);
        let mut form = no_pairs();
        push_pair(&mut form, "incidents", incidents.as_str());
        push_pair(&mut form, "facilities", facilities.as_str());
        push_pair(&mut form, "f", "json");
        push_opt_i32(&mut form, "outSR", params.out_sr);
        push_opt_i32(&mut form, "defaultTargetFacilityCount", params.default_target_facility_count);
        push_opt_bool(&mut form, "returnCFRoutes", params.return_routes);
        let direction: Option<&'static str> = match params.travel_direction {
            Some(d) => Some(d.as_param()),
            None => None,
        };
        push_opt_str(&mut form, "travelDirection", direction);
        push_opt(&mut form, "token", token);
        proof {
            assert(opt_str(direction) == travel_direction_param(params.travel_direction));
        }
        form_post(concat2(self.base_url.as_str(), "/solveClosestFacility"), form)
    }

    /// The cost matrix request: `POST
    /// <base>/generateOriginDestinationCostMatrix` with origins and
    /// destinations as feature sets.
    pub fn generate_od_cost_matrix_request(
        &self,
        params: &ODCostMatrixParameters,
        token: &Option<String>,
    ) -> (r: ApiRequest)
        ensures
            r.is_form_post(
                self.base() + "/generateOriginDestinationCostMatrix"@,
                od_cost_matrix_form(*params, token.deep_view()),
            ),
    {
        let origins = features_text(&params.origins);
        let destinations = features_text(&params.destinations);
        let mut form = no_pairs();
        push_pair(&mut form, "origins", origins.as_str());
        push_pair(&mut form, "destinations", destinations.as_str());
        push_pair(&mut form, "f", "json");
        push_opt_i32(&mut form, "outSR", params.out_sr);
        push_opt(&mut form, "token", token);
        form_post(concat2(self.base_url.as_str(), "/generateOriginDestinationCostMatrix"), form)
    }
}

/// A closest facility solve sends the feature set of its incidents under
/// `incidents` and that of its facilities under `facilities`, whatever else
/// it sends.
pub proof fn lemma_closest_facility_sends_each_set(
    p: ClosestFacilityParameters,
    token: Option<Seq<char>>,
)
    ensures
        form_value(closest_facility_form(p, token), "incidents"@) == Some(
            features_json(p.incidents@),
        ),
        form_value(closest_facility_form(p, token), "facilities"@) == Some(
            features_json(p.facilities@),
        ),
{
    reveal_strlit("incidents");
    reveal_strlit("facilities");
    assert("incidents"@[0] != "facilities"@[0]);
    let a = pair("incidents"@, features_json(p.incidents@));
    let b = pair("facilities"@, features_json(p.facilities@));
    let form = closest_facility_form(p, token);
    let rest = form.subrange(2, form.len() as int);
    assert(form =~= a + (b + rest));
    lemma_form_value_pair("incidents"@, features_json(p.incidents@), "incidents"@);
    lemma_form_value_pair("incidents"@, features_json(p.incidents@), "facilities"@);
    lemma_form_value_pair("facilities"@, features_json(p.facilities@), "facilities"@);
    lemma_form_value_append(a, b + rest, "incidents"@);
    lemma_form_value_append(a, b + rest, "facilities"@);
    lemma_form_value_append(b, rest, "facilities"@);
}

/// A cost matrix request sends the feature set of its origins under
/// `origins` and that of its destinations under `destinations`.
pub proof fn lemma_od_cost_matrix_sends_each_set(p: ODCostMatrixParameters, token: Option<Seq<char>>)
    ensures
        form_value(od_cost_matrix_form(p, token), "origins"@) == Some(features_json(p.origins@)),
        form_value(od_cost_matrix_form(p, token), "destinations"@) == Some(
            features_json(p.destinations@),
        ),
{
    reveal_strlit("origins");
    reveal_strlit("destinations");
    assert("origins"@[0] != "destinations"@[0]);
    let a = pair("origins"@, features_json(p.origins@));
    let b = pair("destinations"@, features_json(p.destinations@));
    let form = od_cost_matrix_form(p, token);
    let rest = form.subrange(2, form.len() as int);
    assert(form =~= a + (b + rest));
    lemma_form_value_pair("origins"@, features_json(p.origins@), "origins"@);
    lemma_form_value_pair("origins"@, features_json(p.origins@), "destinations"@);
    lemma_form_value_pair("destinations"@, features_json(p.destinations@), "destinations"@);
    lemma_form_value_append(a, b + rest, "origins"@);
    lemma_form_value_append(a, b + rest, "destinations"@);
    lemma_form_value_append(b, rest, "destinations"@);
}

/// Each field of `route_form` carries the value built from its own input: a
/// required field is always present, an optional one exactly when its
/// input is given.
pub proof fn lemma_route_form_fields(p: RouteParameters, token: Option<Seq<char>>)
    ensures
        crate::http::form_value(route_form(p, token), "stops"@) == Some(features_json(p.stops@)),
        crate::http::form_value(route_form(p, token), "f"@) == Some("json"@),
        crate::http::form_value(route_form(p, token), "returnDirections"@) == opt_bool(p.return_directions),
        crate::http::form_value(route_form(p, token), "returnRoutes"@) == opt_bool(p.return_routes),
        crate::http::form_value(route_form(p, token), "returnStops"@) == opt_bool(p.return_stops),
        crate::http::form_value(route_form(p, token), "outSR"@) == opt_i32(p.out_sr),
        crate::http::form_value(route_form(p, token), "token"@) == token,
{
    reveal_strlit("f");
    reveal_strlit("json");
    reveal_strlit("outSR");
    reveal_strlit("returnDirections");
    reveal_strlit("returnRoutes");
    reveal_strlit("returnStops");
    reveal_strlit("stops");
    reveal_strlit("token");
    assert("stops"@.len() != "f"@.len());
    assert("stops"@.len() != "returnDirections"@.len());
    assert("stops"@.len() != "returnRoutes"@.len());
    assert("stops"@.len() != "returnStops"@.len());
    assert("stops"@[0] != "outSR"@[0]);
    assert("stops"@[0] != "token"@[0]);
    assert("f"@.len() != "returnDirections"@.len());
    assert("f"@.len() != "returnRoutes"@.len());
    assert("f"@.len() != "returnStops"@.len());
    assert("f"@.len() != "outSR"@.len());
    assert("f"@.len() != "token"@.len());
    assert("returnDirections"@.len() != "returnRoutes"@.len());
    assert("returnDirections"@.len() != "returnStops"@.len());
    assert("returnDirections"@.len() != "outSR"@.len());
    assert("returnDirections"@.len() != "token"@.len());
    assert("returnRoutes"@.len() != "returnStops"@.len());
    assert("returnRoutes"@.len() != "outSR"@.len());
    assert("returnRoutes"@.len() != "token"@.len());
    assert("returnStops"@.len() != "outSR"@.len());
    assert("returnStops"@.len() != "token"@.len());
    assert("outSR"@[0] != "token"@[0]);
    let c0 = pair("stops"@, features_json(p.stops@));
    let c1 = pair("f"@, "json"@);
    let c2 = opt_pair("returnDirections"@, opt_bool(p.return_directions));
    let c3 = opt_pair("returnRoutes"@, opt_bool(p.return_routes));
    let c4 = opt_pair("returnStops"@, opt_bool(p.return_stops));
    let c5 = opt_pair("outSR"@, opt_i32(p.out_sr));
    let c6 = opt_pair("token"@, token);
    let form = route_form(p, token);
    assert(form == c0 + c1 + c2 + c3 + c4 + c5 + c6);
    assert(crate::http::form_value(form, "stops"@) == Some(features_json(p.stops@))) by {
        crate::http::lemma_form_value_pair("stops"@, features_json(p.stops@), "stops"@);
        crate::http::lemma_form_value_pair("f"@, "json"@, "stops"@);
        crate::http::lemma_form_value_opt_pair("returnDirections"@, opt_bool(p.return_directions), "stops"@);
        crate::http::lemma_form_value_opt_pair("returnRoutes"@, opt_bool(p.return_routes), "stops"@);
        crate::http::lemma_form_value_opt_pair("returnStops"@, opt_bool(p.return_stops), "stops"@);
        crate::http::lemma_form_value_opt_pair("outSR"@, opt_i32(p.out_sr), "stops"@);
        crate::http::lemma_form_value_opt_pair("token"@, token, "stops"@);
        crate::http::lemma_form_value_append(c0, c1, "stops"@);
        crate::http::lemma_form_value_append(c0 + c1, c2, "stops"@);
        crate::http::lemma_form_value_append(c0 + c1 + c2, c3, "stops"@);
        crate::http::lemma_form_value_append(c0 + c1 + c2 + c3, c4, "stops"@);
        crate::http::lemma_form_value_append(c0 + c1 + c2 + c3 + c4, c5, "stops"@);
        crate::http::lemma_form_value_append(c0 + c1 + c2 + c3 + c4 + c5, c6, "stops"@);
    }
    assert(crate::http::form_value(form, "f"@) == Some("json"@)) by {
        crate::http::lemma_form_value_pair("stops"@, features_json(p.stops@), "f"@);
        crate::http::lemma_form_value_pair("f"@, "json"@, "f"@);
        crate::http::lemma_form_value_opt_pair("returnDirections"@, opt_bool(p.return_directions), "f"@);
        crate::http::lemma_form_value_opt_pair("returnRoutes"@, opt_bool(p.return_routes), "f"@);
        crate::http::lemma_form_value_opt_pair("returnStops"@, opt_bool(p.return_stops), "f"@);
        crate::http::lemma_form_value_opt_pair("outSR"@, opt_i32(p.out_sr), "f"@);
        crate::http::lemma_form_value_opt_pair("token"@, token, "f"@);
        crate::http::lemma_form_value_append(c0, c1, "f"@);
        crate::http::lemma_form_value_append(c0 + c1, c2, "f"@);
        crate::http::lemma_form_value_append(c0 + c1 + c2, c3, "f"@);
        crate::http::lemma_form_value_append(c0 + c1 + c2 + c3, c4, "f"@);
        crate::http::lemma_form_value_append(c0 + c1 + c2 + c3 + c4, c5, "f"@);
        crate::http::lemma_form_value_append(c0 + c1 + c2 + c3 + c4 + c5, c6, "f"@);
    }
    assert(crate::http::form_value(form, "returnDirections"@) == opt_bool(p.return_directions)) by {
        crate::http::lemma_form_value_pair("stops"@, features_json(p.stops@), "returnDirections"@);
        crate::http::lemma_form_value_pair("f"@, "json"@, "returnDirections"@);
        crate::http::lemma_form_value_opt_pair("returnDirections"@, opt_bool(p.return_directions), "returnDirections"@);
        crate::http::lemma_form_value_opt_pair("returnRoutes"@, opt_bool(p.return_routes), "returnDirections"@);
        crate::http::lemma_form_value_opt_pair("returnStops"@, opt_bool(p.return_stops), "returnDirections"@);
        crate::http::lemma_form_value_opt_pair("outSR"@, opt_i32(p.out_sr), "returnDirections"@);
        crate::http::lemma_form_value_opt_pair("token"@, token, "returnDirections"@);
        crate::http::lemma_form_value_append(c0, c1, "returnDirections"@);
        crate::http::lemma_form_value_append(c0 + c1, c2, "returnDirections"@);
        crate::http::lemma_form_value_append(c0 + c1 + c2, c3, "returnDirections"@);
        crate::http::lemma_form_value_append(c0 + c1 + c2 + c3, c4, "returnDirections"@);
        crate::http::lemma_form_value_append(c0 + c1 + c2 + c3 + c4, c5, "returnDirections"@);
        crate::http::lemma_form_value_append(c0 + c1 + c2 + c3 + c4 + c5, c6, "returnDirections"@);
    }
    assert(crate::http::form_value(form, "returnRoutes"@) == opt_bool(p.return_routes)) by {
        crate::http::lemma_form_value_pair("stops"@, features_json(p.stops@), "returnRoutes"@);
        crate::http::lemma_form_value_pair("f"@, "json"@, "returnRoutes"@);
        crate::http::lemma_form_value_opt_pair("returnDirections"@, opt_bool(p.return_directions), "returnRoutes"@);
        crate::http::lemma_form_value_opt_pair("returnRoutes"@, opt_bool(p.return_routes), "returnRoutes"@);
        crate::http::lemma_form_value_opt_pair("returnStops"@, opt_bool(p.return_stops), "returnRoutes"@);
        crate::http::lemma_form_value_opt_pair("outSR"@, opt_i32(p.out_sr), "returnRoutes"@);
        crate::http::lemma_form_value_opt_pair("token"@, token, "returnRoutes"@);
        crate::http::lemma_form_value_append(c0, c1, "returnRoutes"@);
        crate::http::lemma_form_value_append(c0 + c1, c2, "returnRoutes"@);
        crate::http::lemma_form_value_append(c0 + c1 + c2, c3, "returnRoutes"@);
        crate::http::lemma_form_value_append(c0 + c1 + c2 + c3, c4, "returnRoutes"@);
        crate::http::lemma_form_value_append(c0 + c1 + c2 + c3 + c4, c5, "returnRoutes"@);
        crate::http::lemma_form_value_append(c0 + c1 + c2 + c3 + c4 + c5, c6, "returnRoutes"@);
    }
    assert(crate::http::form_value(form, "returnStops"@) == opt_bool(p.return_stops)) by {
        crate::http::lemma_form_value_pair("stops"@, features_json(p.stops@), "returnStops"@);
        crate::http::lemma_form_value_pair("f"@, "json"@, "returnStops"@);
        crate::http::lemma_form_value_opt_pair("returnDirections"@, opt_bool(p.return_directions), "returnStops"@);
        crate::http::lemma_form_value_opt_pair("returnRoutes"@, opt_bool(p.return_routes), "returnStops"@);
        crate::http::lemma_form_value_opt_pair("returnStops"@, opt_bool(p.return_stops), "returnStops"@);
        crate::http::lemma_form_value_opt_pair("outSR"@, opt_i32(p.out_sr), "returnStops"@);
        crate::http::lemma_form_value_opt_pair("token"@, token, "returnStops"@);
        crate::http::lemma_form_value_append(c0, c1, "returnStops"@);
        crate::http::lemma_form_value_append(c0 + c1, c2, "returnStops"@);
        crate::http::lemma_form_value_append(c0 + c1 + c2, c3, "returnStops"@);
        crate::http::lemma_form_value_append(c0 + c1 + c2 + c3, c4, "returnStops"@);
        crate::http::lemma_form_value_append(c0 + c1 + c2 + c3 + c4, c5, "returnStops"@);
        crate::http::lemma_form_value_append(c0 + c1 + c2 + c3 + c4 + c5, c6, "returnStops"@);
    }
    assert(crate::http::form_value(form, "outSR"@) == opt_i32(p.out_sr)) by {
        crate::http::lemma_form_value_pair("stops"@, features_json(p.stops@), "outSR"@);
        crate::http::lemma_form_value_pair("f"@, "json"@, "outSR"@);
        crate::http::lemma_form_value_opt_pair("returnDirections"@, opt_bool(p.return_directions), "outSR"@);
        crate::http::lemma_form_value_opt_pair("returnRoutes"@, opt_bool(p.return_routes), "outSR"@);
        crate::http::lemma_form_value_opt_pair("returnStops"@, opt_bool(p.return_stops), "outSR"@);
        crate::http::lemma_form_value_opt_pair("outSR"@, opt_i32(p.out_sr), "outSR"@);
        crate::http::lemma_form_value_opt_pair("token"@, token, "outSR"@);
        crate::http::lemma_form_value_append(c0, c1, "outSR"@);
        crate::http::lemma_form_value_append(c0 + c1, c2, "outSR"@);
        crate::http::lemma_form_value_append(c0 + c1 + c2, c3, "outSR"@);
        crate::http::lemma_form_value_append(c0 + c1 + c2 + c3, c4, "outSR"@);
        crate::http::lemma_form_value_append(c0 + c1 + c2 + c3 + c4, c5, "outSR"@);
        crate::http::lemma_form_value_append(c0 + c1 + c2 + c3 + c4 + c5, c6, "outSR"@);
    }
    assert(crate::http::form_value(form, "token"@) == token) by {
        crate::http::lemma_form_value_pair("stops"@, features_json(p.stops@), "token"@);
        crate::http::lemma_form_value_pair("f"@, "json"@, "token"@);
        crate::http::lemma_form_value_opt_pair("returnDirections"@, opt_bool(p.return_directions), "token"@);
        crate::http::lemma_form_value_opt_pair("returnRoutes"@, opt_bool(p.return_routes), "token"@);
        crate::http::lemma_form_value_opt_pair("returnStops"@, opt_bool(p.return_stops), "token"@);
        crate::http::lemma_form_value_opt_pair("outSR"@, opt_i32(p.out_sr), "token"@);
        crate::http::lemma_form_value_opt_pair("token"@, token, "token"@);
        crate::http::lemma_form_value_append(c0, c1, "token"@);
        crate::http::lemma_form_value_append(c0 + c1, c2, "token"@);
        crate::http::lemma_form_value_append(c0 + c1 + c2, c3, "token"@);
        crate::http::lemma_form_value_append(c0 + c1 + c2 + c3, c4, "token"@);
        crate::http::lemma_form_value_append(c0 + c1 + c2 + c3 + c4, c5, "token"@);
        crate::http::lemma_form_value_append(c0 + c1 + c2 + c3 + c4 + c5, c6, "token"@);
    }
}

/// Each field of `service_area_form` carries the value built from its own input: a
/// required field is always present, an optional one exactly when its
/// input is given.
pub proof fn lemma_service_area_form_fields(p: ServiceAreaParameters, token: Option<Seq<char>>)
    ensures
        crate::http::form_value(service_area_form(p, token), "facilities"@) == Some(features_json(p.facilities@)),
        crate::http::form_value(service_area_form(p, token), "defaultBreaks"@) == Some(json_array(p.default_breaks.deep_view())),
        crate::http::form_value(service_area_form(p, token), "f"@) == Some("json"@),
        crate::http::form_value(service_area_form(p, token), "outSR"@) == opt_i32(p.out_sr),
        crate::http::form_value(service_area_form(p, token), "returnPolygons"@) == opt_bool(p.return_polygons),
        crate::http::form_value(service_area_form(p, token), "token"@) == token,
{
    reveal_strlit("defaultBreaks");
    reveal_strlit("f");
    reveal_strlit("facilities");
    reveal_strlit("json");
    reveal_strlit("outSR");
    reveal_strlit("returnPolygons");
    reveal_strlit("token");
    assert("facilities"@.len() != "defaultBreaks"@.len());
    assert("facilities"@.len() != "f"@.len());
    assert("facilities"@.len() != "outSR"@.len());
    assert("facilities"@.len() != "returnPolygons"@.len());
    assert("facilities"@.len() != "token"@.len());
    assert("defaultBreaks"@.len() != "f"@.len());
    assert("defaultBreaks"@.len() != "outSR"@.len());
    assert("defaultBreaks"@.len() != "returnPolygons"@.len());
    assert("defaultBreaks"@.len() != "token"@.len());
    assert("f"@.len() != "outSR"@.len());
    assert("f"@.len() != "returnPolygons"@.len());
    assert("f"@.len() != "token"@.len());
    assert("outSR"@.len() != "returnPolygons"@.len());
    assert("outSR"@[0] != "token"@[0]);
    assert("returnPolygons"@.len() != "token"@.len());
    let c0 = pair("facilities"@, features_json(p.facilities@));
    let c1 = pair("defaultBreaks"@, json_array(p.default_breaks.deep_view()));
    let c2 = pair("f"@, "json"@);
    let c3 = opt_pair("outSR"@, opt_i32(p.out_sr));
    let c4 = opt_pair("returnPolygons"@, opt_bool(p.return_polygons));
    let c5 = opt_pair("token"@, token);
    let form = service_area_form(p, token);
    assert(form == c0 + c1 + c2 + c3 + c4 + c5);
    assert(crate::http::form_value(form, "facilities"@) == Some(features_json(p.facilities@))) by {
        crate::http::lemma_form_value_pair("facilities"@, features_json(p.facilities@), "facilities"@);
        crate::http::lemma_form_value_pair("defaultBreaks"@, json_array(p.default_breaks.deep_view()), "facilities"@);
        crate::http::lemma_form_value_pair("f"@, "json"@, "facilities"@);
        crate::http::lemma_form_value_opt_pair("outSR"@, opt_i32(p.out_sr), "facilities"@);
        crate::http::lemma_form_value_opt_pair("returnPolygons"@, opt_bool(p.return_polygons), "facilities"@);
        crate::http::lemma_form_value_opt_pair("token"@, token, "facilities"@);
        crate::http::lemma_form_value_append(c0, c1, "facilities"@);
        crate::http::lemma_form_value_append(c0 + c1, c2, "facilities"@);
        crate::http::lemma_form_value_append(c0 + c1 + c2, c3, "facilities"@);
        crate::http::lemma_form_value_append(c0 + c1 + c2 + c3, c4, "facilities"@);
        crate::http::lemma_form_value_append(c0 + c1 + c2 + c3 + c4, c5, "facilities"@);
    }
    assert(crate::http::form_value(form, "defaultBreaks"@) == Some(json_array(p.default_breaks.deep_view()))) by {
        crate::http::lemma_form_value_pair("facilities"@, features_json(p.facilities@), "defaultBreaks"@);
        crate::http::lemma_form_value_pair("defaultBreaks"@, json_array(p.default_breaks.deep_view()), "defaultBreaks"@);
        crate::http::lemma_form_value_pair("f"@, "json"@, "defaultBreaks"@);
        crate::http::lemma_form_value_opt_pair("outSR"@, opt_i32(p.out_sr), "defaultBreaks"@);
        crate::http::lemma_form_value_opt_pair("returnPolygons"@, opt_bool(p.return_polygons), "defaultBreaks"@);
        crate::http::lemma_form_value_opt_pair("token"@, token, "defaultBreaks"@);
        crate::http::lemma_form_value_append(c0, c1, "defaultBreaks"@);
        crate::http::lemma_form_value_append(c0 + c1, c2, "defaultBreaks"@);
        crate::http::lemma_form_value_append(c0 + c1 + c2, c3, "defaultBreaks"@);
        crate::http::lemma_form_value_append(c0 + c1 + c2 + c3, c4, "defaultBreaks"@);
        crate::http::lemma_form_value_append(c0 + c1 + c2 + c3 + c4, c5, "defaultBreaks"@);
    }
    assert(crate::http::form_value(form, "f"@) == Some("json"@)) by {
        crate::http::lemma_form_value_pair("facilities"@, features_json(p.facilities@), "f"@);
        crate::http::lemma_form_value_pair("defaultBreaks"@, json_array(p.default_breaks.deep_view()), "f"@);
        crate::http::lemma_form_value_pair("f"@, "json"@, "f"@);
        crate::http::lemma_form_value_opt_pair("outSR"@, opt_i32(p.out_sr), "f"@);
        crate::http::lemma_form_value_opt_pair("returnPolygons"@, opt_bool(p.return_polygons), "f"@);
        crate::http::lemma_form_value_opt_pair("token"@, token, "f"@);
        crate::http::lemma_form_value_append(c0, c1, "f"@);
        crate::http::lemma_form_value_append(c0 + c1, c2, "f"@);
        crate::http::lemma_form_value_append(c0 + c1 + c2, c3, "f"@);
        crate::http::lemma_form_value_append(c0 + c1 + c2 + c3, c4, "f"@);
        crate::http::lemma_form_value_append(c0 + c1 + c2 + c3 + c4, c5, "f"@);
    }
    assert(crate::http::form_value(form, "outSR"@) == opt_i32(p.out_sr)) by {
        crate::http::lemma_form_value_pair("facilities"@, features_json(p.facilities@), "outSR"@);
        crate::http::lemma_form_value_pair("defaultBreaks"@, json_array(p.default_breaks.deep_view()), "outSR"@);
        crate::http::lemma_form_value_pair("f"@, "json"@, "outSR"@);
        crate::http::lemma_form_value_opt_pair("outSR"@, opt_i32(p.out_sr), "outSR"@);
        crate::http::lemma_form_value_opt_pair("returnPolygons"@, opt_bool(p.return_polygons), "outSR"@);
        crate::http::lemma_form_value_opt_pair("token"@, token, "outSR"@);
        crate::http::lemma_form_value_append(c0, c1, "outSR"@);
        crate::http::lemma_form_value_append(c0 + c1, c2, "outSR"@);
        crate::http::lemma_form_value_append(c0 + c1 + c2, c3, "outSR"@);
        crate::http::lemma_form_value_append(c0 + c1 + c2 + c3, c4, "outSR"@);
        crate::http::lemma_form_value_append(c0 + c1 + c2 + c3 + c4, c5, "outSR"@);
    }
    assert(crate::http::form_value(form, "returnPolygons"@) == opt_bool(p.return_polygons)) by {
        crate::http::lemma_form_value_pair("facilities"@, features_json(p.facilities@), "returnPolygons"@);
        crate::http::lemma_form_value_pair("defaultBreaks"@, json_array(p.default_breaks.deep_view()), "returnPolygons"@);
        crate::http::lemma_form_value_pair("f"@, "json"@, "returnPolygons"@);
        crate::http::lemma_form_value_opt_pair("outSR"@, opt_i32(p.out_sr), "returnPolygons"@);
        crate::http::lemma_form_value_opt_pair("returnPolygons"@, opt_bool(p.return_polygons), "returnPolygons"@);
        crate::http::lemma_form_value_opt_pair("token"@, token, "returnPolygons"@);
        crate::http::lemma_form_value_append(c0, c1, "returnPolygons"@);
        crate::http::lemma_form_value_append(c0 + c1, c2, "returnPolygons"@);
        crate::http::lemma_form_value_append(c0 + c1 + c2, c3, "returnPolygons"@);
        crate::http::lemma_form_value_append(c0 + c1 + c2 + c3, c4, "returnPolygons"@);
        crate::http::lemma_form_value_append(c0 + c1 + c2 + c3 + c4, c5, "returnPolygons"@);
    }
    assert(crate::http::form_value(form, "token"@) == token) by {
        crate::http::lemma_form_value_pair("facilities"@, features_json(p.facilities@), "token"@);
        crate::http::lemma_form_value_pair("defaultBreaks"@, json_array(p.default_breaks.deep_view()), "token"@);
        crate::http::lemma_form_value_pair("f"@, "json"@, "token"@);
        crate::http::lemma_form_value_opt_pair("outSR"@, opt_i32(p.out_sr), "token"@);
        crate::http::lemma_form_value_opt_pair("returnPolygons"@, opt_bool(p.return_polygons), "token"@);
        crate::http::lemma_form_value_opt_pair("token"@, token, "token"@);
        crate::http::lemma_form_value_append(c0, c1, "token"@);
        crate::http::lemma_form_value_append(c0 + c1, c2, "token"@);
        crate::http::lemma_form_value_append(c0 + c1 + c2, c3, "token"@);
        crate::http::lemma_form_value_append(c0 + c1 + c2 + c3, c4, "token"@);
        crate::http::lemma_form_value_append(c0 + c1 + c2 + c3 + c4, c5, "token"@);
    }
}

} // verus!
