//! Places service: searching places near a point, place details and
//! categories.

use vstd::prelude::*;
use crate::http::{ApiRequest, f_json, get_request, pair, push_pair};
use crate::query::no_pairs;
use crate::text::{concat2, concat3};

verus! {

/// A category a place belongs to.
#[derive(Debug, Clone, PartialEq, Eq, Hash)]
pub struct PlaceCategory {
    pub category_id: String,
    pub label: String,
}

/// Postal address of a place.
#[derive(Debug, Clone, PartialEq, Eq, Hash)]
pub struct PlaceAddress {
    pub street_address: Option<String>,
    pub locality: Option<String>,
    pub region: Option<String>,
    pub postal_code: Option<String>,
    pub country: Option<String>,
    pub admin_region: Option<String>,
    pub po_box: Option<String>,
    pub neighborhood: Option<String>,
}

/// How to contact a place.
#[derive(Debug, Clone, PartialEq, Eq, Hash)]
pub struct PlaceContactInfo {
    pub telephone: Option<String>,
    pub website: Option<String>,
    pub email: Option<String>,
    pub fax_number: Option<String>,
}

/// Opening hours of one day.
#[derive(Debug, Clone, PartialEq, Eq, Hash)]
pub struct DayHours {
    pub day: String,
    pub open: Option<String>,
    pub close: Option<String>,
    pub is_closed: bool,
}

/// A category of the places service.
#[derive(Debug, Clone, PartialEq, Eq, Hash)]
pub struct CategoryInfo {
    pub category_id: String,
    pub name: String,
    pub full_label: Option<String>,
    pub parent_category_id: Option<String>,
    pub icon: Option<String>,
}

/// All categories of the places service.
#[derive(Debug, Clone, PartialEq, Eq)]
pub struct CategoriesResult {
    pub categories: Vec<CategoryInfo>,
}

/// The public places service.
pub open spec fn default_places_url() -> Seq<char> {
    "https://places-api.arcgis.com/arcgis/rest/services/places-service/v1"@
}

/// Client for a places service.
#[derive(Debug, Clone)]
pub struct PlacesClient {
    url: String,
}

impl PlacesClient {
    /// URL of the service.
    pub closed spec fn service(&self) -> Seq<char> {
        self.url@
    }

    /// A client for the public places service.
    pub fn new() -> (r: PlacesClient)
        ensures
            r.service() == default_places_url(),
    {
        PlacesClient {
            url: String::from_str(
                "https://places-api.arcgis.com/arcgis/rest/services/places-service/v1",
            ),
        }
    }

    /// A client for the places service at `url`.
    pub fn with_url(url: String) -> (r: PlacesClient)
        ensures
            r.service() == url@,
    {
        PlacesClient { url }
    }

    /// The search near a point: `GET <service>/places/near-point` with `x`,
    /// `y` (the point's decimal coordinates), `f=json`, then the encoded
    /// search parameters.
    pub fn near_point_request(&self, x: &str, y: &str, params: &Vec<(String, String)>) -> (r:
        ApiRequest)
        ensures
            r.is_get(
                self.service() + "/places/near-point"@,
                pair("x"@, x@) + pair("y"@, y@) + f_json() + params.deep_view(),
            ),
    {
        let mut q = no_pairs();
        push_pair(&mut q, "x", x);
        push_pair(&mut q, "y", y);
        push_pair(&mut q, "f", "json");
        let ghost head = q.deep_view();
        let mut i: usize = 0;
        while i < params.len()
            invariant
                i <= params@.len(),
                q.deep_view() == head + params.deep_view().take(i as int),
            decreases params@.len() - i,
        {
            push_pair(&mut q, params[i].0.as_str(), params[i].1.as_str());
            proof {
                assert(params.deep_view().take(i + 1) =~= params.deep_view().take(i as int) + seq![
                    params.deep_view()[i as int],
                ]);
            }
            i = i + 1;
        }
        proof {
            assert(params.deep_view().take(params@.len() as int) =~= params.deep_view());
        }
        get_request(concat2(self.url.as_str(), "/places/near-point"), q)
    }

    /// A place's details: `GET <service>/places/<id>?f=json`.
    pub fn place_details_request(&self, place_id: &str) -> (r: ApiRequest)
        ensures
            r.is_get(self.service() + "/places/"@ + place_id@, f_json()),
    {
        let mut q = no_pairs();
        push_pair(&mut q, "f", "json");
        get_request(concat3(self.url.as_str(), "/places/", place_id), q)
    }

    /// All categories: `GET <service>/categories?f=json`.
    pub fn categories_request(&self) -> (r: ApiRequest)
        ensures
            r.is_get(self.service() + "/categories"@, f_json()),
    {
        let mut q = no_pairs();
        push_pair(&mut q, "f", "json");
        get_request(concat2(self.url.as_str(), "/categories"), q)
    }
}

} // verus!
