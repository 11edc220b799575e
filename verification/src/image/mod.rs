//! Image service: export, identify, samples, histograms and raster info.
//! Operation parameters travel as one JSON text in the `params` field.

use vstd::prelude::*;
use crate::geometry::GeometryType;
use crate::http::{ApiRequest, f_json, get_request, pair, push_pair};
use crate::query::no_pairs;
use crate::text::{concat2, concat3};

verus! {

/// Pixel type of an exported image.
#[derive(Debug, Clone, Copy, PartialEq, Eq, Hash, Structural)]
pub enum PixelType {
    U8,
    S8,
    U16,
    S16,
    U32,
    S32,
    F32,
    F64,
    Unknown,
}

impl PixelType {
    /// The name the REST API uses for this value.
    pub open spec fn wire_name(self) -> Seq<char> {
        match self {
            PixelType::U8 => "U8"@,
            PixelType::S8 => "S8"@,
            PixelType::U16 => "U16"@,
            PixelType::S16 => "S16"@,
            PixelType::U32 => "U32"@,
            PixelType::S32 => "S32"@,
            PixelType::F32 => "F32"@,
            PixelType::F64 => "F64"@,
            PixelType::Unknown => "Unknown"@,
        }
    }

    /// Each value has its own wire name, as listed; no two values share
    /// one.
    pub proof fn lemma_wire_names(a: Self, b: Self)
        ensures
            a.wire_name() == b.wire_name() ==> a == b,
            a == PixelType::U8 ==> a.wire_name() == "U8"@,
            a == PixelType::S8 ==> a.wire_name() == "S8"@,
            a == PixelType::U16 ==> a.wire_name() == "U16"@,
            a == PixelType::S16 ==> a.wire_name() == "S16"@,
            a == PixelType::U32 ==> a.wire_name() == "U32"@,
            a == PixelType::S32 ==> a.wire_name() == "S32"@,
            a == PixelType::F32 ==> a.wire_name() == "F32"@,
            a == PixelType::F64 ==> a.wire_name() == "F64"@,
            a == PixelType::Unknown ==> a.wire_name() == "Unknown"@,
    {
        reveal_strlit("F32");
        reveal_strlit("F64");
        reveal_strlit("S16");
        reveal_strlit("S32");
        reveal_strlit("S8");
        reveal_strlit("U16");
        reveal_strlit("U32");
        reveal_strlit("U8");
        reveal_strlit("Unknown");
        assert("U8"@[0] != "S8"@[0]);
        assert("U8"@.len() != "U16"@.len());
        assert("U8"@.len() != "S16"@.len());
        assert("U8"@.len() != "U32"@.len());
        assert("U8"@.len() != "S32"@.len());
        assert("U8"@.len() != "F32"@.len());
        assert("U8"@.len() != "F64"@.len());
        assert("U8"@.len() != "Unknown"@.len());
        assert("S8"@.len() != "U16"@.len());
        assert("S8"@.len() != "S16"@.len());
        assert("S8"@.len() != "U32"@.len());
        assert("S8"@.len() != "S32"@.len());
        assert("S8"@.len() != "F32"@.len());
        assert("S8"@.len() != "F64"@.len());
        assert("S8"@.len() != "Unknown"@.len());
        assert("U16"@[0] != "S16"@[0]);
        assert("U16"@[1] != "U32"@[1]);
        assert("U16"@[0] != "S32"@[0]);
        assert("U16"@[0] != "F32"@[0]);
        assert("U16"@[0] != "F64"@[0]);
        assert("U16"@.len() != "Unknown"@.len());
        assert("S16"@[0] != "U32"@[0]);
        assert("S16"@[1] != "S32"@[1]);
        assert("S16"@[0] != "F32"@[0]);
        assert("S16"@[0] != "F64"@[0]);
        assert("S16"@.len() != "Unknown"@.len());
        assert("U32"@[0] != "S32"@[0]);
        assert("U32"@[0] != "F32"@[0]);
        assert("U32"@[0] != "F64"@[0]);
        assert("U32"@.len() != "Unknown"@.len());
        assert("S32"@[0] != "F32"@[0]);
        assert("S32"@[0] != "F64"@[0]);
        assert("S32"@.len() != "Unknown"@.len());
        assert("F32"@[1] != "F64"@[1]);
        assert("F32"@.len() != "Unknown"@.len());
        assert("F64"@.len() != "Unknown"@.len());
    }

    /// Returns the name the REST API uses for this value.
    pub fn as_param(&self) -> (r: &'static str)
        ensures
            r@ == self.wire_name(),
    {
        match self {
            PixelType::U8 => "U8",
            PixelType::S8 => "S8",
            PixelType::U16 => "U16",
            PixelType::S16 => "S16",
            PixelType::U32 => "U32",
            PixelType::S32 => "S32",
            PixelType::F32 => "F32",
            PixelType::F64 => "F64",
            PixelType::Unknown => "Unknown",
        }
    }
}

/// Resampling of an exported image.
#[derive(Debug, Clone, Copy, PartialEq, Eq, Hash, Structural)]
pub enum InterpolationType {
    NearestNeighbor,
    BilinearInterpolation,
    CubicConvolution,
    Majority,
}

impl InterpolationType {
    /// The name the REST API uses for this value.
    pub open spec fn wire_name(self) -> Seq<char> {
        match self {
            InterpolationType::NearestNeighbor => "NearestNeighbor"@,
            InterpolationType::BilinearInterpolation => "BilinearInterpolation"@,
            InterpolationType::CubicConvolution => "CubicConvolution"@,
            InterpolationType::Majority => "Majority"@,
        }
    }

    /// Each value has its own wire name, as listed; no two values share
    /// one.
    pub proof fn lemma_wire_names(a: Self, b: Self)
        ensures
            a.wire_name() == b.wire_name() ==> a == b,
            a == InterpolationType::NearestNeighbor ==> a.wire_name() == "NearestNeighbor"@,
            a == InterpolationType::BilinearInterpolation ==> a.wire_name() == "BilinearInterpolation"@,
            a == InterpolationType::CubicConvolution ==> a.wire_name() == "CubicConvolution"@,
            a == InterpolationType::Majority ==> a.wire_name() == "Majority"@,
    {
        reveal_strlit("BilinearInterpolation");
        reveal_strlit("CubicConvolution");
        reveal_strlit("Majority");
        reveal_strlit("NearestNeighbor");
        assert("NearestNeighbor"@.len() != "BilinearInterpolation"@.len());
        assert("NearestNeighbor"@.len() != "CubicConvolution"@.len());
        assert("NearestNeighbor"@.len() != "Majority"@.len());
        assert("BilinearInterpolation"@.len() != "CubicConvolution"@.len());
        assert("BilinearInterpolation"@.len() != "Majority"@.len());
        assert("CubicConvolution"@.len() != "Majority"@.len());
    }

    /// Returns the name the REST API uses for this value.
    pub fn as_param(&self) -> (r: &'static str)
        ensures
            r@ == self.wire_name(),
    {
        match self {
            InterpolationType::NearestNeighbor => "NearestNeighbor",
            InterpolationType::BilinearInterpolation => "BilinearInterpolation",
            InterpolationType::CubicConvolution => "CubicConvolution",
            InterpolationType::Majority => "Majority",
        }
    }
}

/// How the rasters of a mosaic are combined.
#[derive(Debug, Clone)]
pub struct MosaicRule {
    pub mosaic_method: String,
    pub mosaic_operation: Option<String>,
    pub lock_raster_ids: Option<Vec<i64>>,
    pub order_by_field: Option<String>,
    pub ascending: Option<bool>,
}

impl MosaicRule {
    /// A mosaic rule with the given fields.
    pub fn new(mosaic_method: String, mosaic_operation: Option<String>, lock_raster_ids: Option<Vec<i64>>, order_by_field: Option<String>, ascending: Option<bool>) -> (r: MosaicRule)
        ensures
            r == (MosaicRule { mosaic_method: mosaic_method, mosaic_operation: mosaic_operation, lock_raster_ids: lock_raster_ids, order_by_field: order_by_field, ascending: ascending }),
    {
        MosaicRule { mosaic_method: mosaic_method, mosaic_operation: mosaic_operation, lock_raster_ids: lock_raster_ids, order_by_field: order_by_field, ascending: ascending }
    }


}

/// The `geometryType` sent with an identify geometry: polygons as
/// polygons, every other kind as a point.
pub open spec fn identify_geometry_type(kind: GeometryType) -> Seq<char> {
    match kind {
        GeometryType::Polygon => "esriGeometryPolygon"@,
        _ => "esriGeometryPoint"@,
    }
}

/// Client for one image service, identified by its URL.
#[derive(Debug, Clone)]
pub struct ImageServiceClient {
    url: String,
}

/// The query `f=json&params=<json>`.
pub open spec fn params_query(params_json: Seq<char>) -> Seq<(Seq<char>, Seq<char>)> {
    f_json() + pair("params"@, params_json)
}

impl ImageServiceClient {
    /// URL of the service.
    pub closed spec fn service(&self) -> Seq<char> {
        self.url@
    }

    /// A client for the service at `url`.
    pub fn new(url: String) -> (r: ImageServiceClient)
        ensures
            r.service() == url@,
    {
        ImageServiceClient { url }
    }

    /// An operation carrying its parameters as JSON: `GET
    /// <service>/<operation>?f=json&params=<json>`.
    pub fn operation_request(&self, operation: &str, params_json: &str) -> (r: ApiRequest)
        ensures
            r.is_get(self.service() + "/"@ + operation@, params_query(params_json@)),
    {
        let mut q = no_pairs();
        push_pair(&mut q, "f", "json");
        push_pair(&mut q, "params", params_json);
        get_request(concat3(self.url.as_str(), "/", operation), q)
    }

    /// Exporting an image (`exportImage`).
    pub fn export_image_request(&self, params_json: &str) -> (r: ApiRequest)
        ensures
            r.is_get(self.service() + "/exportImage"@, params_query(params_json@)),
    {
        proof {
            reveal_strlit("/");
            reveal_strlit("exportImage");
            reveal_strlit("/exportImage");
            assert(self.service() + "/"@ + "exportImage"@ =~= self.service() + "/exportImage"@);
        }
        self.operation_request("exportImage", params_json)
    }

    /// Identifying with full parameters (`identify`).
    pub fn identify_with_params_request(&self, params_json: &str) -> (r: ApiRequest)
        ensures
            r.is_get(self.service() + "/identify"@, params_query(params_json@)),
    {
        proof {
            reveal_strlit("/");
            reveal_strlit("identify");
            reveal_strlit("/identify");
            assert(self.service() + "/"@ + "identify"@ =~= self.service() + "/identify"@);
        }
        self.operation_request("identify", params_json)
    }

    /// Sampling pixel values (`getSamples`).
    pub fn get_samples_request(&self, params_json: &str) -> (r: ApiRequest)
        ensures
            r.is_get(self.service() + "/getSamples"@, params_query(params_json@)),
    {
        proof {
            reveal_strlit("/");
            reveal_strlit("getSamples");
            reveal_strlit("/getSamples");
            assert(self.service() + "/"@ + "getSamples"@ =~= self.service() + "/getSamples"@);
        }
        self.operation_request("getSamples", params_json)
    }

    /// Computing histograms (`computeHistograms`).
    pub fn compute_histograms_request(&self, params_json: &str) -> (r: ApiRequest)
        ensures
            r.is_get(self.service() + "/computeHistograms"@, params_query(params_json@)),
    {
        proof {
            reveal_strlit("/");
            reveal_strlit("computeHistograms");
            reveal_strlit("/computeHistograms");
            assert(self.service() + "/"@ + "computeHistograms"@ =~= self.service()
                + "/computeHistograms"@);
        }
        self.operation_request("computeHistograms", params_json)
    }

    /// Identifying at a geometry: `GET <service>/identify` with `f=json`, the
    /// geometry's JSON and its `geometryType`.
    pub fn identify_request(&self, geometry_json: &str, kind: GeometryType) -> (r: ApiRequest)
        ensures
            r.is_get(
                self.service() + "/identify"@,
                f_json() + pair("geometry"@, geometry_json@) + pair(
                    "geometryType"@,
                    identify_geometry_type(kind),
                ),
            ),
    {
        let geometry_type = match kind {
            GeometryType::Polygon => "esriGeometryPolygon",
            _ => "esriGeometryPoint",
        };
        let mut q = no_pairs();
        push_pair(&mut q, "f", "json");
        push_pair(&mut q, "geometry", geometry_json);
        push_pair(&mut q, "geometryType", geometry_type);
        get_request(concat2(self.url.as_str(), "/identify"), q)
    }

    /// Raster information: `GET <service>?f=json`.
    pub fn raster_info_request(&self) -> (r: ApiRequest)
        ensures
            r.is_get(self.service(), f_json()),
    {
        let mut q = no_pairs();
        push_pair(&mut q, "f", "json");
        get_request(self.url.clone(), q)
    }
}

/// Each field of `params_query` carries the value built from its own input: a
/// required field is always present, an optional one exactly when its
/// input is given.
pub proof fn lemma_params_query_fields(params_json: Seq<char>)
    ensures
        crate::http::form_value(params_query(params_json), "f"@) == Some("json"@),
        crate::http::form_value(params_query(params_json), "params"@) == Some(params_json),
{
    reveal_strlit("f");
    reveal_strlit("json");
    reveal_strlit("params");
    assert("f"@.len() != "params"@.len());
    let c0 = pair("f"@, "json"@);
    let c1 = pair("params"@, params_json);
    let form = params_query(params_json);
    assert(form == c0 + c1);
    assert(crate::http::form_value(form, "f"@) == Some("json"@)) by {
        crate::http::lemma_form_value_pair("f"@, "json"@, "f"@);
        crate::http::lemma_form_value_pair("params"@, params_json, "f"@);
        crate::http::lemma_form_value_append(c0, c1, "f"@);
    }
    assert(crate::http::form_value(form, "params"@) == Some(params_json)) by {
        crate::http::lemma_form_value_pair("f"@, "json"@, "params"@);
        crate::http::lemma_form_value_pair("params"@, params_json, "params"@);
        crate::http::lemma_form_value_append(c0, c1, "params"@);
    }
}

} // verus!
