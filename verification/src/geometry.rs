//! Geometry kinds and spatial relationships of the ArcGIS REST API.

use vstd::prelude::*;

verus! {

/// ArcGIS geometry types (the `esriGeometry*` constants).
#[derive(Debug, Clone, Copy, PartialEq, Eq, Hash, Structural)]
#[non_exhaustive]
pub enum GeometryType {
    Point,
    Multipoint,
    Polyline,
    Polygon,
    Envelope,
}

impl GeometryType {
    /// The name the REST API uses for this value.
    pub open spec fn wire_name(self) -> Seq<char> {
        match self {
            GeometryType::Point => "esriGeometryPoint"@,
            GeometryType::Multipoint => "esriGeometryMultipoint"@,
            GeometryType::Polyline => "esriGeometryPolyline"@,
            GeometryType::Polygon => "esriGeometryPolygon"@,
            GeometryType::Envelope => "esriGeometryEnvelope"@,
        }
    }

    /// Each value has its own wire name, as listed; no two values share
    /// one.
    pub proof fn lemma_wire_names(a: Self, b: Self)
        ensures
            a.wire_name() == b.wire_name() ==> a == b,
            a == GeometryType::Point ==> a.wire_name() == "esriGeometryPoint"@,
            a == GeometryType::Multipoint ==> a.wire_name() == "esriGeometryMultipoint"@,
            a == GeometryType::Polyline ==> a.wire_name() == "esriGeometryPolyline"@,
            a == GeometryType::Polygon ==> a.wire_name() == "esriGeometryPolygon"@,
            a == GeometryType::Envelope ==> a.wire_name() == "esriGeometryEnvelope"@,
    {
        reveal_strlit("esriGeometryEnvelope");
        reveal_strlit("esriGeometryMultipoint");
        reveal_strlit("esriGeometryPoint");
        reveal_strlit("esriGeometryPolygon");
        reveal_strlit("esriGeometryPolyline");
        assert("esriGeometryPoint"@.len() != "esriGeometryMultipoint"@.len());
        assert("esriGeometryPoint"@.len() != "esriGeometryPolyline"@.len());
        assert("esriGeometryPoint"@.len() != "esriGeometryPolygon"@.len());
        assert("esriGeometryPoint"@.len() != "esriGeometryEnvelope"@.len());
        assert("esriGeometryMultipoint"@.len() != "esriGeometryPolyline"@.len());
        assert("esriGeometryMultipoint"@.len() != "esriGeometryPolygon"@.len());
        assert("esriGeometryMultipoint"@.len() != "esriGeometryEnvelope"@.len());
        assert("esriGeometryPolyline"@.len() != "esriGeometryPolygon"@.len());
        assert("esriGeometryPolyline"@[12] != "esriGeometryEnvelope"@[12]);
        assert("esriGeometryPolygon"@.len() != "esriGeometryEnvelope"@.len());
    }

    /// Returns the name the REST API uses for this value.
    pub fn as_param(&self) -> (r: &'static str)
        ensures
            r@ == self.wire_name(),
    {
        match self {
            GeometryType::Point => "esriGeometryPoint",
            GeometryType::Multipoint => "esriGeometryMultipoint",
            GeometryType::Polyline => "esriGeometryPolyline",
            GeometryType::Polygon => "esriGeometryPolygon",
            GeometryType::Envelope => "esriGeometryEnvelope",
        }
    }
}

/// Spatial relationships for queries (the `esriSpatialRel*` constants).
#[derive(Debug, Clone, Copy, PartialEq, Eq, Hash, Structural)]
#[non_exhaustive]
pub enum SpatialRel {
    Intersects,
    Contains,
    Crosses,
    EnvelopeIntersects,
    IndexIntersects,
    Overlaps,
    Touches,
    Within,
    Relation,
}

impl SpatialRel {
    /// The name the REST API uses for this value.
    pub open spec fn wire_name(self) -> Seq<char> {
        match self {
            SpatialRel::Intersects => "esriSpatialRelIntersects"@,
            SpatialRel::Contains => "esriSpatialRelContains"@,
            SpatialRel::Crosses => "esriSpatialRelCrosses"@,
            SpatialRel::EnvelopeIntersects => "esriSpatialRelEnvelopeIntersects"@,
            SpatialRel::IndexIntersects => "esriSpatialRelIndexIntersects"@,
            SpatialRel::Overlaps => "esriSpatialRelOverlaps"@,
            SpatialRel::Touches => "esriSpatialRelTouches"@,
            SpatialRel::Within => "esriSpatialRelWithin"@,
            SpatialRel::Relation => "esriSpatialRelRelation"@,
        }
    }

    /// Each value has its own wire name, as listed; no two values share
    /// one.
    pub proof fn lemma_wire_names(a: Self, b: Self)
        ensures
            a.wire_name() == b.wire_name() ==> a == b,
            a == SpatialRel::Intersects ==> a.wire_name() == "esriSpatialRelIntersects"@,
            a == SpatialRel::Contains ==> a.wire_name() == "esriSpatialRelContains"@,
            a == SpatialRel::Crosses ==> a.wire_name() == "esriSpatialRelCrosses"@,
            a == SpatialRel::EnvelopeIntersects ==> a.wire_name() == "esriSpatialRelEnvelopeIntersects"@,
            a == SpatialRel::IndexIntersects ==> a.wire_name() == "esriSpatialRelIndexIntersects"@,
            a == SpatialRel::Overlaps ==> a.wire_name() == "esriSpatialRelOverlaps"@,
            a == SpatialRel::Touches ==> a.wire_name() == "esriSpatialRelTouches"@,
            a == SpatialRel::Within ==> a.wire_name() == "esriSpatialRelWithin"@,
            a == SpatialRel::Relation ==> a.wire_name() == "esriSpatialRelRelation"@,
    {
        reveal_strlit("esriSpatialRelContains");
        reveal_strlit("esriSpatialRelCrosses");
        reveal_strlit("esriSpatialRelEnvelopeIntersects");
        reveal_strlit("esriSpatialRelIndexIntersects");
        reveal_strlit("esriSpatialRelIntersects");
        reveal_strlit("esriSpatialRelOverlaps");
        reveal_strlit("esriSpatialRelRelation");
        reveal_strlit("esriSpatialRelTouches");
        reveal_strlit("esriSpatialRelWithin");
        assert("esriSpatialRelIntersects"@.len() != "esriSpatialRelContains"@.len());
        assert("esriSpatialRelIntersects"@.len() != "esriSpatialRelCrosses"@.len());
        assert("esriSpatialRelIntersects"@.len() != "esriSpatialRelEnvelopeIntersects"@.len());
        assert("esriSpatialRelIntersects"@.len() != "esriSpatialRelIndexIntersects"@.len());
        assert("esriSpatialRelIntersects"@.len() != "esriSpatialRelOverlaps"@.len());
        assert("esriSpatialRelIntersects"@.len() != "esriSpatialRelTouches"@.len());
        assert("esriSpatialRelIntersects"@.len() != "esriSpatialRelWithin"@.len());
        assert("esriSpatialRelIntersects"@.len() != "esriSpatialRelRelation"@.len());
        assert("esriSpatialRelContains"@.len() != "esriSpatialRelCrosses"@.len());
        assert("esriSpatialRelContains"@.len() != "esriSpatialRelEnvelopeIntersects"@.len());
        assert("esriSpatialRelContains"@.len() != "esriSpatialRelIndexIntersects"@.len());
        assert("esriSpatialRelContains"@[14] != "esriSpatialRelOverlaps"@[14]);
        assert("esriSpatialRelContains"@.len() != "esriSpatialRelTouches"@.len());
        assert("esriSpatialRelContains"@.len() != "esriSpatialRelWithin"@.len());
        assert("esriSpatialRelContains"@[14] != "esriSpatialRelRelation"@[14]);
        assert("esriSpatialRelCrosses"@.len() != "esriSpatialRelEnvelopeIntersects"@.len());
        assert("esriSpatialRelCrosses"@.len() != "esriSpatialRelIndexIntersects"@.len());
        assert("esriSpatialRelCrosses"@.len() != "esriSpatialRelOverlaps"@.len());
        assert("esriSpatialRelCrosses"@[14] != "esriSpatialRelTouches"@[14]);
        assert("esriSpatialRelCrosses"@.len() != "esriSpatialRelWithin"@.len());
        assert("esriSpatialRelCrosses"@.len() != "esriSpatialRelRelation"@.len());
        assert("esriSpatialRelEnvelopeIntersects"@.len() != "esriSpatialRelIndexIntersects"@.len());
        assert("esriSpatialRelEnvelopeIntersects"@.len() != "esriSpatialRelOverlaps"@.len());
        assert("esriSpatialRelEnvelopeIntersects"@.len() != "esriSpatialRelTouches"@.len());
        assert("esriSpatialRelEnvelopeIntersects"@.len() != "esriSpatialRelWithin"@.len());
        assert("esriSpatialRelEnvelopeIntersects"@.len() != "esriSpatialRelRelation"@.len());
        assert("esriSpatialRelIndexIntersects"@.len() != "esriSpatialRelOverlaps"@.len());
        assert("esriSpatialRelIndexIntersects"@.len() != "esriSpatialRelTouches"@.len());
        assert("esriSpatialRelIndexIntersects"@.len() != "esriSpatialRelWithin"@.len());
        assert("esriSpatialRelIndexIntersects"@.len() != "esriSpatialRelRelation"@.len());
        assert("esriSpatialRelOverlaps"@.len() != "esriSpatialRelTouches"@.len());
        assert("esriSpatialRelOverlaps"@.len() != "esriSpatialRelWithin"@.len());
        assert("esriSpatialRelOverlaps"@[14] != "esriSpatialRelRelation"@[14]);
        assert("esriSpatialRelTouches"@.len() != "esriSpatialRelWithin"@.len());
        assert("esriSpatialRelTouches"@.len() != "esriSpatialRelRelation"@.len());
        assert("esriSpatialRelWithin"@.len() != "esriSpatialRelRelation"@.len());
    }

    /// Returns the name the REST API uses for this value.
    pub fn as_param(&self) -> (r: &'static str)
        ensures
            r@ == self.wire_name(),
    {
        match self {
            SpatialRel::Intersects => "esriSpatialRelIntersects",
            SpatialRel::Contains => "esriSpatialRelContains",
            SpatialRel::Crosses => "esriSpatialRelCrosses",
            SpatialRel::EnvelopeIntersects => "esriSpatialRelEnvelopeIntersects",
            SpatialRel::IndexIntersects => "esriSpatialRelIndexIntersects",
            SpatialRel::Overlaps => "esriSpatialRelOverlaps",
            SpatialRel::Touches => "esriSpatialRelTouches",
            SpatialRel::Within => "esriSpatialRelWithin",
            SpatialRel::Relation => "esriSpatialRelRelation",
        }
    }
}

} // verus!
