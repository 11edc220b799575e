//! Service definition vocabulary of ArcGIS feature services: field and
//! geometry types, spatial references, relationships, indexes and editing
//! settings.

use vstd::prelude::*;
use crate::text::{join, seq_join};

verus! {

/// Field types of a feature service (the `esriFieldType*` constants).
#[derive(Debug, Clone, Copy, PartialEq, Eq, Hash, Structural)]
pub enum FieldType {
    SmallInteger,
    Integer,
    BigInteger,
    Single,
    Double,
    String,
    Date,
    DateOnly,
    TimeOnly,
    TimestampOffset,
    Oid,
    Geometry,
    Blob,
    Raster,
    Guid,
    GlobalId,
    Xml,
}

impl FieldType {
    /// The name the REST API uses for this value.
    pub open spec fn wire_name(self) -> Seq<char> {
        match self {
            FieldType::SmallInteger => "esriFieldTypeSmallInteger"@,
            FieldType::Integer => "esriFieldTypeInteger"@,
            FieldType::BigInteger => "esriFieldTypeBigInteger"@,
            FieldType::Single => "esriFieldTypeSingle"@,
            FieldType::Double => "esriFieldTypeDouble"@,
            FieldType::String => "esriFieldTypeString"@,
            FieldType::Date => "esriFieldTypeDate"@,
            FieldType::DateOnly => "esriFieldTypeDateOnly"@,
            FieldType::TimeOnly => "esriFieldTypeTimeOnly"@,
            FieldType::TimestampOffset => "esriFieldTypeTimestampOffset"@,
            FieldType::Oid => "esriFieldTypeOID"@,
            FieldType::Geometry => "esriFieldTypeGeometry"@,
            FieldType::Blob => "esriFieldTypeBlob"@,
            FieldType::Raster => "esriFieldTypeRaster"@,
            FieldType::Guid => "esriFieldTypeGUID"@,
            FieldType::GlobalId => "esriFieldTypeGlobalID"@,
            FieldType::Xml => "esriFieldTypeXML"@,
        }
    }

    /// Each value has its own wire name, as listed; no two values share
    /// one.
    pub proof fn lemma_wire_names(a: Self, b: Self)
        ensures
            a.wire_name() == b.wire_name() ==> a == b,
            a == FieldType::SmallInteger ==> a.wire_name() == "esriFieldTypeSmallInteger"@,
            a == FieldType::Integer ==> a.wire_name() == "esriFieldTypeInteger"@,
            a == FieldType::BigInteger ==> a.wire_name() == "esriFieldTypeBigInteger"@,
            a == FieldType::Single ==> a.wire_name() == "esriFieldTypeSingle"@,
            a == FieldType::Double ==> a.wire_name() == "esriFieldTypeDouble"@,
            a == FieldType::String ==> a.wire_name() == "esriFieldTypeString"@,
            a == FieldType::Date ==> a.wire_name() == "esriFieldTypeDate"@,
            a == FieldType::DateOnly ==> a.wire_name() == "esriFieldTypeDateOnly"@,
            a == FieldType::TimeOnly ==> a.wire_name() == "esriFieldTypeTimeOnly"@,
            a == FieldType::TimestampOffset ==> a.wire_name() == "esriFieldTypeTimestampOffset"@,
            a == FieldType::Oid ==> a.wire_name() == "esriFieldTypeOID"@,
            a == FieldType::Geometry ==> a.wire_name() == "esriFieldTypeGeometry"@,
            a == FieldType::Blob ==> a.wire_name() == "esriFieldTypeBlob"@,
            a == FieldType::Raster ==> a.wire_name() == "esriFieldTypeRaster"@,
            a == FieldType::Guid ==> a.wire_name() == "esriFieldTypeGUID"@,
            a == FieldType::GlobalId ==> a.wire_name() == "esriFieldTypeGlobalID"@,
            a == FieldType::Xml ==> a.wire_name() == "esriFieldTypeXML"@,
    {
        reveal_strlit("esriFieldTypeBigInteger");
        reveal_strlit("esriFieldTypeBlob");
        reveal_strlit("esriFieldTypeDate");
        reveal_strlit("esriFieldTypeDateOnly");
        reveal_strlit("esriFieldTypeDouble");
        reveal_strlit("esriFieldTypeGUID");
        reveal_strlit("esriFieldTypeGeometry");
        reveal_strlit("esriFieldTypeGlobalID");
        reveal_strlit("esriFieldTypeInteger");
        reveal_strlit("esriFieldTypeOID");
        reveal_strlit("esriFieldTypeRaster");
        reveal_strlit("esriFieldTypeSingle");
        reveal_strlit("esriFieldTypeSmallInteger");
        reveal_strlit("esriFieldTypeString");
        reveal_strlit("esriFieldTypeTimeOnly");
        reveal_strlit("esriFieldTypeTimestampOffset");
        reveal_strlit("esriFieldTypeXML");
        assert("esriFieldTypeSmallInteger"@.len() != "esriFieldTypeInteger"@.len());
        assert("esriFieldTypeSmallInteger"@.len() != "esriFieldTypeBigInteger"@.len());
        assert("esriFieldTypeSmallInteger"@.len() != "esriFieldTypeSingle"@.len());
        assert("esriFieldTypeSmallInteger"@.len() != "esriFieldTypeDouble"@.len());
        assert("esriFieldTypeSmallInteger"@.len() != "esriFieldTypeString"@.len());
        assert("esriFieldTypeSmallInteger"@.len() != "esriFieldTypeDate"@.len());
        assert("esriFieldTypeSmallInteger"@.len() != "esriFieldTypeDateOnly"@.len());
        assert("esriFieldTypeSmallInteger"@.len() != "esriFieldTypeTimeOnly"@.len());
        assert("esriFieldTypeSmallInteger"@.len() != "esriFieldTypeTimestampOffset"@.len());
        assert("esriFieldTypeSmallInteger"@.len() != "esriFieldTypeOID"@.len());
        assert("esriFieldTypeSmallInteger"@.len() != "esriFieldTypeGeometry"@.len());
        assert("esriFieldTypeSmallInteger"@.len() != "esriFieldTypeBlob"@.len());
        assert("esriFieldTypeSmallInteger"@.len() != "esriFieldTypeRaster"@.len());
        assert("esriFieldTypeSmallInteger"@.len() != "esriFieldTypeGUID"@.len());
        assert("esriFieldTypeSmallInteger"@.len() != "esriFieldTypeGlobalID"@.len());
        assert("esriFieldTypeSmallInteger"@.len() != "esriFieldTypeXML"@.len());
        assert("esriFieldTypeInteger"@.len() != "esriFieldTypeBigInteger"@.len());
        assert("esriFieldTypeInteger"@.len() != "esriFieldTypeSingle"@.len());
        assert("esriFieldTypeInteger"@.len() != "esriFieldTypeDouble"@.len());
        assert("esriFieldTypeInteger"@.len() != "esriFieldTypeString"@.len());
        assert("esriFieldTypeInteger"@.len() != "esriFieldTypeDate"@.len());
        assert("esriFieldTypeInteger"@.len() != "esriFieldTypeDateOnly"@.len());
        assert("esriFieldTypeInteger"@.len() != "esriFieldTypeTimeOnly"@.len());
        assert("esriFieldTypeInteger"@.len() != "esriFieldTypeTimestampOffset"@.len());
        assert("esriFieldTypeInteger"@.len() != "esriFieldTypeOID"@.len());
        assert("esriFieldTypeInteger"@.len() != "esriFieldTypeGeometry"@.len());
        assert("esriFieldTypeInteger"@.len() != "esriFieldTypeBlob"@.len());
        assert("esriFieldTypeInteger"@.len() != "esriFieldTypeRaster"@.len());
        assert("esriFieldTypeInteger"@.len() != "esriFieldTypeGUID"@.len());
        assert("esriFieldTypeInteger"@.len() != "esriFieldTypeGlobalID"@.len());
        assert("esriFieldTypeInteger"@.len() != "esriFieldTypeXML"@.len());
        assert("esriFieldTypeBigInteger"@.len() != "esriFieldTypeSingle"@.len());
        assert("esriFieldTypeBigInteger"@.len() != "esriFieldTypeDouble"@.len());
        assert("esriFieldTypeBigInteger"@.len() != "esriFieldTypeString"@.len());
        assert("esriFieldTypeBigInteger"@.len() != "esriFieldTypeDate"@.len());
        assert("esriFieldTypeBigInteger"@.len() != "esriFieldTypeDateOnly"@.len());
        assert("esriFieldTypeBigInteger"@.len() != "esriFieldTypeTimeOnly"@.len());
        assert("esriFieldTypeBigInteger"@.len() != "esriFieldTypeTimestampOffset"@.len());
        assert("esriFieldTypeBigInteger"@.len() != "esriFieldTypeOID"@.len());
        assert("esriFieldTypeBigInteger"@.len() != "esriFieldTypeGeometry"@.len());
        assert("esriFieldTypeBigInteger"@.len() != "esriFieldTypeBlob"@.len());
        assert("esriFieldTypeBigInteger"@.len() != "esriFieldTypeRaster"@.len());
        assert("esriFieldTypeBigInteger"@.len() != "esriFieldTypeGUID"@.len());
        assert("esriFieldTypeBigInteger"@.len() != "esriFieldTypeGlobalID"@.len());
        assert("esriFieldTypeBigInteger"@.len() != "esriFieldTypeXML"@.len());
        assert("esriFieldTypeSingle"@[13] != "esriFieldTypeDouble"@[13]);
        assert("esriFieldTypeSingle"@[14] != "esriFieldTypeString"@[14]);
        assert("esriFieldTypeSingle"@.len() != "esriFieldTypeDate"@.len());
        assert("esriFieldTypeSingle"@.len() != "esriFieldTypeDateOnly"@.len());
        assert("esriFieldTypeSingle"@.len() != "esriFieldTypeTimeOnly"@.len());
        assert("esriFieldTypeSingle"@.len() != "esriFieldTypeTimestampOffset"@.len());
        assert("esriFieldTypeSingle"@.len() != "esriFieldTypeOID"@.len());
        assert("esriFieldTypeSingle"@.len() != "esriFieldTypeGeometry"@.len());
        assert("esriFieldTypeSingle"@.len() != "esriFieldTypeBlob"@.len());
        assert("esriFieldTypeSingle"@[13] != "esriFieldTypeRaster"@[13]);
        assert("esriFieldTypeSingle"@.len() != "esriFieldTypeGUID"@.len());
        assert("esriFieldTypeSingle"@.len() != "esriFieldTypeGlobalID"@.len());
        assert("esriFieldTypeSingle"@.len() != "esriFieldTypeXML"@.len());
        assert("esriFieldTypeDouble"@[13] != "esriFieldTypeString"@[13]);
        assert("esriFieldTypeDouble"@.len() != "esriFieldTypeDate"@.len());
        assert("esriFieldTypeDouble"@.len() != "esriFieldTypeDateOnly"@.len());
        assert("esriFieldTypeDouble"@.len() != "esriFieldTypeTimeOnly"@.len());
        assert("esriFieldTypeDouble"@.len() != "esriFieldTypeTimestampOffset"@.len());
        assert("esriFieldTypeDouble"@.len() != "esriFieldTypeOID"@.len());
        assert("esriFieldTypeDouble"@.len() != "esriFieldTypeGeometry"@.len());
        assert("esriFieldTypeDouble"@.len() != "esriFieldTypeBlob"@.len());
        assert("esriFieldTypeDouble"@[13] != "esriFieldTypeRaster"@[13]);
        assert("esriFieldTypeDouble"@.len() != "esriFieldTypeGUID"@.len());
        assert("esriFieldTypeDouble"@.len() != "esriFieldTypeGlobalID"@.len());
        assert("esriFieldTypeDouble"@.len() != "esriFieldTypeXML"@.len());
        assert("esriFieldTypeString"@.len() != "esriFieldTypeDate"@.len());
        assert("esriFieldTypeString"@.len() != "esriFieldTypeDateOnly"@.len());
        assert("esriFieldTypeString"@.len() != "esriFieldTypeTimeOnly"@.len());
        assert("esriFieldTypeString"@.len() != "esriFieldTypeTimestampOffset"@.len());
        assert("esriFieldTypeString"@.len() != "esriFieldTypeOID"@.len());
        assert("esriFieldTypeString"@.len() != "esriFieldTypeGeometry"@.len());
        assert("esriFieldTypeString"@.len() != "esriFieldTypeBlob"@.len());
        assert("esriFieldTypeString"@[13] != "esriFieldTypeRaster"@[13]);
        assert("esriFieldTypeString"@.len() != "esriFieldTypeGUID"@.len());
        assert("esriFieldTypeString"@.len() != "esriFieldTypeGlobalID"@.len());
        assert("esriFieldTypeString"@.len() != "esriFieldTypeXML"@.len());
        assert("esriFieldTypeDate"@.len() != "esriFieldTypeDateOnly"@.len());
        assert("esriFieldTypeDate"@.len() != "esriFieldTypeTimeOnly"@.len());
        assert("esriFieldTypeDate"@.len() != "esriFieldTypeTimestampOffset"@.len());
        assert("esriFieldTypeDate"@.len() != "esriFieldTypeOID"@.len());
        assert("esriFieldTypeDate"@.len() != "esriFieldTypeGeometry"@.len());
        assert("esriFieldTypeDate"@[13] != "esriFieldTypeBlob"@[13]);
        assert("esriFieldTypeDate"@.len() != "esriFieldTypeRaster"@.len());
        assert("esriFieldTypeDate"@[13] != "esriFieldTypeGUID"@[13]);
        assert("esriFieldTypeDate"@.len() != "esriFieldTypeGlobalID"@.len());
        assert("esriFieldTypeDate"@.len() != "esriFieldTypeXML"@.len());
        assert("esriFieldTypeDateOnly"@[13] != "esriFieldTypeTimeOnly"@[13]);
        assert("esriFieldTypeDateOnly"@.len() != "esriFieldTypeTimestampOffset"@.len());
        assert("esriFieldTypeDateOnly"@.len() != "esriFieldTypeOID"@.len());
        assert("esriFieldTypeDateOnly"@[13] != "esriFieldTypeGeometry"@[13]);
        assert("esriFieldTypeDateOnly"@.len() != "esriFieldTypeBlob"@.len());
        assert("esriFieldTypeDateOnly"@.len() != "esriFieldTypeRaster"@.len());
        assert("esriFieldTypeDateOnly"@.len() != "esriFieldTypeGUID"@.len());
        assert("esriFieldTypeDateOnly"@[13] != "esriFieldTypeGlobalID"@[13]);
        assert("esriFieldTypeDateOnly"@.len() != "esriFieldTypeXML"@.len());
        assert("esriFieldTypeTimeOnly"@.len() != "esriFieldTypeTimestampOffset"@.len());
        assert("esriFieldTypeTimeOnly"@.len() != "esriFieldTypeOID"@.len());
        assert("esriFieldTypeTimeOnly"@[13] != "esriFieldTypeGeometry"@[13]);
        assert("esriFieldTypeTimeOnly"@.len() != "esriFieldTypeBlob"@.len());
        assert("esriFieldTypeTimeOnly"@.len() != "esriFieldTypeRaster"@.len());
        assert("esriFieldTypeTimeOnly"@.len() != "esriFieldTypeGUID"@.len());
        assert("esriFieldTypeTimeOnly"@[13] != "esriFieldTypeGlobalID"@[13]);
        assert("esriFieldTypeTimeOnly"@.len() != "esriFieldTypeXML"@.len());
        assert("esriFieldTypeTimestampOffset"@.len() != "esriFieldTypeOID"@.len());
        assert("esriFieldTypeTimestampOffset"@.len() != "esriFieldTypeGeometry"@.len());
        assert("esriFieldTypeTimestampOffset"@.len() != "esriFieldTypeBlob"@.len());
        assert("esriFieldTypeTimestampOffset"@.len() != "esriFieldTypeRaster"@.len());
        assert("esriFieldTypeTimestampOffset"@.len() != "esriFieldTypeGUID"@.len());
        assert("esriFieldTypeTimestampOffset"@.len() != "esriFieldTypeGlobalID"@.len());
        assert("esriFieldTypeTimestampOffset"@.len() != "esriFieldTypeXML"@.len());
        assert("esriFieldTypeOID"@.len() != "esriFieldTypeGeometry"@.len());
        assert("esriFieldTypeOID"@.len() != "esriFieldTypeBlob"@.len());
        assert("esriFieldTypeOID"@.len() != "esriFieldTypeRaster"@.len());
        assert("esriFieldTypeOID"@.len() != "esriFieldTypeGUID"@.len());
        assert("esriFieldTypeOID"@.len() != "esriFieldTypeGlobalID"@.len());
        assert("esriFieldTypeOID"@[13] != "esriFieldTypeXML"@[13]);
        assert("esriFieldTypeGeometry"@.len() != "esriFieldTypeBlob"@.len());
        assert("esriFieldTypeGeometry"@.len() != "esriFieldTypeRaster"@.len());
        assert("esriFieldTypeGeometry"@.len() != "esriFieldTypeGUID"@.len());
        assert("esriFieldTypeGeometry"@[14] != "esriFieldTypeGlobalID"@[14]);
        assert("esriFieldTypeGeometry"@.len() != "esriFieldTypeXML"@.len());
        assert("esriFieldTypeBlob"@.len() != "esriFieldTypeRaster"@.len());
        assert("esriFieldTypeBlob"@[13] != "esriFieldTypeGUID"@[13]);
        assert("esriFieldTypeBlob"@.len() != "esriFieldTypeGlobalID"@.len());
        assert("esriFieldTypeBlob"@.len() != "esriFieldTypeXML"@.len());
        assert("esriFieldTypeRaster"@.len() != "esriFieldTypeGUID"@.len());
        assert("esriFieldTypeRaster"@.len() != "esriFieldTypeGlobalID"@.len());
        assert("esriFieldTypeRaster"@.len() != "esriFieldTypeXML"@.len());
        assert("esriFieldTypeGUID"@.len() != "esriFieldTypeGlobalID"@.len());
        assert("esriFieldTypeGUID"@.len() != "esriFieldTypeXML"@.len());
        assert("esriFieldTypeGlobalID"@.len() != "esriFieldTypeXML"@.len());
    }

    /// Returns the name the REST API uses for this value.
    pub fn as_param(&self) -> (r: &'static str)
        ensures
            r@ == self.wire_name(),
    {
        match self {
            FieldType::SmallInteger => "esriFieldTypeSmallInteger",
            FieldType::Integer => "esriFieldTypeInteger",
            FieldType::BigInteger => "esriFieldTypeBigInteger",
            FieldType::Single => "esriFieldTypeSingle",
            FieldType::Double => "esriFieldTypeDouble",
            FieldType::String => "esriFieldTypeString",
            FieldType::Date => "esriFieldTypeDate",
            FieldType::DateOnly => "esriFieldTypeDateOnly",
            FieldType::TimeOnly => "esriFieldTypeTimeOnly",
            FieldType::TimestampOffset => "esriFieldTypeTimestampOffset",
            FieldType::Oid => "esriFieldTypeOID",
            FieldType::Geometry => "esriFieldTypeGeometry",
            FieldType::Blob => "esriFieldTypeBlob",
            FieldType::Raster => "esriFieldTypeRaster",
            FieldType::Guid => "esriFieldTypeGUID",
            FieldType::GlobalId => "esriFieldTypeGlobalID",
            FieldType::Xml => "esriFieldTypeXML",
        }
    }
}

/// Geometry type of a layer definition.
#[derive(Debug, Clone, Copy, PartialEq, Eq, Hash, Structural)]
pub enum GeometryTypeDefinition {
    Point,
    Multipoint,
    Polyline,
    Polygon,
    Envelope,
}

impl GeometryTypeDefinition {
    /// The name the REST API uses for this value.
    pub open spec fn wire_name(self) -> Seq<char> {
        match self {
            GeometryTypeDefinition::Point => "esriGeometryPoint"@,
            GeometryTypeDefinition::Multipoint => "esriGeometryMultipoint"@,
            GeometryTypeDefinition::Polyline => "esriGeometryPolyline"@,
            GeometryTypeDefinition::Polygon => "esriGeometryPolygon"@,
            GeometryTypeDefinition::Envelope => "esriGeometryEnvelope"@,
        }
    }

    /// Each value has its own wire name, as listed; no two values share
    /// one.
    pub proof fn lemma_wire_names(a: Self, b: Self)
        ensures
            a.wire_name() == b.wire_name() ==> a == b,
            a == GeometryTypeDefinition::Point ==> a.wire_name() == "esriGeometryPoint"@,
            a == GeometryTypeDefinition::Multipoint ==> a.wire_name() == "esriGeometryMultipoint"@,
            a == GeometryTypeDefinition::Polyline ==> a.wire_name() == "esriGeometryPolyline"@,
            a == GeometryTypeDefinition::Polygon ==> a.wire_name() == "esriGeometryPolygon"@,
            a == GeometryTypeDefinition::Envelope ==> a.wire_name() == "esriGeometryEnvelope"@,
    {
        reveal_strlit("esriGeometryEnvelope");
        reveal_strlit("esriGeometryMultipoint");
        reveal_strlit("esriGeometryPoint");
        reveal_strlit("esriGeometryPolygon");
        reveal_strlit("esriGeometryPolyline");
        assert("esriGeometryPoint"@.len() != "esriGeometryMultipoint"@.len());
        assert("esriGeometryPoint"@.len() != "esriGeometryPolyline"@.len());
        assert("esriGeometryPoint"@.len() != "esriGeometryPolygon"@.len());
        assert("esriGeometryPoint"@.len() != "esriGeometryEnvelope"@.len());
        assert("esriGeometryMultipoint"@.len() != "esriGeometryPolyline"@.len());
        assert("esriGeometryMultipoint"@.len() != "esriGeometryPolygon"@.len());
        assert("esriGeometryMultipoint"@.len() != "esriGeometryEnvelope"@.len());
        assert("esriGeometryPolyline"@.len() != "esriGeometryPolygon"@.len());
        assert("esriGeometryPolyline"@[12] != "esriGeometryEnvelope"@[12]);
        assert("esriGeometryPolygon"@.len() != "esriGeometryEnvelope"@.len());
    }

    /// Returns the name the REST API uses for this value.
    pub fn as_param(&self) -> (r: &'static str)
        ensures
            r@ == self.wire_name(),
    {
        match self {
            GeometryTypeDefinition::Point => "esriGeometryPoint",
            GeometryTypeDefinition::Multipoint => "esriGeometryMultipoint",
            GeometryTypeDefinition::Polyline => "esriGeometryPolyline",
            GeometryTypeDefinition::Polygon => "esriGeometryPolygon",
            GeometryTypeDefinition::Envelope => "esriGeometryEnvelope",
        }
    }
}

/// How a domain merges values.
#[derive(Debug, Clone, Copy, PartialEq, Eq, Hash, Structural)]
pub enum MergePolicy {
    DefaultValue,
    SumValues,
    AreaWeighted,
}

impl MergePolicy {
    /// The name the REST API uses for this value.
    pub open spec fn wire_name(self) -> Seq<char> {
        match self {
            MergePolicy::DefaultValue => "esriMPTDefaultValue"@,
            MergePolicy::SumValues => "esriMPTSumValues"@,
            MergePolicy::AreaWeighted => "esriMPTAreaWeighted"@,
        }
    }

    /// Each value has its own wire name, as listed; no two values share
    /// one.
    pub proof fn lemma_wire_names(a: Self, b: Self)
        ensures
            a.wire_name() == b.wire_name() ==> a == b,
            a == MergePolicy::DefaultValue ==> a.wire_name() == "esriMPTDefaultValue"@,
            a == MergePolicy::SumValues ==> a.wire_name() == "esriMPTSumValues"@,
            a == MergePolicy::AreaWeighted ==> a.wire_name() == "esriMPTAreaWeighted"@,
    {
        reveal_strlit("esriMPTAreaWeighted");
        reveal_strlit("esriMPTDefaultValue");
        reveal_strlit("esriMPTSumValues");
        assert("esriMPTDefaultValue"@.len() != "esriMPTSumValues"@.len());
        assert("esriMPTDefaultValue"@[7] != "esriMPTAreaWeighted"@[7]);
        assert("esriMPTSumValues"@.len() != "esriMPTAreaWeighted"@.len());
    }

    /// Returns the name the REST API uses for this value.
    pub fn as_param(&self) -> (r: &'static str)
        ensures
            r@ == self.wire_name(),
    {
        match self {
            MergePolicy::DefaultValue => "esriMPTDefaultValue",
            MergePolicy::SumValues => "esriMPTSumValues",
            MergePolicy::AreaWeighted => "esriMPTAreaWeighted",
        }
    }
}

/// How a domain splits values.
#[derive(Debug, Clone, Copy, PartialEq, Eq, Hash, Structural)]
pub enum SplitPolicy {
    DefaultValue,
    Duplicate,
    GeometryRatio,
}

impl SplitPolicy {
    /// The name the REST API uses for this value.
    pub open spec fn wire_name(self) -> Seq<char> {
        match self {
            SplitPolicy::DefaultValue => "esriSPTDefaultValue"@,
            SplitPolicy::Duplicate => "esriSPTDuplicate"@,
            SplitPolicy::GeometryRatio => "esriSPTGeometryRatio"@,
        }
    }

    /// Each value has its own wire name, as listed; no two values share
    /// one.
    pub proof fn lemma_wire_names(a: Self, b: Self)
        ensures
            a.wire_name() == b.wire_name() ==> a == b,
            a == SplitPolicy::DefaultValue ==> a.wire_name() == "esriSPTDefaultValue"@,
            a == SplitPolicy::Duplicate ==> a.wire_name() == "esriSPTDuplicate"@,
            a == SplitPolicy::GeometryRatio ==> a.wire_name() == "esriSPTGeometryRatio"@,
    {
        reveal_strlit("esriSPTDefaultValue");
        reveal_strlit("esriSPTDuplicate");
        reveal_strlit("esriSPTGeometryRatio");
        assert("esriSPTDefaultValue"@.len() != "esriSPTDuplicate"@.len());
        assert("esriSPTDefaultValue"@.len() != "esriSPTGeometryRatio"@.len());
        assert("esriSPTDuplicate"@.len() != "esriSPTGeometryRatio"@.len());
    }

    /// Returns the name the REST API uses for this value.
    pub fn as_param(&self) -> (r: &'static str)
        ensures
            r@ == self.wire_name(),
    {
        match self {
            SplitPolicy::DefaultValue => "esriSPTDefaultValue",
            SplitPolicy::Duplicate => "esriSPTDuplicate",
            SplitPolicy::GeometryRatio => "esriSPTGeometryRatio",
        }
    }
}

/// Cardinality of a relationship.
#[derive(Debug, Clone, Copy, PartialEq, Eq, Hash, Structural)]
pub enum RelationshipCardinality {
    OneToOne,
    OneToMany,
    ManyToMany,
}

impl RelationshipCardinality {
    /// The name the REST API uses for this value.
    pub open spec fn wire_name(self) -> Seq<char> {
        match self {
            RelationshipCardinality::OneToOne => "esriRelCardinalityOneToOne"@,
            RelationshipCardinality::OneToMany => "esriRelCardinalityOneToMany"@,
            RelationshipCardinality::ManyToMany => "esriRelCardinalityManyToMany"@,
        }
    }

    /// Each value has its own wire name, as listed; no two values share
    /// one.
    pub proof fn lemma_wire_names(a: Self, b: Self)
        ensures
            a.wire_name() == b.wire_name() ==> a == b,
            a == RelationshipCardinality::OneToOne ==> a.wire_name() == "esriRelCardinalityOneToOne"@,
            a == RelationshipCardinality::OneToMany ==> a.wire_name() == "esriRelCardinalityOneToMany"@,
            a == RelationshipCardinality::ManyToMany ==> a.wire_name() == "esriRelCardinalityManyToMany"@,
    {
        reveal_strlit("esriRelCardinalityManyToMany");
        reveal_strlit("esriRelCardinalityOneToMany");
        reveal_strlit("esriRelCardinalityOneToOne");
        assert("esriRelCardinalityOneToOne"@.len() != "esriRelCardinalityOneToMany"@.len());
        assert("esriRelCardinalityOneToOne"@.len() != "esriRelCardinalityManyToMany"@.len());
        assert("esriRelCardinalityOneToMany"@.len() != "esriRelCardinalityManyToMany"@.len());
    }

    /// Returns the name the REST API uses for this value.
    pub fn as_param(&self) -> (r: &'static str)
        ensures
            r@ == self.wire_name(),
    {
        match self {
            RelationshipCardinality::OneToOne => "esriRelCardinalityOneToOne",
            RelationshipCardinality::OneToMany => "esriRelCardinalityOneToMany",
            RelationshipCardinality::ManyToMany => "esriRelCardinalityManyToMany",
        }
    }
}

/// Role of a layer in a relationship.
#[derive(Debug, Clone, Copy, PartialEq, Eq, Hash, Structural)]
pub enum RelationshipRole {
    Origin,
    Destination,
}

impl RelationshipRole {
    /// The name the REST API uses for this value.
    pub open spec fn wire_name(self) -> Seq<char> {
        match self {
            RelationshipRole::Origin => "esriRelRoleOrigin"@,
            RelationshipRole::Destination => "esriRelRoleDestination"@,
        }
    }

    /// Each value has its own wire name, as listed; no two values share
    /// one.
    pub proof fn lemma_wire_names(a: Self, b: Self)
        ensures
            a.wire_name() == b.wire_name() ==> a == b,
            a == RelationshipRole::Origin ==> a.wire_name() == "esriRelRoleOrigin"@,
            a == RelationshipRole::Destination ==> a.wire_name() == "esriRelRoleDestination"@,
    {
        reveal_strlit("esriRelRoleDestination");
        reveal_strlit("esriRelRoleOrigin");
        assert("esriRelRoleOrigin"@.len() != "esriRelRoleDestination"@.len());
    }

    /// Returns the name the REST API uses for this value.
    pub fn as_param(&self) -> (r: &'static str)
        ensures
            r@ == self.wire_name(),
    {
        match self {
            RelationshipRole::Origin => "esriRelRoleOrigin",
            RelationshipRole::Destination => "esriRelRoleDestination",
        }
    }
}

/// Drawing tool of a feature template.
#[derive(Debug, Clone, Copy, PartialEq, Eq, Hash, Structural)]
pub enum DrawingTool {
    /// No tool (`esriFeatureEditToolNone`).
    NoTool,
    Point,
    Line,
    Polygon,
    AutoCompletePolygon,
    Circle,
    Ellipse,
    Rectangle,
    Freehand,
}

impl DrawingTool {
    /// The name the REST API uses for this value.
    pub open spec fn wire_name(self) -> Seq<char> {
        match self {
            DrawingTool::NoTool => "esriFeatureEditToolNone"@,
            DrawingTool::Point => "esriFeatureEditToolPoint"@,
            DrawingTool::Line => "esriFeatureEditToolLine"@,
            DrawingTool::Polygon => "esriFeatureEditToolPolygon"@,
            DrawingTool::AutoCompletePolygon => "esriFeatureEditToolAutoCompletePolygon"@,
            DrawingTool::Circle => "esriFeatureEditToolCircle"@,
            DrawingTool::Ellipse => "esriFeatureEditToolEllipse"@,
            DrawingTool::Rectangle => "esriFeatureEditToolRectangle"@,
            DrawingTool::Freehand => "esriFeatureEditToolFreehand"@,
        }
    }

    /// Each value has its own wire name, as listed; no two values share
    /// one.
    pub proof fn lemma_wire_names(a: Self, b: Self)
        ensures
            a.wire_name() == b.wire_name() ==> a == b,
            a == DrawingTool::NoTool ==> a.wire_name() == "esriFeatureEditToolNone"@,
            a == DrawingTool::Point ==> a.wire_name() == "esriFeatureEditToolPoint"@,
            a == DrawingTool::Line ==> a.wire_name() == "esriFeatureEditToolLine"@,
            a == DrawingTool::Polygon ==> a.wire_name() == "esriFeatureEditToolPolygon"@,
            a == DrawingTool::AutoCompletePolygon ==> a.wire_name() == "esriFeatureEditToolAutoCompletePolygon"@,
            a == DrawingTool::Circle ==> a.wire_name() == "esriFeatureEditToolCircle"@,
            a == DrawingTool::Ellipse ==> a.wire_name() == "esriFeatureEditToolEllipse"@,
            a == DrawingTool::Rectangle ==> a.wire_name() == "esriFeatureEditToolRectangle"@,
            a == DrawingTool::Freehand ==> a.wire_name() == "esriFeatureEditToolFreehand"@,
    {
        reveal_strlit("esriFeatureEditToolAutoCompletePolygon");
        reveal_strlit("esriFeatureEditToolCircle");
        reveal_strlit("esriFeatureEditToolEllipse");
        reveal_strlit("esriFeatureEditToolFreehand");
        reveal_strlit("esriFeatureEditToolLine");
        reveal_strlit("esriFeatureEditToolNone");
        reveal_strlit("esriFeatureEditToolPoint");
        reveal_strlit("esriFeatureEditToolPolygon");
        reveal_strlit("esriFeatureEditToolRectangle");
        assert("esriFeatureEditToolNone"@.len() != "esriFeatureEditToolPoint"@.len());
        assert("esriFeatureEditToolNone"@[19] != "esriFeatureEditToolLine"@[19]);
        assert("esriFeatureEditToolNone"@.len() != "esriFeatureEditToolPolygon"@.len());
        assert("esriFeatureEditToolNone"@.len() != "esriFeatureEditToolAutoCompletePolygon"@.len());
        assert("esriFeatureEditToolNone"@.len() != "esriFeatureEditToolCircle"@.len());
        assert("esriFeatureEditToolNone"@.len() != "esriFeatureEditToolEllipse"@.len());
        assert("esriFeatureEditToolNone"@.len() != "esriFeatureEditToolRectangle"@.len());
        assert("esriFeatureEditToolNone"@.len() != "esriFeatureEditToolFreehand"@.len());
        assert("esriFeatureEditToolPoint"@.len() != "esriFeatureEditToolLine"@.len());
        assert("esriFeatureEditToolPoint"@.len() != "esriFeatureEditToolPolygon"@.len());
        assert("esriFeatureEditToolPoint"@.len() != "esriFeatureEditToolAutoCompletePolygon"@.len());
        assert("esriFeatureEditToolPoint"@.len() != "esriFeatureEditToolCircle"@.len());
        assert("esriFeatureEditToolPoint"@.len() != "esriFeatureEditToolEllipse"@.len());
        assert("esriFeatureEditToolPoint"@.len() != "esriFeatureEditToolRectangle"@.len());
        assert("esriFeatureEditToolPoint"@.len() != "esriFeatureEditToolFreehand"@.len());
        assert("esriFeatureEditToolLine"@.len() != "esriFeatureEditToolPolygon"@.len());
        assert("esriFeatureEditToolLine"@.len() != "esriFeatureEditToolAutoCompletePolygon"@.len());
        assert("esriFeatureEditToolLine"@.len() != "esriFeatureEditToolCircle"@.len());
        assert("esriFeatureEditToolLine"@.len() != "esriFeatureEditToolEllipse"@.len());
        assert("esriFeatureEditToolLine"@.len() != "esriFeatureEditToolRectangle"@.len());
        assert("esriFeatureEditToolLine"@.len() != "esriFeatureEditToolFreehand"@.len());
        assert("esriFeatureEditToolPolygon"@.len() != "esriFeatureEditToolAutoCompletePolygon"@.len());
        assert("esriFeatureEditToolPolygon"@.len() != "esriFeatureEditToolCircle"@.len());
        assert("esriFeatureEditToolPolygon"@[19] != "esriFeatureEditToolEllipse"@[19]);
        assert("esriFeatureEditToolPolygon"@.len() != "esriFeatureEditToolRectangle"@.len());
        assert("esriFeatureEditToolPolygon"@.len() != "esriFeatureEditToolFreehand"@.len());
        assert("esriFeatureEditToolAutoCompletePolygon"@.len() != "esriFeatureEditToolCircle"@.len());
        assert("esriFeatureEditToolAutoCompletePolygon"@.len() != "esriFeatureEditToolEllipse"@.len());
        assert("esriFeatureEditToolAutoCompletePolygon"@.len() != "esriFeatureEditToolRectangle"@.len());
        assert("esriFeatureEditToolAutoCompletePolygon"@.len() != "esriFeatureEditToolFreehand"@.len());
        assert("esriFeatureEditToolCircle"@.len() != "esriFeatureEditToolEllipse"@.len());
        assert("esriFeatureEditToolCircle"@.len() != "esriFeatureEditToolRectangle"@.len());
        assert("esriFeatureEditToolCircle"@.len() != "esriFeatureEditToolFreehand"@.len());
        assert("esriFeatureEditToolEllipse"@.len() != "esriFeatureEditToolRectangle"@.len());
        assert("esriFeatureEditToolEllipse"@.len() != "esriFeatureEditToolFreehand"@.len());
        assert("esriFeatureEditToolRectangle"@.len() != "esriFeatureEditToolFreehand"@.len());
    }

    /// Returns the name the REST API uses for this value.
    pub fn as_param(&self) -> (r: &'static str)
        ensures
            r@ == self.wire_name(),
    {
        match self {
            DrawingTool::NoTool => "esriFeatureEditToolNone",
            DrawingTool::Point => "esriFeatureEditToolPoint",
            DrawingTool::Line => "esriFeatureEditToolLine",
            DrawingTool::Polygon => "esriFeatureEditToolPolygon",
            DrawingTool::AutoCompletePolygon => "esriFeatureEditToolAutoCompletePolygon",
            DrawingTool::Circle => "esriFeatureEditToolCircle",
            DrawingTool::Ellipse => "esriFeatureEditToolEllipse",
            DrawingTool::Rectangle => "esriFeatureEditToolRectangle",
            DrawingTool::Freehand => "esriFeatureEditToolFreehand",
        }
    }
}

/// A spatial reference: by well-known ID, with its latest ID, or as
/// well-known text.
#[derive(Debug, Clone, PartialEq, Eq)]
pub enum SpatialReferenceDefinition {
    Wkid { wkid: i32 },
    WkidWithLatest { wkid: i32, latest_wkid: i32 },
    Wkt { wkt: String },
}

/// Editor tracking settings of a service.
#[derive(Debug, Clone)]
pub struct EditorTrackingInfo {
    pub enable_editor_tracking: bool,
    pub enable_ownership_access_control: Option<bool>,
    pub allow_others_to_query: Option<bool>,
    pub allow_others_to_update: Option<bool>,
    pub allow_others_to_delete: Option<bool>,
}

impl Default for EditorTrackingInfo {
    fn default() -> (r: EditorTrackingInfo)
        ensures
            r == (EditorTrackingInfo {
                enable_editor_tracking: false,
                enable_ownership_access_control: None,
                allow_others_to_query: None,
                allow_others_to_update: None,
                allow_others_to_delete: None,
            }),
    {
        EditorTrackingInfo {
            enable_editor_tracking: false,
            enable_ownership_access_control: None,
            allow_others_to_query: None,
            allow_others_to_update: None,
            allow_others_to_delete: None,
        }
    }
}

/// Cross-site scripting protection of a service.
#[derive(Debug, Clone)]
pub struct XssPreventionInfo {
    pub xss_prevention_enabled: bool,
    pub xss_prevention_rule: Option<String>,
    pub xss_input_rule: Option<String>,
}

/// A relationship between a layer and a table.
#[derive(Debug, Clone, PartialEq, Eq)]
pub struct LayerRelationship {
    pub id: i32,
    pub name: Option<String>,
    pub role: RelationshipRole,
    pub cardinality: RelationshipCardinality,
    pub related_table_id: i32,
    pub key_field: String,
    pub composite_key_field_name: Option<String>,
}

impl Default for LayerRelationship {
    fn default() -> (r: LayerRelationship)
        ensures
            r.id == 0,
            r.name is None,
            r.role == RelationshipRole::Origin,
            r.cardinality == RelationshipCardinality::OneToMany,
            r.related_table_id == 0,
            r.key_field@ == Seq::<char>::empty(),
            r.composite_key_field_name is None,
    {
        LayerRelationship {
            id: 0,
            name: None,
            role: RelationshipRole::Origin,
            cardinality: RelationshipCardinality::OneToMany,
            related_table_id: 0,
            key_field: String::new(),
            composite_key_field_name: None,
        }
    }
}

/// An attribute index of a layer or table.
#[derive(Debug, Clone, PartialEq, Eq)]
pub struct Index {
    pub name: String,
    /// Indexed fields; sent joined with commas.
    pub fields: Vec<String>,
    pub is_ascending: Option<bool>,
    pub is_unique: Option<bool>,
    pub description: Option<String>,
}

impl Index {
    /// The `fields` value the service reads: the field names joined with
    /// commas.
    pub fn fields_text(&self) -> (r: String)
        ensures
            r@ == seq_join(self.fields.deep_view(), ","@),
    {
        join(&self.fields, ",")
    }

}

/// Fields that record who edited a feature and when.
#[derive(Debug, Clone, PartialEq, Eq)]
pub struct EditFieldsInfo {
    pub creation_date_field: Option<String>,
    pub creator_field: Option<String>,
    pub edit_date_field: Option<String>,
    pub editor_field: Option<String>,
}

impl Default for EditFieldsInfo {
    fn default() -> (r: EditFieldsInfo)
        ensures
            r == (EditFieldsInfo {
                creation_date_field: None,
                creator_field: None,
                edit_date_field: None,
                editor_field: None,
            }),
    {
        EditFieldsInfo {
            creation_date_field: None,
            creator_field: None,
            edit_date_field: None,
            editor_field: None,
        }
    }
}

} // verus!
