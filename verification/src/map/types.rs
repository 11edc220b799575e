//! Parameters and results of map service operations.

use vstd::prelude::*;
use crate::geometry::GeometryType;
use crate::http::{opt_pair, pair, push_opt};
use crate::map::enums::{ImageFormat, LayerSelection, ResponseFormat, TimeRelation};
use crate::query::{
    no_pairs, opt_bool, opt_i32, opt_i64, push_opt_bool, push_opt_i32, push_opt_i64,
    push_opt_str, push_text,
};
use crate::text::{i32_text, int_text};

verus! {

/// Declares `std::path::PathBuf`, which an export result may carry; its
/// contents are not inspected.
#[verifier::external_type_specification]
#[verifier::external_body]
pub struct ExPathBuf(std::path::PathBuf);

/// Where an export's data ended up.
pub enum ExportResult {
    /// Written to the file at this path.
    Path(std::path::PathBuf),
    /// Collected in memory.
    Bytes(Vec<u8>),
    /// Written to a caller's writer; the number of bytes written.
    Written(u64),
}

impl ExportResult {
    /// The file path, for an export written to a file.
    pub fn path(&self) -> (r: Option<&std::path::PathBuf>)
        ensures
            match self {
                ExportResult::Path(p) => r == Some(p),
                _ => r is None,
            },
    {
        match self {
            ExportResult::Path(p) => Some(p),
            _ => None,
        }
    }

    /// The bytes, for an export collected in memory.
    pub fn bytes(&self) -> (r: Option<&[u8]>)
        ensures
            match self {
                ExportResult::Bytes(b) => r matches Some(s) && s@ == b@,
                _ => r is None,
            },
    {
        match self {
            ExportResult::Bytes(b) => Some(b.as_slice()),
            _ => None,
        }
    }

    /// The byte count, for an export written to a writer.
    pub fn written(&self) -> (r: Option<u64>)
        ensures
            match self {
                ExportResult::Written(n) => r == Some(*n),
                _ => r is None,
            },
    {
        match self {
            ExportResult::Written(n) => Some(*n),
            _ => None,
        }
    }
}

/// At most one accessor of an export result answers, the one of its
/// variant.
pub proof fn lemma_export_result_one_kind(r: ExportResult)
    ensures
        (r is Path) as int + (r is Bytes) as int + (r is Written) as int == 1,
{
}

/// Address of a cached map tile.
#[derive(Debug, Clone, Copy, PartialEq, Eq, Hash, Structural)]
pub struct TileCoordinate {
    level: u32,
    row: u32,
    col: u32,
}

impl TileCoordinate {
    /// Zoom level of the tile.
    pub closed spec fn level_of(self) -> u32 {
        self.level
    }

    /// Row of the tile.
    pub closed spec fn row_of(self) -> u32 {
        self.row
    }

    /// Column of the tile.
    pub closed spec fn col_of(self) -> u32 {
        self.col
    }

    /// A tile address.
    pub fn new(level: u32, row: u32, col: u32) -> (r: TileCoordinate)
        ensures
            r.level_of() == level,
            r.row_of() == row,
            r.col_of() == col,
    {
        TileCoordinate { level, row, col }
    }

    /// Zoom level of the tile.
    pub fn level(&self) -> (r: u32)
        ensures
            r == self.level_of(),
    {
        self.level
    }

    /// Row of the tile.
    pub fn row(&self) -> (r: u32)
        ensures
            r == self.row_of(),
    {
        self.row
    }

    /// Column of the tile.
    pub fn col(&self) -> (r: u32)
        ensures
            r == self.col_of(),
    {
        self.col
    }
}

/// A spatial reference given by well-known ID.
#[derive(Debug, Clone, Copy, PartialEq, Eq, Structural)]
pub struct SpatialReference {
    pub wkid: i32,
    pub latest_wkid: Option<i32>,
}

/// One entry of a layer's legend.
#[derive(Debug, Clone)]
pub struct LegendSymbol {
    pub label: String,
    pub url: Option<String>,
    pub image_data: Option<String>,
    pub content_type: String,
    pub height: i32,
    pub width: i32,
    pub values: Option<Vec<String>>,
}

/// Parameters of the map `export` operation.
#[derive(Debug, Clone)]
pub struct ExportMapParams {
    /// Extent to export, `xmin,ymin,xmax,ymax`; required.
    pub bbox: String,
    pub bbox_sr: Option<i32>,
    pub layers: Option<String>,
    pub layer_defs: Option<String>,
    pub size: Option<String>,
    pub image_sr: Option<i32>,
    pub historic_moment: Option<i64>,
    pub format: Option<ImageFormat>,
    pub transparent: Option<bool>,
    pub dpi: Option<i32>,
    pub time: Option<String>,
    pub time_relation: Option<TimeRelation>,
    pub layer_time_options: Option<String>,
    pub dynamic_layers: Option<String>,
    pub gdb_version: Option<String>,
    /// Map scale, as the decimal text sent.
    pub map_scale: Option<String>,
    /// Rotation in degrees, as the decimal text sent.
    pub rotation: Option<String>,
    pub datum_transformations: Option<String>,
    pub layer_parameter_values: Option<String>,
    pub map_range_values: Option<String>,
    pub layer_range_values: Option<String>,
    pub clipping: Option<String>,
    pub spatial_filter: Option<String>,
    pub selection_definitions: Option<String>,
    /// Response format of the export call.
    pub format_response: ResponseFormat,
}

impl ExportMapParams {
    /// The urlencoded parameters, in field order, that a request with these
    /// settings carries; unset options are left out.
    pub open spec fn query(self) -> Seq<(Seq<char>, Seq<char>)> {
        pair("bbox"@, self.bbox@)
            + opt_pair("bboxSR"@, opt_i32(self.bbox_sr))
            + opt_pair("layers"@, self.layers.deep_view())
            + opt_pair("layerDefs"@, self.layer_defs.deep_view())
            + opt_pair("size"@, self.size.deep_view())
            + opt_pair("imageSR"@, opt_i32(self.image_sr))
            + opt_pair("historicMoment"@, opt_i64(self.historic_moment))
            + opt_pair("format"@, match self.format { Some(e) => Some(e.wire_name()), None => None })
            + opt_pair("transparent"@, opt_bool(self.transparent))
            + opt_pair("dpi"@, opt_i32(self.dpi))
            + opt_pair("time"@, self.time.deep_view())
            + opt_pair("timeRelation"@, match self.time_relation { Some(e) => Some(e.wire_name()), None => None })
            + opt_pair("layerTimeOptions"@, self.layer_time_options.deep_view())
            + opt_pair("dynamicLayers"@, self.dynamic_layers.deep_view())
            + opt_pair("gdbVersion"@, self.gdb_version.deep_view())
            + opt_pair("mapScale"@, self.map_scale.deep_view())
            + opt_pair("rotation"@, self.rotation.deep_view())
            + opt_pair("datumTransformations"@, self.datum_transformations.deep_view())
            + opt_pair("layerParameterValues"@, self.layer_parameter_values.deep_view())
            + opt_pair("mapRangeValues"@, self.map_range_values.deep_view())
            + opt_pair("layerRangeValues"@, self.layer_range_values.deep_view())
            + opt_pair("clipping"@, self.clipping.deep_view())
            + opt_pair("spatialFilter"@, self.spatial_filter.deep_view())
            + opt_pair("selectionDefinitions"@, self.selection_definitions.deep_view())
            + pair("f"@, self.format_response.wire_name())
    }

    /// Renders the parameters as `query` lists them.
    pub fn to_query(&self) -> (r: Vec<(String, String)>)
        ensures
            r.deep_view() == self.query(),
    {
        let mut q = no_pairs();
        push_text(&mut q, "bbox", self.bbox.as_str());
        push_opt_i32(&mut q, "bboxSR", self.bbox_sr);
        push_opt(&mut q, "layers", &self.layers);
        push_opt(&mut q, "layerDefs", &self.layer_defs);
        push_opt(&mut q, "size", &self.size);
        push_opt_i32(&mut q, "imageSR", self.image_sr);
        push_opt_i64(&mut q, "historicMoment", self.historic_moment);
        let v: Option<&'static str> = match self.format {
            Some(e) => Some(e.as_param()),
            None => None,
        };
        push_opt_str(&mut q, "format", v);
        push_opt_bool(&mut q, "transparent", self.transparent);
        push_opt_i32(&mut q, "dpi", self.dpi);
        push_opt(&mut q, "time", &self.time);
        let v: Option<&'static str> = match self.time_relation {
            Some(e) => Some(e.as_param()),
            None => None,
        };
        push_opt_str(&mut q, "timeRelation", v);
        push_opt(&mut q, "layerTimeOptions", &self.layer_time_options);
        push_opt(&mut q, "dynamicLayers", &self.dynamic_layers);
        push_opt(&mut q, "gdbVersion", &self.gdb_version);
        push_opt(&mut q, "mapScale", &self.map_scale);
        push_opt(&mut q, "rotation", &self.rotation);
        push_opt(&mut q, "datumTransformations", &self.datum_transformations);
        push_opt(&mut q, "layerParameterValues", &self.layer_parameter_values);
        push_opt(&mut q, "mapRangeValues", &self.map_range_values);
        push_opt(&mut q, "layerRangeValues", &self.layer_range_values);
        push_opt(&mut q, "clipping", &self.clipping);
        push_opt(&mut q, "spatialFilter", &self.spatial_filter);
        push_opt(&mut q, "selectionDefinitions", &self.selection_definitions);
        push_text(&mut q, "f", self.format_response.as_param());
        q
    }
}

impl ExportMapParams {
    /// The settings `default` gives: only the fields named here are set.
    pub open spec fn is_default(self) -> bool {
        &&& self.bbox@ == Seq::<char>::empty()
        &&& self.bbox_sr is None
        &&& self.layers is None
        &&& self.layer_defs is None
        &&& self.size.deep_view() == Some("400,400"@)
        &&& self.image_sr is None
        &&& self.historic_moment is None
        &&& self.format == Some(ImageFormat::Png)
        &&& self.transparent == Some(false)
        &&& self.dpi == Some(96i32)
        &&& self.time is None
        &&& self.time_relation is None
        &&& self.layer_time_options is None
        &&& self.dynamic_layers is None
        &&& self.gdb_version is None
        &&& self.map_scale is None
        &&& self.rotation is None
        &&& self.datum_transformations is None
        &&& self.layer_parameter_values is None
        &&& self.map_range_values is None
        &&& self.layer_range_values is None
        &&& self.clipping is None
        &&& self.spatial_filter is None
        &&& self.selection_definitions is None
        &&& self.format_response == ResponseFormat::Json
    }
}

impl Default for ExportMapParams {
    fn default() -> (r: ExportMapParams)
        ensures
            r.is_default(),
    {
        ExportMapParams {
            bbox: String::new(),
            bbox_sr: None,
            layers: None,
            layer_defs: None,
            size: Some(String::from_str("400,400")),
            image_sr: None,
            historic_moment: None,
            format: Some(ImageFormat::Png),
            transparent: Some(false),
            dpi: Some(96),
            time: None,
            time_relation: None,
            layer_time_options: None,
            dynamic_layers: None,
            gdb_version: None,
            map_scale: None,
            rotation: None,
            datum_transformations: None,
            layer_parameter_values: None,
            map_range_values: None,
            layer_range_values: None,
            clipping: None,
            spatial_filter: None,
            selection_definitions: None,
            format_response: ResponseFormat::Json,
        }
    }
}

/// Parameters of the map `identify` operation.
#[derive(Debug, Clone)]
pub struct IdentifyParams {
    /// Geometry to identify with, as JSON or `x,y`.
    pub geometry: String,
    pub geometry_type: GeometryType,
    pub tolerance: i32,
    pub map_extent: String,
    pub image_display: String,
    pub sr: Option<i32>,
    pub layer_defs: Option<String>,
    pub time: Option<String>,
    pub time_relation: Option<TimeRelation>,
    pub layers: Option<LayerSelection>,
    pub return_geometry: Option<bool>,
    /// Generalization offset, as the decimal text sent.
    pub max_allowable_offset: Option<String>,
    pub geometry_precision: Option<i32>,
    pub return_z: Option<bool>,
    pub return_m: Option<bool>,
    pub gdb_version: Option<String>,
    pub return_unformatted_values: Option<bool>,
    pub return_field_name: Option<bool>,
    pub format: ResponseFormat,
    pub dynamic_layers: Option<String>,
    pub layer_time_options: Option<String>,
    pub datum_transformations: Option<String>,
    pub map_range_values: Option<String>,
    pub layer_range_values: Option<String>,
    pub layer_parameter_values: Option<String>,
    pub historic_moment: Option<i64>,
    pub clipping: Option<String>,
    pub spatial_filter: Option<String>,
}

impl IdentifyParams {
    /// The urlencoded parameters, in field order, that a request with these
    /// settings carries; unset options are left out.
    pub open spec fn query(self) -> Seq<(Seq<char>, Seq<char>)> {
        pair("geometry"@, self.geometry@)
            + pair("geometryType"@, self.geometry_type.wire_name())
            + pair("tolerance"@, int_text(self.tolerance as int))
            + pair("mapExtent"@, self.map_extent@)
            + pair("imageDisplay"@, self.image_display@)
            + opt_pair("sr"@, opt_i32(self.sr))
            + opt_pair("layerDefs"@, self.layer_defs.deep_view())
            + opt_pair("time"@, self.time.deep_view())
            + opt_pair("timeRelation"@, match self.time_relation { Some(e) => Some(e.wire_name()), None => None })
            + opt_pair("layers"@, match self.layers { Some(e) => Some(e.wire_name()), None => None })
            + opt_pair("returnGeometry"@, opt_bool(self.return_geometry))
            + opt_pair("maxAllowableOffset"@, self.max_allowable_offset.deep_view())
            + opt_pair("geometryPrecision"@, opt_i32(self.geometry_precision))
            + opt_pair("returnZ"@, opt_bool(self.return_z))
            + opt_pair("returnM"@, opt_bool(self.return_m))
            + opt_pair("gdbVersion"@, self.gdb_version.deep_view())
            + opt_pair("returnUnformattedValues"@, opt_bool(self.return_unformatted_values))
            + opt_pair("returnFieldName"@, opt_bool(self.return_field_name))
            + pair("f"@, self.format.wire_name())
            + opt_pair("dynamicLayers"@, self.dynamic_layers.deep_view())
            + opt_pair("layerTimeOptions"@, self.layer_time_options.deep_view())
            + opt_pair("datumTransformations"@, self.datum_transformations.deep_view())
            + opt_pair("mapRangeValues"@, self.map_range_values.deep_view())
            + opt_pair("layerRangeValues"@, self.layer_range_values.deep_view())
            + opt_pair("layerParameterValues"@, self.layer_parameter_values.deep_view())
            + opt_pair("historicMoment"@, opt_i64(self.historic_moment))
            + opt_pair("clipping"@, self.clipping.deep_view())
            + opt_pair("spatialFilter"@, self.spatial_filter.deep_view())
    }

    /// Renders the parameters as `query` lists them.
    pub fn to_query(&self) -> (r: Vec<(String, String)>)
        ensures
            r.deep_view() == self.query(),
    {
        let mut q = no_pairs();
        push_text(&mut q, "geometry", self.geometry.as_str());
        push_text(&mut q, "geometryType", self.geometry_type.as_param());
        let t = i32_text(self.tolerance);
        push_text(&mut q, "tolerance", t.as_str());
        push_text(&mut q, "mapExtent", self.map_extent.as_str());
        push_text(&mut q, "imageDisplay", self.image_display.as_str());
        push_opt_i32(&mut q, "sr", self.sr);
        push_opt(&mut q, "layerDefs", &self.layer_defs);
        push_opt(&mut q, "time", &self.time);
        let v: Option<&'static str> = match self.time_relation {
            Some(e) => Some(e.as_param()),
            None => None,
        };
        push_opt_str(&mut q, "timeRelation", v);
        let v: Option<&'static str> = match self.layers {
            Some(e) => Some(e.as_param()),
            None => None,
        };
        push_opt_str(&mut q, "layers", v);
        push_opt_bool(&mut q, "returnGeometry", self.return_geometry);
        push_opt(&mut q, "maxAllowableOffset", &self.max_allowable_offset);
        push_opt_i32(&mut q, "geometryPrecision", self.geometry_precision);
        push_opt_bool(&mut q, "returnZ", self.return_z);
        push_opt_bool(&mut q, "returnM", self.return_m);
        push_opt(&mut q, "gdbVersion", &self.gdb_version);
        push_opt_bool(&mut q, "returnUnformattedValues", self.return_unformatted_values);
        push_opt_bool(&mut q, "returnFieldName", self.return_field_name);
        push_text(&mut q, "f", self.format.as_param());
        push_opt(&mut q, "dynamicLayers", &self.dynamic_layers);
        push_opt(&mut q, "layerTimeOptions", &self.layer_time_options);
        push_opt(&mut q, "datumTransformations", &self.datum_transformations);
        push_opt(&mut q, "mapRangeValues", &self.map_range_values);
        push_opt(&mut q, "layerRangeValues", &self.layer_range_values);
        push_opt(&mut q, "layerParameterValues", &self.layer_parameter_values);
        push_opt_i64(&mut q, "historicMoment", self.historic_moment);
        push_opt(&mut q, "clipping", &self.clipping);
        push_opt(&mut q, "spatialFilter", &self.spatial_filter);
        q
    }
}

impl IdentifyParams {
    /// The settings `default` gives: only the fields named here are set.
    pub open spec fn is_default(self) -> bool {
        &&& self.geometry@ == Seq::<char>::empty()
        &&& self.geometry_type == GeometryType::Point
        &&& self.tolerance == 3i32
        &&& self.map_extent@ == Seq::<char>::empty()
        &&& self.image_display@ == Seq::<char>::empty()
        &&& self.sr is None
        &&& self.layer_defs is None
        &&& self.time is None
        &&& self.time_relation is None
        &&& self.layers is None
        &&& self.return_geometry is None
        &&& self.max_allowable_offset is None
        &&& self.geometry_precision is None
        &&& self.return_z is None
        &&& self.return_m is None
        &&& self.gdb_version is None
        &&& self.return_unformatted_values is None
        &&& self.return_field_name is None
        &&& self.format == ResponseFormat::Json
        &&& self.dynamic_layers is None
        &&& self.layer_time_options is None
        &&& self.datum_transformations is None
        &&& self.map_range_values is None
        &&& self.layer_range_values is None
        &&& self.layer_parameter_values is None
        &&& self.historic_moment is None
        &&& self.clipping is None
        &&& self.spatial_filter is None
    }
}

impl Default for IdentifyParams {
    fn default() -> (r: IdentifyParams)
        ensures
            r.is_default(),
    {
        IdentifyParams {
            geometry: String::new(),
            geometry_type: GeometryType::Point,
            tolerance: 3,
            map_extent: String::new(),
            image_display: String::new(),
            sr: None,
            layer_defs: None,
            time: None,
            time_relation: None,
            layers: None,
            return_geometry: None,
            max_allowable_offset: None,
            geometry_precision: None,
            return_z: None,
            return_m: None,
            gdb_version: None,
            return_unformatted_values: None,
            return_field_name: None,
            format: ResponseFormat::Json,
            dynamic_layers: None,
            layer_time_options: None,
            datum_transformations: None,
            map_range_values: None,
            layer_range_values: None,
            layer_parameter_values: None,
            historic_moment: None,
            clipping: None,
            spatial_filter: None,
        }
    }
}

} // verus!
