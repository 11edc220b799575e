//! Fluent construction of a map export.

use vstd::prelude::*;
use crate::map::client::MapServiceClient;
use crate::map::enums::{ImageFormat, LayerOperation, ResponseFormat, TimeRelation};
use crate::map::types::ExportMapParams;
use crate::text::{int_texts, join_i32, seq_join, u32_text, dec_digits};

verus! {

/// Export settings collected step by step for one map service.
#[derive(Debug, Clone)]
pub struct ExportMapBuilder {
    pub client: MapServiceClient,
    pub params: ExportMapParams,
}

/// The `layers` value `<operation>:<id>,<id>,...`.
pub open spec fn layer_visibility_text(operation: LayerOperation, ids: Seq<i32>) -> Seq<char> {
    operation.op_name() + ":"@ + seq_join(int_texts(ids), ","@)
}

impl ExportMapBuilder {
    /// A builder with the default export settings.
    pub fn new(client: MapServiceClient) -> (r: ExportMapBuilder)
        ensures
            r.client == client,
            r.params.is_default(),
    {
        ExportMapBuilder { client, params: ExportMapParams::default() }
    }

    /// Sets the extent to export.
    pub fn bbox(self, bbox: String) -> (r: ExportMapBuilder)
        ensures
            r.client == self.client,
            r.params == (ExportMapParams { bbox: bbox, ..self.params }),
    {
        let mut b = self;
        b.params.bbox = bbox;
        b
    }

    /// Sets the spatial reference of the extent.
    pub fn bbox_sr(self, wkid: i32) -> (r: ExportMapBuilder)
        ensures
            r.client == self.client,
            r.params == (ExportMapParams { bbox_sr: Some(wkid), ..self.params }),
    {
        let mut b = self;
        b.params.bbox_sr = Some(wkid);
        b
    }

    /// Sets the `layers` parameter as given.
    pub fn layers(self, layers: String) -> (r: ExportMapBuilder)
        ensures
            r.client == self.client,
            r.params == (ExportMapParams { layers: Some(layers), ..self.params }),
    {
        let mut b = self;
        b.params.layers = Some(layers);
        b
    }

    /// Sets layer definition expressions.
    pub fn layer_defs(self, defs: String) -> (r: ExportMapBuilder)
        ensures
            r.client == self.client,
            r.params == (ExportMapParams { layer_defs: Some(defs), ..self.params }),
    {
        let mut b = self;
        b.params.layer_defs = Some(defs);
        b
    }

    /// Sets the resolution.
    pub fn dpi(self, dpi: i32) -> (r: ExportMapBuilder)
        ensures
            r.client == self.client,
            r.params == (ExportMapParams { dpi: Some(dpi), ..self.params }),
    {
        let mut b = self;
        b.params.dpi = Some(dpi);
        b
    }

    /// Sets the spatial reference of the image.
    pub fn image_sr(self, wkid: i32) -> (r: ExportMapBuilder)
        ensures
            r.client == self.client,
            r.params == (ExportMapParams { image_sr: Some(wkid), ..self.params }),
    {
        let mut b = self;
        b.params.image_sr = Some(wkid);
        b
    }

    /// Sets the image format.
    pub fn format(self, format: ImageFormat) -> (r: ExportMapBuilder)
        ensures
            r.client == self.client,
            r.params == (ExportMapParams { format: Some(format), ..self.params }),
    {
        let mut b = self;
        b.params.format = Some(format);
        b
    }

    /// Sets whether the background is transparent.
    pub fn transparent(self, transparent: bool) -> (r: ExportMapBuilder)
        ensures
            r.client == self.client,
            r.params == (ExportMapParams { transparent: Some(transparent), ..self.params }),
    {
        let mut b = self;
        b.params.transparent = Some(transparent);
        b
    }

    /// Sets the time instant or extent.
    pub fn time(self, time: String) -> (r: ExportMapBuilder)
        ensures
            r.client == self.client,
            r.params == (ExportMapParams { time: Some(time), ..self.params }),
    {
        let mut b = self;
        b.params.time = Some(time);
        b
    }

    /// Sets the temporal relationship.
    pub fn time_relation(self, relation: TimeRelation) -> (r: ExportMapBuilder)
        ensures
            r.client == self.client,
            r.params == (ExportMapParams { time_relation: Some(relation), ..self.params }),
    {
        let mut b = self;
        b.params.time_relation = Some(relation);
        b
    }

    /// Sets per-layer time options.
    pub fn layer_time_options(self, options: String) -> (r: ExportMapBuilder)
        ensures
            r.client == self.client,
            r.params == (ExportMapParams { layer_time_options: Some(options), ..self.params }),
    {
        let mut b = self;
        b.params.layer_time_options = Some(options);
        b
    }

    /// Sets dynamic layer definitions.
    pub fn dynamic_layers(self, layers: String) -> (r: ExportMapBuilder)
        ensures
            r.client == self.client,
            r.params == (ExportMapParams { dynamic_layers: Some(layers), ..self.params }),
    {
        let mut b = self;
        b.params.dynamic_layers = Some(layers);
        b
    }

    /// Sets the geodatabase version.
    pub fn gdb_version(self, version: String) -> (r: ExportMapBuilder)
        ensures
            r.client == self.client,
            r.params == (ExportMapParams { gdb_version: Some(version), ..self.params }),
    {
        let mut b = self;
        b.params.gdb_version = Some(version);
        b
    }

    /// Sets the map scale, given as the decimal text to send.
    pub fn map_scale(self, scale: String) -> (r: ExportMapBuilder)
        ensures
            r.client == self.client,
            r.params == (ExportMapParams { map_scale: Some(scale), ..self.params }),
    {
        let mut b = self;
        b.params.map_scale = Some(scale);
        b
    }

    /// Sets the rotation, given as the decimal text to send.
    pub fn rotation(self, degrees: String) -> (r: ExportMapBuilder)
        ensures
            r.client == self.client,
            r.params == (ExportMapParams { rotation: Some(degrees), ..self.params }),
    {
        let mut b = self;
        b.params.rotation = Some(degrees);
        b
    }

    /// Sets datum transformations.
    pub fn datum_transformations(self, transformations: String) -> (r: ExportMapBuilder)
        ensures
            r.client == self.client,
            r.params == (ExportMapParams { datum_transformations: Some(transformations), ..self.params }),
    {
        let mut b = self;
        b.params.datum_transformations = Some(transformations);
        b
    }

    /// Sets map range values.
    pub fn map_range_values(self, values: String) -> (r: ExportMapBuilder)
        ensures
            r.client == self.client,
            r.params == (ExportMapParams { map_range_values: Some(values), ..self.params }),
    {
        let mut b = self;
        b.params.map_range_values = Some(values);
        b
    }

    /// Sets layer parameter values.
    pub fn layer_parameter_values(self, values: String) -> (r: ExportMapBuilder)
        ensures
            r.client == self.client,
            r.params == (ExportMapParams { layer_parameter_values: Some(values), ..self.params }),
    {
        let mut b = self;
        b.params.layer_parameter_values = Some(values);
        b
    }

    /// Sets the response format.
    pub fn response_format(self, format: ResponseFormat) -> (r: ExportMapBuilder)
        ensures
            r.client == self.client,
            r.params == (ExportMapParams { format_response: format, ..self.params }),
    {
        let mut b = self;
        b.params.format_response = format;
        b
    }

    /// Shows, hides, includes or excludes the given layers:
    /// `layers=<operation>:<ids>`.
    pub fn layer_visibility(self, operation: LayerOperation, layer_ids: &[i32]) -> (r: ExportMapBuilder)
        ensures
            r.client == self.client,
            r.params.layers.deep_view() == Some(layer_visibility_text(operation, layer_ids@)),
            r.params == (ExportMapParams { layers: r.params.layers, ..self.params }),
    {
        let ids = join_i32(layer_ids);
        let mut text = String::from_str(operation.as_str());
        text.append(":");
        text.append(ids.as_str());
        proof {
            reveal_strlit(":");
        }
        let mut b = self;
        b.params.layers = Some(text);
        b
    }

    /// Sets the image size in pixels: `size=<width>,<height>`.
    pub fn size(self, width: u32, height: u32) -> (r: ExportMapBuilder)
        ensures
            r.client == self.client,
            r.params.size.deep_view() == Some(
                dec_digits(width as nat) + ","@ + dec_digits(height as nat),
            ),
            r.params == (ExportMapParams { size: r.params.size, ..self.params }),
    {
        let w = u32_text(width);
        let h = u32_text(height);
        let mut text = w;
        text.append(",");
        text.append(h.as_str());
        proof {
            reveal_strlit(",");
        }
        let mut b = self;
        b.params.size = Some(text);
        b
    }

    /// Asks for pretty-printed JSON (`pjson`) or compact JSON (`json`).
    pub fn pretty_json(self, pretty: bool) -> (r: ExportMapBuilder)
        ensures
            r.client == self.client,
            r.params == (ExportMapParams {
                format_response: if pretty {
                    ResponseFormat::PJson
                } else {
                    ResponseFormat::Json
                },
                ..self.params
            }),
    {
        let mut b = self;
        b.params.format_response = if pretty {
            ResponseFormat::PJson
        } else {
            ResponseFormat::Json
        };
        b
    }
}

} // verus!
