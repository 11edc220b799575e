//! Definitions of hosted feature services, their layers, tables and
//! fields, with builders whose unset fields take the definitions'
//! defaults. Values the service reads as free-form JSON (default values,
//! domains, template attributes, extents) are held as their JSON text.

use vstd::prelude::*;
use crate::portal::service_definition::{
    DrawingTool, EditFieldsInfo, EditorTrackingInfo, FieldType, GeometryTypeDefinition, Index,
    LayerRelationship, SpatialReferenceDefinition, XssPreventionInfo,
};

verus! {

/// A template for new features.
#[derive(Debug, Clone)]
pub struct FeatureTemplate {
    pub name: String,
    pub description: Option<String>,
    /// Attributes of the prototype feature, as JSON text.
    pub prototype: String,
    pub drawing_tool: DrawingTool,
}

/// A field of a layer or table.
#[derive(Debug, Clone)]
pub struct FieldDefinition {
    pub name: String,
    pub field_type: FieldType,
    pub alias: Option<String>,
    pub length: Option<i32>,
    pub nullable: Option<bool>,
    pub editable: Option<bool>,
    pub required: Option<bool>,
    /// Default value, as JSON text.
    pub default_value: Option<String>,
    /// Attribute domain, as JSON text.
    pub domain: Option<String>,
    pub model_name: Option<String>,
}

/// Collects the fields of a `FieldDefinition`; unset fields take their defaults.
#[derive(Debug, Clone)]
pub struct FieldDefinitionBuilder {
    pub name: Option<String>,
    pub field_type: Option<FieldType>,
    pub alias: Option<Option<String>>,
    pub length: Option<Option<i32>>,
    pub nullable: Option<Option<bool>>,
    pub editable: Option<Option<bool>>,
    pub required: Option<Option<bool>>,
    pub default_value: Option<Option<String>>,
    pub domain: Option<Option<String>>,
    pub model_name: Option<Option<String>>,
}

impl Default for FieldDefinitionBuilder {
    fn default() -> (r: FieldDefinitionBuilder)
        ensures
            r == (FieldDefinitionBuilder { name: None, field_type: None, alias: None, length: None, nullable: None, editable: None, required: None, default_value: None, domain: None, model_name: None }),
    {
        FieldDefinitionBuilder { name: None, field_type: None, alias: None, length: None, nullable: None, editable: None, required: None, default_value: None, domain: None, model_name: None }
    }
}

impl FieldDefinitionBuilder {
    /// Sets `name`.
    pub fn name(self, value: String) -> (r: FieldDefinitionBuilder)
        ensures
            r == (FieldDefinitionBuilder { name: Some(value), ..self }),
    {
        FieldDefinitionBuilder { name: Some(value), ..self }
    }

    /// Sets `field_type`.
    pub fn field_type(self, value: FieldType) -> (r: FieldDefinitionBuilder)
        ensures
            r == (FieldDefinitionBuilder { field_type: Some(value), ..self }),
    {
        FieldDefinitionBuilder { field_type: Some(value), ..self }
    }

    /// Sets `alias`.
    pub fn alias(self, value: String) -> (r: FieldDefinitionBuilder)
        ensures
            r == (FieldDefinitionBuilder { alias: Some(Some(value)), ..self }),
    {
        FieldDefinitionBuilder { alias: Some(Some(value)), ..self }
    }

    /// Sets `length`.
    pub fn length(self, value: i32) -> (r: FieldDefinitionBuilder)
        ensures
            r == (FieldDefinitionBuilder { length: Some(Some(value)), ..self }),
    {
        FieldDefinitionBuilder { length: Some(Some(value)), ..self }
    }

    /// Sets `nullable`.
    pub fn nullable(self, value: bool) -> (r: FieldDefinitionBuilder)
        ensures
            r == (FieldDefinitionBuilder { nullable: Some(Some(value)), ..self }),
    {
        FieldDefinitionBuilder { nullable: Some(Some(value)), ..self }
    }

    /// Sets `editable`.
    pub fn editable(self, value: bool) -> (r: FieldDefinitionBuilder)
        ensures
            r == (FieldDefinitionBuilder { editable: Some(Some(value)), ..self }),
    {
        FieldDefinitionBuilder { editable: Some(Some(value)), ..self }
    }

    /// Sets `required`.
    pub fn required(self, value: bool) -> (r: FieldDefinitionBuilder)
        ensures
            r == (FieldDefinitionBuilder { required: Some(Some(value)), ..self }),
    {
        FieldDefinitionBuilder { required: Some(Some(value)), ..self }
    }

    /// Sets `default_value`.
    pub fn default_value(self, value: String) -> (r: FieldDefinitionBuilder)
        ensures
            r == (FieldDefinitionBuilder { default_value: Some(Some(value)), ..self }),
    {
        FieldDefinitionBuilder { default_value: Some(Some(value)), ..self }
    }

    /// Sets `domain`.
    pub fn domain(self, value: String) -> (r: FieldDefinitionBuilder)
        ensures
            r == (FieldDefinitionBuilder { domain: Some(Some(value)), ..self }),
    {
        FieldDefinitionBuilder { domain: Some(Some(value)), ..self }
    }

    /// Sets `model_name`.
    pub fn model_name(self, value: String) -> (r: FieldDefinitionBuilder)
        ensures
            r == (FieldDefinitionBuilder { model_name: Some(Some(value)), ..self }),
    {
        FieldDefinitionBuilder { model_name: Some(Some(value)), ..self }
    }

    /// The `FieldDefinition`; unset fields take their defaults.
    pub fn build(self) -> (r: FieldDefinition)
        ensures
            r.name@ == (match self.name { Some(v) => v@, None => Seq::empty() }),
            r.field_type == (match self.field_type { Some(v) => v, None => FieldType::String }),
            r.alias == (match self.alias { Some(v) => v, None => None }),
            r.length == (match self.length { Some(v) => v, None => None }),
            r.nullable == (match self.nullable { Some(v) => v, None => None }),
            r.editable == (match self.editable { Some(v) => v, None => None }),
            r.required == (match self.required { Some(v) => v, None => None }),
            r.default_value == (match self.default_value { Some(v) => v, None => None }),
            r.domain == (match self.domain { Some(v) => v, None => None }),
            r.model_name == (match self.model_name { Some(v) => v, None => None }),
    {
        FieldDefinition {
            name: match self.name { Some(v) => v, None => String::new() },
            field_type: match self.field_type { Some(v) => v, None => FieldType::String },
            alias: match self.alias { Some(v) => v, None => None },
            length: match self.length { Some(v) => v, None => None },
            nullable: match self.nullable { Some(v) => v, None => None },
            editable: match self.editable { Some(v) => v, None => None },
            required: match self.required { Some(v) => v, None => None },
            default_value: match self.default_value { Some(v) => v, None => None },
            domain: match self.domain { Some(v) => v, None => None },
            model_name: match self.model_name { Some(v) => v, None => None },
        }
    }
}

/// A layer of a feature service.
#[derive(Debug, Clone)]
pub struct LayerDefinition {
    pub id: u32,
    pub name: String,
    pub layer_type: Option<String>,
    pub geometry_type: GeometryTypeDefinition,
    pub fields: Vec<FieldDefinition>,
    pub object_id_field: Option<String>,
    pub global_id_field: Option<String>,
    pub display_field: Option<String>,
    pub description: Option<String>,
    pub copyright_text: Option<String>,
    pub default_visibility: Option<bool>,
    pub templates: Vec<FeatureTemplate>,
    pub indexes: Vec<Index>,
    pub edit_fields_info: Option<EditFieldsInfo>,
    pub relationships: Vec<LayerRelationship>,
    pub is_data_branch_versioned: Option<bool>,
}

/// Collects the fields of a `LayerDefinition`; unset fields take their defaults.
#[derive(Debug, Clone)]
pub struct LayerDefinitionBuilder {
    pub id: Option<u32>,
    pub name: Option<String>,
    pub layer_type: Option<Option<String>>,
    pub geometry_type: Option<GeometryTypeDefinition>,
    pub fields: Option<Vec<FieldDefinition>>,
    pub object_id_field: Option<Option<String>>,
    pub global_id_field: Option<Option<String>>,
    pub display_field: Option<Option<String>>,
    pub description: Option<Option<String>>,
    pub copyright_text: Option<Option<String>>,
    pub default_visibility: Option<Option<bool>>,
    pub templates: Option<Vec<FeatureTemplate>>,
    pub indexes: Option<Vec<Index>>,
    pub edit_fields_info: Option<Option<EditFieldsInfo>>,
    pub relationships: Option<Vec<LayerRelationship>>,
    pub is_data_branch_versioned: Option<Option<bool>>,
}

impl Default for LayerDefinitionBuilder {
    fn default() -> (r: LayerDefinitionBuilder)
        ensures
            r == (LayerDefinitionBuilder { id: None, name: None, layer_type: None, geometry_type: None, fields: None, object_id_field: None, global_id_field: None, display_field: None, description: None, copyright_text: None, default_visibility: None, templates: None, indexes: None, edit_fields_info: None, relationships: None, is_data_branch_versioned: None }),
    {
        LayerDefinitionBuilder { id: None, name: None, layer_type: None, geometry_type: None, fields: None, object_id_field: None, global_id_field: None, display_field: None, description: None, copyright_text: None, default_visibility: None, templates: None, indexes: None, edit_fields_info: None, relationships: None, is_data_branch_versioned: None }
    }
}

impl LayerDefinitionBuilder {
    /// Sets `id`.
    pub fn id(self, value: u32) -> (r: LayerDefinitionBuilder)
        ensures
            r == (LayerDefinitionBuilder { id: Some(value), ..self }),
    {
        LayerDefinitionBuilder { id: Some(value), ..self }
    }

    /// Sets `name`.
    pub fn name(self, value: String) -> (r: LayerDefinitionBuilder)
        ensures
            r == (LayerDefinitionBuilder { name: Some(value), ..self }),
    {
        LayerDefinitionBuilder { name: Some(value), ..self }
    }

    /// Sets `layer_type`.
    pub fn layer_type(self, value: String) -> (r: LayerDefinitionBuilder)
        ensures
            r == (LayerDefinitionBuilder { layer_type: Some(Some(value)), ..self }),
    {
        LayerDefinitionBuilder { layer_type: Some(Some(value)), ..self }
    }

    /// Sets `geometry_type`.
    pub fn geometry_type(self, value: GeometryTypeDefinition) -> (r: LayerDefinitionBuilder)
        ensures
            r == (LayerDefinitionBuilder { geometry_type: Some(value), ..self }),
    {
        LayerDefinitionBuilder { geometry_type: Some(value), ..self }
    }

    /// Sets `fields`.
    pub fn fields(self, value: Vec<FieldDefinition>) -> (r: LayerDefinitionBuilder)
        ensures
            r == (LayerDefinitionBuilder { fields: Some(value), ..self }),
    {
        LayerDefinitionBuilder { fields: Some(value), ..self }
    }

    /// Sets `object_id_field`.
    pub fn object_id_field(self, value: String) -> (r: LayerDefinitionBuilder)
        ensures
            r == (LayerDefinitionBuilder { object_id_field: Some(Some(value)), ..self }),
    {
        LayerDefinitionBuilder { object_id_field: Some(Some(value)), ..self }
    }

    /// Sets `global_id_field`.
    pub fn global_id_field(self, value: String) -> (r: LayerDefinitionBuilder)
        ensures
            r == (LayerDefinitionBuilder { global_id_field: Some(Some(value)), ..self }),
    {
        LayerDefinitionBuilder { global_id_field: Some(Some(value)), ..self }
    }

    /// Sets `display_field`.
    pub fn display_field(self, value: String) -> (r: LayerDefinitionBuilder)
        ensures
            r == (LayerDefinitionBuilder { display_field: Some(Some(value)), ..self }),
    {
        LayerDefinitionBuilder { display_field: Some(Some(value)), ..self }
    }

    /// Sets `description`.
    pub fn description(self, value: String) -> (r: LayerDefinitionBuilder)
        ensures
            r == (LayerDefinitionBuilder { description: Some(Some(value)), ..self }),
    {
        LayerDefinitionBuilder { description: Some(Some(value)), ..self }
    }

    /// Sets `copyright_text`.
    pub fn copyright_text(self, value: String) -> (r: LayerDefinitionBuilder)
        ensures
            r == (LayerDefinitionBuilder { copyright_text: Some(Some(value)), ..self }),
    {
        LayerDefinitionBuilder { copyright_text: Some(Some(value)), ..self }
    }

    /// Sets `default_visibility`.
    pub fn default_visibility(self, value: bool) -> (r: LayerDefinitionBuilder)
        ensures
            r == (LayerDefinitionBuilder { default_visibility: Some(Some(value)), ..self }),
    {
        LayerDefinitionBuilder { default_visibility: Some(Some(value)), ..self }
    }

    /// Sets `templates`.
    pub fn templates(self, value: Vec<FeatureTemplate>) -> (r: LayerDefinitionBuilder)
        ensures
            r == (LayerDefinitionBuilder { templates: Some(value), ..self }),
    {
        LayerDefinitionBuilder { templates: Some(value), ..self }
    }

    /// Sets `indexes`.
    pub fn indexes(self, value: Vec<Index>) -> (r: LayerDefinitionBuilder)
        ensures
            r == (LayerDefinitionBuilder { indexes: Some(value), ..self }),
    {
        LayerDefinitionBuilder { indexes: Some(value), ..self }
    }

    /// Sets `edit_fields_info`.
    pub fn edit_fields_info(self, value: EditFieldsInfo) -> (r: LayerDefinitionBuilder)
        ensures
            r == (LayerDefinitionBuilder { edit_fields_info: Some(Some(value)), ..self }),
    {
        LayerDefinitionBuilder { edit_fields_info: Some(Some(value)), ..self }
    }

    /// Sets `relationships`.
    pub fn relationships(self, value: Vec<LayerRelationship>) -> (r: LayerDefinitionBuilder)
        ensures
            r == (LayerDefinitionBuilder { relationships: Some(value), ..self }),
    {
        LayerDefinitionBuilder { relationships: Some(value), ..self }
    }

    /// Sets `is_data_branch_versioned`.
    pub fn is_data_branch_versioned(self, value: bool) -> (r: LayerDefinitionBuilder)
        ensures
            r == (LayerDefinitionBuilder { is_data_branch_versioned: Some(Some(value)), ..self }),
    {
        LayerDefinitionBuilder { is_data_branch_versioned: Some(Some(value)), ..self }
    }

    /// Appends a field.
    pub fn add_field(self, item: FieldDefinition) -> (r: LayerDefinitionBuilder)
        ensures
            r.fields matches Some(v) && v@ == match self.fields {
                Some(old) => old@,
                None => Seq::empty(),
            }.push(item),
            r == (LayerDefinitionBuilder { fields: r.fields, ..self }),
    {
        let mut items = match self.fields {
            Some(v) => v,
            None => Vec::new(),
        };
        items.push(item);
        LayerDefinitionBuilder { fields: Some(items), ..self }
    }

    /// Appends a template.
    pub fn add_template(self, item: FeatureTemplate) -> (r: LayerDefinitionBuilder)
        ensures
            r.templates matches Some(v) && v@ == match self.templates {
                Some(old) => old@,
                None => Seq::empty(),
            }.push(item),
            r == (LayerDefinitionBuilder { templates: r.templates, ..self }),
    {
        let mut items = match self.templates {
            Some(v) => v,
            None => Vec::new(),
        };
        items.push(item);
        LayerDefinitionBuilder { templates: Some(items), ..self }
    }

    /// Appends an index.
    pub fn add_index(self, item: Index) -> (r: LayerDefinitionBuilder)
        ensures
            r.indexes matches Some(v) && v@ == match self.indexes {
                Some(old) => old@,
                None => Seq::empty(),
            }.push(item),
            r == (LayerDefinitionBuilder { indexes: r.indexes, ..self }),
    {
        let mut items = match self.indexes {
            Some(v) => v,
            None => Vec::new(),
        };
        items.push(item);
        LayerDefinitionBuilder { indexes: Some(items), ..self }
    }

    /// Appends a relationship.
    pub fn add_relationship(self, item: LayerRelationship) -> (r: LayerDefinitionBuilder)
        ensures
            r.relationships matches Some(v) && v@ == match self.relationships {
                Some(old) => old@,
                None => Seq::empty(),
            }.push(item),
            r == (LayerDefinitionBuilder { relationships: r.relationships, ..self }),
    {
        let mut items = match self.relationships {
            Some(v) => v,
            None => Vec::new(),
        };
        items.push(item);
        LayerDefinitionBuilder { relationships: Some(items), ..self }
    }

    /// The `LayerDefinition`; unset fields take their defaults.
    pub fn build(self) -> (r: LayerDefinition)
        ensures
            r.id == (match self.id { Some(v) => v, None => 0u32 }),
            r.name@ == (match self.name { Some(v) => v@, None => Seq::empty() }),
            r.layer_type == (match self.layer_type { Some(v) => v, None => None }),
            r.geometry_type == (match self.geometry_type { Some(v) => v, None => GeometryTypeDefinition::Point }),
            r.fields@ == (match self.fields { Some(v) => v@, None => Seq::empty() }),
            r.object_id_field == (match self.object_id_field { Some(v) => v, None => None }),
            r.global_id_field == (match self.global_id_field { Some(v) => v, None => None }),
            r.display_field == (match self.display_field { Some(v) => v, None => None }),
            r.description == (match self.description { Some(v) => v, None => None }),
            r.copyright_text == (match self.copyright_text { Some(v) => v, None => None }),
            r.default_visibility == (match self.default_visibility { Some(v) => v, None => None }),
            r.templates@ == (match self.templates { Some(v) => v@, None => Seq::empty() }),
            r.indexes@ == (match self.indexes { Some(v) => v@, None => Seq::empty() }),
            r.edit_fields_info == (match self.edit_fields_info { Some(v) => v, None => None }),
            r.relationships@ == (match self.relationships { Some(v) => v@, None => Seq::empty() }),
            r.is_data_branch_versioned == (match self.is_data_branch_versioned { Some(v) => v, None => None }),
    {
        LayerDefinition {
            id: match self.id { Some(v) => v, None => 0u32 },
            name: match self.name { Some(v) => v, None => String::new() },
            layer_type: match self.layer_type { Some(v) => v, None => None },
            geometry_type: match self.geometry_type { Some(v) => v, None => GeometryTypeDefinition::Point },
            fields: match self.fields { Some(v) => v, None => Vec::new() },
            object_id_field: match self.object_id_field { Some(v) => v, None => None },
            global_id_field: match self.global_id_field { Some(v) => v, None => None },
            display_field: match self.display_field { Some(v) => v, None => None },
            description: match self.description { Some(v) => v, None => None },
            copyright_text: match self.copyright_text { Some(v) => v, None => None },
            default_visibility: match self.default_visibility { Some(v) => v, None => None },
            templates: match self.templates { Some(v) => v, None => Vec::new() },
            indexes: match self.indexes { Some(v) => v, None => Vec::new() },
            edit_fields_info: match self.edit_fields_info { Some(v) => v, None => None },
            relationships: match self.relationships { Some(v) => v, None => Vec::new() },
            is_data_branch_versioned: match self.is_data_branch_versioned { Some(v) => v, None => None },
        }
    }
}

/// A table (layer without geometry) of a feature service.
#[derive(Debug, Clone)]
pub struct TableDefinition {
    pub id: u32,
    pub name: String,
    pub table_type: Option<String>,
    pub fields: Vec<FieldDefinition>,
    pub object_id_field: Option<String>,
    pub global_id_field: Option<String>,
    pub display_field: Option<String>,
    pub description: Option<String>,
    pub copyright_text: Option<String>,
    pub templates: Vec<FeatureTemplate>,
    pub indexes: Vec<Index>,
    pub edit_fields_info: Option<EditFieldsInfo>,
    pub relationships: Vec<LayerRelationship>,
    pub is_data_branch_versioned: Option<bool>,
}

/// Collects the fields of a `TableDefinition`; unset fields take their defaults.
#[derive(Debug, Clone)]
pub struct TableDefinitionBuilder {
    pub id: Option<u32>,
    pub name: Option<String>,
    pub table_type: Option<Option<String>>,
    pub fields: Option<Vec<FieldDefinition>>,
    pub object_id_field: Option<Option<String>>,
    pub global_id_field: Option<Option<String>>,
    pub display_field: Option<Option<String>>,
    pub description: Option<Option<String>>,
    pub copyright_text: Option<Option<String>>,
    pub templates: Option<Vec<FeatureTemplate>>,
    pub indexes: Option<Vec<Index>>,
    pub edit_fields_info: Option<Option<EditFieldsInfo>>,
    pub relationships: Option<Vec<LayerRelationship>>,
    pub is_data_branch_versioned: Option<Option<bool>>,
}

impl Default for TableDefinitionBuilder {
    fn default() -> (r: TableDefinitionBuilder)
        ensures
            r == (TableDefinitionBuilder { id: None, name: None, table_type: None, fields: None, object_id_field: None, global_id_field: None, display_field: None, description: None, copyright_text: None, templates: None, indexes: None, edit_fields_info: None, relationships: None, is_data_branch_versioned: None }),
    {
        TableDefinitionBuilder { id: None, name: None, table_type: None, fields: None, object_id_field: None, global_id_field: None, display_field: None, description: None, copyright_text: None, templates: None, indexes: None, edit_fields_info: None, relationships: None, is_data_branch_versioned: None }
    }
}

impl TableDefinitionBuilder {
    /// Sets `id`.
    pub fn id(self, value: u32) -> (r: TableDefinitionBuilder)
        ensures
            r == (TableDefinitionBuilder { id: Some(value), ..self }),
    {
        TableDefinitionBuilder { id: Some(value), ..self }
    }

    /// Sets `name`.
    pub fn name(self, value: String) -> (r: TableDefinitionBuilder)
        ensures
            r == (TableDefinitionBuilder { name: Some(value), ..self }),
    {
        TableDefinitionBuilder { name: Some(value), ..self }
    }

    /// Sets `table_type`.
    pub fn table_type(self, value: String) -> (r: TableDefinitionBuilder)
        ensures
            r == (TableDefinitionBuilder { table_type: Some(Some(value)), ..self }),
    {
        TableDefinitionBuilder { table_type: Some(Some(value)), ..self }
    }

    /// Sets `fields`.
    pub fn fields(self, value: Vec<FieldDefinition>) -> (r: TableDefinitionBuilder)
        ensures
            r == (TableDefinitionBuilder { fields: Some(value), ..self }),
    {
        TableDefinitionBuilder { fields: Some(value), ..self }
    }

    /// Sets `object_id_field`.
    pub fn object_id_field(self, value: String) -> (r: TableDefinitionBuilder)
        ensures
            r == (TableDefinitionBuilder { object_id_field: Some(Some(value)), ..self }),
    {
        TableDefinitionBuilder { object_id_field: Some(Some(value)), ..self }
    }

    /// Sets `global_id_field`.
    pub fn global_id_field(self, value: String) -> (r: TableDefinitionBuilder)
        ensures
            r == (TableDefinitionBuilder { global_id_field: Some(Some(value)), ..self }),
    {
        TableDefinitionBuilder { global_id_field: Some(Some(value)), ..self }
    }

    /// Sets `display_field`.
    pub fn display_field(self, value: String) -> (r: TableDefinitionBuilder)
        ensures
            r == (TableDefinitionBuilder { display_field: Some(Some(value)), ..self }),
    {
        TableDefinitionBuilder { display_field: Some(Some(value)), ..self }
    }

    /// Sets `description`.
    pub fn description(self, value: String) -> (r: TableDefinitionBuilder)
        ensures
            r == (TableDefinitionBuilder { description: Some(Some(value)), ..self }),
    {
        TableDefinitionBuilder { description: Some(Some(value)), ..self }
    }

    /// Sets `copyright_text`.
    pub fn copyright_text(self, value: String) -> (r: TableDefinitionBuilder)
        ensures
            r == (TableDefinitionBuilder { copyright_text: Some(Some(value)), ..self }),
    {
        TableDefinitionBuilder { copyright_text: Some(Some(value)), ..self }
    }

    /// Sets `templates`.
    pub fn templates(self, value: Vec<FeatureTemplate>) -> (r: TableDefinitionBuilder)
        ensures
            r == (TableDefinitionBuilder { templates: Some(value), ..self }),
    {
        TableDefinitionBuilder { templates: Some(value), ..self }
    }

    /// Sets `indexes`.
    pub fn indexes(self, value: Vec<Index>) -> (r: TableDefinitionBuilder)
        ensures
            r == (TableDefinitionBuilder { indexes: Some(value), ..self }),
    {
        TableDefinitionBuilder { indexes: Some(value), ..self }
    }

    /// Sets `edit_fields_info`.
    pub fn edit_fields_info(self, value: EditFieldsInfo) -> (r: TableDefinitionBuilder)
        ensures
            r == (TableDefinitionBuilder { edit_fields_info: Some(Some(value)), ..self }),
    {
        TableDefinitionBuilder { edit_fields_info: Some(Some(value)), ..self }
    }

    /// Sets `relationships`.
    pub fn relationships(self, value: Vec<LayerRelationship>) -> (r: TableDefinitionBuilder)
        ensures
            r == (TableDefinitionBuilder { relationships: Some(value), ..self }),
    {
        TableDefinitionBuilder { relationships: Some(value), ..self }
    }

    /// Sets `is_data_branch_versioned`.
    pub fn is_data_branch_versioned(self, value: bool) -> (r: TableDefinitionBuilder)
        ensures
            r == (TableDefinitionBuilder { is_data_branch_versioned: Some(Some(value)), ..self }),
    {
        TableDefinitionBuilder { is_data_branch_versioned: Some(Some(value)), ..self }
    }

    /// Appends a field.
    pub fn add_field(self, item: FieldDefinition) -> (r: TableDefinitionBuilder)
        ensures
            r.fields matches Some(v) && v@ == match self.fields {
                Some(old) => old@,
                None => Seq::empty(),
            }.push(item),
            r == (TableDefinitionBuilder { fields: r.fields, ..self }),
    {
        let mut items = match self.fields {
            Some(v) => v,
            None => Vec::new(),
        };
        items.push(item);
        TableDefinitionBuilder { fields: Some(items), ..self }
    }

    /// Appends a template.
    pub fn add_template(self, item: FeatureTemplate) -> (r: TableDefinitionBuilder)
        ensures
            r.templates matches Some(v) && v@ == match self.templates {
                Some(old) => old@,
                None => Seq::empty(),
            }.push(item),
            r == (TableDefinitionBuilder { templates: r.templates, ..self }),
    {
        let mut items = match self.templates {
            Some(v) => v,
            None => Vec::new(),
        };
        items.push(item);
        TableDefinitionBuilder { templates: Some(items), ..self }
    }

    /// Appends an index.
    pub fn add_index(self, item: Index) -> (r: TableDefinitionBuilder)
        ensures
            r.indexes matches Some(v) && v@ == match self.indexes {
                Some(old) => old@,
                None => Seq::empty(),
            }.push(item),
            r == (TableDefinitionBuilder { indexes: r.indexes, ..self }),
    {
        let mut items = match self.indexes {
            Some(v) => v,
            None => Vec::new(),
        };
        items.push(item);
        TableDefinitionBuilder { indexes: Some(items), ..self }
    }

    /// Appends a relationship.
    pub fn add_relationship(self, item: LayerRelationship) -> (r: TableDefinitionBuilder)
        ensures
            r.relationships matches Some(v) && v@ == match self.relationships {
                Some(old) => old@,
                None => Seq::empty(),
            }.push(item),
            r == (TableDefinitionBuilder { relationships: r.relationships, ..self }),
    {
        let mut items = match self.relationships {
            Some(v) => v,
            None => Vec::new(),
        };
        items.push(item);
        TableDefinitionBuilder { relationships: Some(items), ..self }
    }

    /// The `TableDefinition`; unset fields take their defaults.
    pub fn build(self) -> (r: TableDefinition)
        ensures
            r.id == (match self.id { Some(v) => v, None => 0u32 }),
            r.name@ == (match self.name { Some(v) => v@, None => Seq::empty() }),
            r.table_type == (match self.table_type { Some(v) => v, None => None }),
            r.fields@ == (match self.fields { Some(v) => v@, None => Seq::empty() }),
            r.object_id_field == (match self.object_id_field { Some(v) => v, None => None }),
            r.global_id_field == (match self.global_id_field { Some(v) => v, None => None }),
            r.display_field == (match self.display_field { Some(v) => v, None => None }),
            r.description == (match self.description { Some(v) => v, None => None }),
            r.copyright_text == (match self.copyright_text { Some(v) => v, None => None }),
            r.templates@ == (match self.templates { Some(v) => v@, None => Seq::empty() }),
            r.indexes@ == (match self.indexes { Some(v) => v@, None => Seq::empty() }),
            r.edit_fields_info == (match self.edit_fields_info { Some(v) => v, None => None }),
            r.relationships@ == (match self.relationships { Some(v) => v@, None => Seq::empty() }),
            r.is_data_branch_versioned == (match self.is_data_branch_versioned { Some(v) => v, None => None }),
    {
        TableDefinition {
            id: match self.id { Some(v) => v, None => 0u32 },
            name: match self.name { Some(v) => v, None => String::new() },
            table_type: match self.table_type { Some(v) => v, None => None },
            fields: match self.fields { Some(v) => v, None => Vec::new() },
            object_id_field: match self.object_id_field { Some(v) => v, None => None },
            global_id_field: match self.global_id_field { Some(v) => v, None => None },
            display_field: match self.display_field { Some(v) => v, None => None },
            description: match self.description { Some(v) => v, None => None },
            copyright_text: match self.copyright_text { Some(v) => v, None => None },
            templates: match self.templates { Some(v) => v, None => Vec::new() },
            indexes: match self.indexes { Some(v) => v, None => Vec::new() },
            edit_fields_info: match self.edit_fields_info { Some(v) => v, None => None },
            relationships: match self.relationships { Some(v) => v, None => Vec::new() },
            is_data_branch_versioned: match self.is_data_branch_versioned { Some(v) => v, None => None },
        }
    }
}

/// A hosted feature service.
#[derive(Debug, Clone)]
pub struct ServiceDefinition {
    pub name: String,
    pub service_description: Option<String>,
    pub has_static_data: Option<bool>,
    pub max_record_count: Option<i32>,
    pub supported_query_formats: Option<String>,
    pub capabilities: Option<String>,
    pub layers: Vec<LayerDefinition>,
    pub tables: Vec<TableDefinition>,
    pub spatial_reference: Option<SpatialReferenceDefinition>,
    /// Initial extent, as JSON text.
    pub initial_extent: Option<String>,
    pub allow_geometry_updates: Option<bool>,
    pub units: Option<String>,
    pub xss_prevention_info: Option<XssPreventionInfo>,
    pub editor_tracking_info: Option<EditorTrackingInfo>,
}

/// Collects the fields of a `ServiceDefinition`; unset fields take their defaults.
#[derive(Debug, Clone)]
pub struct ServiceDefinitionBuilder {
    pub name: Option<String>,
    pub service_description: Option<Option<String>>,
    pub has_static_data: Option<Option<bool>>,
    pub max_record_count: Option<Option<i32>>,
    pub supported_query_formats: Option<Option<String>>,
    pub capabilities: Option<Option<String>>,
    pub layers: Option<Vec<LayerDefinition>>,
    pub tables: Option<Vec<TableDefinition>>,
    pub spatial_reference: Option<Option<SpatialReferenceDefinition>>,
    pub initial_extent: Option<Option<String>>,
    pub allow_geometry_updates: Option<Option<bool>>,
    pub units: Option<Option<String>>,
    pub xss_prevention_info: Option<Option<XssPreventionInfo>>,
    pub editor_tracking_info: Option<Option<EditorTrackingInfo>>,
}

impl Default for ServiceDefinitionBuilder {
    fn default() -> (r: ServiceDefinitionBuilder)
        ensures
            r == (ServiceDefinitionBuilder { name: None, service_description: None, has_static_data: None, max_record_count: None, supported_query_formats: None, capabilities: None, layers: None, tables: None, spatial_reference: None, initial_extent: None, allow_geometry_updates: None, units: None, xss_prevention_info: None, editor_tracking_info: None }),
    {
        ServiceDefinitionBuilder { name: None, service_description: None, has_static_data: None, max_record_count: None, supported_query_formats: None, capabilities: None, layers: None, tables: None, spatial_reference: None, initial_extent: None, allow_geometry_updates: None, units: None, xss_prevention_info: None, editor_tracking_info: None }
    }
}

impl ServiceDefinitionBuilder {
    /// Sets `name`.
    pub fn name(self, value: String) -> (r: ServiceDefinitionBuilder)
        ensures
            r == (ServiceDefinitionBuilder { name: Some(value), ..self }),
    {
        ServiceDefinitionBuilder { name: Some(value), ..self }
    }

    /// Sets `service_description`.
    pub fn service_description(self, value: String) -> (r: ServiceDefinitionBuilder)
        ensures
            r == (ServiceDefinitionBuilder { service_description: Some(Some(value)), ..self }),
    {
        ServiceDefinitionBuilder { service_description: Some(Some(value)), ..self }
    }

    /// Sets `has_static_data`.
    pub fn has_static_data(self, value: bool) -> (r: ServiceDefinitionBuilder)
        ensures
            r == (ServiceDefinitionBuilder { has_static_data: Some(Some(value)), ..self }),
    {
        ServiceDefinitionBuilder { has_static_data: Some(Some(value)), ..self }
    }

    /// Sets `max_record_count`.
    pub fn max_record_count(self, value: i32) -> (r: ServiceDefinitionBuilder)
        ensures
            r == (ServiceDefinitionBuilder { max_record_count: Some(Some(value)), ..self }),
    {
        ServiceDefinitionBuilder { max_record_count: Some(Some(value)), ..self }
    }

    /// Sets `supported_query_formats`.
    pub fn supported_query_formats(self, value: String) -> (r: ServiceDefinitionBuilder)
        ensures
            r == (ServiceDefinitionBuilder { supported_query_formats: Some(Some(value)), ..self }),
    {
        ServiceDefinitionBuilder { supported_query_formats: Some(Some(value)), ..self }
    }

    /// Sets `capabilities`.
    pub fn capabilities(self, value: String) -> (r: ServiceDefinitionBuilder)
        ensures
            r == (ServiceDefinitionBuilder { capabilities: Some(Some(value)), ..self }),
    {
        ServiceDefinitionBuilder { capabilities: Some(Some(value)), ..self }
    }

    /// Sets `layers`.
    pub fn layers(self, value: Vec<LayerDefinition>) -> (r: ServiceDefinitionBuilder)
        ensures
            r == (ServiceDefinitionBuilder { layers: Some(value), ..self }),
    {
        ServiceDefinitionBuilder { layers: Some(value), ..self }
    }

    /// Sets `tables`.
    pub fn tables(self, value: Vec<TableDefinition>) -> (r: ServiceDefinitionBuilder)
        ensures
            r == (ServiceDefinitionBuilder { tables: Some(value), ..self }),
    {
        ServiceDefinitionBuilder { tables: Some(value), ..self }
    }

    /// Sets `spatial_reference`.
    pub fn spatial_reference(self, value: SpatialReferenceDefinition) -> (r: ServiceDefinitionBuilder)
        ensures
            r == (ServiceDefinitionBuilder { spatial_reference: Some(Some(value)), ..self }),
    {
        ServiceDefinitionBuilder { spatial_reference: Some(Some(value)), ..self }
    }

    /// Sets `initial_extent`.
    pub fn initial_extent(self, value: String) -> (r: ServiceDefinitionBuilder)
        ensures
            r == (ServiceDefinitionBuilder { initial_extent: Some(Some(value)), ..self }),
    {
        ServiceDefinitionBuilder { initial_extent: Some(Some(value)), ..self }
    }

    /// Sets `allow_geometry_updates`.
    pub fn allow_geometry_updates(self, value: bool) -> (r: ServiceDefinitionBuilder)
        ensures
            r == (ServiceDefinitionBuilder { allow_geometry_updates: Some(Some(value)), ..self }),
    {
        ServiceDefinitionBuilder { allow_geometry_updates: Some(Some(value)), ..self }
    }

    /// Sets `units`.
    pub fn units(self, value: String) -> (r: ServiceDefinitionBuilder)
        ensures
            r == (ServiceDefinitionBuilder { units: Some(Some(value)), ..self }),
    {
        ServiceDefinitionBuilder { units: Some(Some(value)), ..self }
    }

    /// Sets `xss_prevention_info`.
    pub fn xss_prevention_info(self, value: XssPreventionInfo) -> (r: ServiceDefinitionBuilder)
        ensures
            r == (ServiceDefinitionBuilder { xss_prevention_info: Some(Some(value)), ..self }),
    {
        ServiceDefinitionBuilder { xss_prevention_info: Some(Some(value)), ..self }
    }

    /// Sets `editor_tracking_info`.
    pub fn editor_tracking_info(self, value: EditorTrackingInfo) -> (r: ServiceDefinitionBuilder)
        ensures
            r == (ServiceDefinitionBuilder { editor_tracking_info: Some(Some(value)), ..self }),
    {
        ServiceDefinitionBuilder { editor_tracking_info: Some(Some(value)), ..self }
    }

    /// Appends a layer.
    pub fn add_layer(self, item: LayerDefinition) -> (r: ServiceDefinitionBuilder)
        ensures
            r.layers matches Some(v) && v@ == match self.layers {
                Some(old) => old@,
                None => Seq::empty(),
            }.push(item),
            r == (ServiceDefinitionBuilder { layers: r.layers, ..self }),
    {
        let mut items = match self.layers {
            Some(v) => v,
            None => Vec::new(),
        };
        items.push(item);
        ServiceDefinitionBuilder { layers: Some(items), ..self }
    }

    /// Appends a table.
    pub fn add_table(self, item: TableDefinition) -> (r: ServiceDefinitionBuilder)
        ensures
            r.tables matches Some(v) && v@ == match self.tables {
                Some(old) => old@,
                None => Seq::empty(),
            }.push(item),
            r == (ServiceDefinitionBuilder { tables: r.tables, ..self }),
    {
        let mut items = match self.tables {
            Some(v) => v,
            None => Vec::new(),
        };
        items.push(item);
        ServiceDefinitionBuilder { tables: Some(items), ..self }
    }

    /// The `ServiceDefinition`; unset fields take their defaults.
    pub fn build(self) -> (r: ServiceDefinition)
        ensures
            r.name@ == (match self.name { Some(v) => v@, None => Seq::empty() }),
            r.service_description == (match self.service_description { Some(v) => v, None => None }),
            r.has_static_data == (match self.has_static_data { Some(v) => v, None => None }),
            r.max_record_count == (match self.max_record_count { Some(v) => v, None => None }),
            r.supported_query_formats == (match self.supported_query_formats { Some(v) => v, None => None }),
            r.capabilities == (match self.capabilities { Some(v) => v, None => None }),
            r.layers@ == (match self.layers { Some(v) => v@, None => Seq::empty() }),
            r.tables@ == (match self.tables { Some(v) => v@, None => Seq::empty() }),
            r.spatial_reference == (match self.spatial_reference { Some(v) => v, None => None }),
            r.initial_extent == (match self.initial_extent { Some(v) => v, None => None }),
            r.allow_geometry_updates == (match self.allow_geometry_updates { Some(v) => v, None => None }),
            r.units == (match self.units { Some(v) => v, None => None }),
            r.xss_prevention_info == (match self.xss_prevention_info { Some(v) => v, None => None }),
            r.editor_tracking_info == (match self.editor_tracking_info { Some(v) => v, None => None }),
    {
        ServiceDefinition {
            name: match self.name { Some(v) => v, None => String::new() },
            service_description: match self.service_description { Some(v) => v, None => None },
            has_static_data: match self.has_static_data { Some(v) => v, None => None },
            max_record_count: match self.max_record_count { Some(v) => v, None => None },
            supported_query_formats: match self.supported_query_formats { Some(v) => v, None => None },
            capabilities: match self.capabilities { Some(v) => v, None => None },
            layers: match self.layers { Some(v) => v, None => Vec::new() },
            tables: match self.tables { Some(v) => v, None => Vec::new() },
            spatial_reference: match self.spatial_reference { Some(v) => v, None => None },
            initial_extent: match self.initial_extent { Some(v) => v, None => None },
            allow_geometry_updates: match self.allow_geometry_updates { Some(v) => v, None => None },
            units: match self.units { Some(v) => v, None => None },
            xss_prevention_info: match self.xss_prevention_info { Some(v) => v, None => None },
            editor_tracking_info: match self.editor_tracking_info { Some(v) => v, None => None },
        }
    }
}

impl Default for FieldDefinition {
    fn default() -> (r: FieldDefinition)
        ensures
            r.name@.len() == 0,
            r.field_type == FieldType::String,
            r.alias is None,
            r.length is None,
            r.nullable is None,
            r.editable is None,
            r.required is None,
            r.default_value is None,
            r.domain is None,
            r.model_name is None,
    {
        FieldDefinitionBuilder::default().build()
    }
}

impl Default for LayerDefinition {
    fn default() -> (r: LayerDefinition)
        ensures
            r.id == 0u32,
            r.name@.len() == 0,
            r.layer_type is None,
            r.geometry_type == GeometryTypeDefinition::Point,
            r.fields@.len() == 0,
            r.object_id_field is None,
            r.global_id_field is None,
            r.display_field is None,
            r.description is None,
            r.copyright_text is None,
            r.default_visibility is None,
            r.templates@.len() == 0,
            r.indexes@.len() == 0,
            r.edit_fields_info is None,
            r.relationships@.len() == 0,
            r.is_data_branch_versioned is None,
    {
        LayerDefinitionBuilder::default().build()
    }
}

impl Default for TableDefinition {
    fn default() -> (r: TableDefinition)
        ensures
            r.id == 0u32,
            r.name@.len() == 0,
            r.table_type is None,
            r.fields@.len() == 0,
            r.object_id_field is None,
            r.global_id_field is None,
            r.display_field is None,
            r.description is None,
            r.copyright_text is None,
            r.templates@.len() == 0,
            r.indexes@.len() == 0,
            r.edit_fields_info is None,
            r.relationships@.len() == 0,
            r.is_data_branch_versioned is None,
    {
        TableDefinitionBuilder::default().build()
    }
}

impl Default for ServiceDefinition {
    fn default() -> (r: ServiceDefinition)
        ensures
            r.name@.len() == 0,
            r.service_description is None,
            r.has_static_data is None,
            r.max_record_count is None,
            r.supported_query_formats is None,
            r.capabilities is None,
            r.layers@.len() == 0,
            r.tables@.len() == 0,
            r.spatial_reference is None,
            r.initial_extent is None,
            r.allow_geometry_updates is None,
            r.units is None,
            r.xss_prevention_info is None,
            r.editor_tracking_info is None,
    {
        ServiceDefinitionBuilder::default().build()
    }
}

} // verus!
