use arcgis::portal::definitions::{
    FieldDefinition, FieldDefinitionBuilder, LayerDefinition, LayerDefinitionBuilder,
    ServiceDefinitionBuilder, TableDefinitionBuilder,
};
use arcgis::portal::service_definition::{
    FieldType, GeometryTypeDefinition, Index, LayerRelationship,
};
use arcgis::portal::validation::ServiceDefinitionValidationError;

fn field(name: &str, t: FieldType, nullable: Option<bool>, editable: Option<bool>) -> FieldDefinition {
    let mut b = FieldDefinitionBuilder::default().name(name.to_string()).field_type(t);
    if let Some(n) = nullable {
        b = b.nullable(n);
    }
    if let Some(e) = editable {
        b = b.editable(e);
    }
    b.build()
}

fn oid() -> FieldDefinition {
    field("OBJECTID", FieldType::Oid, Some(false), Some(false))
}

fn layer(name: &str, id: u32, fields: Vec<FieldDefinition>) -> LayerDefinition {
    let mut b = LayerDefinitionBuilder::default()
        .id(id)
        .name(name.to_string())
        .geometry_type(GeometryTypeDefinition::Point);
    for f in fields {
        b = b.add_field(f);
    }
    b.build()
}

#[test]
fn layer_without_fields_lacks_an_object_id() {
    let layer = LayerDefinitionBuilder::default()
        .id(0)
        .name("Buildings".to_string())
        .geometry_type(GeometryTypeDefinition::Polygon)
        .build();
    let errs = layer.validate().unwrap_err();
    assert_eq!(errs.len(), 1);
    assert!(matches!(
        &errs[0],
        ServiceDefinitionValidationError::MissingObjectId { entity_type: "Layer", id: 0, .. }
    ));
    assert_eq!(
        errs[0].to_string(),
        "Layer 'Buildings' (id=0): no ObjectID field found. Add a field with FieldType::Oid, nullable: false, editable: false. See https://developers.arcgis.com/rest/services-reference/enterprise/layer-feature-service/"
    );
}

#[test]
fn table_without_fields_fails_validation() {
    let table = TableDefinitionBuilder::default().id(1).name("Permits".to_string()).build();
    assert_eq!(table.id, 1);
    assert_eq!(table.name, "Permits");
    let errs = table.validate().unwrap_err();
    assert!(matches!(&errs[0], ServiceDefinitionValidationError::MissingObjectId { entity_type: "Table", .. }));
}

#[test]
fn service_with_one_valid_layer_validates() {
    let l = layer("Points", 0, vec![oid()]);
    assert!(l.validate().is_ok());
    let svc = ServiceDefinitionBuilder::default().name("MyService".to_string()).add_layer(l).build();
    assert!(svc.validate().is_ok());
}

#[test]
fn field_names_are_compared_without_case() {
    let t = TableDefinitionBuilder::default()
        .id(1)
        .name("Permits".to_string())
        .add_field(oid())
        .add_field(field("Name", FieldType::String, None, None))
        .add_field(field("NAME", FieldType::String, None, None))
        .build();
    let errs = t.validate().unwrap_err();
    assert_eq!(errs.len(), 1);
    assert_eq!(
        errs[0].to_string(),
        "Table 'Permits' (id=1): duplicate field name 'NAME'. Field names must be unique within a layer or table."
    );
}

#[test]
fn object_id_rules() {
    let loose = layer("L", 2, vec![field("OID", FieldType::Oid, Some(true), Some(false))]);
    let errs = loose.validate().unwrap_err();
    assert!(matches!(&errs[0], ServiceDefinitionValidationError::OidFieldInvalidConfig { field_name, .. } if field_name == "OID"));
    let two = layer("L", 2, vec![oid(), field("OID2", FieldType::Oid, Some(false), Some(false))]);
    let errs = two.validate().unwrap_err();
    assert!(matches!(&errs[0], ServiceDefinitionValidationError::MultipleObjectIds { count: 2, .. }));
    assert_eq!(errs[0].to_string(), "Layer 'L' (id=2): 2 ObjectID fields found; only one is allowed.");
}

#[test]
fn branch_versioning_needs_a_global_id() {
    let mut l = layer("V", 3, vec![oid()]);
    l.is_data_branch_versioned = Some(true);
    let errs = l.validate().unwrap_err();
    assert!(matches!(&errs[0], ServiceDefinitionValidationError::MissingGlobalIdForVersioning { id: 3, .. }));
    l.fields.push(field("GlobalID", FieldType::GlobalId, Some(false), Some(false)));
    assert!(l.validate().is_ok());
    l.fields.push(field("GID2", FieldType::GlobalId, None, Some(true)));
    let errs = l.validate().unwrap_err();
    assert!(matches!(&errs[0], ServiceDefinitionValidationError::GlobalIdFieldInvalidConfig { field_name, .. } if field_name == "GID2"));
}

#[test]
fn dangling_field_references_are_reported() {
    let mut l = layer("R", 4, vec![oid()]);
    l.display_field = Some("missing".to_string());
    l.object_id_field = Some("objectid".to_string());
    let errs = l.validate().unwrap_err();
    assert_eq!(errs.len(), 1);
    assert_eq!(
        errs[0].to_string(),
        "Layer 'R' (id=4): display_field references 'missing' but no field with that name exists."
    );
}

#[test]
fn shared_ids_across_layers_and_tables_are_reported() {
    let t = TableDefinitionBuilder::default().id(5).name("T".to_string()).add_field(oid()).build();
    let svc = ServiceDefinitionBuilder::default()
        .name("S".to_string())
        .add_layer(layer("A", 5, vec![oid()]))
        .add_layer(layer("B", 6, vec![oid()]))
        .add_table(t)
        .build();
    let errs = svc.validate().unwrap_err();
    assert_eq!(errs.len(), 1);
    match &errs[0] {
        ServiceDefinitionValidationError::DuplicateId { id, first_name, second_name } => {
            assert_eq!(*id, 5);
            assert_eq!(first_name, "A");
            assert_eq!(second_name, "T");
        }
        other => panic!("unexpected {:?}", other),
    }
    assert_eq!(
        errs[0].to_string(),
        "Duplicate ID 5 used by 'A' and 'T'. Layer and table IDs must be unique within the service."
    );
}

#[test]
fn layer_problems_come_before_id_problems() {
    let dup = TableDefinitionBuilder::default().id(1).name("Dup".to_string()).add_field(oid()).build();
    let svc = ServiceDefinitionBuilder::default()
        .name("S".to_string())
        .add_layer(layer("Bad", 1, Vec::new()))
        .add_table(dup)
        .build();
    let errs = svc.validate().unwrap_err();
    assert_eq!(errs.len(), 2);
    assert!(matches!(&errs[0], ServiceDefinitionValidationError::MissingObjectId { .. }));
    assert!(matches!(&errs[1], ServiceDefinitionValidationError::DuplicateId { .. }));
}

#[test]
fn builders_collect_indexes_and_relationships() {
    let idx = Index {
        name: "idx".to_string(),
        fields: vec!["a".to_string(), "b".to_string()],
        is_ascending: None,
        is_unique: Some(true),
        description: None,
    };
    assert_eq!(idx.fields_text(), "a,b");
    let l = LayerDefinitionBuilder::default()
        .add_index(idx.clone())
        .add_relationship(LayerRelationship::default())
        .build();
    assert_eq!(l.indexes, vec![idx]);
    assert_eq!(l.relationships.len(), 1);
    assert_eq!(l.id, 0);
    assert_eq!(l.geometry_type, GeometryTypeDefinition::Point);
    let d = LayerDefinition::default();
    assert!(d.fields.is_empty());
    assert_eq!(FieldDefinition::default().field_type, FieldType::String);
}

#[test]
fn object_id_with_unset_settings_is_rejected() {
    let unset = layer("U", 7, vec![field("OBJECTID", FieldType::Oid, None, None)]);
    let errs = unset.validate().unwrap_err();
    assert_eq!(errs.len(), 1);
    assert!(matches!(&errs[0], ServiceDefinitionValidationError::OidFieldInvalidConfig { field_name, .. } if field_name == "OBJECTID"));
    let half = layer("U", 7, vec![field("OBJECTID", FieldType::Oid, Some(false), None)]);
    assert!(half.validate().is_err());
}

#[test]
fn global_id_settings_are_checked_without_versioning() {
    let l = layer(
        "G",
        8,
        vec![oid(), field("GlobalID", FieldType::GlobalId, Some(true), Some(false))],
    );
    assert_eq!(l.is_data_branch_versioned, None);
    let errs = l.validate().unwrap_err();
    assert_eq!(errs.len(), 1);
    assert!(matches!(&errs[0], ServiceDefinitionValidationError::GlobalIdFieldInvalidConfig { field_name, .. } if field_name == "GlobalID"));
    let ok = layer("G", 8, vec![oid(), field("GlobalID", FieldType::GlobalId, Some(false), Some(false))]);
    assert!(ok.validate().is_ok());
}

#[test]
fn duplicate_id_names_the_first_entity_with_that_id() {
    let svc = ServiceDefinitionBuilder::default()
        .name("S".to_string())
        .add_layer(layer("One", 9, vec![oid()]))
        .add_layer(layer("Two", 9, vec![oid()]))
        .add_layer(layer("Three", 9, vec![oid()]))
        .build();
    let errs = svc.validate().unwrap_err();
    assert_eq!(errs.len(), 2);
    assert_eq!(
        errs[0].to_string(),
        "Duplicate ID 9 used by 'One' and 'Two'. Layer and table IDs must be unique within the service."
    );
    assert_eq!(
        errs[1].to_string(),
        "Duplicate ID 9 used by 'One' and 'Three'. Layer and table IDs must be unique within the service."
    );
}
