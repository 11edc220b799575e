//! The messages of service definition validation errors, as their
//! `Display` writes them.

use vstd::prelude::*;
use crate::portal::validation::{ServiceDefinitionValidationError, ValidationIssue};
use crate::text::{dec_digits, u32_text, u64_text};

verus! {

/// The message of a validation problem.
pub open spec fn issue_message(i: ValidationIssue) -> Seq<char> {
    match i {
        ValidationIssue::MissingObjectId { entity_type, name, id } => entity_type + " '"@ + name + "' (id="@ + dec_digits(id as nat) + "): no ObjectID field found. Add a field with FieldType::Oid, nullable: false, editable: false. See https://developers.arcgis.com/rest/services-reference/enterprise/layer-feature-service/"@,
        ValidationIssue::MultipleObjectIds { entity_type, name, id, count } => entity_type + " '"@ + name + "' (id="@ + dec_digits(id as nat) + "): "@ + dec_digits(count as nat) + " ObjectID fields found; only one is allowed."@,
        ValidationIssue::OidFieldInvalidConfig { entity_type, name, id, field_name } => entity_type + " '"@ + name + "' (id="@ + dec_digits(id as nat) + "), field '"@ + field_name + "': ObjectID field must have nullable=false and editable=false."@,
        ValidationIssue::MissingGlobalIdForVersioning { entity_type, name, id } => entity_type + " '"@ + name + "' (id="@ + dec_digits(id as nat) + "): is_data_branch_versioned is true but no GlobalID field found. Add a field with FieldType::GlobalId, nullable: false, editable: false, length: 38. See https://pro.arcgis.com/en/pro-app/latest/help/data/geodatabases/overview/branch-version-scenarios.htm"@,
        ValidationIssue::GlobalIdFieldInvalidConfig { entity_type, name, id, field_name } => entity_type + " '"@ + name + "' (id="@ + dec_digits(id as nat) + "), field '"@ + field_name + "': GlobalID field must have nullable=false and editable=false."@,
        ValidationIssue::DuplicateFieldName { entity_type, name, id, field_name } => entity_type + " '"@ + name + "' (id="@ + dec_digits(id as nat) + "): duplicate field name '"@ + field_name + "'. Field names must be unique within a layer or table."@,
        ValidationIssue::FieldRefNotFound { entity_type, name, id, ref_type, field_name } => entity_type + " '"@ + name + "' (id="@ + dec_digits(id as nat) + "): "@ + ref_type + "_field references '"@ + field_name + "' but no field with that name exists."@,
        ValidationIssue::DuplicateId { id, first_name, second_name } => "Duplicate ID "@ + dec_digits(id as nat) + " used by '"@ + first_name + "' and '"@ + second_name + "'. Layer and table IDs must be unique within the service."@,
    }
}

impl ServiceDefinitionValidationError {
    /// The error's message.
    pub fn to_string(&self) -> (r: String)
        ensures
            r@ == issue_message(self@),
    {
        match self {
            ServiceDefinitionValidationError::MissingObjectId { entity_type, name, id } => {
                let mut s = String::new();
                s.append(entity_type);
                s.append(" '");
                s.append(name.as_str());
                s.append("' (id=");
                let t = u32_text(*id);
                s.append(t.as_str());
                s.append("): no ObjectID field found. Add a field with FieldType::Oid, nullable: false, editable: false. See https://developers.arcgis.com/rest/services-reference/enterprise/layer-feature-service/");
                s
            },
            ServiceDefinitionValidationError::MultipleObjectIds { entity_type, name, id, count } => {
                let mut s = String::new();
                s.append(entity_type);
                s.append(" '");
                s.append(name.as_str());
                s.append("' (id=");
                let t = u32_text(*id);
                s.append(t.as_str());
                s.append("): ");
                let t = u64_text(*count as u64);
                s.append(t.as_str());
                s.append(" ObjectID fields found; only one is allowed.");
                s
            },
            ServiceDefinitionValidationError::OidFieldInvalidConfig { entity_type, name, id, field_name } => {
                let mut s = String::new();
                s.append(entity_type);
                s.append(" '");
                s.append(name.as_str());
                s.append("' (id=");
                let t = u32_text(*id);
                s.append(t.as_str());
                s.append("), field '");
                s.append(field_name.as_str());
                s.append("': ObjectID field must have nullable=false and editable=false.");
                s
            },
            ServiceDefinitionValidationError::MissingGlobalIdForVersioning { entity_type, name, id } => {
                let mut s = String::new();
                s.append(entity_type);
                s.append(" '");
                s.append(name.as_str());
                s.append("' (id=");
                let t = u32_text(*id);
                s.append(t.as_str());
                s.append("): is_data_branch_versioned is true but no GlobalID field found. Add a field with FieldType::GlobalId, nullable: false, editable: false, length: 38. See https://pro.arcgis.com/en/pro-app/latest/help/data/geodatabases/overview/branch-version-scenarios.htm");
                s
            },
            ServiceDefinitionValidationError::GlobalIdFieldInvalidConfig { entity_type, name, id, field_name } => {
                let mut s = String::new();
                s.append(entity_type);
                s.append(" '");
                s.append(name.as_str());
                s.append("' (id=");
                let t = u32_text(*id);
                s.append(t.as_str());
                s.append("), field '");
                s.append(field_name.as_str());
                s.append("': GlobalID field must have nullable=false and editable=false.");
                s
            },
            ServiceDefinitionValidationError::DuplicateFieldName { entity_type, name, id, field_name } => {
                let mut s = String::new();
                s.append(entity_type);
                s.append(" '");
                s.append(name.as_str());
                s.append("' (id=");
                let t = u32_text(*id);
                s.append(t.as_str());
                s.append("): duplicate field name '");
                s.append(field_name.as_str());
                s.append("'. Field names must be unique within a layer or table.");
                s
            },
            ServiceDefinitionValidationError::FieldRefNotFound { entity_type, name, id, ref_type, field_name } => {
                let mut s = String::new();
                s.append(entity_type);
                s.append(" '");
                s.append(name.as_str());
                s.append("' (id=");
                let t = u32_text(*id);
                s.append(t.as_str());
                s.append("): ");
                s.append(ref_type);
                s.append("_field references '");
                s.append(field_name.as_str());
                s.append("' but no field with that name exists.");
                s
            },
            ServiceDefinitionValidationError::DuplicateId { id, first_name, second_name } => {
                let mut s = String::new();
                s.append("Duplicate ID ");
                let t = u32_text(*id);
                s.append(t.as_str());
                s.append(" used by '");
                s.append(first_name.as_str());
                s.append("' and '");
                s.append(second_name.as_str());
                s.append("'. Layer and table IDs must be unique within the service.");
                s
            },
        }
    }
}

} // verus!
