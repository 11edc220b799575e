//! Validation of feature-service definitions before they are sent to a
//! portal: ObjectID and GlobalID rules, unique field names, field references
//! and unique layer/table IDs.

use vstd::prelude::*;
use crate::text::{lowercase, to_lowercase};
use super::definitions::{FieldDefinition, LayerDefinition, ServiceDefinition, TableDefinition};
use super::service_definition::FieldType;

verus! {

/// A layer or table as validation sees it, borrowed from its definition:
/// its kind (`Layer` or `Table`), name, ID, fields, the fields it names as
/// ObjectID, GlobalID and display field, and whether its data is branch
/// versioned.
#[derive(Debug, Clone, Copy)]
pub struct FieldValidationCtx<'a> {
    pub entity_type: &'static str,
    pub name: &'a str,
    pub id: u32,
    pub fields: &'a [FieldDefinition],
    pub object_id_field: &'a Option<String>,
    pub global_id_field: &'a Option<String>,
    pub display_field: &'a Option<String>,
    pub is_data_branch_versioned: &'a Option<bool>,
}

/// The content of a validation context, with texts as character
/// sequences.
pub struct EntityView {
    pub entity_type: Seq<char>,
    pub name: Seq<char>,
    pub id: u32,
    pub fields: Seq<FieldDefinition>,
    pub object_id_field: Option<Seq<char>>,
    pub global_id_field: Option<Seq<char>>,
    pub display_field: Option<Seq<char>>,
    pub is_data_branch_versioned: Option<bool>,
}

impl<'a> View for FieldValidationCtx<'a> {
    type V = EntityView;

    open spec fn view(&self) -> EntityView {
        EntityView {
            entity_type: self.entity_type@,
            name: self.name@,
            id: self.id,
            fields: self.fields@,
            object_id_field: (*self.object_id_field).deep_view(),
            global_id_field: (*self.global_id_field).deep_view(),
            display_field: (*self.display_field).deep_view(),
            is_data_branch_versioned: *self.is_data_branch_versioned,
        }
    }
}

/// A problem found in a service definition.
#[derive(Debug, Clone)]
pub enum ServiceDefinitionValidationError {
    /// A layer or table has no field of type ObjectID.
    MissingObjectId { entity_type: &'static str, name: String, id: u32 },
    /// A layer or table has more than one ObjectID field.
    MultipleObjectIds { entity_type: &'static str, name: String, id: u32, count: usize },
    /// The ObjectID field is not declared non-nullable and non-editable.
    OidFieldInvalidConfig { entity_type: &'static str, name: String, id: u32, field_name: String },
    /// Branch versioning is on but no GlobalID field exists.
    MissingGlobalIdForVersioning { entity_type: &'static str, name: String, id: u32 },
    /// A GlobalID field is not declared non-nullable and non-editable.
    GlobalIdFieldInvalidConfig {
        entity_type: &'static str,
        name: String,
        id: u32,
        field_name: String,
    },
    /// Two fields have the same name, ignoring case.
    DuplicateFieldName { entity_type: &'static str, name: String, id: u32, field_name: String },
    /// A named field reference (ObjectID, GlobalID or display field) names
    /// no field.
    FieldRefNotFound {
        entity_type: &'static str,
        name: String,
        id: u32,
        ref_type: &'static str,
        field_name: String,
    },
    /// Two layers or tables share an ID.
    DuplicateId { id: u32, first_name: String, second_name: String },
}

/// The content of a validation error, with texts as character sequences.
pub enum ValidationIssue {
    MissingObjectId { entity_type: Seq<char>, name: Seq<char>, id: u32 },
    MultipleObjectIds { entity_type: Seq<char>, name: Seq<char>, id: u32, count: usize },
    OidFieldInvalidConfig { entity_type: Seq<char>, name: Seq<char>, id: u32, field_name: Seq<char> },
    MissingGlobalIdForVersioning { entity_type: Seq<char>, name: Seq<char>, id: u32 },
    GlobalIdFieldInvalidConfig {
        entity_type: Seq<char>,
        name: Seq<char>,
        id: u32,
        field_name: Seq<char>,
    },
    DuplicateFieldName { entity_type: Seq<char>, name: Seq<char>, id: u32, field_name: Seq<char> },
    FieldRefNotFound {
        entity_type: Seq<char>,
        name: Seq<char>,
        id: u32,
        ref_type: Seq<char>,
        field_name: Seq<char>,
    },
    DuplicateId { id: u32, first_name: Seq<char>, second_name: Seq<char> },
}

impl View for ServiceDefinitionValidationError {
    type V = ValidationIssue;

    open spec fn view(&self) -> ValidationIssue {
        match *self {
            ServiceDefinitionValidationError::MissingObjectId { entity_type, name, id } => {
                ValidationIssue::MissingObjectId { entity_type: entity_type@, name: name@, id }
            },
            ServiceDefinitionValidationError::MultipleObjectIds { entity_type, name, id, count } => {
                ValidationIssue::MultipleObjectIds { entity_type: entity_type@, name: name@, id, count }
            },
            ServiceDefinitionValidationError::OidFieldInvalidConfig {
                entity_type,
                name,
                id,
                field_name,
            } => ValidationIssue::OidFieldInvalidConfig {
                entity_type: entity_type@,
                name: name@,
                id,
                field_name: field_name@,
            },
            ServiceDefinitionValidationError::MissingGlobalIdForVersioning {
                entity_type,
                name,
                id,
            } => ValidationIssue::MissingGlobalIdForVersioning {
                entity_type: entity_type@,
                name: name@,
                id,
            },
            ServiceDefinitionValidationError::GlobalIdFieldInvalidConfig {
                entity_type,
                name,
                id,
                field_name,
            } => ValidationIssue::GlobalIdFieldInvalidConfig {
                entity_type: entity_type@,
                name: name@,
                id,
                field_name: field_name@,
            },
            ServiceDefinitionValidationError::DuplicateFieldName {
                entity_type,
                name,
                id,
                field_name,
            } => ValidationIssue::DuplicateFieldName {
                entity_type: entity_type@,
                name: name@,
                id,
                field_name: field_name@,
            },
            ServiceDefinitionValidationError::FieldRefNotFound {
                entity_type,
                name,
                id,
                ref_type,
                field_name,
            } => ValidationIssue::FieldRefNotFound {
                entity_type: entity_type@,
                name: name@,
                id,
                ref_type: ref_type@,
                field_name: field_name@,
            },
            ServiceDefinitionValidationError::DuplicateId { id, first_name, second_name } => {
                ValidationIssue::DuplicateId {
                    id,
                    first_name: first_name@,
                    second_name: second_name@,
                }
            },
        }
    }
}

/// Views of a list of validation errors.
pub open spec fn issues(errs: Seq<ServiceDefinitionValidationError>) -> Seq<ValidationIssue> {
    errs.map_values(|e: ServiceDefinitionValidationError| e@)
}

/// Field `j` repeats, ignoring case, the name of an earlier field.
pub open spec fn name_seen_before(fields: Seq<FieldDefinition>, j: int) -> bool {
    exists|k: int| 0 <= k < j && lowercase(#[trigger] fields[k].name@) == lowercase(fields[j].name@)
}

/// Some field's name equals `r`, ignoring case.
pub open spec fn has_field_named(fields: Seq<FieldDefinition>, r: Seq<char>) -> bool {
    exists|k: int| 0 <= k < fields.len() && lowercase(#[trigger] fields[k].name@) == lowercase(r)
}

/// One `DuplicateFieldName` error for each field, in order, whose name
/// repeats an earlier one.
pub open spec fn duplicate_name_issues(ctx: EntityView, n: int) -> Seq<ValidationIssue>
    decreases n,
{
    if n <= 0 {
        Seq::empty()
    } else {
        duplicate_name_issues(ctx, n - 1) + if name_seen_before(ctx.fields, n - 1) {
            seq![
                ValidationIssue::DuplicateFieldName {
                    entity_type: ctx.entity_type,
                    name: ctx.name,
                    id: ctx.id,
                    field_name: ctx.fields[n - 1].name@,
                },
            ]
        } else {
            Seq::empty()
        }
    }
}

/// The fields, in order, whose type is `t`.
pub open spec fn fields_of_type(fields: Seq<FieldDefinition>, t: FieldType) -> Seq<FieldDefinition>
    decreases fields.len(),
{
    if fields.len() == 0 {
        Seq::empty()
    } else {
        fields_of_type(fields.drop_last(), t) + if fields.last().field_type == t {
            seq![fields.last()]
        } else {
            Seq::empty()
        }
    }
}

/// The field is not declared both non-nullable and non-editable; an unset
/// setting counts as allowed, which is its default.
pub open spec fn loosely_configured(f: FieldDefinition) -> bool {
    f.nullable != Some(false) || f.editable != Some(false)
}

/// ObjectID rule: exactly one ObjectID field, declared neither nullable nor
/// editable.
pub open spec fn object_id_issues(ctx: EntityView) -> Seq<ValidationIssue> {
    let oids = fields_of_type(ctx.fields, FieldType::Oid);
    if oids.len() == 0 {
        seq![ValidationIssue::MissingObjectId { entity_type: ctx.entity_type, name: ctx.name, id: ctx.id }]
    } else if oids.len() == 1 {
        if loosely_configured(oids[0]) {
            seq![
                ValidationIssue::OidFieldInvalidConfig {
                    entity_type: ctx.entity_type,
                    name: ctx.name,
                    id: ctx.id,
                    field_name: oids[0].name@,
                },
            ]
        } else {
            Seq::empty()
        }
    } else {
        seq![
            ValidationIssue::MultipleObjectIds {
                entity_type: ctx.entity_type,
                name: ctx.name,
                id: ctx.id,
                count: oids.len() as usize,
            },
        ]
    }
}

/// One `GlobalIdFieldInvalidConfig` error for each of the given GlobalID
/// fields, in order, that is loosely configured.
pub open spec fn loose_global_id_issues(ctx: EntityView, gids: Seq<FieldDefinition>) -> Seq<
    ValidationIssue,
>
    decreases gids.len(),
{
    if gids.len() == 0 {
        Seq::empty()
    } else {
        loose_global_id_issues(ctx, gids.drop_last()) + if loosely_configured(gids.last()) {
            seq![
                ValidationIssue::GlobalIdFieldInvalidConfig {
                    entity_type: ctx.entity_type,
                    name: ctx.name,
                    id: ctx.id,
                    field_name: gids.last().name@,
                },
            ]
        } else {
            Seq::empty()
        }
    }
}

/// GlobalID rules: branch-versioned data needs at least one GlobalID
/// field, and no GlobalID field, whatever the versioning, may be nullable
/// or editable.
pub open spec fn global_id_issues(ctx: EntityView) -> Seq<ValidationIssue> {
    let gids = fields_of_type(ctx.fields, FieldType::GlobalId);
    if ctx.is_data_branch_versioned == Some(true) && gids.len() == 0 {
        seq![
            ValidationIssue::MissingGlobalIdForVersioning {
                entity_type: ctx.entity_type,
                name: ctx.name,
                id: ctx.id,
            },
        ]
    } else {
        loose_global_id_issues(ctx, gids)
    }
}

/// A `FieldRefNotFound` error when the reference is set and names no field.
pub open spec fn reference_issue(
    ctx: EntityView,
    reference: Option<Seq<char>>,
    ref_type: Seq<char>,
) -> Seq<ValidationIssue> {
    match reference {
        Some(r) => if has_field_named(ctx.fields, r) {
            Seq::empty()
        } else {
            seq![
                ValidationIssue::FieldRefNotFound {
                    entity_type: ctx.entity_type,
                    name: ctx.name,
                    id: ctx.id,
                    ref_type,
                    field_name: r,
                },
            ]
        },
        None => Seq::empty(),
    }
}

/// All errors of one layer or table, in the order they are reported:
/// duplicate names, the ObjectID rule, the GlobalID rule, then the
/// ObjectID, GlobalID and display field references.
pub open spec fn field_issues(ctx: EntityView) -> Seq<ValidationIssue> {
    duplicate_name_issues(ctx, ctx.fields.len() as int) + object_id_issues(ctx) + global_id_issues(ctx)
        + reference_issue(ctx, ctx.object_id_field, "object_id"@) + reference_issue(
        ctx,
        ctx.global_id_field,
        "global_id"@,
    ) + reference_issue(ctx, ctx.display_field, "display"@)
}

fn lower_names(fields: &[FieldDefinition]) -> (r: Vec<String>)
    ensures
        r@.len() == fields@.len(),
        forall|k: int| 0 <= k < r@.len() ==> #[trigger] r@[k]@ == lowercase(fields@[k].name@),
{
    let mut out: Vec<String> = Vec::new();
    let mut i: usize = 0;
    while i < fields.len()
        invariant
            i <= fields@.len(),
            out@.len() == i,
            forall|k: int| 0 <= k < i ==> #[trigger] out@[k]@ == lowercase(fields@[k].name@),
        decreases fields@.len() - i,
    {
        out.push(to_lowercase(fields[i].name.as_str()));
        i = i + 1;
    }
    out
}

fn contains_text(list: &Vec<String>, upto: usize, x: &String) -> (r: bool)
    requires
        upto <= list@.len(),
    ensures
        r == exists|k: int| 0 <= k < upto && #[trigger] list@[k]@ == x@,
{
    let mut i: usize = 0;
    while i < upto
        invariant
            upto <= list@.len(),
            i <= upto,
            forall|k: int| 0 <= k < i ==> #[trigger] list@[k]@ != x@,
        decreases upto - i,
    {
        if list[i] == *x {
            return true;
        }
        i = i + 1;
    }
    false
}

fn issue_text(s: &str) -> (r: String)
    ensures
        r@ == s@,
{
    String::from_str(s)
}

fn push_issue(
    errors: &mut Vec<ServiceDefinitionValidationError>,
    e: ServiceDefinitionValidationError,
)
    ensures
        issues(final(errors)@) == issues(old(errors)@) + seq![e@],
{
    errors.push(e);
    proof {
        assert(issues(final(errors)@) =~= issues(old(errors)@) + seq![e@]);
    }
}

proof fn lemma_fields_of_type_step(fields: Seq<FieldDefinition>, i: int, t: FieldType)
    requires
        0 <= i < fields.len(),
    ensures
        fields_of_type(fields.take(i + 1), t) == fields_of_type(fields.take(i), t) + if fields[i].field_type
            == t {
            seq![fields[i]]
        } else {
            Seq::<FieldDefinition>::empty()
        },
{
    assert(fields.take(i + 1).drop_last() =~= fields.take(i));
    assert(fields.take(i + 1).last() == fields[i]);
}

fn push_duplicate_names(
    ctx: &FieldValidationCtx,
    lower: &Vec<String>,
    errors: &mut Vec<ServiceDefinitionValidationError>,
)
    requires
        lower@.len() == ctx.fields@.len(),
        forall|k: int| 0 <= k < lower@.len() ==> #[trigger] lower@[k]@ == lowercase(ctx.fields@[k].name@),
    ensures
        issues(final(errors)@) == issues(old(errors)@) + duplicate_name_issues(
            ctx@,
            ctx.fields@.len() as int,
        ),
{
    let ghost start = issues(errors@);
    let ghost c = ctx@;
    let fields = &ctx.fields;
    let n = fields.len();
    let mut i: usize = 0;
    while i < n
        invariant
            n == fields@.len(),
            c == ctx@,
            fields@ == ctx.fields@,
            lower@.len() == n,
            forall|k: int| 0 <= k < n ==> #[trigger] lower@[k]@ == lowercase(fields@[k].name@),
            i <= n,
            issues(errors@) == start + duplicate_name_issues(c, i as int),
        decreases n - i,
    {
        let seen = contains_text(lower, i, &lower[i]);
        proof {
            if seen {
                let k = choose|k: int| 0 <= k < i && #[trigger] lower@[k]@ == lower@[i as int]@;
                assert(lowercase(fields@[k].name@) == lowercase(fields@[i as int].name@));
                assert(name_seen_before(fields@, i as int));
            } else {
                assert forall|k: int| 0 <= k < i implies lowercase(#[trigger] fields@[k].name@)
                    != lowercase(fields@[i as int].name@) by {
                    assert(lower@[k]@ != lower@[i as int]@);
                }
            }
        }
        if seen {
            push_issue(
                errors,
                ServiceDefinitionValidationError::DuplicateFieldName {
                    entity_type: ctx.entity_type,
                    name: issue_text(ctx.name),
                    id: ctx.id,
                    field_name: issue_text(&fields[i].name),
                },
            );
        }
        proof {
            assert(issues(errors@) =~= start + duplicate_name_issues(c, i + 1));
        }
        i = i + 1;
    }
}

/// Counts the ObjectID fields (remembering the first) and the GlobalID
/// fields, and collects the errors for loosely configured GlobalID fields.
fn scan_id_fields(ctx: &FieldValidationCtx) -> (r: (
    usize,
    usize,
    usize,
    Vec<ServiceDefinitionValidationError>,
))
    ensures
        r.0 == fields_of_type(ctx.fields@, FieldType::Oid).len(),
        r.0 > 0 ==> r.1 < ctx.fields@.len() && fields_of_type(ctx.fields@, FieldType::Oid)[0]
            == ctx.fields@[r.1 as int],
        r.2 == fields_of_type(ctx.fields@, FieldType::GlobalId).len(),
        issues(r.3@) == loose_global_id_issues(
            ctx@,
            fields_of_type(ctx.fields@, FieldType::GlobalId),
        ),
{
    let ghost c = ctx@;
    let fields = &ctx.fields;
    let n = fields.len();
    let mut oid_count: usize = 0;
    let mut first_oid: usize = 0;
    let mut gid_count: usize = 0;
    let mut gid_issues: Vec<ServiceDefinitionValidationError> = Vec::new();
    proof {
        assert(issues(gid_issues@) =~= Seq::<ValidationIssue>::empty());
        assert(fields@.take(0) =~= Seq::<FieldDefinition>::empty());
    }
    let mut j: usize = 0;
    while j < n
        invariant
            n == fields@.len(),
            c == ctx@,
            fields@ == ctx.fields@,
            j <= n,
            oid_count == fields_of_type(fields@.take(j as int), FieldType::Oid).len(),
            oid_count > 0 ==> first_oid < j && fields_of_type(fields@.take(j as int), FieldType::Oid)[0]
                == fields@[first_oid as int],
            oid_count <= j,
            gid_count == fields_of_type(fields@.take(j as int), FieldType::GlobalId).len(),
            gid_count <= j,
            issues(gid_issues@) == loose_global_id_issues(
                c,
                fields_of_type(fields@.take(j as int), FieldType::GlobalId),
            ),
        decreases n - j,
    {
        proof {
            lemma_fields_of_type_step(fields@, j as int, FieldType::Oid);
            lemma_fields_of_type_step(fields@, j as int, FieldType::GlobalId);
        }
        let ghost gprev = fields_of_type(fields@.take(j as int), FieldType::GlobalId);
        let ghost gnext = fields_of_type(fields@.take(j + 1), FieldType::GlobalId);
        match fields[j].field_type {
            FieldType::Oid => {
                if oid_count == 0 {
                    first_oid = j;
                }
                oid_count = oid_count + 1;
            },
            FieldType::GlobalId => {
                gid_count = gid_count + 1;
                proof {
                    assert(gnext.drop_last() =~= gprev);
                    assert(gnext.last() == fields@[j as int]);
                }
                if fields[j].nullable != Some(false) || fields[j].editable != Some(false) {
                    push_issue(
                        &mut gid_issues,
                        ServiceDefinitionValidationError::GlobalIdFieldInvalidConfig {
                            entity_type: ctx.entity_type,
                            name: issue_text(ctx.name),
                            id: ctx.id,
                            field_name: issue_text(&fields[j].name),
                        },
                    );
                }
            },
            _ => {},
        }
        j = j + 1;
    }
    proof {
        assert(fields@.take(n as int) =~= fields@);
    }
    (oid_count, first_oid, gid_count, gid_issues)
}

fn push_object_id_issues(
    ctx: &FieldValidationCtx,
    oid_count: usize,
    first_oid: usize,
    errors: &mut Vec<ServiceDefinitionValidationError>,
)
    requires
        oid_count == fields_of_type(ctx.fields@, FieldType::Oid).len(),
        oid_count > 0 ==> first_oid < ctx.fields@.len() && fields_of_type(ctx.fields@, FieldType::Oid)[0]
            == ctx.fields@[first_oid as int],
    ensures
        issues(final(errors)@) == issues(old(errors)@) + object_id_issues(ctx@),
{
    if oid_count == 0 {
        push_issue(
            errors,
            ServiceDefinitionValidationError::MissingObjectId {
                entity_type: ctx.entity_type,
                name: issue_text(ctx.name),
                id: ctx.id,
            },
        );
    } else if oid_count == 1 {
        let f = &ctx.fields[first_oid];
        if f.nullable != Some(false) || f.editable != Some(false) {
            push_issue(
                errors,
                ServiceDefinitionValidationError::OidFieldInvalidConfig {
                    entity_type: ctx.entity_type,
                    name: issue_text(ctx.name),
                    id: ctx.id,
                    field_name: issue_text(&f.name),
                },
            );
        } else {
            assert(issues(final(errors)@) =~= issues(old(errors)@) + object_id_issues(ctx@));
        }
    } else {
        push_issue(
            errors,
            ServiceDefinitionValidationError::MultipleObjectIds {
                entity_type: ctx.entity_type,
                name: issue_text(ctx.name),
                id: ctx.id,
                count: oid_count,
            },
        );
    }
}

fn push_global_id_issues(
    ctx: &FieldValidationCtx,
    gid_count: usize,
    gid_issues: Vec<ServiceDefinitionValidationError>,
    errors: &mut Vec<ServiceDefinitionValidationError>,
)
    requires
        gid_count == fields_of_type(ctx.fields@, FieldType::GlobalId).len(),
        issues(gid_issues@) == loose_global_id_issues(
            ctx@,
            fields_of_type(ctx.fields@, FieldType::GlobalId),
        ),
    ensures
        issues(final(errors)@) == issues(old(errors)@) + global_id_issues(ctx@),
{
    let mut gid_issues = gid_issues;
    if *ctx.is_data_branch_versioned == Some(true) && gid_count == 0 {
        push_issue(
            errors,
            ServiceDefinitionValidationError::MissingGlobalIdForVersioning {
                entity_type: ctx.entity_type,
                name: issue_text(ctx.name),
                id: ctx.id,
            },
        );
    } else {
        let ghost before = errors@;
        let ghost extra = gid_issues@;
        errors.append(&mut gid_issues);
        proof {
            assert(errors@ =~= before + extra);
            assert(issues(errors@) =~= issues(before) + issues(extra));
        }
    }
}

/// Appends to `errors` every problem of one layer or table, in the order
/// of `field_issues`.
pub fn validate_fields(ctx: &FieldValidationCtx, errors: &mut Vec<ServiceDefinitionValidationError>)
    ensures
        issues(final(errors)@) == issues(old(errors)@) + field_issues(ctx@),
{
    let ghost start = issues(errors@);
    let lower = lower_names(ctx.fields);
    push_duplicate_names(ctx, &lower, errors);
    let ghost a = issues(errors@);
    let (oid_count, first_oid, gid_count, gid_issues) = scan_id_fields(ctx);
    push_object_id_issues(ctx, oid_count, first_oid, errors);
    let ghost b = issues(errors@);
    push_global_id_issues(ctx, gid_count, gid_issues, errors);
    let ghost d = issues(errors@);
    check_reference(ctx, &lower, &ctx.object_id_field, "object_id", errors);
    check_reference(ctx, &lower, &ctx.global_id_field, "global_id", errors);
    check_reference(ctx, &lower, &ctx.display_field, "display", errors);
    proof {
        reveal_strlit("object_id");
        reveal_strlit("global_id");
        reveal_strlit("display");
        assert(issues(errors@) =~= start + field_issues(ctx@));
    }
}

fn check_reference(
    ctx: &FieldValidationCtx,
    lower: &Vec<String>,
    reference: &Option<String>,
    ref_type: &'static str,
    errors: &mut Vec<ServiceDefinitionValidationError>,
)
    requires
        lower@.len() == ctx.fields@.len(),
        forall|k: int| 0 <= k < lower@.len() ==> #[trigger] lower@[k]@ == lowercase(ctx.fields@[k].name@),
    ensures
        issues(final(errors)@) == issues(old(errors)@) + reference_issue(ctx@, reference.deep_view(), ref_type@),
{
    match reference {
        Some(r) => {
            let target = to_lowercase(r.as_str());
            let found = contains_text(lower, lower.len(), &target);
            proof {
                if found {
                    let k = choose|k: int| 0 <= k < lower@.len() && #[trigger] lower@[k]@ == target@;
                    assert(lowercase(ctx.fields@[k].name@) == lowercase(r@));
                } else {
                    assert forall|k: int| 0 <= k < ctx.fields@.len() implies lowercase(
                        #[trigger] ctx.fields@[k].name@,
                    ) != lowercase(r@) by {
                        assert(lower@[k]@ != target@);
                    }
                }
            }
            if !found {
                push_issue(
                    errors,
                    ServiceDefinitionValidationError::FieldRefNotFound {
                        entity_type: ctx.entity_type,
                        name: issue_text(ctx.name),
                        id: ctx.id,
                        ref_type,
                        field_name: issue_text(r),
                    },
                );
            } else {
                assert(issues(final(errors)@) =~= issues(old(errors)@) + reference_issue(
                    ctx@,
                    reference.deep_view(),
                    ref_type@,
                ));
            }
        },
        None => {
            assert(issues(final(errors)@) =~= issues(old(errors)@) + reference_issue(
                ctx@,
                reference.deep_view(),
                ref_type@,
            ));
        },
    }
}

/// Validates one layer or table (what `LayerDefinition::validate` and
/// `TableDefinition::validate` do): `Ok` when it has no problem, otherwise
/// all its problems in the order of `field_issues`.
pub fn validate_entity(ctx: &FieldValidationCtx) -> (r: Result<
    (),
    Vec<ServiceDefinitionValidationError>,
>)
    ensures
        field_issues(ctx@).len() == 0 <==> r is Ok,
        r matches Err(errs) ==> issues(errs@) == field_issues(ctx@),
{
    let mut errors: Vec<ServiceDefinitionValidationError> = Vec::new();
    proof {
        assert(issues(errors@) =~= Seq::<ValidationIssue>::empty());
    }
    validate_fields(ctx, &mut errors);
    proof {
        assert(issues(errors@) =~= field_issues(ctx@));
    }
    if errors.len() == 0 {
        Ok(())
    } else {
        Err(errors)
    }
}

/// The problems of every entity in order, each entity's problems grouped.
pub open spec fn all_field_issues(ents: Seq<EntityView>) -> Seq<ValidationIssue>
    decreases ents.len(),
{
    if ents.len() == 0 {
        Seq::empty()
    } else {
        all_field_issues(ents.drop_last()) + field_issues(ents.last())
    }
}

/// Index of the first of the first `upto` entities whose ID is `id`, or -1.
pub open spec fn first_with_id(ents: Seq<EntityView>, upto: int, id: u32) -> int
    decreases upto,
{
    if upto <= 0 {
        -1
    } else {
        let p = first_with_id(ents, upto - 1, id);
        if p >= 0 {
            p
        } else if ents[upto - 1].id == id {
            upto - 1
        } else {
            -1
        }
    }
}

/// One `DuplicateId` error for each entity, in order, whose ID an earlier
/// entity already has; the first name is that of the first entity with
/// that ID.
pub open spec fn duplicate_id_issues(ents: Seq<EntityView>, n: int) -> Seq<ValidationIssue>
    decreases n,
{
    if n <= 0 {
        Seq::empty()
    } else {
        let p = first_with_id(ents, n - 1, ents[n - 1].id);
        duplicate_id_issues(ents, n - 1) + if p >= 0 {
            seq![
                ValidationIssue::DuplicateId {
                    id: ents[n - 1].id,
                    first_name: ents[p].name,
                    second_name: ents[n - 1].name,
                },
            ]
        } else {
            Seq::empty()
        }
    }
}

/// All problems of a service with the given layers and tables: each
/// layer's, then each table's, then the shared IDs among layers followed by
/// tables.
pub open spec fn service_issues(
    layers: Seq<EntityView>,
    tables: Seq<EntityView>,
) -> Seq<ValidationIssue> {
    all_field_issues(layers) + all_field_issues(tables) + duplicate_id_issues(
        layers + tables,
        (layers.len() + tables.len()) as int,
    )
}

proof fn lemma_first_with_id_range(ents: Seq<EntityView>, upto: int, id: u32)
    requires
        0 <= upto <= ents.len(),
    ensures
        -1 <= first_with_id(ents, upto, id) < upto,
        first_with_id(ents, upto, id) >= 0 ==> ents[first_with_id(ents, upto, id)].id == id,
        forall|k: int| 0 <= k < first_with_id(ents, upto, id) ==> #[trigger] ents[k].id != id,
        first_with_id(ents, upto, id) < 0 <==> forall|k: int| 0 <= k < upto ==> #[trigger] ents[k].id
            != id,
    decreases upto,
{
    if upto > 0 {
        lemma_first_with_id_range(ents, upto - 1, id);
    }
}

/// Registry of IDs seen so far: each entry pairs an ID with the name of the
/// first entity seen with it, and each ID appears once.
pub open spec fn registry_ok(reg: Seq<(u32, String)>, ents: Seq<EntityView>, i: int) -> bool {
    &&& forall|p: int, q: int| 0 <= p < q < reg.len() ==> #[trigger] reg[p].0 != #[trigger] reg[q].0
    &&& forall|p: int|
        0 <= p < reg.len() ==> {
            let l = first_with_id(ents, i, #[trigger] reg[p].0);
            l >= 0 && reg[p].1@ == ents[l].name
        }
    &&& forall|k: int| 0 <= k < i ==> registered(reg, #[trigger] ents[k].id)
}

/// Whether `id` has an entry in the registry.
pub open spec fn registered(reg: Seq<(u32, String)>, id: u32) -> bool {
    exists|p: int| 0 <= p < reg.len() && #[trigger] reg[p].0 == id
}

fn find_id(reg: &Vec<(u32, String)>, id: u32) -> (r: Option<usize>)
    ensures
        r matches Some(p) ==> p < reg@.len() && reg@[p as int].0 == id,
        r is None ==> forall|p: int| 0 <= p < reg@.len() ==> #[trigger] reg@[p].0 != id,
{
    let mut p: usize = 0;
    while p < reg.len()
        invariant
            p <= reg@.len(),
            forall|q: int| 0 <= q < p ==> #[trigger] reg@[q].0 != id,
        decreases reg@.len() - p,
    {
        if reg[p].0 == id {
            return Some(p);
        }
        p = p + 1;
    }
    None
}

fn record_id(
    reg: &mut Vec<(u32, String)>,
    ents: Ghost<Seq<EntityView>>,
    Ghost(i): Ghost<int>,
    id: u32,
    name: &String,
    errors: &mut Vec<ServiceDefinitionValidationError>,
)
    requires
        0 <= i < ents@.len(),
        ents@[i].id == id,
        ents@[i].name == name@,
        registry_ok(old(reg)@, ents@, i),
    ensures
        registry_ok(final(reg)@, ents@, i + 1),
        issues(final(errors)@) == issues(old(errors)@) + duplicate_id_issues(ents@, i + 1).skip(
            duplicate_id_issues(ents@, i).len() as int,
        ),
{
    let ghost e = ents@;
    let ghost prev = duplicate_id_issues(e, i);
    let ghost l = first_with_id(e, i, id);
    proof {
        lemma_first_with_id_range(e, i, id);
        assert forall|x: u32| #[trigger] first_with_id(e, i + 1, x) == if first_with_id(e, i, x)
            >= 0 {
            first_with_id(e, i, x)
        } else if e[i].id == x {
            i
        } else {
            -1
        } by {}
    }
    let found = find_id(reg, id);
    match found {
        Some(p) => {
            proof {
                assert(reg@[p as int].0 == id);
                assert(first_with_id(e, i, reg@[p as int].0) >= 0);
            }
            let first_name = reg[p].1.clone();
            push_issue(
                errors,
                ServiceDefinitionValidationError::DuplicateId {
                    id: id,
                    first_name,
                    second_name: name.clone(),
                },
            );
            proof {
                assert forall|q: int| 0 <= q < reg@.len() implies {
                    let l2 = first_with_id(e, i + 1, #[trigger] reg@[q].0);
                    l2 >= 0 && reg@[q].1@ == e[l2].name
                } by {
                    assert(first_with_id(e, i, reg@[q].0) >= 0);
                }
                assert forall|k: int| 0 <= k < i + 1 implies registered(reg@, #[trigger] e[k].id) by {
                    if k == i {
                        assert(reg@[p as int].0 == e[k].id);
                    }
                }
                assert(duplicate_id_issues(e, i + 1) =~= prev + seq![
                    ValidationIssue::DuplicateId {
                        id: e[i].id,
                        first_name: e[l].name,
                        second_name: e[i].name,
                    },
                ]);
                assert(duplicate_id_issues(e, i + 1).skip(prev.len() as int) =~= seq![
                    ValidationIssue::DuplicateId {
                        id: e[i].id,
                        first_name: e[l].name,
                        second_name: e[i].name,
                    },
                ]);
            }
        },
        None => {
            proof {
                if l >= 0 {
                    let q = choose|q: int| 0 <= q < reg@.len() && #[trigger] reg@[q].0 == e[l].id;
                    assert(reg@[q].0 == id);
                }
            }
            let ghost before = reg@;
            reg.push((id, name.clone()));
            proof {
                assert forall|q: int| 0 <= q < reg@.len() implies {
                    let l2 = first_with_id(e, i + 1, #[trigger] reg@[q].0);
                    l2 >= 0 && reg@[q].1@ == e[l2].name
                } by {
                    if q < before.len() {
                        assert(reg@[q] == before[q]);
                        assert(first_with_id(e, i, before[q].0) >= 0);
                    } else {
                        assert(reg@[q].0 == id);
                    }
                }
                assert forall|k: int| 0 <= k < i + 1 implies registered(reg@, #[trigger] e[k].id) by {
                    if k < i {
                        let q = choose|q: int| 0 <= q < before.len() && #[trigger] before[q].0 == e[k].id;
                        assert(reg@[q].0 == e[k].id);
                    } else {
                        assert(reg@[before.len() as int].0 == e[k].id);
                    }
                }
                assert forall|a: int, b: int| 0 <= a < b < reg@.len() implies #[trigger] reg@[a].0
                    != #[trigger] reg@[b].0 by {
                    if b < before.len() {
                        assert(before[a].0 != before[b].0);
                    } else {
                        assert(reg@[a] == before[a]);
                    }
                }
                assert(duplicate_id_issues(e, i + 1) =~= prev);
                assert(duplicate_id_issues(e, i + 1).skip(prev.len() as int) =~= Seq::<
                    ValidationIssue,
                >::empty());
                assert(issues(final(errors)@) =~= issues(old(errors)@) + Seq::<ValidationIssue>::empty());
            }
        },
    }
}

/// What validation sees of a layer definition.
pub open spec fn layer_view(l: LayerDefinition) -> EntityView {
    EntityView {
        entity_type: "Layer"@,
        name: l.name@,
        id: l.id,
        fields: l.fields@,
        object_id_field: l.object_id_field.deep_view(),
        global_id_field: l.global_id_field.deep_view(),
        display_field: l.display_field.deep_view(),
        is_data_branch_versioned: l.is_data_branch_versioned,
    }
}

/// What validation sees of a table definition.
pub open spec fn table_view(t: TableDefinition) -> EntityView {
    EntityView {
        entity_type: "Table"@,
        name: t.name@,
        id: t.id,
        fields: t.fields@,
        object_id_field: t.object_id_field.deep_view(),
        global_id_field: t.global_id_field.deep_view(),
        display_field: t.display_field.deep_view(),
        is_data_branch_versioned: t.is_data_branch_versioned,
    }
}

/// The layers of a service as validation sees them.
pub open spec fn layer_views(layers: Seq<LayerDefinition>) -> Seq<EntityView> {
    layers.map_values(|l: LayerDefinition| layer_view(l))
}

/// The tables of a service as validation sees them.
pub open spec fn table_views(tables: Seq<TableDefinition>) -> Seq<EntityView> {
    tables.map_values(|t: TableDefinition| table_view(t))
}

impl LayerDefinition {
    /// The validation context of this layer, borrowing its fields.
    pub fn validation_ctx(&self) -> (c: FieldValidationCtx<'_>)
        ensures
            c@ == layer_view(*self),
    {
        FieldValidationCtx {
            entity_type: "Layer",
            name: self.name.as_str(),
            id: self.id,
            fields: self.fields.as_slice(),
            object_id_field: &self.object_id_field,
            global_id_field: &self.global_id_field,
            display_field: &self.display_field,
            is_data_branch_versioned: &self.is_data_branch_versioned,
        }
    }

    /// Validates the layer: `Ok` when it has no problem, otherwise all its
    /// problems in the order of `field_issues`.
    pub fn validate(&self) -> (r: Result<(), Vec<ServiceDefinitionValidationError>>)
        ensures
            field_issues(layer_view(*self)).len() == 0 <==> r is Ok,
            r matches Err(errs) ==> issues(errs@) == field_issues(layer_view(*self)),
    {
        validate_entity(&self.validation_ctx())
    }
}

impl TableDefinition {
    /// The validation context of this table, borrowing its fields.
    pub fn validation_ctx(&self) -> (c: FieldValidationCtx<'_>)
        ensures
            c@ == table_view(*self),
    {
        FieldValidationCtx {
            entity_type: "Table",
            name: self.name.as_str(),
            id: self.id,
            fields: self.fields.as_slice(),
            object_id_field: &self.object_id_field,
            global_id_field: &self.global_id_field,
            display_field: &self.display_field,
            is_data_branch_versioned: &self.is_data_branch_versioned,
        }
    }

    /// Validates the table with the same rules as a layer.
    pub fn validate(&self) -> (r: Result<(), Vec<ServiceDefinitionValidationError>>)
        ensures
            field_issues(table_view(*self)).len() == 0 <==> r is Ok,
            r matches Err(errs) ==> issues(errs@) == field_issues(table_view(*self)),
    {
        validate_entity(&self.validation_ctx())
    }
}

impl ServiceDefinition {
    /// Validates the whole service: `Ok` when neither a layer, a table, nor
    /// the IDs shared among them show a problem, otherwise all problems in
    /// the order of `service_issues`.
    pub fn validate(&self) -> (r: Result<(), Vec<ServiceDefinitionValidationError>>)
        ensures
            service_issues(layer_views(self.layers@), table_views(self.tables@)).len() == 0 <==> r is Ok,
            r matches Err(errs) ==> issues(errs@) == service_issues(
                layer_views(self.layers@),
                table_views(self.tables@),
            ),
    {
        let ghost lv = layer_views(self.layers@);
        let ghost tv = table_views(self.tables@);
        let mut errors: Vec<ServiceDefinitionValidationError> = Vec::new();
        proof {
            assert(issues(errors@) =~= Seq::<ValidationIssue>::empty());
        }
        let nl = self.layers.len();
        let nt = self.tables.len();
        let mut i: usize = 0;
        while i < nl
            invariant
                nl == self.layers@.len(),
                lv == layer_views(self.layers@),
                i <= nl,
                issues(errors@) == all_field_issues(lv.take(i as int)),
            decreases nl - i,
        {
            let ctx = self.layers[i].validation_ctx();
            validate_fields(&ctx, &mut errors);
            proof {
                assert(lv.take(i + 1).drop_last() =~= lv.take(i as int));
                assert(lv.take(i + 1).last() == lv[i as int]);
            }
            i = i + 1;
        }
        proof {
            assert(lv.take(nl as int) =~= lv);
        }
        let ghost after_layers = issues(errors@);
        let mut t: usize = 0;
        while t < nt
            invariant
                nt == self.tables@.len(),
                tv == table_views(self.tables@),
                t <= nt,
                issues(errors@) == after_layers + all_field_issues(tv.take(t as int)),
            decreases nt - t,
        {
            let ctx = self.tables[t].validation_ctx();
            validate_fields(&ctx, &mut errors);
            proof {
                assert(tv.take(t + 1).drop_last() =~= tv.take(t as int));
                assert(tv.take(t + 1).last() == tv[t as int]);
            }
            t = t + 1;
        }
        proof {
            assert(tv.take(nt as int) =~= tv);
        }
        let ghost base = issues(errors@);
        let ghost ents = lv + tv;
        let mut reg: Vec<(u32, String)> = Vec::new();
        let mut i: usize = 0;
        while i < nl
            invariant
                nl == self.layers@.len(),
                lv == layer_views(self.layers@),
                ents == lv + tv,
                i <= nl,
                registry_ok(reg@, ents, i as int),
                issues(errors@) == base + duplicate_id_issues(ents, i as int),
            decreases nl - i,
        {
            proof {
                assert(ents[i as int] == layer_view(self.layers@[i as int]));
            }
            record_id(
                &mut reg,
                Ghost(ents),
                Ghost(i as int),
                self.layers[i].id,
                &self.layers[i].name,
                &mut errors,
            );
            proof {
                let d = duplicate_id_issues(ents, i as int);
                let d2 = duplicate_id_issues(ents, i + 1);
                assert(d2.subrange(0, d.len() as int) =~= d);
                assert(d2 =~= d + d2.skip(d.len() as int));
            }
            i = i + 1;
        }
        let mut t: usize = 0;
        while t < nt
            invariant
                nl == self.layers@.len(),
                nt == self.tables@.len(),
                lv.len() == nl,
                tv == table_views(self.tables@),
                ents == lv + tv,
                t <= nt,
                registry_ok(reg@, ents, nl + t),
                issues(errors@) == base + duplicate_id_issues(ents, nl + t),
            decreases nt - t,
        {
            proof {
                assert(ents[nl + t] == table_view(self.tables@[t as int]));
            }
            record_id(
                &mut reg,
                Ghost(ents),
                Ghost(nl + t),
                self.tables[t].id,
                &self.tables[t].name,
                &mut errors,
            );
            proof {
                let d = duplicate_id_issues(ents, nl + t);
                let d2 = duplicate_id_issues(ents, nl + t + 1);
                assert(d2.subrange(0, d.len() as int) =~= d);
                assert(d2 =~= d + d2.skip(d.len() as int));
            }
            t = t + 1;
        }
        proof {
            assert(issues(errors@) =~= service_issues(lv, tv));
        }
        if errors.len() == 0 {
            Ok(())
        } else {
            Err(errors)
        }
    }
}

/// The grouped problems of a list of entities are empty exactly when each
/// entity has none.
pub proof fn lemma_all_field_issues_empty(ents: Seq<EntityView>)
    ensures
        all_field_issues(ents).len() == 0 <==> forall|k: int|
            0 <= k < ents.len() ==> #[trigger] field_issues(ents[k]).len() == 0,
    decreases ents.len(),
{
    if ents.len() > 0 {
        let init = ents.drop_last();
        lemma_all_field_issues_empty(init);
        assert forall|k: int| 0 <= k < init.len() implies #[trigger] init[k] == ents[k] by {}
        if exists|k: int| 0 <= k < ents.len() && #[trigger] field_issues(ents[k]).len() != 0 {
            let k = choose|k: int| 0 <= k < ents.len() && #[trigger] field_issues(ents[k]).len() != 0;
            if k < init.len() {
                assert(field_issues(init[k]).len() != 0);
            }
        }
    }
}

/// No duplicate-ID problem arises among the first `n` entities exactly when
/// their IDs are pairwise distinct.
pub proof fn lemma_duplicate_ids_empty(ents: Seq<EntityView>, n: int)
    requires
        0 <= n <= ents.len(),
    ensures
        duplicate_id_issues(ents, n).len() == 0 <==> forall|a: int, b: int|
            0 <= a < b < n ==> #[trigger] ents[a].id != #[trigger] ents[b].id,
    decreases n,
{
    if n > 0 {
        lemma_duplicate_ids_empty(ents, n - 1);
        lemma_first_with_id_range(ents, n - 1, ents[n - 1].id);
        let p = first_with_id(ents, n - 1, ents[n - 1].id);
        if p >= 0 {
            assert(ents[p].id == ents[n - 1].id);
        } else {
            assert forall|a: int, b: int| 0 <= a < b < n && (forall|x: int, y: int|
                0 <= x < y < n - 1 ==> #[trigger] ents[x].id != #[trigger] ents[y].id) implies
                #[trigger] ents[a].id != #[trigger] ents[b].id by {
                if b == n - 1 {
                    assert(ents[a].id != ents[n - 1].id);
                }
            }
        }
    }
}

/// A service definition validates exactly when every layer and every table
/// validates on its own and no two of them, layers and tables together,
/// share an ID.
pub proof fn lemma_service_valid_iff(
    layers: Seq<EntityView>,
    tables: Seq<EntityView>,
)
    ensures
        service_issues(layers, tables).len() == 0 <==> ({
            &&& forall|k: int| 0 <= k < layers.len() ==> #[trigger] field_issues(layers[k]).len() == 0
            &&& forall|k: int| 0 <= k < tables.len() ==> #[trigger] field_issues(tables[k]).len() == 0
            &&& forall|a: int, b: int|
                0 <= a < b < layers.len() + tables.len() ==> #[trigger] (layers + tables)[a].id
                    != #[trigger] (layers + tables)[b].id
        }),
{
    lemma_all_field_issues_empty(layers);
    lemma_all_field_issues_empty(tables);
    lemma_duplicate_ids_empty(layers + tables, (layers.len() + tables.len()) as int);
}

/// A layer or table with a problem makes the whole service fail, and its
/// problems are among the service's.
pub proof fn lemma_entity_failure_fails_service(
    layers: Seq<EntityView>,
    tables: Seq<EntityView>,
    ent: EntityView,
)
    requires
        layers.contains(ent) || tables.contains(ent),
        field_issues(ent).len() > 0,
    ensures
        service_issues(layers, tables).len() > 0,
{
    lemma_service_valid_iff(layers, tables);
    if layers.contains(ent) {
        let k = choose|k: int| 0 <= k < layers.len() && layers[k] == ent;
        assert(field_issues(layers[k]).len() > 0);
    } else {
        let k = choose|k: int| 0 <= k < tables.len() && tables[k] == ent;
        assert(field_issues(tables[k]).len() > 0);
    }
}

/// Two entities of a service with the same ID make it fail.
pub proof fn lemma_shared_id_fails_service(
    layers: Seq<EntityView>,
    tables: Seq<EntityView>,
    a: int,
    b: int,
)
    requires
        0 <= a < b < layers.len() + tables.len(),
        (layers + tables)[a].id == (layers + tables)[b].id,
    ensures
        service_issues(layers, tables).len() > 0,
{
    lemma_service_valid_iff(layers, tables);
}

/// No two fields have the same name, ignoring case.
pub open spec fn field_names_distinct(fields: Seq<FieldDefinition>) -> bool {
    forall|k: int, j: int|
        0 <= k < j < fields.len() ==> lowercase(#[trigger] fields[k].name@) != lowercase(
            #[trigger] fields[j].name@,
        )
}

/// An unset reference, or one naming a field (ignoring case).
pub open spec fn reference_resolves(fields: Seq<FieldDefinition>, reference: Option<Seq<char>>) -> bool {
    match reference {
        Some(r) => has_field_named(fields, r),
        None => true,
    }
}

/// The field rules of one layer or table: unique field names; exactly
/// one ObjectID field, declared neither nullable nor editable; with branch
/// versioning, at least one GlobalID field; no GlobalID field declared
/// nullable or editable; and every named field reference resolves.
pub open spec fn entity_rules_hold(ctx: EntityView) -> bool {
    let oids = fields_of_type(ctx.fields, FieldType::Oid);
    let gids = fields_of_type(ctx.fields, FieldType::GlobalId);
    &&& field_names_distinct(ctx.fields)
    &&& oids.len() == 1
    &&& !loosely_configured(oids[0])
    &&& ctx.is_data_branch_versioned == Some(true) ==> gids.len() > 0
    &&& forall|k: int| 0 <= k < gids.len() ==> !loosely_configured(#[trigger] gids[k])
    &&& reference_resolves(ctx.fields, ctx.object_id_field)
    &&& reference_resolves(ctx.fields, ctx.global_id_field)
    &&& reference_resolves(ctx.fields, ctx.display_field)
}

proof fn lemma_duplicate_names_empty(ctx: EntityView, n: int)
    requires
        0 <= n <= ctx.fields.len(),
    ensures
        duplicate_name_issues(ctx, n).len() == 0 <==> forall|j: int|
            0 <= j < n ==> !#[trigger] name_seen_before(ctx.fields, j),
    decreases n,
{
    if n > 0 {
        lemma_duplicate_names_empty(ctx, n - 1);
    }
}

proof fn lemma_loose_global_ids_empty(ctx: EntityView, gids: Seq<FieldDefinition>)
    ensures
        loose_global_id_issues(ctx, gids).len() == 0 <==> forall|k: int|
            0 <= k < gids.len() ==> !loosely_configured(#[trigger] gids[k]),
    decreases gids.len(),
{
    if gids.len() > 0 {
        let init = gids.drop_last();
        lemma_loose_global_ids_empty(ctx, init);
        assert forall|k: int| 0 <= k < init.len() implies #[trigger] init[k] == gids[k] by {}
        if exists|k: int| 0 <= k < gids.len() && loosely_configured(#[trigger] gids[k]) {
            let k = choose|k: int| 0 <= k < gids.len() && loosely_configured(#[trigger] gids[k]);
            if k < init.len() {
                assert(loosely_configured(init[k]));
            }
        }
    }
}

/// A layer or table validates exactly when its field rules hold.
pub proof fn lemma_entity_valid_iff(ctx: EntityView)
    ensures
        field_issues(ctx).len() == 0 <==> entity_rules_hold(ctx),
{
    let fields = ctx.fields;
    lemma_duplicate_names_empty(ctx, fields.len() as int);
    lemma_loose_global_ids_empty(ctx, fields_of_type(fields, FieldType::GlobalId));
    assert((forall|j: int| 0 <= j < fields.len() ==> !#[trigger] name_seen_before(fields, j))
        <==> field_names_distinct(fields)) by {
        if field_names_distinct(fields) {
            assert forall|j: int| 0 <= j < fields.len() implies !#[trigger] name_seen_before(
                fields,
                j,
            ) by {
                if name_seen_before(fields, j) {
                    let k = choose|k: int|
                        0 <= k < j && lowercase(#[trigger] fields[k].name@) == lowercase(
                            fields[j].name@,
                        );
                    assert(lowercase(fields[k].name@) != lowercase(fields[j].name@));
                }
            }
        }
        if forall|j: int| 0 <= j < fields.len() ==> !#[trigger] name_seen_before(fields, j) {
            assert forall|k: int, j: int| 0 <= k < j < fields.len() implies lowercase(
                #[trigger] fields[k].name@,
            ) != lowercase(#[trigger] fields[j].name@) by {
                assert(!name_seen_before(fields, j));
            }
        }
    }
}

} // verus!
