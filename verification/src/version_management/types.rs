//! Records and enumerations of the version management service.

use vstd::prelude::*;

verus! {

/// How a dataset is versioned.
#[derive(Debug, Clone, Copy, PartialEq, Eq, Hash, Structural)]
pub enum VersioningType {
    Branch,
    Traditional,
}

impl VersioningType {
    /// The value's name as an owned string, as `Display` writes it.
    pub fn to_string(&self) -> (r: String)
        ensures
            r@ == self.wire_name(),
    {
        String::from_str(self.as_str())
    }

    /// The name the REST API uses for this value.
    pub open spec fn wire_name(self) -> Seq<char> {
        match self {
            VersioningType::Branch => "branch"@,
            VersioningType::Traditional => "traditional"@,
        }
    }

    /// Each value has its own wire name, as listed; no two values share
    /// one.
    pub proof fn lemma_wire_names(a: Self, b: Self)
        ensures
            a.wire_name() == b.wire_name() ==> a == b,
            a == VersioningType::Branch ==> a.wire_name() == "branch"@,
            a == VersioningType::Traditional ==> a.wire_name() == "traditional"@,
    {
        reveal_strlit("branch");
        reveal_strlit("traditional");
        assert("branch"@.len() != "traditional"@.len());
    }

    /// The value's name as the service and `Display` write it.
    pub fn as_str(&self) -> (r: &'static str)
        ensures
            r@ == self.wire_name(),
    {
        match self {
            VersioningType::Branch => "branch",
            VersioningType::Traditional => "traditional",
        }
    }
}

/// Who may see and edit a version.
#[derive(Debug, Clone, Copy, PartialEq, Eq, Hash, Structural)]
pub enum VersionPermission {
    Public,
    Protected,
    Private,
}

impl VersionPermission {
    /// The value's name as an owned string, as `Display` writes it.
    pub fn to_string(&self) -> (r: String)
        ensures
            r@ == self.wire_name(),
    {
        String::from_str(self.as_str())
    }

    /// The name the REST API uses for this value.
    pub open spec fn wire_name(self) -> Seq<char> {
        match self {
            VersionPermission::Public => "public"@,
            VersionPermission::Protected => "protected"@,
            VersionPermission::Private => "private"@,
        }
    }

    /// Each value has its own wire name, as listed; no two values share
    /// one.
    pub proof fn lemma_wire_names(a: Self, b: Self)
        ensures
            a.wire_name() == b.wire_name() ==> a == b,
            a == VersionPermission::Public ==> a.wire_name() == "public"@,
            a == VersionPermission::Protected ==> a.wire_name() == "protected"@,
            a == VersionPermission::Private ==> a.wire_name() == "private"@,
    {
        reveal_strlit("private");
        reveal_strlit("protected");
        reveal_strlit("public");
        assert("public"@.len() != "protected"@.len());
        assert("public"@.len() != "private"@.len());
        assert("protected"@.len() != "private"@.len());
    }

    /// The value's name as the service and `Display` write it.
    pub fn as_str(&self) -> (r: &'static str)
        ensures
            r@ == self.wire_name(),
    {
        match self {
            VersionPermission::Public => "public",
            VersionPermission::Protected => "protected",
            VersionPermission::Private => "private",
        }
    }
}

/// How reconcile detects conflicts.
#[derive(Debug, Clone, Copy, PartialEq, Eq, Hash, Structural)]
pub enum ConflictDetection {
    ByObject,
    ByAttribute,
}

impl ConflictDetection {
    /// The value's name as an owned string, as `Display` writes it.
    pub fn to_string(&self) -> (r: String)
        ensures
            r@ == self.wire_name(),
    {
        String::from_str(self.as_str())
    }

    /// The name the REST API uses for this value.
    pub open spec fn wire_name(self) -> Seq<char> {
        match self {
            ConflictDetection::ByObject => "byObject"@,
            ConflictDetection::ByAttribute => "byAttribute"@,
        }
    }

    /// Each value has its own wire name, as listed; no two values share
    /// one.
    pub proof fn lemma_wire_names(a: Self, b: Self)
        ensures
            a.wire_name() == b.wire_name() ==> a == b,
            a == ConflictDetection::ByObject ==> a.wire_name() == "byObject"@,
            a == ConflictDetection::ByAttribute ==> a.wire_name() == "byAttribute"@,
    {
        reveal_strlit("byAttribute");
        reveal_strlit("byObject");
        assert("byObject"@.len() != "byAttribute"@.len());
    }

    /// The value's name as the service and `Display` write it.
    pub fn as_str(&self) -> (r: &'static str)
        ensures
            r@ == self.wire_name(),
    {
        match self {
            ConflictDetection::ByObject => "byObject",
            ConflictDetection::ByAttribute => "byAttribute",
        }
    }
}

impl Default for ConflictDetection {
    fn default() -> (r: ConflictDetection)
        ensures
            r == ConflictDetection::ByObject,
    {
        ConflictDetection::ByObject
    }
}

/// Error reported by a version operation.
#[derive(Debug, Clone)]
pub struct EditSessionError {
    pub code: i32,
    pub message: String,
    pub details: Option<Vec<String>>,
}

/// Answer to starting an edit session.
#[derive(Debug, Clone)]
pub struct StartEditingResponse {
    pub success: bool,
    pub moment: Option<String>,
    pub error: Option<EditSessionError>,
}

/// Answer to stopping an edit session.
#[derive(Debug, Clone)]
pub struct StopEditingResponse {
    pub success: bool,
    pub moment: Option<String>,
    pub error: Option<EditSessionError>,
}

/// Answer to starting a read session.
#[derive(Debug, Clone)]
pub struct StartReadingResponse {
    pub success: bool,
    pub moment: Option<String>,
    pub error: Option<EditSessionError>,
}

/// Answer to stopping a read session.
#[derive(Debug, Clone)]
pub struct StopReadingResponse {
    pub success: bool,
    pub moment: Option<String>,
    pub error: Option<EditSessionError>,
}

/// Answer to altering a version.
#[derive(Debug, Clone)]
pub struct AlterResponse {
    pub success: bool,
    pub moment: Option<String>,
    pub error: Option<EditSessionError>,
}

/// Answer to deleting a version.
#[derive(Debug, Clone)]
pub struct DeleteResponse {
    pub success: bool,
    pub moment: Option<String>,
    pub error: Option<EditSessionError>,
}

/// Answer to posting a version.
#[derive(Debug, Clone)]
pub struct PostResponse {
    pub success: bool,
    pub moment: Option<String>,
    pub error: Option<EditSessionError>,
}

/// Description of a version.
#[derive(Debug, Clone)]
pub struct VersionInfo {
    pub version_guid: String,
    pub version_name: String,
    pub description: Option<String>,
    pub access: Option<String>,
    pub created_date: Option<String>,
    pub modified_date: Option<String>,
}

/// Parameters of a new version.
#[derive(Debug, Clone)]
pub struct CreateVersionParams {
    pub version_name: String,
    pub access: VersionPermission,
    pub description: Option<String>,
}

impl CreateVersionParams {
    /// A version name and permission, with no description.
    pub fn new(version_name: String, access: VersionPermission) -> (r: CreateVersionParams)
        ensures
            r == (CreateVersionParams { version_name: version_name, access: access, description: None }),
    {
        CreateVersionParams { version_name: version_name, access: access, description: None }
    }

    /// Sets `description`.
    pub fn with_description(self, description: String) -> (r: CreateVersionParams)
        ensures
            r == (CreateVersionParams { description: Some(description), ..self }),
    {
        CreateVersionParams { description: Some(description), ..self }
    }


}

/// Changes to a version; unset fields stay as they are.
#[derive(Debug, Clone)]
pub struct AlterVersionParams {
    pub version_name: Option<String>,
    pub access: Option<VersionPermission>,
    pub description: Option<String>,
}

impl AlterVersionParams {
    /// No changes.
    pub fn new() -> (r: AlterVersionParams)
        ensures
            r == (AlterVersionParams { version_name: None, access: None, description: None }),
    {
        AlterVersionParams { version_name: None, access: None, description: None }
    }

    /// Sets `version_name`.
    pub fn with_version_name(self, version_name: String) -> (r: AlterVersionParams)
        ensures
            r == (AlterVersionParams { version_name: Some(version_name), ..self }),
    {
        AlterVersionParams { version_name: Some(version_name), ..self }
    }

    /// Sets `access`.
    pub fn with_access(self, access: VersionPermission) -> (r: AlterVersionParams)
        ensures
            r == (AlterVersionParams { access: Some(access), ..self }),
    {
        AlterVersionParams { access: Some(access), ..self }
    }

    /// Sets `description`.
    pub fn with_description(self, description: String) -> (r: AlterVersionParams)
        ensures
            r == (AlterVersionParams { description: Some(description), ..self }),
    {
        AlterVersionParams { description: Some(description), ..self }
    }


}

impl Default for AlterVersionParams {
    fn default() -> (r: AlterVersionParams)
        ensures
            r == (AlterVersionParams { version_name: None, access: None, description: None }),
    {
        AlterVersionParams::new()
    }
}

/// Answer to creating a version.
#[derive(Debug, Clone)]
pub struct CreateVersionResponse {
    pub success: bool,
    pub version_info: Option<VersionInfo>,
    pub error: Option<EditSessionError>,
}

/// The versions of a service.
#[derive(Debug, Clone)]
pub struct VersionInfosResponse {
    pub versions: Vec<VersionInfo>,
}

/// Answer to a reconcile.
#[derive(Debug, Clone)]
pub struct ReconcileResponse {
    pub success: bool,
    pub has_conflicts: Option<bool>,
    pub moment: Option<String>,
    pub did_post: Option<bool>,
    pub error: Option<EditSessionError>,
}

/// Rows of one layer to post on their own.
#[derive(Debug, Clone)]
pub struct PartialPostRow {
    pub layer_id: i32,
    pub object_ids: Vec<i64>,
}

impl PartialPostRow {
    /// The given rows of a layer.
    pub fn new(layer_id: i32, object_ids: Vec<i64>) -> (r: PartialPostRow)
        ensures
            r == (PartialPostRow { layer_id: layer_id, object_ids: object_ids }),
    {
        PartialPostRow { layer_id: layer_id, object_ids: object_ids }
    }


}

} // verus!
