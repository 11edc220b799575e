//! Users, items, groups, sharing and publishing records of a portal.
//! Values that the portal exchanges as free-form JSON are held as their
//! JSON text, and extents as the JSON text sent.

use vstd::prelude::*;

verus! {

/// Sort direction of a search.
#[derive(Debug, Clone, Copy, PartialEq, Eq, Hash, Structural)]
pub enum SortOrder {
    Asc,
    Desc,
}

impl SortOrder {
    /// The `sortOrder` value: `asc` or `desc`.
    pub open spec fn param_name(self) -> Seq<char> {
        match self {
            SortOrder::Asc => "asc"@,
            SortOrder::Desc => "desc"@,
        }
    }

    /// Each value has its own parameter name, as listed; no two values share
    /// one.
    pub proof fn lemma_param_names(a: Self, b: Self)
        ensures
            a.param_name() == b.param_name() ==> a == b,
            a == SortOrder::Asc ==> a.param_name() == "asc"@,
            a == SortOrder::Desc ==> a.param_name() == "desc"@,
    {
        reveal_strlit("asc");
        reveal_strlit("desc");
        assert("asc"@.len() != "desc"@.len());
    }

    /// Returns the `sortOrder` value.
    pub fn as_param(&self) -> (r: &'static str)
        ensures
            r@ == self.param_name(),
    {
        match self {
            SortOrder::Asc => "asc",
            SortOrder::Desc => "desc",
        }
    }
}

/// Role of a user in a group; roles the portal adds later read as
/// `Unknown`.
#[derive(Debug, Clone, PartialEq, Eq, Hash, Structural)]
pub enum GroupMembershipType {
    Owner,
    Admin,
    Member,
    Unknown,
}


/// The application behind an app login.
#[derive(Debug, Clone)]
pub struct AppInfo {
    pub app_id: String,
    pub item_id: String,
    pub app_owner: String,
    pub org_id: String,
    pub app_title: String,
    pub privileges: Vec<String>,
}

/// A group the user belongs to.
#[derive(Debug, Clone)]
pub struct GroupMembership {
    pub id: Option<String>,
    pub title: Option<String>,
    /// Membership details, as JSON text.
    pub user_membership: Option<String>,
    pub is_invitation_only: Option<bool>,
}

/// The user's membership in a group.
#[derive(Debug, Clone)]
pub struct UserMembershipInfo {
    pub username: String,
    pub member_type: GroupMembershipType,
    pub applications: i64,
}

/// The signed-in user, or the application of an app login.
#[derive(Debug, Clone)]
pub struct UserInfo {
    pub username: Option<String>,
    pub app_info: Option<AppInfo>,
    pub full_name: Option<String>,
    pub email: Option<String>,
    pub role: Option<String>,
    pub privileges: Vec<String>,
    pub groups: Vec<GroupMembership>,
    pub storage_quota: Option<i64>,
    pub storage_usage: Option<i64>,
    pub culture: Option<String>,
    pub region: Option<String>,
    pub thumbnail: Option<String>,
    pub description: Option<String>,
    pub tags: Vec<String>,
    pub access: Option<String>,
    pub preferred_view: Option<String>,
    pub units: Option<String>,
    pub id: Option<String>,
    pub created: Option<i64>,
    pub modified: Option<i64>,
    pub org_id: Option<String>,
}

impl UserInfo {
    /// The name to act as: the username, or for an app login without one,
    /// the application's owner.
    pub open spec fn effective_name(self) -> Option<Seq<char>> {
        match self.username {
            Some(u) => Some(u@),
            None => match self.app_info {
                Some(a) => Some(a.app_owner@),
                None => None,
            },
        }
    }

    /// Returns the name to act as, if the user info has one.
    pub fn effective_username(&self) -> (r: Option<&str>)
        ensures
            match r {
                Some(s) => self.effective_name() == Some(s@),
                None => self.effective_name() is None,
            },
    {
        match &self.username {
            Some(u) => Some(u.as_str()),
            None => match &self.app_info {
                Some(a) => Some(a.app_owner.as_str()),
                None => None,
            },
        }
    }

}

/// Parameters of an item search.
#[derive(Debug, Clone)]
pub struct SearchParameters {
    pub query: String,
    /// Extent coordinates, each as the decimal text sent.
    pub bbox: Option<Vec<String>>,
    pub categories: Option<String>,
    pub sort_field: Option<String>,
    pub sort_order: Option<SortOrder>,
    pub start: Option<u32>,
    pub num: Option<u32>,
}

impl SearchParameters {
    /// A search for `query` with nothing else set.
    pub fn new(query: String) -> (r: SearchParameters)
        ensures
            r == (SearchParameters { query: query, bbox: None, categories: None, sort_field: None, sort_order: None, start: None, num: None }),
    {
        SearchParameters { query: query, bbox: None, categories: None, sort_field: None, sort_order: None, start: None, num: None }
    }

    /// Restricts the search to an extent, given as the decimal texts of its coordinates.
    pub fn with_bbox(self, bbox: Vec<String>) -> (r: SearchParameters)
        ensures
            r == (SearchParameters { bbox: Some(bbox), ..self }),
    {
        SearchParameters { bbox: Some(bbox), ..self }
    }

    /// Sets `categories`.
    pub fn with_categories(self, categories: String) -> (r: SearchParameters)
        ensures
            r == (SearchParameters { categories: Some(categories), ..self }),
    {
        SearchParameters { categories: Some(categories), ..self }
    }

    /// Sorts by a field in the given direction.
    pub fn with_sort(self, field: String, order: SortOrder) -> (r: SearchParameters)
        ensures
            r == (SearchParameters { sort_field: Some(field), sort_order: Some(order), ..self }),
    {
        SearchParameters { sort_field: Some(field), sort_order: Some(order), ..self }
    }

    /// Sets the first result and the page size.
    pub fn with_pagination(self, start: u32, num: u32) -> (r: SearchParameters)
        ensures
            r == (SearchParameters { start: Some(start), num: Some(num), ..self }),
    {
        SearchParameters { start: Some(start), num: Some(num), ..self }
    }


}

/// Parameters of a new portal item.
#[derive(Debug, Clone)]
pub struct AddItemParams {
    pub title: String,
    pub item_type: String,
    pub description: Option<String>,
    pub tags: Option<Vec<String>>,
    pub snippet: Option<String>,
    pub categories: Option<Vec<String>>,
    pub type_keywords: Option<Vec<String>>,
    pub url: Option<String>,
    pub thumbnail: Option<std::path::PathBuf>,
    pub spatial_reference: Option<i32>,
    /// Extent, as the JSON text sent.
    pub extent: Option<String>,
    pub access: Option<String>,
    /// Item properties, as JSON text.
    pub properties: Option<String>,
    pub folder: Option<String>,
    pub text: Option<String>,
}

impl AddItemParams {
    /// An item with a title and type, nothing else set.
    pub fn new(title: String, item_type: String) -> (r: AddItemParams)
        ensures
            r == (AddItemParams { title: title, item_type: item_type, description: None, tags: None, snippet: None, categories: None, type_keywords: None, url: None, thumbnail: None, spatial_reference: None, extent: None, access: None, properties: None, folder: None, text: None }),
    {
        AddItemParams { title: title, item_type: item_type, description: None, tags: None, snippet: None, categories: None, type_keywords: None, url: None, thumbnail: None, spatial_reference: None, extent: None, access: None, properties: None, folder: None, text: None }
    }

    /// Sets `description`.
    pub fn with_description(self, description: String) -> (r: AddItemParams)
        ensures
            r == (AddItemParams { description: Some(description), ..self }),
    {
        AddItemParams { description: Some(description), ..self }
    }

    /// Sets `tags`.
    pub fn with_tags(self, tags: Vec<String>) -> (r: AddItemParams)
        ensures
            r == (AddItemParams { tags: Some(tags), ..self }),
    {
        AddItemParams { tags: Some(tags), ..self }
    }

    /// Sets `snippet`.
    pub fn with_snippet(self, snippet: String) -> (r: AddItemParams)
        ensures
            r == (AddItemParams { snippet: Some(snippet), ..self }),
    {
        AddItemParams { snippet: Some(snippet), ..self }
    }

    /// Sets `categories`.
    pub fn with_categories(self, categories: Vec<String>) -> (r: AddItemParams)
        ensures
            r == (AddItemParams { categories: Some(categories), ..self }),
    {
        AddItemParams { categories: Some(categories), ..self }
    }

    /// Sets `type_keywords`.
    pub fn with_type_keywords(self, keywords: Vec<String>) -> (r: AddItemParams)
        ensures
            r == (AddItemParams { type_keywords: Some(keywords), ..self }),
    {
        AddItemParams { type_keywords: Some(keywords), ..self }
    }

    /// Sets `url`.
    pub fn with_url(self, url: String) -> (r: AddItemParams)
        ensures
            r == (AddItemParams { url: Some(url), ..self }),
    {
        AddItemParams { url: Some(url), ..self }
    }

    /// Sets `thumbnail`.
    pub fn with_thumbnail(self, path: std::path::PathBuf) -> (r: AddItemParams)
        ensures
            r == (AddItemParams { thumbnail: Some(path), ..self }),
    {
        AddItemParams { thumbnail: Some(path), ..self }
    }

    /// Sets `spatial_reference`.
    pub fn with_spatial_reference(self, wkid: i32) -> (r: AddItemParams)
        ensures
            r == (AddItemParams { spatial_reference: Some(wkid), ..self }),
    {
        AddItemParams { spatial_reference: Some(wkid), ..self }
    }

    /// Sets the extent, given as its JSON text.
    pub fn with_extent(self, extent: String) -> (r: AddItemParams)
        ensures
            r == (AddItemParams { extent: Some(extent), ..self }),
    {
        AddItemParams { extent: Some(extent), ..self }
    }

    /// Sets `access`.
    pub fn with_access(self, access: String) -> (r: AddItemParams)
        ensures
            r == (AddItemParams { access: Some(access), ..self }),
    {
        AddItemParams { access: Some(access), ..self }
    }

    /// Sets the properties, given as JSON text.
    pub fn with_properties(self, properties: String) -> (r: AddItemParams)
        ensures
            r == (AddItemParams { properties: Some(properties), ..self }),
    {
        AddItemParams { properties: Some(properties), ..self }
    }

    /// Sets `folder`.
    pub fn with_folder(self, folder_id: String) -> (r: AddItemParams)
        ensures
            r == (AddItemParams { folder: Some(folder_id), ..self }),
    {
        AddItemParams { folder: Some(folder_id), ..self }
    }

    /// Sets `text`.
    pub fn with_text(self, text: String) -> (r: AddItemParams)
        ensures
            r == (AddItemParams { text: Some(text), ..self }),
    {
        AddItemParams { text: Some(text), ..self }
    }


}

/// Changes to a portal item; unset fields stay as they are.
#[derive(Debug, Clone)]
pub struct UpdateItemParams {
    pub title: Option<String>,
    pub description: Option<String>,
    pub tags: Option<Vec<String>>,
    pub snippet: Option<String>,
    pub categories: Option<Vec<String>>,
    pub type_keywords: Option<Vec<String>>,
    pub url: Option<String>,
    pub spatial_reference: Option<i32>,
    /// Extent, as the JSON text sent.
    pub extent: Option<String>,
    pub access: Option<String>,
}

impl UpdateItemParams {
    /// No changes.
    pub fn new() -> (r: UpdateItemParams)
        ensures
            r == (UpdateItemParams { title: None, description: None, tags: None, snippet: None, categories: None, type_keywords: None, url: None, spatial_reference: None, extent: None, access: None }),
    {
        UpdateItemParams { title: None, description: None, tags: None, snippet: None, categories: None, type_keywords: None, url: None, spatial_reference: None, extent: None, access: None }
    }

    /// Sets `title`.
    pub fn with_title(self, title: String) -> (r: UpdateItemParams)
        ensures
            r == (UpdateItemParams { title: Some(title), ..self }),
    {
        UpdateItemParams { title: Some(title), ..self }
    }

    /// Sets `description`.
    pub fn with_description(self, description: String) -> (r: UpdateItemParams)
        ensures
            r == (UpdateItemParams { description: Some(description), ..self }),
    {
        UpdateItemParams { description: Some(description), ..self }
    }

    /// Sets `tags`.
    pub fn with_tags(self, tags: Vec<String>) -> (r: UpdateItemParams)
        ensures
            r == (UpdateItemParams { tags: Some(tags), ..self }),
    {
        UpdateItemParams { tags: Some(tags), ..self }
    }

    /// Sets `snippet`.
    pub fn with_snippet(self, snippet: String) -> (r: UpdateItemParams)
        ensures
            r == (UpdateItemParams { snippet: Some(snippet), ..self }),
    {
        UpdateItemParams { snippet: Some(snippet), ..self }
    }

    /// Sets `categories`.
    pub fn with_categories(self, categories: Vec<String>) -> (r: UpdateItemParams)
        ensures
            r == (UpdateItemParams { categories: Some(categories), ..self }),
    {
        UpdateItemParams { categories: Some(categories), ..self }
    }

    /// Sets `type_keywords`.
    pub fn with_type_keywords(self, keywords: Vec<String>) -> (r: UpdateItemParams)
        ensures
            r == (UpdateItemParams { type_keywords: Some(keywords), ..self }),
    {
        UpdateItemParams { type_keywords: Some(keywords), ..self }
    }

    /// Sets `url`.
    pub fn with_url(self, url: String) -> (r: UpdateItemParams)
        ensures
            r == (UpdateItemParams { url: Some(url), ..self }),
    {
        UpdateItemParams { url: Some(url), ..self }
    }

    /// Sets `spatial_reference`.
    pub fn with_spatial_reference(self, wkid: i32) -> (r: UpdateItemParams)
        ensures
            r == (UpdateItemParams { spatial_reference: Some(wkid), ..self }),
    {
        UpdateItemParams { spatial_reference: Some(wkid), ..self }
    }

    /// Sets the extent, given as its JSON text.
    pub fn with_extent(self, extent: String) -> (r: UpdateItemParams)
        ensures
            r == (UpdateItemParams { extent: Some(extent), ..self }),
    {
        UpdateItemParams { extent: Some(extent), ..self }
    }

    /// Sets `access`.
    pub fn with_access(self, access: String) -> (r: UpdateItemParams)
        ensures
            r == (UpdateItemParams { access: Some(access), ..self }),
    {
        UpdateItemParams { access: Some(access), ..self }
    }


}

/// Answer to adding an item.
#[derive(Debug, Clone)]
pub struct AddItemResult {
    pub success: bool,
    pub id: String,
    pub folder: Option<String>,
}

/// Answer to updating an item.
#[derive(Debug, Clone)]
pub struct UpdateItemResult {
    pub success: bool,
    pub id: Option<String>,
}

/// Answer to deleting an item.
#[derive(Debug, Clone)]
pub struct DeleteItemResult {
    pub success: bool,
    pub item_id: Option<String>,
}

/// Data to upload as an item's content.
#[derive(Debug, Clone)]
pub enum ItemDataUpload {
    Text(String),
    File { data: Vec<u8>, filename: String, mime_type: String },
    Url(String),
}


/// With whom to share an item.
#[derive(Debug, Clone)]
pub struct SharingParameters {
    pub everyone: Option<bool>,
    pub org: Option<bool>,
    pub groups: Option<Vec<String>>,
}

impl SharingParameters {
    /// Shares with nobody.
    pub fn new() -> (r: SharingParameters)
        ensures
            r == (SharingParameters { everyone: None, org: None, groups: None }),
    {
        SharingParameters { everyone: None, org: None, groups: None }
    }

    /// Sets `everyone`.
    pub fn with_everyone(self, everyone: bool) -> (r: SharingParameters)
        ensures
            r == (SharingParameters { everyone: Some(everyone), ..self }),
    {
        SharingParameters { everyone: Some(everyone), ..self }
    }

    /// Sets `org`.
    pub fn with_org(self, org: bool) -> (r: SharingParameters)
        ensures
            r == (SharingParameters { org: Some(org), ..self }),
    {
        SharingParameters { org: Some(org), ..self }
    }

    /// Sets `groups`.
    pub fn with_groups(self, groups: Vec<String>) -> (r: SharingParameters)
        ensures
            r == (SharingParameters { groups: Some(groups), ..self }),
    {
        SharingParameters { groups: Some(groups), ..self }
    }


}

/// Answer to sharing an item.
#[derive(Debug, Clone)]
pub struct ShareItemResult {
    pub item_id: Option<String>,
    pub not_shared_with: Vec<String>,
}

impl ShareItemResult {
    /// Sharing succeeded: the item is named and no group was left out.
    pub fn success(&self) -> (r: bool)
        ensures
            r == (self.item_id is Some && self.not_shared_with@.len() == 0),
    {
        self.item_id.is_some() && self.not_shared_with.len() == 0
    }

}

/// Answer to unsharing an item.
#[derive(Debug, Clone)]
pub struct UnshareItemResult {
    pub item_id: Option<String>,
    pub not_unshared_from: Vec<String>,
}

impl UnshareItemResult {
    /// Unsharing succeeded: the item is named and no group was left out.
    pub fn success(&self) -> (r: bool)
        ensures
            r == (self.item_id is Some && self.not_unshared_from@.len() == 0),
    {
        self.item_id.is_some() && self.not_unshared_from.len() == 0
    }

}

/// A portal group.
#[derive(Debug, Clone)]
pub struct GroupInfo {
    pub id: String,
    pub title: String,
    pub description: Option<String>,
    pub snippet: Option<String>,
    pub owner: String,
    pub tags: Vec<String>,
    pub thumbnail: Option<String>,
    pub created: i64,
    pub modified: i64,
    pub access: String,
    pub is_invitation_only: Option<bool>,
    pub is_view_only: Option<bool>,
    pub sort_field: Option<String>,
    pub sort_order: Option<String>,
    pub protected: Option<bool>,
    pub auto_join: Option<bool>,
    pub user_membership: Option<UserMembershipInfo>,
    pub provider_group_name: Option<String>,
}

/// Parameters of a group search.
#[derive(Debug, Clone)]
pub struct GroupSearchParameters {
    pub query: String,
    pub sort_field: Option<String>,
    pub sort_order: Option<SortOrder>,
    pub start: Option<u32>,
    pub num: Option<u32>,
}

impl GroupSearchParameters {
    /// A search for `query` with nothing else set.
    pub fn new(query: String) -> (r: GroupSearchParameters)
        ensures
            r == (GroupSearchParameters { query: query, sort_field: None, sort_order: None, start: None, num: None }),
    {
        GroupSearchParameters { query: query, sort_field: None, sort_order: None, start: None, num: None }
    }

    /// Sorts by a field in the given direction.
    pub fn with_sort(self, field: String, order: SortOrder) -> (r: GroupSearchParameters)
        ensures
            r == (GroupSearchParameters { sort_field: Some(field), sort_order: Some(order), ..self }),
    {
        GroupSearchParameters { sort_field: Some(field), sort_order: Some(order), ..self }
    }

    /// Sets the first result and the page size.
    pub fn with_pagination(self, start: u32, num: u32) -> (r: GroupSearchParameters)
        ensures
            r == (GroupSearchParameters { start: Some(start), num: Some(num), ..self }),
    {
        GroupSearchParameters { start: Some(start), num: Some(num), ..self }
    }


}

/// A page of group search results.
#[derive(Debug, Clone)]
pub struct GroupSearchResult {
    pub total: i64,
    pub start: i32,
    pub num: i32,
    pub next_start: Option<i32>,
    pub results: Vec<GroupInfo>,
}

/// Parameters of a new group.
#[derive(Debug, Clone)]
pub struct CreateGroupParams {
    pub title: String,
    pub description: Option<String>,
    pub snippet: Option<String>,
    pub tags: Option<Vec<String>>,
    pub access: Option<String>,
    pub is_invitation_only: Option<bool>,
    pub is_view_only: Option<bool>,
    pub auto_join: Option<bool>,
    pub sort_field: Option<String>,
    pub sort_order: Option<String>,
}

impl CreateGroupParams {
    /// A group with a title, nothing else set.
    pub fn new(title: String) -> (r: CreateGroupParams)
        ensures
            r == (CreateGroupParams { title: title, description: None, snippet: None, tags: None, access: None, is_invitation_only: None, is_view_only: None, auto_join: None, sort_field: None, sort_order: None }),
    {
        CreateGroupParams { title: title, description: None, snippet: None, tags: None, access: None, is_invitation_only: None, is_view_only: None, auto_join: None, sort_field: None, sort_order: None }
    }

    /// Sets `description`.
    pub fn with_description(self, description: String) -> (r: CreateGroupParams)
        ensures
            r == (CreateGroupParams { description: Some(description), ..self }),
    {
        CreateGroupParams { description: Some(description), ..self }
    }

    /// Sets `snippet`.
    pub fn with_snippet(self, snippet: String) -> (r: CreateGroupParams)
        ensures
            r == (CreateGroupParams { snippet: Some(snippet), ..self }),
    {
        CreateGroupParams { snippet: Some(snippet), ..self }
    }

    /// Sets `tags`.
    pub fn with_tags(self, tags: Vec<String>) -> (r: CreateGroupParams)
        ensures
            r == (CreateGroupParams { tags: Some(tags), ..self }),
    {
        CreateGroupParams { tags: Some(tags), ..self }
    }

    /// Sets `access`.
    pub fn with_access(self, access: String) -> (r: CreateGroupParams)
        ensures
            r == (CreateGroupParams { access: Some(access), ..self }),
    {
        CreateGroupParams { access: Some(access), ..self }
    }

    /// Sets `is_invitation_only`.
    pub fn with_invitation_only(self, invitation_only: bool) -> (r: CreateGroupParams)
        ensures
            r == (CreateGroupParams { is_invitation_only: Some(invitation_only), ..self }),
    {
        CreateGroupParams { is_invitation_only: Some(invitation_only), ..self }
    }

    /// Sets `is_view_only`.
    pub fn with_view_only(self, view_only: bool) -> (r: CreateGroupParams)
        ensures
            r == (CreateGroupParams { is_view_only: Some(view_only), ..self }),
    {
        CreateGroupParams { is_view_only: Some(view_only), ..self }
    }

    /// Sets `auto_join`.
    pub fn with_auto_join(self, auto_join: bool) -> (r: CreateGroupParams)
        ensures
            r == (CreateGroupParams { auto_join: Some(auto_join), ..self }),
    {
        CreateGroupParams { auto_join: Some(auto_join), ..self }
    }

    /// Sets `sort_field`.
    pub fn with_sort_field(self, sort_field: String) -> (r: CreateGroupParams)
        ensures
            r == (CreateGroupParams { sort_field: Some(sort_field), ..self }),
    {
        CreateGroupParams { sort_field: Some(sort_field), ..self }
    }

    /// Sets `sort_order`.
    pub fn with_sort_order(self, sort_order: String) -> (r: CreateGroupParams)
        ensures
            r == (CreateGroupParams { sort_order: Some(sort_order), ..self }),
    {
        CreateGroupParams { sort_order: Some(sort_order), ..self }
    }


}

/// Changes to a group; unset fields stay as they are.
#[derive(Debug, Clone)]
pub struct UpdateGroupParams {
    pub title: Option<String>,
    pub description: Option<String>,
    pub snippet: Option<String>,
    pub tags: Option<Vec<String>>,
    pub access: Option<String>,
    pub is_invitation_only: Option<bool>,
    pub is_view_only: Option<bool>,
    pub sort_field: Option<String>,
    pub sort_order: Option<String>,
}

impl UpdateGroupParams {
    /// No changes.
    pub fn new() -> (r: UpdateGroupParams)
        ensures
            r == (UpdateGroupParams { title: None, description: None, snippet: None, tags: None, access: None, is_invitation_only: None, is_view_only: None, sort_field: None, sort_order: None }),
    {
        UpdateGroupParams { title: None, description: None, snippet: None, tags: None, access: None, is_invitation_only: None, is_view_only: None, sort_field: None, sort_order: None }
    }

    /// Sets `title`.
    pub fn with_title(self, title: String) -> (r: UpdateGroupParams)
        ensures
            r == (UpdateGroupParams { title: Some(title), ..self }),
    {
        UpdateGroupParams { title: Some(title), ..self }
    }

    /// Sets `description`.
    pub fn with_description(self, description: String) -> (r: UpdateGroupParams)
        ensures
            r == (UpdateGroupParams { description: Some(description), ..self }),
    {
        UpdateGroupParams { description: Some(description), ..self }
    }

    /// Sets `snippet`.
    pub fn with_snippet(self, snippet: String) -> (r: UpdateGroupParams)
        ensures
            r == (UpdateGroupParams { snippet: Some(snippet), ..self }),
    {
        UpdateGroupParams { snippet: Some(snippet), ..self }
    }

    /// Sets `tags`.
    pub fn with_tags(self, tags: Vec<String>) -> (r: UpdateGroupParams)
        ensures
            r == (UpdateGroupParams { tags: Some(tags), ..self }),
    {
        UpdateGroupParams { tags: Some(tags), ..self }
    }

    /// Sets `access`.
    pub fn with_access(self, access: String) -> (r: UpdateGroupParams)
        ensures
            r == (UpdateGroupParams { access: Some(access), ..self }),
    {
        UpdateGroupParams { access: Some(access), ..self }
    }

    /// Sets `is_invitation_only`.
    pub fn with_invitation_only(self, invitation_only: bool) -> (r: UpdateGroupParams)
        ensures
            r == (UpdateGroupParams { is_invitation_only: Some(invitation_only), ..self }),
    {
        UpdateGroupParams { is_invitation_only: Some(invitation_only), ..self }
    }

    /// Sets `is_view_only`.
    pub fn with_view_only(self, view_only: bool) -> (r: UpdateGroupParams)
        ensures
            r == (UpdateGroupParams { is_view_only: Some(view_only), ..self }),
    {
        UpdateGroupParams { is_view_only: Some(view_only), ..self }
    }

    /// Sets `sort_field`.
    pub fn with_sort_field(self, sort_field: String) -> (r: UpdateGroupParams)
        ensures
            r == (UpdateGroupParams { sort_field: Some(sort_field), ..self }),
    {
        UpdateGroupParams { sort_field: Some(sort_field), ..self }
    }

    /// Sets `sort_order`.
    pub fn with_sort_order(self, sort_order: String) -> (r: UpdateGroupParams)
        ensures
            r == (UpdateGroupParams { sort_order: Some(sort_order), ..self }),
    {
        UpdateGroupParams { sort_order: Some(sort_order), ..self }
    }


}

/// Short description of a group.
#[derive(Debug, Clone)]
pub struct GroupSummary {
    pub id: String,
    pub title: String,
    pub owner: String,
    pub access: String,
}

/// Answer to a group operation; the group may come whole or by ID.
#[derive(Debug, Clone)]
pub struct GroupResult {
    pub success: bool,
    pub group: Option<GroupSummary>,
    pub group_id: Option<String>,
}

impl GroupResult {
    /// The group's ID: that of the returned group, else the returned ID.
    pub open spec fn id_of(self) -> Option<Seq<char>> {
        match self.group {
            Some(g) => Some(g.id@),
            None => match self.group_id {
                Some(i) => Some(i@),
                None => None,
            },
        }
    }

    /// Returns the group's ID, if the answer carries one.
    pub fn id(&self) -> (r: Option<&str>)
        ensures
            match r {
                Some(s) => self.id_of() == Some(s@),
                None => self.id_of() is None,
            },
    {
        match &self.group {
            Some(g) => Some(g.id.as_str()),
            None => match &self.group_id {
                Some(i) => Some(i.as_str()),
                None => None,
            },
        }
    }

}

/// Parameters of publishing an item as a service.
#[derive(Debug, Clone)]
pub struct PublishParameters {
    pub name: String,
    pub description: Option<String>,
    pub copyright_text: Option<String>,
    pub has_static_data: Option<bool>,
    pub max_record_count: Option<i32>,
    pub capabilities: Option<String>,
    pub spatial_reference: Option<i32>,
    /// Initial extent, as the JSON text sent.
    pub initial_extent: Option<String>,
    /// Full extent, as the JSON text sent.
    pub full_extent: Option<String>,
    pub allow_geometry_updates: Option<bool>,
    pub enable_versioning: Option<bool>,
    pub units: Option<String>,
    pub xss_prevention_enabled: Option<bool>,
    pub overwrite: Option<bool>,
    pub build_initial_cache: Option<bool>,
}

impl PublishParameters {
    /// A service name, nothing else set.
    pub fn new(name: String) -> (r: PublishParameters)
        ensures
            r == (PublishParameters { name: name, description: None, copyright_text: None, has_static_data: None, max_record_count: None, capabilities: None, spatial_reference: None, initial_extent: None, full_extent: None, allow_geometry_updates: None, enable_versioning: None, units: None, xss_prevention_enabled: None, overwrite: None, build_initial_cache: None }),
    {
        PublishParameters { name: name, description: None, copyright_text: None, has_static_data: None, max_record_count: None, capabilities: None, spatial_reference: None, initial_extent: None, full_extent: None, allow_geometry_updates: None, enable_versioning: None, units: None, xss_prevention_enabled: None, overwrite: None, build_initial_cache: None }
    }

    /// Sets `description`.
    pub fn with_description(self, description: String) -> (r: PublishParameters)
        ensures
            r == (PublishParameters { description: Some(description), ..self }),
    {
        PublishParameters { description: Some(description), ..self }
    }

    /// Sets `copyright_text`.
    pub fn with_copyright_text(self, copyright_text: String) -> (r: PublishParameters)
        ensures
            r == (PublishParameters { copyright_text: Some(copyright_text), ..self }),
    {
        PublishParameters { copyright_text: Some(copyright_text), ..self }
    }

    /// Sets `has_static_data`.
    pub fn with_has_static_data(self, has_static_data: bool) -> (r: PublishParameters)
        ensures
            r == (PublishParameters { has_static_data: Some(has_static_data), ..self }),
    {
        PublishParameters { has_static_data: Some(has_static_data), ..self }
    }

    /// Sets `max_record_count`.
    pub fn with_max_record_count(self, max_record_count: i32) -> (r: PublishParameters)
        ensures
            r == (PublishParameters { max_record_count: Some(max_record_count), ..self }),
    {
        PublishParameters { max_record_count: Some(max_record_count), ..self }
    }

    /// Sets `capabilities`.
    pub fn with_capabilities(self, capabilities: String) -> (r: PublishParameters)
        ensures
            r == (PublishParameters { capabilities: Some(capabilities), ..self }),
    {
        PublishParameters { capabilities: Some(capabilities), ..self }
    }

    /// Sets `spatial_reference`.
    pub fn with_spatial_reference(self, wkid: i32) -> (r: PublishParameters)
        ensures
            r == (PublishParameters { spatial_reference: Some(wkid), ..self }),
    {
        PublishParameters { spatial_reference: Some(wkid), ..self }
    }

    /// Sets the initial extent, given as its JSON text.
    pub fn with_initial_extent(self, extent: String) -> (r: PublishParameters)
        ensures
            r == (PublishParameters { initial_extent: Some(extent), ..self }),
    {
        PublishParameters { initial_extent: Some(extent), ..self }
    }

    /// Sets the full extent, given as its JSON text.
    pub fn with_full_extent(self, extent: String) -> (r: PublishParameters)
        ensures
            r == (PublishParameters { full_extent: Some(extent), ..self }),
    {
        PublishParameters { full_extent: Some(extent), ..self }
    }

    /// Sets `allow_geometry_updates`.
    pub fn with_allow_geometry_updates(self, allow: bool) -> (r: PublishParameters)
        ensures
            r == (PublishParameters { allow_geometry_updates: Some(allow), ..self }),
    {
        PublishParameters { allow_geometry_updates: Some(allow), ..self }
    }

    /// Sets `enable_versioning`.
    pub fn with_enable_versioning(self, enable: bool) -> (r: PublishParameters)
        ensures
            r == (PublishParameters { enable_versioning: Some(enable), ..self }),
    {
        PublishParameters { enable_versioning: Some(enable), ..self }
    }

    /// Sets `units`.
    pub fn with_units(self, units: String) -> (r: PublishParameters)
        ensures
            r == (PublishParameters { units: Some(units), ..self }),
    {
        PublishParameters { units: Some(units), ..self }
    }

    /// Sets `xss_prevention_enabled`.
    pub fn with_xss_prevention_enabled(self, enabled: bool) -> (r: PublishParameters)
        ensures
            r == (PublishParameters { xss_prevention_enabled: Some(enabled), ..self }),
    {
        PublishParameters { xss_prevention_enabled: Some(enabled), ..self }
    }

    /// Sets `overwrite`.
    pub fn with_overwrite(self, overwrite: bool) -> (r: PublishParameters)
        ensures
            r == (PublishParameters { overwrite: Some(overwrite), ..self }),
    {
        PublishParameters { overwrite: Some(overwrite), ..self }
    }

    /// Sets `build_initial_cache`.
    pub fn with_build_initial_cache(self, build: bool) -> (r: PublishParameters)
        ensures
            r == (PublishParameters { build_initial_cache: Some(build), ..self }),
    {
        PublishParameters { build_initial_cache: Some(build), ..self }
    }


}

/// Answer to a publish call.
#[derive(Debug, Clone)]
pub struct PublishResult {
    pub success: bool,
    pub service_item_id: Option<String>,
    pub service_url: Option<String>,
    pub job_id: Option<String>,
    /// Error details, as JSON text.
    pub error: Option<String>,
}

/// Progress of a publishing job.
#[derive(Debug, Clone)]
pub struct PublishStatus {
    pub job_id: Option<String>,
    pub job_status: Option<String>,
    pub progress: Option<i32>,
    pub messages: Vec<String>,
    pub result_param_name: Option<String>,
    /// Result value, as JSON text.
    pub result_value: Option<String>,
}

/// Changes to a service's definition.
#[derive(Debug, Clone)]
pub struct UpdateServiceDefinitionParams {
    /// The new definition, as the text sent.
    pub service_definition: Option<String>,
    pub description: Option<String>,
    pub capabilities: Option<String>,
    pub max_record_count: Option<i32>,
}

impl UpdateServiceDefinitionParams {
    /// No changes.
    pub fn new() -> (r: UpdateServiceDefinitionParams)
        ensures
            r == (UpdateServiceDefinitionParams { service_definition: None, description: None, capabilities: None, max_record_count: None }),
    {
        UpdateServiceDefinitionParams { service_definition: None, description: None, capabilities: None, max_record_count: None }
    }

    /// Sets the definition, given as the text to send.
    pub fn with_service_definition(self, definition: String) -> (r: UpdateServiceDefinitionParams)
        ensures
            r == (UpdateServiceDefinitionParams { service_definition: Some(definition), ..self }),
    {
        UpdateServiceDefinitionParams { service_definition: Some(definition), ..self }
    }

    /// Sets `description`.
    pub fn with_description(self, description: String) -> (r: UpdateServiceDefinitionParams)
        ensures
            r == (UpdateServiceDefinitionParams { description: Some(description), ..self }),
    {
        UpdateServiceDefinitionParams { description: Some(description), ..self }
    }

    /// Sets `capabilities`.
    pub fn with_capabilities(self, capabilities: String) -> (r: UpdateServiceDefinitionParams)
        ensures
            r == (UpdateServiceDefinitionParams { capabilities: Some(capabilities), ..self }),
    {
        UpdateServiceDefinitionParams { capabilities: Some(capabilities), ..self }
    }

    /// Sets `max_record_count`.
    pub fn with_max_record_count(self, count: i32) -> (r: UpdateServiceDefinitionParams)
        ensures
            r == (UpdateServiceDefinitionParams { max_record_count: Some(count), ..self }),
    {
        UpdateServiceDefinitionParams { max_record_count: Some(count), ..self }
    }


}

/// Answer to updating a service definition.
#[derive(Debug, Clone)]
pub struct UpdateServiceDefinitionResult {
    pub success: bool,
    pub service_item_id: Option<String>,
}

/// Layers and tables to add to a service.
#[derive(Debug, Clone)]
pub struct AddToDefinitionParams {
    /// Layer definitions, each as JSON text.
    pub layers: Option<Vec<String>>,
    /// Table definitions, each as JSON text.
    pub tables: Option<Vec<String>>,
}

impl AddToDefinitionParams {
    /// Adds nothing.
    pub fn new() -> (r: AddToDefinitionParams)
        ensures
            r == (AddToDefinitionParams { layers: None, tables: None }),
    {
        AddToDefinitionParams { layers: None, tables: None }
    }

    /// Sets `layers`.
    pub fn with_layers(self, layers: Vec<String>) -> (r: AddToDefinitionParams)
        ensures
            r == (AddToDefinitionParams { layers: Some(layers), ..self }),
    {
        AddToDefinitionParams { layers: Some(layers), ..self }
    }

    /// Sets `tables`.
    pub fn with_tables(self, tables: Vec<String>) -> (r: AddToDefinitionParams)
        ensures
            r == (AddToDefinitionParams { tables: Some(tables), ..self }),
    {
        AddToDefinitionParams { tables: Some(tables), ..self }
    }


}

/// A layer or table added to a service.
#[derive(Debug, Clone)]
pub struct AddedLayerInfo {
    pub name: String,
    pub id: u32,
}

/// Answer to adding to a service definition.
#[derive(Debug, Clone)]
pub struct AddToDefinitionResult {
    pub success: bool,
    pub layers: Vec<AddedLayerInfo>,
    pub tables: Vec<AddedLayerInfo>,
}

/// Parameters of a new hosted feature service.
#[derive(Debug, Clone)]
pub struct CreateServiceParams {
    pub name: String,
    pub description: Option<String>,
    pub has_static_data: Option<bool>,
    pub max_record_count: Option<i32>,
    pub supported_query_formats: Option<String>,
    pub capabilities: Option<String>,
    /// Layer definitions, as the JSON text of the `layers` member.
    pub service_definition: Option<String>,
}

impl CreateServiceParams {
    /// A service name, nothing else set.
    pub fn new(name: String) -> (r: CreateServiceParams)
        ensures
            r == (CreateServiceParams { name: name, description: None, has_static_data: None, max_record_count: None, supported_query_formats: None, capabilities: None, service_definition: None }),
    {
        CreateServiceParams { name: name, description: None, has_static_data: None, max_record_count: None, supported_query_formats: None, capabilities: None, service_definition: None }
    }

    /// Sets `description`.
    pub fn with_description(self, description: String) -> (r: CreateServiceParams)
        ensures
            r == (CreateServiceParams { description: Some(description), ..self }),
    {
        CreateServiceParams { description: Some(description), ..self }
    }

    /// Sets `has_static_data`.
    pub fn with_has_static_data(self, has_static: bool) -> (r: CreateServiceParams)
        ensures
            r == (CreateServiceParams { has_static_data: Some(has_static), ..self }),
    {
        CreateServiceParams { has_static_data: Some(has_static), ..self }
    }

    /// Sets `max_record_count`.
    pub fn with_max_record_count(self, count: i32) -> (r: CreateServiceParams)
        ensures
            r == (CreateServiceParams { max_record_count: Some(count), ..self }),
    {
        CreateServiceParams { max_record_count: Some(count), ..self }
    }

    /// Sets `supported_query_formats`.
    pub fn with_supported_query_formats(self, formats: String) -> (r: CreateServiceParams)
        ensures
            r == (CreateServiceParams { supported_query_formats: Some(formats), ..self }),
    {
        CreateServiceParams { supported_query_formats: Some(formats), ..self }
    }

    /// Sets `capabilities`.
    pub fn with_capabilities(self, capabilities: String) -> (r: CreateServiceParams)
        ensures
            r == (CreateServiceParams { capabilities: Some(capabilities), ..self }),
    {
        CreateServiceParams { capabilities: Some(capabilities), ..self }
    }

    /// Sets the layer definitions, given as the JSON text of `layers`.
    pub fn with_service_definition(self, definition: String) -> (r: CreateServiceParams)
        ensures
            r == (CreateServiceParams { service_definition: Some(definition), ..self }),
    {
        CreateServiceParams { service_definition: Some(definition), ..self }
    }


}

/// Answer to creating a service.
#[derive(Debug, Clone)]
pub struct CreateServiceResult {
    pub success: bool,
    pub service_item_id: Option<String>,
    pub service_url: Option<String>,
    pub name: Option<String>,
    pub is_view: Option<bool>,
}

/// Answer to deleting a service.
#[derive(Debug, Clone)]
pub struct DeleteServiceResult {
    pub success: bool,
    pub service_item_id: Option<String>,
}

impl DeleteServiceResult {
    /// A result with the given fields.
    pub fn new(success: bool, service_item_id: Option<String>) -> (r: DeleteServiceResult)
        ensures
            r == (DeleteServiceResult { success: success, service_item_id: service_item_id }),
    {
        DeleteServiceResult { success: success, service_item_id: service_item_id }
    }


}

/// Which service to overwrite with which item.
#[derive(Debug, Clone)]
pub struct OverwriteParameters {
    pub source_item_id: String,
    pub target_service_id: String,
    pub preserve_item_id: Option<bool>,
}

impl OverwriteParameters {
    /// Overwrites a service from an item.
    pub fn new(source_item_id: String, target_service_id: String) -> (r: OverwriteParameters)
        ensures
            r == (OverwriteParameters { source_item_id: source_item_id, target_service_id: target_service_id, preserve_item_id: None }),
    {
        OverwriteParameters { source_item_id: source_item_id, target_service_id: target_service_id, preserve_item_id: None }
    }

    /// Sets `preserve_item_id`.
    pub fn with_preserve_item_id(self, preserve: bool) -> (r: OverwriteParameters)
        ensures
            r == (OverwriteParameters { preserve_item_id: Some(preserve), ..self }),
    {
        OverwriteParameters { preserve_item_id: Some(preserve), ..self }
    }


}

/// Answer to overwriting a service.
#[derive(Debug, Clone)]
pub struct OverwriteResult {
    pub success: bool,
    pub service_item_id: Option<String>,
}

impl Default for UpdateItemParams {
    fn default() -> (r: UpdateItemParams)
        ensures
            r == (UpdateItemParams { title: None, description: None, tags: None, snippet: None, categories: None, type_keywords: None, url: None, spatial_reference: None, extent: None, access: None }),
    {
        UpdateItemParams::new()
    }
}

impl Default for SharingParameters {
    fn default() -> (r: SharingParameters)
        ensures
            r == (SharingParameters { everyone: None, org: None, groups: None }),
    {
        SharingParameters::new()
    }
}

impl Default for UpdateGroupParams {
    fn default() -> (r: UpdateGroupParams)
        ensures
            r == (UpdateGroupParams { title: None, description: None, snippet: None, tags: None, access: None, is_invitation_only: None, is_view_only: None, sort_field: None, sort_order: None }),
    {
        UpdateGroupParams::new()
    }
}

impl Default for UpdateServiceDefinitionParams {
    fn default() -> (r: UpdateServiceDefinitionParams)
        ensures
            r == (UpdateServiceDefinitionParams { service_definition: None, description: None, capabilities: None, max_record_count: None }),
    {
        UpdateServiceDefinitionParams::new()
    }
}

impl Default for AddToDefinitionParams {
    fn default() -> (r: AddToDefinitionParams)
        ensures
            r == (AddToDefinitionParams { layers: None, tables: None }),
    {
        AddToDefinitionParams::new()
    }
}

} // verus!
