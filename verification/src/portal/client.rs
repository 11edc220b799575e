//! Requests of a portal: users, search, items, groups and sharing.

use vstd::prelude::*;
use crate::http::{
    form_value, lemma_form_value_append, lemma_form_value_opt_pair, lemma_form_value_pair,
    ApiRequest, FilePart, HttpMethod, MultipartPart, RequestBody, f_json, form_post, get_request,
    json_query, json_token_query, multipart_post, opt_pair, pair, parts_view, push_opt, push_pair,
    push_part,
};
use crate::portal::types::{
    CreateGroupParams, GroupSearchParameters, SearchParameters, SharingParameters, SortOrder,
    UpdateGroupParams, UpdateItemParams, AddItemParams,
};
use crate::query::{
    no_pairs, no_parts, opt_bool, opt_i32, opt_join, opt_str, opt_u32, push_opt_list, push_opt_str,
    push_opt_u32, push_part_opt_bool, push_part_opt_i32, push_part_opt_list,
    push_part_opt_string,
};
use crate::text::{concat2, concat3};

verus! {

/// Client for a portal's REST API, identified by its base URL (ending in
/// `/sharing/rest`).
#[derive(Debug, Clone)]
pub struct PortalClient {
    base_url: String,
}

/// The `sortOrder` value of an optional direction.
pub open spec fn sort_param(o: Option<SortOrder>) -> Option<Seq<char>> {
    match o {
        Some(s) => Some(s.param_name()),
        None => None,
    }
}

fn sort_str(o: Option<SortOrder>) -> (r: Option<&'static str>)
    ensures
        opt_str(r) == sort_param(o),
{
    match o {
        Some(s) => Some(s.as_param()),
        None => None,
    }
}

/// The query of an item search.
pub open spec fn search_query(p: SearchParameters, token: Option<Seq<char>>) -> Seq<
    (Seq<char>, Seq<char>),
> {
    pair("q"@, p.query@) + opt_pair("bbox"@, opt_join(p.bbox)) + opt_pair(
        "categories"@,
        p.categories.deep_view(),
    ) + opt_pair("sortField"@, p.sort_field.deep_view()) + opt_pair(
        "sortOrder"@,
        sort_param(p.sort_order),
    ) + opt_pair("start"@, opt_u32(p.start)) + opt_pair("num"@, opt_u32(p.num)) + f_json()
        + opt_pair("token"@, token)
}

/// The query of a group search.
pub open spec fn group_search_query(p: GroupSearchParameters, token: Option<Seq<char>>) -> Seq<
    (Seq<char>, Seq<char>),
> {
    pair("q"@, p.query@) + opt_pair("sortField"@, p.sort_field.deep_view()) + opt_pair(
        "sortOrder"@,
        sort_param(p.sort_order),
    ) + opt_pair("start"@, opt_u32(p.start)) + opt_pair("num"@, opt_u32(p.num)) + f_json()
        + opt_pair("token"@, token)
}

/// The multipart fields of adding an item.
pub open spec fn add_item_parts(p: AddItemParams, token: Option<Seq<char>>) -> Seq<
    (Seq<char>, Seq<char>),
> {
    f_json() + pair("title"@, p.title@) + pair("type"@, p.item_type@) + opt_pair(
        "description"@,
        p.description.deep_view(),
    ) + opt_pair("tags"@, opt_join(p.tags)) + opt_pair("snippet"@, p.snippet.deep_view())
        + opt_pair("categories"@, opt_join(p.categories)) + opt_pair(
        "typeKeywords"@,
        opt_join(p.type_keywords),
    ) + opt_pair("url"@, p.url.deep_view()) + opt_pair(
        "spatialReference"@,
        opt_i32(p.spatial_reference),
    ) + opt_pair("extent"@, p.extent.deep_view()) + opt_pair("access"@, p.access.deep_view())
        + opt_pair("properties"@, p.properties.deep_view()) + opt_pair("token"@, token)
}

/// The multipart fields of updating an item.
pub open spec fn update_item_parts(p: UpdateItemParams, token: Option<Seq<char>>) -> Seq<
    (Seq<char>, Seq<char>),
> {
    f_json() + opt_pair("title"@, p.title.deep_view()) + opt_pair(
        "description"@,
        p.description.deep_view(),
    ) + opt_pair("tags"@, opt_join(p.tags)) + opt_pair("snippet"@, p.snippet.deep_view())
        + opt_pair("categories"@, opt_join(p.categories)) + opt_pair(
        "typeKeywords"@,
        opt_join(p.type_keywords),
    ) + opt_pair("url"@, p.url.deep_view()) + opt_pair(
        "spatialReference"@,
        opt_i32(p.spatial_reference),
    ) + opt_pair("extent"@, p.extent.deep_view()) + opt_pair("access"@, p.access.deep_view())
        + opt_pair("token"@, token)
}

/// The multipart fields of creating a group.
pub open spec fn create_group_parts(p: CreateGroupParams, token: Option<Seq<char>>) -> Seq<
    (Seq<char>, Seq<char>),
> {
    f_json() + pair("title"@, p.title@) + opt_pair("token"@, token) + opt_pair(
        "description"@,
        p.description.deep_view(),
    ) + opt_pair("snippet"@, p.snippet.deep_view()) + opt_pair("tags"@, opt_join(p.tags))
        + opt_pair("access"@, p.access.deep_view()) + opt_pair(
        "isInvitationOnly"@,
        opt_bool(p.is_invitation_only),
    ) + opt_pair("isViewOnly"@, opt_bool(p.is_view_only)) + opt_pair(
        "autoJoin"@,
        opt_bool(p.auto_join),
    ) + opt_pair("sortField"@, p.sort_field.deep_view()) + opt_pair(
        "sortOrder"@,
        p.sort_order.deep_view(),
    )
}

/// The multipart fields of updating a group.
pub open spec fn update_group_parts(p: UpdateGroupParams, token: Option<Seq<char>>) -> Seq<
    (Seq<char>, Seq<char>),
> {
    f_json() + opt_pair("token"@, token) + opt_pair("title"@, p.title.deep_view()) + opt_pair(
        "description"@,
        p.description.deep_view(),
    ) + opt_pair("snippet"@, p.snippet.deep_view()) + opt_pair("tags"@, opt_join(p.tags))
        + opt_pair("access"@, p.access.deep_view()) + opt_pair(
        "isInvitationOnly"@,
        opt_bool(p.is_invitation_only),
    ) + opt_pair("isViewOnly"@, opt_bool(p.is_view_only)) + opt_pair(
        "sortField"@,
        p.sort_field.deep_view(),
    ) + opt_pair("sortOrder"@, p.sort_order.deep_view())
}

/// The multipart fields of sharing an item.
pub open spec fn share_parts(p: SharingParameters, token: Seq<char>) -> Seq<(Seq<char>, Seq<char>)> {
    f_json() + pair("token"@, token) + opt_pair("everyone"@, opt_bool(p.everyone)) + opt_pair(
        "org"@,
        opt_bool(p.org),
    ) + opt_pair("groups"@, opt_join(p.groups))
}

/// The multipart fields of unsharing an item.
pub open spec fn unshare_parts(p: SharingParameters, token: Seq<char>) -> Seq<
    (Seq<char>, Seq<char>),
> {
    f_json() + pair("token"@, token) + opt_pair("groups"@, opt_join(p.groups))
}

/// The form `f=json` with the item's group, then the token.
pub open spec fn group_item_form(group_id: Seq<char>, token: Option<Seq<char>>) -> Seq<
    (Seq<char>, Seq<char>),
> {
    f_json() + pair("groups"@, group_id) + opt_pair("token"@, token)
}

fn json_token_form(token: &Option<String>) -> (r: Vec<(String, String)>)
    ensures
        r.deep_view() == json_token_query(token.deep_view()),
{
    json_query(token)
}

fn json_part() -> (r: Vec<MultipartPart>)
    ensures
        parts_view(r@) == f_json(),
{
    let mut parts = no_parts();
    push_part(&mut parts, "f", "json");
    proof {
        assert(parts_view(parts@) =~= f_json());
    }
    parts
}

impl PortalClient {
    /// Base URL of the portal's REST API.
    pub closed spec fn base(&self) -> Seq<char> {
        self.base_url@
    }

    /// A client for the portal at `base_url`.
    pub fn new(base_url: String) -> (r: PortalClient)
        ensures
            r.base() == base_url@,
    {
        PortalClient { base_url }
    }

    /// Returns the base URL.
    pub fn base_url(&self) -> (r: &str)
        ensures
            r@ == self.base(),
    {
        self.base_url.as_str()
    }

    /// The request for the signed-in user: `GET <base>/community/self`.
    pub fn get_self_request(&self, token: &Option<String>) -> (r: ApiRequest)
        ensures
            r.is_get(self.base() + "/community/self"@, json_token_query(token.deep_view())),
    {
        get_request(concat2(self.base_url.as_str(), "/community/self"), json_token_form(token))
    }

    /// The item search: `GET <base>/search` with the search query.
    pub fn search_request(&self, params: &SearchParameters, token: &Option<String>) -> (r:
        ApiRequest)
        ensures
            r.is_get(self.base() + "/search"@, search_query(*params, token.deep_view())),
    {
        let mut q = no_pairs();
        push_pair(&mut q, "q", params.query.as_str());
        push_opt_list(&mut q, "bbox", &params.bbox);
        push_opt(&mut q, "categories", &params.categories);
        push_opt(&mut q, "sortField", &params.sort_field);
        push_opt_str(&mut q, "sortOrder", sort_str(params.sort_order));
        push_opt_u32(&mut q, "start", params.start);
        push_opt_u32(&mut q, "num", params.num);
        push_pair(&mut q, "f", "json");
        push_opt(&mut q, "token", token);
        get_request(concat2(self.base_url.as_str(), "/search"), q)
    }

    /// The item request: `GET <base>/content/items/<id>`.
    pub fn get_item_request(&self, item_id: &str, token: &Option<String>) -> (r: ApiRequest)
        ensures
            r.is_get(
                self.base() + "/content/items/"@ + item_id@,
                json_token_query(token.deep_view()),
            ),
    {
        get_request(concat3(self.base_url.as_str(), "/content/items/", item_id), json_token_form(token))
    }

    /// The item data request: `GET <base>/content/items/<id>/data`.
    pub fn get_item_data_request(&self, item_id: &str, token: &Option<String>) -> (r: ApiRequest)
        ensures
            r.is_get(
                self.base() + "/content/items/"@ + item_id@ + "/data"@,
                json_token_query(token.deep_view()),
            ),
    {
        let mut url = concat3(self.base_url.as_str(), "/content/items/", item_id);
        url.append("/data");
        get_request(url, json_token_form(token))
    }

    /// The URL `<base>/content/users/<owner>/items/<id>/<action>`.
    pub open spec fn user_item_url(&self, owner: Seq<char>, item_id: Seq<char>, action: Seq<char>) -> Seq<char> {
        self.base() + "/content/users/"@ + owner + "/items/"@ + item_id + "/"@ + action
    }

    fn user_item_url_of(&self, owner: &str, item_id: &str, action: &str) -> (r: String)
        ensures
            r@ == self.user_item_url(owner@, item_id@, action@),
    {
        let mut url = concat3(self.base_url.as_str(), "/content/users/", owner);
        url.append("/items/");
        url.append(item_id);
        url.append("/");
        url.append(action);
        url
    }

    /// Adding an item: multipart `POST <base>/content/users/<user>/addItem`.
    pub fn add_item_request(&self, username: &str, params: &AddItemParams, token: &Option<String>) -> (r:
        ApiRequest)
        ensures
            r.is_multipart_post(
                self.base() + "/content/users/"@ + username@ + "/addItem"@,
                add_item_parts(*params, token.deep_view()),
            ),
    {
        let mut parts = json_part();
        push_part(&mut parts, "title", params.title.as_str());
        push_part(&mut parts, "type", params.item_type.as_str());
        push_part_opt_string(&mut parts, "description", &params.description);
        push_part_opt_list(&mut parts, "tags", &params.tags);
        push_part_opt_string(&mut parts, "snippet", &params.snippet);
        push_part_opt_list(&mut parts, "categories", &params.categories);
        push_part_opt_list(&mut parts, "typeKeywords", &params.type_keywords);
        push_part_opt_string(&mut parts, "url", &params.url);
        push_part_opt_i32(&mut parts, "spatialReference", params.spatial_reference);
        push_part_opt_string(&mut parts, "extent", &params.extent);
        push_part_opt_string(&mut parts, "access", &params.access);
        push_part_opt_string(&mut parts, "properties", &params.properties);
        push_part_opt_string(&mut parts, "token", token);
        let mut url = concat3(self.base_url.as_str(), "/content/users/", username);
        url.append("/addItem");
        multipart_post(url, parts)
    }

    /// Updating an item: multipart `POST
    /// <base>/content/users/<owner>/items/<id>/update`.
    pub fn update_item_request(
        &self,
        owner: &str,
        item_id: &str,
        params: &UpdateItemParams,
        token: &Option<String>,
    ) -> (r: ApiRequest)
        ensures
            r.is_multipart_post(
                self.user_item_url(owner@, item_id@, "update"@),
                update_item_parts(*params, token.deep_view()),
            ),
    {
        let mut parts = json_part();
        push_part_opt_string(&mut parts, "title", &params.title);
        push_part_opt_string(&mut parts, "description", &params.description);
        push_part_opt_list(&mut parts, "tags", &params.tags);
        push_part_opt_string(&mut parts, "snippet", &params.snippet);
        push_part_opt_list(&mut parts, "categories", &params.categories);
        push_part_opt_list(&mut parts, "typeKeywords", &params.type_keywords);
        push_part_opt_string(&mut parts, "url", &params.url);
        push_part_opt_i32(&mut parts, "spatialReference", params.spatial_reference);
        push_part_opt_string(&mut parts, "extent", &params.extent);
        push_part_opt_string(&mut parts, "access", &params.access);
        push_part_opt_string(&mut parts, "token", token);
        multipart_post(self.user_item_url_of(owner, item_id, "update"), parts)
    }

    /// Deleting an item: `POST <base>/content/users/<owner>/items/<id>/delete`
    /// with `f=json` and the token.
    pub fn delete_item_request(&self, owner: &str, item_id: &str, token: &Option<String>) -> (r:
        ApiRequest)
        ensures
            r.is_form_post(
                self.user_item_url(owner@, item_id@, "delete"@),
                json_token_query(token.deep_view()),
            ),
    {
        form_post(self.user_item_url_of(owner, item_id, "delete"), json_token_form(token))
    }

    /// Replacing an item's data: multipart `POST .../items/<id>/update` with
    /// `f=json`, the data as a `data.json` file of type `application/json`,
    /// and the token.
    pub fn update_item_data_request(
        &self,
        owner: &str,
        item_id: &str,
        data: Vec<u8>,
        token: &Option<String>,
    ) -> (r: ApiRequest)
        ensures
            r.is_multipart_post(
                self.user_item_url(owner@, item_id@, "update"@),
                f_json() + pair("file"@, "data.json"@) + opt_pair("token"@, token.deep_view()),
            ),
            r.body matches RequestBody::Multipart(p) && p@.len() >= 2 && (p@[1] matches MultipartPart::File(
                f,
            ) && f.data@ == data@ && f.mime_type@ == "application/json"@),
    {
        let mut parts = json_part();
        let file = FilePart {
            field: String::from_str("file"),
            file_name: String::from_str("data.json"),
            mime_type: String::from_str("application/json"),
            data,
        };
        proof {
            assert(parts_view(parts@).len() == parts@.len());
        }
        parts.push(MultipartPart::File(file));
        proof {
            assert(parts_view(parts@) =~= f_json() + pair("file"@, "data.json"@));
        }
        let ghost mid = parts@;
        match token {
            Some(t) => {
                parts.push(MultipartPart::Text(String::from_str("token"), t.clone()));
            },
            None => {},
        }
        proof {
            assert(parts@[1] == mid[1]);
            assert(parts_view(parts@) =~= f_json() + pair("file"@, "data.json"@) + opt_pair(
                "token"@,
                token.deep_view(),
            ));
        }
        multipart_post(self.user_item_url_of(owner, item_id, "update"), parts)
    }

    /// The group search: `GET <base>/community/groups` with the query.
    pub fn search_groups_request(&self, params: &GroupSearchParameters, token: &Option<String>) -> (r:
        ApiRequest)
        ensures
            r.is_get(
                self.base() + "/community/groups"@,
                group_search_query(*params, token.deep_view()),
            ),
    {
        let mut q = no_pairs();
        push_pair(&mut q, "q", params.query.as_str());
        push_opt(&mut q, "sortField", &params.sort_field);
        push_opt_str(&mut q, "sortOrder", sort_str(params.sort_order));
        push_opt_u32(&mut q, "start", params.start);
        push_opt_u32(&mut q, "num", params.num);
        push_pair(&mut q, "f", "json");
        push_opt(&mut q, "token", token);
        get_request(concat2(self.base_url.as_str(), "/community/groups"), q)
    }

    /// The group request: `GET <base>/community/groups/<id>`.
    pub fn get_group_request(&self, group_id: &str, token: &Option<String>) -> (r: ApiRequest)
        ensures
            r.is_get(
                self.base() + "/community/groups/"@ + group_id@,
                json_token_query(token.deep_view()),
            ),
    {
        get_request(
            concat3(self.base_url.as_str(), "/community/groups/", group_id),
            json_token_form(token),
        )
    }

    /// Creating a group: multipart `POST <base>/community/createGroup`.
    pub fn create_group_request(&self, params: &CreateGroupParams, token: &Option<String>) -> (r:
        ApiRequest)
        ensures
            r.is_multipart_post(
                self.base() + "/community/createGroup"@,
                create_group_parts(*params, token.deep_view()),
            ),
    {
        let mut parts = json_part();
        push_part(&mut parts, "title", params.title.as_str());
        push_part_opt_string(&mut parts, "token", token);
        push_part_opt_string(&mut parts, "description", &params.description);
        push_part_opt_string(&mut parts, "snippet", &params.snippet);
        push_part_opt_list(&mut parts, "tags", &params.tags);
        push_part_opt_string(&mut parts, "access", &params.access);
        push_part_opt_bool(&mut parts, "isInvitationOnly", params.is_invitation_only);
        push_part_opt_bool(&mut parts, "isViewOnly", params.is_view_only);
        push_part_opt_bool(&mut parts, "autoJoin", params.auto_join);
        push_part_opt_string(&mut parts, "sortField", &params.sort_field);
        push_part_opt_string(&mut parts, "sortOrder", &params.sort_order);
        multipart_post(concat2(self.base_url.as_str(), "/community/createGroup"), parts)
    }

    /// Updating a group: multipart `POST <base>/community/groups/<id>/update`.
    pub fn update_group_request(
        &self,
        group_id: &str,
        params: &UpdateGroupParams,
        token: &Option<String>,
    ) -> (r: ApiRequest)
        ensures
            r.is_multipart_post(
                self.base() + "/community/groups/"@ + group_id@ + "/update"@,
                update_group_parts(*params, token.deep_view()),
            ),
    {
        let mut parts = json_part();
        push_part_opt_string(&mut parts, "token", token);
        push_part_opt_string(&mut parts, "title", &params.title);
        push_part_opt_string(&mut parts, "description", &params.description);
        push_part_opt_string(&mut parts, "snippet", &params.snippet);
        push_part_opt_list(&mut parts, "tags", &params.tags);
        push_part_opt_string(&mut parts, "access", &params.access);
        push_part_opt_bool(&mut parts, "isInvitationOnly", params.is_invitation_only);
        push_part_opt_bool(&mut parts, "isViewOnly", params.is_view_only);
        push_part_opt_string(&mut parts, "sortField", &params.sort_field);
        push_part_opt_string(&mut parts, "sortOrder", &params.sort_order);
        let mut url = concat3(self.base_url.as_str(), "/community/groups/", group_id);
        url.append("/update");
        multipart_post(url, parts)
    }

    /// A group action (`delete`, `join` or `leave`): `POST
    /// <base>/community/groups/<id>/<action>` with `f=json` and the token.
    pub fn group_action_request(&self, group_id: &str, action: &str, token: &Option<String>) -> (r:
        ApiRequest)
        ensures
            r.is_form_post(
                self.base() + "/community/groups/"@ + group_id@ + "/"@ + action@,
                json_token_query(token.deep_view()),
            ),
    {
        let mut url = concat3(self.base_url.as_str(), "/community/groups/", group_id);
        url.append("/");
        url.append(action);
        form_post(url, json_token_form(token))
    }

    /// Deleting a group.
    pub fn delete_group_request(&self, group_id: &str, token: &Option<String>) -> (r: ApiRequest)
        ensures
            r.is_form_post(
                self.base() + "/community/groups/"@ + group_id@ + "/delete"@,
                json_token_query(token.deep_view()),
            ),
    {
        proof {
            reveal_strlit("/");
            reveal_strlit("delete");
            reveal_strlit("/delete");
            assert(self.base() + "/community/groups/"@ + group_id@ + "/"@ + "delete"@ =~= self.base()
                + "/community/groups/"@ + group_id@ + "/delete"@);
        }
        self.group_action_request(group_id, "delete", token)
    }

    /// Joining a group.
    pub fn join_group_request(&self, group_id: &str, token: &Option<String>) -> (r: ApiRequest)
        ensures
            r.is_form_post(
                self.base() + "/community/groups/"@ + group_id@ + "/join"@,
                json_token_query(token.deep_view()),
            ),
    {
        proof {
            reveal_strlit("/");
            reveal_strlit("join");
            reveal_strlit("/join");
            assert(self.base() + "/community/groups/"@ + group_id@ + "/"@ + "join"@ =~= self.base()
                + "/community/groups/"@ + group_id@ + "/join"@);
        }
        self.group_action_request(group_id, "join", token)
    }

    /// Leaving a group.
    pub fn leave_group_request(&self, group_id: &str, token: &Option<String>) -> (r: ApiRequest)
        ensures
            r.is_form_post(
                self.base() + "/community/groups/"@ + group_id@ + "/leave"@,
                json_token_query(token.deep_view()),
            ),
    {
        proof {
            reveal_strlit("/");
            reveal_strlit("leave");
            reveal_strlit("/leave");
            assert(self.base() + "/community/groups/"@ + group_id@ + "/"@ + "leave"@ =~= self.base()
                + "/community/groups/"@ + group_id@ + "/leave"@);
        }
        self.group_action_request(group_id, "leave", token)
    }

    fn item_group_request(&self, group_id: &str, item_id: &str, action: &str, token: &Option<String>) -> (r:
        ApiRequest)
        ensures
            r.is_form_post(
                self.base() + "/content/items/"@ + item_id@ + "/"@ + action@,
                group_item_form(group_id@, token.deep_view()),
            ),
    {
        let mut url = concat3(self.base_url.as_str(), "/content/items/", item_id);
        url.append("/");
        url.append(action);
        let mut form = no_pairs();
        push_pair(&mut form, "f", "json");
        push_pair(&mut form, "groups", group_id);
        push_opt(&mut form, "token", token);
        proof {
            assert(form.deep_view() =~= group_item_form(group_id@, token.deep_view()));
        }
        form_post(url, form)
    }

    /// Sharing an item with a group: `POST <base>/content/items/<item>/share`.
    pub fn add_to_group_request(&self, group_id: &str, item_id: &str, token: &Option<String>) -> (r:
        ApiRequest)
        ensures
            r.is_form_post(
                self.base() + "/content/items/"@ + item_id@ + "/share"@,
                group_item_form(group_id@, token.deep_view()),
            ),
    {
        proof {
            reveal_strlit("/");
            reveal_strlit("share");
            reveal_strlit("/share");
            assert(self.base() + "/content/items/"@ + item_id@ + "/"@ + "share"@ =~= self.base()
                + "/content/items/"@ + item_id@ + "/share"@);
        }
        self.item_group_request(group_id, item_id, "share", token)
    }

    /// Unsharing an item from a group: `POST
    /// <base>/content/items/<item>/unshare`.
    pub fn remove_from_group_request(&self, group_id: &str, item_id: &str, token: &Option<String>) -> (r:
        ApiRequest)
        ensures
            r.is_form_post(
                self.base() + "/content/items/"@ + item_id@ + "/unshare"@,
                group_item_form(group_id@, token.deep_view()),
            ),
    {
        proof {
            reveal_strlit("/");
            reveal_strlit("unshare");
            reveal_strlit("/unshare");
            assert(self.base() + "/content/items/"@ + item_id@ + "/"@ + "unshare"@ =~= self.base()
                + "/content/items/"@ + item_id@ + "/unshare"@);
        }
        self.item_group_request(group_id, item_id, "unshare", token)
    }

    /// Sharing an item: multipart `POST .../items/<id>/share` with `f=json`,
    /// the token, and whom to share with.
    pub fn share_item_request(
        &self,
        owner: &str,
        item_id: &str,
        params: &SharingParameters,
        token: &str,
    ) -> (r: ApiRequest)
        ensures
            r.is_multipart_post(
                self.user_item_url(owner@, item_id@, "share"@),
                share_parts(*params, token@),
            ),
    {
        let mut parts = json_part();
        push_part(&mut parts, "token", token);
        push_part_opt_bool(&mut parts, "everyone", params.everyone);
        push_part_opt_bool(&mut parts, "org", params.org);
        push_part_opt_list(&mut parts, "groups", &params.groups);
        multipart_post(self.user_item_url_of(owner, item_id, "share"), parts)
    }

    /// Unsharing an item: multipart `POST .../items/<id>/unshare` with
    /// `f=json`, the token, and the groups.
    pub fn unshare_item_request(
        &self,
        owner: &str,
        item_id: &str,
        params: &SharingParameters,
        token: &str,
    ) -> (r: ApiRequest)
        ensures
            r.is_multipart_post(
                self.user_item_url(owner@, item_id@, "unshare"@),
                unshare_parts(*params, token@),
            ),
    {
        let mut parts = json_part();
        push_part(&mut parts, "token", token);
        push_part_opt_list(&mut parts, "groups", &params.groups);
        multipart_post(self.user_item_url_of(owner, item_id, "unshare"), parts)
    }
}

/// Sharing an item sends each sharing setting that is given under its own
/// name (`everyone`, `org`, `groups` as a comma list) and omits each one
/// that is not.
pub proof fn lemma_share_sends_each_setting(p: SharingParameters, token: Seq<char>)
    ensures
        form_value(share_parts(p, token), "everyone"@) == opt_bool(p.everyone),
        form_value(share_parts(p, token), "org"@) == opt_bool(p.org),
        form_value(share_parts(p, token), "groups"@) == opt_join(p.groups),
{
    reveal_strlit("f");
    reveal_strlit("json");
    reveal_strlit("token");
    reveal_strlit("everyone");
    reveal_strlit("org");
    reveal_strlit("groups");
    let c1 = f_json();
    let c2 = pair("token"@, token);
    let c3 = opt_pair("everyone"@, opt_bool(p.everyone));
    let c4 = opt_pair("org"@, opt_bool(p.org));
    let c5 = opt_pair("groups"@, opt_join(p.groups));
    let keys = seq!["f"@, "token"@, "everyone"@, "org"@, "groups"@];
    assert(keys[0][0] == 'f' && keys[1][0] == 't' && keys[2][0] == 'e' && keys[3][0] == 'o'
        && keys[4][0] == 'g');
    assert forall|j: int| 2 <= j < 5 implies {
        let k = #[trigger] keys[j];
        &&& form_value(c1, k) is None
        &&& form_value(c2, k) is None
        &&& form_value(c3, k) == (if j == 2 { opt_bool(p.everyone) } else { None })
        &&& form_value(c4, k) == (if j == 3 { opt_bool(p.org) } else { None })
        &&& form_value(c5, k) == (if j == 4 { opt_join(p.groups) } else { None })
        &&& form_value(c1 + c2 + c3 + c4 + c5, k) == (if j == 2 {
            opt_bool(p.everyone)
        } else if j == 3 {
            opt_bool(p.org)
        } else {
            opt_join(p.groups)
        })
    } by {
        let k = keys[j];
        lemma_form_value_pair("f"@, "json"@, k);
        lemma_form_value_pair("token"@, token, k);
        lemma_form_value_opt_pair("everyone"@, opt_bool(p.everyone), k);
        lemma_form_value_opt_pair("org"@, opt_bool(p.org), k);
        lemma_form_value_opt_pair("groups"@, opt_join(p.groups), k);
        lemma_form_value_append(c1, c2, k);
        lemma_form_value_append(c1 + c2, c3, k);
        lemma_form_value_append(c1 + c2 + c3, c4, k);
        lemma_form_value_append(c1 + c2 + c3 + c4, c5, k);
    }
    assert(keys[2] == "everyone"@ && keys[3] == "org"@ && keys[4] == "groups"@);
}

/// Each field of `search_query` carries the value built from its own input: a
/// required field is always present, an optional one exactly when its
/// input is given.
pub proof fn lemma_search_query_fields(p: SearchParameters, token: Option<Seq<char>>)
    ensures
        crate::http::form_value(search_query(p, token), "q"@) == Some(p.query@),
        crate::http::form_value(search_query(p, token), "bbox"@) == opt_join(p.bbox),
        crate::http::form_value(search_query(p, token), "categories"@) == p.categories.deep_view(),
        crate::http::form_value(search_query(p, token), "sortField"@) == p.sort_field.deep_view(),
        crate::http::form_value(search_query(p, token), "sortOrder"@) == sort_param(p.sort_order),
        crate::http::form_value(search_query(p, token), "start"@) == opt_u32(p.start),
        crate::http::form_value(search_query(p, token), "num"@) == opt_u32(p.num),
        crate::http::form_value(search_query(p, token), "f"@) == Some("json"@),
        crate::http::form_value(search_query(p, token), "token"@) == token,
{
    reveal_strlit("bbox");
    reveal_strlit("categories");
    reveal_strlit("f");
    reveal_strlit("json");
    reveal_strlit("num");
    reveal_strlit("q");
    reveal_strlit("sortField");
    reveal_strlit("sortOrder");
    reveal_strlit("start");
    reveal_strlit("token");
    assert("q"@.len() != "bbox"@.len());
    assert("q"@.len() != "categories"@.len());
    assert("q"@.len() != "sortField"@.len());
    assert("q"@.len() != "sortOrder"@.len());
    assert("q"@.len() != "start"@.len());
    assert("q"@.len() != "num"@.len());
    assert("q"@[0] != "f"@[0]);
    assert("q"@.len() != "token"@.len());
    assert("bbox"@.len() != "categories"@.len());
    assert("bbox"@.len() != "sortField"@.len());
    assert("bbox"@.len() != "sortOrder"@.len());
    assert("bbox"@.len() != "start"@.len());
    assert("bbox"@.len() != "num"@.len());
    assert("bbox"@.len() != "f"@.len());
    assert("bbox"@.len() != "token"@.len());
    assert("categories"@.len() != "sortField"@.len());
    assert("categories"@.len() != "sortOrder"@.len());
    assert("categories"@.len() != "start"@.len());
    assert("categories"@.len() != "num"@.len());
    assert("categories"@.len() != "f"@.len());
    assert("categories"@.len() != "token"@.len());
    assert("sortField"@[4] != "sortOrder"@[4]);
    assert("sortField"@.len() != "start"@.len());
    assert("sortField"@.len() != "num"@.len());
    assert("sortField"@.len() != "f"@.len());
    assert("sortField"@.len() != "token"@.len());
    assert("sortOrder"@.len() != "start"@.len());
    assert("sortOrder"@.len() != "num"@.len());
    assert("sortOrder"@.len() != "f"@.len());
    assert("sortOrder"@.len() != "token"@.len());
    assert("start"@.len() != "num"@.len());
    assert("start"@.len() != "f"@.len());
    assert("start"@[0] != "token"@[0]);
    assert("num"@.len() != "f"@.len());
    assert("num"@.len() != "token"@.len());
    assert("f"@.len() != "token"@.len());
    let c0 = pair("q"@, p.query@);
    let c1 = opt_pair("bbox"@, opt_join(p.bbox));
    let c2 = opt_pair("categories"@, p.categories.deep_view());
    let c3 = opt_pair("sortField"@, p.sort_field.deep_view());
    let c4 = opt_pair("sortOrder"@, sort_param(p.sort_order));
    let c5 = opt_pair("start"@, opt_u32(p.start));
    let c6 = opt_pair("num"@, opt_u32(p.num));
    let c7 = pair("f"@, "json"@);
    let c8 = opt_pair("token"@, token);
    let form = search_query(p, token);
    assert(form == c0 + c1 + c2 + c3 + c4 + c5 + c6 + c7 + c8);
    assert(crate::http::form_value(form, "q"@) == Some(p.query@)) by {
        crate::http::lemma_form_value_pair("q"@, p.query@, "q"@);
        crate::http::lemma_form_value_opt_pair("bbox"@, opt_join(p.bbox), "q"@);
        crate::http::lemma_form_value_opt_pair("categories"@, p.categories.deep_view(), "q"@);
        crate::http::lemma_form_value_opt_pair("sortField"@, p.sort_field.deep_view(), "q"@);
        crate::http::lemma_form_value_opt_pair("sortOrder"@, sort_param(p.sort_order), "q"@);
        crate::http::lemma_form_value_opt_pair("start"@, opt_u32(p.start), "q"@);
        crate::http::lemma_form_value_opt_pair("num"@, opt_u32(p.num), "q"@);
        crate::http::lemma_form_value_pair("f"@, "json"@, "q"@);
        crate::http::lemma_form_value_opt_pair("token"@, token, "q"@);
        crate::http::lemma_form_value_append(c0, c1, "q"@);
        crate::http::lemma_form_value_append(c0 + c1, c2, "q"@);
        crate::http::lemma_form_value_append(c0 + c1 + c2, c3, "q"@);
        crate::http::lemma_form_value_append(c0 + c1 + c2 + c3, c4, "q"@);
        crate::http::lemma_form_value_append(c0 + c1 + c2 + c3 + c4, c5, "q"@);
        crate::http::lemma_form_value_append(c0 + c1 + c2 + c3 + c4 + c5, c6, "q"@);
        crate::http::lemma_form_value_append(c0 + c1 + c2 + c3 + c4 + c5 + c6, c7, "q"@);
        crate::http::lemma_form_value_append(c0 + c1 + c2 + c3 + c4 + c5 + c6 + c7, c8, "q"@);
    }
    assert(crate::http::form_value(form, "bbox"@) == opt_join(p.bbox)) by {
        crate::http::lemma_form_value_pair("q"@, p.query@, "bbox"@);
        crate::http::lemma_form_value_opt_pair("bbox"@, opt_join(p.bbox), "bbox"@);
        crate::http::lemma_form_value_opt_pair("categories"@, p.categories.deep_view(), "bbox"@);
        crate::http::lemma_form_value_opt_pair("sortField"@, p.sort_field.deep_view(), "bbox"@);
        crate::http::lemma_form_value_opt_pair("sortOrder"@, sort_param(p.sort_order), "bbox"@);
        crate::http::lemma_form_value_opt_pair("start"@, opt_u32(p.start), "bbox"@);
        crate::http::lemma_form_value_opt_pair("num"@, opt_u32(p.num), "bbox"@);
        crate::http::lemma_form_value_pair("f"@, "json"@, "bbox"@);
        crate::http::lemma_form_value_opt_pair("token"@, token, "bbox"@);
        crate::http::lemma_form_value_append(c0, c1, "bbox"@);
        crate::http::lemma_form_value_append(c0 + c1, c2, "bbox"@);
        crate::http::lemma_form_value_append(c0 + c1 + c2, c3, "bbox"@);
        crate::http::lemma_form_value_append(c0 + c1 + c2 + c3, c4, "bbox"@);
        crate::http::lemma_form_value_append(c0 + c1 + c2 + c3 + c4, c5, "bbox"@);
        crate::http::lemma_form_value_append(c0 + c1 + c2 + c3 + c4 + c5, c6, "bbox"@);
        crate::http::lemma_form_value_append(c0 + c1 + c2 + c3 + c4 + c5 + c6, c7, "bbox"@);
        crate::http::lemma_form_value_append(c0 + c1 + c2 + c3 + c4 + c5 + c6 + c7, c8, "bbox"@);
    }
    assert(crate::http::form_value(form, "categories"@) == p.categories.deep_view()) by {
        crate::http::lemma_form_value_pair("q"@, p.query@, "categories"@);
        crate::http::lemma_form_value_opt_pair("bbox"@, opt_join(p.bbox), "categories"@);
        crate::http::lemma_form_value_opt_pair("categories"@, p.categories.deep_view(), "categories"@);
        crate::http::lemma_form_value_opt_pair("sortField"@, p.sort_field.deep_view(), "categories"@);
        crate::http::lemma_form_value_opt_pair("sortOrder"@, sort_param(p.sort_order), "categories"@);
        crate::http::lemma_form_value_opt_pair("start"@, opt_u32(p.start), "categories"@);
        crate::http::lemma_form_value_opt_pair("num"@, opt_u32(p.num), "categories"@);
        crate::http::lemma_form_value_pair("f"@, "json"@, "categories"@);
        crate::http::lemma_form_value_opt_pair("token"@, token, "categories"@);
        crate::http::lemma_form_value_append(c0, c1, "categories"@);
        crate::http::lemma_form_value_append(c0 + c1, c2, "categories"@);
        crate::http::lemma_form_value_append(c0 + c1 + c2, c3, "categories"@);
        crate::http::lemma_form_value_append(c0 + c1 + c2 + c3, c4, "categories"@);
        crate::http::lemma_form_value_append(c0 + c1 + c2 + c3 + c4, c5, "categories"@);
        crate::http::lemma_form_value_append(c0 + c1 + c2 + c3 + c4 + c5, c6, "categories"@);
        crate::http::lemma_form_value_append(c0 + c1 + c2 + c3 + c4 + c5 + c6, c7, "categories"@);
        crate::http::lemma_form_value_append(c0 + c1 + c2 + c3 + c4 + c5 + c6 + c7, c8, "categories"@);
    }
    assert(crate::http::form_value(form, "sortField"@) == p.sort_field.deep_view()) by {
        crate::http::lemma_form_value_pair("q"@, p.query@, "sortField"@);
        crate::http::lemma_form_value_opt_pair("bbox"@, opt_join(p.bbox), "sortField"@);
        crate::http::lemma_form_value_opt_pair("categories"@, p.categories.deep_view(), "sortField"@);
        crate::http::lemma_form_value_opt_pair("sortField"@, p.sort_field.deep_view(), "sortField"@);
        crate::http::lemma_form_value_opt_pair("sortOrder"@, sort_param(p.sort_order), "sortField"@);
        crate::http::lemma_form_value_opt_pair("start"@, opt_u32(p.start), "sortField"@);
        crate::http::lemma_form_value_opt_pair("num"@, opt_u32(p.num), "sortField"@);
        crate::http::lemma_form_value_pair("f"@, "json"@, "sortField"@);
        crate::http::lemma_form_value_opt_pair("token"@, token, "sortField"@);
        crate::http::lemma_form_value_append(c0, c1, "sortField"@);
        crate::http::lemma_form_value_append(c0 + c1, c2, "sortField"@);
        crate::http::lemma_form_value_append(c0 + c1 + c2, c3, "sortField"@);
        crate::http::lemma_form_value_append(c0 + c1 + c2 + c3, c4, "sortField"@);
        crate::http::lemma_form_value_append(c0 + c1 + c2 + c3 + c4, c5, "sortField"@);
        crate::http::lemma_form_value_append(c0 + c1 + c2 + c3 + c4 + c5, c6, "sortField"@);
        crate::http::lemma_form_value_append(c0 + c1 + c2 + c3 + c4 + c5 + c6, c7, "sortField"@);
        crate::http::lemma_form_value_append(c0 + c1 + c2 + c3 + c4 + c5 + c6 + c7, c8, "sortField"@);
    }
    assert(crate::http::form_value(form, "sortOrder"@) == sort_param(p.sort_order)) by {
        crate::http::lemma_form_value_pair("q"@, p.query@, "sortOrder"@);
        crate::http::lemma_form_value_opt_pair("bbox"@, opt_join(p.bbox), "sortOrder"@);
        crate::http::lemma_form_value_opt_pair("categories"@, p.categories.deep_view(), "sortOrder"@);
        crate::http::lemma_form_value_opt_pair("sortField"@, p.sort_field.deep_view(), "sortOrder"@);
        crate::http::lemma_form_value_opt_pair("sortOrder"@, sort_param(p.sort_order), "sortOrder"@);
        crate::http::lemma_form_value_opt_pair("start"@, opt_u32(p.start), "sortOrder"@);
        crate::http::lemma_form_value_opt_pair("num"@, opt_u32(p.num), "sortOrder"@);
        crate::http::lemma_form_value_pair("f"@, "json"@, "sortOrder"@);
        crate::http::lemma_form_value_opt_pair("token"@, token, "sortOrder"@);
        crate::http::lemma_form_value_append(c0, c1, "sortOrder"@);
        crate::http::lemma_form_value_append(c0 + c1, c2, "sortOrder"@);
        crate::http::lemma_form_value_append(c0 + c1 + c2, c3, "sortOrder"@);
        crate::http::lemma_form_value_append(c0 + c1 + c2 + c3, c4, "sortOrder"@);
        crate::http::lemma_form_value_append(c0 + c1 + c2 + c3 + c4, c5, "sortOrder"@);
        crate::http::lemma_form_value_append(c0 + c1 + c2 + c3 + c4 + c5, c6, "sortOrder"@);
        crate::http::lemma_form_value_append(c0 + c1 + c2 + c3 + c4 + c5 + c6, c7, "sortOrder"@);
        crate::http::lemma_form_value_append(c0 + c1 + c2 + c3 + c4 + c5 + c6 + c7, c8, "sortOrder"@);
    }
    assert(crate::http::form_value(form, "start"@) == opt_u32(p.start)) by {
        crate::http::lemma_form_value_pair("q"@, p.query@, "start"@);
        crate::http::lemma_form_value_opt_pair("bbox"@, opt_join(p.bbox), "start"@);
        crate::http::lemma_form_value_opt_pair("categories"@, p.categories.deep_view(), "start"@);
        crate::http::lemma_form_value_opt_pair("sortField"@, p.sort_field.deep_view(), "start"@);
        crate::http::lemma_form_value_opt_pair("sortOrder"@, sort_param(p.sort_order), "start"@);
        crate::http::lemma_form_value_opt_pair("start"@, opt_u32(p.start), "start"@);
        crate::http::lemma_form_value_opt_pair("num"@, opt_u32(p.num), "start"@);
        crate::http::lemma_form_value_pair("f"@, "json"@, "start"@);
        crate::http::lemma_form_value_opt_pair("token"@, token, "start"@);
        crate::http::lemma_form_value_append(c0, c1, "start"@);
        crate::http::lemma_form_value_append(c0 + c1, c2, "start"@);
        crate::http::lemma_form_value_append(c0 + c1 + c2, c3, "start"@);
        crate::http::lemma_form_value_append(c0 + c1 + c2 + c3, c4, "start"@);
        crate::http::lemma_form_value_append(c0 + c1 + c2 + c3 + c4, c5, "start"@);
        crate::http::lemma_form_value_append(c0 + c1 + c2 + c3 + c4 + c5, c6, "start"@);
        crate::http::lemma_form_value_append(c0 + c1 + c2 + c3 + c4 + c5 + c6, c7, "start"@);
        crate::http::lemma_form_value_append(c0 + c1 + c2 + c3 + c4 + c5 + c6 + c7, c8, "start"@);
    }
    assert(crate::http::form_value(form, "num"@) == opt_u32(p.num)) by {
        crate::http::lemma_form_value_pair("q"@, p.query@, "num"@);
        crate::http::lemma_form_value_opt_pair("bbox"@, opt_join(p.bbox), "num"@);
        crate::http::lemma_form_value_opt_pair("categories"@, p.categories.deep_view(), "num"@);
        crate::http::lemma_form_value_opt_pair("sortField"@, p.sort_field.deep_view(), "num"@);
        crate::http::lemma_form_value_opt_pair("sortOrder"@, sort_param(p.sort_order), "num"@);
        crate::http::lemma_form_value_opt_pair("start"@, opt_u32(p.start), "num"@);
        crate::http::lemma_form_value_opt_pair("num"@, opt_u32(p.num), "num"@);
        crate::http::lemma_form_value_pair("f"@, "json"@, "num"@);
        crate::http::lemma_form_value_opt_pair("token"@, token, "num"@);
        crate::http::lemma_form_value_append(c0, c1, "num"@);
        crate::http::lemma_form_value_append(c0 + c1, c2, "num"@);
        crate::http::lemma_form_value_append(c0 + c1 + c2, c3, "num"@);
        crate::http::lemma_form_value_append(c0 + c1 + c2 + c3, c4, "num"@);
        crate::http::lemma_form_value_append(c0 + c1 + c2 + c3 + c4, c5, "num"@);
        crate::http::lemma_form_value_append(c0 + c1 + c2 + c3 + c4 + c5, c6, "num"@);
        crate::http::lemma_form_value_append(c0 + c1 + c2 + c3 + c4 + c5 + c6, c7, "num"@);
        crate::http::lemma_form_value_append(c0 + c1 + c2 + c3 + c4 + c5 + c6 + c7, c8, "num"@);
    }
    assert(crate::http::form_value(form, "f"@) == Some("json"@)) by {
        crate::http::lemma_form_value_pair("q"@, p.query@, "f"@);
        crate::http::lemma_form_value_opt_pair("bbox"@, opt_join(p.bbox), "f"@);
        crate::http::lemma_form_value_opt_pair("categories"@, p.categories.deep_view(), "f"@);
        crate::http::lemma_form_value_opt_pair("sortField"@, p.sort_field.deep_view(), "f"@);
        crate::http::lemma_form_value_opt_pair("sortOrder"@, sort_param(p.sort_order), "f"@);
        crate::http::lemma_form_value_opt_pair("start"@, opt_u32(p.start), "f"@);
        crate::http::lemma_form_value_opt_pair("num"@, opt_u32(p.num), "f"@);
        crate::http::lemma_form_value_pair("f"@, "json"@, "f"@);
        crate::http::lemma_form_value_opt_pair("token"@, token, "f"@);
        crate::http::lemma_form_value_append(c0, c1, "f"@);
        crate::http::lemma_form_value_append(c0 + c1, c2, "f"@);
        crate::http::lemma_form_value_append(c0 + c1 + c2, c3, "f"@);
        crate::http::lemma_form_value_append(c0 + c1 + c2 + c3, c4, "f"@);
        crate::http::lemma_form_value_append(c0 + c1 + c2 + c3 + c4, c5, "f"@);
        crate::http::lemma_form_value_append(c0 + c1 + c2 + c3 + c4 + c5, c6, "f"@);
        crate::http::lemma_form_value_append(c0 + c1 + c2 + c3 + c4 + c5 + c6, c7, "f"@);
        crate::http::lemma_form_value_append(c0 + c1 + c2 + c3 + c4 + c5 + c6 + c7, c8, "f"@);
    }
    assert(crate::http::form_value(form, "token"@) == token) by {
        crate::http::lemma_form_value_pair("q"@, p.query@, "token"@);
        crate::http::lemma_form_value_opt_pair("bbox"@, opt_join(p.bbox), "token"@);
        crate::http::lemma_form_value_opt_pair("categories"@, p.categories.deep_view(), "token"@);
        crate::http::lemma_form_value_opt_pair("sortField"@, p.sort_field.deep_view(), "token"@);
        crate::http::lemma_form_value_opt_pair("sortOrder"@, sort_param(p.sort_order), "token"@);
        crate::http::lemma_form_value_opt_pair("start"@, opt_u32(p.start), "token"@);
        crate::http::lemma_form_value_opt_pair("num"@, opt_u32(p.num), "token"@);
        crate::http::lemma_form_value_pair("f"@, "json"@, "token"@);
        crate::http::lemma_form_value_opt_pair("token"@, token, "token"@);
        crate::http::lemma_form_value_append(c0, c1, "token"@);
        crate::http::lemma_form_value_append(c0 + c1, c2, "token"@);
        crate::http::lemma_form_value_append(c0 + c1 + c2, c3, "token"@);
        crate::http::lemma_form_value_append(c0 + c1 + c2 + c3, c4, "token"@);
        crate::http::lemma_form_value_append(c0 + c1 + c2 + c3 + c4, c5, "token"@);
        crate::http::lemma_form_value_append(c0 + c1 + c2 + c3 + c4 + c5, c6, "token"@);
        crate::http::lemma_form_value_append(c0 + c1 + c2 + c3 + c4 + c5 + c6, c7, "token"@);
        crate::http::lemma_form_value_append(c0 + c1 + c2 + c3 + c4 + c5 + c6 + c7, c8, "token"@);
    }
}

/// Each field of `group_search_query` carries the value built from its own input: a
/// required field is always present, an optional one exactly when its
/// input is given.
pub proof fn lemma_group_search_query_fields(p: GroupSearchParameters, token: Option<Seq<char>>)
    ensures
        crate::http::form_value(group_search_query(p, token), "q"@) == Some(p.query@),
        crate::http::form_value(group_search_query(p, token), "sortField"@) == p.sort_field.deep_view(),
        crate::http::form_value(group_search_query(p, token), "sortOrder"@) == sort_param(p.sort_order),
        crate::http::form_value(group_search_query(p, token), "start"@) == opt_u32(p.start),
        crate::http::form_value(group_search_query(p, token), "num"@) == opt_u32(p.num),
        crate::http::form_value(group_search_query(p, token), "f"@) == Some("json"@),
        crate::http::form_value(group_search_query(p, token), "token"@) == token,
{
    reveal_strlit("f");
    reveal_strlit("json");
    reveal_strlit("num");
    reveal_strlit("q");
    reveal_strlit("sortField");
    reveal_strlit("sortOrder");
    reveal_strlit("start");
    reveal_strlit("token");
    assert("q"@.len() != "sortField"@.len());
    assert("q"@.len() != "sortOrder"@.len());
    assert("q"@.len() != "start"@.len());
    assert("q"@.len() != "num"@.len());
    assert("q"@[0] != "f"@[0]);
    assert("q"@.len() != "token"@.len());
    assert("sortField"@[4] != "sortOrder"@[4]);
    assert("sortField"@.len() != "start"@.len());
    assert("sortField"@.len() != "num"@.len());
    assert("sortField"@.len() != "f"@.len());
    assert("sortField"@.len() != "token"@.len());
    assert("sortOrder"@.len() != "start"@.len());
    assert("sortOrder"@.len() != "num"@.len());
    assert("sortOrder"@.len() != "f"@.len());
    assert("sortOrder"@.len() != "token"@.len());
    assert("start"@.len() != "num"@.len());
    assert("start"@.len() != "f"@.len());
    assert("start"@[0] != "token"@[0]);
    assert("num"@.len() != "f"@.len());
    assert("num"@.len() != "token"@.len());
    assert("f"@.len() != "token"@.len());
    let c0 = pair("q"@, p.query@);
    let c1 = opt_pair("sortField"@, p.sort_field.deep_view());
    let c2 = opt_pair("sortOrder"@, sort_param(p.sort_order));
    let c3 = opt_pair("start"@, opt_u32(p.start));
    let c4 = opt_pair("num"@, opt_u32(p.num));
    let c5 = pair("f"@, "json"@);
    let c6 = opt_pair("token"@, token);
    let form = group_search_query(p, token);
    assert(form == c0 + c1 + c2 + c3 + c4 + c5 + c6);
    assert(crate::http::form_value(form, "q"@) == Some(p.query@)) by {
        crate::http::lemma_form_value_pair("q"@, p.query@, "q"@);
        crate::http::lemma_form_value_opt_pair("sortField"@, p.sort_field.deep_view(), "q"@);
        crate::http::lemma_form_value_opt_pair("sortOrder"@, sort_param(p.sort_order), "q"@);
        crate::http::lemma_form_value_opt_pair("start"@, opt_u32(p.start), "q"@);
        crate::http::lemma_form_value_opt_pair("num"@, opt_u32(p.num), "q"@);
        crate::http::lemma_form_value_pair("f"@, "json"@, "q"@);
        crate::http::lemma_form_value_opt_pair("token"@, token, "q"@);
        crate::http::lemma_form_value_append(c0, c1, "q"@);
        crate::http::lemma_form_value_append(c0 + c1, c2, "q"@);
        crate::http::lemma_form_value_append(c0 + c1 + c2, c3, "q"@);
        crate::http::lemma_form_value_append(c0 + c1 + c2 + c3, c4, "q"@);
        crate::http::lemma_form_value_append(c0 + c1 + c2 + c3 + c4, c5, "q"@);
        crate::http::lemma_form_value_append(c0 + c1 + c2 + c3 + c4 + c5, c6, "q"@);
    }
    assert(crate::http::form_value(form, "sortField"@) == p.sort_field.deep_view()) by {
        crate::http::lemma_form_value_pair("q"@, p.query@, "sortField"@);
        crate::http::lemma_form_value_opt_pair("sortField"@, p.sort_field.deep_view(), "sortField"@);
        crate::http::lemma_form_value_opt_pair("sortOrder"@, sort_param(p.sort_order), "sortField"@);
        crate::http::lemma_form_value_opt_pair("start"@, opt_u32(p.start), "sortField"@);
        crate::http::lemma_form_value_opt_pair("num"@, opt_u32(p.num), "sortField"@);
        crate::http::lemma_form_value_pair("f"@, "json"@, "sortField"@);
        crate::http::lemma_form_value_opt_pair("token"@, token, "sortField"@);
        crate::http::lemma_form_value_append(c0, c1, "sortField"@);
        crate::http::lemma_form_value_append(c0 + c1, c2, "sortField"@);
        crate::http::lemma_form_value_append(c0 + c1 + c2, c3, "sortField"@);
        crate::http::lemma_form_value_append(c0 + c1 + c2 + c3, c4, "sortField"@);
        crate::http::lemma_form_value_append(c0 + c1 + c2 + c3 + c4, c5, "sortField"@);
        crate::http::lemma_form_value_append(c0 + c1 + c2 + c3 + c4 + c5, c6, "sortField"@);
    }
    assert(crate::http::form_value(form, "sortOrder"@) == sort_param(p.sort_order)) by {
        crate::http::lemma_form_value_pair("q"@, p.query@, "sortOrder"@);
        crate::http::lemma_form_value_opt_pair("sortField"@, p.sort_field.deep_view(), "sortOrder"@);
        crate::http::lemma_form_value_opt_pair("sortOrder"@, sort_param(p.sort_order), "sortOrder"@);
        crate::http::lemma_form_value_opt_pair("start"@, opt_u32(p.start), "sortOrder"@);
        crate::http::lemma_form_value_opt_pair("num"@, opt_u32(p.num), "sortOrder"@);
        crate::http::lemma_form_value_pair("f"@, "json"@, "sortOrder"@);
        crate::http::lemma_form_value_opt_pair("token"@, token, "sortOrder"@);
        crate::http::lemma_form_value_append(c0, c1, "sortOrder"@);
        crate::http::lemma_form_value_append(c0 + c1, c2, "sortOrder"@);
        crate::http::lemma_form_value_append(c0 + c1 + c2, c3, "sortOrder"@);
        crate::http::lemma_form_value_append(c0 + c1 + c2 + c3, c4, "sortOrder"@);
        crate::http::lemma_form_value_append(c0 + c1 + c2 + c3 + c4, c5, "sortOrder"@);
        crate::http::lemma_form_value_append(c0 + c1 + c2 + c3 + c4 + c5, c6, "sortOrder"@);
    }
    assert(crate::http::form_value(form, "start"@) == opt_u32(p.start)) by {
        crate::http::lemma_form_value_pair("q"@, p.query@, "start"@);
        crate::http::lemma_form_value_opt_pair("sortField"@, p.sort_field.deep_view(), "start"@);
        crate::http::lemma_form_value_opt_pair("sortOrder"@, sort_param(p.sort_order), "start"@);
        crate::http::lemma_form_value_opt_pair("start"@, opt_u32(p.start), "start"@);
        crate::http::lemma_form_value_opt_pair("num"@, opt_u32(p.num), "start"@);
        crate::http::lemma_form_value_pair("f"@, "json"@, "start"@);
        crate::http::lemma_form_value_opt_pair("token"@, token, "start"@);
        crate::http::lemma_form_value_append(c0, c1, "start"@);
        crate::http::lemma_form_value_append(c0 + c1, c2, "start"@);
        crate::http::lemma_form_value_append(c0 + c1 + c2, c3, "start"@);
        crate::http::lemma_form_value_append(c0 + c1 + c2 + c3, c4, "start"@);
        crate::http::lemma_form_value_append(c0 + c1 + c2 + c3 + c4, c5, "start"@);
        crate::http::lemma_form_value_append(c0 + c1 + c2 + c3 + c4 + c5, c6, "start"@);
    }
    assert(crate::http::form_value(form, "num"@) == opt_u32(p.num)) by {
        crate::http::lemma_form_value_pair("q"@, p.query@, "num"@);
        crate::http::lemma_form_value_opt_pair("sortField"@, p.sort_field.deep_view(), "num"@);
        crate::http::lemma_form_value_opt_pair("sortOrder"@, sort_param(p.sort_order), "num"@);
        crate::http::lemma_form_value_opt_pair("start"@, opt_u32(p.start), "num"@);
        crate::http::lemma_form_value_opt_pair("num"@, opt_u32(p.num), "num"@);
        crate::http::lemma_form_value_pair("f"@, "json"@, "num"@);
        crate::http::lemma_form_value_opt_pair("token"@, token, "num"@);
        crate::http::lemma_form_value_append(c0, c1, "num"@);
        crate::http::lemma_form_value_append(c0 + c1, c2, "num"@);
        crate::http::lemma_form_value_append(c0 + c1 + c2, c3, "num"@);
        crate::http::lemma_form_value_append(c0 + c1 + c2 + c3, c4, "num"@);
        crate::http::lemma_form_value_append(c0 + c1 + c2 + c3 + c4, c5, "num"@);
        crate::http::lemma_form_value_append(c0 + c1 + c2 + c3 + c4 + c5, c6, "num"@);
    }
    assert(crate::http::form_value(form, "f"@) == Some("json"@)) by {
        crate::http::lemma_form_value_pair("q"@, p.query@, "f"@);
        crate::http::lemma_form_value_opt_pair("sortField"@, p.sort_field.deep_view(), "f"@);
        crate::http::lemma_form_value_opt_pair("sortOrder"@, sort_param(p.sort_order), "f"@);
        crate::http::lemma_form_value_opt_pair("start"@, opt_u32(p.start), "f"@);
        crate::http::lemma_form_value_opt_pair("num"@, opt_u32(p.num), "f"@);
        crate::http::lemma_form_value_pair("f"@, "json"@, "f"@);
        crate::http::lemma_form_value_opt_pair("token"@, token, "f"@);
        crate::http::lemma_form_value_append(c0, c1, "f"@);
        crate::http::lemma_form_value_append(c0 + c1, c2, "f"@);
        crate::http::lemma_form_value_append(c0 + c1 + c2, c3, "f"@);
        crate::http::lemma_form_value_append(c0 + c1 + c2 + c3, c4, "f"@);
        crate::http::lemma_form_value_append(c0 + c1 + c2 + c3 + c4, c5, "f"@);
        crate::http::lemma_form_value_append(c0 + c1 + c2 + c3 + c4 + c5, c6, "f"@);
    }
    assert(crate::http::form_value(form, "token"@) == token) by {
        crate::http::lemma_form_value_pair("q"@, p.query@, "token"@);
        crate::http::lemma_form_value_opt_pair("sortField"@, p.sort_field.deep_view(), "token"@);
        crate::http::lemma_form_value_opt_pair("sortOrder"@, sort_param(p.sort_order), "token"@);
        crate::http::lemma_form_value_opt_pair("start"@, opt_u32(p.start), "token"@);
        crate::http::lemma_form_value_opt_pair("num"@, opt_u32(p.num), "token"@);
        crate::http::lemma_form_value_pair("f"@, "json"@, "token"@);
        crate::http::lemma_form_value_opt_pair("token"@, token, "token"@);
        crate::http::lemma_form_value_append(c0, c1, "token"@);
        crate::http::lemma_form_value_append(c0 + c1, c2, "token"@);
        crate::http::lemma_form_value_append(c0 + c1 + c2, c3, "token"@);
        crate::http::lemma_form_value_append(c0 + c1 + c2 + c3, c4, "token"@);
        crate::http::lemma_form_value_append(c0 + c1 + c2 + c3 + c4, c5, "token"@);
        crate::http::lemma_form_value_append(c0 + c1 + c2 + c3 + c4 + c5, c6, "token"@);
    }
}

/// The fields `f`, `title`, `type`, `description` of `add_item_parts` carry the values built
/// from their own inputs: a required field is always present, an optional
/// one exactly when its input is given.
#[verifier::spinoff_prover]
pub proof fn lemma_add_item_parts_fields_1(p: AddItemParams, token: Option<Seq<char>>)
    ensures
        crate::http::form_value(add_item_parts(p, token), "f"@) == Some("json"@),
        crate::http::form_value(add_item_parts(p, token), "title"@) == Some(p.title@),
        crate::http::form_value(add_item_parts(p, token), "type"@) == Some(p.item_type@),
        crate::http::form_value(add_item_parts(p, token), "description"@) == p.description.deep_view(),
{
    reveal_strlit("access");
    reveal_strlit("categories");
    reveal_strlit("description");
    reveal_strlit("extent");
    reveal_strlit("f");
    reveal_strlit("json");
    reveal_strlit("properties");
    reveal_strlit("snippet");
    reveal_strlit("spatialReference");
    reveal_strlit("tags");
    reveal_strlit("title");
    reveal_strlit("token");
    reveal_strlit("type");
    reveal_strlit("typeKeywords");
    reveal_strlit("url");
    assert("f"@.len() != "title"@.len());
    assert("f"@.len() != "type"@.len());
    assert("f"@.len() != "description"@.len());
    assert("f"@.len() != "tags"@.len());
    assert("f"@.len() != "snippet"@.len());
    assert("f"@.len() != "categories"@.len());
    assert("f"@.len() != "typeKeywords"@.len());
    assert("f"@.len() != "url"@.len());
    assert("f"@.len() != "spatialReference"@.len());
    assert("f"@.len() != "extent"@.len());
    assert("f"@.len() != "access"@.len());
    assert("f"@.len() != "properties"@.len());
    assert("f"@.len() != "token"@.len());
    assert("title"@.len() != "type"@.len());
    assert("title"@.len() != "description"@.len());
    assert("title"@.len() != "tags"@.len());
    assert("title"@.len() != "snippet"@.len());
    assert("title"@.len() != "categories"@.len());
    assert("title"@.len() != "typeKeywords"@.len());
    assert("title"@.len() != "url"@.len());
    assert("title"@.len() != "spatialReference"@.len());
    assert("title"@.len() != "extent"@.len());
    assert("title"@.len() != "access"@.len());
    assert("title"@.len() != "properties"@.len());
    assert("title"@[1] != "token"@[1]);
    assert("type"@.len() != "description"@.len());
    assert("type"@[1] != "tags"@[1]);
    assert("type"@.len() != "snippet"@.len());
    assert("type"@.len() != "categories"@.len());
    assert("type"@.len() != "typeKeywords"@.len());
    assert("type"@.len() != "url"@.len());
    assert("type"@.len() != "spatialReference"@.len());
    assert("type"@.len() != "extent"@.len());
    assert("type"@.len() != "access"@.len());
    assert("type"@.len() != "properties"@.len());
    assert("type"@.len() != "token"@.len());
    assert("description"@.len() != "tags"@.len());
    assert("description"@.len() != "snippet"@.len());
    assert("description"@.len() != "categories"@.len());
    assert("description"@.len() != "typeKeywords"@.len());
    assert("description"@.len() != "url"@.len());
    assert("description"@.len() != "spatialReference"@.len());
    assert("description"@.len() != "extent"@.len());
    assert("description"@.len() != "access"@.len());
    assert("description"@.len() != "properties"@.len());
    assert("description"@.len() != "token"@.len());
    let c0 = pair("f"@, "json"@);
    let c1 = pair("title"@, p.title@);
    let c2 = pair("type"@, p.item_type@);
    let c3 = opt_pair("description"@, p.description.deep_view());
    let c4 = opt_pair("tags"@, opt_join(p.tags));
    let c5 = opt_pair("snippet"@, p.snippet.deep_view());
    let c6 = opt_pair("categories"@, opt_join(p.categories));
    let c7 = opt_pair("typeKeywords"@, opt_join(p.type_keywords));
    let c8 = opt_pair("url"@, p.url.deep_view());
    let c9 = opt_pair("spatialReference"@, opt_i32(p.spatial_reference));
    let c10 = opt_pair("extent"@, p.extent.deep_view());
    let c11 = opt_pair("access"@, p.access.deep_view());
    let c12 = opt_pair("properties"@, p.properties.deep_view());
    let c13 = opt_pair("token"@, token);
    let form = add_item_parts(p, token);
    assert(form == c0 + c1 + c2 + c3 + c4 + c5 + c6 + c7 + c8 + c9 + c10 + c11 + c12 + c13);
    assert(crate::http::form_value(form, "f"@) == Some("json"@)) by {
        crate::http::lemma_form_value_pair("f"@, "json"@, "f"@);
        crate::http::lemma_form_value_pair("title"@, p.title@, "f"@);
        crate::http::lemma_form_value_pair("type"@, p.item_type@, "f"@);
        crate::http::lemma_form_value_opt_pair("description"@, p.description.deep_view(), "f"@);
        crate::http::lemma_form_value_opt_pair("tags"@, opt_join(p.tags), "f"@);
        crate::http::lemma_form_value_opt_pair("snippet"@, p.snippet.deep_view(), "f"@);
        crate::http::lemma_form_value_opt_pair("categories"@, opt_join(p.categories), "f"@);
        crate::http::lemma_form_value_opt_pair("typeKeywords"@, opt_join(p.type_keywords), "f"@);
        crate::http::lemma_form_value_opt_pair("url"@, p.url.deep_view(), "f"@);
        crate::http::lemma_form_value_opt_pair("spatialReference"@, opt_i32(p.spatial_reference), "f"@);
        crate::http::lemma_form_value_opt_pair("extent"@, p.extent.deep_view(), "f"@);
        crate::http::lemma_form_value_opt_pair("access"@, p.access.deep_view(), "f"@);
        crate::http::lemma_form_value_opt_pair("properties"@, p.properties.deep_view(), "f"@);
        crate::http::lemma_form_value_opt_pair("token"@, token, "f"@);
        crate::http::lemma_form_value_append(c0, c1, "f"@);
        crate::http::lemma_form_value_append(c0 + c1, c2, "f"@);
        crate::http::lemma_form_value_append(c0 + c1 + c2, c3, "f"@);
        crate::http::lemma_form_value_append(c0 + c1 + c2 + c3, c4, "f"@);
        crate::http::lemma_form_value_append(c0 + c1 + c2 + c3 + c4, c5, "f"@);
        crate::http::lemma_form_value_append(c0 + c1 + c2 + c3 + c4 + c5, c6, "f"@);
        crate::http::lemma_form_value_append(c0 + c1 + c2 + c3 + c4 + c5 + c6, c7, "f"@);
        crate::http::lemma_form_value_append(c0 + c1 + c2 + c3 + c4 + c5 + c6 + c7, c8, "f"@);
        crate::http::lemma_form_value_append(c0 + c1 + c2 + c3 + c4 + c5 + c6 + c7 + c8, c9, "f"@);
        crate::http::lemma_form_value_append(c0 + c1 + c2 + c3 + c4 + c5 + c6 + c7 + c8 + c9, c10, "f"@);
        crate::http::lemma_form_value_append(c0 + c1 + c2 + c3 + c4 + c5 + c6 + c7 + c8 + c9 + c10, c11, "f"@);
        crate::http::lemma_form_value_append(c0 + c1 + c2 + c3 + c4 + c5 + c6 + c7 + c8 + c9 + c10 + c11, c12, "f"@);
        crate::http::lemma_form_value_append(c0 + c1 + c2 + c3 + c4 + c5 + c6 + c7 + c8 + c9 + c10 + c11 + c12, c13, "f"@);
    }
    assert(crate::http::form_value(form, "title"@) == Some(p.title@)) by {
        crate::http::lemma_form_value_pair("f"@, "json"@, "title"@);
        crate::http::lemma_form_value_pair("title"@, p.title@, "title"@);
        crate::http::lemma_form_value_pair("type"@, p.item_type@, "title"@);
        crate::http::lemma_form_value_opt_pair("description"@, p.description.deep_view(), "title"@);
        crate::http::lemma_form_value_opt_pair("tags"@, opt_join(p.tags), "title"@);
        crate::http::lemma_form_value_opt_pair("snippet"@, p.snippet.deep_view(), "title"@);
        crate::http::lemma_form_value_opt_pair("categories"@, opt_join(p.categories), "title"@);
        crate::http::lemma_form_value_opt_pair("typeKeywords"@, opt_join(p.type_keywords), "title"@);
        crate::http::lemma_form_value_opt_pair("url"@, p.url.deep_view(), "title"@);
        crate::http::lemma_form_value_opt_pair("spatialReference"@, opt_i32(p.spatial_reference), "title"@);
        crate::http::lemma_form_value_opt_pair("extent"@, p.extent.deep_view(), "title"@);
        crate::http::lemma_form_value_opt_pair("access"@, p.access.deep_view(), "title"@);
        crate::http::lemma_form_value_opt_pair("properties"@, p.properties.deep_view(), "title"@);
        crate::http::lemma_form_value_opt_pair("token"@, token, "title"@);
        crate::http::lemma_form_value_append(c0, c1, "title"@);
        crate::http::lemma_form_value_append(c0 + c1, c2, "title"@);
        crate::http::lemma_form_value_append(c0 + c1 + c2, c3, "title"@);
        crate::http::lemma_form_value_append(c0 + c1 + c2 + c3, c4, "title"@);
        crate::http::lemma_form_value_append(c0 + c1 + c2 + c3 + c4, c5, "title"@);
        crate::http::lemma_form_value_append(c0 + c1 + c2 + c3 + c4 + c5, c6, "title"@);
        crate::http::lemma_form_value_append(c0 + c1 + c2 + c3 + c4 + c5 + c6, c7, "title"@);
        crate::http::lemma_form_value_append(c0 + c1 + c2 + c3 + c4 + c5 + c6 + c7, c8, "title"@);
        crate::http::lemma_form_value_append(c0 + c1 + c2 + c3 + c4 + c5 + c6 + c7 + c8, c9, "title"@);
        crate::http::lemma_form_value_append(c0 + c1 + c2 + c3 + c4 + c5 + c6 + c7 + c8 + c9, c10, "title"@);
        crate::http::lemma_form_value_append(c0 + c1 + c2 + c3 + c4 + c5 + c6 + c7 + c8 + c9 + c10, c11, "title"@);
        crate::http::lemma_form_value_append(c0 + c1 + c2 + c3 + c4 + c5 + c6 + c7 + c8 + c9 + c10 + c11, c12, "title"@);
        crate::http::lemma_form_value_append(c0 + c1 + c2 + c3 + c4 + c5 + c6 + c7 + c8 + c9 + c10 + c11 + c12, c13, "title"@);
    }
    assert(crate::http::form_value(form, "type"@) == Some(p.item_type@)) by {
        crate::http::lemma_form_value_pair("f"@, "json"@, "type"@);
        crate::http::lemma_form_value_pair("title"@, p.title@, "type"@);
        crate::http::lemma_form_value_pair("type"@, p.item_type@, "type"@);
        crate::http::lemma_form_value_opt_pair("description"@, p.description.deep_view(), "type"@);
        crate::http::lemma_form_value_opt_pair("tags"@, opt_join(p.tags), "type"@);
        crate::http::lemma_form_value_opt_pair("snippet"@, p.snippet.deep_view(), "type"@);
        crate::http::lemma_form_value_opt_pair("categories"@, opt_join(p.categories), "type"@);
        crate::http::lemma_form_value_opt_pair("typeKeywords"@, opt_join(p.type_keywords), "type"@);
        crate::http::lemma_form_value_opt_pair("url"@, p.url.deep_view(), "type"@);
        crate::http::lemma_form_value_opt_pair("spatialReference"@, opt_i32(p.spatial_reference), "type"@);
        crate::http::lemma_form_value_opt_pair("extent"@, p.extent.deep_view(), "type"@);
        crate::http::lemma_form_value_opt_pair("access"@, p.access.deep_view(), "type"@);
        crate::http::lemma_form_value_opt_pair("properties"@, p.properties.deep_view(), "type"@);
        crate::http::lemma_form_value_opt_pair("token"@, token, "type"@);
        crate::http::lemma_form_value_append(c0, c1, "type"@);
        crate::http::lemma_form_value_append(c0 + c1, c2, "type"@);
        crate::http::lemma_form_value_append(c0 + c1 + c2, c3, "type"@);
        crate::http::lemma_form_value_append(c0 + c1 + c2 + c3, c4, "type"@);
        crate::http::lemma_form_value_append(c0 + c1 + c2 + c3 + c4, c5, "type"@);
        crate::http::lemma_form_value_append(c0 + c1 + c2 + c3 + c4 + c5, c6, "type"@);
        crate::http::lemma_form_value_append(c0 + c1 + c2 + c3 + c4 + c5 + c6, c7, "type"@);
        crate::http::lemma_form_value_append(c0 + c1 + c2 + c3 + c4 + c5 + c6 + c7, c8, "type"@);
        crate::http::lemma_form_value_append(c0 + c1 + c2 + c3 + c4 + c5 + c6 + c7 + c8, c9, "type"@);
        crate::http::lemma_form_value_append(c0 + c1 + c2 + c3 + c4 + c5 + c6 + c7 + c8 + c9, c10, "type"@);
        crate::http::lemma_form_value_append(c0 + c1 + c2 + c3 + c4 + c5 + c6 + c7 + c8 + c9 + c10, c11, "type"@);
        crate::http::lemma_form_value_append(c0 + c1 + c2 + c3 + c4 + c5 + c6 + c7 + c8 + c9 + c10 + c11, c12, "type"@);
        crate::http::lemma_form_value_append(c0 + c1 + c2 + c3 + c4 + c5 + c6 + c7 + c8 + c9 + c10 + c11 + c12, c13, "type"@);
    }
    assert(crate::http::form_value(form, "description"@) == p.description.deep_view()) by {
        crate::http::lemma_form_value_pair("f"@, "json"@, "description"@);
        crate::http::lemma_form_value_pair("title"@, p.title@, "description"@);
        crate::http::lemma_form_value_pair("type"@, p.item_type@, "description"@);
        crate::http::lemma_form_value_opt_pair("description"@, p.description.deep_view(), "description"@);
        crate::http::lemma_form_value_opt_pair("tags"@, opt_join(p.tags), "description"@);
        crate::http::lemma_form_value_opt_pair("snippet"@, p.snippet.deep_view(), "description"@);
        crate::http::lemma_form_value_opt_pair("categories"@, opt_join(p.categories), "description"@);
        crate::http::lemma_form_value_opt_pair("typeKeywords"@, opt_join(p.type_keywords), "description"@);
        crate::http::lemma_form_value_opt_pair("url"@, p.url.deep_view(), "description"@);
        crate::http::lemma_form_value_opt_pair("spatialReference"@, opt_i32(p.spatial_reference), "description"@);
        crate::http::lemma_form_value_opt_pair("extent"@, p.extent.deep_view(), "description"@);
        crate::http::lemma_form_value_opt_pair("access"@, p.access.deep_view(), "description"@);
        crate::http::lemma_form_value_opt_pair("properties"@, p.properties.deep_view(), "description"@);
        crate::http::lemma_form_value_opt_pair("token"@, token, "description"@);
        crate::http::lemma_form_value_append(c0, c1, "description"@);
        crate::http::lemma_form_value_append(c0 + c1, c2, "description"@);
        crate::http::lemma_form_value_append(c0 + c1 + c2, c3, "description"@);
        crate::http::lemma_form_value_append(c0 + c1 + c2 + c3, c4, "description"@);
        crate::http::lemma_form_value_append(c0 + c1 + c2 + c3 + c4, c5, "description"@);
        crate::http::lemma_form_value_append(c0 + c1 + c2 + c3 + c4 + c5, c6, "description"@);
        crate::http::lemma_form_value_append(c0 + c1 + c2 + c3 + c4 + c5 + c6, c7, "description"@);
        crate::http::lemma_form_value_append(c0 + c1 + c2 + c3 + c4 + c5 + c6 + c7, c8, "description"@);
        crate::http::lemma_form_value_append(c0 + c1 + c2 + c3 + c4 + c5 + c6 + c7 + c8, c9, "description"@);
        crate::http::lemma_form_value_append(c0 + c1 + c2 + c3 + c4 + c5 + c6 + c7 + c8 + c9, c10, "description"@);
        crate::http::lemma_form_value_append(c0 + c1 + c2 + c3 + c4 + c5 + c6 + c7 + c8 + c9 + c10, c11, "description"@);
        crate::http::lemma_form_value_append(c0 + c1 + c2 + c3 + c4 + c5 + c6 + c7 + c8 + c9 + c10 + c11, c12, "description"@);
        crate::http::lemma_form_value_append(c0 + c1 + c2 + c3 + c4 + c5 + c6 + c7 + c8 + c9 + c10 + c11 + c12, c13, "description"@);
    }
}

/// The fields `tags`, `snippet`, `categories`, `typeKeywords` of `add_item_parts` carry the values built
/// from their own inputs: a required field is always present, an optional
/// one exactly when its input is given.
#[verifier::spinoff_prover]
pub proof fn lemma_add_item_parts_fields_2(p: AddItemParams, token: Option<Seq<char>>)
    ensures
        crate::http::form_value(add_item_parts(p, token), "tags"@) == opt_join(p.tags),
        crate::http::form_value(add_item_parts(p, token), "snippet"@) == p.snippet.deep_view(),
        crate::http::form_value(add_item_parts(p, token), "categories"@) == opt_join(p.categories),
        crate::http::form_value(add_item_parts(p, token), "typeKeywords"@) == opt_join(p.type_keywords),
{
    reveal_strlit("access");
    reveal_strlit("categories");
    reveal_strlit("description");
    reveal_strlit("extent");
    reveal_strlit("f");
    reveal_strlit("json");
    reveal_strlit("properties");
    reveal_strlit("snippet");
    reveal_strlit("spatialReference");
    reveal_strlit("tags");
    reveal_strlit("title");
    reveal_strlit("token");
    reveal_strlit("type");
    reveal_strlit("typeKeywords");
    reveal_strlit("url");
    assert("f"@.len() != "tags"@.len());
    assert("f"@.len() != "snippet"@.len());
    assert("f"@.len() != "categories"@.len());
    assert("f"@.len() != "typeKeywords"@.len());
    assert("title"@.len() != "tags"@.len());
    assert("title"@.len() != "snippet"@.len());
    assert("title"@.len() != "categories"@.len());
    assert("title"@.len() != "typeKeywords"@.len());
    assert("type"@[1] != "tags"@[1]);
    assert("type"@.len() != "snippet"@.len());
    assert("type"@.len() != "categories"@.len());
    assert("type"@.len() != "typeKeywords"@.len());
    assert("description"@.len() != "tags"@.len());
    assert("description"@.len() != "snippet"@.len());
    assert("description"@.len() != "categories"@.len());
    assert("description"@.len() != "typeKeywords"@.len());
    assert("tags"@.len() != "snippet"@.len());
    assert("tags"@.len() != "categories"@.len());
    assert("tags"@.len() != "typeKeywords"@.len());
    assert("tags"@.len() != "url"@.len());
    assert("tags"@.len() != "spatialReference"@.len());
    assert("tags"@.len() != "extent"@.len());
    assert("tags"@.len() != "access"@.len());
    assert("tags"@.len() != "properties"@.len());
    assert("tags"@.len() != "token"@.len());
    assert("snippet"@.len() != "categories"@.len());
    assert("snippet"@.len() != "typeKeywords"@.len());
    assert("snippet"@.len() != "url"@.len());
    assert("snippet"@.len() != "spatialReference"@.len());
    assert("snippet"@.len() != "extent"@.len());
    assert("snippet"@.len() != "access"@.len());
    assert("snippet"@.len() != "properties"@.len());
    assert("snippet"@.len() != "token"@.len());
    assert("categories"@.len() != "typeKeywords"@.len());
    assert("categories"@.len() != "url"@.len());
    assert("categories"@.len() != "spatialReference"@.len());
    assert("categories"@.len() != "extent"@.len());
    assert("categories"@.len() != "access"@.len());
    assert("categories"@[0] != "properties"@[0]);
    assert("categories"@.len() != "token"@.len());
    assert("typeKeywords"@.len() != "url"@.len());
    assert("typeKeywords"@.len() != "spatialReference"@.len());
    assert("typeKeywords"@.len() != "extent"@.len());
    assert("typeKeywords"@.len() != "access"@.len());
    assert("typeKeywords"@.len() != "properties"@.len());
    assert("typeKeywords"@.len() != "token"@.len());
    let c0 = pair("f"@, "json"@);
    let c1 = pair("title"@, p.title@);
    let c2 = pair("type"@, p.item_type@);
    let c3 = opt_pair("description"@, p.description.deep_view());
    let c4 = opt_pair("tags"@, opt_join(p.tags));
    let c5 = opt_pair("snippet"@, p.snippet.deep_view());
    let c6 = opt_pair("categories"@, opt_join(p.categories));
    let c7 = opt_pair("typeKeywords"@, opt_join(p.type_keywords));
    let c8 = opt_pair("url"@, p.url.deep_view());
    let c9 = opt_pair("spatialReference"@, opt_i32(p.spatial_reference));
    let c10 = opt_pair("extent"@, p.extent.deep_view());
    let c11 = opt_pair("access"@, p.access.deep_view());
    let c12 = opt_pair("properties"@, p.properties.deep_view());
    let c13 = opt_pair("token"@, token);
    let form = add_item_parts(p, token);
    assert(form == c0 + c1 + c2 + c3 + c4 + c5 + c6 + c7 + c8 + c9 + c10 + c11 + c12 + c13);
    assert(crate::http::form_value(form, "tags"@) == opt_join(p.tags)) by {
        crate::http::lemma_form_value_pair("f"@, "json"@, "tags"@);
        crate::http::lemma_form_value_pair("title"@, p.title@, "tags"@);
        crate::http::lemma_form_value_pair("type"@, p.item_type@, "tags"@);
        crate::http::lemma_form_value_opt_pair("description"@, p.description.deep_view(), "tags"@);
        crate::http::lemma_form_value_opt_pair("tags"@, opt_join(p.tags), "tags"@);
        crate::http::lemma_form_value_opt_pair("snippet"@, p.snippet.deep_view(), "tags"@);
        crate::http::lemma_form_value_opt_pair("categories"@, opt_join(p.categories), "tags"@);
        crate::http::lemma_form_value_opt_pair("typeKeywords"@, opt_join(p.type_keywords), "tags"@);
        crate::http::lemma_form_value_opt_pair("url"@, p.url.deep_view(), "tags"@);
        crate::http::lemma_form_value_opt_pair("spatialReference"@, opt_i32(p.spatial_reference), "tags"@);
        crate::http::lemma_form_value_opt_pair("extent"@, p.extent.deep_view(), "tags"@);
        crate::http::lemma_form_value_opt_pair("access"@, p.access.deep_view(), "tags"@);
        crate::http::lemma_form_value_opt_pair("properties"@, p.properties.deep_view(), "tags"@);
        crate::http::lemma_form_value_opt_pair("token"@, token, "tags"@);
        crate::http::lemma_form_value_append(c0, c1, "tags"@);
        crate::http::lemma_form_value_append(c0 + c1, c2, "tags"@);
        crate::http::lemma_form_value_append(c0 + c1 + c2, c3, "tags"@);
        crate::http::lemma_form_value_append(c0 + c1 + c2 + c3, c4, "tags"@);
        crate::http::lemma_form_value_append(c0 + c1 + c2 + c3 + c4, c5, "tags"@);
        crate::http::lemma_form_value_append(c0 + c1 + c2 + c3 + c4 + c5, c6, "tags"@);
        crate::http::lemma_form_value_append(c0 + c1 + c2 + c3 + c4 + c5 + c6, c7, "tags"@);
        crate::http::lemma_form_value_append(c0 + c1 + c2 + c3 + c4 + c5 + c6 + c7, c8, "tags"@);
        crate::http::lemma_form_value_append(c0 + c1 + c2 + c3 + c4 + c5 + c6 + c7 + c8, c9, "tags"@);
        crate::http::lemma_form_value_append(c0 + c1 + c2 + c3 + c4 + c5 + c6 + c7 + c8 + c9, c10, "tags"@);
        crate::http::lemma_form_value_append(c0 + c1 + c2 + c3 + c4 + c5 + c6 + c7 + c8 + c9 + c10, c11, "tags"@);
        crate::http::lemma_form_value_append(c0 + c1 + c2 + c3 + c4 + c5 + c6 + c7 + c8 + c9 + c10 + c11, c12, "tags"@);
        crate::http::lemma_form_value_append(c0 + c1 + c2 + c3 + c4 + c5 + c6 + c7 + c8 + c9 + c10 + c11 + c12, c13, "tags"@);
    }
    assert(crate::http::form_value(form, "snippet"@) == p.snippet.deep_view()) by {
        crate::http::lemma_form_value_pair("f"@, "json"@, "snippet"@);
        crate::http::lemma_form_value_pair("title"@, p.title@, "snippet"@);
        crate::http::lemma_form_value_pair("type"@, p.item_type@, "snippet"@);
        crate::http::lemma_form_value_opt_pair("description"@, p.description.deep_view(), "snippet"@);
        crate::http::lemma_form_value_opt_pair("tags"@, opt_join(p.tags), "snippet"@);
        crate::http::lemma_form_value_opt_pair("snippet"@, p.snippet.deep_view(), "snippet"@);
        crate::http::lemma_form_value_opt_pair("categories"@, opt_join(p.categories), "snippet"@);
        crate::http::lemma_form_value_opt_pair("typeKeywords"@, opt_join(p.type_keywords), "snippet"@);
        crate::http::lemma_form_value_opt_pair("url"@, p.url.deep_view(), "snippet"@);
        crate::http::lemma_form_value_opt_pair("spatialReference"@, opt_i32(p.spatial_reference), "snippet"@);
        crate::http::lemma_form_value_opt_pair("extent"@, p.extent.deep_view(), "snippet"@);
        crate::http::lemma_form_value_opt_pair("access"@, p.access.deep_view(), "snippet"@);
        crate::http::lemma_form_value_opt_pair("properties"@, p.properties.deep_view(), "snippet"@);
        crate::http::lemma_form_value_opt_pair("token"@, token, "snippet"@);
        crate::http::lemma_form_value_append(c0, c1, "snippet"@);
        crate::http::lemma_form_value_append(c0 + c1, c2, "snippet"@);
        crate::http::lemma_form_value_append(c0 + c1 + c2, c3, "snippet"@);
        crate::http::lemma_form_value_append(c0 + c1 + c2 + c3, c4, "snippet"@);
        crate::http::lemma_form_value_append(c0 + c1 + c2 + c3 + c4, c5, "snippet"@);
        crate::http::lemma_form_value_append(c0 + c1 + c2 + c3 + c4 + c5, c6, "snippet"@);
        crate::http::lemma_form_value_append(c0 + c1 + c2 + c3 + c4 + c5 + c6, c7, "snippet"@);
        crate::http::lemma_form_value_append(c0 + c1 + c2 + c3 + c4 + c5 + c6 + c7, c8, "snippet"@);
        crate::http::lemma_form_value_append(c0 + c1 + c2 + c3 + c4 + c5 + c6 + c7 + c8, c9, "snippet"@);
        crate::http::lemma_form_value_append(c0 + c1 + c2 + c3 + c4 + c5 + c6 + c7 + c8 + c9, c10, "snippet"@);
        crate::http::lemma_form_value_append(c0 + c1 + c2 + c3 + c4 + c5 + c6 + c7 + c8 + c9 + c10, c11, "snippet"@);
        crate::http::lemma_form_value_append(c0 + c1 + c2 + c3 + c4 + c5 + c6 + c7 + c8 + c9 + c10 + c11, c12, "snippet"@);
        crate::http::lemma_form_value_append(c0 + c1 + c2 + c3 + c4 + c5 + c6 + c7 + c8 + c9 + c10 + c11 + c12, c13, "snippet"@);
    }
    assert(crate::http::form_value(form, "categories"@) == opt_join(p.categories)) by {
        crate::http::lemma_form_value_pair("f"@, "json"@, "categories"@);
        crate::http::lemma_form_value_pair("title"@, p.title@, "categories"@);
        crate::http::lemma_form_value_pair("type"@, p.item_type@, "categories"@);
        crate::http::lemma_form_value_opt_pair("description"@, p.description.deep_view(), "categories"@);
        crate::http::lemma_form_value_opt_pair("tags"@, opt_join(p.tags), "categories"@);
        crate::http::lemma_form_value_opt_pair("snippet"@, p.snippet.deep_view(), "categories"@);
        crate::http::lemma_form_value_opt_pair("categories"@, opt_join(p.categories), "categories"@);
        crate::http::lemma_form_value_opt_pair("typeKeywords"@, opt_join(p.type_keywords), "categories"@);
        crate::http::lemma_form_value_opt_pair("url"@, p.url.deep_view(), "categories"@);
        crate::http::lemma_form_value_opt_pair("spatialReference"@, opt_i32(p.spatial_reference), "categories"@);
        crate::http::lemma_form_value_opt_pair("extent"@, p.extent.deep_view(), "categories"@);
        crate::http::lemma_form_value_opt_pair("access"@, p.access.deep_view(), "categories"@);
        crate::http::lemma_form_value_opt_pair("properties"@, p.properties.deep_view(), "categories"@);
        crate::http::lemma_form_value_opt_pair("token"@, token, "categories"@);
        crate::http::lemma_form_value_append(c0, c1, "categories"@);
        crate::http::lemma_form_value_append(c0 + c1, c2, "categories"@);
        crate::http::lemma_form_value_append(c0 + c1 + c2, c3, "categories"@);
        crate::http::lemma_form_value_append(c0 + c1 + c2 + c3, c4, "categories"@);
        crate::http::lemma_form_value_append(c0 + c1 + c2 + c3 + c4, c5, "categories"@);
        crate::http::lemma_form_value_append(c0 + c1 + c2 + c3 + c4 + c5, c6, "categories"@);
        crate::http::lemma_form_value_append(c0 + c1 + c2 + c3 + c4 + c5 + c6, c7, "categories"@);
        crate::http::lemma_form_value_append(c0 + c1 + c2 + c3 + c4 + c5 + c6 + c7, c8, "categories"@);
        crate::http::lemma_form_value_append(c0 + c1 + c2 + c3 + c4 + c5 + c6 + c7 + c8, c9, "categories"@);
        crate::http::lemma_form_value_append(c0 + c1 + c2 + c3 + c4 + c5 + c6 + c7 + c8 + c9, c10, "categories"@);
        crate::http::lemma_form_value_append(c0 + c1 + c2 + c3 + c4 + c5 + c6 + c7 + c8 + c9 + c10, c11, "categories"@);
        crate::http::lemma_form_value_append(c0 + c1 + c2 + c3 + c4 + c5 + c6 + c7 + c8 + c9 + c10 + c11, c12, "categories"@);
        crate::http::lemma_form_value_append(c0 + c1 + c2 + c3 + c4 + c5 + c6 + c7 + c8 + c9 + c10 + c11 + c12, c13, "categories"@);
    }
    assert(crate::http::form_value(form, "typeKeywords"@) == opt_join(p.type_keywords)) by {
        crate::http::lemma_form_value_pair("f"@, "json"@, "typeKeywords"@);
        crate::http::lemma_form_value_pair("title"@, p.title@, "typeKeywords"@);
        crate::http::lemma_form_value_pair("type"@, p.item_type@, "typeKeywords"@);
        crate::http::lemma_form_value_opt_pair("description"@, p.description.deep_view(), "typeKeywords"@);
        crate::http::lemma_form_value_opt_pair("tags"@, opt_join(p.tags), "typeKeywords"@);
        crate::http::lemma_form_value_opt_pair("snippet"@, p.snippet.deep_view(), "typeKeywords"@);
        crate::http::lemma_form_value_opt_pair("categories"@, opt_join(p.categories), "typeKeywords"@);
        crate::http::lemma_form_value_opt_pair("typeKeywords"@, opt_join(p.type_keywords), "typeKeywords"@);
        crate::http::lemma_form_value_opt_pair("url"@, p.url.deep_view(), "typeKeywords"@);
        crate::http::lemma_form_value_opt_pair("spatialReference"@, opt_i32(p.spatial_reference), "typeKeywords"@);
        crate::http::lemma_form_value_opt_pair("extent"@, p.extent.deep_view(), "typeKeywords"@);
        crate::http::lemma_form_value_opt_pair("access"@, p.access.deep_view(), "typeKeywords"@);
        crate::http::lemma_form_value_opt_pair("properties"@, p.properties.deep_view(), "typeKeywords"@);
        crate::http::lemma_form_value_opt_pair("token"@, token, "typeKeywords"@);
        crate::http::lemma_form_value_append(c0, c1, "typeKeywords"@);
        crate::http::lemma_form_value_append(c0 + c1, c2, "typeKeywords"@);
        crate::http::lemma_form_value_append(c0 + c1 + c2, c3, "typeKeywords"@);
        crate::http::lemma_form_value_append(c0 + c1 + c2 + c3, c4, "typeKeywords"@);
        crate::http::lemma_form_value_append(c0 + c1 + c2 + c3 + c4, c5, "typeKeywords"@);
        crate::http::lemma_form_value_append(c0 + c1 + c2 + c3 + c4 + c5, c6, "typeKeywords"@);
        crate::http::lemma_form_value_append(c0 + c1 + c2 + c3 + c4 + c5 + c6, c7, "typeKeywords"@);
        crate::http::lemma_form_value_append(c0 + c1 + c2 + c3 + c4 + c5 + c6 + c7, c8, "typeKeywords"@);
        crate::http::lemma_form_value_append(c0 + c1 + c2 + c3 + c4 + c5 + c6 + c7 + c8, c9, "typeKeywords"@);
        crate::http::lemma_form_value_append(c0 + c1 + c2 + c3 + c4 + c5 + c6 + c7 + c8 + c9, c10, "typeKeywords"@);
        crate::http::lemma_form_value_append(c0 + c1 + c2 + c3 + c4 + c5 + c6 + c7 + c8 + c9 + c10, c11, "typeKeywords"@);
        crate::http::lemma_form_value_append(c0 + c1 + c2 + c3 + c4 + c5 + c6 + c7 + c8 + c9 + c10 + c11, c12, "typeKeywords"@);
        crate::http::lemma_form_value_append(c0 + c1 + c2 + c3 + c4 + c5 + c6 + c7 + c8 + c9 + c10 + c11 + c12, c13, "typeKeywords"@);
    }
}

/// The fields `url`, `spatialReference`, `extent`, `access` of `add_item_parts` carry the values built
/// from their own inputs: a required field is always present, an optional
/// one exactly when its input is given.
#[verifier::spinoff_prover]
pub proof fn lemma_add_item_parts_fields_3(p: AddItemParams, token: Option<Seq<char>>)
    ensures
        crate::http::form_value(add_item_parts(p, token), "url"@) == p.url.deep_view(),
        crate::http::form_value(add_item_parts(p, token), "spatialReference"@) == opt_i32(p.spatial_reference),
        crate::http::form_value(add_item_parts(p, token), "extent"@) == p.extent.deep_view(),
        crate::http::form_value(add_item_parts(p, token), "access"@) == p.access.deep_view(),
{
    reveal_strlit("access");
    reveal_strlit("categories");
    reveal_strlit("description");
    reveal_strlit("extent");
    reveal_strlit("f");
    reveal_strlit("json");
    reveal_strlit("properties");
    reveal_strlit("snippet");
    reveal_strlit("spatialReference");
    reveal_strlit("tags");
    reveal_strlit("title");
    reveal_strlit("token");
    reveal_strlit("type");
    reveal_strlit("typeKeywords");
    reveal_strlit("url");
    assert("f"@.len() != "url"@.len());
    assert("f"@.len() != "spatialReference"@.len());
    assert("f"@.len() != "extent"@.len());
    assert("f"@.len() != "access"@.len());
    assert("title"@.len() != "url"@.len());
    assert("title"@.len() != "spatialReference"@.len());
    assert("title"@.len() != "extent"@.len());
    assert("title"@.len() != "access"@.len());
    assert("type"@.len() != "url"@.len());
    assert("type"@.len() != "spatialReference"@.len());
    assert("type"@.len() != "extent"@.len());
    assert("type"@.len() != "access"@.len());
    assert("description"@.len() != "url"@.len());
    assert("description"@.len() != "spatialReference"@.len());
    assert("description"@.len() != "extent"@.len());
    assert("description"@.len() != "access"@.len());
    assert("tags"@.len() != "url"@.len());
    assert("tags"@.len() != "spatialReference"@.len());
    assert("tags"@.len() != "extent"@.len());
    assert("tags"@.len() != "access"@.len());
    assert("snippet"@.len() != "url"@.len());
    assert("snippet"@.len() != "spatialReference"@.len());
    assert("snippet"@.len() != "extent"@.len());
    assert("snippet"@.len() != "access"@.len());
    assert("categories"@.len() != "url"@.len());
    assert("categories"@.len() != "spatialReference"@.len());
    assert("categories"@.len() != "extent"@.len());
    assert("categories"@.len() != "access"@.len());
    assert("typeKeywords"@.len() != "url"@.len());
    assert("typeKeywords"@.len() != "spatialReference"@.len());
    assert("typeKeywords"@.len() != "extent"@.len());
    assert("typeKeywords"@.len() != "access"@.len());
    assert("url"@.len() != "spatialReference"@.len());
    assert("url"@.len() != "extent"@.len());
    assert("url"@.len() != "access"@.len());
    assert("url"@.len() != "properties"@.len());
    assert("url"@.len() != "token"@.len());
    assert("spatialReference"@.len() != "extent"@.len());
    assert("spatialReference"@.len() != "access"@.len());
    assert("spatialReference"@.len() != "properties"@.len());
    assert("spatialReference"@.len() != "token"@.len());
    assert("extent"@[0] != "access"@[0]);
    assert("extent"@.len() != "properties"@.len());
    assert("extent"@.len() != "token"@.len());
    assert("access"@.len() != "properties"@.len());
    assert("access"@.len() != "token"@.len());
    let c0 = pair("f"@, "json"@);
    let c1 = pair("title"@, p.title@);
    let c2 = pair("type"@, p.item_type@);
    let c3 = opt_pair("description"@, p.description.deep_view());
    let c4 = opt_pair("tags"@, opt_join(p.tags));
    let c5 = opt_pair("snippet"@, p.snippet.deep_view());
    let c6 = opt_pair("categories"@, opt_join(p.categories));
    let c7 = opt_pair("typeKeywords"@, opt_join(p.type_keywords));
    let c8 = opt_pair("url"@, p.url.deep_view());
    let c9 = opt_pair("spatialReference"@, opt_i32(p.spatial_reference));
    let c10 = opt_pair("extent"@, p.extent.deep_view());
    let c11 = opt_pair("access"@, p.access.deep_view());
    let c12 = opt_pair("properties"@, p.properties.deep_view());
    let c13 = opt_pair("token"@, token);
    let form = add_item_parts(p, token);
    assert(form == c0 + c1 + c2 + c3 + c4 + c5 + c6 + c7 + c8 + c9 + c10 + c11 + c12 + c13);
    assert(crate::http::form_value(form, "url"@) == p.url.deep_view()) by {
        crate::http::lemma_form_value_pair("f"@, "json"@, "url"@);
        crate::http::lemma_form_value_pair("title"@, p.title@, "url"@);
        crate::http::lemma_form_value_pair("type"@, p.item_type@, "url"@);
        crate::http::lemma_form_value_opt_pair("description"@, p.description.deep_view(), "url"@);
        crate::http::lemma_form_value_opt_pair("tags"@, opt_join(p.tags), "url"@);
        crate::http::lemma_form_value_opt_pair("snippet"@, p.snippet.deep_view(), "url"@);
        crate::http::lemma_form_value_opt_pair("categories"@, opt_join(p.categories), "url"@);
        crate::http::lemma_form_value_opt_pair("typeKeywords"@, opt_join(p.type_keywords), "url"@);
        crate::http::lemma_form_value_opt_pair("url"@, p.url.deep_view(), "url"@);
        crate::http::lemma_form_value_opt_pair("spatialReference"@, opt_i32(p.spatial_reference), "url"@);
        crate::http::lemma_form_value_opt_pair("extent"@, p.extent.deep_view(), "url"@);
        crate::http::lemma_form_value_opt_pair("access"@, p.access.deep_view(), "url"@);
        crate::http::lemma_form_value_opt_pair("properties"@, p.properties.deep_view(), "url"@);
        crate::http::lemma_form_value_opt_pair("token"@, token, "url"@);
        crate::http::lemma_form_value_append(c0, c1, "url"@);
        crate::http::lemma_form_value_append(c0 + c1, c2, "url"@);
        crate::http::lemma_form_value_append(c0 + c1 + c2, c3, "url"@);
        crate::http::lemma_form_value_append(c0 + c1 + c2 + c3, c4, "url"@);
        crate::http::lemma_form_value_append(c0 + c1 + c2 + c3 + c4, c5, "url"@);
        crate::http::lemma_form_value_append(c0 + c1 + c2 + c3 + c4 + c5, c6, "url"@);
        crate::http::lemma_form_value_append(c0 + c1 + c2 + c3 + c4 + c5 + c6, c7, "url"@);
        crate::http::lemma_form_value_append(c0 + c1 + c2 + c3 + c4 + c5 + c6 + c7, c8, "url"@);
        crate::http::lemma_form_value_append(c0 + c1 + c2 + c3 + c4 + c5 + c6 + c7 + c8, c9, "url"@);
        crate::http::lemma_form_value_append(c0 + c1 + c2 + c3 + c4 + c5 + c6 + c7 + c8 + c9, c10, "url"@);
        crate::http::lemma_form_value_append(c0 + c1 + c2 + c3 + c4 + c5 + c6 + c7 + c8 + c9 + c10, c11, "url"@);
        crate::http::lemma_form_value_append(c0 + c1 + c2 + c3 + c4 + c5 + c6 + c7 + c8 + c9 + c10 + c11, c12, "url"@);
        crate::http::lemma_form_value_append(c0 + c1 + c2 + c3 + c4 + c5 + c6 + c7 + c8 + c9 + c10 + c11 + c12, c13, "url"@);
    }
    assert(crate::http::form_value(form, "spatialReference"@) == opt_i32(p.spatial_reference)) by {
        crate::http::lemma_form_value_pair("f"@, "json"@, "spatialReference"@);
        crate::http::lemma_form_value_pair("title"@, p.title@, "spatialReference"@);
        crate::http::lemma_form_value_pair("type"@, p.item_type@, "spatialReference"@);
        crate::http::lemma_form_value_opt_pair("description"@, p.description.deep_view(), "spatialReference"@);
        crate::http::lemma_form_value_opt_pair("tags"@, opt_join(p.tags), "spatialReference"@);
        crate::http::lemma_form_value_opt_pair("snippet"@, p.snippet.deep_view(), "spatialReference"@);
        crate::http::lemma_form_value_opt_pair("categories"@, opt_join(p.categories), "spatialReference"@);
        crate::http::lemma_form_value_opt_pair("typeKeywords"@, opt_join(p.type_keywords), "spatialReference"@);
        crate::http::lemma_form_value_opt_pair("url"@, p.url.deep_view(), "spatialReference"@);
        crate::http::lemma_form_value_opt_pair("spatialReference"@, opt_i32(p.spatial_reference), "spatialReference"@);
        crate::http::lemma_form_value_opt_pair("extent"@, p.extent.deep_view(), "spatialReference"@);
        crate::http::lemma_form_value_opt_pair("access"@, p.access.deep_view(), "spatialReference"@);
        crate::http::lemma_form_value_opt_pair("properties"@, p.properties.deep_view(), "spatialReference"@);
        crate::http::lemma_form_value_opt_pair("token"@, token, "spatialReference"@);
        crate::http::lemma_form_value_append(c0, c1, "spatialReference"@);
        crate::http::lemma_form_value_append(c0 + c1, c2, "spatialReference"@);
        crate::http::lemma_form_value_append(c0 + c1 + c2, c3, "spatialReference"@);
        crate::http::lemma_form_value_append(c0 + c1 + c2 + c3, c4, "spatialReference"@);
        crate::http::lemma_form_value_append(c0 + c1 + c2 + c3 + c4, c5, "spatialReference"@);
        crate::http::lemma_form_value_append(c0 + c1 + c2 + c3 + c4 + c5, c6, "spatialReference"@);
        crate::http::lemma_form_value_append(c0 + c1 + c2 + c3 + c4 + c5 + c6, c7, "spatialReference"@);
        crate::http::lemma_form_value_append(c0 + c1 + c2 + c3 + c4 + c5 + c6 + c7, c8, "spatialReference"@);
        crate::http::lemma_form_value_append(c0 + c1 + c2 + c3 + c4 + c5 + c6 + c7 + c8, c9, "spatialReference"@);
        crate::http::lemma_form_value_append(c0 + c1 + c2 + c3 + c4 + c5 + c6 + c7 + c8 + c9, c10, "spatialReference"@);
        crate::http::lemma_form_value_append(c0 + c1 + c2 + c3 + c4 + c5 + c6 + c7 + c8 + c9 + c10, c11, "spatialReference"@);
        crate::http::lemma_form_value_append(c0 + c1 + c2 + c3 + c4 + c5 + c6 + c7 + c8 + c9 + c10 + c11, c12, "spatialReference"@);
        crate::http::lemma_form_value_append(c0 + c1 + c2 + c3 + c4 + c5 + c6 + c7 + c8 + c9 + c10 + c11 + c12, c13, "spatialReference"@);
    }
    assert(crate::http::form_value(form, "extent"@) == p.extent.deep_view()) by {
        crate::http::lemma_form_value_pair("f"@, "json"@, "extent"@);
        crate::http::lemma_form_value_pair("title"@, p.title@, "extent"@);
        crate::http::lemma_form_value_pair("type"@, p.item_type@, "extent"@);
        crate::http::lemma_form_value_opt_pair("description"@, p.description.deep_view(), "extent"@);
        crate::http::lemma_form_value_opt_pair("tags"@, opt_join(p.tags), "extent"@);
        crate::http::lemma_form_value_opt_pair("snippet"@, p.snippet.deep_view(), "extent"@);
        crate::http::lemma_form_value_opt_pair("categories"@, opt_join(p.categories), "extent"@);
        crate::http::lemma_form_value_opt_pair("typeKeywords"@, opt_join(p.type_keywords), "extent"@);
        crate::http::lemma_form_value_opt_pair("url"@, p.url.deep_view(), "extent"@);
        crate::http::lemma_form_value_opt_pair("spatialReference"@, opt_i32(p.spatial_reference), "extent"@);
        crate::http::lemma_form_value_opt_pair("extent"@, p.extent.deep_view(), "extent"@);
        crate::http::lemma_form_value_opt_pair("access"@, p.access.deep_view(), "extent"@);
        crate::http::lemma_form_value_opt_pair("properties"@, p.properties.deep_view(), "extent"@);
        crate::http::lemma_form_value_opt_pair("token"@, token, "extent"@);
        crate::http::lemma_form_value_append(c0, c1, "extent"@);
        crate::http::lemma_form_value_append(c0 + c1, c2, "extent"@);
        crate::http::lemma_form_value_append(c0 + c1 + c2, c3, "extent"@);
        crate::http::lemma_form_value_append(c0 + c1 + c2 + c3, c4, "extent"@);
        crate::http::lemma_form_value_append(c0 + c1 + c2 + c3 + c4, c5, "extent"@);
        crate::http::lemma_form_value_append(c0 + c1 + c2 + c3 + c4 + c5, c6, "extent"@);
        crate::http::lemma_form_value_append(c0 + c1 + c2 + c3 + c4 + c5 + c6, c7, "extent"@);
        crate::http::lemma_form_value_append(c0 + c1 + c2 + c3 + c4 + c5 + c6 + c7, c8, "extent"@);
        crate::http::lemma_form_value_append(c0 + c1 + c2 + c3 + c4 + c5 + c6 + c7 + c8, c9, "extent"@);
        crate::http::lemma_form_value_append(c0 + c1 + c2 + c3 + c4 + c5 + c6 + c7 + c8 + c9, c10, "extent"@);
        crate::http::lemma_form_value_append(c0 + c1 + c2 + c3 + c4 + c5 + c6 + c7 + c8 + c9 + c10, c11, "extent"@);
        crate::http::lemma_form_value_append(c0 + c1 + c2 + c3 + c4 + c5 + c6 + c7 + c8 + c9 + c10 + c11, c12, "extent"@);
        crate::http::lemma_form_value_append(c0 + c1 + c2 + c3 + c4 + c5 + c6 + c7 + c8 + c9 + c10 + c11 + c12, c13, "extent"@);
    }
    assert(crate::http::form_value(form, "access"@) == p.access.deep_view()) by {
        crate::http::lemma_form_value_pair("f"@, "json"@, "access"@);
        crate::http::lemma_form_value_pair("title"@, p.title@, "access"@);
        crate::http::lemma_form_value_pair("type"@, p.item_type@, "access"@);
        crate::http::lemma_form_value_opt_pair("description"@, p.description.deep_view(), "access"@);
        crate::http::lemma_form_value_opt_pair("tags"@, opt_join(p.tags), "access"@);
        crate::http::lemma_form_value_opt_pair("snippet"@, p.snippet.deep_view(), "access"@);
        crate::http::lemma_form_value_opt_pair("categories"@, opt_join(p.categories), "access"@);
        crate::http::lemma_form_value_opt_pair("typeKeywords"@, opt_join(p.type_keywords), "access"@);
        crate::http::lemma_form_value_opt_pair("url"@, p.url.deep_view(), "access"@);
        crate::http::lemma_form_value_opt_pair("spatialReference"@, opt_i32(p.spatial_reference), "access"@);
        crate::http::lemma_form_value_opt_pair("extent"@, p.extent.deep_view(), "access"@);
        crate::http::lemma_form_value_opt_pair("access"@, p.access.deep_view(), "access"@);
        crate::http::lemma_form_value_opt_pair("properties"@, p.properties.deep_view(), "access"@);
        crate::http::lemma_form_value_opt_pair("token"@, token, "access"@);
        crate::http::lemma_form_value_append(c0, c1, "access"@);
        crate::http::lemma_form_value_append(c0 + c1, c2, "access"@);
        crate::http::lemma_form_value_append(c0 + c1 + c2, c3, "access"@);
        crate::http::lemma_form_value_append(c0 + c1 + c2 + c3, c4, "access"@);
        crate::http::lemma_form_value_append(c0 + c1 + c2 + c3 + c4, c5, "access"@);
        crate::http::lemma_form_value_append(c0 + c1 + c2 + c3 + c4 + c5, c6, "access"@);
        crate::http::lemma_form_value_append(c0 + c1 + c2 + c3 + c4 + c5 + c6, c7, "access"@);
        crate::http::lemma_form_value_append(c0 + c1 + c2 + c3 + c4 + c5 + c6 + c7, c8, "access"@);
        crate::http::lemma_form_value_append(c0 + c1 + c2 + c3 + c4 + c5 + c6 + c7 + c8, c9, "access"@);
        crate::http::lemma_form_value_append(c0 + c1 + c2 + c3 + c4 + c5 + c6 + c7 + c8 + c9, c10, "access"@);
        crate::http::lemma_form_value_append(c0 + c1 + c2 + c3 + c4 + c5 + c6 + c7 + c8 + c9 + c10, c11, "access"@);
        crate::http::lemma_form_value_append(c0 + c1 + c2 + c3 + c4 + c5 + c6 + c7 + c8 + c9 + c10 + c11, c12, "access"@);
        crate::http::lemma_form_value_append(c0 + c1 + c2 + c3 + c4 + c5 + c6 + c7 + c8 + c9 + c10 + c11 + c12, c13, "access"@);
    }
}

/// The fields `properties`, `token` of `add_item_parts` carry the values built
/// from their own inputs: a required field is always present, an optional
/// one exactly when its input is given.
#[verifier::spinoff_prover]
pub proof fn lemma_add_item_parts_fields_4(p: AddItemParams, token: Option<Seq<char>>)
    ensures
        crate::http::form_value(add_item_parts(p, token), "properties"@) == p.properties.deep_view(),
        crate::http::form_value(add_item_parts(p, token), "token"@) == token,
{
    reveal_strlit("access");
    reveal_strlit("categories");
    reveal_strlit("description");
    reveal_strlit("extent");
    reveal_strlit("f");
    reveal_strlit("json");
    reveal_strlit("properties");
    reveal_strlit("snippet");
    reveal_strlit("spatialReference");
    reveal_strlit("tags");
    reveal_strlit("title");
    reveal_strlit("token");
    reveal_strlit("type");
    reveal_strlit("typeKeywords");
    reveal_strlit("url");
    assert("f"@.len() != "properties"@.len());
    assert("f"@.len() != "token"@.len());
    assert("title"@.len() != "properties"@.len());
    assert("title"@[1] != "token"@[1]);
    assert("type"@.len() != "properties"@.len());
    assert("type"@.len() != "token"@.len());
    assert("description"@.len() != "properties"@.len());
    assert("description"@.len() != "token"@.len());
    assert("tags"@.len() != "properties"@.len());
    assert("tags"@.len() != "token"@.len());
    assert("snippet"@.len() != "properties"@.len());
    assert("snippet"@.len() != "token"@.len());
    assert("categories"@[0] != "properties"@[0]);
    assert("categories"@.len() != "token"@.len());
    assert("typeKeywords"@.len() != "properties"@.len());
    assert("typeKeywords"@.len() != "token"@.len());
    assert("url"@.len() != "properties"@.len());
    assert("url"@.len() != "token"@.len());
    assert("spatialReference"@.len() != "properties"@.len());
    assert("spatialReference"@.len() != "token"@.len());
    assert("extent"@.len() != "properties"@.len());
    assert("extent"@.len() != "token"@.len());
    assert("access"@.len() != "properties"@.len());
    assert("access"@.len() != "token"@.len());
    assert("properties"@.len() != "token"@.len());
    let c0 = pair("f"@, "json"@);
    let c1 = pair("title"@, p.title@);
    let c2 = pair("type"@, p.item_type@);
    let c3 = opt_pair("description"@, p.description.deep_view());
    let c4 = opt_pair("tags"@, opt_join(p.tags));
    let c5 = opt_pair("snippet"@, p.snippet.deep_view());
    let c6 = opt_pair("categories"@, opt_join(p.categories));
    let c7 = opt_pair("typeKeywords"@, opt_join(p.type_keywords));
    let c8 = opt_pair("url"@, p.url.deep_view());
    let c9 = opt_pair("spatialReference"@, opt_i32(p.spatial_reference));
    let c10 = opt_pair("extent"@, p.extent.deep_view());
    let c11 = opt_pair("access"@, p.access.deep_view());
    let c12 = opt_pair("properties"@, p.properties.deep_view());
    let c13 = opt_pair("token"@, token);
    let form = add_item_parts(p, token);
    assert(form == c0 + c1 + c2 + c3 + c4 + c5 + c6 + c7 + c8 + c9 + c10 + c11 + c12 + c13);
    assert(crate::http::form_value(form, "properties"@) == p.properties.deep_view()) by {
        crate::http::lemma_form_value_pair("f"@, "json"@, "properties"@);
        crate::http::lemma_form_value_pair("title"@, p.title@, "properties"@);
        crate::http::lemma_form_value_pair("type"@, p.item_type@, "properties"@);
        crate::http::lemma_form_value_opt_pair("description"@, p.description.deep_view(), "properties"@);
        crate::http::lemma_form_value_opt_pair("tags"@, opt_join(p.tags), "properties"@);
        crate::http::lemma_form_value_opt_pair("snippet"@, p.snippet.deep_view(), "properties"@);
        crate::http::lemma_form_value_opt_pair("categories"@, opt_join(p.categories), "properties"@);
        crate::http::lemma_form_value_opt_pair("typeKeywords"@, opt_join(p.type_keywords), "properties"@);
        crate::http::lemma_form_value_opt_pair("url"@, p.url.deep_view(), "properties"@);
        crate::http::lemma_form_value_opt_pair("spatialReference"@, opt_i32(p.spatial_reference), "properties"@);
        crate::http::lemma_form_value_opt_pair("extent"@, p.extent.deep_view(), "properties"@);
        crate::http::lemma_form_value_opt_pair("access"@, p.access.deep_view(), "properties"@);
        crate::http::lemma_form_value_opt_pair("properties"@, p.properties.deep_view(), "properties"@);
        crate::http::lemma_form_value_opt_pair("token"@, token, "properties"@);
        crate::http::lemma_form_value_append(c0, c1, "properties"@);
        crate::http::lemma_form_value_append(c0 + c1, c2, "properties"@);
        crate::http::lemma_form_value_append(c0 + c1 + c2, c3, "properties"@);
        crate::http::lemma_form_value_append(c0 + c1 + c2 + c3, c4, "properties"@);
        crate::http::lemma_form_value_append(c0 + c1 + c2 + c3 + c4, c5, "properties"@);
        crate::http::lemma_form_value_append(c0 + c1 + c2 + c3 + c4 + c5, c6, "properties"@);
        crate::http::lemma_form_value_append(c0 + c1 + c2 + c3 + c4 + c5 + c6, c7, "properties"@);
        crate::http::lemma_form_value_append(c0 + c1 + c2 + c3 + c4 + c5 + c6 + c7, c8, "properties"@);
        crate::http::lemma_form_value_append(c0 + c1 + c2 + c3 + c4 + c5 + c6 + c7 + c8, c9, "properties"@);
        crate::http::lemma_form_value_append(c0 + c1 + c2 + c3 + c4 + c5 + c6 + c7 + c8 + c9, c10, "properties"@);
        crate::http::lemma_form_value_append(c0 + c1 + c2 + c3 + c4 + c5 + c6 + c7 + c8 + c9 + c10, c11, "properties"@);
        crate::http::lemma_form_value_append(c0 + c1 + c2 + c3 + c4 + c5 + c6 + c7 + c8 + c9 + c10 + c11, c12, "properties"@);
        crate::http::lemma_form_value_append(c0 + c1 + c2 + c3 + c4 + c5 + c6 + c7 + c8 + c9 + c10 + c11 + c12, c13, "properties"@);
    }
    assert(crate::http::form_value(form, "token"@) == token) by {
        crate::http::lemma_form_value_pair("f"@, "json"@, "token"@);
        crate::http::lemma_form_value_pair("title"@, p.title@, "token"@);
        crate::http::lemma_form_value_pair("type"@, p.item_type@, "token"@);
        crate::http::lemma_form_value_opt_pair("description"@, p.description.deep_view(), "token"@);
        crate::http::lemma_form_value_opt_pair("tags"@, opt_join(p.tags), "token"@);
        crate::http::lemma_form_value_opt_pair("snippet"@, p.snippet.deep_view(), "token"@);
        crate::http::lemma_form_value_opt_pair("categories"@, opt_join(p.categories), "token"@);
        crate::http::lemma_form_value_opt_pair("typeKeywords"@, opt_join(p.type_keywords), "token"@);
        crate::http::lemma_form_value_opt_pair("url"@, p.url.deep_view(), "token"@);
        crate::http::lemma_form_value_opt_pair("spatialReference"@, opt_i32(p.spatial_reference), "token"@);
        crate::http::lemma_form_value_opt_pair("extent"@, p.extent.deep_view(), "token"@);
        crate::http::lemma_form_value_opt_pair("access"@, p.access.deep_view(), "token"@);
        crate::http::lemma_form_value_opt_pair("properties"@, p.properties.deep_view(), "token"@);
        crate::http::lemma_form_value_opt_pair("token"@, token, "token"@);
        crate::http::lemma_form_value_append(c0, c1, "token"@);
        crate::http::lemma_form_value_append(c0 + c1, c2, "token"@);
        crate::http::lemma_form_value_append(c0 + c1 + c2, c3, "token"@);
        crate::http::lemma_form_value_append(c0 + c1 + c2 + c3, c4, "token"@);
        crate::http::lemma_form_value_append(c0 + c1 + c2 + c3 + c4, c5, "token"@);
        crate::http::lemma_form_value_append(c0 + c1 + c2 + c3 + c4 + c5, c6, "token"@);
        crate::http::lemma_form_value_append(c0 + c1 + c2 + c3 + c4 + c5 + c6, c7, "token"@);
        crate::http::lemma_form_value_append(c0 + c1 + c2 + c3 + c4 + c5 + c6 + c7, c8, "token"@);
        crate::http::lemma_form_value_append(c0 + c1 + c2 + c3 + c4 + c5 + c6 + c7 + c8, c9, "token"@);
        crate::http::lemma_form_value_append(c0 + c1 + c2 + c3 + c4 + c5 + c6 + c7 + c8 + c9, c10, "token"@);
        crate::http::lemma_form_value_append(c0 + c1 + c2 + c3 + c4 + c5 + c6 + c7 + c8 + c9 + c10, c11, "token"@);
        crate::http::lemma_form_value_append(c0 + c1 + c2 + c3 + c4 + c5 + c6 + c7 + c8 + c9 + c10 + c11, c12, "token"@);
        crate::http::lemma_form_value_append(c0 + c1 + c2 + c3 + c4 + c5 + c6 + c7 + c8 + c9 + c10 + c11 + c12, c13, "token"@);
    }
}

/// Each field of `update_item_parts` carries the value built from its own input: a
/// required field is always present, an optional one exactly when its
/// input is given.
pub proof fn lemma_update_item_parts_fields(p: UpdateItemParams, token: Option<Seq<char>>)
    ensures
        crate::http::form_value(update_item_parts(p, token), "f"@) == Some("json"@),
        crate::http::form_value(update_item_parts(p, token), "title"@) == p.title.deep_view(),
        crate::http::form_value(update_item_parts(p, token), "description"@) == p.description.deep_view(),
        crate::http::form_value(update_item_parts(p, token), "tags"@) == opt_join(p.tags),
        crate::http::form_value(update_item_parts(p, token), "snippet"@) == p.snippet.deep_view(),
        crate::http::form_value(update_item_parts(p, token), "categories"@) == opt_join(p.categories),
        crate::http::form_value(update_item_parts(p, token), "typeKeywords"@) == opt_join(p.type_keywords),
        crate::http::form_value(update_item_parts(p, token), "url"@) == p.url.deep_view(),
        crate::http::form_value(update_item_parts(p, token), "spatialReference"@) == opt_i32(p.spatial_reference),
        crate::http::form_value(update_item_parts(p, token), "extent"@) == p.extent.deep_view(),
        crate::http::form_value(update_item_parts(p, token), "access"@) == p.access.deep_view(),
        crate::http::form_value(update_item_parts(p, token), "token"@) == token,
{
    reveal_strlit("access");
    reveal_strlit("categories");
    reveal_strlit("description");
    reveal_strlit("extent");
    reveal_strlit("f");
    reveal_strlit("json");
    reveal_strlit("snippet");
    reveal_strlit("spatialReference");
    reveal_strlit("tags");
    reveal_strlit("title");
    reveal_strlit("token");
    reveal_strlit("typeKeywords");
    reveal_strlit("url");
    assert("f"@.len() != "title"@.len());
    assert("f"@.len() != "description"@.len());
    assert("f"@.len() != "tags"@.len());
    assert("f"@.len() != "snippet"@.len());
    assert("f"@.len() != "categories"@.len());
    assert("f"@.len() != "typeKeywords"@.len());
    assert("f"@.len() != "url"@.len());
    assert("f"@.len() != "spatialReference"@.len());
    assert("f"@.len() != "extent"@.len());
    assert("f"@.len() != "access"@.len());
    assert("f"@.len() != "token"@.len());
    assert("title"@.len() != "description"@.len());
    assert("title"@.len() != "tags"@.len());
    assert("title"@.len() != "snippet"@.len());
    assert("title"@.len() != "categories"@.len());
    assert("title"@.len() != "typeKeywords"@.len());
    assert("title"@.len() != "url"@.len());
    assert("title"@.len() != "spatialReference"@.len());
    assert("title"@.len() != "extent"@.len());
    assert("title"@.len() != "access"@.len());
    assert("title"@[1] != "token"@[1]);
    assert("description"@.len() != "tags"@.len());
    assert("description"@.len() != "snippet"@.len());
    assert("description"@.len() != "categories"@.len());
    assert("description"@.len() != "typeKeywords"@.len());
    assert("description"@.len() != "url"@.len());
    assert("description"@.len() != "spatialReference"@.len());
    assert("description"@.len() != "extent"@.len());
    assert("description"@.len() != "access"@.len());
    assert("description"@.len() != "token"@.len());
    assert("tags"@.len() != "snippet"@.len());
    assert("tags"@.len() != "categories"@.len());
    assert("tags"@.len() != "typeKeywords"@.len());
    assert("tags"@.len() != "url"@.len());
    assert("tags"@.len() != "spatialReference"@.len());
    assert("tags"@.len() != "extent"@.len());
    assert("tags"@.len() != "access"@.len());
    assert("tags"@.len() != "token"@.len());
    assert("snippet"@.len() != "categories"@.len());
    assert("snippet"@.len() != "typeKeywords"@.len());
    assert("snippet"@.len() != "url"@.len());
    assert("snippet"@.len() != "spatialReference"@.len());
    assert("snippet"@.len() != "extent"@.len());
    assert("snippet"@.len() != "access"@.len());
    assert("snippet"@.len() != "token"@.len());
    assert("categories"@.len() != "typeKeywords"@.len());
    assert("categories"@.len() != "url"@.len());
    assert("categories"@.len() != "spatialReference"@.len());
    assert("categories"@.len() != "extent"@.len());
    assert("categories"@.len() != "access"@.len());
    assert("categories"@.len() != "token"@.len());
    assert("typeKeywords"@.len() != "url"@.len());
    assert("typeKeywords"@.len() != "spatialReference"@.len());
    assert("typeKeywords"@.len() != "extent"@.len());
    assert("typeKeywords"@.len() != "access"@.len());
    assert("typeKeywords"@.len() != "token"@.len());
    assert("url"@.len() != "spatialReference"@.len());
    assert("url"@.len() != "extent"@.len());
    assert("url"@.len() != "access"@.len());
    assert("url"@.len() != "token"@.len());
    assert("spatialReference"@.len() != "extent"@.len());
    assert("spatialReference"@.len() != "access"@.len());
    assert("spatialReference"@.len() != "token"@.len());
    assert("extent"@[0] != "access"@[0]);
    assert("extent"@.len() != "token"@.len());
    assert("access"@.len() != "token"@.len());
    let c0 = pair("f"@, "json"@);
    let c1 = opt_pair("title"@, p.title.deep_view());
    let c2 = opt_pair("description"@, p.description.deep_view());
    let c3 = opt_pair("tags"@, opt_join(p.tags));
    let c4 = opt_pair("snippet"@, p.snippet.deep_view());
    let c5 = opt_pair("categories"@, opt_join(p.categories));
    let c6 = opt_pair("typeKeywords"@, opt_join(p.type_keywords));
    let c7 = opt_pair("url"@, p.url.deep_view());
    let c8 = opt_pair("spatialReference"@, opt_i32(p.spatial_reference));
    let c9 = opt_pair("extent"@, p.extent.deep_view());
    let c10 = opt_pair("access"@, p.access.deep_view());
    let c11 = opt_pair("token"@, token);
    let form = update_item_parts(p, token);
    assert(form == c0 + c1 + c2 + c3 + c4 + c5 + c6 + c7 + c8 + c9 + c10 + c11);
    assert(crate::http::form_value(form, "f"@) == Some("json"@)) by {
        crate::http::lemma_form_value_pair("f"@, "json"@, "f"@);
        crate::http::lemma_form_value_opt_pair("title"@, p.title.deep_view(), "f"@);
        crate::http::lemma_form_value_opt_pair("description"@, p.description.deep_view(), "f"@);
        crate::http::lemma_form_value_opt_pair("tags"@, opt_join(p.tags), "f"@);
        crate::http::lemma_form_value_opt_pair("snippet"@, p.snippet.deep_view(), "f"@);
        crate::http::lemma_form_value_opt_pair("categories"@, opt_join(p.categories), "f"@);
        crate::http::lemma_form_value_opt_pair("typeKeywords"@, opt_join(p.type_keywords), "f"@);
        crate::http::lemma_form_value_opt_pair("url"@, p.url.deep_view(), "f"@);
        crate::http::lemma_form_value_opt_pair("spatialReference"@, opt_i32(p.spatial_reference), "f"@);
        crate::http::lemma_form_value_opt_pair("extent"@, p.extent.deep_view(), "f"@);
        crate::http::lemma_form_value_opt_pair("access"@, p.access.deep_view(), "f"@);
        crate::http::lemma_form_value_opt_pair("token"@, token, "f"@);
        crate::http::lemma_form_value_append(c0, c1, "f"@);
        crate::http::lemma_form_value_append(c0 + c1, c2, "f"@);
        crate::http::lemma_form_value_append(c0 + c1 + c2, c3, "f"@);
        crate::http::lemma_form_value_append(c0 + c1 + c2 + c3, c4, "f"@);
        crate::http::lemma_form_value_append(c0 + c1 + c2 + c3 + c4, c5, "f"@);
        crate::http::lemma_form_value_append(c0 + c1 + c2 + c3 + c4 + c5, c6, "f"@);
        crate::http::lemma_form_value_append(c0 + c1 + c2 + c3 + c4 + c5 + c6, c7, "f"@);
        crate::http::lemma_form_value_append(c0 + c1 + c2 + c3 + c4 + c5 + c6 + c7, c8, "f"@);
        crate::http::lemma_form_value_append(c0 + c1 + c2 + c3 + c4 + c5 + c6 + c7 + c8, c9, "f"@);
        crate::http::lemma_form_value_append(c0 + c1 + c2 + c3 + c4 + c5 + c6 + c7 + c8 + c9, c10, "f"@);
        crate::http::lemma_form_value_append(c0 + c1 + c2 + c3 + c4 + c5 + c6 + c7 + c8 + c9 + c10, c11, "f"@);
    }
    assert(crate::http::form_value(form, "title"@) == p.title.deep_view()) by {
        crate::http::lemma_form_value_pair("f"@, "json"@, "title"@);
        crate::http::lemma_form_value_opt_pair("title"@, p.title.deep_view(), "title"@);
        crate::http::lemma_form_value_opt_pair("description"@, p.description.deep_view(), "title"@);
        crate::http::lemma_form_value_opt_pair("tags"@, opt_join(p.tags), "title"@);
        crate::http::lemma_form_value_opt_pair("snippet"@, p.snippet.deep_view(), "title"@);
        crate::http::lemma_form_value_opt_pair("categories"@, opt_join(p.categories), "title"@);
        crate::http::lemma_form_value_opt_pair("typeKeywords"@, opt_join(p.type_keywords), "title"@);
        crate::http::lemma_form_value_opt_pair("url"@, p.url.deep_view(), "title"@);
        crate::http::lemma_form_value_opt_pair("spatialReference"@, opt_i32(p.spatial_reference), "title"@);
        crate::http::lemma_form_value_opt_pair("extent"@, p.extent.deep_view(), "title"@);
        crate::http::lemma_form_value_opt_pair("access"@, p.access.deep_view(), "title"@);
        crate::http::lemma_form_value_opt_pair("token"@, token, "title"@);
        crate::http::lemma_form_value_append(c0, c1, "title"@);
        crate::http::lemma_form_value_append(c0 + c1, c2, "title"@);
        crate::http::lemma_form_value_append(c0 + c1 + c2, c3, "title"@);
        crate::http::lemma_form_value_append(c0 + c1 + c2 + c3, c4, "title"@);
        crate::http::lemma_form_value_append(c0 + c1 + c2 + c3 + c4, c5, "title"@);
        crate::http::lemma_form_value_append(c0 + c1 + c2 + c3 + c4 + c5, c6, "title"@);
        crate::http::lemma_form_value_append(c0 + c1 + c2 + c3 + c4 + c5 + c6, c7, "title"@);
        crate::http::lemma_form_value_append(c0 + c1 + c2 + c3 + c4 + c5 + c6 + c7, c8, "title"@);
        crate::http::lemma_form_value_append(c0 + c1 + c2 + c3 + c4 + c5 + c6 + c7 + c8, c9, "title"@);
        crate::http::lemma_form_value_append(c0 + c1 + c2 + c3 + c4 + c5 + c6 + c7 + c8 + c9, c10, "title"@);
        crate::http::lemma_form_value_append(c0 + c1 + c2 + c3 + c4 + c5 + c6 + c7 + c8 + c9 + c10, c11, "title"@);
    }
    assert(crate::http::form_value(form, "description"@) == p.description.deep_view()) by {
        crate::http::lemma_form_value_pair("f"@, "json"@, "description"@);
        crate::http::lemma_form_value_opt_pair("title"@, p.title.deep_view(), "description"@);
        crate::http::lemma_form_value_opt_pair("description"@, p.description.deep_view(), "description"@);
        crate::http::lemma_form_value_opt_pair("tags"@, opt_join(p.tags), "description"@);
        crate::http::lemma_form_value_opt_pair("snippet"@, p.snippet.deep_view(), "description"@);
        crate::http::lemma_form_value_opt_pair("categories"@, opt_join(p.categories), "description"@);
        crate::http::lemma_form_value_opt_pair("typeKeywords"@, opt_join(p.type_keywords), "description"@);
        crate::http::lemma_form_value_opt_pair("url"@, p.url.deep_view(), "description"@);
        crate::http::lemma_form_value_opt_pair("spatialReference"@, opt_i32(p.spatial_reference), "description"@);
        crate::http::lemma_form_value_opt_pair("extent"@, p.extent.deep_view(), "description"@);
        crate::http::lemma_form_value_opt_pair("access"@, p.access.deep_view(), "description"@);
        crate::http::lemma_form_value_opt_pair("token"@, token, "description"@);
        crate::http::lemma_form_value_append(c0, c1, "description"@);
        crate::http::lemma_form_value_append(c0 + c1, c2, "description"@);
        crate::http::lemma_form_value_append(c0 + c1 + c2, c3, "description"@);
        crate::http::lemma_form_value_append(c0 + c1 + c2 + c3, c4, "description"@);
        crate::http::lemma_form_value_append(c0 + c1 + c2 + c3 + c4, c5, "description"@);
        crate::http::lemma_form_value_append(c0 + c1 + c2 + c3 + c4 + c5, c6, "description"@);
        crate::http::lemma_form_value_append(c0 + c1 + c2 + c3 + c4 + c5 + c6, c7, "description"@);
        crate::http::lemma_form_value_append(c0 + c1 + c2 + c3 + c4 + c5 + c6 + c7, c8, "description"@);
        crate::http::lemma_form_value_append(c0 + c1 + c2 + c3 + c4 + c5 + c6 + c7 + c8, c9, "description"@);
        crate::http::lemma_form_value_append(c0 + c1 + c2 + c3 + c4 + c5 + c6 + c7 + c8 + c9, c10, "description"@);
        crate::http::lemma_form_value_append(c0 + c1 + c2 + c3 + c4 + c5 + c6 + c7 + c8 + c9 + c10, c11, "description"@);
    }
    assert(crate::http::form_value(form, "tags"@) == opt_join(p.tags)) by {
        crate::http::lemma_form_value_pair("f"@, "json"@, "tags"@);
        crate::http::lemma_form_value_opt_pair("title"@, p.title.deep_view(), "tags"@);
        crate::http::lemma_form_value_opt_pair("description"@, p.description.deep_view(), "tags"@);
        crate::http::lemma_form_value_opt_pair("tags"@, opt_join(p.tags), "tags"@);
        crate::http::lemma_form_value_opt_pair("snippet"@, p.snippet.deep_view(), "tags"@);
        crate::http::lemma_form_value_opt_pair("categories"@, opt_join(p.categories), "tags"@);
        crate::http::lemma_form_value_opt_pair("typeKeywords"@, opt_join(p.type_keywords), "tags"@);
        crate::http::lemma_form_value_opt_pair("url"@, p.url.deep_view(), "tags"@);
        crate::http::lemma_form_value_opt_pair("spatialReference"@, opt_i32(p.spatial_reference), "tags"@);
        crate::http::lemma_form_value_opt_pair("extent"@, p.extent.deep_view(), "tags"@);
        crate::http::lemma_form_value_opt_pair("access"@, p.access.deep_view(), "tags"@);
        crate::http::lemma_form_value_opt_pair("token"@, token, "tags"@);
        crate::http::lemma_form_value_append(c0, c1, "tags"@);
        crate::http::lemma_form_value_append(c0 + c1, c2, "tags"@);
        crate::http::lemma_form_value_append(c0 + c1 + c2, c3, "tags"@);
        crate::http::lemma_form_value_append(c0 + c1 + c2 + c3, c4, "tags"@);
        crate::http::lemma_form_value_append(c0 + c1 + c2 + c3 + c4, c5, "tags"@);
        crate::http::lemma_form_value_append(c0 + c1 + c2 + c3 + c4 + c5, c6, "tags"@);
        crate::http::lemma_form_value_append(c0 + c1 + c2 + c3 + c4 + c5 + c6, c7, "tags"@);
        crate::http::lemma_form_value_append(c0 + c1 + c2 + c3 + c4 + c5 + c6 + c7, c8, "tags"@);
        crate::http::lemma_form_value_append(c0 + c1 + c2 + c3 + c4 + c5 + c6 + c7 + c8, c9, "tags"@);
        crate::http::lemma_form_value_append(c0 + c1 + c2 + c3 + c4 + c5 + c6 + c7 + c8 + c9, c10, "tags"@);
        crate::http::lemma_form_value_append(c0 + c1 + c2 + c3 + c4 + c5 + c6 + c7 + c8 + c9 + c10, c11, "tags"@);
    }
    assert(crate::http::form_value(form, "snippet"@) == p.snippet.deep_view()) by {
        crate::http::lemma_form_value_pair("f"@, "json"@, "snippet"@);
        crate::http::lemma_form_value_opt_pair("title"@, p.title.deep_view(), "snippet"@);
        crate::http::lemma_form_value_opt_pair("description"@, p.description.deep_view(), "snippet"@);
        crate::http::lemma_form_value_opt_pair("tags"@, opt_join(p.tags), "snippet"@);
        crate::http::lemma_form_value_opt_pair("snippet"@, p.snippet.deep_view(), "snippet"@);
        crate::http::lemma_form_value_opt_pair("categories"@, opt_join(p.categories), "snippet"@);
        crate::http::lemma_form_value_opt_pair("typeKeywords"@, opt_join(p.type_keywords), "snippet"@);
        crate::http::lemma_form_value_opt_pair("url"@, p.url.deep_view(), "snippet"@);
        crate::http::lemma_form_value_opt_pair("spatialReference"@, opt_i32(p.spatial_reference), "snippet"@);
        crate::http::lemma_form_value_opt_pair("extent"@, p.extent.deep_view(), "snippet"@);
        crate::http::lemma_form_value_opt_pair("access"@, p.access.deep_view(), "snippet"@);
        crate::http::lemma_form_value_opt_pair("token"@, token, "snippet"@);
        crate::http::lemma_form_value_append(c0, c1, "snippet"@);
        crate::http::lemma_form_value_append(c0 + c1, c2, "snippet"@);
        crate::http::lemma_form_value_append(c0 + c1 + c2, c3, "snippet"@);
        crate::http::lemma_form_value_append(c0 + c1 + c2 + c3, c4, "snippet"@);
        crate::http::lemma_form_value_append(c0 + c1 + c2 + c3 + c4, c5, "snippet"@);
        crate::http::lemma_form_value_append(c0 + c1 + c2 + c3 + c4 + c5, c6, "snippet"@);
        crate::http::lemma_form_value_append(c0 + c1 + c2 + c3 + c4 + c5 + c6, c7, "snippet"@);
        crate::http::lemma_form_value_append(c0 + c1 + c2 + c3 + c4 + c5 + c6 + c7, c8, "snippet"@);
        crate::http::lemma_form_value_append(c0 + c1 + c2 + c3 + c4 + c5 + c6 + c7 + c8, c9, "snippet"@);
        crate::http::lemma_form_value_append(c0 + c1 + c2 + c3 + c4 + c5 + c6 + c7 + c8 + c9, c10, "snippet"@);
        crate::http::lemma_form_value_append(c0 + c1 + c2 + c3 + c4 + c5 + c6 + c7 + c8 + c9 + c10, c11, "snippet"@);
    }
    assert(crate::http::form_value(form, "categories"@) == opt_join(p.categories)) by {
        crate::http::lemma_form_value_pair("f"@, "json"@, "categories"@);
        crate::http::lemma_form_value_opt_pair("title"@, p.title.deep_view(), "categories"@);
        crate::http::lemma_form_value_opt_pair("description"@, p.description.deep_view(), "categories"@);
        crate::http::lemma_form_value_opt_pair("tags"@, opt_join(p.tags), "categories"@);
        crate::http::lemma_form_value_opt_pair("snippet"@, p.snippet.deep_view(), "categories"@);
        crate::http::lemma_form_value_opt_pair("categories"@, opt_join(p.categories), "categories"@);
        crate::http::lemma_form_value_opt_pair("typeKeywords"@, opt_join(p.type_keywords), "categories"@);
        crate::http::lemma_form_value_opt_pair("url"@, p.url.deep_view(), "categories"@);
        crate::http::lemma_form_value_opt_pair("spatialReference"@, opt_i32(p.spatial_reference), "categories"@);
        crate::http::lemma_form_value_opt_pair("extent"@, p.extent.deep_view(), "categories"@);
        crate::http::lemma_form_value_opt_pair("access"@, p.access.deep_view(), "categories"@);
        crate::http::lemma_form_value_opt_pair("token"@, token, "categories"@);
        crate::http::lemma_form_value_append(c0, c1, "categories"@);
        crate::http::lemma_form_value_append(c0 + c1, c2, "categories"@);
        crate::http::lemma_form_value_append(c0 + c1 + c2, c3, "categories"@);
        crate::http::lemma_form_value_append(c0 + c1 + c2 + c3, c4, "categories"@);
        crate::http::lemma_form_value_append(c0 + c1 + c2 + c3 + c4, c5, "categories"@);
        crate::http::lemma_form_value_append(c0 + c1 + c2 + c3 + c4 + c5, c6, "categories"@);
        crate::http::lemma_form_value_append(c0 + c1 + c2 + c3 + c4 + c5 + c6, c7, "categories"@);
        crate::http::lemma_form_value_append(c0 + c1 + c2 + c3 + c4 + c5 + c6 + c7, c8, "categories"@);
        crate::http::lemma_form_value_append(c0 + c1 + c2 + c3 + c4 + c5 + c6 + c7 + c8, c9, "categories"@);
        crate::http::lemma_form_value_append(c0 + c1 + c2 + c3 + c4 + c5 + c6 + c7 + c8 + c9, c10, "categories"@);
        crate::http::lemma_form_value_append(c0 + c1 + c2 + c3 + c4 + c5 + c6 + c7 + c8 + c9 + c10, c11, "categories"@);
    }
    assert(crate::http::form_value(form, "typeKeywords"@) == opt_join(p.type_keywords)) by {
        crate::http::lemma_form_value_pair("f"@, "json"@, "typeKeywords"@);
        crate::http::lemma_form_value_opt_pair("title"@, p.title.deep_view(), "typeKeywords"@);
        crate::http::lemma_form_value_opt_pair("description"@, p.description.deep_view(), "typeKeywords"@);
        crate::http::lemma_form_value_opt_pair("tags"@, opt_join(p.tags), "typeKeywords"@);
        crate::http::lemma_form_value_opt_pair("snippet"@, p.snippet.deep_view(), "typeKeywords"@);
        crate::http::lemma_form_value_opt_pair("categories"@, opt_join(p.categories), "typeKeywords"@);
        crate::http::lemma_form_value_opt_pair("typeKeywords"@, opt_join(p.type_keywords), "typeKeywords"@);
        crate::http::lemma_form_value_opt_pair("url"@, p.url.deep_view(), "typeKeywords"@);
        crate::http::lemma_form_value_opt_pair("spatialReference"@, opt_i32(p.spatial_reference), "typeKeywords"@);
        crate::http::lemma_form_value_opt_pair("extent"@, p.extent.deep_view(), "typeKeywords"@);
        crate::http::lemma_form_value_opt_pair("access"@, p.access.deep_view(), "typeKeywords"@);
        crate::http::lemma_form_value_opt_pair("token"@, token, "typeKeywords"@);
        crate::http::lemma_form_value_append(c0, c1, "typeKeywords"@);
        crate::http::lemma_form_value_append(c0 + c1, c2, "typeKeywords"@);
        crate::http::lemma_form_value_append(c0 + c1 + c2, c3, "typeKeywords"@);
        crate::http::lemma_form_value_append(c0 + c1 + c2 + c3, c4, "typeKeywords"@);
        crate::http::lemma_form_value_append(c0 + c1 + c2 + c3 + c4, c5, "typeKeywords"@);
        crate::http::lemma_form_value_append(c0 + c1 + c2 + c3 + c4 + c5, c6, "typeKeywords"@);
        crate::http::lemma_form_value_append(c0 + c1 + c2 + c3 + c4 + c5 + c6, c7, "typeKeywords"@);
        crate::http::lemma_form_value_append(c0 + c1 + c2 + c3 + c4 + c5 + c6 + c7, c8, "typeKeywords"@);
        crate::http::lemma_form_value_append(c0 + c1 + c2 + c3 + c4 + c5 + c6 + c7 + c8, c9, "typeKeywords"@);
        crate::http::lemma_form_value_append(c0 + c1 + c2 + c3 + c4 + c5 + c6 + c7 + c8 + c9, c10, "typeKeywords"@);
        crate::http::lemma_form_value_append(c0 + c1 + c2 + c3 + c4 + c5 + c6 + c7 + c8 + c9 + c10, c11, "typeKeywords"@);
    }
    assert(crate::http::form_value(form, "url"@) == p.url.deep_view()) by {
        crate::http::lemma_form_value_pair("f"@, "json"@, "url"@);
        crate::http::lemma_form_value_opt_pair("title"@, p.title.deep_view(), "url"@);
        crate::http::lemma_form_value_opt_pair("description"@, p.description.deep_view(), "url"@);
        crate::http::lemma_form_value_opt_pair("tags"@, opt_join(p.tags), "url"@);
        crate::http::lemma_form_value_opt_pair("snippet"@, p.snippet.deep_view(), "url"@);
        crate::http::lemma_form_value_opt_pair("categories"@, opt_join(p.categories), "url"@);
        crate::http::lemma_form_value_opt_pair("typeKeywords"@, opt_join(p.type_keywords), "url"@);
        crate::http::lemma_form_value_opt_pair("url"@, p.url.deep_view(), "url"@);
        crate::http::lemma_form_value_opt_pair("spatialReference"@, opt_i32(p.spatial_reference), "url"@);
        crate::http::lemma_form_value_opt_pair("extent"@, p.extent.deep_view(), "url"@);
        crate::http::lemma_form_value_opt_pair("access"@, p.access.deep_view(), "url"@);
        crate::http::lemma_form_value_opt_pair("token"@, token, "url"@);
        crate::http::lemma_form_value_append(c0, c1, "url"@);
        crate::http::lemma_form_value_append(c0 + c1, c2, "url"@);
        crate::http::lemma_form_value_append(c0 + c1 + c2, c3, "url"@);
        crate::http::lemma_form_value_append(c0 + c1 + c2 + c3, c4, "url"@);
        crate::http::lemma_form_value_append(c0 + c1 + c2 + c3 + c4, c5, "url"@);
        crate::http::lemma_form_value_append(c0 + c1 + c2 + c3 + c4 + c5, c6, "url"@);
        crate::http::lemma_form_value_append(c0 + c1 + c2 + c3 + c4 + c5 + c6, c7, "url"@);
        crate::http::lemma_form_value_append(c0 + c1 + c2 + c3 + c4 + c5 + c6 + c7, c8, "url"@);
        crate::http::lemma_form_value_append(c0 + c1 + c2 + c3 + c4 + c5 + c6 + c7 + c8, c9, "url"@);
        crate::http::lemma_form_value_append(c0 + c1 + c2 + c3 + c4 + c5 + c6 + c7 + c8 + c9, c10, "url"@);
        crate::http::lemma_form_value_append(c0 + c1 + c2 + c3 + c4 + c5 + c6 + c7 + c8 + c9 + c10, c11, "url"@);
    }
    assert(crate::http::form_value(form, "spatialReference"@) == opt_i32(p.spatial_reference)) by {
        crate::http::lemma_form_value_pair("f"@, "json"@, "spatialReference"@);
        crate::http::lemma_form_value_opt_pair("title"@, p.title.deep_view(), "spatialReference"@);
        crate::http::lemma_form_value_opt_pair("description"@, p.description.deep_view(), "spatialReference"@);
        crate::http::lemma_form_value_opt_pair("tags"@, opt_join(p.tags), "spatialReference"@);
        crate::http::lemma_form_value_opt_pair("snippet"@, p.snippet.deep_view(), "spatialReference"@);
        crate::http::lemma_form_value_opt_pair("categories"@, opt_join(p.categories), "spatialReference"@);
        crate::http::lemma_form_value_opt_pair("typeKeywords"@, opt_join(p.type_keywords), "spatialReference"@);
        crate::http::lemma_form_value_opt_pair("url"@, p.url.deep_view(), "spatialReference"@);
        crate::http::lemma_form_value_opt_pair("spatialReference"@, opt_i32(p.spatial_reference), "spatialReference"@);
        crate::http::lemma_form_value_opt_pair("extent"@, p.extent.deep_view(), "spatialReference"@);
        crate::http::lemma_form_value_opt_pair("access"@, p.access.deep_view(), "spatialReference"@);
        crate::http::lemma_form_value_opt_pair("token"@, token, "spatialReference"@);
        crate::http::lemma_form_value_append(c0, c1, "spatialReference"@);
        crate::http::lemma_form_value_append(c0 + c1, c2, "spatialReference"@);
        crate::http::lemma_form_value_append(c0 + c1 + c2, c3, "spatialReference"@);
        crate::http::lemma_form_value_append(c0 + c1 + c2 + c3, c4, "spatialReference"@);
        crate::http::lemma_form_value_append(c0 + c1 + c2 + c3 + c4, c5, "spatialReference"@);
        crate::http::lemma_form_value_append(c0 + c1 + c2 + c3 + c4 + c5, c6, "spatialReference"@);
        crate::http::lemma_form_value_append(c0 + c1 + c2 + c3 + c4 + c5 + c6, c7, "spatialReference"@);
        crate::http::lemma_form_value_append(c0 + c1 + c2 + c3 + c4 + c5 + c6 + c7, c8, "spatialReference"@);
        crate::http::lemma_form_value_append(c0 + c1 + c2 + c3 + c4 + c5 + c6 + c7 + c8, c9, "spatialReference"@);
        crate::http::lemma_form_value_append(c0 + c1 + c2 + c3 + c4 + c5 + c6 + c7 + c8 + c9, c10, "spatialReference"@);
        crate::http::lemma_form_value_append(c0 + c1 + c2 + c3 + c4 + c5 + c6 + c7 + c8 + c9 + c10, c11, "spatialReference"@);
    }
    assert(crate::http::form_value(form, "extent"@) == p.extent.deep_view()) by {
        crate::http::lemma_form_value_pair("f"@, "json"@, "extent"@);
        crate::http::lemma_form_value_opt_pair("title"@, p.title.deep_view(), "extent"@);
        crate::http::lemma_form_value_opt_pair("description"@, p.description.deep_view(), "extent"@);
        crate::http::lemma_form_value_opt_pair("tags"@, opt_join(p.tags), "extent"@);
        crate::http::lemma_form_value_opt_pair("snippet"@, p.snippet.deep_view(), "extent"@);
        crate::http::lemma_form_value_opt_pair("categories"@, opt_join(p.categories), "extent"@);
        crate::http::lemma_form_value_opt_pair("typeKeywords"@, opt_join(p.type_keywords), "extent"@);
        crate::http::lemma_form_value_opt_pair("url"@, p.url.deep_view(), "extent"@);
        crate::http::lemma_form_value_opt_pair("spatialReference"@, opt_i32(p.spatial_reference), "extent"@);
        crate::http::lemma_form_value_opt_pair("extent"@, p.extent.deep_view(), "extent"@);
        crate::http::lemma_form_value_opt_pair("access"@, p.access.deep_view(), "extent"@);
        crate::http::lemma_form_value_opt_pair("token"@, token, "extent"@);
        crate::http::lemma_form_value_append(c0, c1, "extent"@);
        crate::http::lemma_form_value_append(c0 + c1, c2, "extent"@);
        crate::http::lemma_form_value_append(c0 + c1 + c2, c3, "extent"@);
        crate::http::lemma_form_value_append(c0 + c1 + c2 + c3, c4, "extent"@);
        crate::http::lemma_form_value_append(c0 + c1 + c2 + c3 + c4, c5, "extent"@);
        crate::http::lemma_form_value_append(c0 + c1 + c2 + c3 + c4 + c5, c6, "extent"@);
        crate::http::lemma_form_value_append(c0 + c1 + c2 + c3 + c4 + c5 + c6, c7, "extent"@);
        crate::http::lemma_form_value_append(c0 + c1 + c2 + c3 + c4 + c5 + c6 + c7, c8, "extent"@);
        crate::http::lemma_form_value_append(c0 + c1 + c2 + c3 + c4 + c5 + c6 + c7 + c8, c9, "extent"@);
        crate::http::lemma_form_value_append(c0 + c1 + c2 + c3 + c4 + c5 + c6 + c7 + c8 + c9, c10, "extent"@);
        crate::http::lemma_form_value_append(c0 + c1 + c2 + c3 + c4 + c5 + c6 + c7 + c8 + c9 + c10, c11, "extent"@);
    }
    assert(crate::http::form_value(form, "access"@) == p.access.deep_view()) by {
        crate::http::lemma_form_value_pair("f"@, "json"@, "access"@);
        crate::http::lemma_form_value_opt_pair("title"@, p.title.deep_view(), "access"@);
        crate::http::lemma_form_value_opt_pair("description"@, p.description.deep_view(), "access"@);
        crate::http::lemma_form_value_opt_pair("tags"@, opt_join(p.tags), "access"@);
        crate::http::lemma_form_value_opt_pair("snippet"@, p.snippet.deep_view(), "access"@);
        crate::http::lemma_form_value_opt_pair("categories"@, opt_join(p.categories), "access"@);
        crate::http::lemma_form_value_opt_pair("typeKeywords"@, opt_join(p.type_keywords), "access"@);
        crate::http::lemma_form_value_opt_pair("url"@, p.url.deep_view(), "access"@);
        crate::http::lemma_form_value_opt_pair("spatialReference"@, opt_i32(p.spatial_reference), "access"@);
        crate::http::lemma_form_value_opt_pair("extent"@, p.extent.deep_view(), "access"@);
        crate::http::lemma_form_value_opt_pair("access"@, p.access.deep_view(), "access"@);
        crate::http::lemma_form_value_opt_pair("token"@, token, "access"@);
        crate::http::lemma_form_value_append(c0, c1, "access"@);
        crate::http::lemma_form_value_append(c0 + c1, c2, "access"@);
        crate::http::lemma_form_value_append(c0 + c1 + c2, c3, "access"@);
        crate::http::lemma_form_value_append(c0 + c1 + c2 + c3, c4, "access"@);
        crate::http::lemma_form_value_append(c0 + c1 + c2 + c3 + c4, c5, "access"@);
        crate::http::lemma_form_value_append(c0 + c1 + c2 + c3 + c4 + c5, c6, "access"@);
        crate::http::lemma_form_value_append(c0 + c1 + c2 + c3 + c4 + c5 + c6, c7, "access"@);
        crate::http::lemma_form_value_append(c0 + c1 + c2 + c3 + c4 + c5 + c6 + c7, c8, "access"@);
        crate::http::lemma_form_value_append(c0 + c1 + c2 + c3 + c4 + c5 + c6 + c7 + c8, c9, "access"@);
        crate::http::lemma_form_value_append(c0 + c1 + c2 + c3 + c4 + c5 + c6 + c7 + c8 + c9, c10, "access"@);
        crate::http::lemma_form_value_append(c0 + c1 + c2 + c3 + c4 + c5 + c6 + c7 + c8 + c9 + c10, c11, "access"@);
    }
    assert(crate::http::form_value(form, "token"@) == token) by {
        crate::http::lemma_form_value_pair("f"@, "json"@, "token"@);
        crate::http::lemma_form_value_opt_pair("title"@, p.title.deep_view(), "token"@);
        crate::http::lemma_form_value_opt_pair("description"@, p.description.deep_view(), "token"@);
        crate::http::lemma_form_value_opt_pair("tags"@, opt_join(p.tags), "token"@);
        crate::http::lemma_form_value_opt_pair("snippet"@, p.snippet.deep_view(), "token"@);
        crate::http::lemma_form_value_opt_pair("categories"@, opt_join(p.categories), "token"@);
        crate::http::lemma_form_value_opt_pair("typeKeywords"@, opt_join(p.type_keywords), "token"@);
        crate::http::lemma_form_value_opt_pair("url"@, p.url.deep_view(), "token"@);
        crate::http::lemma_form_value_opt_pair("spatialReference"@, opt_i32(p.spatial_reference), "token"@);
        crate::http::lemma_form_value_opt_pair("extent"@, p.extent.deep_view(), "token"@);
        crate::http::lemma_form_value_opt_pair("access"@, p.access.deep_view(), "token"@);
        crate::http::lemma_form_value_opt_pair("token"@, token, "token"@);
        crate::http::lemma_form_value_append(c0, c1, "token"@);
        crate::http::lemma_form_value_append(c0 + c1, c2, "token"@);
        crate::http::lemma_form_value_append(c0 + c1 + c2, c3, "token"@);
        crate::http::lemma_form_value_append(c0 + c1 + c2 + c3, c4, "token"@);
        crate::http::lemma_form_value_append(c0 + c1 + c2 + c3 + c4, c5, "token"@);
        crate::http::lemma_form_value_append(c0 + c1 + c2 + c3 + c4 + c5, c6, "token"@);
        crate::http::lemma_form_value_append(c0 + c1 + c2 + c3 + c4 + c5 + c6, c7, "token"@);
        crate::http::lemma_form_value_append(c0 + c1 + c2 + c3 + c4 + c5 + c6 + c7, c8, "token"@);
        crate::http::lemma_form_value_append(c0 + c1 + c2 + c3 + c4 + c5 + c6 + c7 + c8, c9, "token"@);
        crate::http::lemma_form_value_append(c0 + c1 + c2 + c3 + c4 + c5 + c6 + c7 + c8 + c9, c10, "token"@);
        crate::http::lemma_form_value_append(c0 + c1 + c2 + c3 + c4 + c5 + c6 + c7 + c8 + c9 + c10, c11, "token"@);
    }
}

/// Each field of `create_group_parts` carries the value built from its own input: a
/// required field is always present, an optional one exactly when its
/// input is given.
pub proof fn lemma_create_group_parts_fields(p: CreateGroupParams, token: Option<Seq<char>>)
    ensures
        crate::http::form_value(create_group_parts(p, token), "f"@) == Some("json"@),
        crate::http::form_value(create_group_parts(p, token), "title"@) == Some(p.title@),
        crate::http::form_value(create_group_parts(p, token), "token"@) == token,
        crate::http::form_value(create_group_parts(p, token), "description"@) == p.description.deep_view(),
        crate::http::form_value(create_group_parts(p, token), "snippet"@) == p.snippet.deep_view(),
        crate::http::form_value(create_group_parts(p, token), "tags"@) == opt_join(p.tags),
        crate::http::form_value(create_group_parts(p, token), "access"@) == p.access.deep_view(),
        crate::http::form_value(create_group_parts(p, token), "isInvitationOnly"@) == opt_bool(p.is_invitation_only),
        crate::http::form_value(create_group_parts(p, token), "isViewOnly"@) == opt_bool(p.is_view_only),
        crate::http::form_value(create_group_parts(p, token), "autoJoin"@) == opt_bool(p.auto_join),
        crate::http::form_value(create_group_parts(p, token), "sortField"@) == p.sort_field.deep_view(),
        crate::http::form_value(create_group_parts(p, token), "sortOrder"@) == p.sort_order.deep_view(),
{
    reveal_strlit("access");
    reveal_strlit("autoJoin");
    reveal_strlit("description");
    reveal_strlit("f");
    reveal_strlit("isInvitationOnly");
    reveal_strlit("isViewOnly");
    reveal_strlit("json");
    reveal_strlit("snippet");
    reveal_strlit("sortField");
    reveal_strlit("sortOrder");
    reveal_strlit("tags");
    reveal_strlit("title");
    reveal_strlit("token");
    assert("f"@.len() != "title"@.len());
    assert("f"@.len() != "token"@.len());
    assert("f"@.len() != "description"@.len());
    assert("f"@.len() != "snippet"@.len());
    assert("f"@.len() != "tags"@.len());
    assert("f"@.len() != "access"@.len());
    assert("f"@.len() != "isInvitationOnly"@.len());
    assert("f"@.len() != "isViewOnly"@.len());
    assert("f"@.len() != "autoJoin"@.len());
    assert("f"@.len() != "sortField"@.len());
    assert("f"@.len() != "sortOrder"@.len());
    assert("title"@[1] != "token"@[1]);
    assert("title"@.len() != "description"@.len());
    assert("title"@.len() != "snippet"@.len());
    assert("title"@.len() != "tags"@.len());
    assert("title"@.len() != "access"@.len());
    assert("title"@.len() != "isInvitationOnly"@.len());
    assert("title"@.len() != "isViewOnly"@.len());
    assert("title"@.len() != "autoJoin"@.len());
    assert("title"@.len() != "sortField"@.len());
    assert("title"@.len() != "sortOrder"@.len());
    assert("token"@.len() != "description"@.len());
    assert("token"@.len() != "snippet"@.len());
    assert("token"@.len() != "tags"@.len());
    assert("token"@.len() != "access"@.len());
    assert("token"@.len() != "isInvitationOnly"@.len());
    assert("token"@.len() != "isViewOnly"@.len());
    assert("token"@.len() != "autoJoin"@.len());
    assert("token"@.len() != "sortField"@.len());
    assert("token"@.len() != "sortOrder"@.len());
    assert("description"@.len() != "snippet"@.len());
    assert("description"@.len() != "tags"@.len());
    assert("description"@.len() != "access"@.len());
    assert("description"@.len() != "isInvitationOnly"@.len());
    assert("description"@.len() != "isViewOnly"@.len());
    assert("description"@.len() != "autoJoin"@.len());
    assert("description"@.len() != "sortField"@.len());
    assert("description"@.len() != "sortOrder"@.len());
    assert("snippet"@.len() != "tags"@.len());
    assert("snippet"@.len() != "access"@.len());
    assert("snippet"@.len() != "isInvitationOnly"@.len());
    assert("snippet"@.len() != "isViewOnly"@.len());
    assert("snippet"@.len() != "autoJoin"@.len());
    assert("snippet"@.len() != "sortField"@.len());
    assert("snippet"@.len() != "sortOrder"@.len());
    assert("tags"@.len() != "access"@.len());
    assert("tags"@.len() != "isInvitationOnly"@.len());
    assert("tags"@.len() != "isViewOnly"@.len());
    assert("tags"@.len() != "autoJoin"@.len());
    assert("tags"@.len() != "sortField"@.len());
    assert("tags"@.len() != "sortOrder"@.len());
    assert("access"@.len() != "isInvitationOnly"@.len());
    assert("access"@.len() != "isViewOnly"@.len());
    assert("access"@.len() != "autoJoin"@.len());
    assert("access"@.len() != "sortField"@.len());
    assert("access"@.len() != "sortOrder"@.len());
    assert("isInvitationOnly"@.len() != "isViewOnly"@.len());
    assert("isInvitationOnly"@.len() != "autoJoin"@.len());
    assert("isInvitationOnly"@.len() != "sortField"@.len());
    assert("isInvitationOnly"@.len() != "sortOrder"@.len());
    assert("isViewOnly"@.len() != "autoJoin"@.len());
    assert("isViewOnly"@.len() != "sortField"@.len());
    assert("isViewOnly"@.len() != "sortOrder"@.len());
    assert("autoJoin"@.len() != "sortField"@.len());
    assert("autoJoin"@.len() != "sortOrder"@.len());
    assert("sortField"@[4] != "sortOrder"@[4]);
    let c0 = pair("f"@, "json"@);
    let c1 = pair("title"@, p.title@);
    let c2 = opt_pair("token"@, token);
    let c3 = opt_pair("description"@, p.description.deep_view());
    let c4 = opt_pair("snippet"@, p.snippet.deep_view());
    let c5 = opt_pair("tags"@, opt_join(p.tags));
    let c6 = opt_pair("access"@, p.access.deep_view());
    let c7 = opt_pair("isInvitationOnly"@, opt_bool(p.is_invitation_only));
    let c8 = opt_pair("isViewOnly"@, opt_bool(p.is_view_only));
    let c9 = opt_pair("autoJoin"@, opt_bool(p.auto_join));
    let c10 = opt_pair("sortField"@, p.sort_field.deep_view());
    let c11 = opt_pair("sortOrder"@, p.sort_order.deep_view());
    let form = create_group_parts(p, token);
    assert(form == c0 + c1 + c2 + c3 + c4 + c5 + c6 + c7 + c8 + c9 + c10 + c11);
    assert(crate::http::form_value(form, "f"@) == Some("json"@)) by {
        crate::http::lemma_form_value_pair("f"@, "json"@, "f"@);
        crate::http::lemma_form_value_pair("title"@, p.title@, "f"@);
        crate::http::lemma_form_value_opt_pair("token"@, token, "f"@);
        crate::http::lemma_form_value_opt_pair("description"@, p.description.deep_view(), "f"@);
        crate::http::lemma_form_value_opt_pair("snippet"@, p.snippet.deep_view(), "f"@);
        crate::http::lemma_form_value_opt_pair("tags"@, opt_join(p.tags), "f"@);
        crate::http::lemma_form_value_opt_pair("access"@, p.access.deep_view(), "f"@);
        crate::http::lemma_form_value_opt_pair("isInvitationOnly"@, opt_bool(p.is_invitation_only), "f"@);
        crate::http::lemma_form_value_opt_pair("isViewOnly"@, opt_bool(p.is_view_only), "f"@);
        crate::http::lemma_form_value_opt_pair("autoJoin"@, opt_bool(p.auto_join), "f"@);
        crate::http::lemma_form_value_opt_pair("sortField"@, p.sort_field.deep_view(), "f"@);
        crate::http::lemma_form_value_opt_pair("sortOrder"@, p.sort_order.deep_view(), "f"@);
        crate::http::lemma_form_value_append(c0, c1, "f"@);
        crate::http::lemma_form_value_append(c0 + c1, c2, "f"@);
        crate::http::lemma_form_value_append(c0 + c1 + c2, c3, "f"@);
        crate::http::lemma_form_value_append(c0 + c1 + c2 + c3, c4, "f"@);
        crate::http::lemma_form_value_append(c0 + c1 + c2 + c3 + c4, c5, "f"@);
        crate::http::lemma_form_value_append(c0 + c1 + c2 + c3 + c4 + c5, c6, "f"@);
        crate::http::lemma_form_value_append(c0 + c1 + c2 + c3 + c4 + c5 + c6, c7, "f"@);
        crate::http::lemma_form_value_append(c0 + c1 + c2 + c3 + c4 + c5 + c6 + c7, c8, "f"@);
        crate::http::lemma_form_value_append(c0 + c1 + c2 + c3 + c4 + c5 + c6 + c7 + c8, c9, "f"@);
        crate::http::lemma_form_value_append(c0 + c1 + c2 + c3 + c4 + c5 + c6 + c7 + c8 + c9, c10, "f"@);
        crate::http::lemma_form_value_append(c0 + c1 + c2 + c3 + c4 + c5 + c6 + c7 + c8 + c9 + c10, c11, "f"@);
    }
    assert(crate::http::form_value(form, "title"@) == Some(p.title@)) by {
        crate::http::lemma_form_value_pair("f"@, "json"@, "title"@);
        crate::http::lemma_form_value_pair("title"@, p.title@, "title"@);
        crate::http::lemma_form_value_opt_pair("token"@, token, "title"@);
        crate::http::lemma_form_value_opt_pair("description"@, p.description.deep_view(), "title"@);
        crate::http::lemma_form_value_opt_pair("snippet"@, p.snippet.deep_view(), "title"@);
        crate::http::lemma_form_value_opt_pair("tags"@, opt_join(p.tags), "title"@);
        crate::http::lemma_form_value_opt_pair("access"@, p.access.deep_view(), "title"@);
        crate::http::lemma_form_value_opt_pair("isInvitationOnly"@, opt_bool(p.is_invitation_only), "title"@);
        crate::http::lemma_form_value_opt_pair("isViewOnly"@, opt_bool(p.is_view_only), "title"@);
        crate::http::lemma_form_value_opt_pair("autoJoin"@, opt_bool(p.auto_join), "title"@);
        crate::http::lemma_form_value_opt_pair("sortField"@, p.sort_field.deep_view(), "title"@);
        crate::http::lemma_form_value_opt_pair("sortOrder"@, p.sort_order.deep_view(), "title"@);
        crate::http::lemma_form_value_append(c0, c1, "title"@);
        crate::http::lemma_form_value_append(c0 + c1, c2, "title"@);
        crate::http::lemma_form_value_append(c0 + c1 + c2, c3, "title"@);
        crate::http::lemma_form_value_append(c0 + c1 + c2 + c3, c4, "title"@);
        crate::http::lemma_form_value_append(c0 + c1 + c2 + c3 + c4, c5, "title"@);
        crate::http::lemma_form_value_append(c0 + c1 + c2 + c3 + c4 + c5, c6, "title"@);
        crate::http::lemma_form_value_append(c0 + c1 + c2 + c3 + c4 + c5 + c6, c7, "title"@);
        crate::http::lemma_form_value_append(c0 + c1 + c2 + c3 + c4 + c5 + c6 + c7, c8, "title"@);
        crate::http::lemma_form_value_append(c0 + c1 + c2 + c3 + c4 + c5 + c6 + c7 + c8, c9, "title"@);
        crate::http::lemma_form_value_append(c0 + c1 + c2 + c3 + c4 + c5 + c6 + c7 + c8 + c9, c10, "title"@);
        crate::http::lemma_form_value_append(c0 + c1 + c2 + c3 + c4 + c5 + c6 + c7 + c8 + c9 + c10, c11, "title"@);
    }
    assert(crate::http::form_value(form, "token"@) == token) by {
        crate::http::lemma_form_value_pair("f"@, "json"@, "token"@);
        crate::http::lemma_form_value_pair("title"@, p.title@, "token"@);
        crate::http::lemma_form_value_opt_pair("token"@, token, "token"@);
        crate::http::lemma_form_value_opt_pair("description"@, p.description.deep_view(), "token"@);
        crate::http::lemma_form_value_opt_pair("snippet"@, p.snippet.deep_view(), "token"@);
        crate::http::lemma_form_value_opt_pair("tags"@, opt_join(p.tags), "token"@);
        crate::http::lemma_form_value_opt_pair("access"@, p.access.deep_view(), "token"@);
        crate::http::lemma_form_value_opt_pair("isInvitationOnly"@, opt_bool(p.is_invitation_only), "token"@);
        crate::http::lemma_form_value_opt_pair("isViewOnly"@, opt_bool(p.is_view_only), "token"@);
        crate::http::lemma_form_value_opt_pair("autoJoin"@, opt_bool(p.auto_join), "token"@);
        crate::http::lemma_form_value_opt_pair("sortField"@, p.sort_field.deep_view(), "token"@);
        crate::http::lemma_form_value_opt_pair("sortOrder"@, p.sort_order.deep_view(), "token"@);
        crate::http::lemma_form_value_append(c0, c1, "token"@);
        crate::http::lemma_form_value_append(c0 + c1, c2, "token"@);
        crate::http::lemma_form_value_append(c0 + c1 + c2, c3, "token"@);
        crate::http::lemma_form_value_append(c0 + c1 + c2 + c3, c4, "token"@);
        crate::http::lemma_form_value_append(c0 + c1 + c2 + c3 + c4, c5, "token"@);
        crate::http::lemma_form_value_append(c0 + c1 + c2 + c3 + c4 + c5, c6, "token"@);
        crate::http::lemma_form_value_append(c0 + c1 + c2 + c3 + c4 + c5 + c6, c7, "token"@);
        crate::http::lemma_form_value_append(c0 + c1 + c2 + c3 + c4 + c5 + c6 + c7, c8, "token"@);
        crate::http::lemma_form_value_append(c0 + c1 + c2 + c3 + c4 + c5 + c6 + c7 + c8, c9, "token"@);
        crate::http::lemma_form_value_append(c0 + c1 + c2 + c3 + c4 + c5 + c6 + c7 + c8 + c9, c10, "token"@);
        crate::http::lemma_form_value_append(c0 + c1 + c2 + c3 + c4 + c5 + c6 + c7 + c8 + c9 + c10, c11, "token"@);
    }
    assert(crate::http::form_value(form, "description"@) == p.description.deep_view()) by {
        crate::http::lemma_form_value_pair("f"@, "json"@, "description"@);
        crate::http::lemma_form_value_pair("title"@, p.title@, "description"@);
        crate::http::lemma_form_value_opt_pair("token"@, token, "description"@);
        crate::http::lemma_form_value_opt_pair("description"@, p.description.deep_view(), "description"@);
        crate::http::lemma_form_value_opt_pair("snippet"@, p.snippet.deep_view(), "description"@);
        crate::http::lemma_form_value_opt_pair("tags"@, opt_join(p.tags), "description"@);
        crate::http::lemma_form_value_opt_pair("access"@, p.access.deep_view(), "description"@);
        crate::http::lemma_form_value_opt_pair("isInvitationOnly"@, opt_bool(p.is_invitation_only), "description"@);
        crate::http::lemma_form_value_opt_pair("isViewOnly"@, opt_bool(p.is_view_only), "description"@);
        crate::http::lemma_form_value_opt_pair("autoJoin"@, opt_bool(p.auto_join), "description"@);
        crate::http::lemma_form_value_opt_pair("sortField"@, p.sort_field.deep_view(), "description"@);
        crate::http::lemma_form_value_opt_pair("sortOrder"@, p.sort_order.deep_view(), "description"@);
        crate::http::lemma_form_value_append(c0, c1, "description"@);
        crate::http::lemma_form_value_append(c0 + c1, c2, "description"@);
        crate::http::lemma_form_value_append(c0 + c1 + c2, c3, "description"@);
        crate::http::lemma_form_value_append(c0 + c1 + c2 + c3, c4, "description"@);
        crate::http::lemma_form_value_append(c0 + c1 + c2 + c3 + c4, c5, "description"@);
        crate::http::lemma_form_value_append(c0 + c1 + c2 + c3 + c4 + c5, c6, "description"@);
        crate::http::lemma_form_value_append(c0 + c1 + c2 + c3 + c4 + c5 + c6, c7, "description"@);
        crate::http::lemma_form_value_append(c0 + c1 + c2 + c3 + c4 + c5 + c6 + c7, c8, "description"@);
        crate::http::lemma_form_value_append(c0 + c1 + c2 + c3 + c4 + c5 + c6 + c7 + c8, c9, "description"@);
        crate::http::lemma_form_value_append(c0 + c1 + c2 + c3 + c4 + c5 + c6 + c7 + c8 + c9, c10, "description"@);
        crate::http::lemma_form_value_append(c0 + c1 + c2 + c3 + c4 + c5 + c6 + c7 + c8 + c9 + c10, c11, "description"@);
    }
    assert(crate::http::form_value(form, "snippet"@) == p.snippet.deep_view()) by {
        crate::http::lemma_form_value_pair("f"@, "json"@, "snippet"@);
        crate::http::lemma_form_value_pair("title"@, p.title@, "snippet"@);
        crate::http::lemma_form_value_opt_pair("token"@, token, "snippet"@);
        crate::http::lemma_form_value_opt_pair("description"@, p.description.deep_view(), "snippet"@);
        crate::http::lemma_form_value_opt_pair("snippet"@, p.snippet.deep_view(), "snippet"@);
        crate::http::lemma_form_value_opt_pair("tags"@, opt_join(p.tags), "snippet"@);
        crate::http::lemma_form_value_opt_pair("access"@, p.access.deep_view(), "snippet"@);
        crate::http::lemma_form_value_opt_pair("isInvitationOnly"@, opt_bool(p.is_invitation_only), "snippet"@);
        crate::http::lemma_form_value_opt_pair("isViewOnly"@, opt_bool(p.is_view_only), "snippet"@);
        crate::http::lemma_form_value_opt_pair("autoJoin"@, opt_bool(p.auto_join), "snippet"@);
        crate::http::lemma_form_value_opt_pair("sortField"@, p.sort_field.deep_view(), "snippet"@);
        crate::http::lemma_form_value_opt_pair("sortOrder"@, p.sort_order.deep_view(), "snippet"@);
        crate::http::lemma_form_value_append(c0, c1, "snippet"@);
        crate::http::lemma_form_value_append(c0 + c1, c2, "snippet"@);
        crate::http::lemma_form_value_append(c0 + c1 + c2, c3, "snippet"@);
        crate::http::lemma_form_value_append(c0 + c1 + c2 + c3, c4, "snippet"@);
        crate::http::lemma_form_value_append(c0 + c1 + c2 + c3 + c4, c5, "snippet"@);
        crate::http::lemma_form_value_append(c0 + c1 + c2 + c3 + c4 + c5, c6, "snippet"@);
        crate::http::lemma_form_value_append(c0 + c1 + c2 + c3 + c4 + c5 + c6, c7, "snippet"@);
        crate::http::lemma_form_value_append(c0 + c1 + c2 + c3 + c4 + c5 + c6 + c7, c8, "snippet"@);
        crate::http::lemma_form_value_append(c0 + c1 + c2 + c3 + c4 + c5 + c6 + c7 + c8, c9, "snippet"@);
        crate::http::lemma_form_value_append(c0 + c1 + c2 + c3 + c4 + c5 + c6 + c7 + c8 + c9, c10, "snippet"@);
        crate::http::lemma_form_value_append(c0 + c1 + c2 + c3 + c4 + c5 + c6 + c7 + c8 + c9 + c10, c11, "snippet"@);
    }
    assert(crate::http::form_value(form, "tags"@) == opt_join(p.tags)) by {
        crate::http::lemma_form_value_pair("f"@, "json"@, "tags"@);
        crate::http::lemma_form_value_pair("title"@, p.title@, "tags"@);
        crate::http::lemma_form_value_opt_pair("token"@, token, "tags"@);
        crate::http::lemma_form_value_opt_pair("description"@, p.description.deep_view(), "tags"@);
        crate::http::lemma_form_value_opt_pair("snippet"@, p.snippet.deep_view(), "tags"@);
        crate::http::lemma_form_value_opt_pair("tags"@, opt_join(p.tags), "tags"@);
        crate::http::lemma_form_value_opt_pair("access"@, p.access.deep_view(), "tags"@);
        crate::http::lemma_form_value_opt_pair("isInvitationOnly"@, opt_bool(p.is_invitation_only), "tags"@);
        crate::http::lemma_form_value_opt_pair("isViewOnly"@, opt_bool(p.is_view_only), "tags"@);
        crate::http::lemma_form_value_opt_pair("autoJoin"@, opt_bool(p.auto_join), "tags"@);
        crate::http::lemma_form_value_opt_pair("sortField"@, p.sort_field.deep_view(), "tags"@);
        crate::http::lemma_form_value_opt_pair("sortOrder"@, p.sort_order.deep_view(), "tags"@);
        crate::http::lemma_form_value_append(c0, c1, "tags"@);
        crate::http::lemma_form_value_append(c0 + c1, c2, "tags"@);
        crate::http::lemma_form_value_append(c0 + c1 + c2, c3, "tags"@);
        crate::http::lemma_form_value_append(c0 + c1 + c2 + c3, c4, "tags"@);
        crate::http::lemma_form_value_append(c0 + c1 + c2 + c3 + c4, c5, "tags"@);
        crate::http::lemma_form_value_append(c0 + c1 + c2 + c3 + c4 + c5, c6, "tags"@);
        crate::http::lemma_form_value_append(c0 + c1 + c2 + c3 + c4 + c5 + c6, c7, "tags"@);
        crate::http::lemma_form_value_append(c0 + c1 + c2 + c3 + c4 + c5 + c6 + c7, c8, "tags"@);
        crate::http::lemma_form_value_append(c0 + c1 + c2 + c3 + c4 + c5 + c6 + c7 + c8, c9, "tags"@);
        crate::http::lemma_form_value_append(c0 + c1 + c2 + c3 + c4 + c5 + c6 + c7 + c8 + c9, c10, "tags"@);
        crate::http::lemma_form_value_append(c0 + c1 + c2 + c3 + c4 + c5 + c6 + c7 + c8 + c9 + c10, c11, "tags"@);
    }
    assert(crate::http::form_value(form, "access"@) == p.access.deep_view()) by {
        crate::http::lemma_form_value_pair("f"@, "json"@, "access"@);
        crate::http::lemma_form_value_pair("title"@, p.title@, "access"@);
        crate::http::lemma_form_value_opt_pair("token"@, token, "access"@);
        crate::http::lemma_form_value_opt_pair("description"@, p.description.deep_view(), "access"@);
        crate::http::lemma_form_value_opt_pair("snippet"@, p.snippet.deep_view(), "access"@);
        crate::http::lemma_form_value_opt_pair("tags"@, opt_join(p.tags), "access"@);
        crate::http::lemma_form_value_opt_pair("access"@, p.access.deep_view(), "access"@);
        crate::http::lemma_form_value_opt_pair("isInvitationOnly"@, opt_bool(p.is_invitation_only), "access"@);
        crate::http::lemma_form_value_opt_pair("isViewOnly"@, opt_bool(p.is_view_only), "access"@);
        crate::http::lemma_form_value_opt_pair("autoJoin"@, opt_bool(p.auto_join), "access"@);
        crate::http::lemma_form_value_opt_pair("sortField"@, p.sort_field.deep_view(), "access"@);
        crate::http::lemma_form_value_opt_pair("sortOrder"@, p.sort_order.deep_view(), "access"@);
        crate::http::lemma_form_value_append(c0, c1, "access"@);
        crate::http::lemma_form_value_append(c0 + c1, c2, "access"@);
        crate::http::lemma_form_value_append(c0 + c1 + c2, c3, "access"@);
        crate::http::lemma_form_value_append(c0 + c1 + c2 + c3, c4, "access"@);
        crate::http::lemma_form_value_append(c0 + c1 + c2 + c3 + c4, c5, "access"@);
        crate::http::lemma_form_value_append(c0 + c1 + c2 + c3 + c4 + c5, c6, "access"@);
        crate::http::lemma_form_value_append(c0 + c1 + c2 + c3 + c4 + c5 + c6, c7, "access"@);
        crate::http::lemma_form_value_append(c0 + c1 + c2 + c3 + c4 + c5 + c6 + c7, c8, "access"@);
        crate::http::lemma_form_value_append(c0 + c1 + c2 + c3 + c4 + c5 + c6 + c7 + c8, c9, "access"@);
        crate::http::lemma_form_value_append(c0 + c1 + c2 + c3 + c4 + c5 + c6 + c7 + c8 + c9, c10, "access"@);
        crate::http::lemma_form_value_append(c0 + c1 + c2 + c3 + c4 + c5 + c6 + c7 + c8 + c9 + c10, c11, "access"@);
    }
    assert(crate::http::form_value(form, "isInvitationOnly"@) == opt_bool(p.is_invitation_only)) by {
        crate::http::lemma_form_value_pair("f"@, "json"@, "isInvitationOnly"@);
        crate::http::lemma_form_value_pair("title"@, p.title@, "isInvitationOnly"@);
        crate::http::lemma_form_value_opt_pair("token"@, token, "isInvitationOnly"@);
        crate::http::lemma_form_value_opt_pair("description"@, p.description.deep_view(), "isInvitationOnly"@);
        crate::http::lemma_form_value_opt_pair("snippet"@, p.snippet.deep_view(), "isInvitationOnly"@);
        crate::http::lemma_form_value_opt_pair("tags"@, opt_join(p.tags), "isInvitationOnly"@);
        crate::http::lemma_form_value_opt_pair("access"@, p.access.deep_view(), "isInvitationOnly"@);
        crate::http::lemma_form_value_opt_pair("isInvitationOnly"@, opt_bool(p.is_invitation_only), "isInvitationOnly"@);
        crate::http::lemma_form_value_opt_pair("isViewOnly"@, opt_bool(p.is_view_only), "isInvitationOnly"@);
        crate::http::lemma_form_value_opt_pair("autoJoin"@, opt_bool(p.auto_join), "isInvitationOnly"@);
        crate::http::lemma_form_value_opt_pair("sortField"@, p.sort_field.deep_view(), "isInvitationOnly"@);
        crate::http::lemma_form_value_opt_pair("sortOrder"@, p.sort_order.deep_view(), "isInvitationOnly"@);
        crate::http::lemma_form_value_append(c0, c1, "isInvitationOnly"@);
        crate::http::lemma_form_value_append(c0 + c1, c2, "isInvitationOnly"@);
        crate::http::lemma_form_value_append(c0 + c1 + c2, c3, "isInvitationOnly"@);
        crate::http::lemma_form_value_append(c0 + c1 + c2 + c3, c4, "isInvitationOnly"@);
        crate::http::lemma_form_value_append(c0 + c1 + c2 + c3 + c4, c5, "isInvitationOnly"@);
        crate::http::lemma_form_value_append(c0 + c1 + c2 + c3 + c4 + c5, c6, "isInvitationOnly"@);
        crate::http::lemma_form_value_append(c0 + c1 + c2 + c3 + c4 + c5 + c6, c7, "isInvitationOnly"@);
        crate::http::lemma_form_value_append(c0 + c1 + c2 + c3 + c4 + c5 + c6 + c7, c8, "isInvitationOnly"@);
        crate::http::lemma_form_value_append(c0 + c1 + c2 + c3 + c4 + c5 + c6 + c7 + c8, c9, "isInvitationOnly"@);
        crate::http::lemma_form_value_append(c0 + c1 + c2 + c3 + c4 + c5 + c6 + c7 + c8 + c9, c10, "isInvitationOnly"@);
        crate::http::lemma_form_value_append(c0 + c1 + c2 + c3 + c4 + c5 + c6 + c7 + c8 + c9 + c10, c11, "isInvitationOnly"@);
    }
    assert(crate::http::form_value(form, "isViewOnly"@) == opt_bool(p.is_view_only)) by {
        crate::http::lemma_form_value_pair("f"@, "json"@, "isViewOnly"@);
        crate::http::lemma_form_value_pair("title"@, p.title@, "isViewOnly"@);
        crate::http::lemma_form_value_opt_pair("token"@, token, "isViewOnly"@);
        crate::http::lemma_form_value_opt_pair("description"@, p.description.deep_view(), "isViewOnly"@);
        crate::http::lemma_form_value_opt_pair("snippet"@, p.snippet.deep_view(), "isViewOnly"@);
        crate::http::lemma_form_value_opt_pair("tags"@, opt_join(p.tags), "isViewOnly"@);
        crate::http::lemma_form_value_opt_pair("access"@, p.access.deep_view(), "isViewOnly"@);
        crate::http::lemma_form_value_opt_pair("isInvitationOnly"@, opt_bool(p.is_invitation_only), "isViewOnly"@);
        crate::http::lemma_form_value_opt_pair("isViewOnly"@, opt_bool(p.is_view_only), "isViewOnly"@);
        crate::http::lemma_form_value_opt_pair("autoJoin"@, opt_bool(p.auto_join), "isViewOnly"@);
        crate::http::lemma_form_value_opt_pair("sortField"@, p.sort_field.deep_view(), "isViewOnly"@);
        crate::http::lemma_form_value_opt_pair("sortOrder"@, p.sort_order.deep_view(), "isViewOnly"@);
        crate::http::lemma_form_value_append(c0, c1, "isViewOnly"@);
        crate::http::lemma_form_value_append(c0 + c1, c2, "isViewOnly"@);
        crate::http::lemma_form_value_append(c0 + c1 + c2, c3, "isViewOnly"@);
        crate::http::lemma_form_value_append(c0 + c1 + c2 + c3, c4, "isViewOnly"@);
        crate::http::lemma_form_value_append(c0 + c1 + c2 + c3 + c4, c5, "isViewOnly"@);
        crate::http::lemma_form_value_append(c0 + c1 + c2 + c3 + c4 + c5, c6, "isViewOnly"@);
        crate::http::lemma_form_value_append(c0 + c1 + c2 + c3 + c4 + c5 + c6, c7, "isViewOnly"@);
        crate::http::lemma_form_value_append(c0 + c1 + c2 + c3 + c4 + c5 + c6 + c7, c8, "isViewOnly"@);
        crate::http::lemma_form_value_append(c0 + c1 + c2 + c3 + c4 + c5 + c6 + c7 + c8, c9, "isViewOnly"@);
        crate::http::lemma_form_value_append(c0 + c1 + c2 + c3 + c4 + c5 + c6 + c7 + c8 + c9, c10, "isViewOnly"@);
        crate::http::lemma_form_value_append(c0 + c1 + c2 + c3 + c4 + c5 + c6 + c7 + c8 + c9 + c10, c11, "isViewOnly"@);
    }
    assert(crate::http::form_value(form, "autoJoin"@) == opt_bool(p.auto_join)) by {
        crate::http::lemma_form_value_pair("f"@, "json"@, "autoJoin"@);
        crate::http::lemma_form_value_pair("title"@, p.title@, "autoJoin"@);
        crate::http::lemma_form_value_opt_pair("token"@, token, "autoJoin"@);
        crate::http::lemma_form_value_opt_pair("description"@, p.description.deep_view(), "autoJoin"@);
        crate::http::lemma_form_value_opt_pair("snippet"@, p.snippet.deep_view(), "autoJoin"@);
        crate::http::lemma_form_value_opt_pair("tags"@, opt_join(p.tags), "autoJoin"@);
        crate::http::lemma_form_value_opt_pair("access"@, p.access.deep_view(), "autoJoin"@);
        crate::http::lemma_form_value_opt_pair("isInvitationOnly"@, opt_bool(p.is_invitation_only), "autoJoin"@);
        crate::http::lemma_form_value_opt_pair("isViewOnly"@, opt_bool(p.is_view_only), "autoJoin"@);
        crate::http::lemma_form_value_opt_pair("autoJoin"@, opt_bool(p.auto_join), "autoJoin"@);
        crate::http::lemma_form_value_opt_pair("sortField"@, p.sort_field.deep_view(), "autoJoin"@);
        crate::http::lemma_form_value_opt_pair("sortOrder"@, p.sort_order.deep_view(), "autoJoin"@);
        crate::http::lemma_form_value_append(c0, c1, "autoJoin"@);
        crate::http::lemma_form_value_append(c0 + c1, c2, "autoJoin"@);
        crate::http::lemma_form_value_append(c0 + c1 + c2, c3, "autoJoin"@);
        crate::http::lemma_form_value_append(c0 + c1 + c2 + c3, c4, "autoJoin"@);
        crate::http::lemma_form_value_append(c0 + c1 + c2 + c3 + c4, c5, "autoJoin"@);
        crate::http::lemma_form_value_append(c0 + c1 + c2 + c3 + c4 + c5, c6, "autoJoin"@);
        crate::http::lemma_form_value_append(c0 + c1 + c2 + c3 + c4 + c5 + c6, c7, "autoJoin"@);
        crate::http::lemma_form_value_append(c0 + c1 + c2 + c3 + c4 + c5 + c6 + c7, c8, "autoJoin"@);
        crate::http::lemma_form_value_append(c0 + c1 + c2 + c3 + c4 + c5 + c6 + c7 + c8, c9, "autoJoin"@);
        crate::http::lemma_form_value_append(c0 + c1 + c2 + c3 + c4 + c5 + c6 + c7 + c8 + c9, c10, "autoJoin"@);
        crate::http::lemma_form_value_append(c0 + c1 + c2 + c3 + c4 + c5 + c6 + c7 + c8 + c9 + c10, c11, "autoJoin"@);
    }
    assert(crate::http::form_value(form, "sortField"@) == p.sort_field.deep_view()) by {
        crate::http::lemma_form_value_pair("f"@, "json"@, "sortField"@);
        crate::http::lemma_form_value_pair("title"@, p.title@, "sortField"@);
        crate::http::lemma_form_value_opt_pair("token"@, token, "sortField"@);
        crate::http::lemma_form_value_opt_pair("description"@, p.description.deep_view(), "sortField"@);
        crate::http::lemma_form_value_opt_pair("snippet"@, p.snippet.deep_view(), "sortField"@);
        crate::http::lemma_form_value_opt_pair("tags"@, opt_join(p.tags), "sortField"@);
        crate::http::lemma_form_value_opt_pair("access"@, p.access.deep_view(), "sortField"@);
        crate::http::lemma_form_value_opt_pair("isInvitationOnly"@, opt_bool(p.is_invitation_only), "sortField"@);
        crate::http::lemma_form_value_opt_pair("isViewOnly"@, opt_bool(p.is_view_only), "sortField"@);
        crate::http::lemma_form_value_opt_pair("autoJoin"@, opt_bool(p.auto_join), "sortField"@);
        crate::http::lemma_form_value_opt_pair("sortField"@, p.sort_field.deep_view(), "sortField"@);
        crate::http::lemma_form_value_opt_pair("sortOrder"@, p.sort_order.deep_view(), "sortField"@);
        crate::http::lemma_form_value_append(c0, c1, "sortField"@);
        crate::http::lemma_form_value_append(c0 + c1, c2, "sortField"@);
        crate::http::lemma_form_value_append(c0 + c1 + c2, c3, "sortField"@);
        crate::http::lemma_form_value_append(c0 + c1 + c2 + c3, c4, "sortField"@);
        crate::http::lemma_form_value_append(c0 + c1 + c2 + c3 + c4, c5, "sortField"@);
        crate::http::lemma_form_value_append(c0 + c1 + c2 + c3 + c4 + c5, c6, "sortField"@);
        crate::http::lemma_form_value_append(c0 + c1 + c2 + c3 + c4 + c5 + c6, c7, "sortField"@);
        crate::http::lemma_form_value_append(c0 + c1 + c2 + c3 + c4 + c5 + c6 + c7, c8, "sortField"@);
        crate::http::lemma_form_value_append(c0 + c1 + c2 + c3 + c4 + c5 + c6 + c7 + c8, c9, "sortField"@);
        crate::http::lemma_form_value_append(c0 + c1 + c2 + c3 + c4 + c5 + c6 + c7 + c8 + c9, c10, "sortField"@);
        crate::http::lemma_form_value_append(c0 + c1 + c2 + c3 + c4 + c5 + c6 + c7 + c8 + c9 + c10, c11, "sortField"@);
    }
    assert(crate::http::form_value(form, "sortOrder"@) == p.sort_order.deep_view()) by {
        crate::http::lemma_form_value_pair("f"@, "json"@, "sortOrder"@);
        crate::http::lemma_form_value_pair("title"@, p.title@, "sortOrder"@);
        crate::http::lemma_form_value_opt_pair("token"@, token, "sortOrder"@);
        crate::http::lemma_form_value_opt_pair("description"@, p.description.deep_view(), "sortOrder"@);
        crate::http::lemma_form_value_opt_pair("snippet"@, p.snippet.deep_view(), "sortOrder"@);
        crate::http::lemma_form_value_opt_pair("tags"@, opt_join(p.tags), "sortOrder"@);
        crate::http::lemma_form_value_opt_pair("access"@, p.access.deep_view(), "sortOrder"@);
        crate::http::lemma_form_value_opt_pair("isInvitationOnly"@, opt_bool(p.is_invitation_only), "sortOrder"@);
        crate::http::lemma_form_value_opt_pair("isViewOnly"@, opt_bool(p.is_view_only), "sortOrder"@);
        crate::http::lemma_form_value_opt_pair("autoJoin"@, opt_bool(p.auto_join), "sortOrder"@);
        crate::http::lemma_form_value_opt_pair("sortField"@, p.sort_field.deep_view(), "sortOrder"@);
        crate::http::lemma_form_value_opt_pair("sortOrder"@, p.sort_order.deep_view(), "sortOrder"@);
        crate::http::lemma_form_value_append(c0, c1, "sortOrder"@);
        crate::http::lemma_form_value_append(c0 + c1, c2, "sortOrder"@);
        crate::http::lemma_form_value_append(c0 + c1 + c2, c3, "sortOrder"@);
        crate::http::lemma_form_value_append(c0 + c1 + c2 + c3, c4, "sortOrder"@);
        crate::http::lemma_form_value_append(c0 + c1 + c2 + c3 + c4, c5, "sortOrder"@);
        crate::http::lemma_form_value_append(c0 + c1 + c2 + c3 + c4 + c5, c6, "sortOrder"@);
        crate::http::lemma_form_value_append(c0 + c1 + c2 + c3 + c4 + c5 + c6, c7, "sortOrder"@);
        crate::http::lemma_form_value_append(c0 + c1 + c2 + c3 + c4 + c5 + c6 + c7, c8, "sortOrder"@);
        crate::http::lemma_form_value_append(c0 + c1 + c2 + c3 + c4 + c5 + c6 + c7 + c8, c9, "sortOrder"@);
        crate::http::lemma_form_value_append(c0 + c1 + c2 + c3 + c4 + c5 + c6 + c7 + c8 + c9, c10, "sortOrder"@);
        crate::http::lemma_form_value_append(c0 + c1 + c2 + c3 + c4 + c5 + c6 + c7 + c8 + c9 + c10, c11, "sortOrder"@);
    }
}

/// Each field of `update_group_parts` carries the value built from its own input: a
/// required field is always present, an optional one exactly when its
/// input is given.
pub proof fn lemma_update_group_parts_fields(p: UpdateGroupParams, token: Option<Seq<char>>)
    ensures
        crate::http::form_value(update_group_parts(p, token), "f"@) == Some("json"@),
        crate::http::form_value(update_group_parts(p, token), "token"@) == token,
        crate::http::form_value(update_group_parts(p, token), "title"@) == p.title.deep_view(),
        crate::http::form_value(update_group_parts(p, token), "description"@) == p.description.deep_view(),
        crate::http::form_value(update_group_parts(p, token), "snippet"@) == p.snippet.deep_view(),
        crate::http::form_value(update_group_parts(p, token), "tags"@) == opt_join(p.tags),
        crate::http::form_value(update_group_parts(p, token), "access"@) == p.access.deep_view(),
        crate::http::form_value(update_group_parts(p, token), "isInvitationOnly"@) == opt_bool(p.is_invitation_only),
        crate::http::form_value(update_group_parts(p, token), "isViewOnly"@) == opt_bool(p.is_view_only),
        crate::http::form_value(update_group_parts(p, token), "sortField"@) == p.sort_field.deep_view(),
        crate::http::form_value(update_group_parts(p, token), "sortOrder"@) == p.sort_order.deep_view(),
{
    reveal_strlit("access");
    reveal_strlit("description");
    reveal_strlit("f");
    reveal_strlit("isInvitationOnly");
    reveal_strlit("isViewOnly");
    reveal_strlit("json");
    reveal_strlit("snippet");
    reveal_strlit("sortField");
    reveal_strlit("sortOrder");
    reveal_strlit("tags");
    reveal_strlit("title");
    reveal_strlit("token");
    assert("f"@.len() != "token"@.len());
    assert("f"@.len() != "title"@.len());
    assert("f"@.len() != "description"@.len());
    assert("f"@.len() != "snippet"@.len());
    assert("f"@.len() != "tags"@.len());
    assert("f"@.len() != "access"@.len());
    assert("f"@.len() != "isInvitationOnly"@.len());
    assert("f"@.len() != "isViewOnly"@.len());
    assert("f"@.len() != "sortField"@.len());
    assert("f"@.len() != "sortOrder"@.len());
    assert("token"@[1] != "title"@[1]);
    assert("token"@.len() != "description"@.len());
    assert("token"@.len() != "snippet"@.len());
    assert("token"@.len() != "tags"@.len());
    assert("token"@.len() != "access"@.len());
    assert("token"@.len() != "isInvitationOnly"@.len());
    assert("token"@.len() != "isViewOnly"@.len());
    assert("token"@.len() != "sortField"@.len());
    assert("token"@.len() != "sortOrder"@.len());
    assert("title"@.len() != "description"@.len());
    assert("title"@.len() != "snippet"@.len());
    assert("title"@.len() != "tags"@.len());
    assert("title"@.len() != "access"@.len());
    assert("title"@.len() != "isInvitationOnly"@.len());
    assert("title"@.len() != "isViewOnly"@.len());
    assert("title"@.len() != "sortField"@.len());
    assert("title"@.len() != "sortOrder"@.len());
    assert("description"@.len() != "snippet"@.len());
    assert("description"@.len() != "tags"@.len());
    assert("description"@.len() != "access"@.len());
    assert("description"@.len() != "isInvitationOnly"@.len());
    assert("description"@.len() != "isViewOnly"@.len());
    assert("description"@.len() != "sortField"@.len());
    assert("description"@.len() != "sortOrder"@.len());
    assert("snippet"@.len() != "tags"@.len());
    assert("snippet"@.len() != "access"@.len());
    assert("snippet"@.len() != "isInvitationOnly"@.len());
    assert("snippet"@.len() != "isViewOnly"@.len());
    assert("snippet"@.len() != "sortField"@.len());
    assert("snippet"@.len() != "sortOrder"@.len());
    assert("tags"@.len() != "access"@.len());
    assert("tags"@.len() != "isInvitationOnly"@.len());
    assert("tags"@.len() != "isViewOnly"@.len());
    assert("tags"@.len() != "sortField"@.len());
    assert("tags"@.len() != "sortOrder"@.len());
    assert("access"@.len() != "isInvitationOnly"@.len());
    assert("access"@.len() != "isViewOnly"@.len());
    assert("access"@.len() != "sortField"@.len());
    assert("access"@.len() != "sortOrder"@.len());
    assert("isInvitationOnly"@.len() != "isViewOnly"@.len());
    assert("isInvitationOnly"@.len() != "sortField"@.len());
    assert("isInvitationOnly"@.len() != "sortOrder"@.len());
    assert("isViewOnly"@.len() != "sortField"@.len());
    assert("isViewOnly"@.len() != "sortOrder"@.len());
    assert("sortField"@[4] != "sortOrder"@[4]);
    let c0 = pair("f"@, "json"@);
    let c1 = opt_pair("token"@, token);
    let c2 = opt_pair("title"@, p.title.deep_view());
    let c3 = opt_pair("description"@, p.description.deep_view());
    let c4 = opt_pair("snippet"@, p.snippet.deep_view());
    let c5 = opt_pair("tags"@, opt_join(p.tags));
    let c6 = opt_pair("access"@, p.access.deep_view());
    let c7 = opt_pair("isInvitationOnly"@, opt_bool(p.is_invitation_only));
    let c8 = opt_pair("isViewOnly"@, opt_bool(p.is_view_only));
    let c9 = opt_pair("sortField"@, p.sort_field.deep_view());
    let c10 = opt_pair("sortOrder"@, p.sort_order.deep_view());
    let form = update_group_parts(p, token);
    assert(form == c0 + c1 + c2 + c3 + c4 + c5 + c6 + c7 + c8 + c9 + c10);
    assert(crate::http::form_value(form, "f"@) == Some("json"@)) by {
        crate::http::lemma_form_value_pair("f"@, "json"@, "f"@);
        crate::http::lemma_form_value_opt_pair("token"@, token, "f"@);
        crate::http::lemma_form_value_opt_pair("title"@, p.title.deep_view(), "f"@);
        crate::http::lemma_form_value_opt_pair("description"@, p.description.deep_view(), "f"@);
        crate::http::lemma_form_value_opt_pair("snippet"@, p.snippet.deep_view(), "f"@);
        crate::http::lemma_form_value_opt_pair("tags"@, opt_join(p.tags), "f"@);
        crate::http::lemma_form_value_opt_pair("access"@, p.access.deep_view(), "f"@);
        crate::http::lemma_form_value_opt_pair("isInvitationOnly"@, opt_bool(p.is_invitation_only), "f"@);
        crate::http::lemma_form_value_opt_pair("isViewOnly"@, opt_bool(p.is_view_only), "f"@);
        crate::http::lemma_form_value_opt_pair("sortField"@, p.sort_field.deep_view(), "f"@);
        crate::http::lemma_form_value_opt_pair("sortOrder"@, p.sort_order.deep_view(), "f"@);
        crate::http::lemma_form_value_append(c0, c1, "f"@);
        crate::http::lemma_form_value_append(c0 + c1, c2, "f"@);
        crate::http::lemma_form_value_append(c0 + c1 + c2, c3, "f"@);
        crate::http::lemma_form_value_append(c0 + c1 + c2 + c3, c4, "f"@);
        crate::http::lemma_form_value_append(c0 + c1 + c2 + c3 + c4, c5, "f"@);
        crate::http::lemma_form_value_append(c0 + c1 + c2 + c3 + c4 + c5, c6, "f"@);
        crate::http::lemma_form_value_append(c0 + c1 + c2 + c3 + c4 + c5 + c6, c7, "f"@);
        crate::http::lemma_form_value_append(c0 + c1 + c2 + c3 + c4 + c5 + c6 + c7, c8, "f"@);
        crate::http::lemma_form_value_append(c0 + c1 + c2 + c3 + c4 + c5 + c6 + c7 + c8, c9, "f"@);
        crate::http::lemma_form_value_append(c0 + c1 + c2 + c3 + c4 + c5 + c6 + c7 + c8 + c9, c10, "f"@);
    }
    assert(crate::http::form_value(form, "token"@) == token) by {
        crate::http::lemma_form_value_pair("f"@, "json"@, "token"@);
        crate::http::lemma_form_value_opt_pair("token"@, token, "token"@);
        crate::http::lemma_form_value_opt_pair("title"@, p.title.deep_view(), "token"@);
        crate::http::lemma_form_value_opt_pair("description"@, p.description.deep_view(), "token"@);
        crate::http::lemma_form_value_opt_pair("snippet"@, p.snippet.deep_view(), "token"@);
        crate::http::lemma_form_value_opt_pair("tags"@, opt_join(p.tags), "token"@);
        crate::http::lemma_form_value_opt_pair("access"@, p.access.deep_view(), "token"@);
        crate::http::lemma_form_value_opt_pair("isInvitationOnly"@, opt_bool(p.is_invitation_only), "token"@);
        crate::http::lemma_form_value_opt_pair("isViewOnly"@, opt_bool(p.is_view_only), "token"@);
        crate::http::lemma_form_value_opt_pair("sortField"@, p.sort_field.deep_view(), "token"@);
        crate::http::lemma_form_value_opt_pair("sortOrder"@, p.sort_order.deep_view(), "token"@);
        crate::http::lemma_form_value_append(c0, c1, "token"@);
        crate::http::lemma_form_value_append(c0 + c1, c2, "token"@);
        crate::http::lemma_form_value_append(c0 + c1 + c2, c3, "token"@);
        crate::http::lemma_form_value_append(c0 + c1 + c2 + c3, c4, "token"@);
        crate::http::lemma_form_value_append(c0 + c1 + c2 + c3 + c4, c5, "token"@);
        crate::http::lemma_form_value_append(c0 + c1 + c2 + c3 + c4 + c5, c6, "token"@);
        crate::http::lemma_form_value_append(c0 + c1 + c2 + c3 + c4 + c5 + c6, c7, "token"@);
        crate::http::lemma_form_value_append(c0 + c1 + c2 + c3 + c4 + c5 + c6 + c7, c8, "token"@);
        crate::http::lemma_form_value_append(c0 + c1 + c2 + c3 + c4 + c5 + c6 + c7 + c8, c9, "token"@);
        crate::http::lemma_form_value_append(c0 + c1 + c2 + c3 + c4 + c5 + c6 + c7 + c8 + c9, c10, "token"@);
    }
    assert(crate::http::form_value(form, "title"@) == p.title.deep_view()) by {
        crate::http::lemma_form_value_pair("f"@, "json"@, "title"@);
        crate::http::lemma_form_value_opt_pair("token"@, token, "title"@);
        crate::http::lemma_form_value_opt_pair("title"@, p.title.deep_view(), "title"@);
        crate::http::lemma_form_value_opt_pair("description"@, p.description.deep_view(), "title"@);
        crate::http::lemma_form_value_opt_pair("snippet"@, p.snippet.deep_view(), "title"@);
        crate::http::lemma_form_value_opt_pair("tags"@, opt_join(p.tags), "title"@);
        crate::http::lemma_form_value_opt_pair("access"@, p.access.deep_view(), "title"@);
        crate::http::lemma_form_value_opt_pair("isInvitationOnly"@, opt_bool(p.is_invitation_only), "title"@);
        crate::http::lemma_form_value_opt_pair("isViewOnly"@, opt_bool(p.is_view_only), "title"@);
        crate::http::lemma_form_value_opt_pair("sortField"@, p.sort_field.deep_view(), "title"@);
        crate::http::lemma_form_value_opt_pair("sortOrder"@, p.sort_order.deep_view(), "title"@);
        crate::http::lemma_form_value_append(c0, c1, "title"@);
        crate::http::lemma_form_value_append(c0 + c1, c2, "title"@);
        crate::http::lemma_form_value_append(c0 + c1 + c2, c3, "title"@);
        crate::http::lemma_form_value_append(c0 + c1 + c2 + c3, c4, "title"@);
        crate::http::lemma_form_value_append(c0 + c1 + c2 + c3 + c4, c5, "title"@);
        crate::http::lemma_form_value_append(c0 + c1 + c2 + c3 + c4 + c5, c6, "title"@);
        crate::http::lemma_form_value_append(c0 + c1 + c2 + c3 + c4 + c5 + c6, c7, "title"@);
        crate::http::lemma_form_value_append(c0 + c1 + c2 + c3 + c4 + c5 + c6 + c7, c8, "title"@);
        crate::http::lemma_form_value_append(c0 + c1 + c2 + c3 + c4 + c5 + c6 + c7 + c8, c9, "title"@);
        crate::http::lemma_form_value_append(c0 + c1 + c2 + c3 + c4 + c5 + c6 + c7 + c8 + c9, c10, "title"@);
    }
    assert(crate::http::form_value(form, "description"@) == p.description.deep_view()) by {
        crate::http::lemma_form_value_pair("f"@, "json"@, "description"@);
        crate::http::lemma_form_value_opt_pair("token"@, token, "description"@);
        crate::http::lemma_form_value_opt_pair("title"@, p.title.deep_view(), "description"@);
        crate::http::lemma_form_value_opt_pair("description"@, p.description.deep_view(), "description"@);
        crate::http::lemma_form_value_opt_pair("snippet"@, p.snippet.deep_view(), "description"@);
        crate::http::lemma_form_value_opt_pair("tags"@, opt_join(p.tags), "description"@);
        crate::http::lemma_form_value_opt_pair("access"@, p.access.deep_view(), "description"@);
        crate::http::lemma_form_value_opt_pair("isInvitationOnly"@, opt_bool(p.is_invitation_only), "description"@);
        crate::http::lemma_form_value_opt_pair("isViewOnly"@, opt_bool(p.is_view_only), "description"@);
        crate::http::lemma_form_value_opt_pair("sortField"@, p.sort_field.deep_view(), "description"@);
        crate::http::lemma_form_value_opt_pair("sortOrder"@, p.sort_order.deep_view(), "description"@);
        crate::http::lemma_form_value_append(c0, c1, "description"@);
        crate::http::lemma_form_value_append(c0 + c1, c2, "description"@);
        crate::http::lemma_form_value_append(c0 + c1 + c2, c3, "description"@);
        crate::http::lemma_form_value_append(c0 + c1 + c2 + c3, c4, "description"@);
        crate::http::lemma_form_value_append(c0 + c1 + c2 + c3 + c4, c5, "description"@);
        crate::http::lemma_form_value_append(c0 + c1 + c2 + c3 + c4 + c5, c6, "description"@);
        crate::http::lemma_form_value_append(c0 + c1 + c2 + c3 + c4 + c5 + c6, c7, "description"@);
        crate::http::lemma_form_value_append(c0 + c1 + c2 + c3 + c4 + c5 + c6 + c7, c8, "description"@);
        crate::http::lemma_form_value_append(c0 + c1 + c2 + c3 + c4 + c5 + c6 + c7 + c8, c9, "description"@);
        crate::http::lemma_form_value_append(c0 + c1 + c2 + c3 + c4 + c5 + c6 + c7 + c8 + c9, c10, "description"@);
    }
    assert(crate::http::form_value(form, "snippet"@) == p.snippet.deep_view()) by {
        crate::http::lemma_form_value_pair("f"@, "json"@, "snippet"@);
        crate::http::lemma_form_value_opt_pair("token"@, token, "snippet"@);
        crate::http::lemma_form_value_opt_pair("title"@, p.title.deep_view(), "snippet"@);
        crate::http::lemma_form_value_opt_pair("description"@, p.description.deep_view(), "snippet"@);
        crate::http::lemma_form_value_opt_pair("snippet"@, p.snippet.deep_view(), "snippet"@);
        crate::http::lemma_form_value_opt_pair("tags"@, opt_join(p.tags), "snippet"@);
        crate::http::lemma_form_value_opt_pair("access"@, p.access.deep_view(), "snippet"@);
        crate::http::lemma_form_value_opt_pair("isInvitationOnly"@, opt_bool(p.is_invitation_only), "snippet"@);
        crate::http::lemma_form_value_opt_pair("isViewOnly"@, opt_bool(p.is_view_only), "snippet"@);
        crate::http::lemma_form_value_opt_pair("sortField"@, p.sort_field.deep_view(), "snippet"@);
        crate::http::lemma_form_value_opt_pair("sortOrder"@, p.sort_order.deep_view(), "snippet"@);
        crate::http::lemma_form_value_append(c0, c1, "snippet"@);
        crate::http::lemma_form_value_append(c0 + c1, c2, "snippet"@);
        crate::http::lemma_form_value_append(c0 + c1 + c2, c3, "snippet"@);
        crate::http::lemma_form_value_append(c0 + c1 + c2 + c3, c4, "snippet"@);
        crate::http::lemma_form_value_append(c0 + c1 + c2 + c3 + c4, c5, "snippet"@);
        crate::http::lemma_form_value_append(c0 + c1 + c2 + c3 + c4 + c5, c6, "snippet"@);
        crate::http::lemma_form_value_append(c0 + c1 + c2 + c3 + c4 + c5 + c6, c7, "snippet"@);
        crate::http::lemma_form_value_append(c0 + c1 + c2 + c3 + c4 + c5 + c6 + c7, c8, "snippet"@);
        crate::http::lemma_form_value_append(c0 + c1 + c2 + c3 + c4 + c5 + c6 + c7 + c8, c9, "snippet"@);
        crate::http::lemma_form_value_append(c0 + c1 + c2 + c3 + c4 + c5 + c6 + c7 + c8 + c9, c10, "snippet"@);
    }
    assert(crate::http::form_value(form, "tags"@) == opt_join(p.tags)) by {
        crate::http::lemma_form_value_pair("f"@, "json"@, "tags"@);
        crate::http::lemma_form_value_opt_pair("token"@, token, "tags"@);
        crate::http::lemma_form_value_opt_pair("title"@, p.title.deep_view(), "tags"@);
        crate::http::lemma_form_value_opt_pair("description"@, p.description.deep_view(), "tags"@);
        crate::http::lemma_form_value_opt_pair("snippet"@, p.snippet.deep_view(), "tags"@);
        crate::http::lemma_form_value_opt_pair("tags"@, opt_join(p.tags), "tags"@);
        crate::http::lemma_form_value_opt_pair("access"@, p.access.deep_view(), "tags"@);
        crate::http::lemma_form_value_opt_pair("isInvitationOnly"@, opt_bool(p.is_invitation_only), "tags"@);
        crate::http::lemma_form_value_opt_pair("isViewOnly"@, opt_bool(p.is_view_only), "tags"@);
        crate::http::lemma_form_value_opt_pair("sortField"@, p.sort_field.deep_view(), "tags"@);
        crate::http::lemma_form_value_opt_pair("sortOrder"@, p.sort_order.deep_view(), "tags"@);
        crate::http::lemma_form_value_append(c0, c1, "tags"@);
        crate::http::lemma_form_value_append(c0 + c1, c2, "tags"@);
        crate::http::lemma_form_value_append(c0 + c1 + c2, c3, "tags"@);
        crate::http::lemma_form_value_append(c0 + c1 + c2 + c3, c4, "tags"@);
        crate::http::lemma_form_value_append(c0 + c1 + c2 + c3 + c4, c5, "tags"@);
        crate::http::lemma_form_value_append(c0 + c1 + c2 + c3 + c4 + c5, c6, "tags"@);
        crate::http::lemma_form_value_append(c0 + c1 + c2 + c3 + c4 + c5 + c6, c7, "tags"@);
        crate::http::lemma_form_value_append(c0 + c1 + c2 + c3 + c4 + c5 + c6 + c7, c8, "tags"@);
        crate::http::lemma_form_value_append(c0 + c1 + c2 + c3 + c4 + c5 + c6 + c7 + c8, c9, "tags"@);
        crate::http::lemma_form_value_append(c0 + c1 + c2 + c3 + c4 + c5 + c6 + c7 + c8 + c9, c10, "tags"@);
    }
    assert(crate::http::form_value(form, "access"@) == p.access.deep_view()) by {
        crate::http::lemma_form_value_pair("f"@, "json"@, "access"@);
        crate::http::lemma_form_value_opt_pair("token"@, token, "access"@);
        crate::http::lemma_form_value_opt_pair("title"@, p.title.deep_view(), "access"@);
        crate::http::lemma_form_value_opt_pair("description"@, p.description.deep_view(), "access"@);
        crate::http::lemma_form_value_opt_pair("snippet"@, p.snippet.deep_view(), "access"@);
        crate::http::lemma_form_value_opt_pair("tags"@, opt_join(p.tags), "access"@);
        crate::http::lemma_form_value_opt_pair("access"@, p.access.deep_view(), "access"@);
        crate::http::lemma_form_value_opt_pair("isInvitationOnly"@, opt_bool(p.is_invitation_only), "access"@);
        crate::http::lemma_form_value_opt_pair("isViewOnly"@, opt_bool(p.is_view_only), "access"@);
        crate::http::lemma_form_value_opt_pair("sortField"@, p.sort_field.deep_view(), "access"@);
        crate::http::lemma_form_value_opt_pair("sortOrder"@, p.sort_order.deep_view(), "access"@);
        crate::http::lemma_form_value_append(c0, c1, "access"@);
        crate::http::lemma_form_value_append(c0 + c1, c2, "access"@);
        crate::http::lemma_form_value_append(c0 + c1 + c2, c3, "access"@);
        crate::http::lemma_form_value_append(c0 + c1 + c2 + c3, c4, "access"@);
        crate::http::lemma_form_value_append(c0 + c1 + c2 + c3 + c4, c5, "access"@);
        crate::http::lemma_form_value_append(c0 + c1 + c2 + c3 + c4 + c5, c6, "access"@);
        crate::http::lemma_form_value_append(c0 + c1 + c2 + c3 + c4 + c5 + c6, c7, "access"@);
        crate::http::lemma_form_value_append(c0 + c1 + c2 + c3 + c4 + c5 + c6 + c7, c8, "access"@);
        crate::http::lemma_form_value_append(c0 + c1 + c2 + c3 + c4 + c5 + c6 + c7 + c8, c9, "access"@);
        crate::http::lemma_form_value_append(c0 + c1 + c2 + c3 + c4 + c5 + c6 + c7 + c8 + c9, c10, "access"@);
    }
    assert(crate::http::form_value(form, "isInvitationOnly"@) == opt_bool(p.is_invitation_only)) by {
        crate::http::lemma_form_value_pair("f"@, "json"@, "isInvitationOnly"@);
        crate::http::lemma_form_value_opt_pair("token"@, token, "isInvitationOnly"@);
        crate::http::lemma_form_value_opt_pair("title"@, p.title.deep_view(), "isInvitationOnly"@);
        crate::http::lemma_form_value_opt_pair("description"@, p.description.deep_view(), "isInvitationOnly"@);
        crate::http::lemma_form_value_opt_pair("snippet"@, p.snippet.deep_view(), "isInvitationOnly"@);
        crate::http::lemma_form_value_opt_pair("tags"@, opt_join(p.tags), "isInvitationOnly"@);
        crate::http::lemma_form_value_opt_pair("access"@, p.access.deep_view(), "isInvitationOnly"@);
        crate::http::lemma_form_value_opt_pair("isInvitationOnly"@, opt_bool(p.is_invitation_only), "isInvitationOnly"@);
        crate::http::lemma_form_value_opt_pair("isViewOnly"@, opt_bool(p.is_view_only), "isInvitationOnly"@);
        crate::http::lemma_form_value_opt_pair("sortField"@, p.sort_field.deep_view(), "isInvitationOnly"@);
        crate::http::lemma_form_value_opt_pair("sortOrder"@, p.sort_order.deep_view(), "isInvitationOnly"@);
        crate::http::lemma_form_value_append(c0, c1, "isInvitationOnly"@);
        crate::http::lemma_form_value_append(c0 + c1, c2, "isInvitationOnly"@);
        crate::http::lemma_form_value_append(c0 + c1 + c2, c3, "isInvitationOnly"@);
        crate::http::lemma_form_value_append(c0 + c1 + c2 + c3, c4, "isInvitationOnly"@);
        crate::http::lemma_form_value_append(c0 + c1 + c2 + c3 + c4, c5, "isInvitationOnly"@);
        crate::http::lemma_form_value_append(c0 + c1 + c2 + c3 + c4 + c5, c6, "isInvitationOnly"@);
        crate::http::lemma_form_value_append(c0 + c1 + c2 + c3 + c4 + c5 + c6, c7, "isInvitationOnly"@);
        crate::http::lemma_form_value_append(c0 + c1 + c2 + c3 + c4 + c5 + c6 + c7, c8, "isInvitationOnly"@);
        crate::http::lemma_form_value_append(c0 + c1 + c2 + c3 + c4 + c5 + c6 + c7 + c8, c9, "isInvitationOnly"@);
        crate::http::lemma_form_value_append(c0 + c1 + c2 + c3 + c4 + c5 + c6 + c7 + c8 + c9, c10, "isInvitationOnly"@);
    }
    assert(crate::http::form_value(form, "isViewOnly"@) == opt_bool(p.is_view_only)) by {
        crate::http::lemma_form_value_pair("f"@, "json"@, "isViewOnly"@);
        crate::http::lemma_form_value_opt_pair("token"@, token, "isViewOnly"@);
        crate::http::lemma_form_value_opt_pair("title"@, p.title.deep_view(), "isViewOnly"@);
        crate::http::lemma_form_value_opt_pair("description"@, p.description.deep_view(), "isViewOnly"@);
        crate::http::lemma_form_value_opt_pair("snippet"@, p.snippet.deep_view(), "isViewOnly"@);
        crate::http::lemma_form_value_opt_pair("tags"@, opt_join(p.tags), "isViewOnly"@);
        crate::http::lemma_form_value_opt_pair("access"@, p.access.deep_view(), "isViewOnly"@);
        crate::http::lemma_form_value_opt_pair("isInvitationOnly"@, opt_bool(p.is_invitation_only), "isViewOnly"@);
        crate::http::lemma_form_value_opt_pair("isViewOnly"@, opt_bool(p.is_view_only), "isViewOnly"@);
        crate::http::lemma_form_value_opt_pair("sortField"@, p.sort_field.deep_view(), "isViewOnly"@);
        crate::http::lemma_form_value_opt_pair("sortOrder"@, p.sort_order.deep_view(), "isViewOnly"@);
        crate::http::lemma_form_value_append(c0, c1, "isViewOnly"@);
        crate::http::lemma_form_value_append(c0 + c1, c2, "isViewOnly"@);
        crate::http::lemma_form_value_append(c0 + c1 + c2, c3, "isViewOnly"@);
        crate::http::lemma_form_value_append(c0 + c1 + c2 + c3, c4, "isViewOnly"@);
        crate::http::lemma_form_value_append(c0 + c1 + c2 + c3 + c4, c5, "isViewOnly"@);
        crate::http::lemma_form_value_append(c0 + c1 + c2 + c3 + c4 + c5, c6, "isViewOnly"@);
        crate::http::lemma_form_value_append(c0 + c1 + c2 + c3 + c4 + c5 + c6, c7, "isViewOnly"@);
        crate::http::lemma_form_value_append(c0 + c1 + c2 + c3 + c4 + c5 + c6 + c7, c8, "isViewOnly"@);
        crate::http::lemma_form_value_append(c0 + c1 + c2 + c3 + c4 + c5 + c6 + c7 + c8, c9, "isViewOnly"@);
        crate::http::lemma_form_value_append(c0 + c1 + c2 + c3 + c4 + c5 + c6 + c7 + c8 + c9, c10, "isViewOnly"@);
    }
    assert(crate::http::form_value(form, "sortField"@) == p.sort_field.deep_view()) by {
        crate::http::lemma_form_value_pair("f"@, "json"@, "sortField"@);
        crate::http::lemma_form_value_opt_pair("token"@, token, "sortField"@);
        crate::http::lemma_form_value_opt_pair("title"@, p.title.deep_view(), "sortField"@);
        crate::http::lemma_form_value_opt_pair("description"@, p.description.deep_view(), "sortField"@);
        crate::http::lemma_form_value_opt_pair("snippet"@, p.snippet.deep_view(), "sortField"@);
        crate::http::lemma_form_value_opt_pair("tags"@, opt_join(p.tags), "sortField"@);
        crate::http::lemma_form_value_opt_pair("access"@, p.access.deep_view(), "sortField"@);
        crate::http::lemma_form_value_opt_pair("isInvitationOnly"@, opt_bool(p.is_invitation_only), "sortField"@);
        crate::http::lemma_form_value_opt_pair("isViewOnly"@, opt_bool(p.is_view_only), "sortField"@);
        crate::http::lemma_form_value_opt_pair("sortField"@, p.sort_field.deep_view(), "sortField"@);
        crate::http::lemma_form_value_opt_pair("sortOrder"@, p.sort_order.deep_view(), "sortField"@);
        crate::http::lemma_form_value_append(c0, c1, "sortField"@);
        crate::http::lemma_form_value_append(c0 + c1, c2, "sortField"@);
        crate::http::lemma_form_value_append(c0 + c1 + c2, c3, "sortField"@);
        crate::http::lemma_form_value_append(c0 + c1 + c2 + c3, c4, "sortField"@);
        crate::http::lemma_form_value_append(c0 + c1 + c2 + c3 + c4, c5, "sortField"@);
        crate::http::lemma_form_value_append(c0 + c1 + c2 + c3 + c4 + c5, c6, "sortField"@);
        crate::http::lemma_form_value_append(c0 + c1 + c2 + c3 + c4 + c5 + c6, c7, "sortField"@);
        crate::http::lemma_form_value_append(c0 + c1 + c2 + c3 + c4 + c5 + c6 + c7, c8, "sortField"@);
        crate::http::lemma_form_value_append(c0 + c1 + c2 + c3 + c4 + c5 + c6 + c7 + c8, c9, "sortField"@);
        crate::http::lemma_form_value_append(c0 + c1 + c2 + c3 + c4 + c5 + c6 + c7 + c8 + c9, c10, "sortField"@);
    }
    assert(crate::http::form_value(form, "sortOrder"@) == p.sort_order.deep_view()) by {
        crate::http::lemma_form_value_pair("f"@, "json"@, "sortOrder"@);
        crate::http::lemma_form_value_opt_pair("token"@, token, "sortOrder"@);
        crate::http::lemma_form_value_opt_pair("title"@, p.title.deep_view(), "sortOrder"@);
        crate::http::lemma_form_value_opt_pair("description"@, p.description.deep_view(), "sortOrder"@);
        crate::http::lemma_form_value_opt_pair("snippet"@, p.snippet.deep_view(), "sortOrder"@);
        crate::http::lemma_form_value_opt_pair("tags"@, opt_join(p.tags), "sortOrder"@);
        crate::http::lemma_form_value_opt_pair("access"@, p.access.deep_view(), "sortOrder"@);
        crate::http::lemma_form_value_opt_pair("isInvitationOnly"@, opt_bool(p.is_invitation_only), "sortOrder"@);
        crate::http::lemma_form_value_opt_pair("isViewOnly"@, opt_bool(p.is_view_only), "sortOrder"@);
        crate::http::lemma_form_value_opt_pair("sortField"@, p.sort_field.deep_view(), "sortOrder"@);
        crate::http::lemma_form_value_opt_pair("sortOrder"@, p.sort_order.deep_view(), "sortOrder"@);
        crate::http::lemma_form_value_append(c0, c1, "sortOrder"@);
        crate::http::lemma_form_value_append(c0 + c1, c2, "sortOrder"@);
        crate::http::lemma_form_value_append(c0 + c1 + c2, c3, "sortOrder"@);
        crate::http::lemma_form_value_append(c0 + c1 + c2 + c3, c4, "sortOrder"@);
        crate::http::lemma_form_value_append(c0 + c1 + c2 + c3 + c4, c5, "sortOrder"@);
        crate::http::lemma_form_value_append(c0 + c1 + c2 + c3 + c4 + c5, c6, "sortOrder"@);
        crate::http::lemma_form_value_append(c0 + c1 + c2 + c3 + c4 + c5 + c6, c7, "sortOrder"@);
        crate::http::lemma_form_value_append(c0 + c1 + c2 + c3 + c4 + c5 + c6 + c7, c8, "sortOrder"@);
        crate::http::lemma_form_value_append(c0 + c1 + c2 + c3 + c4 + c5 + c6 + c7 + c8, c9, "sortOrder"@);
        crate::http::lemma_form_value_append(c0 + c1 + c2 + c3 + c4 + c5 + c6 + c7 + c8 + c9, c10, "sortOrder"@);
    }
}

/// Each field of `unshare_parts` carries the value built from its own input: a
/// required field is always present, an optional one exactly when its
/// input is given.
pub proof fn lemma_unshare_parts_fields(p: SharingParameters, token: Seq<char>)
    ensures
        crate::http::form_value(unshare_parts(p, token), "f"@) == Some("json"@),
        crate::http::form_value(unshare_parts(p, token), "token"@) == Some(token),
        crate::http::form_value(unshare_parts(p, token), "groups"@) == opt_join(p.groups),
{
    reveal_strlit("f");
    reveal_strlit("groups");
    reveal_strlit("json");
    reveal_strlit("token");
    assert("f"@.len() != "token"@.len());
    assert("f"@.len() != "groups"@.len());
    assert("token"@.len() != "groups"@.len());
    let c0 = pair("f"@, "json"@);
    let c1 = pair("token"@, token);
    let c2 = opt_pair("groups"@, opt_join(p.groups));
    let form = unshare_parts(p, token);
    assert(form == c0 + c1 + c2);
    assert(crate::http::form_value(form, "f"@) == Some("json"@)) by {
        crate::http::lemma_form_value_pair("f"@, "json"@, "f"@);
        crate::http::lemma_form_value_pair("token"@, token, "f"@);
        crate::http::lemma_form_value_opt_pair("groups"@, opt_join(p.groups), "f"@);
        crate::http::lemma_form_value_append(c0, c1, "f"@);
        crate::http::lemma_form_value_append(c0 + c1, c2, "f"@);
    }
    assert(crate::http::form_value(form, "token"@) == Some(token)) by {
        crate::http::lemma_form_value_pair("f"@, "json"@, "token"@);
        crate::http::lemma_form_value_pair("token"@, token, "token"@);
        crate::http::lemma_form_value_opt_pair("groups"@, opt_join(p.groups), "token"@);
        crate::http::lemma_form_value_append(c0, c1, "token"@);
        crate::http::lemma_form_value_append(c0 + c1, c2, "token"@);
    }
    assert(crate::http::form_value(form, "groups"@) == opt_join(p.groups)) by {
        crate::http::lemma_form_value_pair("f"@, "json"@, "groups"@);
        crate::http::lemma_form_value_pair("token"@, token, "groups"@);
        crate::http::lemma_form_value_opt_pair("groups"@, opt_join(p.groups), "groups"@);
        crate::http::lemma_form_value_append(c0, c1, "groups"@);
        crate::http::lemma_form_value_append(c0 + c1, c2, "groups"@);
    }
}

/// Each field of `group_item_form` carries the value built from its own input: a
/// required field is always present, an optional one exactly when its
/// input is given.
pub proof fn lemma_group_item_form_fields(group_id: Seq<char>, token: Option<Seq<char>>)
    ensures
        crate::http::form_value(group_item_form(group_id, token), "f"@) == Some("json"@),
        crate::http::form_value(group_item_form(group_id, token), "groups"@) == Some(group_id),
        crate::http::form_value(group_item_form(group_id, token), "token"@) == token,
{
    reveal_strlit("f");
    reveal_strlit("groups");
    reveal_strlit("json");
    reveal_strlit("token");
    assert("f"@.len() != "groups"@.len());
    assert("f"@.len() != "token"@.len());
    assert("groups"@.len() != "token"@.len());
    let c0 = pair("f"@, "json"@);
    let c1 = pair("groups"@, group_id);
    let c2 = opt_pair("token"@, token);
    let form = group_item_form(group_id, token);
    assert(form == c0 + c1 + c2);
    assert(crate::http::form_value(form, "f"@) == Some("json"@)) by {
        crate::http::lemma_form_value_pair("f"@, "json"@, "f"@);
        crate::http::lemma_form_value_pair("groups"@, group_id, "f"@);
        crate::http::lemma_form_value_opt_pair("token"@, token, "f"@);
        crate::http::lemma_form_value_append(c0, c1, "f"@);
        crate::http::lemma_form_value_append(c0 + c1, c2, "f"@);
    }
    assert(crate::http::form_value(form, "groups"@) == Some(group_id)) by {
        crate::http::lemma_form_value_pair("f"@, "json"@, "groups"@);
        crate::http::lemma_form_value_pair("groups"@, group_id, "groups"@);
        crate::http::lemma_form_value_opt_pair("token"@, token, "groups"@);
        crate::http::lemma_form_value_append(c0, c1, "groups"@);
        crate::http::lemma_form_value_append(c0 + c1, c2, "groups"@);
    }
    assert(crate::http::form_value(form, "token"@) == token) by {
        crate::http::lemma_form_value_pair("f"@, "json"@, "token"@);
        crate::http::lemma_form_value_pair("groups"@, group_id, "token"@);
        crate::http::lemma_form_value_opt_pair("token"@, token, "token"@);
        crate::http::lemma_form_value_append(c0, c1, "token"@);
        crate::http::lemma_form_value_append(c0 + c1, c2, "token"@);
    }
}

} // verus!
