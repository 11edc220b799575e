//! Requests of a version management service: sessions, versions,
//! reconcile, post, conflicts and differences.

use vstd::prelude::*;
use crate::http::{
    ApiRequest, f_json, form_post, get_request, json_query, json_token_query, opt_pair, pair,
    push_opt, push_pair,
};
use crate::json::{array_text, json_array, json_object, render_object};
use crate::query::no_pairs;
use crate::text::{bool_str, bool_text, concat2, concat3, dec_digits, i32_text, i64_text, int_text, u64_text};
use crate::version_management::ids::{SessionId, VersionGuid, uuid_text};
use crate::version_management::types::{
    AlterVersionParams, ConflictDetection, CreateVersionParams, PartialPostRow,
};

verus! {

/// Client for a version management service, identified by its base URL.
#[derive(Debug, Clone)]
pub struct VersionManagementClient {
    base_url: String,
}

/// A JSON array of integers.
pub open spec fn i64_array(v: Seq<i64>) -> Seq<char> {
    json_array(v.map_values(|x: i64| int_text(x as int)))
}

/// One row set as the service reads it: `{"layerId":N,"objectIds":[...]}`.
pub open spec fn row_json(r: PartialPostRow) -> Seq<char> {
    json_object(seq![("layerId"@, int_text(r.layer_id as int)), ("objectIds"@, i64_array(r.object_ids@))])
}

/// The `rows` value of a partial post.
pub open spec fn rows_json(rows: Seq<PartialPostRow>) -> Seq<char> {
    json_array(rows.map_values(|r: PartialPostRow| row_json(r)))
}

/// The form of a session call: the session ID, `f=json`, the token.
pub open spec fn session_form(session: SessionId, token: Seq<char>) -> Seq<(Seq<char>, Seq<char>)> {
    pair("sessionId"@, uuid_text(session.0)) + f_json() + pair("token"@, token)
}

/// The form of creating a version.
pub open spec fn create_form(p: CreateVersionParams, token: Option<Seq<char>>) -> Seq<
    (Seq<char>, Seq<char>),
> {
    pair("versionName"@, p.version_name@) + pair("access"@, p.access.wire_name()) + f_json()
        + opt_pair("description"@, p.description.deep_view()) + opt_pair("token"@, token)
}

/// The form of altering a version.
pub open spec fn alter_form(p: AlterVersionParams, token: Option<Seq<char>>) -> Seq<
    (Seq<char>, Seq<char>),
> {
    f_json() + opt_pair("versionName"@, p.version_name.deep_view()) + opt_pair("token"@, token)
        + opt_pair(
        "access"@,
        match p.access {
            Some(a) => Some(a.wire_name()),
            None => None,
        },
    ) + opt_pair("description"@, p.description.deep_view())
}

/// The form of a reconcile.
pub open spec fn reconcile_form(
    session: SessionId,
    abort_if_conflicts: bool,
    detection: ConflictDetection,
    with_post: bool,
    token: Option<Seq<char>>,
) -> Seq<(Seq<char>, Seq<char>)> {
    pair("sessionId"@, uuid_text(session.0)) + pair("abortIfConflicts"@, bool_text(abort_if_conflicts))
        + pair("conflictDetection"@, detection.wire_name()) + pair("withPost"@, bool_text(with_post))
        + f_json() + opt_pair("token"@, token)
}

/// The form of a post: session, `f=json`, and the rows of a partial post.
pub open spec fn post_form(session: SessionId, rows: Option<Seq<PartialPostRow>>) -> Seq<
    (Seq<char>, Seq<char>),
> {
    pair("sessionId"@, uuid_text(session.0)) + f_json() + opt_pair(
        "rows"@,
        match rows {
            Some(r) => Some(rows_json(r)),
            None => None,
        },
    )
}

/// The form of inspecting conflicts: the given conflicts are sent only when
/// not inspecting all of them.
pub open spec fn inspect_form(
    session: SessionId,
    inspect_all: bool,
    set_inspected: bool,
    conflicts: Option<Seq<char>>,
) -> Seq<(Seq<char>, Seq<char>)> {
    pair("sessionId"@, uuid_text(session.0)) + pair("inspectAll"@, bool_text(inspect_all)) + pair(
        "setInspected"@,
        bool_text(set_inspected),
    ) + f_json() + opt_pair(
        "conflicts"@,
        if inspect_all {
            None
        } else {
            conflicts
        },
    )
}

/// The form of a differences request.
pub open spec fn differences_form(
    session: Option<SessionId>,
    result_type: Seq<char>,
    layers: Option<Seq<i64>>,
) -> Seq<(Seq<char>, Seq<char>)> {
    pair("resultType"@, result_type) + f_json() + opt_pair(
        "sessionId"@,
        match session {
            Some(s) => Some(uuid_text(s.0)),
            None => None,
        },
    ) + opt_pair(
        "layers"@,
        match layers {
            Some(l) => Some(i64_array(l)),
            None => None,
        },
    )
}

fn i64_array_text(v: &Vec<i64>) -> (r: String)
    ensures
        r@ == i64_array(v@),
{
    let mut items: Vec<String> = Vec::new();
    let mut i: usize = 0;
    while i < v.len()
        invariant
            i <= v@.len(),
            items.deep_view().len() == i,
            forall|k: int| 0 <= k < i ==> #[trigger] items.deep_view()[k] == int_text(v@[k] as int),
        decreases v@.len() - i,
    {
        let ghost before = items.deep_view();
        let t = i64_text(v[i]);
        let ghost tv = t@;
        items.push(t);
        proof {
            assert(items.deep_view() =~= before.push(tv));
        }
        i = i + 1;
    }
    proof {
        assert(items.deep_view() =~= v@.map_values(|x: i64| int_text(x as int)));
    }
    array_text(&items)
}

/// Renders the `rows` value of a partial post.
pub fn rows_text(rows: &Vec<PartialPostRow>) -> (r: String)
    ensures
        r@ == rows_json(rows@),
{
    let mut items: Vec<String> = Vec::new();
    let mut i: usize = 0;
    while i < rows.len()
        invariant
            i <= rows@.len(),
            items.deep_view().len() == i,
            forall|k: int| 0 <= k < i ==> #[trigger] items.deep_view()[k] == row_json(rows@[k]),
        decreases rows@.len() - i,
    {
        let mut m = no_pairs();
        let id = i32_text(rows[i].layer_id);
        push_pair(&mut m, "layerId", id.as_str());
        let ids = i64_array_text(&rows[i].object_ids);
        push_pair(&mut m, "objectIds", ids.as_str());
        proof {
            assert(m.deep_view() =~= seq![
                ("layerId"@, int_text(rows@[i as int].layer_id as int)),
                ("objectIds"@, i64_array(rows@[i as int].object_ids@)),
            ]);
        }
        let ghost before = items.deep_view();
        let t = render_object(&m);
        let ghost tv = t@;
        items.push(t);
        proof {
            assert(items.deep_view() =~= before.push(tv));
        }
        i = i + 1;
    }
    proof {
        assert(items.deep_view() =~= rows@.map_values(|r: PartialPostRow| row_json(r)));
    }
    array_text(&items)
}

impl VersionManagementClient {
    /// Base URL of the service.
    pub closed spec fn base(&self) -> Seq<char> {
        self.base_url@
    }

    /// The URL `<base>/versions/<guid>/<action>`.
    pub open spec fn version_url(&self, guid: VersionGuid, action: Seq<char>) -> Seq<char> {
        self.base() + "/versions/"@ + uuid_text(guid.0) + "/"@ + action
    }

    /// A client for the service at `base_url`.
    pub fn new(base_url: String) -> (r: VersionManagementClient)
        ensures
            r.base() == base_url@,
    {
        VersionManagementClient { base_url }
    }

    fn version_url_of(&self, guid: &VersionGuid, action: &str) -> (r: String)
        ensures
            r@ == self.version_url(*guid, action@),
    {
        let g = guid.to_string();
        let mut url = concat3(self.base_url.as_str(), "/versions/", g.as_str());
        url.append("/");
        url.append(action);
        url
    }

    fn session_request(&self, guid: &VersionGuid, action: &str, session: &SessionId, token: &str) -> (r:
        ApiRequest)
        ensures
            r.is_form_post(self.version_url(*guid, action@), session_form(*session, token@)),
    {
        let mut form = no_pairs();
        let sid = session.to_string();
        push_pair(&mut form, "sessionId", sid.as_str());
        push_pair(&mut form, "f", "json");
        push_pair(&mut form, "token", token);
        proof {
            assert(form.deep_view() =~= session_form(*session, token@));
        }
        form_post(self.version_url_of(guid, action), form)
    }

    /// Starting an edit session: `POST <base>/versions/<guid>/startEditing`.
    pub fn start_editing_request(&self, guid: &VersionGuid, session: &SessionId, token: &str) -> (r:
        ApiRequest)
        ensures
            r.is_form_post(self.version_url(*guid, "startEditing"@), session_form(*session, token@)),
    {
        self.session_request(guid, "startEditing", session, token)
    }

    /// Starting a read session: `POST <base>/versions/<guid>/startReading`.
    pub fn start_reading_request(&self, guid: &VersionGuid, session: &SessionId, token: &str) -> (r:
        ApiRequest)
        ensures
            r.is_form_post(self.version_url(*guid, "startReading"@), session_form(*session, token@)),
    {
        self.session_request(guid, "startReading", session, token)
    }

    /// Stopping a read session: `POST <base>/versions/<guid>/stopReading`.
    pub fn stop_reading_request(&self, guid: &VersionGuid, session: &SessionId, token: &str) -> (r:
        ApiRequest)
        ensures
            r.is_form_post(self.version_url(*guid, "stopReading"@), session_form(*session, token@)),
    {
        self.session_request(guid, "stopReading", session, token)
    }

    /// Stopping an edit session, saving or discarding its edits.
    pub fn stop_editing_request(
        &self,
        guid: &VersionGuid,
        session: &SessionId,
        save_edits: bool,
        token: &str,
    ) -> (r: ApiRequest)
        ensures
            r.is_form_post(
                self.version_url(*guid, "stopEditing"@),
                pair("sessionId"@, uuid_text(session.0)) + pair("saveEdits"@, bool_text(save_edits))
                    + f_json() + pair("token"@, token@),
            ),
    {
        let mut form = no_pairs();
        let sid = session.to_string();
        push_pair(&mut form, "sessionId", sid.as_str());
        push_pair(&mut form, "saveEdits", bool_str(save_edits));
        push_pair(&mut form, "f", "json");
        push_pair(&mut form, "token", token);
        form_post(self.version_url_of(guid, "stopEditing"), form)
    }

    /// Creating a version: `POST <base>/create`.
    pub fn create_request(&self, params: &CreateVersionParams, token: &Option<String>) -> (r:
        ApiRequest)
        ensures
            r.is_form_post(self.base() + "/create"@, create_form(*params, token.deep_view())),
    {
        let mut form = no_pairs();
        push_pair(&mut form, "versionName", params.version_name.as_str());
        push_pair(&mut form, "access", params.access.as_str());
        push_pair(&mut form, "f", "json");
        push_opt(&mut form, "description", &params.description);
        push_opt(&mut form, "token", token);
        form_post(concat2(self.base_url.as_str(), "/create"), form)
    }

    /// Altering a version: `POST <base>/versions/<guid>/alter`.
    pub fn alter_request(&self, guid: &VersionGuid, params: &AlterVersionParams, token: &Option<String>) -> (r:
        ApiRequest)
        ensures
            r.is_form_post(self.version_url(*guid, "alter"@), alter_form(*params, token.deep_view())),
    {
        let mut form = no_pairs();
        push_pair(&mut form, "f", "json");
        push_opt(&mut form, "versionName", &params.version_name);
        push_opt(&mut form, "token", token);
        match params.access {
            Some(a) => push_pair(&mut form, "access", a.as_str()),
            None => {},
        }
        push_opt(&mut form, "description", &params.description);
        proof {
            assert(form.deep_view() =~= alter_form(*params, token.deep_view()));
        }
        form_post(self.version_url_of(guid, "alter"), form)
    }

    /// Deleting a version: `POST <base>/versions/<guid>/delete` whose form
    /// holds only the token, if any.
    pub fn delete_request(&self, guid: &VersionGuid, token: &Option<String>) -> (r: ApiRequest)
        ensures
            r.is_form_post(self.version_url(*guid, "delete"@), opt_pair("token"@, token.deep_view())),
    {
        let mut form = no_pairs();
        push_opt(&mut form, "token", token);
        proof {
            assert(form.deep_view() =~= opt_pair("token"@, token.deep_view()));
        }
        form_post(self.version_url_of(guid, "delete"), form)
    }

    /// A version's description: `GET <base>/versions/<guid>`.
    pub fn get_info_request(&self, guid: &VersionGuid, token: &Option<String>) -> (r: ApiRequest)
        ensures
            r.is_get(
                self.base() + "/versions/"@ + uuid_text(guid.0),
                json_token_query(token.deep_view()),
            ),
    {
        let g = guid.to_string();
        get_request(concat3(self.base_url.as_str(), "/versions/", g.as_str()), json_query(token))
    }

    /// All versions: `GET <base>/versionInfos`.
    pub fn list_versions_request(&self, token: &Option<String>) -> (r: ApiRequest)
        ensures
            r.is_get(self.base() + "/versionInfos"@, json_token_query(token.deep_view())),
    {
        get_request(concat2(self.base_url.as_str(), "/versionInfos"), json_query(token))
    }

    /// Reconciling a version with its parent.
    pub fn reconcile_request(
        &self,
        guid: &VersionGuid,
        session: &SessionId,
        abort_if_conflicts: bool,
        conflict_detection: ConflictDetection,
        with_post: bool,
        token: &Option<String>,
    ) -> (r: ApiRequest)
        ensures
            r.is_form_post(
                self.version_url(*guid, "reconcile"@),
                reconcile_form(
                    *session,
                    abort_if_conflicts,
                    conflict_detection,
                    with_post,
                    token.deep_view(),
                ),
            ),
    {
        let mut form = no_pairs();
        let sid = session.to_string();
        push_pair(&mut form, "sessionId", sid.as_str());
        push_pair(&mut form, "abortIfConflicts", bool_str(abort_if_conflicts));
        push_pair(&mut form, "conflictDetection", conflict_detection.as_str());
        push_pair(&mut form, "withPost", bool_str(with_post));
        push_pair(&mut form, "f", "json");
        push_opt(&mut form, "token", token);
        form_post(self.version_url_of(guid, "reconcile"), form)
    }

    /// Posting a version, wholly or only the given rows.
    pub fn post_request(
        &self,
        guid: &VersionGuid,
        session: &SessionId,
        partial_rows: &Option<Vec<PartialPostRow>>,
    ) -> (r: ApiRequest)
        ensures
            r.is_form_post(
                self.version_url(*guid, "post"@),
                post_form(
                    *session,
                    match partial_rows {
                        Some(v) => Some(v@),
                        None => None,
                    },
                ),
            ),
    {
        let mut form = no_pairs();
        let sid = session.to_string();
        push_pair(&mut form, "sessionId", sid.as_str());
        push_pair(&mut form, "f", "json");
        match partial_rows {
            Some(rows) => {
                let t = rows_text(rows);
                push_pair(&mut form, "rows", t.as_str());
            },
            None => {},
        }
        proof {
            assert(form.deep_view() =~= post_form(
                *session,
                match partial_rows {
                    Some(v) => Some(v@),
                    None => None,
                },
            ));
        }
        form_post(self.version_url_of(guid, "post"), form)
    }

    /// Listing conflicts of a session.
    pub fn conflicts_request(&self, guid: &VersionGuid, session: &SessionId, token: &Option<String>) -> (r:
        ApiRequest)
        ensures
            r.is_form_post(
                self.version_url(*guid, "conflicts"@),
                pair("sessionId"@, uuid_text(session.0)) + f_json() + opt_pair(
                    "token"@,
                    token.deep_view(),
                ),
            ),
    {
        let mut form = no_pairs();
        let sid = session.to_string();
        push_pair(&mut form, "sessionId", sid.as_str());
        push_pair(&mut form, "f", "json");
        push_opt(&mut form, "token", token);
        form_post(self.version_url_of(guid, "conflicts"), form)
    }

    /// Marking conflicts inspected: all of them, or the given ones (their
    /// JSON text), which are sent only when not inspecting all.
    pub fn inspect_conflicts_request(
        &self,
        guid: &VersionGuid,
        session: &SessionId,
        inspect_all: bool,
        set_inspected: bool,
        conflicts: &Option<String>,
    ) -> (r: ApiRequest)
        ensures
            r.is_form_post(
                self.version_url(*guid, "inspectConflicts"@),
                inspect_form(*session, inspect_all, set_inspected, conflicts.deep_view()),
            ),
    {
        let mut form = no_pairs();
        let sid = session.to_string();
        push_pair(&mut form, "sessionId", sid.as_str());
        push_pair(&mut form, "inspectAll", bool_str(inspect_all));
        push_pair(&mut form, "setInspected", bool_str(set_inspected));
        push_pair(&mut form, "f", "json");
        if !inspect_all {
            push_opt(&mut form, "conflicts", conflicts);
        }
        proof {
            assert(form.deep_view() =~= inspect_form(
                *session,
                inspect_all,
                set_inspected,
                conflicts.deep_view(),
            ));
        }
        form_post(self.version_url_of(guid, "inspectConflicts"), form)
    }

    /// Restoring rows deleted by a reconcile; `rows` is their JSON text.
    pub fn restore_rows_request(&self, guid: &VersionGuid, session: &SessionId, rows: &str) -> (r:
        ApiRequest)
        ensures
            r.is_form_post(
                self.version_url(*guid, "restoreRows"@),
                pair("sessionId"@, uuid_text(session.0)) + pair("rows"@, rows@) + f_json(),
            ),
    {
        let mut form = no_pairs();
        let sid = session.to_string();
        push_pair(&mut form, "sessionId", sid.as_str());
        push_pair(&mut form, "rows", rows);
        push_pair(&mut form, "f", "json");
        form_post(self.version_url_of(guid, "restoreRows"), form)
    }

    /// Undoing edits made after a moment.
    pub fn delete_forward_edits_request(
        &self,
        guid: &VersionGuid,
        session: &SessionId,
        moment: u64,
        token: &Option<String>,
    ) -> (r: ApiRequest)
        ensures
            r.is_form_post(
                self.version_url(*guid, "deleteForwardEdits"@),
                pair("sessionId"@, uuid_text(session.0)) + pair("moment"@, dec_digits(moment as nat))
                    + f_json() + opt_pair("token"@, token.deep_view()),
            ),
    {
        let mut form = no_pairs();
        let sid = session.to_string();
        push_pair(&mut form, "sessionId", sid.as_str());
        let m = u64_text(moment);
        push_pair(&mut form, "moment", m.as_str());
        push_pair(&mut form, "f", "json");
        push_opt(&mut form, "token", token);
        form_post(self.version_url_of(guid, "deleteForwardEdits"), form)
    }

    /// Differences between a version and its parent; `result_type` is the
    /// kind of result asked for, and `layers` limits the layers.
    pub fn differences_request(
        &self,
        guid: &VersionGuid,
        session: &Option<SessionId>,
        result_type: &str,
        layers: &Option<Vec<i64>>,
    ) -> (r: ApiRequest)
        ensures
            r.is_form_post(
                self.version_url(*guid, "differences"@),
                differences_form(
                    *session,
                    result_type@,
                    match layers {
                        Some(l) => Some(l@),
                        None => None,
                    },
                ),
            ),
    {
        let mut form = no_pairs();
        push_pair(&mut form, "resultType", result_type);
        push_pair(&mut form, "f", "json");
        match session {
            Some(s) => {
                let sid = s.to_string();
                push_pair(&mut form, "sessionId", sid.as_str());
            },
            None => {},
        }
        match layers {
            Some(l) => {
                let t = i64_array_text(l);
                push_pair(&mut form, "layers", t.as_str());
            },
            None => {},
        }
        proof {
            assert(form.deep_view() =~= differences_form(
                *session,
                result_type@,
                match layers {
                    Some(l) => Some(l@),
                    None => None,
                },
            ));
        }
        form_post(self.version_url_of(guid, "differences"), form)
    }
}

/// Each field of `session_form` carries the value built from its own input: a
/// required field is always present, an optional one exactly when its
/// input is given.
pub proof fn lemma_session_form_fields(session: SessionId, token: Seq<char>)
    ensures
        crate::http::form_value(session_form(session, token), "sessionId"@) == Some(uuid_text(session.0)),
        crate::http::form_value(session_form(session, token), "f"@) == Some("json"@),
        crate::http::form_value(session_form(session, token), "token"@) == Some(token),
{
    reveal_strlit("f");
    reveal_strlit("json");
    reveal_strlit("sessionId");
    reveal_strlit("token");
    assert("sessionId"@.len() != "f"@.len());
    assert("sessionId"@.len() != "token"@.len());
    assert("f"@.len() != "token"@.len());
    let c0 = pair("sessionId"@, uuid_text(session.0));
    let c1 = pair("f"@, "json"@);
    let c2 = pair("token"@, token);
    let form = session_form(session, token);
    assert(form == c0 + c1 + c2);
    assert(crate::http::form_value(form, "sessionId"@) == Some(uuid_text(session.0))) by {
        crate::http::lemma_form_value_pair("sessionId"@, uuid_text(session.0), "sessionId"@);
        crate::http::lemma_form_value_pair("f"@, "json"@, "sessionId"@);
        crate::http::lemma_form_value_pair("token"@, token, "sessionId"@);
        crate::http::lemma_form_value_append(c0, c1, "sessionId"@);
        crate::http::lemma_form_value_append(c0 + c1, c2, "sessionId"@);
    }
    assert(crate::http::form_value(form, "f"@) == Some("json"@)) by {
        crate::http::lemma_form_value_pair("sessionId"@, uuid_text(session.0), "f"@);
        crate::http::lemma_form_value_pair("f"@, "json"@, "f"@);
        crate::http::lemma_form_value_pair("token"@, token, "f"@);
        crate::http::lemma_form_value_append(c0, c1, "f"@);
        crate::http::lemma_form_value_append(c0 + c1, c2, "f"@);
    }
    assert(crate::http::form_value(form, "token"@) == Some(token)) by {
        crate::http::lemma_form_value_pair("sessionId"@, uuid_text(session.0), "token"@);
        crate::http::lemma_form_value_pair("f"@, "json"@, "token"@);
        crate::http::lemma_form_value_pair("token"@, token, "token"@);
        crate::http::lemma_form_value_append(c0, c1, "token"@);
        crate::http::lemma_form_value_append(c0 + c1, c2, "token"@);
    }
}

/// Each field of `create_form` carries the value built from its own input: a
/// required field is always present, an optional one exactly when its
/// input is given.
pub proof fn lemma_create_form_fields(p: CreateVersionParams, token: Option<Seq<char>>)
    ensures
        crate::http::form_value(create_form(p, token), "versionName"@) == Some(p.version_name@),
        crate::http::form_value(create_form(p, token), "access"@) == Some(p.access.wire_name()),
        crate::http::form_value(create_form(p, token), "f"@) == Some("json"@),
        crate::http::form_value(create_form(p, token), "description"@) == p.description.deep_view(),
        crate::http::form_value(create_form(p, token), "token"@) == token,
{
    reveal_strlit("access");
    reveal_strlit("description");
    reveal_strlit("f");
    reveal_strlit("json");
    reveal_strlit("token");
    reveal_strlit("versionName");
    assert("versionName"@.len() != "access"@.len());
    assert("versionName"@.len() != "f"@.len());
    assert("versionName"@[0] != "description"@[0]);
    assert("versionName"@.len() != "token"@.len());
    assert("access"@.len() != "f"@.len());
    assert("access"@.len() != "description"@.len());
    assert("access"@.len() != "token"@.len());
    assert("f"@.len() != "description"@.len());
    assert("f"@.len() != "token"@.len());
    assert("description"@.len() != "token"@.len());
    let c0 = pair("versionName"@, p.version_name@);
    let c1 = pair("access"@, p.access.wire_name());
    let c2 = pair("f"@, "json"@);
    let c3 = opt_pair("description"@, p.description.deep_view());
    let c4 = opt_pair("token"@, token);
    let form = create_form(p, token);
    assert(form == c0 + c1 + c2 + c3 + c4);
    assert(crate::http::form_value(form, "versionName"@) == Some(p.version_name@)) by {
        crate::http::lemma_form_value_pair("versionName"@, p.version_name@, "versionName"@);
        crate::http::lemma_form_value_pair("access"@, p.access.wire_name(), "versionName"@);
        crate::http::lemma_form_value_pair("f"@, "json"@, "versionName"@);
        crate::http::lemma_form_value_opt_pair("description"@, p.description.deep_view(), "versionName"@);
        crate::http::lemma_form_value_opt_pair("token"@, token, "versionName"@);
        crate::http::lemma_form_value_append(c0, c1, "versionName"@);
        crate::http::lemma_form_value_append(c0 + c1, c2, "versionName"@);
        crate::http::lemma_form_value_append(c0 + c1 + c2, c3, "versionName"@);
        crate::http::lemma_form_value_append(c0 + c1 + c2 + c3, c4, "versionName"@);
    }
    assert(crate::http::form_value(form, "access"@) == Some(p.access.wire_name())) by {
        crate::http::lemma_form_value_pair("versionName"@, p.version_name@, "access"@);
        crate::http::lemma_form_value_pair("access"@, p.access.wire_name(), "access"@);
        crate::http::lemma_form_value_pair("f"@, "json"@, "access"@);
        crate::http::lemma_form_value_opt_pair("description"@, p.description.deep_view(), "access"@);
        crate::http::lemma_form_value_opt_pair("token"@, token, "access"@);
        crate::http::lemma_form_value_append(c0, c1, "access"@);
        crate::http::lemma_form_value_append(c0 + c1, c2, "access"@);
        crate::http::lemma_form_value_append(c0 + c1 + c2, c3, "access"@);
        crate::http::lemma_form_value_append(c0 + c1 + c2 + c3, c4, "access"@);
    }
    assert(crate::http::form_value(form, "f"@) == Some("json"@)) by {
        crate::http::lemma_form_value_pair("versionName"@, p.version_name@, "f"@);
        crate::http::lemma_form_value_pair("access"@, p.access.wire_name(), "f"@);
        crate::http::lemma_form_value_pair("f"@, "json"@, "f"@);
        crate::http::lemma_form_value_opt_pair("description"@, p.description.deep_view(), "f"@);
        crate::http::lemma_form_value_opt_pair("token"@, token, "f"@);
        crate::http::lemma_form_value_append(c0, c1, "f"@);
        crate::http::lemma_form_value_append(c0 + c1, c2, "f"@);
        crate::http::lemma_form_value_append(c0 + c1 + c2, c3, "f"@);
        crate::http::lemma_form_value_append(c0 + c1 + c2 + c3, c4, "f"@);
    }
    assert(crate::http::form_value(form, "description"@) == p.description.deep_view()) by {
        crate::http::lemma_form_value_pair("versionName"@, p.version_name@, "description"@);
        crate::http::lemma_form_value_pair("access"@, p.access.wire_name(), "description"@);
        crate::http::lemma_form_value_pair("f"@, "json"@, "description"@);
        crate::http::lemma_form_value_opt_pair("description"@, p.description.deep_view(), "description"@);
        crate::http::lemma_form_value_opt_pair("token"@, token, "description"@);
        crate::http::lemma_form_value_append(c0, c1, "description"@);
        crate::http::lemma_form_value_append(c0 + c1, c2, "description"@);
        crate::http::lemma_form_value_append(c0 + c1 + c2, c3, "description"@);
        crate::http::lemma_form_value_append(c0 + c1 + c2 + c3, c4, "description"@);
    }
    assert(crate::http::form_value(form, "token"@) == token) by {
        crate::http::lemma_form_value_pair("versionName"@, p.version_name@, "token"@);
        crate::http::lemma_form_value_pair("access"@, p.access.wire_name(), "token"@);
        crate::http::lemma_form_value_pair("f"@, "json"@, "token"@);
        crate::http::lemma_form_value_opt_pair("description"@, p.description.deep_view(), "token"@);
        crate::http::lemma_form_value_opt_pair("token"@, token, "token"@);
        crate::http::lemma_form_value_append(c0, c1, "token"@);
        crate::http::lemma_form_value_append(c0 + c1, c2, "token"@);
        crate::http::lemma_form_value_append(c0 + c1 + c2, c3, "token"@);
        crate::http::lemma_form_value_append(c0 + c1 + c2 + c3, c4, "token"@);
    }
}

/// Each field of `alter_form` carries the value built from its own input: a
/// required field is always present, an optional one exactly when its
/// input is given.
pub proof fn lemma_alter_form_fields(p: AlterVersionParams, token: Option<Seq<char>>)
    ensures
        crate::http::form_value(alter_form(p, token), "f"@) == Some("json"@),
        crate::http::form_value(alter_form(p, token), "versionName"@) == p.version_name.deep_view(),
        crate::http::form_value(alter_form(p, token), "token"@) == token,
        crate::http::form_value(alter_form(p, token), "access"@) == match p.access { Some(a) => Some(a.wire_name()), None => None, },
        crate::http::form_value(alter_form(p, token), "description"@) == p.description.deep_view(),
{
    reveal_strlit("access");
    reveal_strlit("description");
    reveal_strlit("f");
    reveal_strlit("json");
    reveal_strlit("token");
    reveal_strlit("versionName");
    assert("f"@.len() != "versionName"@.len());
    assert("f"@.len() != "token"@.len());
    assert("f"@.len() != "access"@.len());
    assert("f"@.len() != "description"@.len());
    assert("versionName"@.len() != "token"@.len());
    assert("versionName"@.len() != "access"@.len());
    assert("versionName"@[0] != "description"@[0]);
    assert("token"@.len() != "access"@.len());
    assert("token"@.len() != "description"@.len());
    assert("access"@.len() != "description"@.len());
    let c0 = pair("f"@, "json"@);
    let c1 = opt_pair("versionName"@, p.version_name.deep_view());
    let c2 = opt_pair("token"@, token);
    let c3 = opt_pair("access"@, match p.access { Some(a) => Some(a.wire_name()), None => None, });
    let c4 = opt_pair("description"@, p.description.deep_view());
    let form = alter_form(p, token);
    assert(form == c0 + c1 + c2 + c3 + c4);
    assert(crate::http::form_value(form, "f"@) == Some("json"@)) by {
        crate::http::lemma_form_value_pair("f"@, "json"@, "f"@);
        crate::http::lemma_form_value_opt_pair("versionName"@, p.version_name.deep_view(), "f"@);
        crate::http::lemma_form_value_opt_pair("token"@, token, "f"@);
        crate::http::lemma_form_value_opt_pair("access"@, match p.access { Some(a) => Some(a.wire_name()), None => None, }, "f"@);
        crate::http::lemma_form_value_opt_pair("description"@, p.description.deep_view(), "f"@);
        crate::http::lemma_form_value_append(c0, c1, "f"@);
        crate::http::lemma_form_value_append(c0 + c1, c2, "f"@);
        crate::http::lemma_form_value_append(c0 + c1 + c2, c3, "f"@);
        crate::http::lemma_form_value_append(c0 + c1 + c2 + c3, c4, "f"@);
    }
    assert(crate::http::form_value(form, "versionName"@) == p.version_name.deep_view()) by {
        crate::http::lemma_form_value_pair("f"@, "json"@, "versionName"@);
        crate::http::lemma_form_value_opt_pair("versionName"@, p.version_name.deep_view(), "versionName"@);
        crate::http::lemma_form_value_opt_pair("token"@, token, "versionName"@);
        crate::http::lemma_form_value_opt_pair("access"@, match p.access { Some(a) => Some(a.wire_name()), None => None, }, "versionName"@);
        crate::http::lemma_form_value_opt_pair("description"@, p.description.deep_view(), "versionName"@);
        crate::http::lemma_form_value_append(c0, c1, "versionName"@);
        crate::http::lemma_form_value_append(c0 + c1, c2, "versionName"@);
        crate::http::lemma_form_value_append(c0 + c1 + c2, c3, "versionName"@);
        crate::http::lemma_form_value_append(c0 + c1 + c2 + c3, c4, "versionName"@);
    }
    assert(crate::http::form_value(form, "token"@) == token) by {
        crate::http::lemma_form_value_pair("f"@, "json"@, "token"@);
        crate::http::lemma_form_value_opt_pair("versionName"@, p.version_name.deep_view(), "token"@);
        crate::http::lemma_form_value_opt_pair("token"@, token, "token"@);
        crate::http::lemma_form_value_opt_pair("access"@, match p.access { Some(a) => Some(a.wire_name()), None => None, }, "token"@);
        crate::http::lemma_form_value_opt_pair("description"@, p.description.deep_view(), "token"@);
        crate::http::lemma_form_value_append(c0, c1, "token"@);
        crate::http::lemma_form_value_append(c0 + c1, c2, "token"@);
        crate::http::lemma_form_value_append(c0 + c1 + c2, c3, "token"@);
        crate::http::lemma_form_value_append(c0 + c1 + c2 + c3, c4, "token"@);
    }
    assert(crate::http::form_value(form, "access"@) == match p.access { Some(a) => Some(a.wire_name()), None => None, }) by {
        crate::http::lemma_form_value_pair("f"@, "json"@, "access"@);
        crate::http::lemma_form_value_opt_pair("versionName"@, p.version_name.deep_view(), "access"@);
        crate::http::lemma_form_value_opt_pair("token"@, token, "access"@);
        crate::http::lemma_form_value_opt_pair("access"@, match p.access { Some(a) => Some(a.wire_name()), None => None, }, "access"@);
        crate::http::lemma_form_value_opt_pair("description"@, p.description.deep_view(), "access"@);
        crate::http::lemma_form_value_append(c0, c1, "access"@);
        crate::http::lemma_form_value_append(c0 + c1, c2, "access"@);
        crate::http::lemma_form_value_append(c0 + c1 + c2, c3, "access"@);
        crate::http::lemma_form_value_append(c0 + c1 + c2 + c3, c4, "access"@);
    }
    assert(crate::http::form_value(form, "description"@) == p.description.deep_view()) by {
        crate::http::lemma_form_value_pair("f"@, "json"@, "description"@);
        crate::http::lemma_form_value_opt_pair("versionName"@, p.version_name.deep_view(), "description"@);
        crate::http::lemma_form_value_opt_pair("token"@, token, "description"@);
        crate::http::lemma_form_value_opt_pair("access"@, match p.access { Some(a) => Some(a.wire_name()), None => None, }, "description"@);
        crate::http::lemma_form_value_opt_pair("description"@, p.description.deep_view(), "description"@);
        crate::http::lemma_form_value_append(c0, c1, "description"@);
        crate::http::lemma_form_value_append(c0 + c1, c2, "description"@);
        crate::http::lemma_form_value_append(c0 + c1 + c2, c3, "description"@);
        crate::http::lemma_form_value_append(c0 + c1 + c2 + c3, c4, "description"@);
    }
}

/// Each field of `reconcile_form` carries the value built from its own input: a
/// required field is always present, an optional one exactly when its
/// input is given.
pub proof fn lemma_reconcile_form_fields(session: SessionId, abort_if_conflicts: bool, detection: ConflictDetection, with_post: bool, token: Option<Seq<char>>)
    ensures
        crate::http::form_value(reconcile_form(session, abort_if_conflicts, detection, with_post, token), "sessionId"@) == Some(uuid_text(session.0)),
        crate::http::form_value(reconcile_form(session, abort_if_conflicts, detection, with_post, token), "abortIfConflicts"@) == Some(bool_text(abort_if_conflicts)),
        crate::http::form_value(reconcile_form(session, abort_if_conflicts, detection, with_post, token), "conflictDetection"@) == Some(detection.wire_name()),
        crate::http::form_value(reconcile_form(session, abort_if_conflicts, detection, with_post, token), "withPost"@) == Some(bool_text(with_post)),
        crate::http::form_value(reconcile_form(session, abort_if_conflicts, detection, with_post, token), "f"@) == Some("json"@),
        crate::http::form_value(reconcile_form(session, abort_if_conflicts, detection, with_post, token), "token"@) == token,
{
    reveal_strlit("abortIfConflicts");
    reveal_strlit("conflictDetection");
    reveal_strlit("f");
    reveal_strlit("json");
    reveal_strlit("sessionId");
    reveal_strlit("token");
    reveal_strlit("withPost");
    assert("sessionId"@.len() != "abortIfConflicts"@.len());
    assert("sessionId"@.len() != "conflictDetection"@.len());
    assert("sessionId"@.len() != "withPost"@.len());
    assert("sessionId"@.len() != "f"@.len());
    assert("sessionId"@.len() != "token"@.len());
    assert("abortIfConflicts"@.len() != "conflictDetection"@.len());
    assert("abortIfConflicts"@.len() != "withPost"@.len());
    assert("abortIfConflicts"@.len() != "f"@.len());
    assert("abortIfConflicts"@.len() != "token"@.len());
    assert("conflictDetection"@.len() != "withPost"@.len());
    assert("conflictDetection"@.len() != "f"@.len());
    assert("conflictDetection"@.len() != "token"@.len());
    assert("withPost"@.len() != "f"@.len());
    assert("withPost"@.len() != "token"@.len());
    assert("f"@.len() != "token"@.len());
    let c0 = pair("sessionId"@, uuid_text(session.0));
    let c1 = pair("abortIfConflicts"@, bool_text(abort_if_conflicts));
    let c2 = pair("conflictDetection"@, detection.wire_name());
    let c3 = pair("withPost"@, bool_text(with_post));
    let c4 = pair("f"@, "json"@);
    let c5 = opt_pair("token"@, token);
    let form = reconcile_form(session, abort_if_conflicts, detection, with_post, token);
    assert(form == c0 + c1 + c2 + c3 + c4 + c5);
    assert(crate::http::form_value(form, "sessionId"@) == Some(uuid_text(session.0))) by {
        crate::http::lemma_form_value_pair("sessionId"@, uuid_text(session.0), "sessionId"@);
        crate::http::lemma_form_value_pair("abortIfConflicts"@, bool_text(abort_if_conflicts), "sessionId"@);
        crate::http::lemma_form_value_pair("conflictDetection"@, detection.wire_name(), "sessionId"@);
        crate::http::lemma_form_value_pair("withPost"@, bool_text(with_post), "sessionId"@);
        crate::http::lemma_form_value_pair("f"@, "json"@, "sessionId"@);
        crate::http::lemma_form_value_opt_pair("token"@, token, "sessionId"@);
        crate::http::lemma_form_value_append(c0, c1, "sessionId"@);
        crate::http::lemma_form_value_append(c0 + c1, c2, "sessionId"@);
        crate::http::lemma_form_value_append(c0 + c1 + c2, c3, "sessionId"@);
        crate::http::lemma_form_value_append(c0 + c1 + c2 + c3, c4, "sessionId"@);
        crate::http::lemma_form_value_append(c0 + c1 + c2 + c3 + c4, c5, "sessionId"@);
    }
    assert(crate::http::form_value(form, "abortIfConflicts"@) == Some(bool_text(abort_if_conflicts))) by {
        crate::http::lemma_form_value_pair("sessionId"@, uuid_text(session.0), "abortIfConflicts"@);
        crate::http::lemma_form_value_pair("abortIfConflicts"@, bool_text(abort_if_conflicts), "abortIfConflicts"@);
        crate::http::lemma_form_value_pair("conflictDetection"@, detection.wire_name(), "abortIfConflicts"@);
        crate::http::lemma_form_value_pair("withPost"@, bool_text(with_post), "abortIfConflicts"@);
        crate::http::lemma_form_value_pair("f"@, "json"@, "abortIfConflicts"@);
        crate::http::lemma_form_value_opt_pair("token"@, token, "abortIfConflicts"@);
        crate::http::lemma_form_value_append(c0, c1, "abortIfConflicts"@);
        crate::http::lemma_form_value_append(c0 + c1, c2, "abortIfConflicts"@);
        crate::http::lemma_form_value_append(c0 + c1 + c2, c3, "abortIfConflicts"@);
        crate::http::lemma_form_value_append(c0 + c1 + c2 + c3, c4, "abortIfConflicts"@);
        crate::http::lemma_form_value_append(c0 + c1 + c2 + c3 + c4, c5, "abortIfConflicts"@);
    }
    assert(crate::http::form_value(form, "conflictDetection"@) == Some(detection.wire_name())) by {
        crate::http::lemma_form_value_pair("sessionId"@, uuid_text(session.0), "conflictDetection"@);
        crate::http::lemma_form_value_pair("abortIfConflicts"@, bool_text(abort_if_conflicts), "conflictDetection"@);
        crate::http::lemma_form_value_pair("conflictDetection"@, detection.wire_name(), "conflictDetection"@);
        crate::http::lemma_form_value_pair("withPost"@, bool_text(with_post), "conflictDetection"@);
        crate::http::lemma_form_value_pair("f"@, "json"@, "conflictDetection"@);
        crate::http::lemma_form_value_opt_pair("token"@, token, "conflictDetection"@);
        crate::http::lemma_form_value_append(c0, c1, "conflictDetection"@);
        crate::http::lemma_form_value_append(c0 + c1, c2, "conflictDetection"@);
        crate::http::lemma_form_value_append(c0 + c1 + c2, c3, "conflictDetection"@);
        crate::http::lemma_form_value_append(c0 + c1 + c2 + c3, c4, "conflictDetection"@);
        crate::http::lemma_form_value_append(c0 + c1 + c2 + c3 + c4, c5, "conflictDetection"@);
    }
    assert(crate::http::form_value(form, "withPost"@) == Some(bool_text(with_post))) by {
        crate::http::lemma_form_value_pair("sessionId"@, uuid_text(session.0), "withPost"@);
        crate::http::lemma_form_value_pair("abortIfConflicts"@, bool_text(abort_if_conflicts), "withPost"@);
        crate::http::lemma_form_value_pair("conflictDetection"@, detection.wire_name(), "withPost"@);
        crate::http::lemma_form_value_pair("withPost"@, bool_text(with_post), "withPost"@);
        crate::http::lemma_form_value_pair("f"@, "json"@, "withPost"@);
        crate::http::lemma_form_value_opt_pair("token"@, token, "withPost"@);
        crate::http::lemma_form_value_append(c0, c1, "withPost"@);
        crate::http::lemma_form_value_append(c0 + c1, c2, "withPost"@);
        crate::http::lemma_form_value_append(c0 + c1 + c2, c3, "withPost"@);
        crate::http::lemma_form_value_append(c0 + c1 + c2 + c3, c4, "withPost"@);
        crate::http::lemma_form_value_append(c0 + c1 + c2 + c3 + c4, c5, "withPost"@);
    }
    assert(crate::http::form_value(form, "f"@) == Some("json"@)) by {
        crate::http::lemma_form_value_pair("sessionId"@, uuid_text(session.0), "f"@);
        crate::http::lemma_form_value_pair("abortIfConflicts"@, bool_text(abort_if_conflicts), "f"@);
        crate::http::lemma_form_value_pair("conflictDetection"@, detection.wire_name(), "f"@);
        crate::http::lemma_form_value_pair("withPost"@, bool_text(with_post), "f"@);
        crate::http::lemma_form_value_pair("f"@, "json"@, "f"@);
        crate::http::lemma_form_value_opt_pair("token"@, token, "f"@);
        crate::http::lemma_form_value_append(c0, c1, "f"@);
        crate::http::lemma_form_value_append(c0 + c1, c2, "f"@);
        crate::http::lemma_form_value_append(c0 + c1 + c2, c3, "f"@);
        crate::http::lemma_form_value_append(c0 + c1 + c2 + c3, c4, "f"@);
        crate::http::lemma_form_value_append(c0 + c1 + c2 + c3 + c4, c5, "f"@);
    }
    assert(crate::http::form_value(form, "token"@) == token) by {
        crate::http::lemma_form_value_pair("sessionId"@, uuid_text(session.0), "token"@);
        crate::http::lemma_form_value_pair("abortIfConflicts"@, bool_text(abort_if_conflicts), "token"@);
        crate::http::lemma_form_value_pair("conflictDetection"@, detection.wire_name(), "token"@);
        crate::http::lemma_form_value_pair("withPost"@, bool_text(with_post), "token"@);
        crate::http::lemma_form_value_pair("f"@, "json"@, "token"@);
        crate::http::lemma_form_value_opt_pair("token"@, token, "token"@);
        crate::http::lemma_form_value_append(c0, c1, "token"@);
        crate::http::lemma_form_value_append(c0 + c1, c2, "token"@);
        crate::http::lemma_form_value_append(c0 + c1 + c2, c3, "token"@);
        crate::http::lemma_form_value_append(c0 + c1 + c2 + c3, c4, "token"@);
        crate::http::lemma_form_value_append(c0 + c1 + c2 + c3 + c4, c5, "token"@);
    }
}

/// Each field of `post_form` carries the value built from its own input: a
/// required field is always present, an optional one exactly when its
/// input is given.
pub proof fn lemma_post_form_fields(session: SessionId, rows: Option<Seq<PartialPostRow>>)
    ensures
        crate::http::form_value(post_form(session, rows), "sessionId"@) == Some(uuid_text(session.0)),
        crate::http::form_value(post_form(session, rows), "f"@) == Some("json"@),
        crate::http::form_value(post_form(session, rows), "rows"@) == match rows { Some(r) => Some(rows_json(r)), None => None, },
{
    reveal_strlit("f");
    reveal_strlit("json");
    reveal_strlit("rows");
    reveal_strlit("sessionId");
    assert("sessionId"@.len() != "f"@.len());
    assert("sessionId"@.len() != "rows"@.len());
    assert("f"@.len() != "rows"@.len());
    let c0 = pair("sessionId"@, uuid_text(session.0));
    let c1 = pair("f"@, "json"@);
    let c2 = opt_pair("rows"@, match rows { Some(r) => Some(rows_json(r)), None => None, });
    let form = post_form(session, rows);
    assert(form == c0 + c1 + c2);
    assert(crate::http::form_value(form, "sessionId"@) == Some(uuid_text(session.0))) by {
        crate::http::lemma_form_value_pair("sessionId"@, uuid_text(session.0), "sessionId"@);
        crate::http::lemma_form_value_pair("f"@, "json"@, "sessionId"@);
        crate::http::lemma_form_value_opt_pair("rows"@, match rows { Some(r) => Some(rows_json(r)), None => None, }, "sessionId"@);
        crate::http::lemma_form_value_append(c0, c1, "sessionId"@);
        crate::http::lemma_form_value_append(c0 + c1, c2, "sessionId"@);
    }
    assert(crate::http::form_value(form, "f"@) == Some("json"@)) by {
        crate::http::lemma_form_value_pair("sessionId"@, uuid_text(session.0), "f"@);
        crate::http::lemma_form_value_pair("f"@, "json"@, "f"@);
        crate::http::lemma_form_value_opt_pair("rows"@, match rows { Some(r) => Some(rows_json(r)), None => None, }, "f"@);
        crate::http::lemma_form_value_append(c0, c1, "f"@);
        crate::http::lemma_form_value_append(c0 + c1, c2, "f"@);
    }
    assert(crate::http::form_value(form, "rows"@) == match rows { Some(r) => Some(rows_json(r)), None => None, }) by {
        crate::http::lemma_form_value_pair("sessionId"@, uuid_text(session.0), "rows"@);
        crate::http::lemma_form_value_pair("f"@, "json"@, "rows"@);
        crate::http::lemma_form_value_opt_pair("rows"@, match rows { Some(r) => Some(rows_json(r)), None => None, }, "rows"@);
        crate::http::lemma_form_value_append(c0, c1, "rows"@);
        crate::http::lemma_form_value_append(c0 + c1, c2, "rows"@);
    }
}

/// Each field of `inspect_form` carries the value built from its own input: a
/// required field is always present, an optional one exactly when its
/// input is given.
pub proof fn lemma_inspect_form_fields(session: SessionId, inspect_all: bool, set_inspected: bool, conflicts: Option<Seq<char>>)
    ensures
        crate::http::form_value(inspect_form(session, inspect_all, set_inspected, conflicts), "sessionId"@) == Some(uuid_text(session.0)),
        crate::http::form_value(inspect_form(session, inspect_all, set_inspected, conflicts), "inspectAll"@) == Some(bool_text(inspect_all)),
        crate::http::form_value(inspect_form(session, inspect_all, set_inspected, conflicts), "setInspected"@) == Some(bool_text(set_inspected)),
        crate::http::form_value(inspect_form(session, inspect_all, set_inspected, conflicts), "f"@) == Some("json"@),
        crate::http::form_value(inspect_form(session, inspect_all, set_inspected, conflicts), "conflicts"@) == if inspect_all { None } else { conflicts },
{
    reveal_strlit("conflicts");
    reveal_strlit("f");
    reveal_strlit("inspectAll");
    reveal_strlit("json");
    reveal_strlit("sessionId");
    reveal_strlit("setInspected");
    assert("sessionId"@.len() != "inspectAll"@.len());
    assert("sessionId"@.len() != "setInspected"@.len());
    assert("sessionId"@.len() != "f"@.len());
    assert("sessionId"@[0] != "conflicts"@[0]);
    assert("inspectAll"@.len() != "setInspected"@.len());
    assert("inspectAll"@.len() != "f"@.len());
    assert("inspectAll"@.len() != "conflicts"@.len());
    assert("setInspected"@.len() != "f"@.len());
    assert("setInspected"@.len() != "conflicts"@.len());
    assert("f"@.len() != "conflicts"@.len());
    let c0 = pair("sessionId"@, uuid_text(session.0));
    let c1 = pair("inspectAll"@, bool_text(inspect_all));
    let c2 = pair("setInspected"@, bool_text(set_inspected));
    let c3 = pair("f"@, "json"@);
    let c4 = opt_pair("conflicts"@, if inspect_all { None } else { conflicts });
    let form = inspect_form(session, inspect_all, set_inspected, conflicts);
    assert(form == c0 + c1 + c2 + c3 + c4);
    assert(crate::http::form_value(form, "sessionId"@) == Some(uuid_text(session.0))) by {
        crate::http::lemma_form_value_pair("sessionId"@, uuid_text(session.0), "sessionId"@);
        crate::http::lemma_form_value_pair("inspectAll"@, bool_text(inspect_all), "sessionId"@);
        crate::http::lemma_form_value_pair("setInspected"@, bool_text(set_inspected), "sessionId"@);
        crate::http::lemma_form_value_pair("f"@, "json"@, "sessionId"@);
        crate::http::lemma_form_value_opt_pair("conflicts"@, if inspect_all { None } else { conflicts }, "sessionId"@);
        crate::http::lemma_form_value_append(c0, c1, "sessionId"@);
        crate::http::lemma_form_value_append(c0 + c1, c2, "sessionId"@);
        crate::http::lemma_form_value_append(c0 + c1 + c2, c3, "sessionId"@);
        crate::http::lemma_form_value_append(c0 + c1 + c2 + c3, c4, "sessionId"@);
    }
    assert(crate::http::form_value(form, "inspectAll"@) == Some(bool_text(inspect_all))) by {
        crate::http::lemma_form_value_pair("sessionId"@, uuid_text(session.0), "inspectAll"@);
        crate::http::lemma_form_value_pair("inspectAll"@, bool_text(inspect_all), "inspectAll"@);
        crate::http::lemma_form_value_pair("setInspected"@, bool_text(set_inspected), "inspectAll"@);
        crate::http::lemma_form_value_pair("f"@, "json"@, "inspectAll"@);
        crate::http::lemma_form_value_opt_pair("conflicts"@, if inspect_all { None } else { conflicts }, "inspectAll"@);
        crate::http::lemma_form_value_append(c0, c1, "inspectAll"@);
        crate::http::lemma_form_value_append(c0 + c1, c2, "inspectAll"@);
        crate::http::lemma_form_value_append(c0 + c1 + c2, c3, "inspectAll"@);
        crate::http::lemma_form_value_append(c0 + c1 + c2 + c3, c4, "inspectAll"@);
    }
    assert(crate::http::form_value(form, "setInspected"@) == Some(bool_text(set_inspected))) by {
        crate::http::lemma_form_value_pair("sessionId"@, uuid_text(session.0), "setInspected"@);
        crate::http::lemma_form_value_pair("inspectAll"@, bool_text(inspect_all), "setInspected"@);
        crate::http::lemma_form_value_pair("setInspected"@, bool_text(set_inspected), "setInspected"@);
        crate::http::lemma_form_value_pair("f"@, "json"@, "setInspected"@);
        crate::http::lemma_form_value_opt_pair("conflicts"@, if inspect_all { None } else { conflicts }, "setInspected"@);
        crate::http::lemma_form_value_append(c0, c1, "setInspected"@);
        crate::http::lemma_form_value_append(c0 + c1, c2, "setInspected"@);
        crate::http::lemma_form_value_append(c0 + c1 + c2, c3, "setInspected"@);
        crate::http::lemma_form_value_append(c0 + c1 + c2 + c3, c4, "setInspected"@);
    }
    assert(crate::http::form_value(form, "f"@) == Some("json"@)) by {
        crate::http::lemma_form_value_pair("sessionId"@, uuid_text(session.0), "f"@);
        crate::http::lemma_form_value_pair("inspectAll"@, bool_text(inspect_all), "f"@);
        crate::http::lemma_form_value_pair("setInspected"@, bool_text(set_inspected), "f"@);
        crate::http::lemma_form_value_pair("f"@, "json"@, "f"@);
        crate::http::lemma_form_value_opt_pair("conflicts"@, if inspect_all { None } else { conflicts }, "f"@);
        crate::http::lemma_form_value_append(c0, c1, "f"@);
        crate::http::lemma_form_value_append(c0 + c1, c2, "f"@);
        crate::http::lemma_form_value_append(c0 + c1 + c2, c3, "f"@);
        crate::http::lemma_form_value_append(c0 + c1 + c2 + c3, c4, "f"@);
    }
    assert(crate::http::form_value(form, "conflicts"@) == if inspect_all { None } else { conflicts }) by {
        crate::http::lemma_form_value_pair("sessionId"@, uuid_text(session.0), "conflicts"@);
        crate::http::lemma_form_value_pair("inspectAll"@, bool_text(inspect_all), "conflicts"@);
        crate::http::lemma_form_value_pair("setInspected"@, bool_text(set_inspected), "conflicts"@);
        crate::http::lemma_form_value_pair("f"@, "json"@, "conflicts"@);
        crate::http::lemma_form_value_opt_pair("conflicts"@, if inspect_all { None } else { conflicts }, "conflicts"@);
        crate::http::lemma_form_value_append(c0, c1, "conflicts"@);
        crate::http::lemma_form_value_append(c0 + c1, c2, "conflicts"@);
        crate::http::lemma_form_value_append(c0 + c1 + c2, c3, "conflicts"@);
        crate::http::lemma_form_value_append(c0 + c1 + c2 + c3, c4, "conflicts"@);
    }
}

/// Each field of `differences_form` carries the value built from its own input: a
/// required field is always present, an optional one exactly when its
/// input is given.
pub proof fn lemma_differences_form_fields(session: Option<SessionId>, result_type: Seq<char>, layers: Option<Seq<i64>>)
    ensures
        crate::http::form_value(differences_form(session, result_type, layers), "resultType"@) == Some(result_type),
        crate::http::form_value(differences_form(session, result_type, layers), "f"@) == Some("json"@),
        crate::http::form_value(differences_form(session, result_type, layers), "sessionId"@) == match session { Some(s) => Some(uuid_text(s.0)), None => None, },
        crate::http::form_value(differences_form(session, result_type, layers), "layers"@) == match layers { Some(l) => Some(i64_array(l)), None => None, },
{
    reveal_strlit("f");
    reveal_strlit("json");
    reveal_strlit("layers");
    reveal_strlit("resultType");
    reveal_strlit("sessionId");
    assert("resultType"@.len() != "f"@.len());
    assert("resultType"@.len() != "sessionId"@.len());
    assert("resultType"@.len() != "layers"@.len());
    assert("f"@.len() != "sessionId"@.len());
    assert("f"@.len() != "layers"@.len());
    assert("sessionId"@.len() != "layers"@.len());
    let c0 = pair("resultType"@, result_type);
    let c1 = pair("f"@, "json"@);
    let c2 = opt_pair("sessionId"@, match session { Some(s) => Some(uuid_text(s.0)), None => None, });
    let c3 = opt_pair("layers"@, match layers { Some(l) => Some(i64_array(l)), None => None, });
    let form = differences_form(session, result_type, layers);
    assert(form == c0 + c1 + c2 + c3);
    assert(crate::http::form_value(form, "resultType"@) == Some(result_type)) by {
        crate::http::lemma_form_value_pair("resultType"@, result_type, "resultType"@);
        crate::http::lemma_form_value_pair("f"@, "json"@, "resultType"@);
        crate::http::lemma_form_value_opt_pair("sessionId"@, match session { Some(s) => Some(uuid_text(s.0)), None => None, }, "resultType"@);
        crate::http::lemma_form_value_opt_pair("layers"@, match layers { Some(l) => Some(i64_array(l)), None => None, }, "resultType"@);
        crate::http::lemma_form_value_append(c0, c1, "resultType"@);
        crate::http::lemma_form_value_append(c0 + c1, c2, "resultType"@);
        crate::http::lemma_form_value_append(c0 + c1 + c2, c3, "resultType"@);
    }
    assert(crate::http::form_value(form, "f"@) == Some("json"@)) by {
        crate::http::lemma_form_value_pair("resultType"@, result_type, "f"@);
        crate::http::lemma_form_value_pair("f"@, "json"@, "f"@);
        crate::http::lemma_form_value_opt_pair("sessionId"@, match session { Some(s) => Some(uuid_text(s.0)), None => None, }, "f"@);
        crate::http::lemma_form_value_opt_pair("layers"@, match layers { Some(l) => Some(i64_array(l)), None => None, }, "f"@);
        crate::http::lemma_form_value_append(c0, c1, "f"@);
        crate::http::lemma_form_value_append(c0 + c1, c2, "f"@);
        crate::http::lemma_form_value_append(c0 + c1 + c2, c3, "f"@);
    }
    assert(crate::http::form_value(form, "sessionId"@) == match session { Some(s) => Some(uuid_text(s.0)), None => None, }) by {
        crate::http::lemma_form_value_pair("resultType"@, result_type, "sessionId"@);
        crate::http::lemma_form_value_pair("f"@, "json"@, "sessionId"@);
        crate::http::lemma_form_value_opt_pair("sessionId"@, match session { Some(s) => Some(uuid_text(s.0)), None => None, }, "sessionId"@);
        crate::http::lemma_form_value_opt_pair("layers"@, match layers { Some(l) => Some(i64_array(l)), None => None, }, "sessionId"@);
        crate::http::lemma_form_value_append(c0, c1, "sessionId"@);
        crate::http::lemma_form_value_append(c0 + c1, c2, "sessionId"@);
        crate::http::lemma_form_value_append(c0 + c1 + c2, c3, "sessionId"@);
    }
    assert(crate::http::form_value(form, "layers"@) == match layers { Some(l) => Some(i64_array(l)), None => None, }) by {
        crate::http::lemma_form_value_pair("resultType"@, result_type, "layers"@);
        crate::http::lemma_form_value_pair("f"@, "json"@, "layers"@);
        crate::http::lemma_form_value_opt_pair("sessionId"@, match session { Some(s) => Some(uuid_text(s.0)), None => None, }, "layers"@);
        crate::http::lemma_form_value_opt_pair("layers"@, match layers { Some(l) => Some(i64_array(l)), None => None, }, "layers"@);
        crate::http::lemma_form_value_append(c0, c1, "layers"@);
        crate::http::lemma_form_value_append(c0 + c1, c2, "layers"@);
        crate::http::lemma_form_value_append(c0 + c1 + c2, c3, "layers"@);
    }
}

} // verus!
