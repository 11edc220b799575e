//! Publishing requests of a portal: creating, publishing, updating and
//! overwriting hosted services. Their URLs name the acting user through a
//! `{username}` placeholder.

use vstd::prelude::*;
use crate::error::Error;
use crate::http::{
    ApiRequest, f_json, get_request, json_query, json_token_query, multipart_post, opt_pair, pair,
    parts_view, push_opt, push_pair, push_part,
};
use crate::json::{json_object, json_quote, json_string, render_object};
use crate::portal::client::PortalClient;
use crate::portal::types::{
    CreateServiceParams, DeleteItemResult, DeleteServiceResult, OverwriteParameters,
    PublishParameters, UpdateServiceDefinitionParams, UserInfo,
};
use crate::query::{
    no_pairs, no_parts, opt_bool, opt_i32, push_opt_bool, push_opt_i32, push_part_opt_bool,
    push_part_opt_i32, push_part_opt_string,
};
use crate::text::{concat2, concat3, i32_text, int_text, replace_all, replace_spec};

verus! {

/// Error of a publishing call when the user info names nobody to act as.
pub open spec fn username_error() -> (i32, Seq<char>) {
    (401, "Username not available in user info"@)
}

/// Error of a definition update for an item without a service URL.
pub open spec fn missing_service_url_error() -> (i32, Seq<char>) {
    (400, "Item does not have a service URL"@)
}

/// A URL template with every `{username}` replaced by the user's name.
pub open spec fn for_user(template: Seq<char>, username: Seq<char>) -> Seq<char> {
    replace_spec(template, "{username}"@, username)
}

/// An optional text as a JSON string.
pub open spec fn opt_json_text(o: Option<String>) -> Option<Seq<char>> {
    match o {
        Some(s) => Some(json_quote(s@)),
        None => None,
    }
}

/// The `createParameters` object of a new service, members in key order.
pub open spec fn create_parameters_json(p: CreateServiceParams) -> Seq<char> {
    json_object(
        opt_pair("capabilities"@, opt_json_text(p.capabilities)) + opt_pair(
            "description"@,
            opt_json_text(p.description),
        ) + opt_pair("hasStaticData"@, opt_bool(p.has_static_data)) + opt_pair(
            "layers"@,
            p.service_definition.deep_view(),
        ) + opt_pair("maxRecordCount"@, opt_i32(p.max_record_count)) + pair(
            "name"@,
            json_quote(p.name@),
        ) + opt_pair("supportedQueryFormats"@, opt_json_text(p.supported_query_formats)),
    )
}

/// The `spatialReference` member of published parameters: `{"wkid":N}`.
pub open spec fn wkid_json(wkid: Option<i32>) -> Option<Seq<char>> {
    match wkid {
        Some(w) => Some(json_object(pair("wkid"@, int_text(w as int)))),
        None => None,
    }
}

/// The `publishParameters` object, members in key order.
pub open spec fn publish_parameters_json(p: PublishParameters) -> Seq<char> {
    json_object(
        opt_pair("allowGeometryUpdates"@, opt_bool(p.allow_geometry_updates)) + opt_pair(
            "capabilities"@,
            opt_json_text(p.capabilities),
        ) + opt_pair("copyrightText"@, opt_json_text(p.copyright_text)) + opt_pair(
            "description"@,
            opt_json_text(p.description),
        ) + opt_pair("enableVersioning"@, opt_bool(p.enable_versioning)) + opt_pair(
            "fullExtent"@,
            p.full_extent.deep_view(),
        ) + opt_pair("hasStaticData"@, opt_bool(p.has_static_data)) + opt_pair(
            "initialExtent"@,
            p.initial_extent.deep_view(),
        ) + opt_pair("maxRecordCount"@, opt_i32(p.max_record_count)) + pair(
            "name"@,
            json_quote(p.name@),
        ) + opt_pair("spatialReference"@, wkid_json(p.spatial_reference)) + opt_pair(
            "units"@,
            opt_json_text(p.units),
        ) + opt_pair("xssPreventionEnabled"@, opt_bool(p.xss_prevention_enabled)),
    )
}

/// Multipart fields of creating a service.
pub open spec fn create_service_parts(p: CreateServiceParams, token: Option<Seq<char>>) -> Seq<
    (Seq<char>, Seq<char>),
> {
    f_json() + pair("outputType"@, "featureService"@) + pair(
        "createParameters"@,
        create_parameters_json(p),
    ) + opt_pair("token"@, token)
}

/// Multipart fields of publishing an item.
pub open spec fn publish_parts(item_id: Seq<char>, p: PublishParameters, token: Option<Seq<char>>) -> Seq<
    (Seq<char>, Seq<char>),
> {
    f_json() + pair("itemId"@, item_id) + pair("filetype"@, "serviceDefinition"@) + pair(
        "publishParameters"@,
        publish_parameters_json(p),
    ) + opt_pair("token"@, token)
}

/// Multipart fields of updating a service definition.
pub open spec fn update_definition_parts(
    p: UpdateServiceDefinitionParams,
    token: Option<Seq<char>>,
) -> Seq<(Seq<char>, Seq<char>)> {
    f_json() + opt_pair("updateDefinition"@, p.service_definition.deep_view()) + opt_pair(
        "description"@,
        p.description.deep_view(),
    ) + opt_pair("capabilities"@, p.capabilities.deep_view()) + opt_pair(
        "maxRecordCount"@,
        opt_i32(p.max_record_count),
    ) + opt_pair("token"@, token)
}

/// Multipart fields of overwriting a service.
pub open spec fn overwrite_parts(p: OverwriteParameters, token: Option<Seq<char>>) -> Seq<
    (Seq<char>, Seq<char>),
> {
    f_json() + pair("sourceItemId"@, p.source_item_id@) + pair("overwrite"@, "true"@) + opt_pair(
        "preserveItemId"@,
        opt_bool(p.preserve_item_id),
    ) + opt_pair("token"@, token)
}

fn push_opt_json_text(list: &mut Vec<(String, String)>, k: &str, v: &Option<String>)
    ensures
        final(list).deep_view() == old(list).deep_view() + opt_pair(k@, opt_json_text(*v)),
{
    match v {
        Some(s) => {
            let q = json_string(s.as_str());
            push_pair(list, k, q.as_str());
        },
        None => {
            assert(final(list).deep_view() =~= old(list).deep_view() + opt_pair(
                k@,
                opt_json_text(*v),
            ));
        },
    }
}

/// Renders the `createParameters` object of a new service.
pub fn create_parameters_text(p: &CreateServiceParams) -> (r: String)
    ensures
        r@ == create_parameters_json(*p),
{
    let mut m = no_pairs();
    push_opt_json_text(&mut m, "capabilities", &p.capabilities);
    push_opt_json_text(&mut m, "description", &p.description);
    push_opt_bool(&mut m, "hasStaticData", p.has_static_data);
    push_opt(&mut m, "layers", &p.service_definition);
    push_opt_i32(&mut m, "maxRecordCount", p.max_record_count);
    let name = json_string(p.name.as_str());
    push_pair(&mut m, "name", name.as_str());
    push_opt_json_text(&mut m, "supportedQueryFormats", &p.supported_query_formats);
    render_object(&m)
}

fn wkid_text(wkid: Option<i32>) -> (r: Option<String>)
    ensures
        r.deep_view() == wkid_json(wkid),
{
    match wkid {
        Some(w) => {
            let mut m = no_pairs();
            let t = i32_text(w);
            push_pair(&mut m, "wkid", t.as_str());
            Some(render_object(&m))
        },
        None => None,
    }
}

/// Renders the `publishParameters` object.
pub fn publish_parameters_text(p: &PublishParameters) -> (r: String)
    ensures
        r@ == publish_parameters_json(*p),
{
    let mut m = no_pairs();
    push_opt_bool(&mut m, "allowGeometryUpdates", p.allow_geometry_updates);
    push_opt_json_text(&mut m, "capabilities", &p.capabilities);
    push_opt_json_text(&mut m, "copyrightText", &p.copyright_text);
    push_opt_json_text(&mut m, "description", &p.description);
    push_opt_bool(&mut m, "enableVersioning", p.enable_versioning);
    push_opt(&mut m, "fullExtent", &p.full_extent);
    push_opt_bool(&mut m, "hasStaticData", p.has_static_data);
    push_opt(&mut m, "initialExtent", &p.initial_extent);
    push_opt_i32(&mut m, "maxRecordCount", p.max_record_count);
    let name = json_string(p.name.as_str());
    push_pair(&mut m, "name", name.as_str());
    let sr = wkid_text(p.spatial_reference);
    push_opt(&mut m, "spatialReference", &sr);
    push_opt_json_text(&mut m, "units", &p.units);
    push_opt_bool(&mut m, "xssPreventionEnabled", p.xss_prevention_enabled);
    render_object(&m)
}

/// The name to act as for a publishing call, or the error when the user
/// info has none.
pub fn acting_username(user: &UserInfo) -> (r: Result<&str, Error>)
    ensures
        match r {
            Ok(s) => user.effective_name() == Some(s@),
            Err(e) => user.effective_name() is None && e.api_parts() == Some(username_error()),
        },
{
    match user.effective_username() {
        Some(u) => Ok(u),
        None => Err(
            Error::Api {
                code: 401,
                message: String::from_str("Username not available in user info"),
            },
        ),
    }
}

fn user_url(template: &str, username: &str) -> (r: String)
    ensures
        r@ == for_user(template@, username@),
{
    proof {
        reveal_strlit("{username}");
    }
    replace_all(template, "{username}", username)
}

impl PortalClient {
    /// Creating a hosted feature service: multipart `POST
    /// <base>/content/users/<user>/createService` with `f=json`,
    /// `outputType=featureService`, the `createParameters` object and the
    /// token. Fails with code 401 when the user info names nobody.
    pub fn create_service_request(
        &self,
        user: &UserInfo,
        params: &CreateServiceParams,
        token: &Option<String>,
    ) -> (r: Result<ApiRequest, Error>)
        ensures
            user.effective_name() is None ==> (r matches Err(e) && e.api_parts() == Some(
                username_error(),
            )),
            user.effective_name() matches Some(u) ==> (r matches Ok(req) && req.is_multipart_post(
                for_user(self.base() + "/content/users/{username}/createService"@, u),
                create_service_parts(*params, token.deep_view()),
            )),
    {
        let template = concat2(self.base_url(), "/content/users/{username}/createService");
        let username = acting_username(user)?;
        let url = user_url(template.as_str(), username);
        let mut parts = no_parts();
        push_part(&mut parts, "f", "json");
        push_part(&mut parts, "outputType", "featureService");
        let body = create_parameters_text(params);
        push_part(&mut parts, "createParameters", body.as_str());
        push_part_opt_string(&mut parts, "token", token);
        proof {
            assert(parts_view(parts@) =~= create_service_parts(*params, token.deep_view()));
        }
        Ok(multipart_post(url, parts))
    }

    /// Publishing an item: multipart `POST <base>/content/users/<user>/publish`
    /// with `f=json`, the item ID, `filetype=serviceDefinition`, the
    /// `publishParameters` object and the token. Fails with code 401 when
    /// the user info names nobody.
    pub fn publish_request(
        &self,
        user: &UserInfo,
        item_id: &str,
        params: &PublishParameters,
        token: &Option<String>,
    ) -> (r: Result<ApiRequest, Error>)
        ensures
            user.effective_name() is None ==> (r matches Err(e) && e.api_parts() == Some(
                username_error(),
            )),
            user.effective_name() matches Some(u) ==> (r matches Ok(req) && req.is_multipart_post(
                for_user(self.base() + "/content/users/{username}/publish"@, u),
                publish_parts(item_id@, *params, token.deep_view()),
            )),
    {
        let template = concat2(self.base_url(), "/content/users/{username}/publish");
        let username = acting_username(user)?;
        let url = user_url(template.as_str(), username);
        let mut parts = no_parts();
        push_part(&mut parts, "f", "json");
        push_part(&mut parts, "itemId", item_id);
        push_part(&mut parts, "filetype", "serviceDefinition");
        let body = publish_parameters_text(params);
        push_part(&mut parts, "publishParameters", body.as_str());
        push_part_opt_string(&mut parts, "token", token);
        proof {
            assert(parts_view(parts@) =~= publish_parts(item_id@, *params, token.deep_view()));
        }
        Ok(multipart_post(url, parts))
    }

    /// The status of a publishing job: `GET
    /// <base>/content/users/<user>/jobs/<job>?f=json&token=...`. Fails with
    /// code 401 when the user info names nobody.
    pub fn publish_status_request(&self, user: &UserInfo, job_id: &str, token: &Option<String>) -> (r:
        Result<ApiRequest, Error>)
        ensures
            user.effective_name() is None ==> (r matches Err(e) && e.api_parts() == Some(
                username_error(),
            )),
            user.effective_name() matches Some(u) ==> (r matches Ok(req) && req.is_get(
                for_user(self.base() + "/content/users/{username}/jobs/"@ + job_id@, u),
                json_token_query(token.deep_view()),
            )),
    {
        let template = concat3(self.base_url(), "/content/users/{username}/jobs/", job_id);
        let username = acting_username(user)?;
        let url = user_url(template.as_str(), username);
        Ok(get_request(url, json_query(token)))
    }

    /// Updating a service definition: multipart `POST
    /// <service>/updateDefinition`. Fails with code 400 when the service's
    /// item has no URL.
    pub fn update_service_definition_request(
        service_url: &Option<String>,
        params: &UpdateServiceDefinitionParams,
        token: &Option<String>,
    ) -> (r: Result<ApiRequest, Error>)
        ensures
            service_url is None ==> (r matches Err(e) && e.api_parts() == Some(
                missing_service_url_error(),
            )),
            service_url matches Some(u) ==> (r matches Ok(req) && req.is_multipart_post(
                u@ + "/updateDefinition"@,
                update_definition_parts(*params, token.deep_view()),
            )),
    {
        match service_url {
            None => Err(
                Error::Api { code: 400, message: String::from_str("Item does not have a service URL") },
            ),
            Some(u) => {
                let mut parts = no_parts();
                push_part(&mut parts, "f", "json");
                push_part_opt_string(&mut parts, "updateDefinition", &params.service_definition);
                push_part_opt_string(&mut parts, "description", &params.description);
                push_part_opt_string(&mut parts, "capabilities", &params.capabilities);
                push_part_opt_i32(&mut parts, "maxRecordCount", params.max_record_count);
                push_part_opt_string(&mut parts, "token", token);
                proof {
                    assert(parts_view(parts@) =~= update_definition_parts(
                        *params,
                        token.deep_view(),
                    ));
                }
                Ok(multipart_post(concat2(u.as_str(), "/updateDefinition"), parts))
            },
        }
    }

    /// Deleting a service deletes its item; the answer carries over the
    /// item's success flag and ID.
    pub fn delete_service_result(deleted: &DeleteItemResult) -> (r: DeleteServiceResult)
        ensures
            r.success == deleted.success,
            r.service_item_id == deleted.item_id,
    {
        DeleteServiceResult::new(deleted.success, deleted.item_id.clone())
    }

    /// Overwriting a service: multipart `POST
    /// <base>/content/users/<user>/items/<target>/update` with `f=json`, the
    /// source item, `overwrite=true`, whether to keep the item ID, and the
    /// token. Fails with code 401 when the user info names nobody.
    pub fn overwrite_service_request(
        &self,
        user: &UserInfo,
        params: &OverwriteParameters,
        token: &Option<String>,
    ) -> (r: Result<ApiRequest, Error>)
        ensures
            user.effective_name() is None ==> (r matches Err(e) && e.api_parts() == Some(
                username_error(),
            )),
            user.effective_name() matches Some(u) ==> (r matches Ok(req) && req.is_multipart_post(
                for_user(
                    self.base() + "/content/users/{username}/items/"@ + params.target_service_id@
                        + "/update"@,
                    u,
                ),
                overwrite_parts(*params, token.deep_view()),
            )),
    {
        let mut template = concat3(
            self.base_url(),
            "/content/users/{username}/items/",
            params.target_service_id.as_str(),
        );
        template.append("/update");
        let username = acting_username(user)?;
        let url = user_url(template.as_str(), username);
        let mut parts = no_parts();
        push_part(&mut parts, "f", "json");
        push_part(&mut parts, "sourceItemId", params.source_item_id.as_str());
        push_part(&mut parts, "overwrite", "true");
        push_part_opt_bool(&mut parts, "preserveItemId", params.preserve_item_id);
        push_part_opt_string(&mut parts, "token", token);
        proof {
            assert(parts_view(parts@) =~= overwrite_parts(*params, token.deep_view()));
        }
        Ok(multipart_post(url, parts))
    }
}

/// Each field of `create_service_parts` carries the value built from its own input: a
/// required field is always present, an optional one exactly when its
/// input is given.
pub proof fn lemma_create_service_parts_fields(p: CreateServiceParams, token: Option<Seq<char>>)
    ensures
        crate::http::form_value(create_service_parts(p, token), "f"@) == Some("json"@),
        crate::http::form_value(create_service_parts(p, token), "outputType"@) == Some("featureService"@),
        crate::http::form_value(create_service_parts(p, token), "createParameters"@) == Some(create_parameters_json(p)),
        crate::http::form_value(create_service_parts(p, token), "token"@) == token,
{
    reveal_strlit("createParameters");
    reveal_strlit("f");
    reveal_strlit("json");
    reveal_strlit("outputType");
    reveal_strlit("token");
    assert("f"@.len() != "outputType"@.len());
    assert("f"@.len() != "createParameters"@.len());
    assert("f"@.len() != "token"@.len());
    assert("outputType"@.len() != "createParameters"@.len());
    assert("outputType"@.len() != "token"@.len());
    assert("createParameters"@.len() != "token"@.len());
    let c0 = pair("f"@, "json"@);
    let c1 = pair("outputType"@, "featureService"@);
    let c2 = pair("createParameters"@, create_parameters_json(p));
    let c3 = opt_pair("token"@, token);
    let form = create_service_parts(p, token);
    assert(form == c0 + c1 + c2 + c3);
    assert(crate::http::form_value(form, "f"@) == Some("json"@)) by {
        crate::http::lemma_form_value_pair("f"@, "json"@, "f"@);
        crate::http::lemma_form_value_pair("outputType"@, "featureService"@, "f"@);
        crate::http::lemma_form_value_pair("createParameters"@, create_parameters_json(p), "f"@);
        crate::http::lemma_form_value_opt_pair("token"@, token, "f"@);
        crate::http::lemma_form_value_append(c0, c1, "f"@);
        crate::http::lemma_form_value_append(c0 + c1, c2, "f"@);
        crate::http::lemma_form_value_append(c0 + c1 + c2, c3, "f"@);
    }
    assert(crate::http::form_value(form, "outputType"@) == Some("featureService"@)) by {
        crate::http::lemma_form_value_pair("f"@, "json"@, "outputType"@);
        crate::http::lemma_form_value_pair("outputType"@, "featureService"@, "outputType"@);
        crate::http::lemma_form_value_pair("createParameters"@, create_parameters_json(p), "outputType"@);
        crate::http::lemma_form_value_opt_pair("token"@, token, "outputType"@);
        crate::http::lemma_form_value_append(c0, c1, "outputType"@);
        crate::http::lemma_form_value_append(c0 + c1, c2, "outputType"@);
        crate::http::lemma_form_value_append(c0 + c1 + c2, c3, "outputType"@);
    }
    assert(crate::http::form_value(form, "createParameters"@) == Some(create_parameters_json(p))) by {
        crate::http::lemma_form_value_pair("f"@, "json"@, "createParameters"@);
        crate::http::lemma_form_value_pair("outputType"@, "featureService"@, "createParameters"@);
        crate::http::lemma_form_value_pair("createParameters"@, create_parameters_json(p), "createParameters"@);
        crate::http::lemma_form_value_opt_pair("token"@, token, "createParameters"@);
        crate::http::lemma_form_value_append(c0, c1, "createParameters"@);
        crate::http::lemma_form_value_append(c0 + c1, c2, "createParameters"@);
        crate::http::lemma_form_value_append(c0 + c1 + c2, c3, "createParameters"@);
    }
    assert(crate::http::form_value(form, "token"@) == token) by {
        crate::http::lemma_form_value_pair("f"@, "json"@, "token"@);
        crate::http::lemma_form_value_pair("outputType"@, "featureService"@, "token"@);
        crate::http::lemma_form_value_pair("createParameters"@, create_parameters_json(p), "token"@);
        crate::http::lemma_form_value_opt_pair("token"@, token, "token"@);
        crate::http::lemma_form_value_append(c0, c1, "token"@);
        crate::http::lemma_form_value_append(c0 + c1, c2, "token"@);
        crate::http::lemma_form_value_append(c0 + c1 + c2, c3, "token"@);
    }
}

/// Each field of `publish_parts` carries the value built from its own input: a
/// required field is always present, an optional one exactly when its
/// input is given.
pub proof fn lemma_publish_parts_fields(item_id: Seq<char>, p: PublishParameters, token: Option<Seq<char>>)
    ensures
        crate::http::form_value(publish_parts(item_id, p, token), "f"@) == Some("json"@),
        crate::http::form_value(publish_parts(item_id, p, token), "itemId"@) == Some(item_id),
        crate::http::form_value(publish_parts(item_id, p, token), "filetype"@) == Some("serviceDefinition"@),
        crate::http::form_value(publish_parts(item_id, p, token), "publishParameters"@) == Some(publish_parameters_json(p)),
        crate::http::form_value(publish_parts(item_id, p, token), "token"@) == token,
{
    reveal_strlit("f");
    reveal_strlit("filetype");
    reveal_strlit("itemId");
    reveal_strlit("json");
    reveal_strlit("publishParameters");
    reveal_strlit("token");
    assert("f"@.len() != "itemId"@.len());
    assert("f"@.len() != "filetype"@.len());
    assert("f"@.len() != "publishParameters"@.len());
    assert("f"@.len() != "token"@.len());
    assert("itemId"@.len() != "filetype"@.len());
    assert("itemId"@.len() != "publishParameters"@.len());
    assert("itemId"@.len() != "token"@.len());
    assert("filetype"@.len() != "publishParameters"@.len());
    assert("filetype"@.len() != "token"@.len());
    assert("publishParameters"@.len() != "token"@.len());
    let c0 = pair("f"@, "json"@);
    let c1 = pair("itemId"@, item_id);
    let c2 = pair("filetype"@, "serviceDefinition"@);
    let c3 = pair("publishParameters"@, publish_parameters_json(p));
    let c4 = opt_pair("token"@, token);
    let form = publish_parts(item_id, p, token);
    assert(form == c0 + c1 + c2 + c3 + c4);
    assert(crate::http::form_value(form, "f"@) == Some("json"@)) by {
        crate::http::lemma_form_value_pair("f"@, "json"@, "f"@);
        crate::http::lemma_form_value_pair("itemId"@, item_id, "f"@);
        crate::http::lemma_form_value_pair("filetype"@, "serviceDefinition"@, "f"@);
        crate::http::lemma_form_value_pair("publishParameters"@, publish_parameters_json(p), "f"@);
        crate::http::lemma_form_value_opt_pair("token"@, token, "f"@);
        crate::http::lemma_form_value_append(c0, c1, "f"@);
        crate::http::lemma_form_value_append(c0 + c1, c2, "f"@);
        crate::http::lemma_form_value_append(c0 + c1 + c2, c3, "f"@);
        crate::http::lemma_form_value_append(c0 + c1 + c2 + c3, c4, "f"@);
    }
    assert(crate::http::form_value(form, "itemId"@) == Some(item_id)) by {
        crate::http::lemma_form_value_pair("f"@, "json"@, "itemId"@);
        crate::http::lemma_form_value_pair("itemId"@, item_id, "itemId"@);
        crate::http::lemma_form_value_pair("filetype"@, "serviceDefinition"@, "itemId"@);
        crate::http::lemma_form_value_pair("publishParameters"@, publish_parameters_json(p), "itemId"@);
        crate::http::lemma_form_value_opt_pair("token"@, token, "itemId"@);
        crate::http::lemma_form_value_append(c0, c1, "itemId"@);
        crate::http::lemma_form_value_append(c0 + c1, c2, "itemId"@);
        crate::http::lemma_form_value_append(c0 + c1 + c2, c3, "itemId"@);
        crate::http::lemma_form_value_append(c0 + c1 + c2 + c3, c4, "itemId"@);
    }
    assert(crate::http::form_value(form, "filetype"@) == Some("serviceDefinition"@)) by {
        crate::http::lemma_form_value_pair("f"@, "json"@, "filetype"@);
        crate::http::lemma_form_value_pair("itemId"@, item_id, "filetype"@);
        crate::http::lemma_form_value_pair("filetype"@, "serviceDefinition"@, "filetype"@);
        crate::http::lemma_form_value_pair("publishParameters"@, publish_parameters_json(p), "filetype"@);
        crate::http::lemma_form_value_opt_pair("token"@, token, "filetype"@);
        crate::http::lemma_form_value_append(c0, c1, "filetype"@);
        crate::http::lemma_form_value_append(c0 + c1, c2, "filetype"@);
        crate::http::lemma_form_value_append(c0 + c1 + c2, c3, "filetype"@);
        crate::http::lemma_form_value_append(c0 + c1 + c2 + c3, c4, "filetype"@);
    }
    assert(crate::http::form_value(form, "publishParameters"@) == Some(publish_parameters_json(p))) by {
        crate::http::lemma_form_value_pair("f"@, "json"@, "publishParameters"@);
        crate::http::lemma_form_value_pair("itemId"@, item_id, "publishParameters"@);
        crate::http::lemma_form_value_pair("filetype"@, "serviceDefinition"@, "publishParameters"@);
        crate::http::lemma_form_value_pair("publishParameters"@, publish_parameters_json(p), "publishParameters"@);
        crate::http::lemma_form_value_opt_pair("token"@, token, "publishParameters"@);
        crate::http::lemma_form_value_append(c0, c1, "publishParameters"@);
        crate::http::lemma_form_value_append(c0 + c1, c2, "publishParameters"@);
        crate::http::lemma_form_value_append(c0 + c1 + c2, c3, "publishParameters"@);
        crate::http::lemma_form_value_append(c0 + c1 + c2 + c3, c4, "publishParameters"@);
    }
    assert(crate::http::form_value(form, "token"@) == token) by {
        crate::http::lemma_form_value_pair("f"@, "json"@, "token"@);
        crate::http::lemma_form_value_pair("itemId"@, item_id, "token"@);
        crate::http::lemma_form_value_pair("filetype"@, "serviceDefinition"@, "token"@);
        crate::http::lemma_form_value_pair("publishParameters"@, publish_parameters_json(p), "token"@);
        crate::http::lemma_form_value_opt_pair("token"@, token, "token"@);
        crate::http::lemma_form_value_append(c0, c1, "token"@);
        crate::http::lemma_form_value_append(c0 + c1, c2, "token"@);
        crate::http::lemma_form_value_append(c0 + c1 + c2, c3, "token"@);
        crate::http::lemma_form_value_append(c0 + c1 + c2 + c3, c4, "token"@);
    }
}

/// Each field of `update_definition_parts` carries the value built from its own input: a
/// required field is always present, an optional one exactly when its
/// input is given.
pub proof fn lemma_update_definition_parts_fields(p: UpdateServiceDefinitionParams, token: Option<Seq<char>>)
    ensures
        crate::http::form_value(update_definition_parts(p, token), "f"@) == Some("json"@),
        crate::http::form_value(update_definition_parts(p, token), "updateDefinition"@) == p.service_definition.deep_view(),
        crate::http::form_value(update_definition_parts(p, token), "description"@) == p.description.deep_view(),
        crate::http::form_value(update_definition_parts(p, token), "capabilities"@) == p.capabilities.deep_view(),
        crate::http::form_value(update_definition_parts(p, token), "maxRecordCount"@) == opt_i32(p.max_record_count),
        crate::http::form_value(update_definition_parts(p, token), "token"@) == token,
{
    reveal_strlit("capabilities");
    reveal_strlit("description");
    reveal_strlit("f");
    reveal_strlit("json");
    reveal_strlit("maxRecordCount");
    reveal_strlit("token");
    reveal_strlit("updateDefinition");
    assert("f"@.len() != "updateDefinition"@.len());
    assert("f"@.len() != "description"@.len());
    assert("f"@.len() != "capabilities"@.len());
    assert("f"@.len() != "maxRecordCount"@.len());
    assert("f"@.len() != "token"@.len());
    assert("updateDefinition"@.len() != "description"@.len());
    assert("updateDefinition"@.len() != "capabilities"@.len());
    assert("updateDefinition"@.len() != "maxRecordCount"@.len());
    assert("updateDefinition"@.len() != "token"@.len());
    assert("description"@.len() != "capabilities"@.len());
    assert("description"@.len() != "maxRecordCount"@.len());
    assert("description"@.len() != "token"@.len());
    assert("capabilities"@.len() != "maxRecordCount"@.len());
    assert("capabilities"@.len() != "token"@.len());
    assert("maxRecordCount"@.len() != "token"@.len());
    let c0 = pair("f"@, "json"@);
    let c1 = opt_pair("updateDefinition"@, p.service_definition.deep_view());
    let c2 = opt_pair("description"@, p.description.deep_view());
    let c3 = opt_pair("capabilities"@, p.capabilities.deep_view());
    let c4 = opt_pair("maxRecordCount"@, opt_i32(p.max_record_count));
    let c5 = opt_pair("token"@, token);
    let form = update_definition_parts(p, token);
    assert(form == c0 + c1 + c2 + c3 + c4 + c5);
    assert(crate::http::form_value(form, "f"@) == Some("json"@)) by {
        crate::http::lemma_form_value_pair("f"@, "json"@, "f"@);
        crate::http::lemma_form_value_opt_pair("updateDefinition"@, p.service_definition.deep_view(), "f"@);
        crate::http::lemma_form_value_opt_pair("description"@, p.description.deep_view(), "f"@);
        crate::http::lemma_form_value_opt_pair("capabilities"@, p.capabilities.deep_view(), "f"@);
        crate::http::lemma_form_value_opt_pair("maxRecordCount"@, opt_i32(p.max_record_count), "f"@);
        crate::http::lemma_form_value_opt_pair("token"@, token, "f"@);
        crate::http::lemma_form_value_append(c0, c1, "f"@);
        crate::http::lemma_form_value_append(c0 + c1, c2, "f"@);
        crate::http::lemma_form_value_append(c0 + c1 + c2, c3, "f"@);
        crate::http::lemma_form_value_append(c0 + c1 + c2 + c3, c4, "f"@);
        crate::http::lemma_form_value_append(c0 + c1 + c2 + c3 + c4, c5, "f"@);
    }
    assert(crate::http::form_value(form, "updateDefinition"@) == p.service_definition.deep_view()) by {
        crate::http::lemma_form_value_pair("f"@, "json"@, "updateDefinition"@);
        crate::http::lemma_form_value_opt_pair("updateDefinition"@, p.service_definition.deep_view(), "updateDefinition"@);
        crate::http::lemma_form_value_opt_pair("description"@, p.description.deep_view(), "updateDefinition"@);
        crate::http::lemma_form_value_opt_pair("capabilities"@, p.capabilities.deep_view(), "updateDefinition"@);
        crate::http::lemma_form_value_opt_pair("maxRecordCount"@, opt_i32(p.max_record_count), "updateDefinition"@);
        crate::http::lemma_form_value_opt_pair("token"@, token, "updateDefinition"@);
        crate::http::lemma_form_value_append(c0, c1, "updateDefinition"@);
        crate::http::lemma_form_value_append(c0 + c1, c2, "updateDefinition"@);
        crate::http::lemma_form_value_append(c0 + c1 + c2, c3, "updateDefinition"@);
        crate::http::lemma_form_value_append(c0 + c1 + c2 + c3, c4, "updateDefinition"@);
        crate::http::lemma_form_value_append(c0 + c1 + c2 + c3 + c4, c5, "updateDefinition"@);
    }
    assert(crate::http::form_value(form, "description"@) == p.description.deep_view()) by {
        crate::http::lemma_form_value_pair("f"@, "json"@, "description"@);
        crate::http::lemma_form_value_opt_pair("updateDefinition"@, p.service_definition.deep_view(), "description"@);
        crate::http::lemma_form_value_opt_pair("description"@, p.description.deep_view(), "description"@);
        crate::http::lemma_form_value_opt_pair("capabilities"@, p.capabilities.deep_view(), "description"@);
        crate::http::lemma_form_value_opt_pair("maxRecordCount"@, opt_i32(p.max_record_count), "description"@);
        crate::http::lemma_form_value_opt_pair("token"@, token, "description"@);
        crate::http::lemma_form_value_append(c0, c1, "description"@);
        crate::http::lemma_form_value_append(c0 + c1, c2, "description"@);
        crate::http::lemma_form_value_append(c0 + c1 + c2, c3, "description"@);
        crate::http::lemma_form_value_append(c0 + c1 + c2 + c3, c4, "description"@);
        crate::http::lemma_form_value_append(c0 + c1 + c2 + c3 + c4, c5, "description"@);
    }
    assert(crate::http::form_value(form, "capabilities"@) == p.capabilities.deep_view()) by {
        crate::http::lemma_form_value_pair("f"@, "json"@, "capabilities"@);
        crate::http::lemma_form_value_opt_pair("updateDefinition"@, p.service_definition.deep_view(), "capabilities"@);
        crate::http::lemma_form_value_opt_pair("description"@, p.description.deep_view(), "capabilities"@);
        crate::http::lemma_form_value_opt_pair("capabilities"@, p.capabilities.deep_view(), "capabilities"@);
        crate::http::lemma_form_value_opt_pair("maxRecordCount"@, opt_i32(p.max_record_count), "capabilities"@);
        crate::http::lemma_form_value_opt_pair("token"@, token, "capabilities"@);
        crate::http::lemma_form_value_append(c0, c1, "capabilities"@);
        crate::http::lemma_form_value_append(c0 + c1, c2, "capabilities"@);
        crate::http::lemma_form_value_append(c0 + c1 + c2, c3, "capabilities"@);
        crate::http::lemma_form_value_append(c0 + c1 + c2 + c3, c4, "capabilities"@);
        crate::http::lemma_form_value_append(c0 + c1 + c2 + c3 + c4, c5, "capabilities"@);
    }
    assert(crate::http::form_value(form, "maxRecordCount"@) == opt_i32(p.max_record_count)) by {
        crate::http::lemma_form_value_pair("f"@, "json"@, "maxRecordCount"@);
        crate::http::lemma_form_value_opt_pair("updateDefinition"@, p.service_definition.deep_view(), "maxRecordCount"@);
        crate::http::lemma_form_value_opt_pair("description"@, p.description.deep_view(), "maxRecordCount"@);
        crate::http::lemma_form_value_opt_pair("capabilities"@, p.capabilities.deep_view(), "maxRecordCount"@);
        crate::http::lemma_form_value_opt_pair("maxRecordCount"@, opt_i32(p.max_record_count), "maxRecordCount"@);
        crate::http::lemma_form_value_opt_pair("token"@, token, "maxRecordCount"@);
        crate::http::lemma_form_value_append(c0, c1, "maxRecordCount"@);
        crate::http::lemma_form_value_append(c0 + c1, c2, "maxRecordCount"@);
        crate::http::lemma_form_value_append(c0 + c1 + c2, c3, "maxRecordCount"@);
        crate::http::lemma_form_value_append(c0 + c1 + c2 + c3, c4, "maxRecordCount"@);
        crate::http::lemma_form_value_append(c0 + c1 + c2 + c3 + c4, c5, "maxRecordCount"@);
    }
    assert(crate::http::form_value(form, "token"@) == token) by {
        crate::http::lemma_form_value_pair("f"@, "json"@, "token"@);
        crate::http::lemma_form_value_opt_pair("updateDefinition"@, p.service_definition.deep_view(), "token"@);
        crate::http::lemma_form_value_opt_pair("description"@, p.description.deep_view(), "token"@);
        crate::http::lemma_form_value_opt_pair("capabilities"@, p.capabilities.deep_view(), "token"@);
        crate::http::lemma_form_value_opt_pair("maxRecordCount"@, opt_i32(p.max_record_count), "token"@);
        crate::http::lemma_form_value_opt_pair("token"@, token, "token"@);
        crate::http::lemma_form_value_append(c0, c1, "token"@);
        crate::http::lemma_form_value_append(c0 + c1, c2, "token"@);
        crate::http::lemma_form_value_append(c0 + c1 + c2, c3, "token"@);
        crate::http::lemma_form_value_append(c0 + c1 + c2 + c3, c4, "token"@);
        crate::http::lemma_form_value_append(c0 + c1 + c2 + c3 + c4, c5, "token"@);
    }
}

/// Each field of `overwrite_parts` carries the value built from its own input: a
/// required field is always present, an optional one exactly when its
/// input is given.
pub proof fn lemma_overwrite_parts_fields(p: OverwriteParameters, token: Option<Seq<char>>)
    ensures
        crate::http::form_value(overwrite_parts(p, token), "f"@) == Some("json"@),
        crate::http::form_value(overwrite_parts(p, token), "sourceItemId"@) == Some(p.source_item_id@),
        crate::http::form_value(overwrite_parts(p, token), "overwrite"@) == Some("true"@),
        crate::http::form_value(overwrite_parts(p, token), "preserveItemId"@) == opt_bool(p.preserve_item_id),
        crate::http::form_value(overwrite_parts(p, token), "token"@) == token,
{
    reveal_strlit("f");
    reveal_strlit("json");
    reveal_strlit("overwrite");
    reveal_strlit("preserveItemId");
    reveal_strlit("sourceItemId");
    reveal_strlit("token");
    assert("f"@.len() != "sourceItemId"@.len());
    assert("f"@.len() != "overwrite"@.len());
    assert("f"@.len() != "preserveItemId"@.len());
    assert("f"@.len() != "token"@.len());
    assert("sourceItemId"@.len() != "overwrite"@.len());
    assert("sourceItemId"@.len() != "preserveItemId"@.len());
    assert("sourceItemId"@.len() != "token"@.len());
    assert("overwrite"@.len() != "preserveItemId"@.len());
    assert("overwrite"@.len() != "token"@.len());
    assert("preserveItemId"@.len() != "token"@.len());
    let c0 = pair("f"@, "json"@);
    let c1 = pair("sourceItemId"@, p.source_item_id@);
    let c2 = pair("overwrite"@, "true"@);
    let c3 = opt_pair("preserveItemId"@, opt_bool(p.preserve_item_id));
    let c4 = opt_pair("token"@, token);
    let form = overwrite_parts(p, token);
    assert(form == c0 + c1 + c2 + c3 + c4);
    assert(crate::http::form_value(form, "f"@) == Some("json"@)) by {
        crate::http::lemma_form_value_pair("f"@, "json"@, "f"@);
        crate::http::lemma_form_value_pair("sourceItemId"@, p.source_item_id@, "f"@);
        crate::http::lemma_form_value_pair("overwrite"@, "true"@, "f"@);
        crate::http::lemma_form_value_opt_pair("preserveItemId"@, opt_bool(p.preserve_item_id), "f"@);
        crate::http::lemma_form_value_opt_pair("token"@, token, "f"@);
        crate::http::lemma_form_value_append(c0, c1, "f"@);
        crate::http::lemma_form_value_append(c0 + c1, c2, "f"@);
        crate::http::lemma_form_value_append(c0 + c1 + c2, c3, "f"@);
        crate::http::lemma_form_value_append(c0 + c1 + c2 + c3, c4, "f"@);
    }
    assert(crate::http::form_value(form, "sourceItemId"@) == Some(p.source_item_id@)) by {
        crate::http::lemma_form_value_pair("f"@, "json"@, "sourceItemId"@);
        crate::http::lemma_form_value_pair("sourceItemId"@, p.source_item_id@, "sourceItemId"@);
        crate::http::lemma_form_value_pair("overwrite"@, "true"@, "sourceItemId"@);
        crate::http::lemma_form_value_opt_pair("preserveItemId"@, opt_bool(p.preserve_item_id), "sourceItemId"@);
        crate::http::lemma_form_value_opt_pair("token"@, token, "sourceItemId"@);
        crate::http::lemma_form_value_append(c0, c1, "sourceItemId"@);
        crate::http::lemma_form_value_append(c0 + c1, c2, "sourceItemId"@);
        crate::http::lemma_form_value_append(c0 + c1 + c2, c3, "sourceItemId"@);
        crate::http::lemma_form_value_append(c0 + c1 + c2 + c3, c4, "sourceItemId"@);
    }
    assert(crate::http::form_value(form, "overwrite"@) == Some("true"@)) by {
        crate::http::lemma_form_value_pair("f"@, "json"@, "overwrite"@);
        crate::http::lemma_form_value_pair("sourceItemId"@, p.source_item_id@, "overwrite"@);
        crate::http::lemma_form_value_pair("overwrite"@, "true"@, "overwrite"@);
        crate::http::lemma_form_value_opt_pair("preserveItemId"@, opt_bool(p.preserve_item_id), "overwrite"@);
        crate::http::lemma_form_value_opt_pair("token"@, token, "overwrite"@);
        crate::http::lemma_form_value_append(c0, c1, "overwrite"@);
        crate::http::lemma_form_value_append(c0 + c1, c2, "overwrite"@);
        crate::http::lemma_form_value_append(c0 + c1 + c2, c3, "overwrite"@);
        crate::http::lemma_form_value_append(c0 + c1 + c2 + c3, c4, "overwrite"@);
    }
    assert(crate::http::form_value(form, "preserveItemId"@) == opt_bool(p.preserve_item_id)) by {
        crate::http::lemma_form_value_pair("f"@, "json"@, "preserveItemId"@);
        crate::http::lemma_form_value_pair("sourceItemId"@, p.source_item_id@, "preserveItemId"@);
        crate::http::lemma_form_value_pair("overwrite"@, "true"@, "preserveItemId"@);
        crate::http::lemma_form_value_opt_pair("preserveItemId"@, opt_bool(p.preserve_item_id), "preserveItemId"@);
        crate::http::lemma_form_value_opt_pair("token"@, token, "preserveItemId"@);
        crate::http::lemma_form_value_append(c0, c1, "preserveItemId"@);
        crate::http::lemma_form_value_append(c0 + c1, c2, "preserveItemId"@);
        crate::http::lemma_form_value_append(c0 + c1 + c2, c3, "preserveItemId"@);
        crate::http::lemma_form_value_append(c0 + c1 + c2 + c3, c4, "preserveItemId"@);
    }
    assert(crate::http::form_value(form, "token"@) == token) by {
        crate::http::lemma_form_value_pair("f"@, "json"@, "token"@);
        crate::http::lemma_form_value_pair("sourceItemId"@, p.source_item_id@, "token"@);
        crate::http::lemma_form_value_pair("overwrite"@, "true"@, "token"@);
        crate::http::lemma_form_value_opt_pair("preserveItemId"@, opt_bool(p.preserve_item_id), "token"@);
        crate::http::lemma_form_value_opt_pair("token"@, token, "token"@);
        crate::http::lemma_form_value_append(c0, c1, "token"@);
        crate::http::lemma_form_value_append(c0 + c1, c2, "token"@);
        crate::http::lemma_form_value_append(c0 + c1 + c2, c3, "token"@);
        crate::http::lemma_form_value_append(c0 + c1 + c2 + c3, c4, "token"@);
    }
}

} // verus!
