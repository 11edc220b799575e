use arcgis::error::Error;
use arcgis::http::{HttpMethod, MultipartPart, RequestBody};
use arcgis::portal::client::PortalClient;
use arcgis::portal::publishing::{create_parameters_text, publish_parameters_text};
use arcgis::portal::types::{
    AppInfo, CreateServiceParams, GroupResult, GroupSummary, PublishParameters, SearchParameters,
    ShareItemResult, SharingParameters, SortOrder, UpdateServiceDefinitionParams, UserInfo,
};

fn user(username: Option<&str>, owner: Option<&str>) -> UserInfo {
    UserInfo {
        username: username.map(|s| s.to_string()),
        app_info: owner.map(|o| AppInfo {
            app_id: String::new(),
            item_id: String::new(),
            app_owner: o.to_string(),
            org_id: String::new(),
            app_title: String::new(),
            privileges: Vec::new(),
        }),
        full_name: None,
        email: None,
        role: None,
        privileges: Vec::new(),
        groups: Vec::new(),
        storage_quota: None,
        storage_usage: None,
        culture: None,
        region: None,
        thumbnail: None,
        description: None,
        tags: Vec::new(),
        access: None,
        preferred_view: None,
        units: None,
        id: None,
        created: None,
        modified: None,
        org_id: None,
    }
}

fn texts(parts: &[MultipartPart]) -> Vec<(String, String)> {
    parts
        .iter()
        .map(|p| match p {
            MultipartPart::Text(k, v) => (k.clone(), v.clone()),
            MultipartPart::File(f) => (f.field.clone(), f.file_name.clone()),
        })
        .collect()
}

#[test]
fn effective_username_prefers_the_username() {
    assert_eq!(user(Some("bob"), Some("alice")).effective_username(), Some("bob"));
    assert_eq!(user(None, Some("alice")).effective_username(), Some("alice"));
    assert_eq!(user(None, None).effective_username(), None);
}

#[test]
fn publish_parameters_are_sorted_json() {
    let p = PublishParameters::new("Svc".to_string())
        .with_spatial_reference(4326)
        .with_has_static_data(true)
        .with_description("a \"b\"".to_string());
    assert_eq!(
        publish_parameters_text(&p),
        "{\"description\":\"a \\\"b\\\"\",\"hasStaticData\":true,\"name\":\"Svc\",\"spatialReference\":{\"wkid\":4326}}"
    );
    let c = CreateServiceParams::new("S".to_string())
        .with_max_record_count(2000)
        .with_service_definition("[]".to_string());
    assert_eq!(create_parameters_text(&c), "{\"layers\":[],\"maxRecordCount\":2000,\"name\":\"S\"}");
}

#[test]
fn publish_request_names_the_acting_user() {
    let c = PortalClient::new("https://p/sharing/rest".to_string());
    let p = PublishParameters::new("Svc".to_string());
    let r = c.publish_request(&user(Some("bob"), None), "item1", &p, &None).unwrap();
    assert_eq!(r.method, HttpMethod::Post);
    assert_eq!(r.url, "https://p/sharing/rest/content/users/bob/publish");
    match r.body {
        RequestBody::Multipart(parts) => {
            let t = texts(&parts);
            assert_eq!(t[0], ("f".to_string(), "json".to_string()));
            assert_eq!(t[1], ("itemId".to_string(), "item1".to_string()));
            assert_eq!(t[2], ("filetype".to_string(), "serviceDefinition".to_string()));
            assert_eq!(t[3], ("publishParameters".to_string(), "{\"name\":\"Svc\"}".to_string()));
            assert_eq!(t.len(), 4);
        }
        _ => panic!("expected multipart"),
    }
    match c.publish_request(&user(None, None), "item1", &p, &None) {
        Err(Error::Api { code, message }) => {
            assert_eq!(code, 401);
            assert_eq!(message, "Username not available in user info");
        }
        _ => panic!("expected the username error"),
    }
}

#[test]
fn every_username_placeholder_is_replaced() {
    let c = PortalClient::new("https://p/{username}/rest".to_string());
    let r = c.publish_status_request(&user(Some("amy"), None), "j1", &Some("t".to_string())).unwrap();
    assert_eq!(r.url, "https://p/amy/rest/content/users/amy/jobs/j1");
    assert_eq!(r.query, vec![("f".to_string(), "json".to_string()), ("token".to_string(), "t".to_string())]);
}

#[test]
fn update_definition_needs_a_service_url() {
    match PortalClient::update_service_definition_request(&None, &UpdateServiceDefinitionParams::new(), &None) {
        Err(Error::Api { code, message }) => {
            assert_eq!(code, 400);
            assert_eq!(message, "Item does not have a service URL");
        }
        _ => panic!("expected the missing URL error"),
    }
}

#[test]
fn search_query_lists_set_options_in_order() {
    let c = PortalClient::new("https://p/sharing/rest".to_string());
    let p = SearchParameters::new("owner:bob".to_string())
        .with_bbox(vec!["-120".to_string(), "30.5".to_string(), "-110".to_string(), "40".to_string()])
        .with_sort("title".to_string(), SortOrder::Desc)
        .with_pagination(11, 10);
    let r = c.search_request(&p, &None);
    assert_eq!(r.url, "https://p/sharing/rest/search");
    let expected: Vec<(String, String)> = [
        ("q", "owner:bob"),
        ("bbox", "-120,30.5,-110,40"),
        ("sortField", "title"),
        ("sortOrder", "desc"),
        ("start", "11"),
        ("num", "10"),
        ("f", "json"),
    ]
    .iter()
    .map(|(k, v)| (k.to_string(), v.to_string()))
    .collect();
    assert_eq!(r.query, expected);
}

#[test]
fn sharing_and_group_results() {
    let ok = ShareItemResult { item_id: Some("i".to_string()), not_shared_with: Vec::new() };
    assert!(ok.success());
    let partial = ShareItemResult { item_id: Some("i".to_string()), not_shared_with: vec!["g".to_string()] };
    assert!(!partial.success());
    let by_group = GroupResult {
        success: true,
        group: Some(GroupSummary { id: "g1".to_string(), title: String::new(), owner: String::new(), access: String::new() }),
        group_id: Some("g2".to_string()),
    };
    assert_eq!(by_group.id(), Some("g1"));
    let by_id = GroupResult { success: true, group: None, group_id: Some("g2".to_string()) };
    assert_eq!(by_id.id(), Some("g2"));
    let c = PortalClient::new("https://p/sharing/rest".to_string());
    let s = c.share_item_request("bob", "i1", &SharingParameters::new().with_everyone(true).with_groups(vec!["a".to_string(), "b".to_string()]), "tk");
    assert_eq!(s.url, "https://p/sharing/rest/content/users/bob/items/i1/share");
    match s.body {
        RequestBody::Multipart(parts) => {
            let t = texts(&parts);
            let keys: Vec<&str> = t.iter().map(|(k, _)| k.as_str()).collect();
            assert_eq!(keys, vec!["f", "token", "everyone", "groups"]);
            assert_eq!(t[3].1, "a,b");
        }
        _ => panic!("expected multipart"),
    }
    assert_eq!(c.join_group_request("g", &None).url, "https://p/sharing/rest/community/groups/g/join");
    assert_eq!(c.remove_from_group_request("g", "i", &None).url, "https://p/sharing/rest/content/items/i/unshare");
}
