use arcgis::http::RequestBody;
use arcgis::version_management::client::VersionManagementClient;
use arcgis::version_management::ids::{SessionId, VersionGuid};
use arcgis::version_management::types::{
    AlterVersionParams, ConflictDetection, CreateVersionParams, PartialPostRow, VersionPermission,
};

fn form(body: RequestBody) -> Vec<(String, String)> {
    match body {
        RequestBody::Form(f) => f,
        _ => panic!("expected a form"),
    }
}

const G: u128 = 0x0123_4567_89ab_cdef_0123_4567_89ab_cdef;

#[test]
fn ids_print_hyphenated_lowercase() {
    assert_eq!(SessionId::from_u128(G).to_string(), "01234567-89ab-cdef-0123-456789abcdef");
    assert_eq!(VersionGuid::from_u128(0).to_string(), "00000000-0000-0000-0000-000000000000");
    assert_eq!(VersionGuid::from_u128(u128::MAX).to_string(), "ffffffff-ffff-ffff-ffff-ffffffffffff");
}

#[test]
fn new_session_ids_are_random_version_four() {
    let a = SessionId::new();
    let s = a.to_string();
    assert_eq!(s.len(), 36);
    assert_eq!(&s[14..15], "4");
    assert!(["8", "9", "a", "b"].contains(&&s[19..20]));
    assert_ne!(SessionId::new(), a);
}

#[test]
fn session_requests() {
    let c = VersionManagementClient::new("https://h/VersionManagementServer".to_string());
    let g = VersionGuid::from_u128(G);
    let s = SessionId::from_u128(1);
    let r = c.stop_editing_request(&g, &s, true, "tk");
    assert_eq!(
        r.url,
        "https://h/VersionManagementServer/versions/01234567-89ab-cdef-0123-456789abcdef/stopEditing"
    );
    let f = form(r.body);
    assert_eq!(f[0].1, "00000000-0000-0000-0000-000000000001");
    assert_eq!(f[1], ("saveEdits".to_string(), "true".to_string()));
    assert_eq!(f[3], ("token".to_string(), "tk".to_string()));
}

#[test]
fn version_requests() {
    let c = VersionManagementClient::new("https://h/VMS".to_string());
    let g = VersionGuid::from_u128(G);
    let cr = c.create_request(
        &CreateVersionParams::new("v1".to_string(), VersionPermission::Protected).with_description("d".to_string()),
        &None,
    );
    let expected: Vec<(String, String)> = [("versionName", "v1"), ("access", "protected"), ("f", "json"), ("description", "d")]
        .iter()
        .map(|(k, v)| (k.to_string(), v.to_string()))
        .collect();
    assert_eq!(form(cr.body), expected);
    let al = c.alter_request(&g, &AlterVersionParams::new().with_access(VersionPermission::Public), &Some("t".to_string()));
    let keys: Vec<String> = form(al.body).into_iter().map(|(k, _)| k).collect();
    assert_eq!(keys, vec!["f", "token", "access"]);
    assert!(form(c.delete_request(&g, &None).body).is_empty());
    assert_eq!(VersionPermission::Private.to_string(), "private");
}

#[test]
fn reconcile_post_and_conflict_requests() {
    let c = VersionManagementClient::new("https://h/VMS".to_string());
    let g = VersionGuid::from_u128(G);
    let s = SessionId::from_u128(G);
    let rc = form(c.reconcile_request(&g, &s, false, ConflictDetection::ByAttribute, true, &None).body);
    assert_eq!(rc[1], ("abortIfConflicts".to_string(), "false".to_string()));
    assert_eq!(rc[2], ("conflictDetection".to_string(), "byAttribute".to_string()));
    assert_eq!(rc[3], ("withPost".to_string(), "true".to_string()));
    let post = form(c.post_request(&g, &s, &Some(vec![PartialPostRow::new(3, vec![1, -2])])).body);
    assert_eq!(post[2], ("rows".to_string(), "[{\"layerId\":3,\"objectIds\":[1,-2]}]".to_string()));
    let all = form(c.inspect_conflicts_request(&g, &s, true, false, &Some("[]".to_string())).body);
    assert_eq!(all.len(), 4);
    let some = form(c.inspect_conflicts_request(&g, &s, false, true, &Some("[]".to_string())).body);
    assert_eq!(some[4], ("conflicts".to_string(), "[]".to_string()));
    let d = form(c.differences_request(&g, &None, "objects", &Some(vec![1, 2])).body);
    assert_eq!(d, vec![
        ("resultType".to_string(), "objects".to_string()),
        ("f".to_string(), "json".to_string()),
        ("layers".to_string(), "[1,2]".to_string()),
    ]);
    let fe = form(c.delete_forward_edits_request(&g, &s, 1700000000000, &None).body);
    assert_eq!(fe[1], ("moment".to_string(), "1700000000000".to_string()));
}
