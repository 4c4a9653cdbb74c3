use armature_fuzz::method::HttpMethodKind;
use armature_fuzz::routing::{limit_routes, match_path, normalize_leading_slash, route_pattern, FuzzMethod};

#[test]
fn routing_methods_map_to_framework_methods() {
    assert_eq!(FuzzMethod::Get.as_http_method(), HttpMethodKind::Get);
    assert_eq!(FuzzMethod::Post.as_http_method(), HttpMethodKind::Post);
    assert_eq!(FuzzMethod::Put.as_http_method(), HttpMethodKind::Put);
    assert_eq!(FuzzMethod::Delete.as_http_method(), HttpMethodKind::Delete);
    assert_eq!(FuzzMethod::Patch.as_http_method(), HttpMethodKind::Patch);
    assert_eq!(FuzzMethod::Query.as_http_method(), HttpMethodKind::Query);
}

#[test]
fn limit_routes_keeps_first_hundred() {
    let routes: Vec<u32> = (0..150).collect();
    assert_eq!(limit_routes(routes), (0..100).collect::<Vec<u32>>());
    let few: Vec<u32> = (0..5).collect();
    assert_eq!(limit_routes(few.clone()), few);
}

#[test]
fn normalize_adds_missing_slash() {
    assert_eq!(normalize_leading_slash("users"), "/users");
    assert_eq!(normalize_leading_slash(""), "/");
    assert_eq!(normalize_leading_slash("/users"), "/users");
    assert_eq!(normalize_leading_slash("//x"), "//x");
    assert_eq!(normalize_leading_slash("\u{e9}/"), "/\u{e9}/");
}

#[test]
fn normalize_is_idempotent() {
    for s in ["", "a", "/a", "*path", ":id/x"] {
        let once = normalize_leading_slash(s);
        assert!(once.starts_with('/'));
        assert_eq!(normalize_leading_slash(&once), once);
    }
}

#[test]
fn route_pattern_limit() {
    assert_eq!(route_pattern(&"a".repeat(999)), Some(format!("/{}", "a".repeat(999))));
    assert_eq!(route_pattern(&"a".repeat(1000)), None);
    assert_eq!(route_pattern(&format!("/{}", "a".repeat(999))), Some(format!("/{}", "a".repeat(999))));
    assert_eq!(route_pattern("users/:id"), Some("/users/:id".to_string()));
}

#[test]
fn match_path_limit() {
    assert_eq!(match_path(&"a".repeat(9_999)).map(|p| p.len()), Some(10_000));
    assert_eq!(match_path(&"a".repeat(10_000)), None);
    assert_eq!(match_path("x"), Some("/x".to_string()));
}
