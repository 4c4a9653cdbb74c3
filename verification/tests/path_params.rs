use armature_fuzz::method::HttpMethodKind;
use armature_fuzz::path_params::{edge_methods, edge_paths, path_within_limit, router_routes, FuzzMethod};

#[test]
fn path_params_methods_map_to_framework_methods() {
    let pairs = [
        (FuzzMethod::Get, HttpMethodKind::Get),
        (FuzzMethod::Post, HttpMethodKind::Post),
        (FuzzMethod::Put, HttpMethodKind::Put),
        (FuzzMethod::Delete, HttpMethodKind::Delete),
        (FuzzMethod::Patch, HttpMethodKind::Patch),
        (FuzzMethod::Head, HttpMethodKind::Head),
        (FuzzMethod::Options, HttpMethodKind::Options),
        (FuzzMethod::Query, HttpMethodKind::Query),
    ];
    for (fuzzed, kind) in pairs {
        assert_eq!(fuzzed.as_http_method(), kind);
    }
}

#[test]
fn router_routes_table() {
    let routes = router_routes();
    assert_eq!(routes.len(), 10);
    assert_eq!(routes[0], (HttpMethodKind::Get, "/users/:id"));
    assert_eq!(routes[4], (HttpMethodKind::Get, "/:org/:repo/tree/:branch/*path"));
    assert_eq!(routes[5], (HttpMethodKind::Get, "/**"));
    assert_eq!(routes[6], (HttpMethodKind::Post, "/users/:id"));
    assert_eq!(routes[9], (HttpMethodKind::Patch, "/api/v1/:resource/:id"));
}

#[test]
fn edge_cases_tables() {
    assert_eq!(edge_paths(), vec!["", "/", "/*", "//users//123//", "/**"]);
    assert_eq!(edge_methods(), vec!["", "GET", "get", "TRACE"]);
}

#[test]
fn path_limit_is_ten_thousand_bytes() {
    assert!(path_within_limit(&"a".repeat(10_000)));
    assert!(!path_within_limit(&"a".repeat(10_001)));
    assert!(path_within_limit(""));
}
