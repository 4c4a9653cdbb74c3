use armature_fuzz::http_request::{request_target, request_within_limits, FuzzMethod, MethodName};
use armature_fuzz::method::HttpMethodKind;

#[test]
fn method_names_of_framework_methods() {
    let pairs = [
        (FuzzMethod::Get, HttpMethodKind::Get),
        (FuzzMethod::Post, HttpMethodKind::Post),
        (FuzzMethod::Put, HttpMethodKind::Put),
        (FuzzMethod::Delete, HttpMethodKind::Delete),
        (FuzzMethod::Patch, HttpMethodKind::Patch),
        (FuzzMethod::Head, HttpMethodKind::Head),
        (FuzzMethod::Options, HttpMethodKind::Options),
        (FuzzMethod::Query, HttpMethodKind::Query),
    ];
    for (fuzzed, kind) in pairs {
        assert!(matches!(fuzzed.method_name(), MethodName::Standard(k) if k == kind));
    }
}

#[test]
fn method_names_of_tokens() {
    assert!(matches!(FuzzMethod::Connect.method_name(), MethodName::Token("CONNECT")));
    assert!(matches!(FuzzMethod::Trace.method_name(), MethodName::Token("TRACE")));
    let custom = FuzzMethod::Custom("PROPFIND".to_string());
    assert!(matches!(custom.method_name(), MethodName::Token("PROPFIND")));
    let empty = FuzzMethod::Custom(String::new());
    assert!(matches!(empty.method_name(), MethodName::Token("")));
}

#[test]
fn request_target_joins_path_and_query() {
    assert_eq!(request_target("/a", Some("x=1")), "/a?x=1");
    assert_eq!(request_target("/a", Some("")), "/a?");
    assert_eq!(request_target("/a", None), "/a");
    assert_eq!(request_target("", Some("q")), "?q");
}

#[test]
fn request_limits() {
    assert!(request_within_limits(&"p".repeat(10_000), &vec![0u8; 1_000_000]));
    assert!(!request_within_limits(&"p".repeat(10_001), b""));
    assert!(!request_within_limits("/", &vec![0u8; 1_000_001]));
}
