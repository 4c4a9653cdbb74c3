use armature_fuzz::http_response::{probe_json_body, response_body_within_limit, response_status};
use armature_fuzz::json_text::probe_json_text;

#[test]
fn response_status_is_clamped() {
    assert_eq!(response_status(0), 100);
    assert_eq!(response_status(99), 100);
    assert_eq!(response_status(100), 100);
    assert_eq!(response_status(404), 404);
    assert_eq!(response_status(599), 599);
    assert_eq!(response_status(600), 599);
    assert_eq!(response_status(u16::MAX), 599);
    for s in [0u16, 150, 700, 599, 100] {
        assert_eq!(response_status(response_status(s)), response_status(s));
    }
}

#[test]
fn response_body_limit() {
    assert!(response_body_within_limit(&vec![1u8; 1_000_000]));
    assert!(!response_body_within_limit(&vec![1u8; 1_000_001]));
}

#[test]
fn json_body_probe() {
    assert_eq!(probe_json_body(b""), None);
    assert_eq!(probe_json_body(b"{\"a\":1}"), Some(true));
    assert_eq!(probe_json_body(b"  42  "), Some(true));
    assert_eq!(probe_json_body(b"{"), Some(false));
    assert_eq!(probe_json_body(b"1 2"), Some(false));
    assert_eq!(probe_json_body(&[0xff, 0xfe]), None);
}

#[test]
fn json_text_probe_of_empty_text() {
    assert_eq!(probe_json_text(b""), Some(false));
    assert_eq!(probe_json_text(b"[1, \"\xc3\xa9\"]"), Some(true));
    assert_eq!(probe_json_text(&[b'"', 0xc3, b'"']), None);
}
