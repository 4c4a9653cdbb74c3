use armature_fuzz::url_parsing::uri_request_head;

#[test]
fn uri_request_head_examples() {
    assert_eq!(uri_request_head("/x?y=1"), b"GET /x?y=1 HTTP/1.1\r\n\r\n".to_vec());
    assert_eq!(uri_request_head(""), b"GET  HTTP/1.1\r\n\r\n".to_vec());
}
