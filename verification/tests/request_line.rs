use armature_fuzz::request_line::{prepend_request_line, synth_request_line};

#[test]
fn synth_request_line_get_root() {
    assert_eq!(synth_request_line("GET", "/", 1), b"GET / HTTP/1.1\r\n".to_vec());
}

#[test]
fn synth_request_line_uses_last_digit_of_version() {
    assert_eq!(synth_request_line("POST", "/a", 0), b"POST /a HTTP/1.0\r\n".to_vec());
    assert_eq!(synth_request_line("POST", "/a", 23), b"POST /a HTTP/1.3\r\n".to_vec());
    assert_eq!(synth_request_line("POST", "/a", 255), b"POST /a HTTP/1.5\r\n".to_vec());
    assert_eq!(synth_request_line("PUT", "/x", 7), synth_request_line("PUT", "/x", 17));
}

#[test]
fn synth_request_line_keeps_empty_fields() {
    assert_eq!(synth_request_line("", "", 9), b"  HTTP/1.9\r\n".to_vec());
}

#[test]
fn synth_request_line_copies_utf8_bytes() {
    let line = synth_request_line("GET", "/caf\u{e9}", 1);
    let mut expected = b"GET /caf".to_vec();
    expected.extend_from_slice(&[0xc3, 0xa9]);
    expected.extend_from_slice(b" HTTP/1.1\r\n");
    assert_eq!(line, expected);
}

#[test]
fn synth_request_line_layout() {
    for (method, target, digit) in [("GET", "/", 1u8), ("DELETE", "/api/v1/x?y=z", 42), ("", "", 0)] {
        let line = synth_request_line(method, target, digit);
        assert_eq!(line.len(), method.len() + target.len() + 12);
        assert!(line.starts_with(method.as_bytes()));
        assert_eq!(line[method.len()], b' ');
        assert_eq!(&line[method.len() + 1..method.len() + 1 + target.len()], target.as_bytes());
        assert!(line[line.len() - 3].is_ascii_digit());
        assert!(line.ends_with(b"\r\n"));
    }
}

#[test]
fn prepend_request_line_appends_rest() {
    assert_eq!(
        prepend_request_line("GET", "/", 1, b"Host: a\r\n\r\n"),
        b"GET / HTTP/1.1\r\nHost: a\r\n\r\n".to_vec()
    );
    assert_eq!(prepend_request_line("GET", "/", 1, b""), synth_request_line("GET", "/", 1));
}
