use armature_fuzz::headers::{header_probe_buffer, header_probe_method, split_lines};

#[test]
fn probe_method_keeps_short_methods() {
    assert_eq!(header_probe_method("POST"), "POST");
    assert_eq!(header_probe_method("ABCDEFGHIJKLMNOP"), "ABCDEFGHIJKLMNOP");
}

#[test]
fn probe_method_replaces_empty_and_long_methods() {
    assert_eq!(header_probe_method(""), "GET");
    assert_eq!(header_probe_method("ABCDEFGHIJKLMNOPQ"), "GET");
    // nine characters, eighteen bytes
    assert_eq!(header_probe_method("\u{e9}\u{e9}\u{e9}\u{e9}\u{e9}\u{e9}\u{e9}\u{e9}\u{e9}"), "GET");
}

#[test]
fn probe_buffer_prefixes_request_line() {
    assert_eq!(header_probe_buffer("", 11, b"X: y"), b"GET / HTTP/1.1\r\nX: y".to_vec());
    assert_eq!(header_probe_buffer("PATCH", 2, b""), b"PATCH / HTTP/1.2\r\n".to_vec());
}

#[test]
fn split_lines_matches_slice_split() {
    let inputs: [&[u8]; 7] = [b"", b"a", b"\n", b"a\nb", b"a\n\nb\n", b"\n\n\n", b"Host: x\r\nAccept: */*\r\n\r\n"];
    for input in inputs {
        let expected: Vec<Vec<u8>> = input.split(|&b| b == b'\n').map(|s| s.to_vec()).collect();
        assert_eq!(split_lines(input), expected);
    }
}

#[test]
fn split_lines_examples() {
    assert_eq!(split_lines(b""), vec![Vec::<u8>::new()]);
    assert_eq!(split_lines(b"a\n\nb\n"), vec![b"a".to_vec(), vec![], b"b".to_vec(), vec![]]);
}

#[test]
fn split_lines_join_roundtrip() {
    let input = b"GET / HTTP/1.1\nHost: a\n\nbody\n";
    let lines = split_lines(input);
    assert_eq!(lines.join(&b'\n'), input.to_vec());
    assert_eq!(lines.len(), 1 + input.iter().filter(|&&b| b == b'\n').count());
    assert!(lines.iter().all(|l| !l.contains(&b'\n')));
}
