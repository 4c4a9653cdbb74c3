use armature_fuzz::json_text::{probe_json_readings, JsonReadings};

#[test]
fn json_readings_of_shapes() {
    assert_eq!(
        probe_json_readings(b"[1, 2]"),
        Some(JsonReadings { value: true, array: true, object: false })
    );
    assert_eq!(
        probe_json_readings(b"{\"a\": 1}"),
        Some(JsonReadings { value: true, array: false, object: true })
    );
    assert_eq!(
        probe_json_readings(b"3"),
        Some(JsonReadings { value: true, array: false, object: false })
    );
    assert_eq!(
        probe_json_readings(b"{"),
        Some(JsonReadings { value: false, array: false, object: false })
    );
    assert_eq!(probe_json_readings(&[0xc0, 0x80]), None);
}
