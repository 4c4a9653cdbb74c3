use armature_fuzz::header_fields::named_header_fields;

#[test]
fn named_header_fields_skips_empty_names() {
    let fields = vec![
        ("".to_string(), "x".to_string()),
        ("A".to_string(), "1".to_string()),
        ("B".to_string(), "".to_string()),
        ("".to_string(), "".to_string()),
        ("A".to_string(), "2".to_string()),
    ];
    assert_eq!(
        named_header_fields(&fields),
        vec![
            ("A".to_string(), "1".to_string()),
            ("B".to_string(), "".to_string()),
            ("A".to_string(), "2".to_string()),
        ]
    );
    assert!(named_header_fields(&vec![]).is_empty());
}
