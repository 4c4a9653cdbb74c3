use armature_fuzz::query_params::{build_query_string, common_query_params};

fn pairs(items: &[(&str, &str)]) -> Vec<(String, String)> {
    items.iter().map(|(k, v)| (k.to_string(), v.to_string())).collect()
}

#[test]
fn build_query_string_examples() {
    assert_eq!(build_query_string(&pairs(&[])), "");
    assert_eq!(build_query_string(&pairs(&[("a", "1")])), "a=1");
    assert_eq!(build_query_string(&pairs(&[("a", "1"), ("b", "")])), "a=1&b=");
    assert_eq!(build_query_string(&pairs(&[("", ""), ("", "")])), "=&=");
    assert_eq!(build_query_string(&pairs(&[("k&", "=v"), ("q", "a b")])), "k&==v&q=a b");
}

#[test]
fn build_query_string_concat_law() {
    let a = pairs(&[("page", "2"), ("limit", "10")]);
    let b = pairs(&[("q", "x")]);
    let mut ab = a.clone();
    ab.extend(b.clone());
    assert_eq!(
        build_query_string(&ab),
        format!("{}&{}", build_query_string(&a), build_query_string(&b))
    );
}

#[test]
fn common_query_params_list() {
    assert_eq!(
        common_query_params(),
        vec!["page", "limit", "offset", "sort", "order", "filter", "q", "search"]
    );
}
