use httpserver::QueryString;
use httpserver::QueryStringValue;

#[test]
fn single_occurrences_map_to_single_values() {
    let qs = QueryString::decode("a=1&b=2");
    assert_eq!(qs.get("a"), Some(QueryStringValue::Single("1".to_string())));
    assert_eq!(qs.get("b"), Some(QueryStringValue::Single("2".to_string())));
}

#[test]
fn absent_key_yields_none() {
    let qs = QueryString::decode("a=1&b=2");
    assert_eq!(qs.get("c"), None);
    assert_eq!(qs.get("a=1"), None);
    assert_eq!(qs.get("1"), None);
}

#[test]
fn repeated_keys_append_in_order() {
    let qs = QueryString::decode("a=1&a=2&a=3");
    assert_eq!(
        qs.get("a"),
        Some(QueryStringValue::Multiple(vec![
            "1".to_string(),
            "2".to_string(),
            "3".to_string()
        ]))
    );
}

#[test]
fn repeated_keys_interleaved_with_others() {
    let qs = QueryString::decode("x=a&y=b&x=c");
    assert_eq!(
        qs.get("x"),
        Some(QueryStringValue::Multiple(vec!["a".to_string(), "c".to_string()]))
    );
    assert_eq!(qs.get("y"), Some(QueryStringValue::Single("b".to_string())));
}

#[test]
fn pair_without_equals_has_empty_value() {
    let qs = QueryString::decode("flag&a=1");
    assert_eq!(qs.get("flag"), Some(QueryStringValue::Single("".to_string())));
}

#[test]
fn value_splits_at_first_equals_only() {
    let qs = QueryString::decode("k=v=w");
    assert_eq!(qs.get("k"), Some(QueryStringValue::Single("v=w".to_string())));
}

#[test]
fn empty_key_and_empty_value_pairs() {
    let qs = QueryString::decode("a=");
    assert_eq!(qs.get("a"), Some(QueryStringValue::Single("".to_string())));
    let qs = QueryString::decode("=x");
    assert_eq!(qs.get(""), Some(QueryStringValue::Single("x".to_string())));
}
