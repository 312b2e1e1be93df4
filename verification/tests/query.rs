use http_relay::extract_query_params;

fn value_of(uri: &str, name: &str) -> Option<String> {
    extract_query_params(uri).get(name).cloned()
}

#[test]
fn reads_a_single_parameter() {
    let params = extract_query_params("/proxy?destination=http://example.com");
    assert_eq!(params.len(), 1);
    assert_eq!(
        params.get("destination").map(|v| v.as_str()),
        Some("http://example.com")
    );
}

#[test]
fn reads_several_parameters() {
    let params = extract_query_params("/proxy?a=1&b=2&c=3");
    assert_eq!(params.len(), 3);
    assert_eq!(params.get("a").map(|v| v.as_str()), Some("1"));
    assert_eq!(params.get("b").map(|v| v.as_str()), Some("2"));
    assert_eq!(params.get("c").map(|v| v.as_str()), Some("3"));
    assert!(params.get("d").is_none());
}

#[test]
fn target_without_query_has_no_parameters() {
    assert!(extract_query_params("/proxy").is_empty());
    assert!(extract_query_params("").is_empty());
    assert!(extract_query_params("http://localhost:3000/proxy").is_empty());
}

#[test]
fn empty_query_has_no_parameters() {
    assert!(extract_query_params("/proxy?").is_empty());
}

#[test]
fn piece_without_equals_is_dropped() {
    let params = extract_query_params("/proxy?flag&a=1&&other");
    assert_eq!(params.len(), 1);
    assert_eq!(params.get("a").map(|v| v.as_str()), Some("1"));
    assert!(!params.contains_key("flag"));
    assert!(!params.contains_key("other"));
    assert!(!params.contains_key(""));
}

#[test]
fn query_of_pieces_without_equals_is_empty() {
    assert!(extract_query_params("/proxy?destination").is_empty());
    assert!(extract_query_params("/proxy?&&&").is_empty());
}

#[test]
fn piece_is_cut_at_its_first_equals() {
    assert_eq!(value_of("/p?a=b=c", "a"), Some("b=c".to_string()));
    assert_eq!(value_of("/p?a==", "a"), Some("=".to_string()));
}

#[test]
fn later_value_overwrites_earlier() {
    let params = extract_query_params("/p?a=1&b=x&a=2&a=3");
    assert_eq!(params.len(), 2);
    assert_eq!(params.get("a").map(|v| v.as_str()), Some("3"));
    assert_eq!(params.get("b").map(|v| v.as_str()), Some("x"));
}

#[test]
fn empty_name_and_empty_value_are_kept() {
    assert_eq!(value_of("/p?a=", "a"), Some(String::new()));
    assert_eq!(value_of("/p?=v", ""), Some("v".to_string()));
    assert_eq!(value_of("/p?=", ""), Some(String::new()));
}

#[test]
fn values_are_not_decoded() {
    assert_eq!(
        value_of("/p?destination=http%3A%2F%2Fexample.com%2Fa%20b", "destination"),
        Some("http%3A%2F%2Fexample.com%2Fa%20b".to_string())
    );
    assert_eq!(value_of("/p?a=x+y", "a"), Some("x+y".to_string()));
    assert_eq!(value_of("/p?a%20b=c", "a%20b"), Some("c".to_string()));
    assert_eq!(value_of("/p?a%20b=c", "a b"), None);
}

#[test]
fn query_starts_at_the_first_question_mark() {
    assert_eq!(value_of("/p?a=1?b=2", "a"), Some("1?b=2".to_string()));
    assert_eq!(value_of("/p??a=1", "?a"), Some("1".to_string()));
}

#[test]
fn fragment_is_no_part_of_the_query() {
    assert_eq!(value_of("/p?a=1#top", "a"), Some("1".to_string()));
    assert_eq!(value_of("/p?a=1#b=2&c=3", "c"), None);
    assert!(extract_query_params("/p#frag?a=1").is_empty());
    assert!(extract_query_params("/p?#a=1").is_empty());
}

#[test]
fn absolute_target_is_read_like_a_path() {
    let params = extract_query_params("http://localhost:3000/proxy?destination=x&y=z");
    assert_eq!(params.len(), 2);
    assert_eq!(params.get("destination").map(|v| v.as_str()), Some("x"));
    assert_eq!(params.get("y").map(|v| v.as_str()), Some("z"));
}

#[test]
fn characters_outside_ascii_are_kept_whole() {
    assert_eq!(value_of("/p?n\u{e4}me=v\u{e4}lue\u{1f600}&z=1", "n\u{e4}me"), Some("v\u{e4}lue\u{1f600}".to_string()));
    assert_eq!(value_of("/\u{e4}?z=1", "z"), Some("1".to_string()));
}
