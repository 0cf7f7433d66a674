use api_client::url::{url_builder, url_splitter};

fn pair(k: &str, v: &str) -> (String, String) {
    (k.to_string(), v.to_string())
}

#[test]
fn splitter_separates_base_and_path() {
    let r = url_splitter("https://api.example.com/v1/users");
    assert_eq!(r, Some(("https://api.example.com".to_string(), "/v1/users".to_string())));
}

#[test]
fn splitter_keeps_later_slashes_in_endpoint() {
    let r = url_splitter("http://host/a/b/c");
    assert_eq!(r, Some(("http://host".to_string(), "/a/b/c".to_string())));
}

#[test]
fn splitter_host_only_gets_root_endpoint() {
    let r = url_splitter("https://example.com");
    assert_eq!(r, Some(("https://example.com".to_string(), "/".to_string())));
}

#[test]
fn splitter_refuses_fewer_than_two_slashes() {
    assert_eq!(url_splitter("example.com"), None);
    assert_eq!(url_splitter("a/b"), None);
    assert_eq!(url_splitter(""), None);
}

#[test]
fn splitter_without_scheme_slashes() {
    // `x/y/z`: parts x, y, z — the middle part is dropped from the base.
    assert_eq!(url_splitter("x/y/z"), Some(("x//z".to_string(), "/".to_string())));
}

#[test]
fn split_then_build_gives_url_back() {
    let url = "https://api.example.com/v1/users?id=3";
    let (base, endpoint) = url_splitter(url).unwrap();
    assert_eq!(url_builder(&base, &endpoint, None), url);
}

#[test]
fn builder_without_query() {
    assert_eq!(url_builder("https://x.org", "/items", None), "https://x.org/items");
}

#[test]
fn builder_joins_pairs_in_order() {
    let q = vec![pair("a", "1"), pair("b", "two")];
    assert_eq!(url_builder("http://h", "/p", Some(&q)), "http://h/p?a=1&b=two");
}

#[test]
fn builder_with_empty_query_keeps_question_mark() {
    let q: Vec<(String, String)> = vec![];
    assert_eq!(url_builder("http://h", "/p", Some(&q)), "http://h/p?");
}

#[test]
fn splitter_accepts_any_two_slashes() {
    assert_eq!(url_splitter("//"), Some(("//".to_string(), "/".to_string())));
    assert_eq!(url_splitter("a/b/"), Some(("a//".to_string(), "/".to_string())));
}
