use api_client::json::{request_from_row, row_columns};

fn sorted(mut v: Vec<(String, String)>) -> Vec<(String, String)> {
    v.sort();
    v
}

fn pair(k: &str, v: &str) -> (String, String) {
    (k.to_string(), v.to_string())
}

#[test]
fn stored_row_becomes_request() {
    let r = request_from_row(
        7,
        3,
        "list".to_string(),
        "GET".to_string(),
        "https://h/a".to_string(),
        Some("{\"Accept\":\"text/plain\",\"X-Id\":\"9\"}".to_string()),
        Some("{\"a\":1}".to_string()),
    )
    .unwrap();
    assert_eq!(r.request_id, 7);
    assert_eq!(r.collection_id, 3);
    assert_eq!(r.request_name, "list");
    assert_eq!(r.method, "GET");
    assert_eq!(r.url, "https://h/a");
    assert_eq!(sorted(r.headers.unwrap()), vec![pair("Accept", "text/plain"), pair("X-Id", "9")]);
    assert_eq!(r.body.as_deref(), Some("{\"a\":1}"));
}

#[test]
fn stored_row_without_columns() {
    let r = request_from_row(1, 1, "n".to_string(), "POST".to_string(), "u".to_string(), None, None)
        .unwrap();
    assert!(r.headers.is_none());
    assert!(r.body.is_none());
}

#[test]
fn stored_headers_must_be_object_of_strings() {
    for bad in ["[1, 2]", "{\"a\": 1}", "not json", ""] {
        let r = request_from_row(
            1,
            1,
            "n".to_string(),
            "GET".to_string(),
            "u".to_string(),
            Some(bad.to_string()),
            None,
        );
        assert!(r.is_none(), "accepted {:?}", bad);
    }
}

#[test]
fn stored_body_must_be_json() {
    let r = request_from_row(
        1,
        1,
        "n".to_string(),
        "GET".to_string(),
        "u".to_string(),
        None,
        Some("{oops".to_string()),
    );
    assert!(r.is_none());
}

#[test]
fn columns_compact_body_and_read_back_headers() {
    let headers = vec![pair("Accept", "text/plain"), pair("X-Quote", "a\"b")];
    let (ht, bt) = row_columns(Some(&headers), Some("{ \"a\" : [1, 2] }")).unwrap();
    assert_eq!(bt.as_deref(), Some("{\"a\":[1,2]}"));
    let ht = ht.unwrap();
    let back = request_from_row(1, 1, "n".to_string(), "GET".to_string(), "u".to_string(), Some(ht), bt)
        .unwrap();
    assert_eq!(sorted(back.headers.unwrap()), sorted(headers));
}

#[test]
fn columns_left_empty_when_absent() {
    assert_eq!(row_columns(None, None), Some((None, None)));
}

#[test]
fn columns_refuse_non_json_body() {
    assert_eq!(row_columns(None, Some("nope")), None);
}
