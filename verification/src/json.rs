//! JSON through serde_json: the stored header and body columns of a saved
//! request, and pretty-printing.

use vstd::prelude::*;
use std::collections::HashMap;
use crate::model::{ApiRequest, RequestView, TextPair, opt_text, pairs_view};

verus! {

/// What serde_json makes of `text`: the pretty-printed document when `text`
/// parses as JSON, else the pretty debug text of the parse error.
pub uninterp spec fn json_pretty_text(text: Seq<char>) -> Result<Seq<char>, Seq<char>>;

/// What serde_json reads from `text` as a JSON object whose values are all
/// strings: the map from keys to values, or nothing when `text` is not such an object.
pub uninterp spec fn json_string_object(text: Seq<char>) -> Option<Map<Seq<char>, Seq<char>>>;

/// Whether serde_json parses `text` as a JSON document.
pub uninterp spec fn json_valid(text: Seq<char>) -> bool;

/// What serde_json prints, compactly, for the JSON document `text`.
pub uninterp spec fn json_compact_text(text: Seq<char>) -> Seq<char>;

/// The keys of `s` are pairwise different.
pub open spec fn distinct_keys(s: Seq<TextPair>) -> bool {
    forall|i: int, j: int| 0 <= i < j < s.len() ==> s[i].0 != s[j].0
}

/// `s` lists the entries of `m`, each once, in some order.
pub open spec fn pairs_match_map(s: Seq<TextPair>, m: Map<Seq<char>, Seq<char>>) -> bool {
    &&& distinct_keys(s)
    &&& forall|i: int| 0 <= i < s.len() ==> m.contains_key(#[trigger] s[i].0) && m[s[i].0] == s[i].1
    &&& forall|k: Seq<char>| #[trigger] m.contains_key(k) ==> exists|i: int| 0 <= i < s.len() && s[i].0 == k
}

/// Parses `text` with `serde_json::from_str` as a `HashMap<String, String>` and
/// lists its entries in the map's own order. The contract ties the outcome to
/// `text` through `json_string_object`; the order of the pairs is left open.
#[verifier::external_body]
fn parse_header_object(text: &str) -> (r: Option<Vec<(String, String)>>)
    ensures
        r is Some <==> json_string_object(text@) is Some,
        r matches Some(v) ==> pairs_match_map(pairs_view(v@), json_string_object(text@).unwrap()),
{
    serde_json::from_str::<HashMap<String, String>>(text).ok().map(|m| m.into_iter().collect())
}

/// Tells whether `serde_json::from_str` parses `text` as a `serde_json::Value`.
#[verifier::external_body]
pub(crate) fn json_text_ok(text: &str) -> (r: bool)
    ensures
        r == json_valid(text@),
{
    serde_json::from_str::<serde_json::Value>(text).is_ok()
}

/// Writes the pairs, whose keys differ, as a JSON object with
/// `serde_json::to_string` of a `HashMap`. The contract states that the text
/// is JSON and that `json_string_object` reads it back to the pairs' entries;
/// the order of the entries in the text is left open.
#[verifier::external_body]
fn header_object_text(pairs: &Vec<(String, String)>) -> (r: String)
    requires
        distinct_keys(pairs_view(pairs@)),
    ensures
        json_valid(r@),
        json_string_object(r@) is Some,
        pairs_match_map(pairs_view(pairs@), json_string_object(r@).unwrap()),
{
    let m: HashMap<String, String> = pairs.iter().cloned().collect();
    serde_json::to_string(&m).unwrap_or_default()
}

/// Parses `text` with `serde_json::from_str` as a `serde_json::Value` and
/// prints it again with `serde_json::to_string`; nothing when `text` is not
/// JSON. The printed text is tied to `text` through `json_compact_text`, and
/// is itself JSON.
#[verifier::external_body]
fn compact_json(text: &str) -> (r: Option<String>)
    ensures
        r is Some <==> json_valid(text@),
        r matches Some(t) ==> t@ == json_compact_text(text@) && json_valid(t@),
{
    match serde_json::from_str::<serde_json::Value>(text) {
        Ok(v) => Some(serde_json::to_string(&v).unwrap_or_default()),
        Err(_) => None,
    }
}

/// Parses `text` with `serde_json::from_str` into a `serde_json::Value` and
/// prints that value with `serde_json::to_string_pretty`; on a parse error
/// gives the error's `{:#?}` text. The contract only ties the outcome to
/// `text` through `json_pretty_text`; what serde_json prints is not restated.
#[verifier::external_body]
pub(crate) fn pretty_json(text: &str) -> (r: Result<String, String>)
    ensures
        r is Ok <==> json_valid(text@),
        match r {
            Ok(p) => json_pretty_text(text@) == Ok::<Seq<char>, Seq<char>>(p@),
            Err(e) => json_pretty_text(text@) == Err::<Seq<char>, Seq<char>>(e@),
        },
{
    match serde_json::from_str::<serde_json::Value>(text) {
        Ok(v) => Ok(serde_json::to_string_pretty(&v).unwrap_or_default()),
        Err(e) => Err(format!("{:#?}", e)),
    }
}

/// Whether a stored request row can be read: its headers, when present, are a
/// JSON object of strings, and its body, when present, is JSON.
pub open spec fn row_readable(headers_json: Option<Seq<char>>, body_json: Option<Seq<char>>) -> bool {
    &&& headers_json matches Some(h) ==> json_string_object(h) is Some
    &&& body_json matches Some(b) ==> json_valid(b)
}

/// `q` is the request read from a stored row with these columns: the header
/// text read as a JSON object of strings (its entries in some order), the
/// body text kept as it is.
pub open spec fn reads_as(
    q: RequestView,
    request_id: i64,
    collection_id: i64,
    request_name: Seq<char>,
    method: Seq<char>,
    url: Seq<char>,
    headers_json: Option<Seq<char>>,
    body_json: Option<Seq<char>>,
) -> bool {
    &&& q.request_id == request_id
    &&& q.collection_id == collection_id
    &&& q.request_name == request_name
    &&& q.method == method
    &&& q.url == url
    &&& q.body == body_json
    &&& match headers_json {
        None => q.headers is None,
        Some(h) => q.headers matches Some(v) && pairs_match_map(v, json_string_object(h).unwrap()),
    }
}

/// The header and body columns `ht` and `bt` stored for `headers` and `body`:
/// header text that is JSON and reads back to the pairs' entries, and the
/// body printed compactly, itself JSON.
pub open spec fn columns_for(
    headers: Option<Seq<TextPair>>,
    body: Option<Seq<char>>,
    ht: Option<Seq<char>>,
    bt: Option<Seq<char>>,
) -> bool {
    &&& (ht is Some <==> headers is Some)
    &&& (ht matches Some(t) ==> json_valid(t) && json_string_object(t) is Some && pairs_match_map(
        headers.unwrap(),
        json_string_object(t).unwrap(),
    ))
    &&& (bt is Some <==> body is Some)
    &&& (bt matches Some(t) ==> json_valid(t) && t == json_compact_text(body.unwrap()))
}

/// The pair lists hold the same entries, each once.
pub open spec fn same_entries(a: Seq<TextPair>, b: Seq<TextPair>) -> bool {
    &&& distinct_keys(a)
    &&& distinct_keys(b)
    &&& forall|i: int| 0 <= i < a.len() ==> b.contains(#[trigger] a[i])
    &&& forall|j: int| 0 <= j < b.len() ==> a.contains(#[trigger] b[j])
}

/// Two pair lists that list the entries of one map hold the same entries.
proof fn lemma_match_same_map(a: Seq<TextPair>, b: Seq<TextPair>, m: Map<Seq<char>, Seq<char>>)
    requires
        pairs_match_map(a, m),
        pairs_match_map(b, m),
    ensures
        same_entries(a, b),
{
    assert forall|i: int| 0 <= i < a.len() implies b.contains(#[trigger] a[i]) by {
        assert(m.contains_key(a[i].0));
        let j = choose|j: int| 0 <= j < b.len() && b[j].0 == a[i].0;
        assert(m.contains_key(b[j].0));
        assert(a[i] == b[j]);
    }
    assert forall|j: int| 0 <= j < b.len() implies a.contains(#[trigger] b[j]) by {
        assert(m.contains_key(b[j].0));
        let i = choose|i: int| 0 <= i < a.len() && a[i].0 == b[j].0;
        assert(m.contains_key(a[i].0));
        assert(a[i] == b[j]);
    }
}

/// A request stored through `row_columns` reads back through
/// `request_from_row`: the row is readable, the headers come back as the
/// same entries, and the body as its compact text, which is JSON.
pub proof fn lemma_stored_request_reads_back(
    request_id: i64,
    collection_id: i64,
    request_name: Seq<char>,
    method: Seq<char>,
    url: Seq<char>,
    headers: Option<Seq<TextPair>>,
    body: Option<Seq<char>>,
    ht: Option<Seq<char>>,
    bt: Option<Seq<char>>,
    q: RequestView,
)
    requires
        columns_for(headers, body, ht, bt),
        reads_as(q, request_id, collection_id, request_name, method, url, ht, bt),
    ensures
        row_readable(ht, bt),
        q.request_id == request_id && q.collection_id == collection_id,
        q.request_name == request_name && q.method == method && q.url == url,
        q.headers is Some <==> headers is Some,
        q.headers matches Some(v) ==> same_entries(v, headers.unwrap()),
        q.body is Some <==> body is Some,
        q.body matches Some(t) ==> json_valid(t) && t == json_compact_text(body.unwrap()),
{
    if let Some(t) = ht {
        lemma_match_same_map(q.headers.unwrap(), headers.unwrap(), json_string_object(t).unwrap());
    }
}

/// A saved request from the columns of its stored row: the header column read
/// as a JSON object of strings, the body column kept as its JSON text;
/// nothing when either column does not parse.
pub fn request_from_row(
    request_id: i64,
    collection_id: i64,
    request_name: String,
    method: String,
    url: String,
    headers_json: Option<String>,
    body_json: Option<String>,
) -> (r: Option<ApiRequest>)
    ensures
        r is Some <==> row_readable(opt_text(headers_json), opt_text(body_json)),
        r matches Some(q) ==> reads_as(
            q@,
            request_id,
            collection_id,
            request_name@,
            method@,
            url@,
            opt_text(headers_json),
            opt_text(body_json),
        ),
{
    let headers = match &headers_json {
        Some(h) => match parse_header_object(h.as_str()) {
            Some(v) => Some(v),
            None => {
                return None;
            },
        },
        None => None,
    };
    match &body_json {
        Some(b) => {
            if !json_text_ok(b.as_str()) {
                return None;
            }
        },
        None => {},
    }
    Some(ApiRequest { request_id, collection_id, request_name, method, url, headers, body: body_json })
}

/// The header and body columns to store for a new request: the headers as a
/// JSON object that reads back to their entries, the body printed compactly;
/// nothing when the body is not JSON.
pub fn row_columns(headers: Option<&Vec<(String, String)>>, body: Option<&str>) -> (r: Option<
    (Option<String>, Option<String>),
>)
    requires
        headers matches Some(h) ==> distinct_keys(pairs_view(h@)),
    ensures
        r is Some <==> (body matches Some(b) ==> json_valid(b@)),
        r matches Some((ht, bt)) ==> columns_for(
            match headers {
                Some(h) => Some(pairs_view(h@)),
                None => None,
            },
            match body {
                Some(b) => Some(b@),
                None => None,
            },
            opt_text(ht),
            opt_text(bt),
        ),
{
    let bt = match body {
        Some(b) => match compact_json(b) {
            Some(t) => Some(t),
            None => {
                return None;
            },
        },
        None => None,
    };
    let ht = match headers {
        Some(h) => Some(header_object_text(h)),
        None => None,
    };
    Some((ht, bt))
}

} // verus!
