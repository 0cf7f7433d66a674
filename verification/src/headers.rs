//! Request headers: which editor rows the HTTP library accepts, and the
//! `HeaderMap` they fill.

use vstd::prelude::*;
use vstd::utf8::encode_utf8;
use reqwest::header::{HeaderMap, HeaderName, HeaderValue};
use crate::model::{KvRow, TextPair, rows_view};

verus! {

#[verifier::external_type_specification]
#[verifier::external_body]
#[verifier::reject_recursive_types(T)]
pub struct ExHeaderMap<T>(reqwest::header::HeaderMap<T>);

#[verifier::external_type_specification]
#[verifier::external_body]
pub struct ExHeaderName(reqwest::header::HeaderName);

#[verifier::external_type_specification]
#[verifier::external_body]
pub struct ExHeaderValue(reqwest::header::HeaderValue);

/// What a header map holds: each of its names, as text, with the bytes of
/// the first value stored under it (the value `HeaderMap::get` gives).
pub uninterp spec fn header_entries(m: HeaderMap<HeaderValue>) -> Map<Seq<char>, Seq<u8>>;

/// The text of a header name (what `HeaderName::as_str` gives).
pub uninterp spec fn header_name_text(n: HeaderName) -> Seq<char>;

/// The bytes of a header value (what `HeaderValue::as_bytes` gives).
pub uninterp spec fn header_value_bytes(v: HeaderValue) -> Seq<u8>;

/// Fewer names than this can always be inserted into a header map: the map
/// refuses to grow its table past 32768 slots, which it may ask for once it
/// holds a fifth of that many names.
pub const HEADER_MAP_ROOM: usize = 6554;

/// A `tchar` of RFC 9110: the characters an HTTP header name may hold.
pub open spec fn is_token_char(c: char) -> bool {
    ||| ('a' <= c && c <= 'z')
    ||| ('A' <= c && c <= 'Z')
    ||| ('0' <= c && c <= '9')
    ||| c == '!' || c == '#' || c == '$' || c == '%' || c == '&' || c == '\''
    ||| c == '*' || c == '+' || c == '-' || c == '.' || c == '^' || c == '_'
    ||| c == '`' || c == '|' || c == '~'
}

/// A header name the HTTP library accepts: 1 to 65535 token characters.
pub open spec fn header_name_valid(s: Seq<char>) -> bool {
    &&& 1 <= s.len() <= 65535
    &&& forall|i: int| 0 <= i < s.len() ==> is_token_char(#[trigger] s[i])
}

/// A character a header value may hold: tab, or anything from space up except DEL.
pub open spec fn is_header_value_char(c: char) -> bool {
    c == '\t' || (' ' <= c && c != '\x7f')
}

/// A header value the HTTP library accepts.
pub open spec fn header_value_valid(s: Seq<char>) -> bool {
    forall|i: int| 0 <= i < s.len() ==> is_header_value_char(#[trigger] s[i])
}

/// `c` in ASCII lower case.
pub open spec fn lower_char(c: char) -> char {
    if 'A' <= c && c <= 'Z' {
        ((c as u32) + 32) as char
    } else {
        c
    }
}

/// `s` in ASCII lower case.
pub open spec fn ascii_lower(s: Seq<char>) -> Seq<char> {
    s.map_values(|c: char| lower_char(c))
}

/// The entries of a map without headers.
pub open spec fn no_headers() -> Map<Seq<char>, Seq<u8>> {
    Map::empty()
}

/// Makes an empty map with `HeaderMap::new`.
#[verifier::external_body]
fn new_header_map() -> (r: HeaderMap<HeaderValue>)
    ensures
        header_entries(r) == no_headers(),
{
    HeaderMap::new()
}

/// Calls `HeaderName::from_bytes` on the UTF-8 bytes of `key`. The source
/// accepts exactly the byte strings of length 1 to 65535 whose bytes all map
/// to a non-zero entry of its table of token characters (no byte of a
/// non-ASCII character does), and the name it makes is the input with ASCII
/// upper case folded to lower case.
#[verifier::external_body]
fn parse_header_name(key: &str) -> (r: Option<HeaderName>)
    ensures
        r is Some <==> header_name_valid(key@),
        r matches Some(n) ==> header_name_text(n) == ascii_lower(key@),
{
    HeaderName::from_bytes(key.as_bytes()).ok()
}

/// Calls `HeaderValue::from_str` on `value`. The source accepts exactly the
/// strings whose bytes are all a tab or at least 32 and not 127 (every byte
/// of a non-ASCII character is at least 128), and keeps those bytes.
#[verifier::external_body]
fn parse_header_value(value: &str) -> (r: Option<HeaderValue>)
    ensures
        r is Some <==> header_value_valid(value@),
        r matches Some(v) ==> header_value_bytes(v) == encode_utf8(value@),
{
    HeaderValue::from_str(value).ok()
}

/// Calls `HeaderMap::insert`: the name now holds exactly the given value,
/// every previous value under it removed; other names are untouched. The
/// source panics only when its table cannot grow, which needs at least
/// `HEADER_MAP_ROOM` names already in the map.
#[verifier::external_body]
fn insert_header(m: &mut HeaderMap<HeaderValue>, name: HeaderName, value: HeaderValue)
    requires
        header_entries(*old(m)).dom().finite(),
        header_entries(*old(m)).len() < HEADER_MAP_ROOM,
    ensures
        header_entries(*final(m)) == header_entries(*old(m)).insert(
            header_name_text(name),
            header_value_bytes(value),
        ),
{
    m.insert(name, value);
}

/// A row the HTTP library accepts as a header: a non-empty, valid name and a
/// valid value.
pub open spec fn header_row_accepted(r: TextPair) -> bool {
    r.0.len() > 0 && header_name_valid(r.0) && header_value_valid(r.1)
}

/// The header map of the rows, filled in order: each accepted row stored
/// under its case-folded name, replacing what an earlier row stored there.
pub open spec fn header_map_spec(rows: Seq<TextPair>) -> Map<Seq<char>, Seq<u8>>
    decreases rows.len(),
{
    if rows.len() == 0 {
        Map::empty()
    } else {
        let prev = header_map_spec(rows.drop_last());
        let r = rows.last();
        if header_row_accepted(r) {
            prev.insert(ascii_lower(r.0), encode_utf8(r.1))
        } else {
            prev
        }
    }
}

/// The headers of the rows form a finite map with at most one entry per row;
/// a name is in it exactly when an accepted row has it, case-folded, and its
/// value is that of the last such row, so a later row replaces an earlier one.
pub proof fn lemma_header_map_last_wins(rows: Seq<TextPair>, k: Seq<char>)
    ensures
        header_map_spec(rows).dom().finite(),
        header_map_spec(rows).len() <= rows.len(),
        header_map_spec(rows).contains_key(k) ==> exists|i: int|
            0 <= i < rows.len() && header_row_accepted(#[trigger] rows[i]) && ascii_lower(rows[i].0)
                == k && header_map_spec(rows)[k] == encode_utf8(rows[i].1) && forall|j: int|
                i < j < rows.len() && header_row_accepted(#[trigger] rows[j]) ==> ascii_lower(
                    rows[j].0,
                ) != k,
        !header_map_spec(rows).contains_key(k) ==> forall|i: int|
            0 <= i < rows.len() && header_row_accepted(#[trigger] rows[i]) ==> ascii_lower(
                rows[i].0,
            ) != k,
    decreases rows.len(),
{
    if rows.len() > 0 {
        let pr = rows.drop_last();
        let prev = header_map_spec(pr);
        let n = rows.len() - 1;
        lemma_header_map_last_wins(pr, k);
        assert forall|i: int| 0 <= i < n implies rows[i] == pr[i] by {}
        assert(rows[n] == rows.last());
        let m = header_map_spec(rows);
        if header_row_accepted(rows.last()) {
            let kr = ascii_lower(rows.last().0);
            if kr == k {
                assert(m.contains_key(k));
                assert(header_row_accepted(rows[n]) && ascii_lower(rows[n].0) == k && m[k]
                    == encode_utf8(rows[n].1));
            } else if prev.contains_key(k) {
                let i = choose|i: int|
                    0 <= i < pr.len() && header_row_accepted(#[trigger] pr[i]) && ascii_lower(pr[i].0)
                        == k && prev[k] == encode_utf8(pr[i].1) && forall|j: int|
                        i < j < pr.len() && header_row_accepted(#[trigger] pr[j]) ==> ascii_lower(
                            pr[j].0,
                        ) != k;
                assert(header_row_accepted(rows[i]) && ascii_lower(rows[i].0) == k && m[k]
                    == encode_utf8(rows[i].1));
                assert forall|j: int|
                    i < j < rows.len() && header_row_accepted(#[trigger] rows[j]) implies ascii_lower(
                        rows[j].0,
                    ) != k by {
                    if j < n {
                        assert(header_row_accepted(pr[j]));
                    }
                }
            } else {
                assert forall|i: int|
                    0 <= i < rows.len() && header_row_accepted(#[trigger] rows[i]) implies ascii_lower(
                        rows[i].0,
                    ) != k by {
                    if i < n {
                        assert(header_row_accepted(pr[i]));
                    }
                }
            }
        } else {
            if prev.contains_key(k) {
                let i = choose|i: int|
                    0 <= i < pr.len() && header_row_accepted(#[trigger] pr[i]) && ascii_lower(pr[i].0)
                        == k && prev[k] == encode_utf8(pr[i].1) && forall|j: int|
                        i < j < pr.len() && header_row_accepted(#[trigger] pr[j]) ==> ascii_lower(
                            pr[j].0,
                        ) != k;
                assert(header_row_accepted(rows[i]) && ascii_lower(rows[i].0) == k && m[k]
                    == encode_utf8(rows[i].1));
                assert forall|j: int|
                    i < j < rows.len() && header_row_accepted(#[trigger] rows[j]) implies ascii_lower(
                        rows[j].0,
                    ) != k by {
                    if j < n {
                        assert(header_row_accepted(pr[j]));
                    }
                }
            } else {
                assert forall|i: int|
                    0 <= i < rows.len() && header_row_accepted(#[trigger] rows[i]) implies ascii_lower(
                        rows[i].0,
                    ) != k by {
                    if i < n {
                        assert(header_row_accepted(pr[i]));
                    }
                }
            }
        }
    }
}

/// The header map of `rows`, as `header_map_spec` describes it.
pub fn header_map_of(rows: &Vec<KvRow>) -> (r: HeaderMap<HeaderValue>)
    requires
        rows@.len() <= HEADER_MAP_ROOM,
    ensures
        header_entries(r) == header_map_spec(rows_view(rows@)),
{
    let ghost rv = rows_view(rows@);
    let mut m = new_header_map();
    let n = rows.len();
    assert(rv.take(0) =~= Seq::<TextPair>::empty());
    for i in 0..n
        invariant
            n == rows@.len(),
            n <= HEADER_MAP_ROOM,
            rv == rows_view(rows@),
            header_entries(m) == header_map_spec(rv.take(i as int)),
    {
        let row = &rows[i];
        proof {
            lemma_header_map_last_wins(rv.take(i as int), Seq::empty());
        }
        assert(rv.take(i + 1).drop_last() =~= rv.take(i as int));
        assert(rv.take(i + 1).last() == row@);
        if !row.key.as_str().is_empty() {
            let name = parse_header_name(row.key.as_str());
            let value = parse_header_value(row.value.as_str());
            match (name, value) {
                (Some(name), Some(value)) => {
                    insert_header(&mut m, name, value);
                },
                _ => {},
            }
        }
    }
    assert(rv.take(n as int) =~= rv);
    m
}

} // verus!
