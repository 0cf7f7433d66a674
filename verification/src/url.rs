//! Splitting a URL into base and endpoint, and assembling a request URL
//! with its query string.

use vstd::prelude::*;
use crate::text::{char_from, find_char, lemma_find_char_at, lemma_find_char_none, lemma_find_char_props, push_char};
use crate::model::pairs_view;

verus! {

/// Index of the first `/` in `s`, if there is one.
pub open spec fn find_slash(s: Seq<char>) -> Option<nat> {
    find_char(s, '/')
}

/// `s` cut at its first three slashes, as base `p0//p2` and endpoint `/p3`
/// (`/` when there is no third slash); `None` when `s` has fewer than two slashes.
pub open spec fn split_url(s: Seq<char>) -> Option<(Seq<char>, Seq<char>)> {
    match find_slash(s) {
        None => None,
        Some(a) => {
            let r1 = s.skip(a as int + 1);
            match find_slash(r1) {
                None => None,
                Some(b) => {
                    let r2 = r1.skip(b as int + 1);
                    match find_slash(r2) {
                        None => Some((s.take(a as int) + seq!['/', '/'] + r2, seq!['/'])),
                        Some(c) => Some(
                            (
                                s.take(a as int) + seq!['/', '/'] + r2.take(c as int),
                                seq!['/'] + r2.skip(c as int + 1),
                            ),
                        ),
                    }
                },
            }
        },
    }
}

/// `key=value`.
pub open spec fn pair_text(p: (Seq<char>, Seq<char>)) -> Seq<char> {
    p.0 + seq!['='] + p.1
}

/// The pairs written as `k1=v1&k2=v2...`, in list order.
pub open spec fn query_text(q: Seq<(Seq<char>, Seq<char>)>) -> Seq<char>
    decreases q.len(),
{
    if q.len() == 0 {
        Seq::empty()
    } else if q.len() == 1 {
        pair_text(q[0])
    } else {
        query_text(q.drop_last()) + seq!['&'] + pair_text(q.last())
    }
}

/// Base, endpoint and, when a query is given, `?` and the query text.
pub open spec fn built_url(
    base: Seq<char>,
    endpoint: Seq<char>,
    query: Option<Seq<(Seq<char>, Seq<char>)>>,
) -> Seq<char> {
    match query {
        None => base + endpoint,
        Some(q) => base + endpoint + seq!['?'] + query_text(q),
    }
}

/// The query text lists the pairs as `key=value`, one after the other with a
/// single `&` between neighbours: one pair is just that pair, and adding a pair
/// to a non-empty query appends `&` and the new pair; so does the built URL.
pub proof fn lemma_query_text_joins(
    q: Seq<(Seq<char>, Seq<char>)>,
    p: (Seq<char>, Seq<char>),
    base: Seq<char>,
    endpoint: Seq<char>,
)
    ensures
        query_text(Seq::empty()) == Seq::<char>::empty(),
        query_text(seq![p]) == p.0 + seq!['='] + p.1,
        q.len() > 0 ==> query_text(q.push(p)) == query_text(q) + seq!['&'] + p.0 + seq!['='] + p.1,
        q.len() > 0 ==> built_url(base, endpoint, Some(q.push(p))) == built_url(
            base,
            endpoint,
            Some(q),
        ) + seq!['&'] + p.0 + seq!['='] + p.1,
        built_url(base, endpoint, Some(seq![p])) == base + endpoint + seq!['?'] + p.0 + seq!['=']
            + p.1,
        built_url(base, endpoint, None) == base + endpoint,
{
    assert(q.push(p).drop_last() =~= q);
    assert(seq![p].len() == 1 && seq![p][0] == p);
    assert(built_url(base, endpoint, Some(q.push(p))) =~= base + endpoint + seq!['?'] + query_text(
        q.push(p),
    ));
    assert(query_text(seq![p]) =~= p.0 + seq!['='] + p.1);
    if q.len() > 0 {
        assert(query_text(q.push(p)) =~= query_text(q) + seq!['&'] + p.0 + seq!['='] + p.1);
        assert(built_url(base, endpoint, Some(q.push(p))) =~= built_url(base, endpoint, Some(q))
            + seq!['&'] + p.0 + seq!['='] + p.1);
    }
    assert(built_url(base, endpoint, Some(seq![p])) =~= base + endpoint + seq!['?'] + p.0 + seq![
        '=',
    ] + p.1);
}

proof fn lemma_find_slash_at(t: Seq<char>, k: int)
    requires
        0 <= k < t.len(),
        t[k] == '/',
        forall|j: int| 0 <= j < k ==> t[j] != '/',
    ensures
        find_slash(t) == Some(k as nat),
{
    lemma_find_char_at(t, '/', k);
}

proof fn lemma_find_slash_none(t: Seq<char>)
    requires
        forall|j: int| 0 <= j < t.len() ==> t[j] != '/',
    ensures
        find_slash(t) is None,
{
    lemma_find_char_none(t, '/');
}

/// Splits `url` at its first three slashes into a base `scheme//host` and an
/// endpoint `/path`; `None` when the URL holds fewer than two slashes.
pub fn url_splitter(url: &str) -> (r: Option<(String, String)>)
    ensures
        match r {
            Some((base, endpoint)) => split_url(url@) == Some((base@, endpoint@)),
            None => split_url(url@) is None,
        },
{
    let n = url.unicode_len();
    let a = match char_from(url, '/', 0) {
        Some(a) => a,
        None => {
            assert(url@.skip(0) =~= url@);
            return None;
        },
    };
    assert(url@.skip(0) =~= url@);
    let b = match char_from(url, '/', a + 1) {
        Some(b) => b,
        None => {
            return None;
        },
    };
    let ghost r1 = url@.skip(a + 1);
    assert(url@.skip(b + 1) =~= r1.skip((b - (a + 1)) + 1));
    let mut base = String::from_str(url.substring_char(0, a));
    push_char(&mut base, '/');
    push_char(&mut base, '/');
    match char_from(url, '/', b + 1) {
        None => {
            base.append(url.substring_char(b + 1, n));
            let mut endpoint = String::new();
            push_char(&mut endpoint, '/');
            assert(url@.subrange(0, a as int) =~= url@.take(a as int));
            assert(url@.subrange(b + 1, n as int) =~= url@.skip(b + 1));
            assert(endpoint@ =~= seq!['/']);
            assert(base@ =~= url@.take(a as int) + seq!['/', '/'] + url@.skip(b + 1));
            Some((base, endpoint))
        },
        Some(c) => {
            let ghost r2 = url@.skip(b + 1);
            base.append(url.substring_char(b + 1, c));
            let mut endpoint = String::new();
            push_char(&mut endpoint, '/');
            endpoint.append(url.substring_char(c + 1, n));
            assert(url@.subrange(0, a as int) =~= url@.take(a as int));
            assert(url@.subrange(b + 1, c as int) =~= r2.take(c - (b + 1)));
            assert(url@.subrange(c + 1, n as int) =~= r2.skip((c - (b + 1)) + 1));
            assert(endpoint@ =~= seq!['/'] + r2.skip((c - (b + 1)) + 1));
            assert(base@ =~= url@.take(a as int) + seq!['/', '/'] + r2.take(c - (b + 1)));
            Some((base, endpoint))
        },
    }
}

/// `baseurl` followed by `endpoint`, then, when a query is given, `?` and its
/// pairs as `key=value` joined by `&` in list order.
pub fn url_builder(baseurl: &str, endpoint: &str, query: Option<&Vec<(String, String)>>) -> (r:
    String)
    ensures
        r@ == built_url(
            baseurl@,
            endpoint@,
            match query {
                Some(q) => Some(pairs_view(q@)),
                None => None,
            },
        ),
{
    let mut url = String::from_str(baseurl);
    url.append(endpoint);
    match query {
        None => url,
        Some(q) => {
            push_char(&mut url, '?');
            let ghost head = baseurl@ + endpoint@ + seq!['?'];
            let ghost pv = pairs_view(q@);
            assert(url@ =~= head + query_text(pv.take(0)));
            let n = q.len();
            for i in 0..n
                invariant
                    n == q@.len(),
                    pv == pairs_view(q@),
                    url@ == head + query_text(pv.take(i as int)),
            {
                if i > 0 {
                    push_char(&mut url, '&');
                }
                url.append(q[i].0.as_str());
                push_char(&mut url, '=');
                url.append(q[i].1.as_str());
                assert(pv.take(i + 1).drop_last() =~= pv.take(i as int));
                assert(pv.take(i + 1).last() == (q@[i as int].0@, q@[i as int].1@));
                if i == 0 {
                    assert(url@ =~= head + query_text(pv.take(i + 1)));
                } else {
                    assert(url@ =~= head + query_text(pv.take(i + 1)));
                }
            }
            assert(pv.take(n as int) =~= pv);
            url
        },
    }
}

/// A URL `scheme://host/path` (scheme and host free of slashes) splits into
/// base `scheme://host` and endpoint `/path`, and joining the two with no
/// query gives the URL back.
pub proof fn lemma_split_then_build(scheme: Seq<char>, host: Seq<char>, path: Seq<char>)
    requires
        forall|j: int| 0 <= j < scheme.len() ==> scheme[j] != '/',
        forall|j: int| 0 <= j < host.len() ==> host[j] != '/',
    ensures
        ({
            let url = scheme + seq!['/', '/'] + host + seq!['/'] + path;
            &&& split_url(url) == Some((scheme + seq!['/', '/'] + host, seq!['/'] + path))
            &&& built_url(scheme + seq!['/', '/'] + host, seq!['/'] + path, None) == url
        }),
{
    let url = scheme + seq!['/', '/'] + host + seq!['/'] + path;
    let a = scheme.len();
    lemma_find_slash_at(url, a as int);
    let r1 = url.skip(a as int + 1);
    assert(r1[0] == '/');
    lemma_find_slash_at(r1, 0);
    let r2 = r1.skip(1);
    assert(r2 =~= host + seq!['/'] + path);
    lemma_find_slash_at(r2, host.len() as int);
    assert(url.take(a as int) =~= scheme);
    assert(r2.take(host.len() as int) =~= host);
    assert(r2.skip(host.len() as int + 1) =~= path);
    assert(url =~= scheme + seq!['/', '/'] + host + (seq!['/'] + path));
}

/// A URL `scheme://host` with no path splits into itself and the endpoint `/`.
pub proof fn lemma_split_host_only(scheme: Seq<char>, host: Seq<char>)
    requires
        forall|j: int| 0 <= j < scheme.len() ==> scheme[j] != '/',
        forall|j: int| 0 <= j < host.len() ==> host[j] != '/',
    ensures
        split_url(scheme + seq!['/', '/'] + host) == Some(
            (scheme + seq!['/', '/'] + host, seq!['/']),
        ),
{
    let url = scheme + seq!['/', '/'] + host;
    let a = scheme.len();
    lemma_find_slash_at(url, a as int);
    let r1 = url.skip(a as int + 1);
    assert(r1[0] == '/');
    lemma_find_slash_at(r1, 0);
    let r2 = r1.skip(1);
    assert(r2 =~= host);
    lemma_find_slash_none(r2);
    assert(url.take(a as int) =~= scheme);
}

/// A URL with fewer than two slashes cannot be split.
pub proof fn lemma_split_needs_two_slashes(url: Seq<char>, k: int)
    requires
        0 <= k <= url.len(),
        forall|j: int| 0 <= j < url.len() && j != k ==> url[j] != '/',
    ensures
        split_url(url) is None,
{
    if k < url.len() && url[k] == '/' {
        lemma_find_slash_at(url, k);
        let r1 = url.skip(k + 1);
        assert forall|j: int| 0 <= j < r1.len() implies r1[j] != '/' by {
            assert(r1[j] == url[k + 1 + j]);
        }
        lemma_find_slash_none(r1);
    } else {
        lemma_find_slash_none(url);
    }
}

proof fn lemma_find_slash_props(t: Seq<char>)
    ensures
        find_slash(t) matches Some(k) ==> k < t.len() && t[k as int] == '/' && forall|j: int|
            0 <= j < k ==> t[j] != '/',
        find_slash(t) is None ==> forall|j: int| 0 <= j < t.len() ==> t[j] != '/',
{
    lemma_find_char_props(t, '/');
}

/// A URL can be split exactly when it holds at least two slashes.
pub proof fn lemma_split_iff_two_slashes(url: Seq<char>)
    ensures
        split_url(url) is Some <==> exists|i: int, j: int|
            0 <= i < j < url.len() && url[i] == '/' && url[j] == '/',
{
    lemma_find_slash_props(url);
    if let Some(a) = find_slash(url) {
        let r1 = url.skip(a as int + 1);
        lemma_find_slash_props(r1);
        if let Some(b) = find_slash(r1) {
            assert(url[a as int + 1 + b as int] == r1[b as int]);
            assert(0 <= a < a + 1 + b < url.len() && url[a as int] == '/' && url[a + 1 + b as int] == '/');
        } else {
            assert forall|i: int, j: int|
                0 <= i < j < url.len() && url[i] == '/' implies url[j] != '/' by {
                if url[i] == '/' && a < j {
                    assert(r1[j - a - 1] == url[j]);
                }
            }
        }
    }
}

} // verus!
