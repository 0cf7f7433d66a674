//! Which editor rows become query parameters, and under which keys.

use vstd::prelude::*;
use crate::model::{KvRow, TextPair, pairs_view, rows_view};

verus! {

/// Index of the first pair of `acc` whose key is `k`.
pub open spec fn key_index(acc: Seq<TextPair>, k: Seq<char>) -> Option<nat>
    decreases acc.len(),
{
    if acc.len() == 0 {
        None
    } else {
        match key_index(acc.drop_last(), k) {
            Some(j) => Some(j),
            None => if acc.last().0 == k {
                Some((acc.len() - 1) as nat)
            } else {
                None
            },
        }
    }
}

/// `p` stored under its key: replacing the value of an existing entry, or appended.
pub open spec fn upsert(acc: Seq<TextPair>, p: TextPair) -> Seq<TextPair> {
    match key_index(acc, p.0) {
        Some(j) => acc.update(j as int, p),
        None => acc.push(p),
    }
}

/// The query parameters of the rows: every row with a non-empty key, a later
/// row replacing the value of an earlier one with the same key; keys keep the
/// order of their first row.
pub open spec fn query_pairs(rows: Seq<TextPair>) -> Seq<TextPair>
    decreases rows.len(),
{
    if rows.len() == 0 {
        Seq::empty()
    } else {
        let prev = query_pairs(rows.drop_last());
        let r = rows.last();
        if r.0.len() > 0 {
            upsert(prev, r)
        } else {
            prev
        }
    }
}

proof fn lemma_key_index_at(acc: Seq<TextPair>, k: Seq<char>, i: int)
    requires
        0 <= i < acc.len(),
        acc[i].0 == k,
        forall|j: int| 0 <= j < i ==> acc[j].0 != k,
    ensures
        key_index(acc, k) == Some(i as nat),
    decreases acc.len(),
{
    if i < acc.len() - 1 {
        lemma_key_index_at(acc.drop_last(), k, i);
    } else {
        lemma_key_index_none(acc.drop_last(), k);
    }
}

proof fn lemma_key_index_none(acc: Seq<TextPair>, k: Seq<char>)
    requires
        forall|j: int| 0 <= j < acc.len() ==> acc[j].0 != k,
    ensures
        key_index(acc, k) is None,
    decreases acc.len(),
{
    if acc.len() > 0 {
        lemma_key_index_none(acc.drop_last(), k);
    }
}

/// The value of the last row whose key is `k`.
pub open spec fn last_value(rows: Seq<TextPair>, k: Seq<char>) -> Option<Seq<char>>
    decreases rows.len(),
{
    if rows.len() == 0 {
        None
    } else if rows.last().0 == k {
        Some(rows.last().1)
    } else {
        last_value(rows.drop_last(), k)
    }
}

/// The value stored under key `k` in a list of pairs.
pub open spec fn lookup(pairs: Seq<TextPair>, k: Seq<char>) -> Option<Seq<char>> {
    match key_index(pairs, k) {
        Some(j) => Some(pairs[j as int].1),
        None => None,
    }
}

proof fn lemma_key_index_found(acc: Seq<TextPair>, k: Seq<char>)
    ensures
        key_index(acc, k) matches Some(j) ==> j < acc.len() && acc[j as int].0 == k,
        key_index(acc, k) is None ==> forall|j: int| 0 <= j < acc.len() ==> acc[j].0 != k,
    decreases acc.len(),
{
    if acc.len() > 0 {
        lemma_key_index_found(acc.drop_last(), k);
        assert forall|j: int| 0 <= j < acc.len() - 1 implies acc[j] == acc.drop_last()[j] by {}
    }
}

proof fn lemma_key_index_same_keys(a: Seq<TextPair>, b: Seq<TextPair>, k: Seq<char>)
    requires
        a.len() == b.len(),
        forall|i: int| 0 <= i < a.len() ==> a[i].0 == b[i].0,
    ensures
        key_index(a, k) == key_index(b, k),
    decreases a.len(),
{
    if a.len() > 0 {
        lemma_key_index_same_keys(a.drop_last(), b.drop_last(), k);
    }
}

proof fn lemma_upsert_lookup(acc: Seq<TextPair>, p: TextPair, k: Seq<char>)
    ensures
        lookup(upsert(acc, p), k) == if k == p.0 {
            Some(p.1)
        } else {
            lookup(acc, k)
        },
{
    lemma_key_index_found(acc, p.0);
    lemma_key_index_found(acc, k);
    match key_index(acc, p.0) {
        Some(j) => {
            let u = acc.update(j as int, p);
            lemma_key_index_same_keys(u, acc, k);
            if k != p.0 {
                if let Some(i) = key_index(acc, k) {
                    assert(i != j);
                }
            }
        },
        None => {
            let u = acc.push(p);
            assert(u.drop_last() =~= acc);
            lemma_key_index_found(u, k);
        },
    }
}

proof fn lemma_upsert_distinct(acc: Seq<TextPair>, p: TextPair)
    requires
        forall|i: int, j: int| 0 <= i < j < acc.len() ==> acc[i].0 != acc[j].0,
    ensures
        forall|i: int, j: int|
            0 <= i < j < upsert(acc, p).len() ==> upsert(acc, p)[i].0 != upsert(acc, p)[j].0,
        forall|i: int|
            0 <= i < upsert(acc, p).len() ==> upsert(acc, p)[i].0 == p.0 || exists|j: int|
                0 <= j < acc.len() && acc[j].0 == #[trigger] upsert(acc, p)[i].0,
{
    lemma_key_index_found(acc, p.0);
    let u = upsert(acc, p);
    assert forall|i: int| 0 <= i < u.len() implies u[i].0 == p.0 || exists|j: int|
        0 <= j < acc.len() && acc[j].0 == #[trigger] u[i].0 by {
        if u[i].0 != p.0 {
            assert(acc[i].0 == u[i].0);
        }
    }
}

/// The query map is a map: its keys are non-empty and pairwise different, and
/// the value under a key is the value of the last row with that key, so a
/// later row overrides an earlier one.
pub proof fn lemma_query_pairs_is_map(rows: Seq<TextPair>, k: Seq<char>)
    ensures
        forall|i: int, j: int|
            0 <= i < j < query_pairs(rows).len() ==> query_pairs(rows)[i].0 != query_pairs(
                rows,
            )[j].0,
        forall|i: int| 0 <= i < query_pairs(rows).len() ==> query_pairs(rows)[i].0.len() > 0,
        lookup(query_pairs(rows), k) == if k.len() > 0 {
            last_value(rows, k)
        } else {
            None
        },
    decreases rows.len(),
{
    if rows.len() == 0 {
        lemma_key_index_found(query_pairs(rows), k);
    } else {
        let prev = query_pairs(rows.drop_last());
        lemma_query_pairs_is_map(rows.drop_last(), k);
        let r = rows.last();
        if r.0.len() > 0 {
            lemma_upsert_distinct(prev, r);
            lemma_upsert_lookup(prev, r, k);
            let u = upsert(prev, r);
            assert forall|i: int| 0 <= i < u.len() implies u[i].0.len() > 0 by {
                if u[i].0 != r.0 {
                    let j = choose|j: int| 0 <= j < prev.len() && prev[j].0 == u[i].0;
                }
            }
        }
    }
}

/// Every pair of the query map comes from one of the rows.
pub proof fn lemma_query_pairs_from_rows(rows: Seq<TextPair>)
    ensures
        forall|j: int|
            0 <= j < query_pairs(rows).len() ==> exists|i: int|
                0 <= i < rows.len() && rows[i] == #[trigger] query_pairs(rows)[j],
    decreases rows.len(),
{
    if rows.len() > 0 {
        let prev = query_pairs(rows.drop_last());
        lemma_query_pairs_from_rows(rows.drop_last());
        let r = rows.last();
        let cur = query_pairs(rows);
        assert forall|j: int| 0 <= j < cur.len() implies exists|i: int|
            0 <= i < rows.len() && rows[i] == #[trigger] cur[j] by {
            lemma_key_index_found(prev, r.0);
            if cur[j] == r {
                assert(rows[rows.len() - 1] == r);
            } else {
                if r.0.len() > 0 {
                    match key_index(prev, r.0) {
                        Some(t) => {
                            assert(cur == prev.update(t as int, r));
                        },
                        None => {
                            assert(cur == prev.push(r));
                        },
                    }
                }
                assert(j < prev.len() && cur[j] == prev[j]);
                let i = choose|i: int| 0 <= i < rows.drop_last().len() && rows.drop_last()[i] == prev[j];
                assert(rows[i] == prev[j]);
            }
        }
    }
}

fn clone_pair(k: &String, v: &String) -> (r: (String, String))
    ensures
        r.0@ == k@,
        r.1@ == v@,
{
    (k.clone(), v.clone())
}

/// The query parameters of `rows`, as `query_pairs` describes them.
pub fn query_map_of(rows: &Vec<KvRow>) -> (r: Vec<(String, String)>)
    ensures
        pairs_view(r@) == query_pairs(rows_view(rows@)),
{
    let ghost rv = rows_view(rows@);
    let mut acc: Vec<(String, String)> = Vec::new();
    let n = rows.len();
    assert(rv.take(0) =~= Seq::<TextPair>::empty());
    for i in 0..n
        invariant
            n == rows@.len(),
            rv == rows_view(rows@),
            pairs_view(acc@) == query_pairs(rv.take(i as int)),
    {
        let row = &rows[i];
        assert(rv.take(i + 1).drop_last() =~= rv.take(i as int));
        assert(rv.take(i + 1).last() == row@);
        if !row.key.as_str().is_empty() {
            let ghost pv = pairs_view(acc@);
            let mut j: usize = 0;
            let m = acc.len();
            let mut found = false;
            while j < m
                invariant_except_break
                    !found,
                invariant
                    m == acc@.len(),
                    pv == pairs_view(acc@),
                    j <= m,
                    forall|t: int| 0 <= t < j ==> pv[t].0 != row.key@,
                ensures
                    found ==> j < m && pv[j as int].0 == row.key@,
                    !found ==> j == m,
                decreases m - j,
            {
                if acc[j].0 == row.key {
                    found = true;
                    break;
                }
                j = j + 1;
            }
            if found {
                proof {
                    lemma_key_index_at(pv, row.key@, j as int);
                }
                let p = clone_pair(&row.key, &row.value);
                acc.set(j, p);
                assert(pairs_view(acc@) =~= pv.update(j as int, row@));
            } else {
                proof {
                    lemma_key_index_none(pv, row.key@);
                }
                let p = clone_pair(&row.key, &row.value);
                acc.push(p);
                assert(pairs_view(acc@) =~= pv.push(row@));
            }
        }
    }
    assert(rv.take(n as int) =~= rv);
    acc
}

} // verus!
