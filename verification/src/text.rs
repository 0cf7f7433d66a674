//! Small verified string utilities shared by the rest of the library.

use vstd::prelude::*;
use vstd::utf8::*;
use vstd::string::*;

verus! {

/// `String::push`: appends one character.
#[verifier::external_body]
pub(crate) fn push_char(s: &mut String, c: char)
    ensures
        final(s)@ == old(s)@.push(c),
{
    s.push(c);
}

/// `String::pop`: removes and returns the last character, if there is one.
#[verifier::external_body]
pub(crate) fn pop_char(s: &mut String) -> (r: Option<char>)
    ensures
        old(s)@.len() == 0 ==> r is None && final(s)@ == old(s)@,
        old(s)@.len() > 0 ==> r == Some(old(s)@.last()) && final(s)@ == old(s)@.drop_last(),
{
    s.pop()
}

/// Index of the first `c` in `s`, if there is one.
pub open spec fn find_char(s: Seq<char>, c: char) -> Option<nat>
    decreases s.len(),
{
    if s.len() == 0 {
        None
    } else if s[0] == c {
        Some(0)
    } else {
        match find_char(s.drop_first(), c) {
            Some(k) => Some(k + 1),
            None => None,
        }
    }
}

/// The first `c` of `t` is at `k` when `k` holds one and nothing before it does.
pub proof fn lemma_find_char_at(t: Seq<char>, c: char, k: int)
    requires
        0 <= k < t.len(),
        t[k] == c,
        forall|j: int| 0 <= j < k ==> t[j] != c,
    ensures
        find_char(t, c) == Some(k as nat),
    decreases t.len(),
{
    if k > 0 {
        lemma_find_char_at(t.drop_first(), c, k - 1);
    }
}

/// A text without `c` has no first `c`.
pub proof fn lemma_find_char_none(t: Seq<char>, c: char)
    requires
        forall|j: int| 0 <= j < t.len() ==> t[j] != c,
    ensures
        find_char(t, c) is None,
    decreases t.len(),
{
    if t.len() > 0 {
        lemma_find_char_none(t.drop_first(), c);
    }
}

/// What `find_char` reports is a position of `c`, and no earlier one is.
pub proof fn lemma_find_char_props(t: Seq<char>, c: char)
    ensures
        find_char(t, c) matches Some(k) ==> k < t.len() && t[k as int] == c && forall|j: int|
            0 <= j < k ==> t[j] != c,
        find_char(t, c) is None ==> forall|j: int| 0 <= j < t.len() ==> t[j] != c,
    decreases t.len(),
{
    if t.len() > 0 {
        lemma_find_char_props(t.drop_first(), c);
        if t[0] != c {
            assert forall|j: int| 0 < j < t.len() implies t[j] == t.drop_first()[j - 1] by {}
        }
    }
}

/// First `c` of `s` at or after `start`, as an index into `s`.
pub fn char_from(s: &str, c: char, start: usize) -> (r: Option<usize>)
    requires
        start <= s@.len(),
    ensures
        match r {
            Some(k) => start <= k < s@.len() && find_char(s@.skip(start as int), c) == Some(
                (k - start) as nat,
            ),
            None => find_char(s@.skip(start as int), c) is None,
        },
{
    let n = s.unicode_len();
    let mut i = start;
    while i < n
        invariant
            n == s@.len(),
            start <= i <= n,
            forall|j: int| start <= j < i ==> s@[j] != c,
        decreases n - i,
    {
        if s.get_char(i) == c {
            proof {
                let t = s@.skip(start as int);
                assert forall|j: int| 0 <= j < i - start implies t[j] != c by {
                    assert(t[j] == s@[start + j]);
                }
                lemma_find_char_at(t, c, i - start);
            }
            return Some(i);
        }
        i = i + 1;
    }
    proof {
        let t = s@.skip(start as int);
        assert forall|j: int| 0 <= j < t.len() implies t[j] != c by {
            assert(t[j] == s@[start + j]);
        }
        lemma_find_char_none(t, c);
    }
    None
}

/// Character-wise equality of two string slices.
pub fn same_text(a: &str, b: &str) -> (r: bool)
    ensures
        r == (a@ == b@),
{
    let n = a.unicode_len();
    let m = b.unicode_len();
    if n != m {
        return false;
    }
    let mut i: usize = 0;
    while i < n
        invariant
            n == a@.len(),
            m == b@.len(),
            n == m,
            i <= n,
            forall|j: int| 0 <= j < i ==> a@[j] == b@[j],
        decreases n - i,
    {
        if a.get_char(i) != b.get_char(i) {
            return false;
        }
        i = i + 1;
    }
    assert(a@ =~= b@);
    true
}

/// The first `max` bytes of `s`, or all of `s` when it is no longer than that.
/// The cut must fall on a character boundary.
pub fn truncate(s: &str, max: usize) -> (r: &str)
    requires
        s.spec_bytes().len() <= usize::MAX,
        s.spec_bytes().len() <= max || is_char_boundary(s.spec_bytes(), max as int),
    ensures
        s.spec_bytes().len() <= max ==> r@ == s@,
        s.spec_bytes().len() > max ==> r.spec_bytes() == s.spec_bytes().take(max as int),
        s@.len() >= r@.len() && r@ == s@.take(r@.len() as int),
{
    if s.len() <= max {
        s
    } else {
        let (head, tail) = s.split_at(max);
        proof {
            let bytes = s.spec_bytes();
            encode_utf8_valid_utf8(s@);
            decode_utf8_split(bytes, max as int);
            encode_utf8_decode_utf8(s@);
            encode_utf8_decode_utf8(head@);
            encode_utf8_decode_utf8(tail@);
            assert(bytes.take(max as int) =~= bytes.subrange(0, max as int));
            assert(s@ =~= head@ + tail@);
            assert(head.spec_bytes() =~= bytes.take(max as int));
        }
        head
    }
}

} // verus!
