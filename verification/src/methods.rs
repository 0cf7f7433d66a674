//! The five HTTP methods the client offers, and how each is shown.

use vstd::prelude::*;
use crate::text::same_text;

verus! {

/// Number of HTTP methods the editor cycles through.
pub const METHOD_COUNT: usize = 5;

/// The method at position `i` of the cycle GET, POST, PUT, PATCH, DELETE.
pub open spec fn method_at(i: int) -> Seq<char> {
    if i == 0 {
        "GET"@
    } else if i == 1 {
        "POST"@
    } else if i == 2 {
        "PUT"@
    } else if i == 3 {
        "PATCH"@
    } else {
        "DELETE"@
    }
}

/// Position of `m` in the method cycle; a method that is not there counts as GET.
pub open spec fn method_position(m: Seq<char>) -> int {
    if m == method_at(0) {
        0
    } else if m == method_at(1) {
        1
    } else if m == method_at(2) {
        2
    } else if m == method_at(3) {
        3
    } else if m == method_at(4) {
        4
    } else {
        0
    }
}

/// Fixed-width label of a method in the request list.
pub open spec fn short_label(m: Seq<char>) -> Seq<char> {
    if m == "GET"@ {
        "GET  "@
    } else if m == "POST"@ {
        "POST "@
    } else if m == "PUT"@ {
        "PUT  "@
    } else if m == "PATCH"@ {
        "PATCH"@
    } else if m == "DELETE"@ {
        "DEL  "@
    } else {
        "?????"@
    }
}

/// Colour (red, green, blue) in which a method is drawn.
pub open spec fn method_rgb(m: Seq<char>) -> (u8, u8, u8) {
    if m == "GET"@ {
        (80u8, 200u8, 120u8)
    } else if m == "POST"@ {
        (90u8, 150u8, 255u8)
    } else if m == "PUT"@ {
        (255u8, 190u8, 50u8)
    } else if m == "PATCH"@ {
        (80u8, 210u8, 210u8)
    } else if m == "DELETE"@ {
        (255u8, 90u8, 90u8)
    } else {
        (210u8, 210u8, 220u8)
    }
}

/// The method at `idx` of the cycle.
pub fn method_name(idx: usize) -> (r: &'static str)
    requires
        idx < METHOD_COUNT,
    ensures
        r@ == method_at(idx as int),
{
    if idx == 0 {
        "GET"
    } else if idx == 1 {
        "POST"
    } else if idx == 2 {
        "PUT"
    } else if idx == 3 {
        "PATCH"
    } else {
        "DELETE"
    }
}

/// Position of `m` in the method cycle, 0 when `m` is not one of the five.
pub fn method_index(m: &str) -> (r: usize)
    ensures
        r as int == method_position(m@),
        r < METHOD_COUNT,
{
    if same_text(m, "GET") {
        0
    } else if same_text(m, "POST") {
        1
    } else if same_text(m, "PUT") {
        2
    } else if same_text(m, "PATCH") {
        3
    } else if same_text(m, "DELETE") {
        4
    } else {
        0
    }
}

/// Five-character label of a method, `?????` for anything unknown.
pub fn method_short(m: &str) -> (r: &'static str)
    ensures
        r@ == short_label(m@),
{
    if same_text(m, "GET") {
        "GET  "
    } else if same_text(m, "POST") {
        "POST "
    } else if same_text(m, "PUT") {
        "PUT  "
    } else if same_text(m, "PATCH") {
        "PATCH"
    } else if same_text(m, "DELETE") {
        "DEL  "
    } else {
        "?????"
    }
}

/// Colour of a method as (red, green, blue); unknown methods get the plain text colour.
pub fn method_color(m: &str) -> (r: (u8, u8, u8))
    ensures
        r == method_rgb(m@),
{
    if same_text(m, "GET") {
        (80, 200, 120)
    } else if same_text(m, "POST") {
        (90, 150, 255)
    } else if same_text(m, "PUT") {
        (255, 190, 50)
    } else if same_text(m, "PATCH") {
        (80, 210, 210)
    } else if same_text(m, "DELETE") {
        (255, 90, 90)
    } else {
        (210, 210, 220)
    }
}

/// The method after `idx` in the cycle.
pub fn next_method(idx: usize) -> (r: usize)
    requires
        idx < METHOD_COUNT,
    ensures
        r == (idx + 1) % (METHOD_COUNT as int),
{
    (idx + 1) % METHOD_COUNT
}

/// The method before `idx` in the cycle.
pub fn prev_method(idx: usize) -> (r: usize)
    requires
        idx < METHOD_COUNT,
    ensures
        r == if idx == 0 { METHOD_COUNT - 1 } else { idx - 1 },
{
    if idx == 0 {
        METHOD_COUNT - 1
    } else {
        idx - 1
    }
}

/// Looking a method up by its own name gives back its position: the five names differ.
pub proof fn lemma_method_position_of_name(i: int)
    requires
        0 <= i < METHOD_COUNT,
    ensures
        method_position(method_at(i)) == i,
{
    reveal_strlit("GET");
    reveal_strlit("POST");
    reveal_strlit("PUT");
    reveal_strlit("PATCH");
    reveal_strlit("DELETE");
    assert("GET"@[0] != "PUT"@[0]);
    assert("GET"@ != "POST"@);
    assert("GET"@ != "PATCH"@);
    assert("GET"@ != "DELETE"@);
    assert("POST"@.len() != "PUT"@.len());
    assert("POST"@.len() != "PATCH"@.len());
    assert("POST"@ != "DELETE"@);
    assert("PUT"@ != "PATCH"@);
    assert("PUT"@ != "DELETE"@);
    assert("PATCH"@ != "DELETE"@);
}

/// Looking up any text gives a position inside the cycle.
pub proof fn lemma_method_position_bound(m: Seq<char>)
    ensures
        0 <= method_position(m) < METHOD_COUNT,
{
}

/// Every method label, known or not, is five characters wide, so the list columns align.
pub proof fn lemma_short_label_width(m: Seq<char>)
    ensures
        short_label(m).len() == 5,
{
    reveal_strlit("GET  ");
    reveal_strlit("POST ");
    reveal_strlit("PUT  ");
    reveal_strlit("PATCH");
    reveal_strlit("DEL  ");
    reveal_strlit("?????");
}

/// Stepping back undoes stepping forward in the method cycle, and the other way round.
pub proof fn lemma_method_cycle_inverse(i: int)
    requires
        0 <= i < METHOD_COUNT,
    ensures
        ({
            let n = (i + 1) % (METHOD_COUNT as int);
            (if n == 0 { METHOD_COUNT - 1 } else { n - 1 }) == i
        }),
        ({
            let p = if i == 0 { METHOD_COUNT - 1 } else { i - 1 };
            (p + 1) % (METHOD_COUNT as int) == i
        }),
{
}

} // verus!
