//! The request editor: typing, erasing, moving between rows, loading a
//! saved request, and what sending hands to the HTTP layer.

use vstd::prelude::*;
use crate::app::App;
use crate::json::{json_text_ok, pretty_json};
use crate::methods::method_index;
use crate::model::{ApiRequest, EditorTab, KvField, KvRow, SendPlan, pairs_view, rows_view};
use crate::params::{query_map_of, query_pairs};
use crate::headers::{HEADER_MAP_ROOM, header_entries, header_map_of, header_map_spec};
use reqwest::header::{HeaderMap, HeaderValue};
use crate::state::{body_text, empty_row, row_pop, row_push};
use crate::text::{pop_char, push_char};

verus! {

/// A row with `c` typed into the given half.
fn pushed_row(row: &KvRow, f: KvField, c: char) -> (r: KvRow)
    ensures
        r@ == row_push(row@, f, c),
{
    let mut key = row.key.clone();
    let mut value = row.value.clone();
    match f {
        KvField::Key => push_char(&mut key, c),
        KvField::Value => push_char(&mut value, c),
    }
    KvRow { key, value }
}

/// A row with the last character of the given half erased.
fn popped_row(row: &KvRow, f: KvField) -> (r: KvRow)
    ensures
        r@ == row_pop(row@, f),
{
    let mut key = row.key.clone();
    let mut value = row.value.clone();
    match f {
        KvField::Key => {
            pop_char(&mut key);
        },
        KvField::Value => {
            pop_char(&mut value);
        },
    }
    KvRow { key, value }
}

/// `rows` with row `i` replaced by `row`.
fn replace_row(rows: &mut Vec<KvRow>, i: usize, row: KvRow)
    requires
        i < old(rows)@.len(),
    ensures
        rows_view(final(rows)@) == rows_view(old(rows)@).update(i as int, row@),
{
    let ghost before = rows_view(rows@);
    rows.set(i, row);
    assert(rows_view(rows@) =~= before.update(i as int, row@));
}

/// Copies of a list of string pairs as editor rows.
fn rows_from_pairs(pairs: &Vec<(String, String)>) -> (r: Vec<KvRow>)
    ensures
        rows_view(r@) == pairs_view(pairs@),
{
    let mut out: Vec<KvRow> = Vec::new();
    let n = pairs.len();
    for i in 0..n
        invariant
            n == pairs@.len(),
            rows_view(out@) == pairs_view(pairs@).take(i as int),
    {
        let row = KvRow { key: pairs[i].0.clone(), value: pairs[i].1.clone() };
        let ghost before = rows_view(out@);
        out.push(row);
        assert(rows_view(out@) =~= before.push(row@));
        assert(pairs_view(pairs@).take(i + 1) =~= pairs_view(pairs@).take(i as int).push(row@));
    }
    assert(pairs_view(pairs@).take(n as int) =~= pairs_view(pairs@));
    out
}

/// A list holding one empty row.
fn one_empty_row() -> (r: Vec<KvRow>)
    ensures
        rows_view(r@) == seq![empty_row()],
{
    let mut v = Vec::new();
    v.push(KvRow::empty());
    assert(rows_view(v@) =~= seq![empty_row()]);
    v
}

impl App {
    /// Types `c` into the field the editor tab points at.
    pub fn editor_push(&mut self, c: char)
        ensures
            final(self)@ == old(self)@.editor_push(c),
    {
        match self.editor_tab {
            EditorTab::Url => push_char(&mut self.url, c),
            EditorTab::Body => push_char(&mut self.body, c),
            EditorTab::Query => {
                let i = self.query_row;
                if i < self.query_params.len() {
                    let row = pushed_row(&self.query_params[i], self.query_field, c);
                    replace_row(&mut self.query_params, i, row);
                }
            },
            EditorTab::Headers => {
                let i = self.header_row;
                if i < self.headers.len() {
                    let row = pushed_row(&self.headers[i], self.header_field, c);
                    replace_row(&mut self.headers, i, row);
                }
            },
        }
    }

    /// Erases the last character of the field the editor tab points at.
    pub fn editor_backspace(&mut self)
        ensures
            final(self)@ == old(self)@.editor_backspace(),
    {
        match self.editor_tab {
            EditorTab::Url => {
                pop_char(&mut self.url);
            },
            EditorTab::Body => {
                pop_char(&mut self.body);
            },
            EditorTab::Query => {
                let i = self.query_row;
                if i < self.query_params.len() {
                    let row = popped_row(&self.query_params[i], self.query_field);
                    replace_row(&mut self.query_params, i, row);
                }
            },
            EditorTab::Headers => {
                let i = self.header_row;
                if i < self.headers.len() {
                    let row = popped_row(&self.headers[i], self.header_field);
                    replace_row(&mut self.headers, i, row);
                }
            },
        }
    }

    /// Down in the header table.
    pub fn header_next_row(&mut self)
        requires
            old(self).header_row < usize::MAX,
        ensures
            final(self)@ == old(self)@.header_next_row(),
    {
        if self.header_row + 1 < self.headers.len() {
            self.header_row += 1;
        } else {
            let ghost before = rows_view(self.headers@);
            self.headers.push(KvRow::empty());
            assert(rows_view(self.headers@) =~= before.push(empty_row()));
            self.header_row += 1;
        }
        self.header_field = KvField::Key;
    }

    /// Up in the header table.
    pub fn header_prev_row(&mut self)
        ensures
            final(self)@ == old(self)@.header_prev_row(),
    {
        if self.header_row > 0 {
            self.header_row -= 1;
        }
        self.header_field = KvField::Key;
    }

    /// Down in the query table.
    pub fn query_next_row(&mut self)
        requires
            old(self).query_row < usize::MAX,
        ensures
            final(self)@ == old(self)@.query_next_row(),
    {
        if self.query_row + 1 < self.query_params.len() {
            self.query_row += 1;
        } else {
            let ghost before = rows_view(self.query_params@);
            self.query_params.push(KvRow::empty());
            assert(rows_view(self.query_params@) =~= before.push(empty_row()));
            self.query_row += 1;
        }
        self.query_field = KvField::Key;
    }

    /// Up in the query table.
    pub fn query_prev_row(&mut self)
        ensures
            final(self)@ == old(self)@.query_prev_row(),
    {
        if self.query_row > 0 {
            self.query_row -= 1;
        }
        self.query_field = KvField::Key;
    }

    /// The query parameters of the editor: rows with a non-empty key, a later
    /// row overriding an earlier one with the same key.
    pub fn build_query_map(&self) -> (r: Vec<(String, String)>)
        ensures
            pairs_view(r@) == query_pairs(self@.query_params),
    {
        query_map_of(&self.query_params)
    }

    /// The request headers of the editor: each row with a non-empty, valid
    /// name and a valid value inserted, in order, into a header map.
    pub fn build_header_map(&self) -> (r: HeaderMap<HeaderValue>)
        requires
            self.headers@.len() <= HEADER_MAP_ROOM,
        ensures
            header_entries(r) == header_map_spec(self@.headers),
    {
        header_map_of(&self.headers)
    }

    /// Fills the editor from the saved request at `index`, its body shown as `body`.
    pub fn fill_editor(&mut self, index: usize, body: String)
        requires
            index < old(self).requests@.len(),
        ensures
            final(self)@ == old(self)@.fill_editor(old(self)@.requests[index as int], body@),
    {
        let req: &ApiRequest = &self.requests[index];
        let m = method_index(req.method.as_str());
        let url = req.url.clone();
        let headers = match &req.headers {
            Some(h) => rows_from_pairs(h),
            None => one_empty_row(),
        };
        self.method_idx = m;
        self.url = url;
        self.headers = headers;
        self.body = body;
        self.query_params = one_empty_row();
        self.editor_open = true;
        self.editor_tab = EditorTab::Url;
    }

    /// Loads the selected request of the request list into the editor.
    pub fn load_request_into_editor(&mut self)
        requires
            old(self)@.wf(),
        ensures
            final(self)@ == old(self)@.load_request(),
    {
        let visible = self.requests_for_selected();
        let idx = match self.req_sel {
            Some(i) => if i < visible.len() {
                visible[i]
            } else {
                return;
            },
            None => {
                return;
            },
        };
        let body = match &self.requests[idx].body {
            Some(b) => match pretty_json(b.as_str()) {
                Ok(p) => p,
                Err(_) => String::new(),
            },
            None => String::from_str("{}"),
        };
        proof {
            reveal_strlit("{}");
            assert(body@ == body_text(self@.requests[idx as int].body));
        }
        self.fill_editor(idx, body);
    }

    /// What sending the editor's request hands to the HTTP layer.
    pub fn send_plan(&self) -> (r: SendPlan)
        requires
            self.headers@.len() <= HEADER_MAP_ROOM,
        ensures
            r@ == self@.send_plan(),
    {
        SendPlan {
            method_idx: self.method_idx,
            baseurl: self.url.clone(),
            endpoint: String::new(),
            query: self.build_query_map(),
            headers: self.build_header_map(),
            body: self.body.clone(),
            body_is_json: json_text_ok(self.body.as_str()),
        }
    }
}

} // verus!
