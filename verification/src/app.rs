//! The client state and the operations on it, each proved to do what the
//! model in `state` says.

use vstd::prelude::*;
use crate::model::{
    ApiRequest, Collection, EditorTab, InputMode, KvField, KvRow, Overlay, Panel, RequestView,
    collections_view, requests_view, rows_view,
};
use crate::state::{AppView, initial_view, matching, empty_row};

verus! {

/// The whole state of the client: panels, dialogs, lists and the request editor.
pub struct App {
    pub active_panel: Panel,
    pub input_mode: InputMode,
    pub overlay: Overlay,
    pub collections: Vec<Collection>,
    pub coll_sel: Option<usize>,
    pub requests: Vec<ApiRequest>,
    pub req_sel: Option<usize>,
    pub editor_open: bool,
    pub editor_tab: EditorTab,
    pub method_idx: usize,
    pub url: String,
    pub query_params: Vec<KvRow>,
    pub query_row: usize,
    pub query_field: KvField,
    pub headers: Vec<KvRow>,
    pub header_row: usize,
    pub header_field: KvField,
    pub body: String,
    pub response_text: String,
    pub response_scroll: u16,
    pub status_line: String,
}

impl View for App {
    type V = AppView;

    open spec fn view(&self) -> AppView {
        AppView {
            active_panel: self.active_panel,
            input_mode: self.input_mode,
            overlay: self.overlay@,
            collections: collections_view(self.collections@),
            coll_sel: self.coll_sel,
            requests: requests_view(self.requests@),
            req_sel: self.req_sel,
            editor_open: self.editor_open,
            editor_tab: self.editor_tab,
            method_idx: self.method_idx,
            url: self.url@,
            query_params: rows_view(self.query_params@),
            query_row: self.query_row,
            query_field: self.query_field,
            headers: rows_view(self.headers@),
            header_row: self.header_row,
            header_field: self.header_field,
            body: self.body@,
            response_text: self.response_text@,
            response_scroll: self.response_scroll,
            status_line: self.status_line@,
        }
    }
}

/// The indices listed by `matching` are increasing and below `n`.
pub proof fn lemma_matching_bounds(reqs: Seq<RequestView>, id: i64, n: nat)
    requires
        n <= reqs.len(),
        reqs.len() <= usize::MAX,
    ensures
        matching(reqs, id, n).len() <= n,
        forall|j: int|
            0 <= j < matching(reqs, id, n).len() ==> #[trigger] matching(reqs, id, n)[j] < n
                && reqs[matching(reqs, id, n)[j] as int].collection_id == id,
    decreases n,
{
    if n > 0 {
        lemma_matching_bounds(reqs, id, (n - 1) as nat);
        let prev = matching(reqs, id, (n - 1) as nat);
        let cur = matching(reqs, id, n);
        assert forall|j: int| 0 <= j < cur.len() implies #[trigger] cur[j] < n
            && reqs[cur[j] as int].collection_id == id by {
            if j < prev.len() {
                assert(cur[j] == prev[j]);
            }
        }
    }
}

impl App {
    /// A client showing the given stored collections and requests, the first
    /// of each selected.
    pub fn new(collections: Vec<Collection>, requests: Vec<ApiRequest>) -> (r: App)
        ensures
            r@ == initial_view(collections_view(collections@), requests_view(requests@)),
            r@.wf(),
    {
        let coll_sel = if collections.len() > 0 {
            Some(0)
        } else {
            None
        };
        let req_sel = if requests.len() > 0 {
            Some(0)
        } else {
            None
        };
        let mut query_params = Vec::new();
        query_params.push(KvRow::empty());
        let mut headers = Vec::new();
        headers.push(KvRow::empty());
        let r = App {
            active_panel: Panel::Collections,
            input_mode: InputMode::Normal,
            overlay: Overlay::Closed,
            collections,
            coll_sel,
            requests,
            req_sel,
            editor_open: false,
            editor_tab: EditorTab::Url,
            method_idx: 0,
            url: String::new(),
            query_params,
            query_row: 0,
            query_field: KvField::Key,
            headers,
            header_row: 0,
            header_field: KvField::Key,
            body: String::from_str("{}"),
            response_text: String::from_str(
                "Press Enter on a request, or 's' to send — response appears here.",
            ),
            response_scroll: 0,
            status_line: String::from_str("Ready"),
        };
        proof {
            reveal_strlit("{}");
            assert(rows_view(r.query_params@) =~= seq![empty_row()]);
            assert(rows_view(r.headers@) =~= seq![empty_row()]);
            assert(r.body@ =~= seq!['{', '}']);
        }
        r
    }

    /// The selected collection, when the selection points into the list.
    pub fn selected_collection(&self) -> (r: Option<&Collection>)
        ensures
            match r {
                Some(c) => {
                    &&& self@.sel_collection_id() == Some(c.collection_id)
                    &&& self.coll_sel matches Some(i) && i < self.collections@.len() && *c
                        == self.collections@[i as int]
                },
                None => self@.sel_collection_id() is None,
            },
    {
        match self.coll_sel {
            Some(i) => if i < self.collections.len() {
                Some(&self.collections[i])
            } else {
                None
            },
            None => None,
        }
    }

    /// The id of the selected collection.
    pub fn selected_collection_id(&self) -> (r: Option<i64>)
        ensures
            r == self@.sel_collection_id(),
    {
        match self.selected_collection() {
            Some(c) => Some(c.collection_id),
            None => None,
        }
    }

    /// Indices into `requests` of the requests of the selected collection, in order.
    pub fn requests_for_selected(&self) -> (r: Vec<usize>)
        ensures
            r@ == self@.visible(),
            r@.len() <= self.requests@.len(),
            forall|j: int| 0 <= j < r@.len() ==> #[trigger] r@[j] < self.requests@.len(),
    {
        let ghost rv = requests_view(self.requests@);
        let total = self.requests.len();
        let mut out: Vec<usize> = Vec::new();
        match self.selected_collection_id() {
            None => {},
            Some(id) => {
                let n = self.requests.len();
                for i in 0..n
                    invariant
                        n == self.requests@.len(),
                        rv == requests_view(self.requests@),
                        out@ == matching(rv, id, i as nat),
                {
                    if self.requests[i].collection_id == id {
                        out.push(i);
                    }
                }
            },
        }
        proof {
            lemma_matching_bounds(rv, self@.sel_collection_id().unwrap_or(0), rv.len());
        }
        out
    }

    /// Down in the collection list.
    pub fn coll_next(&mut self)
        requires
            old(self)@.wf(),
        ensures
            final(self)@ == old(self)@.coll_next(),
    {
        let len = self.collections.len();
        if len == 0 {
            return;
        }
        let i = match self.coll_sel {
            Some(i) => (i + 1) % len,
            None => 0,
        };
        self.coll_sel = Some(i);
        self.req_sel = Some(0);
    }

    /// Up in the collection list.
    pub fn coll_prev(&mut self)
        requires
            old(self)@.wf(),
        ensures
            final(self)@ == old(self)@.coll_prev(),
    {
        let len = self.collections.len();
        if len == 0 {
            return;
        }
        let i = match self.coll_sel {
            Some(i) => if i == 0 {
                len - 1
            } else {
                i - 1
            },
            None => 0,
        };
        self.coll_sel = Some(i);
        self.req_sel = Some(0);
    }

    /// Down in the request list.
    pub fn req_next(&mut self)
        requires
            old(self)@.wf(),
        ensures
            final(self)@ == old(self)@.req_next(),
    {
        let visible = self.requests_for_selected();
        let len = visible.len();
        if len == 0 {
            return;
        }
        let total = self.requests.len();
        assert(self@.requests.len() == total);
        let i = match self.req_sel {
            Some(i) => (i + 1) % len,
            None => 0,
        };
        self.req_sel = Some(i);
    }

    /// Up in the request list.
    pub fn req_prev(&mut self)
        requires
            old(self)@.wf(),
        ensures
            final(self)@ == old(self)@.req_prev(),
    {
        let visible = self.requests_for_selected();
        let len = visible.len();
        if len == 0 {
            return;
        }
        let i = match self.req_sel {
            Some(i) => if i == 0 {
                len - 1
            } else {
                i - 1
            },
            None => 0,
        };
        self.req_sel = Some(i);
    }
}

} // verus!
