//! The mathematical model of the client's state and of every transition:
//! what a key press does, and what each finished piece of outside work does.

use vstd::prelude::*;
use crate::model::{
    CollectionView, DeleteTarget, EditorTab, EffectView, InputMode, Key, KeyInput, KvField,
    OverlayView, Panel, RequestView, ResponsePartsView, SendPlanView, TextPair,
};
use crate::methods::{METHOD_COUNT, method_at, method_position};
use crate::json::{json_pretty_text, json_valid};
use crate::params::query_pairs;
use crate::headers::{HEADER_MAP_ROOM, header_map_spec};

verus! {

/// The view of the whole client state.
pub struct AppView {
    pub active_panel: Panel,
    pub input_mode: InputMode,
    pub overlay: OverlayView,
    pub collections: Seq<CollectionView>,
    pub coll_sel: Option<usize>,
    pub requests: Seq<RequestView>,
    pub req_sel: Option<usize>,
    pub editor_open: bool,
    pub editor_tab: EditorTab,
    pub method_idx: usize,
    pub url: Seq<char>,
    pub query_params: Seq<TextPair>,
    pub query_row: usize,
    pub query_field: KvField,
    pub headers: Seq<TextPair>,
    pub header_row: usize,
    pub header_field: KvField,
    pub body: Seq<char>,
    pub response_text: Seq<char>,
    pub response_scroll: u16,
    pub status_line: Seq<char>,
}

/// `s` without its last character; empty text stays empty.
pub open spec fn pop_text(s: Seq<char>) -> Seq<char> {
    if s.len() == 0 {
        s
    } else {
        s.drop_last()
    }
}

/// A key/value row with both halves empty.
pub open spec fn empty_row() -> TextPair {
    (Seq::empty(), Seq::empty())
}

/// Indices, in order, of the first `n` requests that belong to collection `id`.
pub open spec fn matching(reqs: Seq<RequestView>, id: i64, n: nat) -> Seq<usize>
    decreases n,
{
    if n == 0 {
        Seq::empty()
    } else {
        let prev = matching(reqs, id, (n - 1) as nat);
        if reqs[n - 1].collection_id == id {
            prev.push((n - 1) as usize)
        } else {
            prev
        }
    }
}

/// Editor tabs in the order Tab visits them: URL, query, headers, body.
pub open spec fn next_tab(t: EditorTab) -> EditorTab {
    match t {
        EditorTab::Url => EditorTab::Query,
        EditorTab::Query => EditorTab::Headers,
        EditorTab::Headers => EditorTab::Body,
        EditorTab::Body => EditorTab::Url,
    }
}

/// The panel after `p`.
pub open spec fn next_panel(p: Panel) -> Panel {
    match p {
        Panel::Collections => Panel::Requests,
        Panel::Requests => Panel::Response,
        Panel::Response => Panel::Collections,
    }
}

/// The panel before `p`.
pub open spec fn prev_panel(p: Panel) -> Panel {
    match p {
        Panel::Collections => Panel::Response,
        Panel::Requests => Panel::Collections,
        Panel::Response => Panel::Requests,
    }
}

/// The other half of a key/value row.
pub open spec fn other_field(f: KvField) -> KvField {
    match f {
        KvField::Key => KvField::Value,
        KvField::Value => KvField::Key,
    }
}

/// A row with `c` typed into the given half.
pub open spec fn row_push(r: TextPair, f: KvField, c: char) -> TextPair {
    match f {
        KvField::Key => (r.0.push(c), r.1),
        KvField::Value => (r.0, r.1.push(c)),
    }
}

/// A row with the last character of the given half erased.
pub open spec fn row_pop(r: TextPair, f: KvField) -> TextPair {
    match f {
        KvField::Key => (pop_text(r.0), r.1),
        KvField::Value => (r.0, pop_text(r.1)),
    }
}

/// The text the body tab shows for a stored body: its pretty-printed JSON
/// (nothing when it does not parse), or `{}` when there is no body.
pub open spec fn body_text(b: Option<Seq<char>>) -> Seq<char> {
    match b {
        Some(t) => match json_pretty_text(t) {
            Ok(p) => p,
            Err(_) => Seq::empty(),
        },
        None => seq!['{', '}'],
    }
}

/// The response panel text for a successful exchange.
pub open spec fn report_text(p: ResponsePartsView, body: Seq<char>) -> Seq<char> {
    "STATUS\n"@ + p.status + "\n\nRESPONSE TIME\n"@ + p.elapsed + "\n\nFINAL URL\n"@
        + p.final_url + "\n\nCONTENT LENGTH\n"@ + p.content_length + "\n\nHTTP VERSION\n"@
        + p.version + "\n\nHEADERS\n"@ + p.headers + "\n\nRAW TEXT\n"@ + p.raw_text
        + "\n\nBODY\n"@ + body + "\n"@
}

/// The state a new client starts in, given the stored collections and requests.
pub open spec fn initial_view(cs: Seq<CollectionView>, rs: Seq<RequestView>) -> AppView {
    AppView {
        active_panel: Panel::Collections,
        input_mode: InputMode::Normal,
        overlay: OverlayView::Closed,
        collections: cs,
        coll_sel: if cs.len() > 0 { Some(0) } else { None },
        requests: rs,
        req_sel: if rs.len() > 0 { Some(0) } else { None },
        editor_open: false,
        editor_tab: EditorTab::Url,
        method_idx: 0,
        url: Seq::empty(),
        query_params: seq![empty_row()],
        query_row: 0,
        query_field: KvField::Key,
        headers: seq![empty_row()],
        header_row: 0,
        header_field: KvField::Key,
        body: seq!['{', '}'],
        response_text: "Press Enter on a request, or 's' to send — response appears here."@,
        response_scroll: 0,
        status_line: "Ready"@,
    }
}

impl AppView {
    /// The id of the selected collection, when the selection points into the list.
    pub open spec fn sel_collection_id(self) -> Option<i64> {
        match self.coll_sel {
            Some(i) => if i < self.collections.len() {
                Some(self.collections[i as int].collection_id)
            } else {
                None
            },
            None => None,
        }
    }

    /// Indices of the requests of the selected collection: the request list.
    pub open spec fn visible(self) -> Seq<usize> {
        match self.sel_collection_id() {
            Some(id) => matching(self.requests, id, self.requests.len()),
            None => Seq::empty(),
        }
    }

    /// Index into `requests` of the selected request of the request list.
    pub open spec fn selected_request(self) -> Option<int> {
        match self.req_sel {
            Some(i) => if i < self.visible().len() {
                Some(self.visible()[i as int] as int)
            } else {
                None
            },
            None => None,
        }
    }

    /// The invariant every reachable state keeps.
    pub open spec fn wf(self) -> bool {
        &&& self.method_idx < METHOD_COUNT
        &&& match self.overlay {
            OverlayView::NewCollection { field, .. } => field <= 1,
            OverlayView::NewRequest { method_idx, field, .. } => method_idx < METHOD_COUNT
                && field < 3,
            _ => true,
        }
        &&& self.coll_sel matches Some(i) ==> (i < self.collections.len() || i == 0)
        &&& self.req_sel matches Some(i) ==> (i < self.requests.len() || i == 0)
    }

    /// Down in the collection list: the next collection, wrapping around.
    pub open spec fn coll_next(self) -> AppView {
        let len = self.collections.len();
        if len == 0 {
            self
        } else {
            AppView {
                coll_sel: Some(
                    match self.coll_sel {
                        Some(i) => ((i + 1) % (len as int)) as usize,
                        None => 0,
                    },
                ),
                req_sel: Some(0),
                ..self
            }
        }
    }

    /// Up in the collection list: the previous collection, wrapping around.
    pub open spec fn coll_prev(self) -> AppView {
        let len = self.collections.len();
        if len == 0 {
            self
        } else {
            AppView {
                coll_sel: Some(
                    match self.coll_sel {
                        Some(i) => if i == 0 {
                            (len - 1) as usize
                        } else {
                            (i - 1) as usize
                        },
                        None => 0,
                    },
                ),
                req_sel: Some(0),
                ..self
            }
        }
    }

    /// Down in the request list: the next request, wrapping around.
    pub open spec fn req_next(self) -> AppView {
        let len = self.visible().len();
        if len == 0 {
            self
        } else {
            AppView {
                req_sel: Some(
                    match self.req_sel {
                        Some(i) => ((i + 1) % (len as int)) as usize,
                        None => 0,
                    },
                ),
                ..self
            }
        }
    }

    /// Up in the request list: the previous request, wrapping around.
    pub open spec fn req_prev(self) -> AppView {
        let len = self.visible().len();
        if len == 0 {
            self
        } else {
            AppView {
                req_sel: Some(
                    match self.req_sel {
                        Some(i) => if i == 0 {
                            (len - 1) as usize
                        } else {
                            (i - 1) as usize
                        },
                        None => 0,
                    },
                ),
                ..self
            }
        }
    }

    /// A character typed into the field the editor tab points at.
    pub open spec fn editor_push(self, c: char) -> AppView {
        match self.editor_tab {
            EditorTab::Url => AppView { url: self.url.push(c), ..self },
            EditorTab::Body => AppView { body: self.body.push(c), ..self },
            EditorTab::Query => if self.query_row < self.query_params.len() {
                AppView {
                    query_params: self.query_params.update(
                        self.query_row as int,
                        row_push(self.query_params[self.query_row as int], self.query_field, c),
                    ),
                    ..self
                }
            } else {
                self
            },
            EditorTab::Headers => if self.header_row < self.headers.len() {
                AppView {
                    headers: self.headers.update(
                        self.header_row as int,
                        row_push(self.headers[self.header_row as int], self.header_field, c),
                    ),
                    ..self
                }
            } else {
                self
            },
        }
    }

    /// Backspace in the field the editor tab points at.
    pub open spec fn editor_backspace(self) -> AppView {
        match self.editor_tab {
            EditorTab::Url => AppView { url: pop_text(self.url), ..self },
            EditorTab::Body => AppView { body: pop_text(self.body), ..self },
            EditorTab::Query => if self.query_row < self.query_params.len() {
                AppView {
                    query_params: self.query_params.update(
                        self.query_row as int,
                        row_pop(self.query_params[self.query_row as int], self.query_field),
                    ),
                    ..self
                }
            } else {
                self
            },
            EditorTab::Headers => if self.header_row < self.headers.len() {
                AppView {
                    headers: self.headers.update(
                        self.header_row as int,
                        row_pop(self.headers[self.header_row as int], self.header_field),
                    ),
                    ..self
                }
            } else {
                self
            },
        }
    }

    /// Down in the header table: the next row, adding an empty one at the end.
    pub open spec fn header_next_row(self) -> AppView {
        if self.header_row + 1 < self.headers.len() {
            AppView {
                header_row: (self.header_row + 1) as usize,
                header_field: KvField::Key,
                ..self
            }
        } else {
            AppView {
                headers: self.headers.push(empty_row()),
                header_row: (self.header_row + 1) as usize,
                header_field: KvField::Key,
                ..self
            }
        }
    }

    /// Up in the header table.
    pub open spec fn header_prev_row(self) -> AppView {
        AppView {
            header_row: if self.header_row > 0 {
                (self.header_row - 1) as usize
            } else {
                self.header_row
            },
            header_field: KvField::Key,
            ..self
        }
    }

    /// Down in the query table: the next row, adding an empty one at the end.
    pub open spec fn query_next_row(self) -> AppView {
        if self.query_row + 1 < self.query_params.len() {
            AppView {
                query_row: (self.query_row + 1) as usize,
                query_field: KvField::Key,
                ..self
            }
        } else {
            AppView {
                query_params: self.query_params.push(empty_row()),
                query_row: (self.query_row + 1) as usize,
                query_field: KvField::Key,
                ..self
            }
        }
    }

    /// Up in the query table.
    pub open spec fn query_prev_row(self) -> AppView {
        AppView {
            query_row: if self.query_row > 0 {
                (self.query_row - 1) as usize
            } else {
                self.query_row
            },
            query_field: KvField::Key,
            ..self
        }
    }

    /// The editor filled from request `r`, whose body shows as `body`.
    pub open spec fn fill_editor(self, r: RequestView, body: Seq<char>) -> AppView {
        AppView {
            method_idx: method_position(r.method) as usize,
            url: r.url,
            headers: match r.headers {
                Some(h) => h,
                None => seq![empty_row()],
            },
            body: body,
            query_params: seq![empty_row()],
            editor_open: true,
            editor_tab: EditorTab::Url,
            ..self
        }
    }

    /// The selected request loaded into the editor; nothing when no request is selected.
    pub open spec fn load_request(self) -> AppView {
        match self.selected_request() {
            Some(idx) => self.fill_editor(self.requests[idx], body_text(self.requests[idx].body)),
            None => self,
        }
    }

    /// What sending the editor's request hands to the HTTP layer.
    pub open spec fn send_plan(self) -> SendPlanView {
        SendPlanView {
            method_idx: self.method_idx,
            baseurl: self.url,
            endpoint: Seq::empty(),
            query: query_pairs(self.query_params),
            headers: header_map_spec(self.headers),
            body: self.body,
            body_is_json: json_valid(self.body),
        }
    }

    /// The one key press that cannot be handled: confirming the deletion of the
    /// selected collection while the selection points past the end of the list.
    pub open spec fn key_faults(self, k: KeyInput) -> bool {
        &&& self.overlay matches OverlayView::ConfirmDelete { target: DeleteTarget::Collection(_) }
        &&& k.code == Key::Enter
        &&& self.coll_sel matches Some(i) && i >= self.collections.len()
    }

    /// Whether `k` sends the request of the editor.
    pub open spec fn sends(self, k: KeyInput) -> bool {
        &&& self.overlay is Closed
        &&& !(self.input_mode == InputMode::Insert && self.editor_open)
        &&& k.code == Key::Char('s')
    }

    /// The state a send starts from: the selected request loaded first when
    /// the editor is closed.
    pub open spec fn sending_view(self) -> AppView {
        if self.editor_open {
            self
        } else {
            self.load_request()
        }
    }

    /// A send whose header rows are more than a header map is sure to take.
    pub open spec fn sends_too_many_headers(self, k: KeyInput) -> bool {
        self.sends(k) && self.sending_view().headers.len() > HEADER_MAP_ROOM
    }

    /// The key presses that would move a row index past `usize::MAX`: Down in
    /// the editor's Query or Headers tab while that tab's row index is already
    /// `usize::MAX`.
    pub open spec fn row_overflows(self, k: KeyInput) -> bool {
        &&& self.overlay is Closed
        &&& self.input_mode == InputMode::Insert
        &&& self.editor_open
        &&& k.code == Key::Down
        &&& ((self.editor_tab == EditorTab::Query && self.query_row == usize::MAX) || (
        self.editor_tab == EditorTab::Headers && self.header_row == usize::MAX))
    }

    /// A key press while the new-collection dialog is open.
    pub open spec fn new_collection_key(
        self,
        name: Seq<char>,
        desc: Seq<char>,
        field: u8,
        k: KeyInput,
    ) -> (AppView, EffectView) {
        match k.code {
            Key::Esc => (AppView { overlay: OverlayView::Closed, ..self }, EffectView::Nothing),
            Key::Tab => (
                AppView {
                    overlay: OverlayView::NewCollection { name, desc, field: (1 - field) as u8 },
                    ..self
                },
                EffectView::Nothing,
            ),
            Key::Enter => (
                AppView { overlay: OverlayView::Closed, ..self },
                if name.len() > 0 {
                    EffectView::CreateCollection { name, desc }
                } else {
                    EffectView::Nothing
                },
            ),
            Key::Backspace => (
                AppView {
                    overlay: if field == 0 {
                        OverlayView::NewCollection { name: pop_text(name), desc, field }
                    } else {
                        OverlayView::NewCollection { name, desc: pop_text(desc), field }
                    },
                    ..self
                },
                EffectView::Nothing,
            ),
            Key::Char(c) => (
                AppView {
                    overlay: if field == 0 {
                        OverlayView::NewCollection { name: name.push(c), desc, field }
                    } else {
                        OverlayView::NewCollection { name, desc: desc.push(c), field }
                    },
                    ..self
                },
                EffectView::Nothing,
            ),
            _ => (self, EffectView::Nothing),
        }
    }

    /// A key press while the new-request dialog is open. Enter closes it and,
    /// when a name was typed and a collection is selected, asks for the request
    /// to be stored.
    pub open spec fn new_request_key(
        self,
        name: Seq<char>,
        url: Seq<char>,
        m: usize,
        field: u8,
        k: KeyInput,
    ) -> (AppView, EffectView) {
        let keep = |name: Seq<char>, url: Seq<char>, m: usize, field: u8|
            AppView {
                overlay: OverlayView::NewRequest { name, url, method_idx: m, field },
                ..self
            };
        match k.code {
            Key::Esc => (AppView { overlay: OverlayView::Closed, ..self }, EffectView::Nothing),
            Key::Tab => (keep(name, url, m, ((field + 1) % 3) as u8), EffectView::Nothing),
            Key::Enter => (
                AppView { overlay: OverlayView::Closed, ..self },
                if name.len() > 0 {
                    match self.sel_collection_id() {
                        Some(cid) => EffectView::CreateRequest {
                            collection_id: cid,
                            name,
                            method: method_at(m as int),
                            url,
                        },
                        None => EffectView::Nothing,
                    }
                } else {
                    EffectView::Nothing
                },
            ),
            Key::Left => (
                keep(
                    name,
                    url,
                    if field == 1 {
                        if m == 0 {
                            (METHOD_COUNT - 1) as usize
                        } else {
                            (m - 1) as usize
                        }
                    } else {
                        m
                    },
                    field,
                ),
                EffectView::Nothing,
            ),
            Key::Right => (
                keep(
                    name,
                    url,
                    if field == 1 {
                        ((m + 1) % (METHOD_COUNT as int)) as usize
                    } else {
                        m
                    },
                    field,
                ),
                EffectView::Nothing,
            ),
            Key::Backspace => (
                if field == 0 {
                    keep(pop_text(name), url, m, field)
                } else if field == 2 {
                    keep(name, pop_text(url), m, field)
                } else {
                    keep(name, url, m, field)
                },
                EffectView::Nothing,
            ),
            Key::Char(c) => (
                if field == 0 {
                    keep(name.push(c), url, m, field)
                } else if field == 2 {
                    keep(name, url.push(c), m, field)
                } else {
                    keep(name, url, m, field)
                },
                EffectView::Nothing,
            ),
            _ => (keep(name, url, m, field), EffectView::Nothing),
        }
    }

    /// A key press while a delete confirmation is open: Enter deletes the
    /// currently selected item, Esc or `n` cancels.
    pub open spec fn confirm_delete_key(self, target: DeleteTarget, k: KeyInput) -> (
        AppView,
        EffectView,
    ) {
        match k.code {
            Key::Enter => (
                AppView { overlay: OverlayView::Closed, ..self },
                match target {
                    DeleteTarget::Collection(_) => match self.coll_sel {
                        Some(i) => EffectView::DeleteCollection {
                            collection_id: self.collections[i as int].collection_id,
                        },
                        None => EffectView::Nothing,
                    },
                    DeleteTarget::Request(_) => match self.selected_request() {
                        Some(idx) => EffectView::DeleteRequest {
                            request_id: self.requests[idx].request_id,
                        },
                        None => EffectView::Nothing,
                    },
                },
            ),
            Key::Esc => (AppView { overlay: OverlayView::Closed, ..self }, EffectView::Nothing),
            Key::Char(c) => if c == 'n' {
                (AppView { overlay: OverlayView::Closed, ..self }, EffectView::Nothing)
            } else {
                (self, EffectView::Nothing)
            },
            _ => (self, EffectView::Nothing),
        }
    }

    /// A key press while typing in the open editor.
    pub open spec fn insert_key(self, k: KeyInput) -> AppView {
        match k.code {
            Key::Esc => AppView { input_mode: InputMode::Normal, ..self },
            Key::Tab => AppView { editor_tab: next_tab(self.editor_tab), ..self },
            Key::Backspace => self.editor_backspace(),
            Key::Down => match self.editor_tab {
                EditorTab::Query => self.query_next_row(),
                EditorTab::Headers => self.header_next_row(),
                _ => self,
            },
            Key::Up => match self.editor_tab {
                EditorTab::Query => self.query_prev_row(),
                EditorTab::Headers => self.header_prev_row(),
                _ => self,
            },
            Key::Right | Key::Left => match self.editor_tab {
                EditorTab::Query => AppView { query_field: other_field(self.query_field), ..self },
                EditorTab::Headers => AppView {
                    header_field: other_field(self.header_field),
                    ..self
                },
                _ => self,
            },
            Key::Char(c) => if c == 'm' && k.ctrl {
                AppView {
                    method_idx: ((self.method_idx + 1) % (METHOD_COUNT as int)) as usize,
                    ..self
                }
            } else {
                self.editor_push(c)
            },
            Key::Enter => match self.editor_tab {
                EditorTab::Body => AppView { body: self.body.push('\n'), ..self },
                _ => self,
            },
            _ => self,
        }
    }

    /// A key press while navigating the panels.
    pub open spec fn normal_key(self, k: KeyInput) -> (AppView, EffectView) {
        match k.code {
            Key::Char('q') => (self, EffectView::Quit),
            Key::Char('?') => (AppView { overlay: OverlayView::Help, ..self }, EffectView::Nothing),
            Key::Tab => (
                AppView { active_panel: next_panel(self.active_panel), ..self },
                EffectView::Nothing,
            ),
            Key::BackTab => (
                AppView { active_panel: prev_panel(self.active_panel), ..self },
                EffectView::Nothing,
            ),
            Key::Char('j') | Key::Down => (
                match self.active_panel {
                    Panel::Collections => self.coll_next(),
                    Panel::Requests => self.req_next(),
                    Panel::Response => AppView {
                        response_scroll: if self.response_scroll < u16::MAX {
                            (self.response_scroll + 1) as u16
                        } else {
                            self.response_scroll
                        },
                        ..self
                    },
                },
                EffectView::Nothing,
            ),
            Key::Char('k') | Key::Up => (
                match self.active_panel {
                    Panel::Collections => self.coll_prev(),
                    Panel::Requests => self.req_prev(),
                    Panel::Response => AppView {
                        response_scroll: if self.response_scroll > 0 {
                            (self.response_scroll - 1) as u16
                        } else {
                            0
                        },
                        ..self
                    },
                },
                EffectView::Nothing,
            ),
            Key::Char('n') => (
                match self.active_panel {
                    Panel::Collections => AppView {
                        overlay: OverlayView::NewCollection {
                            name: Seq::empty(),
                            desc: Seq::empty(),
                            field: 0,
                        },
                        ..self
                    },
                    Panel::Requests => if self.sel_collection_id() is Some {
                        AppView {
                            overlay: OverlayView::NewRequest {
                                name: Seq::empty(),
                                url: Seq::empty(),
                                method_idx: 0,
                                field: 0,
                            },
                            ..self
                        }
                    } else {
                        self
                    },
                    Panel::Response => self,
                },
                EffectView::Nothing,
            ),
            Key::Char('d') => (
                match self.active_panel {
                    Panel::Collections => match self.sel_collection_id() {
                        Some(id) => AppView {
                            overlay: OverlayView::ConfirmDelete {
                                target: DeleteTarget::Collection(id),
                            },
                            ..self
                        },
                        None => self,
                    },
                    Panel::Requests => match self.selected_request() {
                        Some(idx) => AppView {
                            overlay: OverlayView::ConfirmDelete {
                                target: DeleteTarget::Request(self.requests[idx].request_id),
                            },
                            ..self
                        },
                        None => self,
                    },
                    Panel::Response => self,
                },
                EffectView::Nothing,
            ),
            Key::Char('e') if self.active_panel == Panel::Requests => (
                self.load_request(),
                EffectView::Nothing,
            ),
            Key::Enter if self.active_panel == Panel::Requests => (
                self.load_request(),
                EffectView::Nothing,
            ),
            Key::Char('s') => {
                let v1 = if !self.editor_open {
                    self.load_request()
                } else {
                    self
                };
                (AppView { active_panel: Panel::Response, ..v1 }, EffectView::Send(v1.send_plan()))
            },
            Key::Char('i') if self.editor_open => (
                AppView { input_mode: InputMode::Insert, ..self },
                EffectView::Nothing,
            ),
            _ => (self, EffectView::Nothing),
        }
    }

    /// What one key press does: the new state and the outside work it asks for.
    /// An open dialog takes every key; then the editor in insert mode; then navigation.
    pub open spec fn key_step(self, k: KeyInput) -> (AppView, EffectView) {
        match self.overlay {
            OverlayView::Help => (AppView { overlay: OverlayView::Closed, ..self }, EffectView::Nothing),
            OverlayView::NewCollection { name, desc, field } => self.new_collection_key(
                name,
                desc,
                field,
                k,
            ),
            OverlayView::NewRequest { name, url, method_idx, field } => self.new_request_key(
                name,
                url,
                method_idx,
                field,
                k,
            ),
            OverlayView::ConfirmDelete { target } => self.confirm_delete_key(target, k),
            OverlayView::Closed => if self.input_mode == InputMode::Insert && self.editor_open {
                (self.insert_key(k), EffectView::Nothing)
            } else {
                self.normal_key(k)
            },
        }
    }

    /// After storing a new collection: the reloaded list with its last entry
    /// selected, or the database error in the status line.
    pub open spec fn finish_create_collection(
        self,
        name: Seq<char>,
        outcome: Result<Seq<CollectionView>, Seq<char>>,
    ) -> AppView {
        match outcome {
            Err(e) => AppView { status_line: "DB error: "@ + e, ..self },
            Ok(cs) => AppView {
                collections: cs,
                coll_sel: Some(
                    if cs.len() == 0 {
                        0
                    } else {
                        (cs.len() - 1) as usize
                    },
                ),
                status_line: "Collection '"@ + name + "' created"@,
                ..self
            },
        }
    }

    /// After storing a new request: the reloaded requests with the last one of
    /// the selected collection selected, or the database error.
    pub open spec fn finish_create_request(
        self,
        name: Seq<char>,
        outcome: Result<Seq<RequestView>, Seq<char>>,
    ) -> AppView {
        match outcome {
            Err(e) => AppView { status_line: "DB error: "@ + e, ..self },
            Ok(rs) => {
                let v1 = AppView { requests: rs, ..self };
                let count = v1.visible().len();
                AppView {
                    req_sel: Some(
                        if count == 0 {
                            0
                        } else {
                            (count - 1) as usize
                        },
                    ),
                    status_line: "Request '"@ + name + "' created"@,
                    ..v1
                }
            },
        }
    }

    /// After deleting the selected collection: the reloaded lists, the
    /// selection kept in place or moved onto the new last entry, or the database error.
    pub open spec fn finish_delete_collection(
        self,
        outcome: Result<(Seq<CollectionView>, Seq<RequestView>), Seq<char>>,
    ) -> AppView {
        match outcome {
            Err(e) => AppView { status_line: "DB error: "@ + e, ..self },
            Ok((cs, rs)) => {
                let i: int = match self.coll_sel {
                    Some(i) => i as int,
                    None => 0,
                };
                let last: int = if cs.len() == 0 {
                    0
                } else {
                    cs.len() - 1
                };
                AppView {
                    collections: cs,
                    requests: rs,
                    coll_sel: if cs.len() == 0 {
                        None
                    } else {
                        Some(
                            if i < last {
                                i as usize
                            } else {
                                last as usize
                            },
                        )
                    },
                    req_sel: Some(0),
                    status_line: "Collection deleted"@,
                    ..self
                }
            },
        }
    }

    /// After deleting the selected request: the reloaded requests with the
    /// selection kept in place or moved onto the new last one, or the database error.
    pub open spec fn finish_delete_request(self, outcome: Result<Seq<RequestView>, Seq<char>>) -> AppView {
        match outcome {
            Err(e) => AppView { status_line: "DB error: "@ + e, ..self },
            Ok(rs) => {
                let v1 = AppView { requests: rs, ..self };
                let n = v1.visible().len();
                let i: int = match self.req_sel {
                    Some(i) => i as int,
                    None => 0,
                };
                AppView {
                    req_sel: if n == 0 {
                        None
                    } else {
                        Some(
                            if i < n - 1 {
                                i as usize
                            } else {
                                (n - 1) as usize
                            },
                        )
                    },
                    status_line: "Request deleted"@,
                    ..v1
                }
            },
        }
    }

    /// The response panel after an exchange: the report, or the failure text.
    pub open spec fn show_response(self, shown: Result<(ResponsePartsView, Seq<char>), Seq<char>>) -> AppView {
        match shown {
            Ok((p, body)) => AppView {
                response_text: report_text(p, body),
                response_scroll: 0,
                status_line: "Sent "@ + method_at(self.method_idx as int) + " "@ + self.url,
                ..self
            },
            Err(e) => AppView {
                response_text: "REQUEST FAILED\n\n"@ + e,
                response_scroll: 0,
                status_line: "ERROR: "@ + method_at(self.method_idx as int) + " failed"@,
                ..self
            },
        }
    }

    /// The response panel after an exchange whose raw outcome is given: a body
    /// that is not JSON makes the exchange fail.
    pub open spec fn finish_send(self, outcome: Result<ResponsePartsView, Seq<char>>) -> AppView {
        self.show_response(
            match outcome {
                Ok(p) => match json_pretty_text(p.raw_text) {
                    Ok(b) => Ok((p, b)),
                    Err(e) => Err(e),
                },
                Err(e) => Err(e),
            },
        )
    }
}

} // verus!
