//! What a key press does to the client, proved against `AppView::key_step`.

use vstd::prelude::*;
use crate::app::App;
use crate::methods::{METHOD_COUNT, method_name, next_method, prev_method};
use crate::model::{DeleteTarget, EditorTab, Effect, InputMode, Key, KeyInput, KvField, Overlay, OverlayView, Panel};
use crate::state::AppView;
use crate::headers::HEADER_MAP_ROOM;
use crate::laws::{lemma_key_step_keeps_wf, lemma_quit_only_on_q};
use crate::text::{pop_char, push_char};

verus! {

impl App {
    /// Index into `requests` of the selected request of the request list.
    pub fn selected_request_index(&self) -> (r: Option<usize>)
        ensures
            match r {
                Some(i) => self@.selected_request() == Some(i as int) && i < self.requests@.len(),
                None => self@.selected_request() is None,
            },
    {
        let visible = self.requests_for_selected();
        match self.req_sel {
            Some(i) => if i < visible.len() {
                Some(visible[i])
            } else {
                None
            },
            None => None,
        }
    }

    /// A key for the new-collection dialog, whose content was taken out of `overlay`.
    fn on_new_collection_key(&mut self, name: String, desc: String, field: u8, key: KeyInput) -> (r:
        Effect)
        requires
            old(self).overlay is Closed,
            field <= 1,
        ensures
            ({
                let v = AppView {
                    overlay: OverlayView::NewCollection { name: name@, desc: desc@, field },
                    ..old(self)@
                };
                (final(self)@, r@) == v.new_collection_key(name@, desc@, field, key)
            }),
    {
        let mut name = name;
        let mut desc = desc;
        match key.code {
            Key::Esc => Effect::Nothing,
            Key::Tab => {
                self.overlay = Overlay::NewCollection { name, desc, field: 1 - field };
                Effect::Nothing
            },
            Key::Enter => {
                if !name.as_str().is_empty() {
                    Effect::CreateCollection { name, desc }
                } else {
                    Effect::Nothing
                }
            },
            Key::Backspace => {
                if field == 0 {
                    pop_char(&mut name);
                } else {
                    pop_char(&mut desc);
                }
                self.overlay = Overlay::NewCollection { name, desc, field };
                Effect::Nothing
            },
            Key::Char(c) => {
                if field == 0 {
                    push_char(&mut name, c);
                } else {
                    push_char(&mut desc, c);
                }
                self.overlay = Overlay::NewCollection { name, desc, field };
                Effect::Nothing
            },
            _ => {
                self.overlay = Overlay::NewCollection { name, desc, field };
                Effect::Nothing
            },
        }
    }

    /// A key for the new-request dialog, whose content was taken out of `overlay`.
    fn on_new_request_key(
        &mut self,
        name: String,
        url: String,
        method_idx: usize,
        field: u8,
        key: KeyInput,
    ) -> (r: Effect)
        requires
            old(self).overlay is Closed,
            old(self)@.wf(),
            method_idx < METHOD_COUNT,
            field < 3,
        ensures
            ({
                let v = AppView {
                    overlay: OverlayView::NewRequest { name: name@, url: url@, method_idx, field },
                    ..old(self)@
                };
                (final(self)@, r@) == v.new_request_key(name@, url@, method_idx, field, key)
            }),
    {
        let mut name = name;
        let mut url = url;
        let mut m = method_idx;
        let mut f = field;
        match key.code {
            Key::Esc => {
                return Effect::Nothing;
            },
            Key::Tab => {
                f = (f + 1) % 3;
            },
            Key::Enter => {
                if !name.as_str().is_empty() {
                    match self.selected_collection_id() {
                        Some(cid) => {
                            return Effect::CreateRequest {
                                collection_id: cid,
                                name,
                                method: String::from_str(method_name(m)),
                                url,
                            };
                        },
                        None => {},
                    }
                }
                return Effect::Nothing;
            },
            Key::Left => {
                if f == 1 {
                    m = prev_method(m);
                }
            },
            Key::Right => {
                if f == 1 {
                    m = next_method(m);
                }
            },
            Key::Backspace => {
                if f == 0 {
                    pop_char(&mut name);
                } else if f == 2 {
                    pop_char(&mut url);
                }
            },
            Key::Char(c) => {
                if f == 0 {
                    push_char(&mut name, c);
                } else if f == 2 {
                    push_char(&mut url, c);
                }
            },
            _ => {},
        }
        self.overlay = Overlay::NewRequest { name, url, method_idx: m, field: f };
        Effect::Nothing
    }

    /// A key for the delete confirmation, whose target was taken out of `overlay`.
    fn on_confirm_delete_key(&mut self, target: DeleteTarget, key: KeyInput) -> (r: Effect)
        requires
            old(self).overlay is Closed,
            old(self)@.wf(),
            target is Collection && key.code == Key::Enter ==> (old(self).coll_sel matches Some(i)
                ==> i < old(self).collections@.len()),
        ensures
            ({
                let v = AppView { overlay: OverlayView::ConfirmDelete { target }, ..old(self)@ };
                (final(self)@, r@) == v.confirm_delete_key(target, key)
            }),
    {
        match key.code {
            Key::Enter => match target {
                DeleteTarget::Collection(_) => match self.coll_sel {
                    Some(i) => Effect::DeleteCollection {
                        collection_id: self.collections[i].collection_id,
                    },
                    None => Effect::Nothing,
                },
                DeleteTarget::Request(_) => match self.selected_request_index() {
                    Some(idx) => Effect::DeleteRequest {
                        request_id: self.requests[idx].request_id,
                    },
                    None => Effect::Nothing,
                },
            },
            Key::Esc => Effect::Nothing,
            Key::Char(c) => {
                if c != 'n' {
                    self.overlay = Overlay::ConfirmDelete { target };
                }
                Effect::Nothing
            },
            _ => {
                self.overlay = Overlay::ConfirmDelete { target };
                Effect::Nothing
            },
        }
    }

    /// A key while typing in the open editor.
    fn on_insert_key(&mut self, key: KeyInput)
        requires
            old(self)@.wf(),
            key.code == Key::Down && old(self).editor_tab == EditorTab::Query ==> old(
                self,
            ).query_row < usize::MAX,
            key.code == Key::Down && old(self).editor_tab == EditorTab::Headers ==> old(
                self,
            ).header_row < usize::MAX,
        ensures
            final(self)@ == old(self)@.insert_key(key),
    {
        match key.code {
            Key::Esc => {
                self.input_mode = InputMode::Normal;
            },
            Key::Tab => {
                self.editor_tab = match self.editor_tab {
                    EditorTab::Url => EditorTab::Query,
                    EditorTab::Query => EditorTab::Headers,
                    EditorTab::Headers => EditorTab::Body,
                    EditorTab::Body => EditorTab::Url,
                };
            },
            Key::Backspace => self.editor_backspace(),
            Key::Down => match self.editor_tab {
                EditorTab::Query => self.query_next_row(),
                EditorTab::Headers => self.header_next_row(),
                _ => {},
            },
            Key::Up => match self.editor_tab {
                EditorTab::Query => self.query_prev_row(),
                EditorTab::Headers => self.header_prev_row(),
                _ => {},
            },
            Key::Right | Key::Left => match self.editor_tab {
                EditorTab::Query => {
                    self.query_field = match self.query_field {
                        KvField::Key => KvField::Value,
                        KvField::Value => KvField::Key,
                    };
                },
                EditorTab::Headers => {
                    self.header_field = match self.header_field {
                        KvField::Key => KvField::Value,
                        KvField::Value => KvField::Key,
                    };
                },
                _ => {},
            },
            Key::Char(c) => {
                if c == 'm' && key.ctrl {
                    self.method_idx = next_method(self.method_idx);
                } else {
                    self.editor_push(c);
                }
            },
            Key::Enter => match self.editor_tab {
                EditorTab::Body => push_char(&mut self.body, '\n'),
                _ => {},
            },
            _ => {},
        }
    }

    /// A key while navigating the panels.
    fn on_normal_key(&mut self, key: KeyInput) -> (r: Effect)
        requires
            old(self)@.wf(),
            old(self).overlay is Closed,
            key.code == Key::Char('s') ==> old(self)@.sending_view().headers.len()
                <= HEADER_MAP_ROOM,
        ensures
            (final(self)@, r@) == old(self)@.normal_key(key),
    {
        let code = key.code;
        if code == Key::Char('q') {
            Effect::Quit
        } else if code == Key::Char('?') {
            self.overlay = Overlay::Help;
            Effect::Nothing
        } else if code == Key::Tab {
            self.active_panel = match self.active_panel {
                Panel::Collections => Panel::Requests,
                Panel::Requests => Panel::Response,
                Panel::Response => Panel::Collections,
            };
            Effect::Nothing
        } else if code == Key::BackTab {
            self.active_panel = match self.active_panel {
                Panel::Collections => Panel::Response,
                Panel::Requests => Panel::Collections,
                Panel::Response => Panel::Requests,
            };
            Effect::Nothing
        } else if code == Key::Char('j') || code == Key::Down {
            match self.active_panel {
                Panel::Collections => self.coll_next(),
                Panel::Requests => self.req_next(),
                Panel::Response => {
                    self.response_scroll = self.response_scroll.saturating_add(1);
                },
            }
            Effect::Nothing
        } else if code == Key::Char('k') || code == Key::Up {
            match self.active_panel {
                Panel::Collections => self.coll_prev(),
                Panel::Requests => self.req_prev(),
                Panel::Response => {
                    self.response_scroll = self.response_scroll.saturating_sub(1);
                },
            }
            Effect::Nothing
        } else if code == Key::Char('n') {
            match self.active_panel {
                Panel::Collections => {
                    self.overlay = Overlay::NewCollection {
                        name: String::new(),
                        desc: String::new(),
                        field: 0,
                    };
                },
                Panel::Requests => {
                    if self.selected_collection_id().is_some() {
                        self.overlay = Overlay::NewRequest {
                            name: String::new(),
                            url: String::new(),
                            method_idx: 0,
                            field: 0,
                        };
                    }
                },
                Panel::Response => {},
            }
            Effect::Nothing
        } else if code == Key::Char('d') {
            match self.active_panel {
                Panel::Collections => {
                    if let Some(id) = self.selected_collection_id() {
                        self.overlay = Overlay::ConfirmDelete {
                            target: DeleteTarget::Collection(id),
                        };
                    }
                },
                Panel::Requests => {
                    if let Some(idx) = self.selected_request_index() {
                        self.overlay = Overlay::ConfirmDelete {
                            target: DeleteTarget::Request(self.requests[idx].request_id),
                        };
                    }
                },
                Panel::Response => {},
            }
            Effect::Nothing
        } else if (code == Key::Char('e') || code == Key::Enter) && self.active_panel
            == Panel::Requests {
            self.load_request_into_editor();
            Effect::Nothing
        } else if code == Key::Char('s') {
            if !self.editor_open {
                self.load_request_into_editor();
            }
            let plan = self.send_plan();
            self.active_panel = Panel::Response;
            Effect::Send(plan)
        } else if code == Key::Char('i') && self.editor_open {
            self.input_mode = InputMode::Insert;
            Effect::Nothing
        } else {
            Effect::Nothing
        }
    }

    /// Whether `key` would send more header rows than a header map is sure to take.
    pub fn sends_too_many_headers(&self, key: KeyInput) -> (r: bool)
        ensures
            r == self@.sends_too_many_headers(key),
    {
        match self.overlay {
            Overlay::Closed => {},
            _ => {
                return false;
            },
        }
        if (self.input_mode == InputMode::Insert && self.editor_open) || key.code != Key::Char('s') {
            return false;
        }
        if self.editor_open {
            return self.headers.len() > HEADER_MAP_ROOM;
        }
        match self.selected_request_index() {
            None => self.headers.len() > HEADER_MAP_ROOM,
            Some(i) => match &self.requests[i].headers {
                Some(h) => h.len() > HEADER_MAP_ROOM,
                None => false,
            },
        }
    }

    /// Whether `key` would move a row index of the editor past `usize::MAX`.
    pub fn row_overflows(&self, key: KeyInput) -> (r: bool)
        ensures
            r == self@.row_overflows(key),
    {
        match self.overlay {
            Overlay::Closed => {},
            _ => {
                return false;
            },
        }
        if !(self.input_mode == InputMode::Insert && self.editor_open && key.code == Key::Down) {
            return false;
        }
        match self.editor_tab {
            EditorTab::Query => self.query_row == usize::MAX,
            EditorTab::Headers => self.header_row == usize::MAX,
            _ => false,
        }
    }

    /// Applies one key press: returns the outside work it asks for, which the
    /// caller performs and reports back through the matching `finish_` method.
    pub fn handle_key(&mut self, key: KeyInput) -> (r: Effect)
        requires
            old(self)@.wf(),
            !old(self)@.row_overflows(key),
            !old(self)@.sends_too_many_headers(key),
            !old(self)@.key_faults(key),
        ensures
            (final(self)@, r@) == old(self)@.key_step(key),
            final(self)@.wf(),
            r is Quit <==> (old(self).overlay is Closed && !(old(self).input_mode
                == InputMode::Insert && old(self).editor_open) && key.code == Key::Char('q')),
            r is Quit ==> final(self)@ == old(self)@,
    {
        proof {
            lemma_key_step_keeps_wf(self@, key);
            lemma_quit_only_on_q(self@, key);
        }
        let mut overlay = Overlay::Closed;
        std::mem::swap(&mut overlay, &mut self.overlay);
        match overlay {
            Overlay::Help => Effect::Nothing,
            Overlay::NewCollection { name, desc, field } => self.on_new_collection_key(
                name,
                desc,
                field,
                key,
            ),
            Overlay::NewRequest { name, url, method_idx, field } => self.on_new_request_key(
                name,
                url,
                method_idx,
                field,
                key,
            ),
            Overlay::ConfirmDelete { target } => self.on_confirm_delete_key(target, key),
            Overlay::Closed => {
                if self.input_mode == InputMode::Insert && self.editor_open {
                    self.on_insert_key(key);
                    Effect::Nothing
                } else {
                    self.on_normal_key(key)
                }
            },
        }
    }
}

} // verus!
