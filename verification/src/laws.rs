//! Properties of the client as a whole, proved over the model in `state`.

use vstd::prelude::*;
use crate::model::{CollectionView, EditorTab, EffectView, InputMode, Key, KeyInput, KvField, OverlayView, Panel, RequestView};
use crate::params::query_pairs;
use crate::methods::method_at;
use crate::state::{AppView, matching, next_panel, next_tab, other_field, prev_panel};

verus! {

/// The request list never holds more entries than there are requests.
pub proof fn lemma_matching_len(reqs: Seq<RequestView>, id: i64, n: nat)
    ensures
        matching(reqs, id, n).len() <= n,
    decreases n,
{
    if n > 0 {
        lemma_matching_len(reqs, id, (n - 1) as nat);
    }
}

/// The request list is never longer than the list of all requests.
pub proof fn lemma_visible_len(v: AppView)
    ensures
        v.visible().len() <= v.requests.len(),
{
    if let Some(id) = v.sel_collection_id() {
        lemma_matching_len(v.requests, id, v.requests.len());
    }
}

proof fn lemma_load_keeps_wf(v: AppView)
    requires
        v.wf(),
    ensures
        v.load_request().wf(),
{
    crate::methods::lemma_method_position_bound(v.requests[v.selected_request().unwrap_or(0)].method);
}

proof fn lemma_insert_keeps_wf(v: AppView, k: KeyInput)
    requires
        v.wf(),
    ensures
        v.insert_key(k).wf(),
{
}

proof fn lemma_normal_keeps_wf(v: AppView, k: KeyInput)
    requires
        v.wf(),
        v.overlay is Closed,
    ensures
        v.normal_key(k).0.wf(),
{
    lemma_visible_len(v);
    match k.code {
        Key::Char(c) => {
            if c == 'e' || c == 's' {
                lemma_load_keeps_wf(v);
            }
        },
        Key::Enter => {
            lemma_load_keeps_wf(v);
        },
        _ => {},
    }
}

proof fn lemma_new_collection_keeps_wf(v: AppView, k: KeyInput)
    requires
        v.wf(),
        v.overlay is NewCollection,
    ensures
        v.key_step(k).0.wf(),
{
}

proof fn lemma_new_request_keeps_wf(v: AppView, k: KeyInput)
    requires
        v.wf(),
        v.overlay is NewRequest,
    ensures
        v.key_step(k).0.wf(),
{
}

proof fn lemma_dialog_keeps_wf(v: AppView, k: KeyInput)
    requires
        v.wf(),
        !(v.overlay is Closed),
    ensures
        v.key_step(k).0.wf(),
{
    if v.overlay is NewCollection {
        lemma_new_collection_keeps_wf(v, k);
    } else if v.overlay is NewRequest {
        lemma_new_request_keeps_wf(v, k);
    }
}

/// Every key press keeps the invariant: the method indices stay in the cycle,
/// dialog fields stay in range, and each selection points into its list (or
/// is the first position of an empty one).
pub proof fn lemma_key_step_keeps_wf(v: AppView, k: KeyInput)
    requires
        v.wf(),
    ensures
        v.key_step(k).0.wf(),
{
    if v.overlay is Closed {
        if v.input_mode == InputMode::Insert && v.editor_open {
            lemma_insert_keeps_wf(v, k);
        } else {
            lemma_normal_keeps_wf(v, k);
        }
    } else {
        lemma_dialog_keeps_wf(v, k);
    }
}

/// One step forward in a cycle of `len` positions.
pub proof fn lemma_wrap_step(i: int, len: int)
    requires
        0 <= i < len,
    ensures
        (i + 1) % len == if i + 1 == len {
            0
        } else {
            i + 1
        },
{
    if i + 1 == len {
        vstd::arithmetic::div_mod::lemma_mod_self_0(len);
    } else {
        vstd::arithmetic::div_mod::lemma_small_mod((i + 1) as nat, len as nat);
    }
}

/// Down then up in the collection list comes back to the same collection, and
/// so does up then down; both moves put the request selection on the first request.
pub proof fn lemma_collection_moves_undo(v: AppView)
    requires
        v.wf(),
        0 < v.collections.len() <= usize::MAX,
        (v.coll_sel is Some),
    ensures
        v.coll_next().coll_prev() == (AppView { req_sel: Some(0), ..v }),
        v.coll_prev().coll_next() == (AppView { req_sel: Some(0), ..v }),
{
    let i = v.coll_sel.unwrap() as int;
    let len = v.collections.len() as int;
    lemma_wrap_step(i, len);
    let p = if i == 0 { len - 1 } else { i - 1 };
    lemma_wrap_step(p, len);
}

/// Down then up in the request list comes back to the same request, and so does
/// up then down, when a request of the list is selected.
pub proof fn lemma_request_moves_undo(v: AppView)
    requires
        v.requests.len() <= usize::MAX,
        (v.req_sel matches Some(i) && i < v.visible().len()),
    ensures
        v.req_next().req_prev() == v,
        v.req_prev().req_next() == v,
{
    lemma_visible_len(v);
    let i = v.req_sel.unwrap() as int;
    let len = v.visible().len() as int;
    lemma_wrap_step(i, len);
    let p = if i == 0 { len - 1 } else { i - 1 };
    lemma_wrap_step(p, len);
    assert(v.req_next().visible() == v.visible());
    assert(v.req_prev().visible() == v.visible());
}

/// Backspace right after typing a character gives back the editor as it was,
/// whenever the character went into a field.
pub proof fn lemma_backspace_undoes_typing(v: AppView, c: char)
    requires
        match v.editor_tab {
            EditorTab::Url | EditorTab::Body => true,
            EditorTab::Query => v.query_row < v.query_params.len(),
            EditorTab::Headers => v.header_row < v.headers.len(),
        },
    ensures
        v.editor_push(c).editor_backspace() == v,
{
    let w = v.editor_push(c);
    match v.editor_tab {
        EditorTab::Url => {
            assert(w.editor_backspace().url =~= v.url);
        },
        EditorTab::Body => {
            assert(w.editor_backspace().body =~= v.body);
        },
        EditorTab::Query => {
            let r = v.query_params[v.query_row as int];
            assert(r.0.push(c).drop_last() =~= r.0);
            assert(r.1.push(c).drop_last() =~= r.1);
            assert(w.editor_backspace().query_params =~= v.query_params);
        },
        EditorTab::Headers => {
            let r = v.headers[v.header_row as int];
            assert(r.0.push(c).drop_last() =~= r.0);
            assert(r.1.push(c).drop_last() =~= r.1);
            assert(w.editor_backspace().headers =~= v.headers);
        },
    }
}

/// Tab visits the four editor tabs and is back after four presses; the panel
/// cycle has three steps, and BackTab undoes Tab; Right switches between key
/// and value and back.
pub proof fn lemma_cycles(t: EditorTab, p: Panel, f: KvField)
    ensures
        next_tab(next_tab(next_tab(next_tab(t)))) == t,
        next_tab(t) != t,
        next_panel(next_panel(next_panel(p))) == p,
        prev_panel(next_panel(p)) == p,
        next_panel(prev_panel(p)) == p,
        other_field(other_field(f)) == f,
        other_field(f) != f,
{
}

/// The help dialog closes on any key, and the key does nothing else.
pub proof fn lemma_help_closes_on_any_key(v: AppView, k: KeyInput)
    requires
        v.overlay is Help,
    ensures
        v.key_step(k) == (AppView { overlay: OverlayView::Closed, ..v }, EffectView::Nothing),
{
}

/// While navigating, `?` opens the help and the next key, whatever it is,
/// leaves the client exactly as it was before `?`.
pub proof fn lemma_help_round_trip(v: AppView, k1: KeyInput, k2: KeyInput)
    requires
        v.overlay is Closed,
        !(v.input_mode == InputMode::Insert && v.editor_open),
        k1.code == Key::Char('?'),
    ensures
        v.key_step(k1).0.overlay is Help,
        v.key_step(k1).0.key_step(k2).0 == v,
{
}

/// While a dialog is open it takes every key: nothing but the dialog changes.
pub proof fn lemma_dialogs_take_every_key(v: AppView, k: KeyInput)
    requires
        v.overlay != OverlayView::Closed,
    ensures
        v.key_step(k).0 == (AppView { overlay: v.key_step(k).0.overlay, ..v }),
{
}

/// Esc closes any dialog and asks for nothing.
pub proof fn lemma_escape_closes_dialogs(v: AppView, k: KeyInput)
    requires
        v.overlay != OverlayView::Closed,
        k.code == Key::Esc,
    ensures
        v.key_step(k) == (AppView { overlay: OverlayView::Closed, ..v }, EffectView::Nothing),
{
}

/// Only `q`, pressed while navigating, leaves the program, and it changes nothing.
pub proof fn lemma_quit_only_on_q(v: AppView, k: KeyInput)
    ensures
        v.key_step(k).1 is Quit <==> (v.overlay is Closed && !(v.input_mode == InputMode::Insert
            && v.editor_open) && k.code == Key::Char('q')),
        v.key_step(k).1 is Quit ==> v.key_step(k).0 == v,
{
}

/// Typing in the open editor never asks for outside work, and touches neither
/// the lists, the selections, the dialogs, the panels nor the response.
pub proof fn lemma_insert_mode_stays_local(v: AppView, k: KeyInput)
    requires
        v.overlay is Closed,
        v.input_mode == InputMode::Insert,
        v.editor_open,
    ensures
        v.key_step(k).1 is Nothing,
        ({
            let w = v.key_step(k).0;
            &&& w.collections == v.collections
            &&& w.requests == v.requests
            &&& w.coll_sel == v.coll_sel
            &&& w.req_sel == v.req_sel
            &&& w.overlay == v.overlay
            &&& w.active_panel == v.active_panel
            &&& w.response_text == v.response_text
            &&& w.status_line == v.status_line
            &&& w.editor_open
        }),
{
}

/// Ctrl-M five times in the editor brings back the method it started from.
pub proof fn lemma_method_key_full_cycle(v: AppView, k: KeyInput)
    requires
        v.wf(),
        v.overlay is Closed,
        v.input_mode == InputMode::Insert,
        v.editor_open,
        k.code == Key::Char('m'),
        k.ctrl,
    ensures
        v.key_step(k).0.key_step(k).0.key_step(k).0.key_step(k).0.key_step(k).0.method_idx
            == v.method_idx,
        v.key_step(k).0.method_idx != v.method_idx,
{
}

/// Sending always hands over the editor's request (the selected one, loaded
/// first, when the editor is closed), to the URL as typed, and shows the
/// response panel.
pub proof fn lemma_send_shows_response(v: AppView, k: KeyInput)
    requires
        v.overlay is Closed,
        !(v.input_mode == InputMode::Insert && v.editor_open),
        k.code == Key::Char('s'),
    ensures
        ({
            let e = if v.editor_open { v } else { v.load_request() };
            &&& v.key_step(k).0.active_panel == Panel::Response
            &&& v.key_step(k).1 == EffectView::Send(e.send_plan())
            &&& e.send_plan().baseurl + e.send_plan().endpoint == e.url
            &&& e.send_plan().method_idx == e.method_idx
            &&& e.send_plan().body == e.body
        }),
{
    let e = if v.editor_open { v } else { v.load_request() };
    assert(e.send_plan().baseurl + e.send_plan().endpoint =~= e.url);
}

/// Nothing is deleted without confirmation: a delete is only ever asked for
/// by Enter in the confirmation dialog.
pub proof fn lemma_delete_needs_confirmation(v: AppView, k: KeyInput)
    requires
        v.key_step(k).1 is DeleteCollection || v.key_step(k).1 is DeleteRequest,
    ensures
        v.overlay is ConfirmDelete,
        k.code == Key::Enter,
        v.key_step(k).0.overlay == OverlayView::Closed,
{
}

/// Collections and requests are only created by Enter in their dialog, and
/// only with a non-empty name, the one typed in the dialog.
pub proof fn lemma_create_needs_named_dialog(v: AppView, k: KeyInput)
    ensures
        v.key_step(k).1 matches EffectView::CreateCollection { name, .. } ==> {
            &&& k.code == Key::Enter
            &&& name.len() > 0
            &&& (v.overlay matches OverlayView::NewCollection { name: n, .. } && n == name)
        },
        v.key_step(k).1 matches EffectView::CreateRequest { name, .. } ==> {
            &&& k.code == Key::Enter
            &&& name.len() > 0
            &&& (v.overlay matches OverlayView::NewRequest { name: n, .. } && n == name)
        },
        v.key_step(k).1 matches EffectView::CreateRequest { collection_id, url, .. } ==> {
            &&& v.sel_collection_id() == Some(collection_id)
            &&& (v.overlay matches OverlayView::NewRequest { url: u, .. } && u == url)
        },
        v.key_step(k).1 matches EffectView::CreateRequest { method, .. } ==> (
        v.overlay matches OverlayView::NewRequest { method_idx: m, .. } && method == method_at(
            m as int,
        )),
        v.key_step(k).1 is CreateRequest || v.key_step(k).1 is CreateCollection ==> v.key_step(
            k,
        ).0.overlay == OverlayView::Closed,
{
}

/// A confirmed delete removes what is selected: the selected collection, or
/// the selected request of the request list.
pub proof fn lemma_delete_targets_selection(v: AppView, k: KeyInput)
    requires
        !v.key_faults(k),
    ensures
        v.key_step(k).1 matches EffectView::DeleteCollection { collection_id } ==> v.sel_collection_id()
            == Some(collection_id),
        v.key_step(k).1 matches EffectView::DeleteRequest { request_id } ==> (v.selected_request()
            matches Some(i) && v.requests[i].request_id == request_id),
{
}

/// Loading a request starts a fresh query table: one empty row, so nothing
/// is sent as a query right after loading.
pub proof fn lemma_load_resets_query(v: AppView)
    requires
        v.selected_request() is Some,
    ensures
        v.load_request().query_params.len() == 1,
        v.load_request().query_params[0].0.len() == 0,
        v.load_request().query_params[0].1.len() == 0,
        v.load_request().send_plan().query.len() == 0,
        v.load_request().editor_open,
        v.load_request().editor_tab == EditorTab::Url,
        v.load_request().url == v.requests[v.selected_request().unwrap()].url,
        v.requests[v.selected_request().unwrap()].headers matches Some(h) ==> v.load_request().headers
            == h,
        v.requests[v.selected_request().unwrap()].headers is None ==> v.load_request().headers.len()
            == 1,
        v.load_request().collections == v.collections && v.load_request().requests == v.requests,
        v.load_request().coll_sel == v.coll_sel && v.load_request().req_sel == v.req_sel,
{
    let q = v.load_request().query_params;
    assert(q.drop_last() =~= Seq::<(Seq<char>, Seq<char>)>::empty());
    assert(query_pairs(q.drop_last()) =~= Seq::empty());
    assert(query_pairs(q) == query_pairs(q.drop_last()));
}

/// Typing in the open editor's Query or Headers tab appends the character to
/// the selected half (key or value) of the current row and to nothing else;
/// a tab without a current row stays as it is.
pub proof fn lemma_typing_edits_current_row(v: AppView, c: char, ctrl: bool)
    requires
        v.overlay is Closed,
        v.input_mode == InputMode::Insert,
        v.editor_open,
        v.editor_tab == EditorTab::Query || v.editor_tab == EditorTab::Headers,
        !(c == 'm' && ctrl),
    ensures
        ({
            let w = v.key_step(KeyInput { code: Key::Char(c), ctrl }).0;
            let (rows, row, field, new_rows) = if v.editor_tab == EditorTab::Query {
                (v.query_params, v.query_row, v.query_field, w.query_params)
            } else {
                (v.headers, v.header_row, v.header_field, w.headers)
            };
            &&& w.url == v.url && w.body == v.body
            &&& v.editor_tab == EditorTab::Query ==> w.headers == v.headers
            &&& v.editor_tab == EditorTab::Headers ==> w.query_params == v.query_params
            &&& new_rows.len() == rows.len()
            &&& forall|j: int| 0 <= j < rows.len() && j != row ==> new_rows[j] == rows[j]
            &&& row < rows.len() && field == KvField::Key ==> new_rows[row as int] == (
                rows[row as int].0.push(c),
                rows[row as int].1,
            )
            &&& row < rows.len() && field == KvField::Value ==> new_rows[row as int] == (
                rows[row as int].0,
                rows[row as int].1.push(c),
            )
            &&& row >= rows.len() ==> new_rows == rows
        }),
{
}

/// Typing in the open editor's URL or Body tab appends the character to that
/// text and leaves the other untouched; Backspace there removes the last
/// character, if any.
pub proof fn lemma_typing_edits_focused_text(v: AppView, c: char, ctrl: bool)
    requires
        v.overlay is Closed,
        v.input_mode == InputMode::Insert,
        v.editor_open,
        v.editor_tab == EditorTab::Url || v.editor_tab == EditorTab::Body,
        !(c == 'm' && ctrl),
    ensures
        ({
            let w = v.key_step(KeyInput { code: Key::Char(c), ctrl }).0;
            &&& v.editor_tab == EditorTab::Body ==> w.body == v.body.push(c) && w.url == v.url
            &&& v.editor_tab == EditorTab::Url ==> w.url == v.url.push(c) && w.body == v.body
            &&& w.headers == v.headers && w.query_params == v.query_params
        }),
        ({
            let w = v.key_step(KeyInput { code: Key::Backspace, ctrl }).0;
            &&& v.editor_tab == EditorTab::Body ==> w.url == v.url && (v.body.len() > 0 ==> w.body
                == v.body.drop_last()) && (v.body.len() == 0 ==> w.body == v.body)
            &&& v.editor_tab == EditorTab::Url ==> w.body == v.body && (v.url.len() > 0 ==> w.url
                == v.url.drop_last()) && (v.url.len() == 0 ==> w.url == v.url)
        }),
{
}

/// After a collection is created the reloaded list's last entry, the newest
/// collection, is the selected one.
pub proof fn lemma_created_collection_selected(
    v: AppView,
    name: Seq<char>,
    cs: Seq<CollectionView>,
)
    requires
        0 < cs.len() <= usize::MAX,
    ensures
        v.finish_create_collection(name, Ok(cs)).sel_collection_id() == Some(
            cs.last().collection_id,
        ),
{
}

/// After the selected collection is deleted some collection is still
/// selected, as long as any is left, and the first of its requests is selected.
pub proof fn lemma_deleted_collection_keeps_a_selection(
    v: AppView,
    cs: Seq<CollectionView>,
    rs: Seq<RequestView>,
)
    requires
        cs.len() <= usize::MAX,
    ensures
        (v.finish_delete_collection(Ok((cs, rs))).sel_collection_id() is Some) == (cs.len() > 0),
        v.finish_delete_collection(Ok((cs, rs))).req_sel == Some(0usize),
{
}

} // verus!
