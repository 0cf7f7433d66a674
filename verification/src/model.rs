//! The data the client works on, and the mathematical view of each type.

use vstd::prelude::*;
use reqwest::header::{HeaderMap, HeaderValue};
use crate::headers::header_entries;

verus! {

/// A named group of requests, as stored.
#[derive(Debug)]
pub struct Collection {
    pub collection_id: i64,
    pub collection_name: String,
    pub description: Option<String>,
    pub created_at: String,
}

/// The view of a collection.
pub struct CollectionView {
    pub collection_id: i64,
    pub collection_name: Seq<char>,
    pub description: Option<Seq<char>>,
    pub created_at: Seq<char>,
}

pub open spec fn opt_text(s: Option<String>) -> Option<Seq<char>> {
    match s {
        Some(t) => Some(t@),
        None => None,
    }
}

impl View for Collection {
    type V = CollectionView;

    open spec fn view(&self) -> CollectionView {
        CollectionView {
            collection_id: self.collection_id,
            collection_name: self.collection_name@,
            description: opt_text(self.description),
            created_at: self.created_at@,
        }
    }
}

/// A saved request: its collection, name, method, URL, optional header pairs
/// and optional JSON body text.
#[derive(Debug)]
pub struct ApiRequest {
    pub request_id: i64,
    pub collection_id: i64,
    pub request_name: String,
    pub method: String,
    pub url: String,
    pub headers: Option<Vec<(String, String)>>,
    pub body: Option<String>,
}

/// A pair of texts.
pub type TextPair = (Seq<char>, Seq<char>);

/// The views of a list of string pairs.
pub open spec fn pairs_view(q: Seq<(String, String)>) -> Seq<TextPair> {
    q.map_values(|p: (String, String)| (p.0@, p.1@))
}

/// The view of a saved request.
pub struct RequestView {
    pub request_id: i64,
    pub collection_id: i64,
    pub request_name: Seq<char>,
    pub method: Seq<char>,
    pub url: Seq<char>,
    pub headers: Option<Seq<TextPair>>,
    pub body: Option<Seq<char>>,
}

impl View for ApiRequest {
    type V = RequestView;

    open spec fn view(&self) -> RequestView {
        RequestView {
            request_id: self.request_id,
            collection_id: self.collection_id,
            request_name: self.request_name@,
            method: self.method@,
            url: self.url@,
            headers: match self.headers {
                Some(h) => Some(pairs_view(h@)),
                None => None,
            },
            body: opt_text(self.body),
        }
    }
}

/// One editable key/value row of the query or header table.
#[derive(Debug)]
pub struct KvRow {
    pub key: String,
    pub value: String,
}

impl View for KvRow {
    type V = TextPair;

    open spec fn view(&self) -> TextPair {
        (self.key@, self.value@)
    }
}

impl KvRow {
    /// A row with empty key and value.
    pub fn empty() -> (r: KvRow)
        ensures
            r@ == (Seq::<char>::empty(), Seq::<char>::empty()),
    {
        KvRow { key: String::new(), value: String::new() }
    }
}

/// The views of a list of collections.
pub open spec fn collections_view(s: Seq<Collection>) -> Seq<CollectionView> {
    s.map_values(|c: Collection| c@)
}

/// The views of a list of requests.
pub open spec fn requests_view(s: Seq<ApiRequest>) -> Seq<RequestView> {
    s.map_values(|r: ApiRequest| r@)
}

/// The views of a list of rows.
pub open spec fn rows_view(s: Seq<KvRow>) -> Seq<TextPair> {
    s.map_values(|r: KvRow| r@)
}

/// The three panels of the top half of the screen.
#[derive(Clone, Copy, PartialEq, Eq, Structural, Debug)]
pub enum Panel {
    Collections,
    Requests,
    Response,
}

/// The tabs of the request editor.
#[derive(Clone, Copy, PartialEq, Eq, Structural, Debug)]
pub enum EditorTab {
    Url,
    Headers,
    Query,
    Body,
}

/// Which half of a key/value row is being edited.
#[derive(Clone, Copy, PartialEq, Eq, Structural, Debug)]
pub enum KvField {
    Key,
    Value,
}

/// Navigating panels, or typing into the editor.
#[derive(Clone, Copy, PartialEq, Eq, Structural, Debug)]
pub enum InputMode {
    Normal,
    Insert,
}

/// What a confirmation dialog is about to delete.
#[derive(Clone, Copy, PartialEq, Eq, Structural, Debug)]
pub enum DeleteTarget {
    Collection(i64),
    Request(i64),
}

/// The dialog drawn over the panels, if any.
#[derive(Debug)]
pub enum Overlay {
    Closed,
    NewCollection { name: String, desc: String, field: u8 },
    NewRequest { name: String, url: String, method_idx: usize, field: u8 },
    ConfirmDelete { target: DeleteTarget },
    Help,
}

/// The view of a dialog.
pub enum OverlayView {
    Closed,
    NewCollection { name: Seq<char>, desc: Seq<char>, field: u8 },
    NewRequest { name: Seq<char>, url: Seq<char>, method_idx: usize, field: u8 },
    ConfirmDelete { target: DeleteTarget },
    Help,
}

impl View for Overlay {
    type V = OverlayView;

    open spec fn view(&self) -> OverlayView {
        match self {
            Overlay::Closed => OverlayView::Closed,
            Overlay::NewCollection { name, desc, field } => OverlayView::NewCollection {
                name: name@,
                desc: desc@,
                field: *field,
            },
            Overlay::NewRequest { name, url, method_idx, field } => OverlayView::NewRequest {
                name: name@,
                url: url@,
                method_idx: *method_idx,
                field: *field,
            },
            Overlay::ConfirmDelete { target } => OverlayView::ConfirmDelete { target: *target },
            Overlay::Help => OverlayView::Help,
        }
    }
}

/// A key press, as the terminal reports it.
#[derive(Clone, Copy, PartialEq, Eq, Structural, Debug)]
pub enum Key {
    Char(char),
    Enter,
    Esc,
    Tab,
    BackTab,
    Backspace,
    Up,
    Down,
    Left,
    Right,
    Other,
}

/// A key press with the state of the Control modifier.
#[derive(Clone, Copy, PartialEq, Eq, Structural, Debug)]
pub struct KeyInput {
    pub code: Key,
    pub ctrl: bool,
}

/// What the caller must send over HTTP: the method, the URL as a base and an
/// endpoint to join, the query pairs, the header pairs, the body text and
/// whether that text is a JSON document.
#[derive(Debug)]
pub struct SendPlan {
    pub method_idx: usize,
    pub baseurl: String,
    pub endpoint: String,
    pub query: Vec<(String, String)>,
    pub headers: HeaderMap<HeaderValue>,
    pub body: String,
    pub body_is_json: bool,
}

/// The view of a send plan.
pub struct SendPlanView {
    pub method_idx: usize,
    pub baseurl: Seq<char>,
    pub endpoint: Seq<char>,
    pub query: Seq<TextPair>,
    pub headers: Map<Seq<char>, Seq<u8>>,
    pub body: Seq<char>,
    pub body_is_json: bool,
}

impl View for SendPlan {
    type V = SendPlanView;

    open spec fn view(&self) -> SendPlanView {
        SendPlanView {
            method_idx: self.method_idx,
            baseurl: self.baseurl@,
            endpoint: self.endpoint@,
            query: pairs_view(self.query@),
            headers: header_entries(self.headers),
            body: self.body@,
            body_is_json: self.body_is_json,
        }
    }
}

/// The outside work a key press asks for.
#[derive(Debug)]
pub enum Effect {
    /// Nothing beyond the state change.
    Nothing,
    /// Leave the program.
    Quit,
    /// Store a new collection, then report with `finish_create_collection`.
    CreateCollection { name: String, desc: String },
    /// Store a new request, then report with `finish_create_request`.
    CreateRequest { collection_id: i64, name: String, method: String, url: String },
    /// Delete a collection and its requests, then report with `finish_delete_collection`.
    DeleteCollection { collection_id: i64 },
    /// Delete a request, then report with `finish_delete_request`.
    DeleteRequest { request_id: i64 },
    /// Send an HTTP request, then report with `finish_send`.
    Send(SendPlan),
}

/// The view of an effect.
pub enum EffectView {
    Nothing,
    Quit,
    CreateCollection { name: Seq<char>, desc: Seq<char> },
    CreateRequest { collection_id: i64, name: Seq<char>, method: Seq<char>, url: Seq<char> },
    DeleteCollection { collection_id: i64 },
    DeleteRequest { request_id: i64 },
    Send(SendPlanView),
}

impl View for Effect {
    type V = EffectView;

    open spec fn view(&self) -> EffectView {
        match self {
            Effect::Nothing => EffectView::Nothing,
            Effect::Quit => EffectView::Quit,
            Effect::CreateCollection { name, desc } => EffectView::CreateCollection {
                name: name@,
                desc: desc@,
            },
            Effect::CreateRequest { collection_id, name, method, url } =>
                EffectView::CreateRequest {
                collection_id: *collection_id,
                name: name@,
                method: method@,
                url: url@,
            },
            Effect::DeleteCollection { collection_id } => EffectView::DeleteCollection {
                collection_id: *collection_id,
            },
            Effect::DeleteRequest { request_id } => EffectView::DeleteRequest {
                request_id: *request_id,
            },
            Effect::Send(p) => EffectView::Send(p@),
        }
    }
}

/// What came back from an HTTP exchange, each part already written out as
/// text: status, elapsed time, final URL, content length, HTTP version,
/// headers, and the raw body.
#[derive(Debug)]
pub struct ResponseParts {
    pub status: String,
    pub elapsed: String,
    pub final_url: String,
    pub content_length: String,
    pub version: String,
    pub headers: String,
    pub raw_text: String,
}

/// The view of response parts.
pub struct ResponsePartsView {
    pub status: Seq<char>,
    pub elapsed: Seq<char>,
    pub final_url: Seq<char>,
    pub content_length: Seq<char>,
    pub version: Seq<char>,
    pub headers: Seq<char>,
    pub raw_text: Seq<char>,
}

impl View for ResponseParts {
    type V = ResponsePartsView;

    open spec fn view(&self) -> ResponsePartsView {
        ResponsePartsView {
            status: self.status@,
            elapsed: self.elapsed@,
            final_url: self.final_url@,
            content_length: self.content_length@,
            version: self.version@,
            headers: self.headers@,
            raw_text: self.raw_text@,
        }
    }
}

} // verus!
