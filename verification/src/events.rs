//! Key handling and the completion of outside work: each proved to follow
//! the transitions of `state`.

use vstd::prelude::*;
use crate::app::App;
use crate::json::pretty_json;
use crate::methods::method_name;
use crate::model::{
    ApiRequest, Collection, CollectionView, RequestView, ResponseParts, ResponsePartsView,
    collections_view, requests_view,
};
use crate::state::report_text;

verus! {

/// The view of a reloaded list of collections, or of a database error.
pub open spec fn collections_outcome(o: Result<Vec<Collection>, String>) -> Result<
    Seq<CollectionView>,
    Seq<char>,
> {
    match o {
        Ok(cs) => Ok(collections_view(cs@)),
        Err(e) => Err(e@),
    }
}

/// The view of a reloaded list of requests, or of a database error.
pub open spec fn requests_outcome(o: Result<Vec<ApiRequest>, String>) -> Result<
    Seq<RequestView>,
    Seq<char>,
> {
    match o {
        Ok(rs) => Ok(requests_view(rs@)),
        Err(e) => Err(e@),
    }
}

/// The view of both reloaded lists, or of a database error.
pub open spec fn reload_outcome(o: Result<(Vec<Collection>, Vec<ApiRequest>), String>) -> Result<
    (Seq<CollectionView>, Seq<RequestView>),
    Seq<char>,
> {
    match o {
        Ok((cs, rs)) => Ok((collections_view(cs@), requests_view(rs@))),
        Err(e) => Err(e@),
    }
}

/// The view of a finished exchange, or of its failure.
pub open spec fn response_outcome(o: Result<ResponseParts, String>) -> Result<
    ResponsePartsView,
    Seq<char>,
> {
    match o {
        Ok(p) => Ok(p@),
        Err(e) => Err(e@),
    }
}

/// The view of a report ready to show, or of a failure text.
pub open spec fn shown_outcome(o: Result<(ResponseParts, String), String>) -> Result<
    (ResponsePartsView, Seq<char>),
    Seq<char>,
> {
    match o {
        Ok((p, b)) => Ok((p@, b@)),
        Err(e) => Err(e@),
    }
}

/// `prefix` followed by `s`.
fn prefixed(prefix: &str, s: &str) -> (r: String)
    ensures
        r@ == prefix@ + s@,
{
    let mut r = String::from_str(prefix);
    r.append(s);
    r
}

/// `prefix`, `s`, `suffix`.
fn framed(prefix: &str, s: &str, suffix: &str) -> (r: String)
    ensures
        r@ == prefix@ + s@ + suffix@,
{
    let mut r = String::from_str(prefix);
    r.append(s);
    r.append(suffix);
    r
}

/// The response panel text for a successful exchange.
pub fn response_report(p: &ResponseParts, body: &str) -> (r: String)
    ensures
        r@ == report_text(p@, body@),
{
    let mut r = String::from_str("STATUS\n");
    r.append(p.status.as_str());
    r.append("\n\nRESPONSE TIME\n");
    r.append(p.elapsed.as_str());
    r.append("\n\nFINAL URL\n");
    r.append(p.final_url.as_str());
    r.append("\n\nCONTENT LENGTH\n");
    r.append(p.content_length.as_str());
    r.append("\n\nHTTP VERSION\n");
    r.append(p.version.as_str());
    r.append("\n\nHEADERS\n");
    r.append(p.headers.as_str());
    r.append("\n\nRAW TEXT\n");
    r.append(p.raw_text.as_str());
    r.append("\n\nBODY\n");
    r.append(body);
    r.append("\n");
    r
}

impl App {
    /// After the database stored a new collection: shows the reloaded list with
    /// its last entry selected, or the error.
    pub fn finish_create_collection(&mut self, name: String, outcome: Result<Vec<Collection>, String>)
        requires
            old(self)@.wf(),
        ensures
            final(self)@ == old(self)@.finish_create_collection(name@, collections_outcome(outcome)),
            final(self)@.wf(),
    {
        match outcome {
            Err(e) => {
                self.status_line = prefixed("DB error: ", e.as_str());
            },
            Ok(cs) => {
                let n = cs.len();
                self.collections = cs;
                self.coll_sel = Some(
                    if n == 0 {
                        0
                    } else {
                        n - 1
                    },
                );
                self.status_line = framed("Collection '", name.as_str(), "' created");
            },
        }
    }

    /// After the database stored a new request: shows the reloaded requests with
    /// the last one of the selected collection selected, or the error.
    pub fn finish_create_request(&mut self, name: String, outcome: Result<Vec<ApiRequest>, String>)
        requires
            old(self)@.wf(),
        ensures
            final(self)@ == old(self)@.finish_create_request(name@, requests_outcome(outcome)),
            final(self)@.wf(),
    {
        match outcome {
            Err(e) => {
                self.status_line = prefixed("DB error: ", e.as_str());
            },
            Ok(rs) => {
                self.requests = rs;
                let count = self.requests_for_selected().len();
                self.req_sel = Some(
                    if count == 0 {
                        0
                    } else {
                        count - 1
                    },
                );
                self.status_line = framed("Request '", name.as_str(), "' created");
            },
        }
    }

    /// After the database deleted the selected collection: shows both reloaded
    /// lists, the selection kept in place or moved onto the new last entry.
    pub fn finish_delete_collection(
        &mut self,
        outcome: Result<(Vec<Collection>, Vec<ApiRequest>), String>,
    )
        requires
            old(self)@.wf(),
        ensures
            final(self)@ == old(self)@.finish_delete_collection(reload_outcome(outcome)),
            final(self)@.wf(),
    {
        match outcome {
            Err(e) => {
                self.status_line = prefixed("DB error: ", e.as_str());
            },
            Ok((cs, rs)) => {
                let i = match self.coll_sel {
                    Some(i) => i,
                    None => 0,
                };
                let n = cs.len();
                let last = if n == 0 {
                    0
                } else {
                    n - 1
                };
                self.collections = cs;
                self.requests = rs;
                self.coll_sel = if n == 0 {
                    None
                } else {
                    Some(
                        if i < last {
                            i
                        } else {
                            last
                        },
                    )
                };
                self.req_sel = Some(0);
                self.status_line = String::from_str("Collection deleted");
            },
        }
    }

    /// After the database deleted the selected request: shows the reloaded
    /// requests, the selection kept in place or moved onto the new last one.
    pub fn finish_delete_request(&mut self, outcome: Result<Vec<ApiRequest>, String>)
        requires
            old(self)@.wf(),
        ensures
            final(self)@ == old(self)@.finish_delete_request(requests_outcome(outcome)),
            final(self)@.wf(),
    {
        match outcome {
            Err(e) => {
                self.status_line = prefixed("DB error: ", e.as_str());
            },
            Ok(rs) => {
                let i = match self.req_sel {
                    Some(i) => i,
                    None => 0,
                };
                self.requests = rs;
                let n = self.requests_for_selected().len();
                self.req_sel = if n == 0 {
                    None
                } else {
                    Some(
                        if i < n - 1 {
                            i
                        } else {
                            n - 1
                        },
                    )
                };
                self.status_line = String::from_str("Request deleted");
            },
        }
    }

    /// Shows the outcome of an exchange: the report of a response with its
    /// pretty-printed body, or the failure text.
    pub fn show_response(&mut self, shown: Result<(ResponseParts, String), String>)
        requires
            old(self)@.wf(),
        ensures
            final(self)@ == old(self)@.show_response(shown_outcome(shown)),
            final(self)@.wf(),
    {
        let method = method_name(self.method_idx);
        match shown {
            Ok((p, body)) => {
                self.response_text = response_report(&p, body.as_str());
                let mut status = framed("Sent ", method, " ");
                status.append(self.url.as_str());
                self.status_line = status;
            },
            Err(e) => {
                self.response_text = prefixed("REQUEST FAILED\n\n", e.as_str());
                self.status_line = framed("ERROR: ", method, " failed");
            },
        }
        self.response_scroll = 0;
    }

    /// Shows the outcome of an exchange whose response body must parse as JSON.
    pub fn finish_send(&mut self, outcome: Result<ResponseParts, String>)
        requires
            old(self)@.wf(),
        ensures
            final(self)@ == old(self)@.finish_send(response_outcome(outcome)),
            final(self)@.wf(),
    {
        let shown = match outcome {
            Ok(p) => match pretty_json(p.raw_text.as_str()) {
                Ok(b) => Ok((p, b)),
                Err(e) => Err(e),
            },
            Err(e) => Err(e),
        };
        self.show_response(shown);
    }
}

} // verus!
