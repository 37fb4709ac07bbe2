//! Requests and replies as plain values.
//!
//! The library never touches the network. It describes the request that should be
//! sent, and is handed what came back; whoever drives it performs the exchange.

use crate::json::{json_model, Json};
use vstd::prelude::*;

verus! {

#[derive(Debug, Clone, Copy, PartialEq, Eq, Structural)]
pub enum HttpMethod {
    Get,
    Post,
}

/// A request to be sent. `form` holds the text parts of a multipart body and
/// `json` a document to be sent as the body; at most one of the two is used.
/// `timeout_secs` is how long to wait for the answer, where the wait is limited.
#[derive(Debug)]
pub struct HttpRequest {
    pub method: HttpMethod,
    pub url: String,
    pub headers: Vec<(String, String)>,
    pub query: Vec<(String, String)>,
    pub form: Vec<(String, String)>,
    pub json: Option<serde_json::Value>,
    pub timeout_secs: Option<u64>,
}

pub struct HttpRequestView {
    pub method: HttpMethod,
    pub url: Seq<char>,
    pub headers: Seq<(Seq<char>, Seq<char>)>,
    pub query: Seq<(Seq<char>, Seq<char>)>,
    pub form: Seq<(Seq<char>, Seq<char>)>,
    pub json: Option<Json>,
    pub timeout_secs: Option<u64>,
}

impl View for HttpRequest {
    type V = HttpRequestView;

    open spec fn view(&self) -> HttpRequestView {
        HttpRequestView {
            method: self.method,
            url: self.url@,
            headers: self.headers.deep_view(),
            query: self.query.deep_view(),
            form: self.form.deep_view(),
            json: match self.json {
                Some(doc) => Some(json_model(doc)),
                None => None,
            },
            timeout_secs: self.timeout_secs,
        }
    }
}

impl DeepView for HttpRequest {
    type V = HttpRequestView;

    open spec fn deep_view(&self) -> HttpRequestView {
        self.view()
    }
}

/// What came of a request: a reply with its status and body, or the reason why
/// no reply arrived.
#[derive(Debug)]
pub enum HttpOutcome {
    Reply { status: u16, body: String },
    Failed { reason: String },
}

pub enum HttpOutcomeView {
    Reply { status: u16, body: Seq<char> },
    Failed { reason: Seq<char> },
}

impl View for HttpOutcome {
    type V = HttpOutcomeView;

    open spec fn view(&self) -> HttpOutcomeView {
        match self {
            HttpOutcome::Reply { status, body } => HttpOutcomeView::Reply {
                status: *status,
                body: body@,
            },
            HttpOutcome::Failed { reason } => HttpOutcomeView::Failed { reason: reason@ },
        }
    }
}

impl DeepView for HttpOutcome {
    type V = HttpOutcomeView;

    open spec fn deep_view(&self) -> HttpOutcomeView {
        self.view()
    }
}

/// What a caller reports when it comes back to a step function: that there is
/// nothing to report (the operation begins, or a display or a pause that was asked
/// for is done), or what came of the request that the last step asked for.
#[derive(Debug)]
pub enum Event {
    Proceed,
    Replied(HttpOutcome),
}

pub enum EventView {
    Proceed,
    Replied(HttpOutcomeView),
}

impl View for Event {
    type V = EventView;

    open spec fn view(&self) -> EventView {
        match self {
            Event::Proceed => EventView::Proceed,
            Event::Replied(outcome) => EventView::Replied(outcome@),
        }
    }
}

/// A result with both of its sides seen through their views.
pub open spec fn result_view<T: DeepView, E: DeepView>(r: Result<T, E>) -> Result<T::V, E::V> {
    match r {
        Ok(value) => Ok(value.deep_view()),
        Err(error) => Err(error.deep_view()),
    }
}

/// A status in the range that HTTP reserves for success.
pub open spec fn is_success(status: u16) -> bool {
    200 <= status < 300
}

/// Whether `status` reports success.
pub fn status_is_success(status: u16) -> (r: bool)
    ensures
        r == is_success(status),
{
    200 <= status && status < 300
}

/// A name with its value, as a header, a query parameter or a form part.
pub fn pair(name: &str, value: &str) -> (r: (String, String))
    ensures
        r.deep_view() == (name@, value@),
{
    (String::from_str(name), String::from_str(value))
}

} // verus!
