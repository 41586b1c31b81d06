//! What the library exchanges with whoever carries out its HTTP calls:
//! requests to send and replies to interpret, as plain values.

use vstd::prelude::*;

verus! {

/// The HTTP verbs the updater uses.
#[derive(Debug, Clone, Copy, PartialEq, Eq, Structural)]
pub enum Method {
    Get,
    Put,
}

/// The JSON document sent to overwrite a DNS record.
#[derive(Debug, Clone, PartialEq, Eq)]
pub struct RecordUpdate {
    pub record_type: String,
    pub name: String,
    pub content: String,
    pub ttl: u32,
    pub proxied: bool,
}

pub struct RecordUpdateView {
    pub record_type: Seq<char>,
    pub name: Seq<char>,
    pub content: Seq<char>,
    pub ttl: u32,
    pub proxied: bool,
}

impl View for RecordUpdate {
    type V = RecordUpdateView;

    open spec fn view(&self) -> RecordUpdateView {
        RecordUpdateView {
            record_type: self.record_type@,
            name: self.name@,
            content: self.content@,
            ttl: self.ttl,
            proxied: self.proxied,
        }
    }
}

/// One HTTP request for the caller to carry out.
#[derive(Debug, Clone, PartialEq, Eq)]
pub struct HttpRequest {
    pub method: Method,
    pub url: String,
    /// The bearer token to authenticate with, where the request carries one.
    pub bearer: Option<String>,
    /// The JSON body, where the request carries one.
    pub body: Option<RecordUpdate>,
}

pub struct HttpRequestView {
    pub method: Method,
    pub url: Seq<char>,
    pub bearer: Option<Seq<char>>,
    pub body: Option<RecordUpdateView>,
}

impl View for HttpRequest {
    type V = HttpRequestView;

    open spec fn view(&self) -> HttpRequestView {
        HttpRequestView {
            method: self.method,
            url: self.url@,
            bearer: match self.bearer {
                Some(token) => Some(token@),
                None => None,
            },
            body: match self.body {
                Some(update) => Some(update@),
                None => None,
            },
        }
    }
}

/// How one request ended: without a response, or with a status code and a
/// body.
#[derive(Debug, Clone, PartialEq, Eq)]
pub enum HttpReply {
    Failed { reason: String },
    Response { status: u16, body: String },
}

pub enum HttpReplyView {
    Failed { reason: Seq<char> },
    Response { status: u16, body: Seq<char> },
}

impl View for HttpReply {
    type V = HttpReplyView;

    open spec fn view(&self) -> HttpReplyView {
        match self {
            HttpReply::Failed { reason } => HttpReplyView::Failed { reason: reason@ },
            HttpReply::Response { status, body } => HttpReplyView::Response {
                status: *status,
                body: body@,
            },
        }
    }
}

/// The status codes that report success: 200 to 299.
pub open spec fn is_success(status: u16) -> bool {
    200 <= status < 300
}

/// Whether a status code reports success.
pub fn status_is_success(status: u16) -> (r: bool)
    ensures
        r == is_success(status),
{
    200 <= status && status < 300
}

} // verus!
