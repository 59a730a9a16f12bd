//! Recorded exchanges: the request as it was received, the response as the
//! upstream gave it, and the pair of both that the log keeps.

use vstd::prelude::*;
use vstd::string::*;

verus! {

/// The file that the log is flushed to.
pub const PROXY_LOG_FILE: &'static str = "replay_mocks.json";

/// View of a list of header pairs: names and values as character sequences,
/// in the order of the list.
pub open spec fn headers_view(headers: Seq<(String, String)>) -> Seq<(Seq<char>, Seq<char>)> {
    Seq::new(headers.len(), |i: int| (headers[i].0@, headers[i].1@))
}

/// View of an optional text.
pub open spec fn text_view(text: Option<String>) -> Option<Seq<char>> {
    match text {
        Some(t) => Some(t@),
        None => None,
    }
}

/// A request as it was received.
#[derive(Debug, PartialEq, Clone)]
pub struct RequestLog {
    pub timestamp: u64,
    pub method: String,
    pub path: String,
    pub query_params: Option<String>,
    pub headers: Vec<(String, String)>,
    pub body: Option<String>,
}

/// What a recorded request holds, as plain mathematical values.
pub struct RequestLogView {
    pub timestamp: u64,
    pub method: Seq<char>,
    pub path: Seq<char>,
    pub query_params: Option<Seq<char>>,
    pub headers: Seq<(Seq<char>, Seq<char>)>,
    pub body: Option<Seq<char>>,
}

/// A response as the upstream gave it.
#[derive(Debug, PartialEq, Clone)]
pub struct ResponseLog {
    pub status: u16,
    pub headers: Vec<(String, String)>,
    pub body: Option<String>,
}

/// What a recorded response holds, as plain mathematical values.
pub struct ResponseLogView {
    pub status: u16,
    pub headers: Seq<(Seq<char>, Seq<char>)>,
    pub body: Option<Seq<char>>,
}

/// One recorded exchange.
#[derive(Debug, PartialEq, Clone)]
pub struct ProxyLog {
    pub request: RequestLog,
    pub response: ResponseLog,
}

/// What a recorded exchange holds, as plain mathematical values.
pub struct ProxyLogView {
    pub request: RequestLogView,
    pub response: ResponseLogView,
}

impl View for RequestLog {
    type V = RequestLogView;

    open spec fn view(&self) -> RequestLogView {
        RequestLogView {
            timestamp: self.timestamp,
            method: self.method@,
            path: self.path@,
            query_params: text_view(self.query_params),
            headers: headers_view(self.headers@),
            body: text_view(self.body),
        }
    }
}

impl View for ResponseLog {
    type V = ResponseLogView;

    open spec fn view(&self) -> ResponseLogView {
        ResponseLogView {
            status: self.status,
            headers: headers_view(self.headers@),
            body: text_view(self.body),
        }
    }
}

impl View for ProxyLog {
    type V = ProxyLogView;

    open spec fn view(&self) -> ProxyLogView {
        ProxyLogView { request: self.request@, response: self.response@ }
    }
}

/// Copies an optional text.
pub fn copy_text(text: &Option<String>) -> (copy: Option<String>)
    ensures
        text_view(copy) == text_view(*text),
{
    match text {
        Some(t) => Some(t.clone()),
        None => None,
    }
}

/// Copies a list of header pairs.
pub fn copy_headers(headers: &Vec<(String, String)>) -> (copy: Vec<(String, String)>)
    ensures
        headers_view(copy@) == headers_view(headers@),
{
    let mut copy: Vec<(String, String)> = Vec::new();
    let mut i: usize = 0;
    while i < headers.len()
        invariant
            i <= headers.len(),
            copy.len() == i,
            forall|j: int|
                0 <= j < i ==> copy[j].0@ == headers[j].0@ && copy[j].1@ == headers[j].1@,
        decreases headers.len() - i,
    {
        let pair = &headers[i];
        copy.push((pair.0.clone(), pair.1.clone()));
        i = i + 1;
    }
    assert(headers_view(copy@) =~= headers_view(headers@));
    copy
}

impl RequestLog {
    /// Copies the request.
    pub fn duplicate(&self) -> (copy: RequestLog)
        ensures
            copy@ == self@,
    {
        RequestLog {
            timestamp: self.timestamp,
            method: self.method.clone(),
            path: self.path.clone(),
            query_params: copy_text(&self.query_params),
            headers: copy_headers(&self.headers),
            body: copy_text(&self.body),
        }
    }
}

impl ResponseLog {
    /// Copies the response.
    pub fn duplicate(&self) -> (copy: ResponseLog)
        ensures
            copy@ == self@,
    {
        ResponseLog {
            status: self.status,
            headers: copy_headers(&self.headers),
            body: copy_text(&self.body),
        }
    }
}

impl ProxyLog {
    /// Copies the exchange.
    pub fn duplicate(&self) -> (copy: ProxyLog)
        ensures
            copy@ == self@,
    {
        ProxyLog { request: self.request.duplicate(), response: self.response.duplicate() }
    }
}

} // verus!
