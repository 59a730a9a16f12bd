//! The messages that pass through the two servers, as plain values: what
//! came in, what is sent to the upstream, what it answered, and what goes
//! back to the caller.

use vstd::prelude::*;
use vstd::string::*;

use crate::proxy::headers_view;

verus! {

/// The methods that the capture side forwards.
#[derive(Clone, Copy, Debug, PartialEq, Eq, Structural)]
pub enum Method {
    Get,
    Post,
    Put,
    Delete,
    Head,
    Options,
    Patch,
}

/// Where requests are forwarded to.
#[derive(Debug, PartialEq, Clone)]
pub struct UpstreamTarget {
    pub scheme: String,
    pub host: String,
    pub port: u16,
}

/// What an upstream target holds, as plain mathematical values.
pub struct UpstreamTargetView {
    pub scheme: Seq<char>,
    pub host: Seq<char>,
    pub port: u16,
}

impl View for UpstreamTarget {
    type V = UpstreamTargetView;

    open spec fn view(&self) -> UpstreamTargetView {
        UpstreamTargetView { scheme: self.scheme@, host: self.host@, port: self.port }
    }
}

/// A header as it came off the wire: its name, and its value where that can
/// be read as text.
pub type WireHeader = (String, Option<String>);

/// View of a list of headers off the wire.
pub open spec fn wire_view(headers: Seq<WireHeader>) -> Seq<(Seq<char>, Option<Seq<char>>)> {
    Seq::new(
        headers.len(),
        |i: int|
            (
                headers[i].0@,
                match headers[i].1 {
                    Some(v) => Some(v@),
                    None => None,
                },
            ),
    )
}

/// A request that came in on the capture side, its body read in full.
#[derive(Debug, PartialEq, Clone)]
pub struct InboundRequest {
    pub method: String,
    pub path: String,
    pub query: Option<String>,
    pub headers: Vec<WireHeader>,
    pub body: Vec<u8>,
}

/// What an inbound request holds, as plain mathematical values.
pub struct InboundRequestView {
    pub method: Seq<char>,
    pub path: Seq<char>,
    pub query: Option<Seq<char>>,
    pub headers: Seq<(Seq<char>, Option<Seq<char>>)>,
    pub body: Seq<u8>,
}

impl View for InboundRequest {
    type V = InboundRequestView;

    open spec fn view(&self) -> InboundRequestView {
        InboundRequestView {
            method: self.method@,
            path: self.path@,
            query: crate::proxy::text_view(self.query),
            headers: wire_view(self.headers@),
            body: self.body@,
        }
    }
}

/// The request that is sent to the upstream.
#[derive(Debug, PartialEq, Clone)]
pub struct ForwardRequest {
    pub method: Method,
    pub url: String,
    pub headers: Vec<(String, String)>,
    pub body: Option<Vec<u8>>,
}

/// What a forward request holds, as plain mathematical values.
pub struct ForwardRequestView {
    pub method: Method,
    pub url: Seq<char>,
    pub headers: Seq<(Seq<char>, Seq<char>)>,
    pub body: Option<Seq<u8>>,
}

impl View for ForwardRequest {
    type V = ForwardRequestView;

    open spec fn view(&self) -> ForwardRequestView {
        ForwardRequestView {
            method: self.method,
            url: self.url@,
            headers: headers_view(self.headers@),
            body: match self.body {
                Some(b) => Some(b@),
                None => None,
            },
        }
    }
}

/// What the upstream answered, its body read in full.
#[derive(Debug, PartialEq, Clone)]
pub struct UpstreamResponse {
    pub status: u16,
    pub headers: Vec<WireHeader>,
    pub body: Vec<u8>,
}

/// What an upstream response holds, as plain mathematical values.
pub struct UpstreamResponseView {
    pub status: u16,
    pub headers: Seq<(Seq<char>, Option<Seq<char>>)>,
    pub body: Seq<u8>,
}

impl View for UpstreamResponse {
    type V = UpstreamResponseView;

    open spec fn view(&self) -> UpstreamResponseView {
        UpstreamResponseView {
            status: self.status,
            headers: wire_view(self.headers@),
            body: self.body@,
        }
    }
}

/// The response that goes back to the caller, on either side.
#[derive(Debug, PartialEq, Clone)]
pub struct OutboundResponse {
    pub status: u16,
    pub headers: Vec<(String, String)>,
    pub body: Vec<u8>,
}

/// What an outbound response holds, as plain mathematical values.
pub struct OutboundResponseView {
    pub status: u16,
    pub headers: Seq<(Seq<char>, Seq<char>)>,
    pub body: Seq<u8>,
}

impl View for OutboundResponse {
    type V = OutboundResponseView;

    open spec fn view(&self) -> OutboundResponseView {
        OutboundResponseView {
            status: self.status,
            headers: headers_view(self.headers@),
            body: self.body@,
        }
    }
}

/// A response of the given status, without headers, whose body is `text`.
pub open spec fn plain_response(status: u16, text: Seq<char>) -> OutboundResponseView {
    OutboundResponseView {
        status,
        headers: Seq::empty(),
        body: vstd::utf8::encode_utf8(text),
    }
}

impl OutboundResponse {
    /// Makes a response of the given status, without headers, whose body is
    /// `text`.
    pub fn plain(status: u16, text: &str) -> (response: OutboundResponse)
        ensures
            response@ == plain_response(status, text@),
    {
        let response = OutboundResponse { status, headers: Vec::new(), body: text.as_bytes_vec() };
        assert(response@.headers =~= Seq::empty());
        response
    }
}

} // verus!
