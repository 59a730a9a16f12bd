//! The capture side: what is sent to the upstream for a request that came
//! in, what is recorded of the exchange, and what goes back to the caller.

use vstd::prelude::*;
use vstd::string::*;

use crate::headers::{
    as_recorded, capture_can_send_status, is_status_code, record_headers, sift, sifted, HeaderRule,
};
use crate::message::{
    plain_response, ForwardRequest, ForwardRequestView, InboundRequest, InboundRequestView, Method,
    OutboundResponse, OutboundResponseView, UpstreamResponse, UpstreamResponseView, UpstreamTarget,
    UpstreamTargetView,
};
use crate::proxy::{
    copy_text, ProxyLog, ProxyLogView, RequestLog, RequestLogView, ResponseLog, ResponseLogView,
};
use crate::store::{recorded, LogStore};
use crate::target::{default_port, implied_port};
use crate::text::{bytes_to_text, decimal, decimal_text, same_str, text_of};

verus! {

/// Seconds after which a forwarded request is given up.
pub const FORWARD_TIMEOUT_SECS: u64 = 30;

/// The forwarded method that a method name stands for. The names are the
/// upper-case ones; any other name stands for none.
pub open spec fn method_of(name: Seq<char>) -> Option<Method> {
    if name == seq!['G', 'E', 'T'] {
        Some(Method::Get)
    } else if name == seq!['P', 'O', 'S', 'T'] {
        Some(Method::Post)
    } else if name == seq!['P', 'U', 'T'] {
        Some(Method::Put)
    } else if name == seq!['D', 'E', 'L', 'E', 'T', 'E'] {
        Some(Method::Delete)
    } else if name == seq!['H', 'E', 'A', 'D'] {
        Some(Method::Head)
    } else if name == seq!['O', 'P', 'T', 'I', 'O', 'N', 'S'] {
        Some(Method::Options)
    } else if name == seq!['P', 'A', 'T', 'C', 'H'] {
        Some(Method::Patch)
    } else {
        None
    }
}

/// Finds the forwarded method that a method name stands for.
pub fn parse_method(name: &str) -> (method: Option<Method>)
    ensures
        method == method_of(name@),
{
    proof {
        reveal_strlit("GET");
        reveal_strlit("POST");
        reveal_strlit("PUT");
        reveal_strlit("DELETE");
        reveal_strlit("HEAD");
        reveal_strlit("OPTIONS");
        reveal_strlit("PATCH");
        assert("GET"@ =~= seq!['G', 'E', 'T']);
        assert("POST"@ =~= seq!['P', 'O', 'S', 'T']);
        assert("PUT"@ =~= seq!['P', 'U', 'T']);
        assert("DELETE"@ =~= seq!['D', 'E', 'L', 'E', 'T', 'E']);
        assert("HEAD"@ =~= seq!['H', 'E', 'A', 'D']);
        assert("OPTIONS"@ =~= seq!['O', 'P', 'T', 'I', 'O', 'N', 'S']);
        assert("PATCH"@ =~= seq!['P', 'A', 'T', 'C', 'H']);
    }
    if same_str(name, "GET") {
        Some(Method::Get)
    } else if same_str(name, "POST") {
        Some(Method::Post)
    } else if same_str(name, "PUT") {
        Some(Method::Put)
    } else if same_str(name, "DELETE") {
        Some(Method::Delete)
    } else if same_str(name, "HEAD") {
        Some(Method::Head)
    } else if same_str(name, "OPTIONS") {
        Some(Method::Options)
    } else if same_str(name, "PATCH") {
        Some(Method::Patch)
    } else {
        None
    }
}

/// The port as it stands in a forward address: nothing where it is the port
/// that the scheme implies, else a colon and the port's numeral.
pub open spec fn port_part(target: UpstreamTargetView) -> Seq<char> {
    if target.port == default_port(target.scheme) {
        Seq::empty()
    } else {
        seq![':'] + decimal(target.port as nat)
    }
}

/// The query as it stands in a forward address: a question mark and the
/// query where the request has one, even an empty one.
pub open spec fn query_part(query: Option<Seq<char>>) -> Seq<char> {
    match query {
        Some(q) => seq!['?'] + q,
        None => Seq::empty(),
    }
}

/// The address that a request is forwarded to: scheme, `://`, host, port
/// part, the request's path and its query part.
pub open spec fn forward_address(
    target: UpstreamTargetView,
    path: Seq<char>,
    query: Option<Seq<char>>,
) -> Seq<char> {
    target.scheme + seq![':', '/', '/'] + target.host + port_part(target) + path + query_part(
        query,
    )
}

/// Builds the address that a request is forwarded to.
pub fn forward_uri(target: &UpstreamTarget, path: &str, query: &Option<String>) -> (url: String)
    ensures
        url@ == forward_address(target@, path@, crate::proxy::text_view(*query)),
{
    proof {
        reveal_strlit("://");
        reveal_strlit(":");
        reveal_strlit("?");
    }
    let mut url = target.scheme.clone();
    url.append("://");
    url.append(target.host.as_str());
    if target.port != implied_port(target.scheme.as_str()) {
        url.append(":");
        let numeral = decimal_text(target.port as u64);
        url.append(numeral.as_str());
    }
    url.append(path);
    match query {
        Some(q) => {
            url.append("?");
            url.append(q.as_str());
        },
        None => {},
    }
    assert("://"@ =~= seq![':', '/', '/']);
    assert(":"@ =~= seq![':']);
    assert("?"@ =~= seq!['?']);
    assert(url@ =~= forward_address(target@, path@, crate::proxy::text_view(*query)));
    url
}

/// The body that is forwarded: the request's body unless that is empty.
pub open spec fn forward_body(body: Seq<u8>) -> Option<Seq<u8>> {
    if body.len() > 0 {
        Some(body)
    } else {
        None
    }
}

/// The request that is sent to the upstream for an inbound request of a
/// forwarded method.
pub open spec fn forwarded(
    request: InboundRequestView,
    target: UpstreamTargetView,
    method: Method,
) -> ForwardRequestView {
    ForwardRequestView {
        method,
        url: forward_address(target, request.path, request.query),
        headers: sifted(HeaderRule::Forward, as_recorded(request.headers)),
        body: forward_body(request.body),
    }
}

/// What has to happen next for a request that came in.
#[derive(Debug, PartialEq, Clone)]
pub enum CaptureStep {
    /// Send this to the upstream.
    Forward(ForwardRequest),
    /// Answer the caller with this; the upstream is not contacted.
    Respond(OutboundResponse),
}

/// The answer to a request of a method that is not forwarded.
pub open spec fn bad_request() -> OutboundResponseView {
    plain_response(400, "Bad Request: Unsupported Method"@)
}

/// The answer when a body could not be read or a response could not be built.
pub open spec fn internal_error() -> OutboundResponseView {
    plain_response(500, "Internal Server Error"@)
}

/// The answer when the upstream could not be reached.
pub open spec fn bad_gateway(reason: Seq<char>) -> OutboundResponseView {
    plain_response(502, "Bad Gateway: "@ + reason)
}

/// Makes the answer for a body that could not be read or a response that
/// could not be built.
pub fn internal_error_response() -> (response: OutboundResponse)
    ensures
        response@ == internal_error(),
{
    OutboundResponse::plain(500, "Internal Server Error")
}

/// Makes the answer for an upstream that could not be reached.
pub fn bad_gateway_response(reason: &str) -> (response: OutboundResponse)
    ensures
        response@ == bad_gateway(reason@),
{
    let mut text = String::from_str("Bad Gateway: ");
    text.append(reason);
    OutboundResponse::plain(502, text.as_str())
}

/// Decides what to do with a request that came in: forward it where its
/// method is one of the forwarded ones, else answer 400 at once.
pub fn begin_capture(request: &InboundRequest, target: &UpstreamTarget) -> (step: CaptureStep)
    ensures
        match method_of(request@.method) {
            Some(method) => step matches CaptureStep::Forward(forward) && forward@ == forwarded(
                request@,
                target@,
                method,
            ),
            None => step matches CaptureStep::Respond(response) && response@ == bad_request(),
        },
{
    match parse_method(request.method.as_str()) {
        Some(method) => {
            let recorded_headers = record_headers(&request.headers);
            let body = if request.body.len() > 0 {
                Some(request.body.clone())
            } else {
                None
            };
            CaptureStep::Forward(
                ForwardRequest {
                    method,
                    url: forward_uri(target, request.path.as_str(), &request.query),
                    headers: sift(HeaderRule::Forward, &recorded_headers),
                    body,
                },
            )
        },
        None => CaptureStep::Respond(
            OutboundResponse::plain(400, "Bad Request: Unsupported Method"),
        ),
    }
}

/// How the forwarding of a request ended.
#[derive(Debug, PartialEq, Clone)]
pub enum UpstreamOutcome {
    /// The upstream answered, and its answer was read in full.
    Answered(UpstreamResponse),
    /// The request could not be sent or timed out; the text says why.
    Unreachable(String),
    /// The upstream answered, but the body of its answer could not be read.
    BodyLost,
}

/// What is recorded of an exchange: the request as it came in, stamped with
/// the time at which its handling began, and the upstream's response; each
/// body as text where it is text.
pub open spec fn captured(
    request: InboundRequestView,
    timestamp: u64,
    response: UpstreamResponseView,
) -> ProxyLogView {
    ProxyLogView {
        request: RequestLogView {
            timestamp,
            method: request.method,
            path: request.path,
            query_params: request.query,
            headers: as_recorded(request.headers),
            body: text_of(request.body),
        },
        response: ResponseLogView {
            status: response.status,
            headers: as_recorded(response.headers),
            body: text_of(response.body),
        },
    }
}

/// The two headers that close every returned response: the length of its
/// body, and the notice that the connection ends with it.
pub open spec fn closing_headers(body_len: nat) -> Seq<(Seq<char>, Seq<char>)> {
    seq![("content-length"@, decimal(body_len)), ("connection"@, "close"@)]
}

/// What goes back to the caller for an upstream response: its status, its
/// headers as the return rule sifts them followed by the closing headers,
/// and its body; the internal error where its status cannot be sent.
pub open spec fn returned(response: UpstreamResponseView) -> OutboundResponseView {
    if is_status_code(response.status) {
        OutboundResponseView {
            status: response.status,
            headers: sifted(HeaderRule::Return, as_recorded(response.headers)) + closing_headers(
                response.body.len(),
            ),
            body: response.body,
        }
    } else {
        internal_error()
    }
}

/// Assembles the record of an exchange.
pub fn capture_entry(
    request: &InboundRequest,
    timestamp: u64,
    response: &UpstreamResponse,
) -> (entry: ProxyLog)
    ensures
        entry@ == captured(request@, timestamp, response@),
{
    ProxyLog {
        request: RequestLog {
            timestamp,
            method: request.method.clone(),
            path: request.path.clone(),
            query_params: copy_text(&request.query),
            headers: record_headers(&request.headers),
            body: bytes_to_text(&request.body),
        },
        response: ResponseLog {
            status: response.status,
            headers: record_headers(&response.headers),
            body: bytes_to_text(&response.body),
        },
    }
}

/// Builds what goes back to the caller for an upstream response.
pub fn return_response(response: &UpstreamResponse) -> (outbound: OutboundResponse)
    ensures
        outbound@ == returned(response@),
{
    if !capture_can_send_status(response.status) {
        return internal_error_response();
    }
    let recorded_headers = record_headers(&response.headers);
    let mut headers = sift(HeaderRule::Return, &recorded_headers);
    let ghost sifted_headers = crate::proxy::headers_view(headers@);
    headers.push(
        (String::from_str("content-length"), decimal_text(response.body.len() as u64)),
    );
    headers.push((String::from_str("connection"), String::from_str("close")));
    let outbound = OutboundResponse {
        status: response.status,
        headers,
        body: response.body.clone(),
    };
    assert(outbound@.headers =~= sifted_headers + closing_headers(response@.body.len()));
    outbound
}

/// Ends the handling of a forwarded request. Where the upstream answered,
/// the exchange is offered to the log, which keeps it unless it holds one of
/// the same identity already, and the answer goes back to the caller. Where
/// it did not, the log stays as it is and the caller gets 502, or 500 for an
/// answer whose body could not be read.
pub fn finish_capture(
    store: &mut LogStore,
    request: &InboundRequest,
    timestamp: u64,
    outcome: &UpstreamOutcome,
) -> (outbound: OutboundResponse)
    ensures
        match *outcome {
            UpstreamOutcome::Answered(response) => {
                &&& final(store)@ == recorded(old(store)@, captured(request@, timestamp, response@))
                &&& outbound@ == returned(response@)
            },
            UpstreamOutcome::Unreachable(reason) => {
                &&& final(store)@ == old(store)@
                &&& outbound@ == bad_gateway(reason@)
            },
            UpstreamOutcome::BodyLost => {
                &&& final(store)@ == old(store)@
                &&& outbound@ == internal_error()
            },
        },
        old(store).wf() ==> final(store).wf(),
{
    match outcome {
        UpstreamOutcome::Answered(response) => {
            let entry = capture_entry(request, timestamp, response);
            store.insert_if_absent(entry);
            return_response(response)
        },
        UpstreamOutcome::Unreachable(reason) => bad_gateway_response(reason.as_str()),
        UpstreamOutcome::BodyLost => internal_error_response(),
    }
}

} // verus!
