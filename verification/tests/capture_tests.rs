use replay::capture::{
    bad_gateway_response, begin_capture, capture_entry, finish_capture, forward_uri,
    internal_error_response, parse_method, return_response, CaptureStep, UpstreamOutcome,
};
use replay::message::{
    ForwardRequest, InboundRequest, Method, OutboundResponse, UpstreamResponse, UpstreamTarget,
};
use replay::proxy::{ProxyLog, RequestLog, ResponseLog};
use replay::store::LogStore;

fn target(scheme: &str, host: &str, port: u16) -> UpstreamTarget {
    UpstreamTarget { scheme: scheme.to_string(), host: host.to_string(), port }
}

fn wire(name: &str, value: &str) -> (String, Option<String>) {
    (name.to_string(), Some(value.to_string()))
}

fn pair(name: &str, value: &str) -> (String, String) {
    (name.to_string(), value.to_string())
}

fn inbound(method: &str, path: &str, query: Option<&str>, body: &[u8]) -> InboundRequest {
    InboundRequest {
        method: method.to_string(),
        path: path.to_string(),
        query: query.map(|q| q.to_string()),
        headers: vec![wire("host", "localhost:6677"), wire("accept", "*/*")],
        body: body.to_vec(),
    }
}

fn upstream(status: u16, body: &[u8]) -> UpstreamResponse {
    UpstreamResponse {
        status,
        headers: vec![wire("content-type", "application/json")],
        body: body.to_vec(),
    }
}

#[test]
fn the_seven_methods_are_forwarded() {
    assert_eq!(parse_method("GET"), Some(Method::Get));
    assert_eq!(parse_method("POST"), Some(Method::Post));
    assert_eq!(parse_method("PUT"), Some(Method::Put));
    assert_eq!(parse_method("DELETE"), Some(Method::Delete));
    assert_eq!(parse_method("HEAD"), Some(Method::Head));
    assert_eq!(parse_method("OPTIONS"), Some(Method::Options));
    assert_eq!(parse_method("PATCH"), Some(Method::Patch));
}

#[test]
fn other_methods_are_not_forwarded() {
    assert_eq!(parse_method("TRACE"), None);
    assert_eq!(parse_method("CONNECT"), None);
    assert_eq!(parse_method("get"), None);
    assert_eq!(parse_method("Get"), None);
    assert_eq!(parse_method(""), None);
    assert_eq!(parse_method("GETS"), None);
}

#[test]
fn forward_address_leaves_out_the_port_that_the_scheme_implies() {
    assert_eq!(forward_uri(&target("http", "example.com", 80), "/a", &None), "http://example.com/a");
    assert_eq!(
        forward_uri(&target("https", "example.com", 443), "/a", &None),
        "https://example.com/a"
    );
}

#[test]
fn forward_address_holds_the_default_port_of_the_other_scheme() {
    assert_eq!(
        forward_uri(&target("http", "example.com", 443), "/a", &None),
        "http://example.com:443/a"
    );
    assert_eq!(
        forward_uri(&target("https", "example.com", 80), "/a", &None),
        "https://example.com:80/a"
    );
}

#[test]
fn forward_address_holds_any_other_port() {
    assert_eq!(
        forward_uri(&target("http", "localhost", 8080), "/users/1", &None),
        "http://localhost:8080/users/1"
    );
    assert_eq!(forward_uri(&target("http", "h", 1), "/", &None), "http://h:1/");
    assert_eq!(forward_uri(&target("https", "h", 65535), "/", &None), "https://h:65535/");
    assert_eq!(forward_uri(&target("http", "h", 0), "/", &None), "http://h:0/");
}

#[test]
fn forward_address_holds_the_query() {
    assert_eq!(
        forward_uri(&target("http", "h", 80), "/search", &Some("q=a&r=b".to_string())),
        "http://h/search?q=a&r=b"
    );
    assert_eq!(forward_uri(&target("http", "h", 80), "/x", &Some(String::new())), "http://h/x?");
}

#[test]
fn unsupported_method_is_answered_400_without_forwarding() {
    let step = begin_capture(&inbound("TRACE", "/x", None, b""), &target("http", "h", 80));
    assert_eq!(
        step,
        CaptureStep::Respond(OutboundResponse {
            status: 400,
            headers: vec![],
            body: b"Bad Request: Unsupported Method".to_vec(),
        })
    );
}

#[test]
fn supported_request_is_forwarded() {
    let mut request = inbound("POST", "/items", Some("a=1"), b"{\"n\":1}");
    request.headers = vec![
        wire("Host", "localhost:6677"),
        wire("content-type", "application/json"),
        wire("Connection", "keep-alive"),
        ("x-binary".to_string(), None),
        wire("x-trace", "1"),
        wire("x-trace", "2"),
    ];
    let step = begin_capture(&request, &target("https", "api.example.com", 8443));
    assert_eq!(
        step,
        CaptureStep::Forward(ForwardRequest {
            method: Method::Post,
            url: "https://api.example.com:8443/items?a=1".to_string(),
            headers: vec![
                pair("content-type", "application/json"),
                pair("x-binary", ""),
                pair("x-trace", "1"),
                pair("x-trace", "2"),
            ],
            body: Some(b"{\"n\":1}".to_vec()),
        })
    );
}

#[test]
fn empty_body_is_not_forwarded() {
    let step = begin_capture(&inbound("GET", "/a", None, b""), &target("http", "h", 80));
    match step {
        CaptureStep::Forward(forward) => {
            assert_eq!(forward.body, None);
            assert_eq!(forward.method, Method::Get);
            assert_eq!(forward.url, "http://h/a");
            assert_eq!(forward.headers, vec![pair("accept", "*/*")]);
        }
        CaptureStep::Respond(_) => panic!("a GET must be forwarded"),
    }
}

#[test]
fn entry_records_request_and_response() {
    let request = inbound("POST", "/items", Some("a=1"), b"in");
    let response = upstream(201, b"out");
    assert_eq!(
        capture_entry(&request, 1700000000, &response),
        ProxyLog {
            request: RequestLog {
                timestamp: 1700000000,
                method: "POST".to_string(),
                path: "/items".to_string(),
                query_params: Some("a=1".to_string()),
                headers: vec![pair("host", "localhost:6677"), pair("accept", "*/*")],
                body: Some("in".to_string()),
            },
            response: ResponseLog {
                status: 201,
                headers: vec![pair("content-type", "application/json")],
                body: Some("out".to_string()),
            },
        }
    );
}

#[test]
fn bodies_that_are_no_text_are_recorded_as_absent() {
    let request = inbound("POST", "/bin", None, &[0xff, 0x00]);
    let response = upstream(200, &[0xc3]);
    let entry = capture_entry(&request, 5, &response);
    assert_eq!(entry.request.body, None);
    assert_eq!(entry.response.body, None);
}

#[test]
fn empty_bodies_are_recorded_as_empty_text() {
    let entry = capture_entry(&inbound("GET", "/", None, b""), 5, &upstream(204, b""));
    assert_eq!(entry.request.body, Some(String::new()));
    assert_eq!(entry.response.body, Some(String::new()));
}

#[test]
fn returned_response_closes_with_length_and_connection() {
    let mut response = upstream(200, b"{\"id\":1}");
    response.headers = vec![
        wire("content-type", "application/json"),
        wire("Connection", "keep-alive"),
        wire("transfer-encoding", "chunked"),
        wire("x-a", "1"),
        ("x-raw".to_string(), None),
    ];
    assert_eq!(
        return_response(&response),
        OutboundResponse {
            status: 200,
            headers: vec![
                pair("content-type", "application/json"),
                pair("x-a", "1"),
                pair("x-raw", ""),
                pair("content-length", "8"),
                pair("connection", "close"),
            ],
            body: b"{\"id\":1}".to_vec(),
        }
    );
}

#[test]
fn returned_response_keeps_raw_bytes() {
    let response = upstream(200, &[0xff, 0xfe, 0x00]);
    let outbound = return_response(&response);
    assert_eq!(outbound.body, vec![0xff, 0xfe, 0x00]);
    assert_eq!(outbound.headers[1], pair("content-length", "3"));
}

#[test]
fn status_that_cannot_be_sent_gives_500() {
    assert_eq!(return_response(&upstream(99, b"x")), internal_error_response());
    assert_eq!(return_response(&upstream(1000, b"x")), internal_error_response());
    assert_eq!(return_response(&upstream(999, b"x")).status, 999);
    assert_eq!(return_response(&upstream(100, b"x")).status, 100);
}

#[test]
fn internal_error_is_500_with_fixed_text() {
    assert_eq!(
        internal_error_response(),
        OutboundResponse { status: 500, headers: vec![], body: b"Internal Server Error".to_vec() }
    );
}

#[test]
fn bad_gateway_is_502_with_the_reason() {
    assert_eq!(
        bad_gateway_response("connection refused"),
        OutboundResponse {
            status: 502,
            headers: vec![],
            body: b"Bad Gateway: connection refused".to_vec(),
        }
    );
}

#[test]
fn answered_request_is_recorded_and_returned() {
    let mut store = LogStore::new();
    let request = inbound("GET", "/users/1", None, b"");
    let outcome = UpstreamOutcome::Answered(upstream(200, b"{\"id\":1}"));
    let outbound = finish_capture(&mut store, &request, 7, &outcome);
    assert_eq!(outbound.status, 200);
    assert_eq!(outbound.body, b"{\"id\":1}".to_vec());
    assert_eq!(store.len(), 1);
    assert_eq!(store.entries[0], capture_entry(&request, 7, &upstream(200, b"{\"id\":1}")));
}

#[test]
fn second_capture_of_an_identity_is_discarded_but_answered() {
    let mut store = LogStore::new();
    let first = inbound("POST", "/items", None, b"one");
    let second = inbound("POST", "/items", None, b"two");
    finish_capture(&mut store, &first, 1, &UpstreamOutcome::Answered(upstream(201, b"a")));
    let outbound =
        finish_capture(&mut store, &second, 2, &UpstreamOutcome::Answered(upstream(409, b"b")));
    assert_eq!(outbound.status, 409);
    assert_eq!(outbound.body, b"b".to_vec());
    assert_eq!(store.len(), 1);
    assert_eq!(store.entries[0].request.body, Some("one".to_string()));
    assert_eq!(store.entries[0].response.status, 201);
    assert_eq!(store.entries[0].request.timestamp, 1);
}

#[test]
fn captures_with_different_queries_are_both_recorded() {
    let mut store = LogStore::new();
    let a = inbound("GET", "/search", Some("q=a"), b"");
    let b = inbound("GET", "/search", Some("q=b"), b"");
    finish_capture(&mut store, &a, 1, &UpstreamOutcome::Answered(upstream(200, b"A")));
    finish_capture(&mut store, &b, 2, &UpstreamOutcome::Answered(upstream(200, b"B")));
    assert_eq!(store.len(), 2);
    assert_eq!(store.entries[0].response.body, Some("A".to_string()));
    assert_eq!(store.entries[1].response.body, Some("B".to_string()));
}

#[test]
fn unreachable_upstream_gives_502_and_leaves_the_store() {
    let mut store = LogStore::new();
    let kept = inbound("GET", "/kept", None, b"");
    finish_capture(&mut store, &kept, 1, &UpstreamOutcome::Answered(upstream(200, b"k")));
    let before = store.snapshot();
    let outcome = UpstreamOutcome::Unreachable("connection refused".to_string());
    let outbound = finish_capture(&mut store, &inbound("GET", "/a", None, b""), 2, &outcome);
    assert_eq!(outbound.status, 502);
    assert_eq!(outbound.body, b"Bad Gateway: connection refused".to_vec());
    assert_eq!(outbound.headers, vec![]);
    assert_eq!(store.snapshot(), before);
}

#[test]
fn lost_body_gives_500_and_leaves_the_store() {
    let mut store = LogStore::new();
    let outbound =
        finish_capture(&mut store, &inbound("GET", "/a", None, b""), 2, &UpstreamOutcome::BodyLost);
    assert_eq!(outbound, internal_error_response());
    assert!(store.is_empty());
}

#[test]
fn answer_with_unsendable_status_is_recorded_and_answered_500() {
    let mut store = LogStore::new();
    let outcome = UpstreamOutcome::Answered(upstream(42, b"x"));
    let outbound = finish_capture(&mut store, &inbound("GET", "/a", None, b""), 2, &outcome);
    assert_eq!(outbound, internal_error_response());
    assert_eq!(store.len(), 1);
    assert_eq!(store.entries[0].response.status, 42);
}
