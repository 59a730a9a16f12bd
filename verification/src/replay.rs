//! The replay side: how a request is matched against the log, and what is
//! answered from a recorded exchange.

use vstd::prelude::*;
use vstd::string::*;

use crate::headers::{is_status_code, replay_can_send_status, sift, sifted, HeaderRule};
use crate::key::{
    build_request_key, is_plain, key_of, key_of_request, law_key_is_identity, law_key_symmetry,
    query_string, request_key, same_identity,
};
use crate::message::{plain_response, OutboundResponse, OutboundResponseView};
use crate::headers::is_replay_header;
use crate::proxy::{ProxyLogView, RequestLogView, ResponseLog, ResponseLogView};
use crate::store::{
    first_with_key, holds_identity, is_first_with_key, lacks_key, lemma_first_with_key, recorded,
    unique_identities, LogStore,
};
use crate::text::same_str;

verus! {

/// The address on which the replay side listens while the capture side runs.
pub const REPLAY_ADDRESS: &'static str = "127.0.0.1:6688";

/// The path of the listing of what is recorded.
pub const ADMIN_PATH: &'static str = "/admin/requests";

/// The query of a replay request: its query string, or none where that is
/// empty.
pub open spec fn replay_query(query_string: Seq<char>) -> Option<Seq<char>> {
    if query_string.len() == 0 {
        None
    } else {
        Some(query_string)
    }
}

/// The key under which a replay request is looked up.
pub open spec fn replay_key(method: Seq<char>, path: Seq<char>, query_string: Seq<char>) -> Seq<
    char,
> {
    request_key(method, path, replay_query(query_string))
}

/// The status that is replayed for a recorded one: the recorded status, or
/// 200 where that cannot be sent.
pub open spec fn replay_status(status: u16) -> u16 {
    if is_status_code(status) {
        status
    } else {
        200
    }
}

/// The body that is replayed for a recorded one: its bytes, or nothing.
pub open spec fn replay_body(body: Option<Seq<char>>) -> Seq<u8> {
    match body {
        Some(text) => vstd::utf8::encode_utf8(text),
        None => Seq::empty(),
    }
}

/// The answer that replays a recorded response: its status, those of its
/// headers that the replay side can send, and its body.
pub open spec fn replayed(response: ResponseLogView) -> OutboundResponseView {
    OutboundResponseView {
        status: replay_status(response.status),
        headers: sifted(HeaderRule::Replay, response.headers),
        body: replay_body(response.body),
    }
}

/// The answer to a request that matches nothing in the log.
pub open spec fn not_found() -> OutboundResponseView {
    plain_response(404, "No matching request found in logs"@)
}

/// The answer of the replay side to a request listed under `key`: the
/// replay of the first exchange under that key, or 404 where there is none.
pub open spec fn replay_answer(log: Seq<ProxyLogView>, key: Seq<char>) -> OutboundResponseView {
    match first_with_key(log, key) {
        Some(i) => replayed(log[i].response),
        None => not_found(),
    }
}

/// Computes the key under which a replay request is looked up.
pub fn replay_request_key(method: &str, path: &str, query_string: &str) -> (key: String)
    ensures
        key@ == replay_key(method@, path@, query_string@),
{
    let query = if query_string.is_empty() {
        None
    } else {
        Some(String::from_str(query_string))
    };
    build_request_key(method, path, &query)
}

/// Builds the answer that replays a recorded response.
pub fn replay_response(response: &ResponseLog) -> (outbound: OutboundResponse)
    ensures
        outbound@ == replayed(response@),
{
    let status = if replay_can_send_status(response.status) {
        response.status
    } else {
        200
    };
    let body = match &response.body {
        Some(text) => text.as_str().as_bytes_vec(),
        None => Vec::new(),
    };
    OutboundResponse { status, headers: sift(HeaderRule::Replay, &response.headers), body }
}

/// Answers a request on the replay side from the log. The body of the
/// request plays no part.
pub fn replay_handler(store: &LogStore, method: &str, path: &str, query_string: &str) -> (outbound:
    OutboundResponse)
    ensures
        outbound@ == replay_answer(store@, replay_key(method@, path@, query_string@)),
{
    let key = replay_request_key(method, path, query_string);
    match store.find_by_key(key.as_str()) {
        Some(entry) => replay_response(&entry.response),
        None => OutboundResponse::plain(404, "No matching request found in logs"),
    }
}

/// Whether a request on the replay side asks for the listing: a `GET` of
/// the listing's path.
pub open spec fn asks_for_listing(method: Seq<char>, path: Seq<char>) -> bool {
    method == "GET"@ && path == ADMIN_PATH@
}

/// Tells whether a request on the replay side asks for the listing of what
/// is recorded; every other request is answered from the log.
pub fn is_listing_request(method: &str, path: &str) -> (listing: bool)
    ensures
        listing == asks_for_listing(method@, path@),
{
    same_str(method, "GET") && same_str(path, ADMIN_PATH)
}

/// The listing of what is recorded: of each exchange its key and status.
pub fn list_requests(store: &LogStore) -> (list: Vec<(String, u16)>)
    ensures
        crate::store::listing_view(list@) == crate::store::listing(store@),
{
    store.list_identities()
}

/// The request that the replay side makes of what it is asked: method and
/// path as they came, and the query string as a query, none where it is
/// empty.
pub open spec fn asked(
    method: Seq<char>,
    path: Seq<char>,
    query_string: Seq<char>,
) -> RequestLogView {
    RequestLogView {
        timestamp: 0,
        method,
        path,
        query_params: replay_query(query_string),
        headers: Seq::empty(),
        body: None,
    }
}

/// Every exchange of the log records a plain request.
pub open spec fn all_plain(log: Seq<ProxyLogView>) -> bool {
    forall|i: int| 0 <= i < log.len() ==> is_plain((#[trigger] log[i]).request)
}

/// Key symmetry between the two sides: the key under which a request is
/// recorded, with its query present or absent, is the key under which the
/// replay side looks the same request up, from its query string.
pub proof fn law_recorded_key_is_replay_key(request: RequestLogView)
    ensures
        key_of_request(request) == replay_key(
            request.method,
            request.path,
            query_string(request.query_params),
        ),
{
    law_key_symmetry(request.method, request.path, request.query_params);
}

/// In a log of plain requests that holds each identity once, the exchange
/// of a given identity is the first under its key.
pub proof fn lemma_identity_is_first(log: Seq<ProxyLogView>, i: int)
    requires
        0 <= i < log.len(),
        unique_identities(log),
        all_plain(log),
    ensures
        first_with_key(log, key_of(log[i])) == Some(i),
{
    assert forall|j: int| 0 <= j < i implies key_of(#[trigger] log[j]) != key_of(log[i]) by {
        law_key_is_identity(log[j].request, log[i].request);
    }
    assert(is_first_with_key(log, key_of(log[i]), i));
    lemma_first_with_key(log, key_of(log[i]));
}

/// Replay fidelity: where the log holds each identity once and an exchange
/// of it has the identity of the request, with a status that can be sent,
/// the answer has the recorded status and the recorded body, and each of its
/// headers is a recorded header that the replay side can send.
pub proof fn law_replay_fidelity(
    log: Seq<ProxyLogView>,
    i: int,
    method: Seq<char>,
    path: Seq<char>,
    query_string: Seq<char>,
)
    requires
        0 <= i < log.len(),
        unique_identities(log),
        all_plain(log),
        same_identity(log[i].request, asked(method, path, query_string)),
        is_status_code(log[i].response.status),
    ensures
        ({
            let answer = replay_answer(log, replay_key(method, path, query_string));
            let recorded = log[i].response;
            &&& answer.status == recorded.status
            &&& answer.body == replay_body(recorded.body)
            &&& forall|k: int|
                0 <= k < answer.headers.len() ==> recorded.headers.contains(
                    #[trigger] answer.headers[k],
                ) && is_replay_header(answer.headers[k])
        }),
{
    lemma_identity_is_first(log, i);
    let answer = replay_answer(log, replay_key(method, path, query_string));
    let recorded = log[i].response;
    assert(answer == replayed(recorded));
    let pred = |h: (Seq<char>, Seq<char>)| crate::headers::keeps(HeaderRule::Replay, h);
    assert forall|k: int| 0 <= k < answer.headers.len() implies recorded.headers.contains(
        #[trigger] answer.headers[k],
    ) && is_replay_header(answer.headers[k]) by {
        recorded.headers.lemma_filter_pred(pred, k);
        assert(answer.headers.contains(answer.headers[k]));
        recorded.headers.lemma_filter_contains_rev(pred, answer.headers[k]);
    }
}

/// No match: a request under whose key nothing is listed is answered with
/// 404 and the fixed text.
pub proof fn law_no_match(
    log: Seq<ProxyLogView>,
    method: Seq<char>,
    path: Seq<char>,
    query_string: Seq<char>,
)
    requires
        lacks_key(log, replay_key(method, path, query_string)),
    ensures
        replay_answer(log, replay_key(method, path, query_string)) == not_found(),
        not_found().status == 404,
{
    lemma_first_with_key(log, replay_key(method, path, query_string));
}

/// No match, by identity: where the log records plain requests and none of
/// them has the identity of a plain request, that request is answered with
/// 404 and the fixed text.
pub proof fn law_absent_identity_not_found(
    log: Seq<ProxyLogView>,
    method: Seq<char>,
    path: Seq<char>,
    query_string: Seq<char>,
)
    requires
        all_plain(log),
        !method.contains(' '),
        !path.contains('?'),
        forall|i: int|
            0 <= i < log.len() ==> !same_identity(
                (#[trigger] log[i]).request,
                asked(method, path, query_string),
            ),
    ensures
        replay_answer(log, replay_key(method, path, query_string)) == not_found(),
{
    let request = asked(method, path, query_string);
    assert(is_plain(request)) by {
        if query_string.len() > 0 {
            assert(Some(query_string) != Some(Seq::<char>::empty())) by {
                assert(query_string.len() != Seq::<char>::empty().len());
            }
        }
    }
    assert forall|j: int| 0 <= j < log.len() implies key_of(#[trigger] log[j]) != replay_key(
        method,
        path,
        query_string,
    ) by {
        law_key_is_identity(log[j].request, request);
    }
    law_no_match(log, method, path, query_string);
}

/// Capture, then replay: an exchange offered to a log that lists nothing
/// under its key is recorded, and a request for that key is from then on
/// answered with the replay of its response.
pub proof fn law_capture_then_replay(log: Seq<ProxyLogView>, entry: ProxyLogView)
    requires
        lacks_key(log, key_of(entry)),
    ensures
        recorded(log, entry) == log.push(entry),
        replay_answer(recorded(log, entry), key_of(entry)) == replayed(entry.response),
{
    assert(!holds_identity(log, entry.request)) by {
        if holds_identity(log, entry.request) {
            let i = choose|i: int|
                0 <= i < log.len() && same_identity((#[trigger] log[i]).request, entry.request);
            assert(key_of(log[i]) == key_of(entry));
        }
    }
    let after = log.push(entry);
    assert(is_first_with_key(after, key_of(entry), log.len() as int)) by {
        assert forall|j: int| 0 <= j < log.len() implies key_of(#[trigger] after[j]) != key_of(
            entry,
        ) by {
            assert(after[j] == log[j]);
        }
    }
    lemma_first_with_key(after, key_of(entry));
}

} // verus!
