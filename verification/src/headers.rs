//! Which header names, header values and status codes can be put on the
//! wire, on the capture side and on the replay side. The two sides send
//! through different HTTP stacks, whose rules for a header name differ in one
//! character.

use vstd::prelude::*;
use vstd::string::*;

use crate::message::{wire_view, WireHeader};
use crate::proxy::headers_view;
use crate::text::{equals_ignoring_case, is_word_ignoring_case};

verus! {

/// The longest header name, in characters, that either side accepts.
pub const MAX_NAME_LEN: usize = 65535;

/// A character of an HTTP token: an ASCII letter or digit, or one of
/// ``! # $ % & ' * + - . ^ _ ` | ~``.
pub open spec fn is_token_char(c: char) -> bool {
    ||| ('a' <= c && c <= 'z')
    ||| ('A' <= c && c <= 'Z')
    ||| ('0' <= c && c <= '9')
    ||| c == '!'
    ||| c == '#'
    ||| c == '$'
    ||| c == '%'
    ||| c == '&'
    ||| c == '\''
    ||| c == '*'
    ||| c == '+'
    ||| c == '-'
    ||| c == '.'
    ||| c == '^'
    ||| c == '_'
    ||| c == '`'
    ||| c == '|'
    ||| c == '~'
}

/// A header name that the capture side can send: a token of 1 to 65535
/// characters.
pub open spec fn is_token_name(name: Seq<char>) -> bool {
    &&& 1 <= name.len() <= MAX_NAME_LEN
    &&& forall|i: int| 0 <= i < name.len() ==> is_token_char(#[trigger] name[i])
}

/// A header name that the replay side can send: as a token, but a double
/// quote may stand in it too.
pub open spec fn is_replay_name(name: Seq<char>) -> bool {
    &&& 1 <= name.len() <= MAX_NAME_LEN
    &&& forall|i: int|
        0 <= i < name.len() ==> (is_token_char(#[trigger] name[i]) || name[i] == '"')
}

/// A character that may stand in a header value: a tab, or anything from the
/// space upwards but the delete character.
pub open spec fn is_value_char(c: char) -> bool {
    c == '\t' || (c >= ' ' && c != '\x7f')
}

/// A header value that either side can send.
pub open spec fn is_field_value(value: Seq<char>) -> bool {
    forall|i: int| 0 <= i < value.len() ==> is_value_char(#[trigger] value[i])
}

/// A status code that either side can send: three digits.
pub open spec fn is_status_code(code: u16) -> bool {
    100 <= code <= 999
}

/// `hyper::header::HeaderName::from_bytes`, on the bytes of `name`: whether it
/// accepts them. It does so for 1 to 65535 bytes that are all token
/// characters; every byte of a non-ASCII character is refused.
#[verifier::external_body]
pub(crate) fn capture_accepts_name(name: &str) -> (ok: bool)
    ensures
        ok == is_token_name(name@),
{
    hyper::header::HeaderName::from_bytes(name.as_bytes()).is_ok()
}

/// `hyper::header::HeaderValue::from_str`: whether it accepts `value`. It
/// refuses a value that holds a byte under 32 other than the tab, or the
/// byte 127.
#[verifier::external_body]
pub(crate) fn capture_accepts_value(value: &str) -> (ok: bool)
    ensures
        ok == is_field_value(value@),
{
    hyper::header::HeaderValue::from_str(value).is_ok()
}

/// `hyper::StatusCode::from_u16`: whether it accepts `code`. It accepts 100
/// to 999.
#[verifier::external_body]
pub(crate) fn capture_accepts_status(code: u16) -> (ok: bool)
    ensures
        ok == is_status_code(code),
{
    hyper::StatusCode::from_u16(code).is_ok()
}

/// `actix_web::http::header::HeaderName::try_from`, on a string slice:
/// whether it accepts `name`. It does so for 1 to 65535 bytes that are all
/// token characters or double quotes.
#[verifier::external_body]
pub(crate) fn replay_accepts_name(name: &str) -> (ok: bool)
    ensures
        ok == is_replay_name(name@),
{
    actix_web::http::header::HeaderName::try_from(name).is_ok()
}

/// `actix_web::http::header::HeaderValue::try_from`, on a string slice:
/// whether it accepts `value`. It refuses a value that holds a byte under 32
/// other than the tab, or the byte 127.
#[verifier::external_body]
pub(crate) fn replay_accepts_value(value: &str) -> (ok: bool)
    ensures
        ok == is_field_value(value@),
{
    actix_web::http::header::HeaderValue::try_from(value).is_ok()
}

/// `actix_web::http::StatusCode::from_u16`: whether it accepts `code`. It
/// accepts 100 to 999.
#[verifier::external_body]
pub(crate) fn replay_accepts_status(code: u16) -> (ok: bool)
    ensures
        ok == is_status_code(code),
{
    actix_web::http::StatusCode::from_u16(code).is_ok()
}

/// A header that the capture side can send.
pub open spec fn is_capture_header(header: (Seq<char>, Seq<char>)) -> bool {
    is_token_name(header.0) && is_field_value(header.1)
}

/// A header that the replay side can send.
pub open spec fn is_replay_header(header: (Seq<char>, Seq<char>)) -> bool {
    is_replay_name(header.0) && is_field_value(header.1)
}

/// Tells whether the capture side can send a header of this name and value.
pub fn capture_can_send(name: &str, value: &str) -> (ok: bool)
    ensures
        ok == is_capture_header((name@, value@)),
{
    capture_accepts_name(name) && capture_accepts_value(value)
}

/// Tells whether the replay side can send a header of this name and value.
pub fn replay_can_send(name: &str, value: &str) -> (ok: bool)
    ensures
        ok == is_replay_header((name@, value@)),
{
    replay_accepts_name(name) && replay_accepts_value(value)
}

/// Tells whether the capture side can send this status code.
pub fn capture_can_send_status(code: u16) -> (ok: bool)
    ensures
        ok == is_status_code(code),
{
    capture_accepts_status(code)
}

/// Tells whether the replay side can send this status code.
pub fn replay_can_send_status(code: u16) -> (ok: bool)
    ensures
        ok == is_status_code(code),
{
    replay_accepts_status(code)
}

/// The three places where a list of headers is sifted before it is sent.
#[derive(Clone, Copy, Debug, PartialEq, Eq, Structural)]
pub enum HeaderRule {
    /// From the inbound request to the upstream.
    Forward,
    /// From the upstream's response back to the caller.
    Return,
    /// From a recorded response to the caller of the replay side.
    Replay,
}

/// Whether `rule` lets a header through. On its way to the upstream a header
/// named `host` or `connection` is dropped, on its way back one named
/// `connection` or `transfer-encoding`, in any case of the letters; and each
/// side drops what it cannot send.
pub open spec fn keeps(rule: HeaderRule, header: (Seq<char>, Seq<char>)) -> bool {
    match rule {
        HeaderRule::Forward => {
            &&& !is_word_ignoring_case(header.0, "host"@)
            &&& !is_word_ignoring_case(header.0, "connection"@)
            &&& is_capture_header(header)
        },
        HeaderRule::Return => {
            &&& !is_word_ignoring_case(header.0, "connection"@)
            &&& !is_word_ignoring_case(header.0, "transfer-encoding"@)
            &&& is_capture_header(header)
        },
        HeaderRule::Replay => is_replay_header(header),
    }
}

/// The headers of a list that `rule` lets through, in their order.
pub open spec fn sifted(rule: HeaderRule, headers: Seq<(Seq<char>, Seq<char>)>) -> Seq<
    (Seq<char>, Seq<char>),
> {
    headers.filter(|h: (Seq<char>, Seq<char>)| keeps(rule, h))
}

/// Tells whether `rule` lets a header of this name and value through.
pub fn passes(rule: HeaderRule, name: &str, value: &str) -> (ok: bool)
    ensures
        ok == keeps(rule, (name@, value@)),
{
    match rule {
        HeaderRule::Forward => {
            !equals_ignoring_case(name, "host") && !equals_ignoring_case(name, "connection")
                && capture_can_send(name, value)
        },
        HeaderRule::Return => {
            !equals_ignoring_case(name, "connection") && !equals_ignoring_case(
                name,
                "transfer-encoding",
            ) && capture_can_send(name, value)
        },
        HeaderRule::Replay => replay_can_send(name, value),
    }
}

/// Copies the headers that `rule` lets through, in their order.
pub fn sift(rule: HeaderRule, headers: &Vec<(String, String)>) -> (kept: Vec<(String, String)>)
    ensures
        headers_view(kept@) == sifted(rule, headers_view(headers@)),
{
    let ghost all = headers_view(headers@);
    let ghost pred = |h: (Seq<char>, Seq<char>)| keeps(rule, h);
    let mut kept: Vec<(String, String)> = Vec::new();
    let mut i: usize = 0;
    proof {
        reveal(Seq::filter);
        assert(all.take(0).filter(pred) =~= Seq::empty());
        assert(headers_view(kept@) =~= Seq::empty());
    }
    while i < headers.len()
        invariant
            i <= headers.len(),
            all == headers_view(headers@),
            pred == |h: (Seq<char>, Seq<char>)| keeps(rule, h),
            headers_view(kept@) == all.take(i as int).filter(pred),
        decreases headers.len() - i,
    {
        let pair = &headers[i];
        let ghost before = headers_view(kept@);
        proof {
            assert(all.take(i as int + 1) =~= all.take(i as int).push(all[i as int]));
            all.take(i as int).lemma_filter_push(all[i as int], pred);
        }
        if passes(rule, pair.0.as_str(), pair.1.as_str()) {
            kept.push((pair.0.clone(), pair.1.clone()));
            assert(headers_view(kept@) =~= before.push(all[i as int]));
        }
        i = i + 1;
    }
    assert(all.take(headers.len() as int) =~= all);
    kept
}

/// The text under which a header value is recorded: the value where it can
/// be read as text, the empty text where it cannot.
pub open spec fn value_text(value: Option<Seq<char>>) -> Seq<char> {
    match value {
        Some(v) => v,
        None => Seq::empty(),
    }
}

/// The headers off the wire as they are recorded: in their order, each with
/// the text of its value.
pub open spec fn as_recorded(headers: Seq<(Seq<char>, Option<Seq<char>>)>) -> Seq<
    (Seq<char>, Seq<char>),
> {
    Seq::new(headers.len(), |i: int| (headers[i].0, value_text(headers[i].1)))
}

/// Turns headers off the wire into the form in which they are recorded.
pub fn record_headers(headers: &Vec<WireHeader>) -> (recorded: Vec<(String, String)>)
    ensures
        headers_view(recorded@) == as_recorded(wire_view(headers@)),
{
    let mut recorded: Vec<(String, String)> = Vec::new();
    let mut i: usize = 0;
    while i < headers.len()
        invariant
            i <= headers.len(),
            recorded.len() == i,
            forall|j: int|
                0 <= j < i ==> (#[trigger] recorded[j]).0@ == headers[j].0@ && recorded[j].1@
                    == value_text(wire_view(headers@)[j].1),
        decreases headers.len() - i,
    {
        let header = &headers[i];
        let value = match &header.1 {
            Some(v) => v.clone(),
            None => String::new(),
        };
        recorded.push((header.0.clone(), value));
        i = i + 1;
    }
    assert(headers_view(recorded@) =~= as_recorded(wire_view(headers@)));
    recorded
}

} // verus!
