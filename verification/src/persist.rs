//! The persisted form of the log: a JSON array that holds one object for
//! each recorded exchange. This module says which JSON document stands for
//! a log, and which log a JSON document is read as; `serde_json` turns
//! documents into text and text into documents.

use vstd::prelude::*;
use vstd::string::*;

use crate::proxy::{
    headers_view, text_view, ProxyLog, ProxyLogView, RequestLog, RequestLogView, ResponseLog,
    ResponseLogView,
};
use crate::store::{
    entries_view, law_unique_log_is_rebuilt, recorded_all, unique_identities, LogStore,
};

verus! {

#[verifier::external_type_specification]
#[verifier::external_body]
pub struct ExValue(serde_json::Value);

/// A JSON document, as a mathematical value. The members of an object stand
/// in the order in which they were put in or read.
pub ghost enum Doc {
    Null,
    Bool(bool),
    /// A whole number from 0 to the largest `u64`.
    Number(u64),
    /// Any other number, by its numeral.
    OtherNumber(Seq<char>),
    Text(Seq<char>),
    List(Seq<Doc>),
    Object(Seq<(Seq<char>, Doc)>),
}

/// The document that a `serde_json::Value` holds.
pub uninterp spec fn doc_of(value: serde_json::Value) -> Doc;

/// The text that `serde_json::to_string_pretty` writes for a document.
pub uninterp spec fn pretty_text(doc: Doc) -> Seq<char>;

/// The document that `serde_json::from_str` reads from a text, where it
/// reads one.
pub uninterp spec fn parsed_doc(text: Seq<char>) -> Option<Doc>;

/// The documents that a list of values holds.
pub open spec fn docs_of(values: Seq<serde_json::Value>) -> Seq<Doc> {
    Seq::new(values.len(), |i: int| doc_of(values[i]))
}

/// The members that a list of named values holds.
pub open spec fn members_of(members: Seq<(String, serde_json::Value)>) -> Seq<(Seq<char>, Doc)> {
    Seq::new(members.len(), |i: int| (members[i].0@, doc_of(members[i].1)))
}

/// No two members have the same name.
pub open spec fn distinct_names(members: Seq<(Seq<char>, Doc)>) -> bool {
    forall|i: int, j: int|
        0 <= i < j < members.len() ==> (#[trigger] members[i]).0 != (#[trigger] members[j]).0
}

/// The first member of the given name, if there is one.
pub open spec fn member(members: Seq<(Seq<char>, Doc)>, name: Seq<char>) -> Option<Doc>
    decreases members.len(),
{
    if members.len() == 0 {
        None
    } else if members[0].0 == name {
        Some(members[0].1)
    } else {
        member(members.drop_first(), name)
    }
}

/// The member of the given name of an object; none for any other document.
pub open spec fn member_of(doc: Doc, name: Seq<char>) -> Option<Doc> {
    match doc {
        Doc::Object(members) => member(members, name),
        _ => None,
    }
}

/// `serde_json::Value::Null`: the value that holds the null document.
#[verifier::external_body]
pub(crate) fn null_value() -> (value: serde_json::Value)
    ensures
        doc_of(value) == Doc::Null,
{
    serde_json::Value::Null
}

/// `serde_json::Value::from`, on a `u64`: the value that holds that number.
#[verifier::external_body]
pub(crate) fn number_value(n: u64) -> (value: serde_json::Value)
    ensures
        doc_of(value) == Doc::Number(n),
{
    serde_json::Value::from(n)
}

/// `serde_json::Value::String`: the value that holds that text.
#[verifier::external_body]
pub(crate) fn text_value(text: String) -> (value: serde_json::Value)
    ensures
        doc_of(value) == Doc::Text(text@),
{
    serde_json::Value::String(text)
}

/// `serde_json::Value::Array`: the value that holds the list of what the
/// items hold, in their order.
#[verifier::external_body]
pub(crate) fn list_value(items: Vec<serde_json::Value>) -> (value: serde_json::Value)
    ensures
        doc_of(value) == Doc::List(docs_of(items@)),
{
    serde_json::Value::Array(items)
}

/// `serde_json::Value::Object`, on the `serde_json::Map` collected from the
/// members: the value that holds the object of these members. With the
/// crate's feature `preserve_order` the map keeps members of distinct names
/// in the order in which they come.
#[verifier::external_body]
pub(crate) fn object_value(members: Vec<(String, serde_json::Value)>) -> (value: serde_json::Value)
    requires
        distinct_names(members_of(members@)),
    ensures
        doc_of(value) == Doc::Object(members_of(members@)),
{
    serde_json::Value::Object(members.into_iter().collect())
}

/// `serde_json::Value::is_null`: whether the value holds the null document.
#[verifier::external_body]
pub(crate) fn value_is_null(value: &serde_json::Value) -> (null: bool)
    ensures
        null == (doc_of(*value) is Null),
{
    value.is_null()
}

/// `serde_json::Value::as_u64`: the number, where the value holds a whole
/// number from 0 to the largest `u64`.
#[verifier::external_body]
pub(crate) fn value_as_u64(value: &serde_json::Value) -> (number: Option<u64>)
    ensures
        match number {
            Some(n) => doc_of(*value) == Doc::Number(n),
            None => !(doc_of(*value) is Number),
        },
{
    value.as_u64()
}

/// `serde_json::Value::as_str`: the text, where the value holds a text.
#[verifier::external_body]
pub(crate) fn value_as_str(value: &serde_json::Value) -> (text: Option<&str>)
    ensures
        match text {
            Some(t) => doc_of(*value) == Doc::Text(t@),
            None => !(doc_of(*value) is Text),
        },
{
    value.as_str()
}

/// `serde_json::Value::as_array`: the items, where the value holds a list.
#[verifier::external_body]
pub(crate) fn value_as_array(value: &serde_json::Value) -> (items: Option<&Vec<serde_json::Value>>)
    ensures
        match items {
            Some(list) => doc_of(*value) == Doc::List(docs_of(list@)),
            None => !(doc_of(*value) is List),
        },
{
    value.as_array()
}

/// `serde_json::Value::get`, with a name: the member of that name, where
/// the value holds an object that has one.
#[verifier::external_body]
pub(crate) fn value_get<'a>(value: &'a serde_json::Value, name: &str) -> (found: Option<
    &'a serde_json::Value,
>)
    ensures
        match found {
            Some(v) => member_of(doc_of(*value), name@) == Some(doc_of(*v)),
            None => member_of(doc_of(*value), name@) is None,
        },
{
    value.get(name)
}

/// `serde_json::to_string_pretty`, on a value: the text that it writes for
/// the document. On a value it always writes one: it writes into a byte
/// vector, which takes every write, and the members of an object are named
/// by strings.
#[verifier::external_body]
pub(crate) fn print_value(value: &serde_json::Value) -> (text: Option<String>)
    ensures
        text is Some,
        text matches Some(t) ==> t@ == pretty_text(doc_of(*value)),
{
    serde_json::to_string_pretty(value).ok()
}

/// `serde_json::from_str`, for a value: the value that holds the document
/// read from the text, where one is read.
#[verifier::external_body]
pub(crate) fn parse_value(text: &str) -> (value: Option<serde_json::Value>)
    ensures
        match value {
            Some(v) => parsed_doc(text@) == Some(doc_of(v)),
            None => parsed_doc(text@) is None,
        },
{
    serde_json::from_str::<serde_json::Value>(text).ok()
}

/// The document of an optional text: the text, or null.
pub open spec fn optional_text_doc(text: Option<Seq<char>>) -> Doc {
    match text {
        Some(t) => Doc::Text(t),
        None => Doc::Null,
    }
}

/// The document of a header: the list of its name and its value.
pub open spec fn header_doc(header: (Seq<char>, Seq<char>)) -> Doc {
    Doc::List(seq![Doc::Text(header.0), Doc::Text(header.1)])
}

/// The document of a list of headers: the list of their documents.
pub open spec fn headers_doc(headers: Seq<(Seq<char>, Seq<char>)>) -> Doc {
    Doc::List(Seq::new(headers.len(), |i: int| header_doc(headers[i])))
}

/// The document of a recorded request: an object of its six fields.
pub open spec fn request_doc(request: RequestLogView) -> Doc {
    Doc::Object(
        seq![
            ("timestamp"@, Doc::Number(request.timestamp)),
            ("method"@, Doc::Text(request.method)),
            ("path"@, Doc::Text(request.path)),
            ("query_params"@, optional_text_doc(request.query_params)),
            ("headers"@, headers_doc(request.headers)),
            ("body"@, optional_text_doc(request.body)),
        ],
    )
}

/// The document of a recorded response: an object of its three fields.
pub open spec fn response_doc(response: ResponseLogView) -> Doc {
    Doc::Object(
        seq![
            ("status"@, Doc::Number(response.status as u64)),
            ("headers"@, headers_doc(response.headers)),
            ("body"@, optional_text_doc(response.body)),
        ],
    )
}

/// The document of a recorded exchange: an object of request and response.
pub open spec fn entry_doc(entry: ProxyLogView) -> Doc {
    Doc::Object(
        seq![("request"@, request_doc(entry.request)), ("response"@, response_doc(entry.response))],
    )
}

/// The document of a log: the list of the documents of its exchanges.
pub open spec fn log_doc(log: Seq<ProxyLogView>) -> Doc {
    Doc::List(Seq::new(log.len(), |i: int| entry_doc(log[i])))
}

/// Makes the value of an optional text.
fn encode_optional_text(text: &Option<String>) -> (value: serde_json::Value)
    ensures
        doc_of(value) == optional_text_doc(text_view(*text)),
{
    match text {
        Some(t) => text_value(t.clone()),
        None => null_value(),
    }
}

/// Makes the value of a list of headers.
fn encode_headers(headers: &Vec<(String, String)>) -> (value: serde_json::Value)
    ensures
        doc_of(value) == headers_doc(headers_view(headers@)),
{
    let mut items: Vec<serde_json::Value> = Vec::new();
    let mut i: usize = 0;
    while i < headers.len()
        invariant
            i <= headers.len(),
            items.len() == i,
            forall|j: int|
                0 <= j < i ==> doc_of(#[trigger] items[j]) == header_doc(headers_view(headers@)[j]),
        decreases headers.len() - i,
    {
        let mut pair: Vec<serde_json::Value> = Vec::new();
        pair.push(text_value(headers[i].0.clone()));
        pair.push(text_value(headers[i].1.clone()));
        let item = list_value(pair);
        assert(docs_of(pair@) =~= seq![
            Doc::Text(headers_view(headers@)[i as int].0),
            Doc::Text(headers_view(headers@)[i as int].1),
        ]);
        items.push(item);
        i = i + 1;
    }
    let value = list_value(items);
    assert(docs_of(items@) =~= Seq::new(
        headers_view(headers@).len(),
        |i: int| header_doc(headers_view(headers@)[i]),
    ));
    value
}

/// The names of the fields of a request differ from one another.
proof fn lemma_request_names()
    ensures
        "timestamp"@ != "method"@,
        "timestamp"@ != "path"@,
        "timestamp"@ != "query_params"@,
        "timestamp"@ != "headers"@,
        "timestamp"@ != "body"@,
        "method"@ != "path"@,
        "method"@ != "query_params"@,
        "method"@ != "headers"@,
        "method"@ != "body"@,
        "path"@ != "query_params"@,
        "path"@ != "headers"@,
        "path"@ != "body"@,
        "query_params"@ != "headers"@,
        "query_params"@ != "body"@,
        "headers"@ != "body"@,
        "status"@ != "headers"@,
        "status"@ != "body"@,
        "request"@ != "response"@,
{
    reveal_strlit("timestamp");
    reveal_strlit("method");
    reveal_strlit("path");
    reveal_strlit("query_params");
    reveal_strlit("headers");
    reveal_strlit("body");
    reveal_strlit("status");
    reveal_strlit("request");
    reveal_strlit("response");
    assert("timestamp"@.len() == 9);
    assert("method"@.len() == 6);
    assert("path"@.len() == 4);
    assert("query_params"@.len() == 12);
    assert("headers"@.len() == 7);
    assert("body"@.len() == 4);
    assert("status"@.len() == 6);
    assert("request"@.len() == 7);
    assert("response"@.len() == 8);
    assert("path"@[0] != "body"@[0]);
    assert("method"@[0] != "status"@[0]);
    assert("headers"@[0] != "request"@[0]);
}

/// Makes the value of a recorded request.
fn encode_request(request: &RequestLog) -> (value: serde_json::Value)
    ensures
        doc_of(value) == request_doc(request@),
{
    let mut members: Vec<(String, serde_json::Value)> = Vec::new();
    members.push((String::from_str("timestamp"), number_value(request.timestamp)));
    members.push((String::from_str("method"), text_value(request.method.clone())));
    members.push((String::from_str("path"), text_value(request.path.clone())));
    members.push((String::from_str("query_params"), encode_optional_text(&request.query_params)));
    members.push((String::from_str("headers"), encode_headers(&request.headers)));
    members.push((String::from_str("body"), encode_optional_text(&request.body)));
    proof {
        lemma_request_names();
        assert(members_of(members@) =~= request_doc(request@)->Object_0);
    }
    object_value(members)
}

/// Makes the value of a recorded response.
fn encode_response(response: &ResponseLog) -> (value: serde_json::Value)
    ensures
        doc_of(value) == response_doc(response@),
{
    let mut members: Vec<(String, serde_json::Value)> = Vec::new();
    members.push((String::from_str("status"), number_value(response.status as u64)));
    members.push((String::from_str("headers"), encode_headers(&response.headers)));
    members.push((String::from_str("body"), encode_optional_text(&response.body)));
    proof {
        lemma_request_names();
        assert(members_of(members@) =~= response_doc(response@)->Object_0);
    }
    object_value(members)
}

/// Makes the value of a recorded exchange.
fn encode_entry(entry: &ProxyLog) -> (value: serde_json::Value)
    ensures
        doc_of(value) == entry_doc(entry@),
{
    let mut members: Vec<(String, serde_json::Value)> = Vec::new();
    members.push((String::from_str("request"), encode_request(&entry.request)));
    members.push((String::from_str("response"), encode_response(&entry.response)));
    proof {
        lemma_request_names();
        assert(members_of(members@) =~= entry_doc(entry@)->Object_0);
    }
    object_value(members)
}

/// Makes the value that holds the document of a log.
pub fn encode_log(entries: &Vec<ProxyLog>) -> (value: serde_json::Value)
    ensures
        doc_of(value) == log_doc(entries_view(entries@)),
{
    let mut items: Vec<serde_json::Value> = Vec::new();
    let mut i: usize = 0;
    while i < entries.len()
        invariant
            i <= entries.len(),
            items.len() == i,
            forall|j: int| 0 <= j < i ==> doc_of(#[trigger] items[j]) == entry_doc(entries[j]@),
        decreases entries.len() - i,
    {
        items.push(encode_entry(&entries[i]));
        i = i + 1;
    }
    let value = list_value(items);
    assert(docs_of(items@) =~= Seq::new(
        entries_view(entries@).len(),
        |i: int| entry_doc(entries_view(entries@)[i]),
    ));
    value
}

/// A field of a record. A record is an object, whose fields are its
/// members by name, or a list of exactly `count` documents, whose fields are
/// its items by place. A list of another length is no record; in any other
/// document every field is missing.
pub open spec fn field(doc: Doc, name: Seq<char>, place: int, count: int) -> Option<Option<Doc>> {
    match doc {
        Doc::List(items) => if items.len() == count {
            Some(Some(items[place]))
        } else {
            None
        },
        _ => Some(member_of(doc, name)),
    }
}

/// A field read as a text: it must be there and be a text.
pub open spec fn read_text(field: Option<Doc>) -> Option<Seq<char>> {
    match field {
        Some(Doc::Text(t)) => Some(t),
        _ => None,
    }
}

/// A field read as an optional text: a text, or nothing where the field is
/// null or missing. Anything else cannot be read.
pub open spec fn read_optional_text(field: Option<Doc>) -> Option<Option<Seq<char>>> {
    match field {
        None => Some(None),
        Some(Doc::Null) => Some(None),
        Some(Doc::Text(t)) => Some(Some(t)),
        _ => None,
    }
}

/// A field read as a number up to `max`: it must be there and be one.
pub open spec fn read_number(field: Option<Doc>, max: u64) -> Option<u64> {
    match field {
        Some(Doc::Number(n)) => if n <= max {
            Some(n)
        } else {
            None
        },
        _ => None,
    }
}

/// A document read as a header: a list of exactly two texts.
pub open spec fn read_header(doc: Doc) -> Option<(Seq<char>, Seq<char>)> {
    match doc {
        Doc::List(items) => if items.len() == 2 {
            match (items[0], items[1]) {
                (Doc::Text(name), Doc::Text(value)) => Some((name, value)),
                _ => None,
            }
        } else {
            None
        },
        _ => None,
    }
}

/// A field read as a list of headers: it must be there and be a list whose
/// items can all be read as headers.
pub open spec fn read_headers(field: Option<Doc>) -> Option<Seq<(Seq<char>, Seq<char>)>> {
    match field {
        Some(Doc::List(items)) => if forall|i: int|
            0 <= i < items.len() ==> read_header(#[trigger] items[i]) is Some {
            Some(Seq::new(items.len(), |i: int| read_header(items[i])->Some_0))
        } else {
            None
        },
        _ => None,
    }
}

/// A document read as a recorded request.
pub open spec fn read_request(doc: Doc) -> Option<RequestLogView> {
    match (
        field(doc, "timestamp"@, 0, 6),
        field(doc, "method"@, 1, 6),
        field(doc, "path"@, 2, 6),
        field(doc, "query_params"@, 3, 6),
        field(doc, "headers"@, 4, 6),
        field(doc, "body"@, 5, 6),
    ) {
        (Some(f0), Some(f1), Some(f2), Some(f3), Some(f4), Some(f5)) => match (
            read_number(f0, u64::MAX),
            read_text(f1),
            read_text(f2),
            read_optional_text(f3),
            read_headers(f4),
            read_optional_text(f5),
        ) {
            (
                Some(timestamp),
                Some(method),
                Some(path),
                Some(query_params),
                Some(headers),
                Some(body),
            ) => Some(RequestLogView { timestamp, method, path, query_params, headers, body }),
            _ => None,
        },
        _ => None,
    }
}

/// A document read as a recorded response.
pub open spec fn read_response(doc: Doc) -> Option<ResponseLogView> {
    match (field(doc, "status"@, 0, 3), field(doc, "headers"@, 1, 3), field(doc, "body"@, 2, 3)) {
        (Some(f0), Some(f1), Some(f2)) => match (
            read_number(f0, 65535),
            read_headers(f1),
            read_optional_text(f2),
        ) {
            (Some(status), Some(headers), Some(body)) => Some(
                ResponseLogView { status: status as u16, headers, body },
            ),
            _ => None,
        },
        _ => None,
    }
}

/// A document read as a recorded exchange.
pub open spec fn read_entry(doc: Doc) -> Option<ProxyLogView> {
    match (field(doc, "request"@, 0, 2), field(doc, "response"@, 1, 2)) {
        (Some(Some(request)), Some(Some(response))) => match (
            read_request(request),
            read_response(response),
        ) {
            (Some(request), Some(response)) => Some(ProxyLogView { request, response }),
            _ => None,
        },
        _ => None,
    }
}

/// A document read as a log: a list whose items can all be read as
/// recorded exchanges.
pub open spec fn read_log(doc: Doc) -> Option<Seq<ProxyLogView>> {
    match doc {
        Doc::List(items) => if forall|i: int|
            0 <= i < items.len() ==> read_entry(#[trigger] items[i]) is Some {
            Some(Seq::new(items.len(), |i: int| read_entry(items[i])->Some_0))
        } else {
            None
        },
        _ => None,
    }
}

/// The document of a field that was looked up.
pub open spec fn found_doc(found: Option<&serde_json::Value>) -> Option<Doc> {
    match found {
        Some(v) => Some(doc_of(*v)),
        None => None,
    }
}

/// The documents of the fields of a record that were looked up.
pub open spec fn field_view(found: Option<Option<&serde_json::Value>>) -> Option<Option<Doc>> {
    match found {
        Some(f) => Some(found_doc(f)),
        None => None,
    }
}

/// Looks up a field of a record.
fn decode_field<'a>(value: &'a serde_json::Value, name: &str, place: usize, count: usize) -> (found:
    Option<Option<&'a serde_json::Value>>)
    requires
        place < count,
    ensures
        field_view(found) == field(doc_of(*value), name@, place as int, count as int),
{
    match value_as_array(value) {
        Some(items) => {
            if items.len() == count {
                Some(Some(&items[place]))
            } else {
                None
            }
        },
        None => Some(value_get(value, name)),
    }
}

/// Reads a field as a text.
fn decode_text(found: Option<&serde_json::Value>) -> (text: Option<String>)
    ensures
        text_view(text) == read_text(found_doc(found)),
{
    match found {
        Some(value) => match value_as_str(value) {
            Some(t) => Some(String::from_str(t)),
            None => None,
        },
        None => None,
    }
}

/// View of an optional text that was or was not read.
pub open spec fn optional_text_view(text: Option<Option<String>>) -> Option<Option<Seq<char>>> {
    match text {
        Some(t) => Some(text_view(t)),
        None => None,
    }
}

/// Reads a field as an optional text.
fn decode_optional_text(found: Option<&serde_json::Value>) -> (text: Option<Option<String>>)
    ensures
        optional_text_view(text) == read_optional_text(found_doc(found)),
{
    match found {
        Some(value) => {
            if value_is_null(value) {
                Some(None)
            } else {
                match value_as_str(value) {
                    Some(t) => Some(Some(String::from_str(t))),
                    None => None,
                }
            }
        },
        None => Some(None),
    }
}

/// Reads a field as a number up to `max`.
fn decode_number(found: Option<&serde_json::Value>, max: u64) -> (number: Option<u64>)
    ensures
        number == read_number(found_doc(found), max),
{
    match found {
        Some(value) => match value_as_u64(value) {
            Some(n) => if n <= max {
                Some(n)
            } else {
                None
            },
            None => None,
        },
        None => None,
    }
}

/// View of a header that was or was not read.
pub open spec fn header_view(header: Option<(String, String)>) -> Option<(Seq<char>, Seq<char>)> {
    match header {
        Some((name, value)) => Some((name@, value@)),
        None => None,
    }
}

/// Reads a value as a header.
fn decode_header(value: &serde_json::Value) -> (header: Option<(String, String)>)
    ensures
        header_view(header) == read_header(doc_of(*value)),
{
    match value_as_array(value) {
        Some(items) => {
            if items.len() != 2 {
                return None;
            }
            match (value_as_str(&items[0]), value_as_str(&items[1])) {
                (Some(name), Some(text)) => Some((String::from_str(name), String::from_str(text))),
                _ => None,
            }
        },
        None => None,
    }
}

/// View of a list of headers that was or was not read.
pub open spec fn headers_read_view(headers: Option<Vec<(String, String)>>) -> Option<
    Seq<(Seq<char>, Seq<char>)>,
> {
    match headers {
        Some(h) => Some(headers_view(h@)),
        None => None,
    }
}

/// Reads a field as a list of headers.
fn decode_headers(found: Option<&serde_json::Value>) -> (headers: Option<Vec<(String, String)>>)
    ensures
        headers_read_view(headers) == read_headers(found_doc(found)),
{
    let value = match found {
        Some(value) => value,
        None => {
            return None;
        },
    };
    let items = match value_as_array(value) {
        Some(items) => items,
        None => {
            return None;
        },
    };
    let ghost docs = docs_of(items@);
    let mut headers: Vec<(String, String)> = Vec::new();
    let mut i: usize = 0;
    while i < items.len()
        invariant
            i <= items.len(),
            headers.len() == i,
            docs == docs_of(items@),
            found_doc(found) == Some(Doc::List(docs)),
            forall|j: int|
                0 <= j < i ==> read_header(#[trigger] docs[j]) == Some(
                    (headers[j].0@, headers[j].1@),
                ),
        decreases items.len() - i,
    {
        match decode_header(&items[i]) {
            Some(header) => {
                assert(docs[i as int] == doc_of(items[i as int]));
                headers.push(header);
            },
            None => {
                assert(docs[i as int] == doc_of(items[i as int]));
                assert(!(read_header(docs[i as int]) is Some));
                return None;
            },
        }
        i = i + 1;
    }
    assert(headers_view(headers@) =~= Seq::new(docs.len(), |i: int| read_header(docs[i])->Some_0));
    Some(headers)
}

/// View of a request that was or was not read.
pub open spec fn request_read_view(request: Option<RequestLog>) -> Option<RequestLogView> {
    match request {
        Some(r) => Some(r@),
        None => None,
    }
}

/// View of a response that was or was not read.
pub open spec fn response_read_view(response: Option<ResponseLog>) -> Option<ResponseLogView> {
    match response {
        Some(r) => Some(r@),
        None => None,
    }
}

/// View of an exchange that was or was not read.
pub open spec fn entry_read_view(entry: Option<ProxyLog>) -> Option<ProxyLogView> {
    match entry {
        Some(e) => Some(e@),
        None => None,
    }
}

/// View of a log that was or was not read.
pub open spec fn log_read_view(log: Option<Vec<ProxyLog>>) -> Option<Seq<ProxyLogView>> {
    match log {
        Some(entries) => Some(entries_view(entries@)),
        None => None,
    }
}

/// Reads a value as a recorded request.
fn decode_request(value: &serde_json::Value) -> (request: Option<RequestLog>)
    ensures
        request_read_view(request) == read_request(doc_of(*value)),
{
    let f0 = decode_field(value, "timestamp", 0, 6);
    let f1 = decode_field(value, "method", 1, 6);
    let f2 = decode_field(value, "path", 2, 6);
    let f3 = decode_field(value, "query_params", 3, 6);
    let f4 = decode_field(value, "headers", 4, 6);
    let f5 = decode_field(value, "body", 5, 6);
    match (f0, f1, f2, f3, f4, f5) {
        (Some(f0), Some(f1), Some(f2), Some(f3), Some(f4), Some(f5)) => {
            let timestamp = decode_number(f0, u64::MAX);
            let method = decode_text(f1);
            let path = decode_text(f2);
            let query_params = decode_optional_text(f3);
            let headers = decode_headers(f4);
            let body = decode_optional_text(f5);
            match (timestamp, method, path, query_params, headers, body) {
                (
                    Some(timestamp),
                    Some(method),
                    Some(path),
                    Some(query_params),
                    Some(headers),
                    Some(body),
                ) => Some(RequestLog { timestamp, method, path, query_params, headers, body }),
                _ => None,
            }
        },
        _ => None,
    }
}

/// Reads a value as a recorded response.
fn decode_response(value: &serde_json::Value) -> (response: Option<ResponseLog>)
    ensures
        response_read_view(response) == read_response(doc_of(*value)),
{
    let f0 = decode_field(value, "status", 0, 3);
    let f1 = decode_field(value, "headers", 1, 3);
    let f2 = decode_field(value, "body", 2, 3);
    match (f0, f1, f2) {
        (Some(f0), Some(f1), Some(f2)) => {
            let status = decode_number(f0, 65535);
            let headers = decode_headers(f1);
            let body = decode_optional_text(f2);
            match (status, headers, body) {
                (Some(status), Some(headers), Some(body)) => Some(
                    ResponseLog { status: status as u16, headers, body },
                ),
                _ => None,
            }
        },
        _ => None,
    }
}

/// Reads a value as a recorded exchange.
fn decode_entry(value: &serde_json::Value) -> (entry: Option<ProxyLog>)
    ensures
        entry_read_view(entry) == read_entry(doc_of(*value)),
{
    let f0 = decode_field(value, "request", 0, 2);
    let f1 = decode_field(value, "response", 1, 2);
    match (f0, f1) {
        (Some(Some(request)), Some(Some(response))) => {
            match (decode_request(request), decode_response(response)) {
                (Some(request), Some(response)) => Some(ProxyLog { request, response }),
                _ => None,
            }
        },
        _ => None,
    }
}

/// Reads the log that a value holds the document of, where it holds one.
pub fn decode_log(value: &serde_json::Value) -> (log: Option<Vec<ProxyLog>>)
    ensures
        log_read_view(log) == read_log(doc_of(*value)),
{
    let items = match value_as_array(value) {
        Some(items) => items,
        None => {
            return None;
        },
    };
    let ghost docs = docs_of(items@);
    let mut entries: Vec<ProxyLog> = Vec::new();
    let mut i: usize = 0;
    while i < items.len()
        invariant
            i <= items.len(),
            entries.len() == i,
            docs == docs_of(items@),
            doc_of(*value) == Doc::List(docs),
            forall|j: int| 0 <= j < i ==> read_entry(#[trigger] docs[j]) == Some(entries[j]@),
        decreases items.len() - i,
    {
        match decode_entry(&items[i]) {
            Some(entry) => {
                assert(docs[i as int] == doc_of(items[i as int]));
                entries.push(entry);
            },
            None => {
                assert(docs[i as int] == doc_of(items[i as int]));
                assert(!(read_entry(docs[i as int]) is Some));
                return None;
            },
        }
        i = i + 1;
    }
    assert(entries_view(entries@) =~= Seq::new(docs.len(), |i: int| read_entry(docs[i])->Some_0));
    Some(entries)
}

/// What a flush of the log has to do.
#[derive(Debug, PartialEq, Clone)]
pub enum Flush {
    /// The log is empty: nothing is written.
    Nothing,
    /// The file is to be replaced by this text.
    Write(String),
}

/// Why a text cannot be loaded as a log.
#[derive(Clone, Copy, Debug, PartialEq, Eq, Structural)]
pub enum LoadError {
    /// The text is no JSON document.
    Syntax,
    /// The document is not that of a log.
    Shape,
}

/// The log that is loaded from what parsing a text gave.
pub open spec fn loaded(parsed: Option<Doc>) -> Result<Seq<ProxyLogView>, LoadError> {
    match parsed {
        None => Err(LoadError::Syntax),
        Some(doc) => match read_log(doc) {
            Some(log) => Ok(log),
            None => Err(LoadError::Shape),
        },
    }
}

/// The log that is loaded from the contents of the file, which may be
/// missing: a missing file gives an empty log.
pub open spec fn loaded_from(contents: Option<Seq<char>>) -> Result<Seq<ProxyLogView>, LoadError> {
    match contents {
        None => Ok(Seq::empty()),
        Some(text) => loaded(parsed_doc(text)),
    }
}

/// View of the outcome of loading.
pub open spec fn load_view(outcome: Result<Vec<ProxyLog>, LoadError>) -> Result<
    Seq<ProxyLogView>,
    LoadError,
> {
    match outcome {
        Ok(entries) => Ok(entries_view(entries@)),
        Err(e) => Err(e),
    }
}

/// The document that a parsed value holds, where there is a value.
pub open spec fn parsed_view(parsed: Option<serde_json::Value>) -> Option<Doc> {
    match parsed {
        Some(v) => Some(doc_of(v)),
        None => None,
    }
}

/// View of the contents of a file that may be missing.
pub open spec fn contents_view(contents: Option<&str>) -> Option<Seq<char>> {
    match contents {
        Some(text) => Some(text@),
        None => None,
    }
}

/// What a flush of a log has to do: nothing for an empty log, else write
/// the text of the log's document.
pub open spec fn flushed(log: Seq<ProxyLogView>) -> Option<Seq<char>> {
    if log.len() == 0 {
        None
    } else {
        Some(pretty_text(log_doc(log)))
    }
}

/// View of what a flush has to do: the text to write, if any.
pub open spec fn flush_view(flush: Flush) -> Option<Seq<char>> {
    match flush {
        Flush::Nothing => None,
        Flush::Write(text) => Some(text@),
    }
}

/// Decides what a flush has to do: nothing for an empty log, else write the
/// text of the log's document.
pub fn save_logs(store: &LogStore) -> (flush: Flush)
    ensures
        flush_view(flush) == flushed(store@),
{
    if store.is_empty() {
        return Flush::Nothing;
    }
    let value = encode_log(&store.entries);
    match print_value(&value) {
        Some(text) => Flush::Write(text),
        None => vstd::pervasive::unreached(),
    }
}

/// Reads a log from what parsing a text gave.
pub fn read_logs(parsed: Option<serde_json::Value>) -> (outcome: Result<Vec<ProxyLog>, LoadError>)
    ensures
        load_view(outcome) == loaded(parsed_view(parsed)),
{
    match parsed {
        None => Err(LoadError::Syntax),
        Some(value) => match decode_log(&value) {
            Some(entries) => Ok(entries),
            None => Err(LoadError::Shape),
        },
    }
}

/// Loads a log from a text.
pub fn parse_logs(text: &str) -> (outcome: Result<Vec<ProxyLog>, LoadError>)
    ensures
        load_view(outcome) == loaded(parsed_doc(text@)),
{
    read_logs(parse_value(text))
}

/// Loads a log from the contents of the file, which may be missing.
pub fn load_logs(contents: Option<&str>) -> (outcome: Result<Vec<ProxyLog>, LoadError>)
    ensures
        load_view(outcome) == loaded_from(contents_view(contents)),
{
    match contents {
        None => {
            let entries: Vec<ProxyLog> = Vec::new();
            assert(entries_view(entries@) =~= Seq::empty());
            Ok(entries)
        },
        Some(text) => parse_logs(text),
    }
}

/// Offers to the log what the file holds, exchange by exchange: one whose
/// identity the log does not hold is added at the end, one whose identity it
/// holds is passed over. Where the file cannot be loaded the log stays as it
/// was.
pub fn restore(store: &mut LogStore, contents: Option<&str>) -> (outcome: Result<(), LoadError>)
    ensures
        match loaded_from(contents_view(contents)) {
            Ok(log) => outcome is Ok && final(store)@ == recorded_all(old(store)@, log),
            Err(e) => outcome == Err::<(), LoadError>(e) && final(store)@ == old(store)@,
        },
        old(store).wf() ==> final(store).wf(),
{
    match load_logs(contents) {
        Ok(entries) => {
            store.hydrate(entries);
            Ok(())
        },
        Err(e) => Err(e),
    }
}

/// The member at a place is the member of its name where no earlier member
/// has that name.
pub proof fn lemma_member_at(members: Seq<(Seq<char>, Doc)>, name: Seq<char>, place: int)
    requires
        0 <= place < members.len(),
        members[place].0 == name,
        forall|j: int| 0 <= j < place ==> (#[trigger] members[j]).0 != name,
    ensures
        member(members, name) == Some(members[place].1),
    decreases place,
{
    if place > 0 {
        assert(members[0].0 != name);
        let rest = members.drop_first();
        assert forall|j: int| 0 <= j < place - 1 implies (#[trigger] rest[j]).0 != name by {
            assert(rest[j] == members[j + 1]);
        }
        lemma_member_at(rest, name, place - 1);
    }
}

/// Headers are read back from their document as they were.
pub proof fn lemma_headers_round_trip(headers: Seq<(Seq<char>, Seq<char>)>)
    ensures
        read_headers(Some(headers_doc(headers))) == Some(headers),
{
    let items = Seq::new(headers.len(), |i: int| header_doc(headers[i]));
    assert forall|i: int| 0 <= i < items.len() implies read_header(#[trigger] items[i]) == Some(
        headers[i],
    ) by {}
    assert(Seq::new(items.len(), |i: int| read_header(items[i])->Some_0) =~= headers);
}

/// A recorded request is read back from its document as it was.
pub proof fn lemma_request_round_trip(request: RequestLogView)
    ensures
        read_request(request_doc(request)) == Some(request),
{
    lemma_request_names();
    let members = request_doc(request)->Object_0;
    lemma_member_at(members, "timestamp"@, 0);
    lemma_member_at(members, "method"@, 1);
    lemma_member_at(members, "path"@, 2);
    lemma_member_at(members, "query_params"@, 3);
    lemma_member_at(members, "headers"@, 4);
    lemma_member_at(members, "body"@, 5);
    lemma_headers_round_trip(request.headers);
}

/// A recorded response is read back from its document as it was.
pub proof fn lemma_response_round_trip(response: ResponseLogView)
    ensures
        read_response(response_doc(response)) == Some(response),
{
    lemma_request_names();
    let members = response_doc(response)->Object_0;
    lemma_member_at(members, "status"@, 0);
    lemma_member_at(members, "headers"@, 1);
    lemma_member_at(members, "body"@, 2);
    lemma_headers_round_trip(response.headers);
}

/// A recorded exchange is read back from its document as it was.
pub proof fn lemma_entry_round_trip(entry: ProxyLogView)
    ensures
        read_entry(entry_doc(entry)) == Some(entry),
{
    lemma_request_names();
    let members = entry_doc(entry)->Object_0;
    lemma_member_at(members, "request"@, 0);
    lemma_member_at(members, "response"@, 1);
    lemma_request_round_trip(entry.request);
    lemma_response_round_trip(entry.response);
}

/// Round trip through the document: the document of a log is read back as
/// that log, exchange for exchange and in the same order.
pub proof fn law_document_round_trip(log: Seq<ProxyLogView>)
    ensures
        read_log(log_doc(log)) == Some(log),
{
    let items = Seq::new(log.len(), |i: int| entry_doc(log[i]));
    assert forall|i: int| 0 <= i < items.len() implies read_entry(#[trigger] items[i]) == Some(
        log[i],
    ) by {
        lemma_entry_round_trip(log[i]);
    }
    assert(Seq::new(items.len(), |i: int| read_entry(items[i])->Some_0) =~= log);
}

/// Round trip through the text: where the JSON text written for the
/// document of a log is parsed back to that document, loading the text
/// gives the log again.
pub proof fn law_text_round_trip(log: Seq<ProxyLogView>)
    requires
        parsed_doc(pretty_text(log_doc(log))) == Some(log_doc(log)),
    ensures
        loaded(parsed_doc(pretty_text(log_doc(log)))) == Ok::<Seq<ProxyLogView>, LoadError>(log),
{
    law_document_round_trip(log);
}

/// Round trip into an empty log: where the JSON text written for the
/// document of a log that holds each identity once is parsed back to that
/// document, restoring an empty log from the text gives the log again.
pub proof fn law_restore_round_trip(log: Seq<ProxyLogView>)
    requires
        unique_identities(log),
        parsed_doc(pretty_text(log_doc(log))) == Some(log_doc(log)),
    ensures
        loaded_from(Some(pretty_text(log_doc(log)))) == Ok::<Seq<ProxyLogView>, LoadError>(log),
        recorded_all(Seq::empty(), log) == log,
{
    law_document_round_trip(log);
    law_unique_log_is_rebuilt(log);
}

} // verus!
