//! The identity key of a request: the text under which a recorded exchange
//! is listed and found again.

use vstd::prelude::*;
use vstd::string::*;

use crate::text::same_str;
use crate::proxy::{text_view, ProxyLog, ProxyLogView, RequestLogView};

verus! {

/// The query part of a key: `?` and the query when there is a non-empty
/// query, nothing otherwise.
pub open spec fn query_suffix(query: Option<Seq<char>>) -> Seq<char> {
    match query {
        Some(q) => if q.len() > 0 { seq!['?'] + q } else { Seq::empty() },
        None => Seq::empty(),
    }
}

/// The identity key of a request: method, a space, the path, and the query
/// suffix.
pub open spec fn request_key(method: Seq<char>, path: Seq<char>, query: Option<Seq<char>>) -> Seq<
    char,
> {
    method + seq![' '] + path + query_suffix(query)
}


/// Computes the identity key of a request.
pub fn build_request_key(method: &str, path: &str, query: &Option<String>) -> (key: String)
    ensures
        key@ == request_key(method@, path@, text_view(*query)),
{
    proof {
        reveal_strlit(" ");
        reveal_strlit("?");
    }
    let mut key = String::from_str(method);
    key.append(" ");
    key.append(path);
    match query {
        Some(q) => {
            if !q.as_str().is_empty() {
                key.append("?");
                key.append(q.as_str());
            }
        },
        None => {},
    }
    assert(" "@ =~= seq![' ']);
    assert("?"@ =~= seq!['?']);
    assert(key@ =~= request_key(method@, path@, text_view(*query)));
    key
}

/// The identity key of a recorded request.
pub open spec fn key_of_request(request: RequestLogView) -> Seq<char> {
    request_key(request.method, request.path, request.query_params)
}

/// The identity key under which a recorded exchange is listed.
pub open spec fn key_of(entry: ProxyLogView) -> Seq<char> {
    key_of_request(entry.request)
}

/// Two requests have the same identity: the same method, path and query.
pub open spec fn same_identity(a: RequestLogView, b: RequestLogView) -> bool {
    a.method == b.method && a.path == b.path && a.query_params == b.query_params
}

/// Tells whether two optional texts are equal.
pub fn same_text(a: &Option<String>, b: &Option<String>) -> (same: bool)
    ensures
        same == (text_view(*a) == text_view(*b)),
{
    match (a, b) {
        (Some(x), Some(y)) => *x == *y,
        (None, None) => true,
        _ => false,
    }
}

impl ProxyLog {
    /// Computes the identity key of the exchange.
    pub fn key(&self) -> (key: String)
        ensures
            key@ == key_of(self@),
    {
        build_request_key(
            self.request.method.as_str(),
            self.request.path.as_str(),
            &self.request.query_params,
        )
    }

    /// Tells whether the exchange is one of this method, path and query.
    pub fn has_identity(&self, method: &str, path: &str, query: &Option<String>) -> (same: bool)
        ensures
            same == (self@.request.method == method@ && self@.request.path == path@
                && self@.request.query_params == text_view(*query)),
    {
        same_str(self.request.method.as_str(), method) && same_str(self.request.path.as_str(), path)
            && same_text(&self.request.query_params, query)
    }
}

/// The query as the replay side sees it: a query string, which is empty
/// where the request has no query.
pub open spec fn query_string(query: Option<Seq<char>>) -> Seq<char> {
    match query {
        Some(q) => q,
        None => Seq::empty(),
    }
}

/// The query as the key sees it: none where it is absent or empty.
pub open spec fn plain_query(query: Option<Seq<char>>) -> Option<Seq<char>> {
    match query {
        Some(q) => if q.len() > 0 { Some(q) } else { None },
        None => None,
    }
}

/// A request whose method holds no space, whose path holds no question
/// mark, and whose query is absent rather than empty: the form of every
/// request that came in over HTTP without a bare `?` at its end.
pub open spec fn is_plain(request: RequestLogView) -> bool {
    &&& !request.method.contains(' ')
    &&& !request.path.contains('?')
    &&& request.query_params != Some(Seq::<char>::empty())
}

/// Key symmetry: the side that records a request, with its query present or
/// absent, and the side that looks one up, from its query string, compute
/// the same key for the same request.
pub proof fn law_key_symmetry(method: Seq<char>, path: Seq<char>, query: Option<Seq<char>>)
    ensures
        request_key(method, path, query) == request_key(
            method,
            path,
            if query_string(query).len() == 0 {
                None
            } else {
                Some(query_string(query))
            },
        ),
{
}

/// Two texts cut at the first occurrence of a mark are equal only where
/// both parts are.
pub proof fn lemma_cut_at_mark(
    head_a: Seq<char>,
    tail_a: Seq<char>,
    head_b: Seq<char>,
    tail_b: Seq<char>,
    mark: char,
)
    requires
        !head_a.contains(mark),
        !head_b.contains(mark),
        head_a + seq![mark] + tail_a == head_b + seq![mark] + tail_b,
    ensures
        head_a == head_b,
        tail_a == tail_b,
{
    let left = head_a + seq![mark] + tail_a;
    let right = head_b + seq![mark] + tail_b;
    if head_a.len() < head_b.len() {
        assert(left[head_a.len() as int] == mark);
        assert(right[head_a.len() as int] == head_b[head_a.len() as int]);
        assert(head_b.contains(mark));
    } else if head_b.len() < head_a.len() {
        assert(right[head_b.len() as int] == mark);
        assert(left[head_b.len() as int] == head_a[head_b.len() as int]);
        assert(head_a.contains(mark));
    }
    assert(head_a =~= head_b) by {
        assert forall|i: int| 0 <= i < head_a.len() implies head_a[i] == head_b[i] by {
            assert(left[i] == head_a[i]);
            assert(right[i] == head_b[i]);
        }
    }
    assert(tail_a =~= tail_b) by {
        assert(left.len() == right.len());
        assert forall|i: int| 0 <= i < tail_a.len() implies tail_a[i] == tail_b[i] by {
            assert(left[head_a.len() + 1 + i] == tail_a[i]);
            assert(right[head_b.len() + 1 + i] == tail_b[i]);
        }
    }
}

/// The key tells requests apart: two requests whose methods hold no space
/// and whose paths hold no question mark have the same key exactly when
/// they have the same method and path and, but for an empty query counting
/// as none, the same query.
pub proof fn law_key_injective(
    method_a: Seq<char>,
    path_a: Seq<char>,
    query_a: Option<Seq<char>>,
    method_b: Seq<char>,
    path_b: Seq<char>,
    query_b: Option<Seq<char>>,
)
    requires
        !method_a.contains(' '),
        !method_b.contains(' '),
        !path_a.contains('?'),
        !path_b.contains('?'),
    ensures
        request_key(method_a, path_a, query_a) == request_key(method_b, path_b, query_b) <==> {
            &&& method_a == method_b
            &&& path_a == path_b
            &&& plain_query(query_a) == plain_query(query_b)
        },
{
    let suffix_a = query_suffix(query_a);
    let suffix_b = query_suffix(query_b);
    if request_key(method_a, path_a, query_a) == request_key(method_b, path_b, query_b) {
        let rest_a = path_a + suffix_a;
        let rest_b = path_b + suffix_b;
        assert(method_a + seq![' '] + path_a + suffix_a =~= method_a + seq![' '] + rest_a);
        assert(method_b + seq![' '] + path_b + suffix_b =~= method_b + seq![' '] + rest_b);
        lemma_cut_at_mark(method_a, rest_a, method_b, rest_b, ' ');
        let plain_a = plain_query(query_a);
        let plain_b = plain_query(query_b);
        match (plain_a, plain_b) {
            (Some(text_a), Some(text_b)) => {
                assert(path_a + suffix_a =~= path_a + seq!['?'] + text_a);
                assert(path_b + suffix_b =~= path_b + seq!['?'] + text_b);
                lemma_cut_at_mark(path_a, text_a, path_b, text_b, '?');
            },
            (Some(text_a), None) => {
                assert(suffix_b =~= Seq::<char>::empty());
                assert(path_b + suffix_b =~= path_b);
                assert((path_a + suffix_a)[path_a.len() as int] == '?');
                assert(path_b.contains('?'));
            },
            (None, Some(text_b)) => {
                assert(suffix_a =~= Seq::<char>::empty());
                assert(path_a + suffix_a =~= path_a);
                assert((path_b + suffix_b)[path_b.len() as int] == '?');
                assert(path_a.contains('?'));
            },
            (None, None) => {
                assert(path_a + suffix_a =~= path_a);
                assert(path_b + suffix_b =~= path_b);
            },
        }
    }
    if method_a == method_b && path_a == path_b && plain_query(query_a) == plain_query(query_b) {
        assert(suffix_a == suffix_b);
    }
}

/// Among plain requests the key and the identity agree: two of them have
/// the same key exactly when they have the same method, path and query.
pub proof fn law_key_is_identity(a: RequestLogView, b: RequestLogView)
    requires
        is_plain(a),
        is_plain(b),
    ensures
        key_of_request(a) == key_of_request(b) <==> same_identity(a, b),
{
    law_key_injective(a.method, a.path, a.query_params, b.method, b.path, b.query_params);
    match (a.query_params, b.query_params) {
        (Some(x), Some(y)) => {
            assert(x.len() > 0) by {
                assert(x.len() == 0 ==> x =~= Seq::<char>::empty());
            }
            assert(y.len() > 0) by {
                assert(y.len() == 0 ==> y =~= Seq::<char>::empty());
            }
        },
        (Some(x), None) => {
            assert(x.len() == 0 ==> x =~= Seq::<char>::empty());
        },
        (None, Some(y)) => {
            assert(y.len() == 0 ==> y =~= Seq::<char>::empty());
        },
        (None, None) => {},
    }
}

} // verus!
