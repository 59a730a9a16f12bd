//! The log of recorded exchanges: an ordered collection in which each
//! identity is recorded once, the first time it is seen.

use vstd::prelude::*;

use crate::key::{key_of, same_identity};
use crate::proxy::{text_view, ProxyLog, ProxyLogView, RequestLogView};
use crate::text::same_str;

verus! {

/// View of a list of exchanges.
pub open spec fn entries_view(entries: Seq<ProxyLog>) -> Seq<ProxyLogView> {
    Seq::new(entries.len(), |i: int| entries[i]@)
}

/// Some exchange of the log has the identity of `request`.
pub open spec fn holds_identity(log: Seq<ProxyLogView>, request: RequestLogView) -> bool {
    exists|i: int| 0 <= i < log.len() && same_identity((#[trigger] log[i]).request, request)
}

/// No two exchanges of the log have the same identity.
pub open spec fn unique_identities(log: Seq<ProxyLogView>) -> bool {
    forall|i: int, j: int|
        0 <= i < j < log.len() ==> !same_identity(
            (#[trigger] log[i]).request,
            (#[trigger] log[j]).request,
        )
}

/// The log after `entry` was offered to it: unchanged where it holds the
/// identity already, else with `entry` at its end.
pub open spec fn recorded(log: Seq<ProxyLogView>, entry: ProxyLogView) -> Seq<ProxyLogView> {
    if holds_identity(log, entry.request) {
        log
    } else {
        log.push(entry)
    }
}

/// The log after each exchange of `entries` was offered to it in turn.
pub open spec fn recorded_all(log: Seq<ProxyLogView>, entries: Seq<ProxyLogView>) -> Seq<
    ProxyLogView,
>
    decreases entries.len(),
{
    if entries.len() == 0 {
        log
    } else {
        recorded_all(recorded(log, entries[0]), entries.drop_first())
    }
}

/// `i` is the place of the first exchange with this method, path and query.
pub open spec fn is_first_of_identity(
    log: Seq<ProxyLogView>,
    method: Seq<char>,
    path: Seq<char>,
    query: Option<Seq<char>>,
    i: int,
) -> bool {
    &&& 0 <= i < log.len()
    &&& log[i].request.method == method
    &&& log[i].request.path == path
    &&& log[i].request.query_params == query
    &&& forall|j: int|
        0 <= j < i ==> !({
            &&& (#[trigger] log[j]).request.method == method
            &&& log[j].request.path == path
            &&& log[j].request.query_params == query
        })
}

/// No exchange of the log has this method, path and query.
pub open spec fn lacks_identity(
    log: Seq<ProxyLogView>,
    method: Seq<char>,
    path: Seq<char>,
    query: Option<Seq<char>>,
) -> bool {
    forall|j: int|
        0 <= j < log.len() ==> !({
            &&& (#[trigger] log[j]).request.method == method
            &&& log[j].request.path == path
            &&& log[j].request.query_params == query
        })
}

/// `i` is the place of the first exchange listed under `key`.
pub open spec fn is_first_with_key(log: Seq<ProxyLogView>, key: Seq<char>, i: int) -> bool {
    &&& 0 <= i < log.len()
    &&& key_of(log[i]) == key
    &&& forall|j: int| 0 <= j < i ==> key_of(#[trigger] log[j]) != key
}

/// The place of the first exchange listed under `key`, if there is one.
pub open spec fn first_with_key(log: Seq<ProxyLogView>, key: Seq<char>) -> Option<int> {
    if exists|i: int| is_first_with_key(log, key, i) {
        Some(choose|i: int| is_first_with_key(log, key, i))
    } else {
        None
    }
}

/// The first place under a key is the only one that is first, and there is
/// none exactly when no exchange is listed under the key.
pub proof fn lemma_first_with_key(log: Seq<ProxyLogView>, key: Seq<char>)
    ensures
        first_with_key(log, key) is None <==> lacks_key(log, key),
        forall|i: int| is_first_with_key(log, key, i) <==> first_with_key(log, key) == Some(i),
{
    if exists|i: int| is_first_with_key(log, key, i) {
        let c = choose|i: int| is_first_with_key(log, key, i);
        assert(key_of(log[c]) == key);
        assert forall|i: int| is_first_with_key(log, key, i) implies i == c by {
            if i < c {
                assert(key_of(log[i]) != key);
            } else if c < i {
                assert(key_of(log[c]) != key);
            }
        }
    } else {
        if !lacks_key(log, key) {
            lemma_some_first(log, key, log.len() as int);
        }
    }
}

/// Where an exchange before place `n` is listed under `key`, one of them is
/// the first.
proof fn lemma_some_first(log: Seq<ProxyLogView>, key: Seq<char>, n: int)
    requires
        0 <= n <= log.len(),
        exists|j: int| 0 <= j < n && key_of(#[trigger] log[j]) == key,
    ensures
        exists|i: int| is_first_with_key(log, key, i),
    decreases n,
{
    let j = choose|j: int| 0 <= j < n && key_of(#[trigger] log[j]) == key;
    if exists|k: int| 0 <= k < j && key_of(#[trigger] log[k]) == key {
        lemma_some_first(log, key, j);
    } else {
        assert(is_first_with_key(log, key, j));
    }
}

/// No exchange of the log is listed under `key`.
pub open spec fn lacks_key(log: Seq<ProxyLogView>, key: Seq<char>) -> bool {
    forall|j: int| 0 <= j < log.len() ==> key_of(#[trigger] log[j]) != key
}

/// The listing of a log: of each exchange its key and its status, in order.
pub open spec fn listing(log: Seq<ProxyLogView>) -> Seq<(Seq<char>, u16)> {
    Seq::new(log.len(), |i: int| (key_of(log[i]), log[i].response.status))
}

/// View of a listing.
pub open spec fn listing_view(list: Seq<(String, u16)>) -> Seq<(Seq<char>, u16)> {
    Seq::new(list.len(), |i: int| (list[i].0@, list[i].1))
}

/// The log of recorded exchanges, oldest first.
pub struct LogStore {
    pub entries: Vec<ProxyLog>,
}

impl View for LogStore {
    type V = Seq<ProxyLogView>;

    open spec fn view(&self) -> Seq<ProxyLogView> {
        entries_view(self.entries@)
    }
}

impl LogStore {
    /// The log holds each identity once.
    pub open spec fn wf(&self) -> bool {
        unique_identities(self@)
    }

    /// An empty log.
    pub fn new() -> (store: LogStore)
        ensures
            store@ == Seq::<ProxyLogView>::empty(),
            store.wf(),
    {
        let store = LogStore { entries: Vec::new() };
        assert(store@ =~= Seq::<ProxyLogView>::empty());
        store
    }

    /// The number of recorded exchanges.
    pub fn len(&self) -> (n: usize)
        ensures
            n == self@.len(),
    {
        self.entries.len()
    }

    /// Tells whether nothing is recorded.
    pub fn is_empty(&self) -> (empty: bool)
        ensures
            empty == (self@.len() == 0),
    {
        self.entries.len() == 0
    }

    /// The place of the first exchange with this method, path and query.
    pub fn position(&self, method: &str, path: &str, query: &Option<String>) -> (found: Option<
        usize,
    >)
        ensures
            match found {
                Some(i) => is_first_of_identity(self@, method@, path@, text_view(*query), i as int),
                None => lacks_identity(self@, method@, path@, text_view(*query)),
            },
    {
        let mut i: usize = 0;
        while i < self.entries.len()
            invariant
                i <= self.entries.len(),
                forall|j: int|
                    0 <= j < i ==> !({
                        &&& (#[trigger] self@[j]).request.method == method@
                        &&& self@[j].request.path == path@
                        &&& self@[j].request.query_params == text_view(*query)
                    }),
            decreases self.entries.len() - i,
        {
            if self.entries[i].has_identity(method, path, query) {
                return Some(i);
            }
            i = i + 1;
        }
        None
    }

    /// The first exchange with this method, path and query.
    pub fn find(&self, method: &str, path: &str, query: &Option<String>) -> (found: Option<
        &ProxyLog,
    >)
        ensures
            match found {
                Some(entry) => exists|i: int|
                    is_first_of_identity(self@, method@, path@, text_view(*query), i) && entry@
                        == self@[i],
                None => lacks_identity(self@, method@, path@, text_view(*query)),
            },
    {
        match self.position(method, path, query) {
            Some(i) => {
                assert(is_first_of_identity(self@, method@, path@, text_view(*query), i as int));
                Some(&self.entries[i])
            },
            None => None,
        }
    }

    /// The place of the first exchange listed under `key`.
    pub fn position_of_key(&self, key: &str) -> (found: Option<usize>)
        ensures
            match found {
                Some(i) => first_with_key(self@, key@) == Some(i as int),
                None => first_with_key(self@, key@) is None,
            },
    {
        proof {
            lemma_first_with_key(self@, key@);
        }
        let mut i: usize = 0;
        while i < self.entries.len()
            invariant
                i <= self.entries.len(),
                forall|j: int| 0 <= j < i ==> key_of(#[trigger] self@[j]) != key@,
            decreases self.entries.len() - i,
        {
            let entry_key = self.entries[i].key();
            if same_str(entry_key.as_str(), key) {
                assert(is_first_with_key(self@, key@, i as int));
                return Some(i);
            }
            i = i + 1;
        }
        assert(lacks_key(self@, key@));
        None
    }

    /// The first exchange listed under `key`.
    pub fn find_by_key(&self, key: &str) -> (found: Option<&ProxyLog>)
        ensures
            match first_with_key(self@, key@) {
                Some(i) => {
                    &&& 0 <= i < self@.len()
                    &&& found matches Some(entry)
                    &&& entry@ == self@[i]
                },
                None => found is None,
            },
    {
        proof {
            lemma_first_with_key(self@, key@);
        }
        match self.position_of_key(key) {
            Some(i) => {
                assert(is_first_with_key(self@, key@, i as int));
                Some(&self.entries[i])
            },
            None => None,
        }
    }

    /// Offers an exchange to the log: it is added at the end unless an
    /// exchange of the same identity is recorded already. Tells whether it
    /// was added.
    pub fn insert_if_absent(&mut self, entry: ProxyLog) -> (added: bool)
        ensures
            final(self)@ == recorded(old(self)@, entry@),
            added == !holds_identity(old(self)@, entry@.request),
            old(self).wf() ==> final(self).wf(),
    {
        let found = self.position(
            entry.request.method.as_str(),
            entry.request.path.as_str(),
            &entry.request.query_params,
        );
        match found {
            Some(i) => {
                assert(same_identity(self@[i as int].request, entry@.request));
                false
            },
            None => {
                let ghost before = self@;
                self.entries.push(entry);
                assert(self@ =~= before.push(entry@));
                assert(!holds_identity(before, entry@.request));
                true
            },
        }
    }

    /// Offers exchanges read from elsewhere to the log, each in turn: one
    /// whose identity the log does not hold is added at the end, one whose
    /// identity it holds is passed over.
    pub fn hydrate(&mut self, entries: Vec<ProxyLog>)
        ensures
            final(self)@ == recorded_all(old(self)@, entries_view(entries@)),
            old(self).wf() ==> final(self).wf(),
    {
        let ghost before = self@;
        let ghost list = entries@;
        let ghost all = entries_view(list);
        proof {
            assert(all.subrange(0, all.len() as int) =~= all);
        }
        for entry in it: entries
            invariant
                it.seq() == list,
                all == entries_view(list),
                recorded_all(self@, all.subrange(it.index() as int, all.len() as int))
                    == recorded_all(before, all),
                unique_identities(before) ==> unique_identities(self@),
        {
            proof {
                let i = it.index() as int;
                let rest = all.subrange(i, all.len() as int);
                assert(rest[0] == entry@);
                assert(rest.drop_first() =~= all.subrange(i + 1, all.len() as int));
            }
            self.insert_if_absent(entry);
        }
    }

    /// A copy of the whole log, for writing it out.
    pub fn snapshot(&self) -> (copy: Vec<ProxyLog>)
        ensures
            entries_view(copy@) == self@,
    {
        let mut copy: Vec<ProxyLog> = Vec::new();
        let mut i: usize = 0;
        while i < self.entries.len()
            invariant
                i <= self.entries.len(),
                copy.len() == i,
                forall|j: int| 0 <= j < i ==> (#[trigger] copy[j])@ == self.entries[j]@,
            decreases self.entries.len() - i,
        {
            copy.push(self.entries[i].duplicate());
            i = i + 1;
        }
        assert(entries_view(copy@) =~= self@);
        copy
    }

    /// What a flush has to write: nothing while the log is empty, else a
    /// copy of the whole log.
    pub fn snapshot_for_persistence(&self) -> (copy: Option<Vec<ProxyLog>>)
        ensures
            match copy {
                Some(entries) => self@.len() > 0 && entries_view(entries@) == self@,
                None => self@.len() == 0,
            },
    {
        if self.is_empty() {
            None
        } else {
            Some(self.snapshot())
        }
    }

    /// The key and the status of each recorded exchange, in order.
    pub fn list_identities(&self) -> (list: Vec<(String, u16)>)
        ensures
            listing_view(list@) == listing(self@),
    {
        let mut list: Vec<(String, u16)> = Vec::new();
        let mut i: usize = 0;
        while i < self.entries.len()
            invariant
                i <= self.entries.len(),
                list.len() == i,
                forall|j: int|
                    0 <= j < i ==> (#[trigger] list[j]).0@ == key_of(self@[j]) && list[j].1
                        == self@[j].response.status,
            decreases self.entries.len() - i,
        {
            let entry = &self.entries[i];
            list.push((entry.key(), entry.response.status));
            i = i + 1;
        }
        assert(listing_view(list@) =~= listing(self@));
        list
    }
}

/// Offering an exchange to a log that holds each identity once leaves a log
/// that holds each identity once.
pub proof fn law_recorded_keeps_unique(log: Seq<ProxyLogView>, entry: ProxyLogView)
    requires
        unique_identities(log),
    ensures
        unique_identities(recorded(log, entry)),
{
    if !holds_identity(log, entry.request) {
        let after = log.push(entry);
        assert forall|i: int, j: int| 0 <= i < j < after.len() implies !same_identity(
            (#[trigger] after[i]).request,
            (#[trigger] after[j]).request,
        ) by {
            if j == log.len() {
                assert(after[i] == log[i]);
                assert(!same_identity(log[i].request, entry.request));
            } else {
                assert(after[i] == log[i] && after[j] == log[j]);
            }
        }
    }
}

/// Whatever is captured, and in whatever order, a log that holds each
/// identity once keeps holding each identity once.
pub proof fn law_captures_keep_unique(log: Seq<ProxyLogView>, entries: Seq<ProxyLogView>)
    requires
        unique_identities(log),
    ensures
        unique_identities(recorded_all(log, entries)),
    decreases entries.len(),
{
    if entries.len() > 0 {
        law_recorded_keeps_unique(log, entries[0]);
        law_captures_keep_unique(recorded(log, entries[0]), entries.drop_first());
    }
}

/// Identity uniqueness: of captures that share one identity the log keeps
/// the first and discards the rest. The log after all of them is the log
/// after the first alone.
pub proof fn law_first_capture_wins(log: Seq<ProxyLogView>, entries: Seq<ProxyLogView>)
    requires
        entries.len() > 0,
        forall|i: int|
            0 <= i < entries.len() ==> same_identity(
                (#[trigger] entries[i]).request,
                entries[0].request,
            ),
    ensures
        recorded_all(log, entries) == recorded(log, entries[0]),
    decreases entries.len(),
{
    let first = entries[0];
    let after = recorded(log, first);
    let rest = entries.drop_first();
    assert(holds_identity(after, first.request)) by {
        if holds_identity(log, first.request) {
        } else {
            assert(after[log.len() as int] == first);
            assert(same_identity(after[log.len() as int].request, first.request));
        }
    }
    if rest.len() > 0 {
        assert forall|i: int| 0 <= i < rest.len() implies same_identity(
            (#[trigger] rest[i]).request,
            rest[0].request,
        ) by {
            assert(rest[i] == entries[i + 1]);
            assert(rest[0] == entries[1]);
        }
        law_first_capture_wins(after, rest);
        assert(rest[0] == entries[1]);
        assert(holds_identity(after, rest[0].request)) by {
            let k = choose|k: int|
                0 <= k < after.len() && same_identity((#[trigger] after[k]).request, first.request);
            assert(same_identity(after[k].request, rest[0].request));
        }
        assert(recorded(after, rest[0]) == after);
    } else {
        assert(recorded_all(after, rest) == after);
    }
}

/// Identity uniqueness, from an empty log: after captures that share one
/// identity the log holds exactly one exchange, the first that was captured.
pub proof fn law_one_entry_per_identity(entries: Seq<ProxyLogView>)
    requires
        entries.len() > 0,
        forall|i: int|
            0 <= i < entries.len() ==> same_identity(
                (#[trigger] entries[i]).request,
                entries[0].request,
            ),
    ensures
        recorded_all(Seq::empty(), entries) == seq![entries[0]],
{
    law_first_capture_wins(Seq::empty(), entries);
    assert(!holds_identity(Seq::<ProxyLogView>::empty(), entries[0].request));
    assert(Seq::<ProxyLogView>::empty().push(entries[0]) =~= seq![entries[0]]);
}

/// Offering exchanges whose identities the log holds already changes
/// nothing: a log hydrated again from what it was hydrated from stays as
/// it is.
pub proof fn law_held_entries_change_nothing(log: Seq<ProxyLogView>, entries: Seq<ProxyLogView>)
    requires
        forall|i: int|
            0 <= i < entries.len() ==> holds_identity(log, (#[trigger] entries[i]).request),
    ensures
        recorded_all(log, entries) == log,
    decreases entries.len(),
{
    if entries.len() > 0 {
        let rest = entries.drop_first();
        assert(holds_identity(log, entries[0].request));
        assert forall|i: int| 0 <= i < rest.len() implies holds_identity(
            log,
            (#[trigger] rest[i]).request,
        ) by {
            assert(rest[i] == entries[i + 1]);
        }
        law_held_entries_change_nothing(log, rest);
    }
}

/// Offering to a log, one after the other, exchanges that together with it
/// hold each identity once adds them all, in their order.
pub proof fn lemma_distinct_entries_are_added(log: Seq<ProxyLogView>, entries: Seq<ProxyLogView>)
    requires
        unique_identities(log + entries),
    ensures
        recorded_all(log, entries) == log + entries,
    decreases entries.len(),
{
    let whole = log + entries;
    if entries.len() == 0 {
        assert(whole =~= log);
    } else {
        let first = entries[0];
        let rest = entries.drop_first();
        assert(!holds_identity(log, first.request)) by {
            if holds_identity(log, first.request) {
                let i = choose|i: int|
                    0 <= i < log.len() && same_identity((#[trigger] log[i]).request, first.request);
                assert(whole[i] == log[i]);
                assert(whole[log.len() as int] == first);
                assert(same_identity(whole[i].request, whole[log.len() as int].request));
            }
        }
        assert(log.push(first) + rest =~= whole);
        lemma_distinct_entries_are_added(log.push(first), rest);
    }
}

/// A log that holds each identity once is rebuilt from an empty log by
/// offering its exchanges in their order: each is there again, once and in
/// its place.
pub proof fn law_unique_log_is_rebuilt(log: Seq<ProxyLogView>)
    requires
        unique_identities(log),
    ensures
        recorded_all(Seq::empty(), log) == log,
{
    assert(Seq::<ProxyLogView>::empty() + log =~= log);
    lemma_distinct_entries_are_added(Seq::empty(), log);
}

/// A log that is offered its own exchanges again stays as it is.
pub proof fn law_hydrating_again_changes_nothing(log: Seq<ProxyLogView>)
    ensures
        recorded_all(log, log) == log,
{
    assert forall|i: int| 0 <= i < log.len() implies holds_identity(
        log,
        (#[trigger] log[i]).request,
    ) by {
        assert(same_identity(log[i].request, log[i].request));
    }
    law_held_entries_change_nothing(log, log);
}

} // verus!
