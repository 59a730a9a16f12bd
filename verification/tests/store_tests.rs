use replay::proxy::{ProxyLog, RequestLog, ResponseLog};
use replay::store::LogStore;

fn entry(method: &str, path: &str, query: Option<&str>, status: u16, body: &str) -> ProxyLog {
    ProxyLog {
        request: RequestLog {
            timestamp: 1,
            method: method.to_string(),
            path: path.to_string(),
            query_params: query.map(|q| q.to_string()),
            headers: vec![],
            body: None,
        },
        response: ResponseLog { status, headers: vec![], body: Some(body.to_string()) },
    }
}

#[test]
fn new_store_is_empty() {
    let store = LogStore::new();
    assert!(store.is_empty());
    assert_eq!(store.len(), 0);
    assert_eq!(store.snapshot(), Vec::new());
    assert_eq!(store.list_identities(), Vec::new());
}

#[test]
fn first_capture_of_an_identity_is_kept() {
    let mut store = LogStore::new();
    assert!(store.insert_if_absent(entry("POST", "/items", None, 201, "first")));
    assert!(!store.insert_if_absent(entry("POST", "/items", None, 500, "second")));
    assert!(!store.insert_if_absent(entry("POST", "/items", None, 200, "third")));
    assert_eq!(store.len(), 1);
    assert_eq!(store.entries[0], entry("POST", "/items", None, 201, "first"));
}

#[test]
fn different_queries_are_different_identities() {
    let mut store = LogStore::new();
    assert!(store.insert_if_absent(entry("GET", "/search", Some("q=a"), 200, "a")));
    assert!(store.insert_if_absent(entry("GET", "/search", Some("q=b"), 200, "b")));
    assert_eq!(store.len(), 2);
    let found = store.find("GET", "/search", &Some("q=a".to_string()));
    assert_eq!(found, Some(&entry("GET", "/search", Some("q=a"), 200, "a")));
    assert_eq!(store.position("GET", "/search", &Some("q=b".to_string())), Some(1));
    assert_eq!(store.position("GET", "/search", &None), None);
}

#[test]
fn identity_tells_method_path_and_query_apart() {
    let mut store = LogStore::new();
    assert!(store.insert_if_absent(entry("GET", "/a", None, 200, "1")));
    assert!(store.insert_if_absent(entry("POST", "/a", None, 200, "2")));
    assert!(store.insert_if_absent(entry("GET", "/b", None, 200, "3")));
    assert!(store.insert_if_absent(entry("GET", "/a", Some("x"), 200, "4")));
    assert!(store.insert_if_absent(entry("GET", "/a", Some(""), 200, "5")));
    assert!(!store.insert_if_absent(entry("GET", "/a", None, 404, "6")));
    assert_eq!(store.len(), 5);
}

#[test]
fn find_returns_nothing_for_an_absent_identity() {
    let mut store = LogStore::new();
    store.insert_if_absent(entry("GET", "/a", None, 200, "1"));
    assert_eq!(store.find("GET", "/missing", &None), None);
    assert_eq!(store.find("get", "/a", &None), None);
}

#[test]
fn find_by_key_returns_the_first_under_the_key() {
    let mut store = LogStore::new();
    store.hydrate(vec![
        entry("GET", "/a", None, 200, "first"),
        entry("GET", "/b", None, 200, "other"),
        entry("GET", "/a", Some(""), 500, "second"),
    ]);
    assert_eq!(store.len(), 3);
    assert_eq!(store.position_of_key("GET /a"), Some(0));
    assert_eq!(store.position_of_key("GET /b"), Some(1));
    assert_eq!(store.position_of_key("GET /c"), None);
    assert_eq!(store.find_by_key("GET /a"), Some(&entry("GET", "/a", None, 200, "first")));
    assert_eq!(store.find_by_key("GET /c"), None);
}

#[test]
fn listing_gives_key_and_status_in_order() {
    let mut store = LogStore::new();
    store.insert_if_absent(entry("GET", "/users/1", None, 200, "x"));
    store.insert_if_absent(entry("GET", "/search", Some("q=a"), 404, "y"));
    store.insert_if_absent(entry("DELETE", "/x", Some(""), 204, "z"));
    assert_eq!(
        store.list_identities(),
        vec![
            ("GET /users/1".to_string(), 200),
            ("GET /search?q=a".to_string(), 404),
            ("DELETE /x".to_string(), 204),
        ]
    );
}

#[test]
fn hydrate_passes_over_identities_that_the_store_holds() {
    let mut store = LogStore::new();
    store.insert_if_absent(entry("GET", "/a", None, 200, "1"));
    store.hydrate(vec![entry("GET", "/a", None, 500, "2"), entry("GET", "/b", None, 200, "3")]);
    assert_eq!(
        store.snapshot(),
        vec![entry("GET", "/a", None, 200, "1"), entry("GET", "/b", None, 200, "3")]
    );
}

#[test]
fn hydrate_keeps_the_first_of_each_identity_in_what_it_is_given() {
    let mut store = LogStore::new();
    store.hydrate(vec![
        entry("GET", "/a", None, 200, "1"),
        entry("GET", "/b", None, 200, "2"),
        entry("GET", "/a", None, 500, "3"),
        entry("GET", "/c", None, 200, "4"),
        entry("GET", "/b", None, 404, "5"),
    ]);
    assert_eq!(
        store.snapshot(),
        vec![
            entry("GET", "/a", None, 200, "1"),
            entry("GET", "/b", None, 200, "2"),
            entry("GET", "/c", None, 200, "4"),
        ]
    );
}

#[test]
fn hydrating_twice_with_the_same_entries_changes_nothing_more() {
    let entries = vec![entry("GET", "/a", None, 200, "1"), entry("POST", "/a", None, 201, "2")];
    let mut store = LogStore::new();
    store.hydrate(entries.clone());
    store.hydrate(entries.clone());
    assert_eq!(store.snapshot(), entries);
}

#[test]
fn hydrating_with_nothing_changes_nothing() {
    let mut store = LogStore::new();
    store.insert_if_absent(entry("GET", "/a", None, 200, "1"));
    store.hydrate(Vec::new());
    assert_eq!(store.snapshot(), vec![entry("GET", "/a", None, 200, "1")]);
}

#[test]
fn nothing_is_persisted_of_an_empty_store() {
    let store = LogStore::new();
    assert_eq!(store.snapshot_for_persistence(), None);
}

#[test]
fn snapshot_then_hydrate_restores_the_store() {
    let mut store = LogStore::new();
    store.insert_if_absent(entry("GET", "/a", None, 200, "1"));
    store.insert_if_absent(entry("GET", "/b", Some("x=1"), 201, "2"));
    let snapshot = store.snapshot_for_persistence().unwrap();
    let mut restored = LogStore::new();
    restored.hydrate(snapshot);
    assert_eq!(restored.entries, store.entries);
}

#[test]
fn duplicate_copies_every_field() {
    let original = ProxyLog {
        request: RequestLog {
            timestamp: 42,
            method: "PUT".to_string(),
            path: "/p".to_string(),
            query_params: Some("a=b".to_string()),
            headers: vec![("h".to_string(), "v".to_string()), ("h".to_string(), "w".to_string())],
            body: Some("in".to_string()),
        },
        response: ResponseLog {
            status: 203,
            headers: vec![("k".to_string(), "".to_string())],
            body: None,
        },
    };
    assert_eq!(original.duplicate(), original);
    assert_eq!(original.key(), "PUT /p?a=b");
    assert!(original.has_identity("PUT", "/p", &Some("a=b".to_string())));
    assert!(!original.has_identity("PUT", "/p", &None));
}
