use replay::key::build_request_key;

#[test]
fn key_without_query() {
    assert_eq!(build_request_key("GET", "/users/1", &None), "GET /users/1");
}

#[test]
fn key_with_query() {
    assert_eq!(
        build_request_key("GET", "/search", &Some("q=a".to_string())),
        "GET /search?q=a"
    );
}

#[test]
fn key_with_empty_query_is_key_without_query() {
    assert_eq!(
        build_request_key("GET", "/x", &Some(String::new())),
        build_request_key("GET", "/x", &None)
    );
}

#[test]
fn key_joins_its_parts_as_they_are() {
    assert_eq!(build_request_key("", "", &None), " ");
    assert_eq!(build_request_key("POST", "/a b", &Some("x=?&y".to_string())), "POST /a b?x=?&y");
    assert_eq!(build_request_key("DELETE", "/caf\u{e9}", &None), "DELETE /caf\u{e9}");
}
