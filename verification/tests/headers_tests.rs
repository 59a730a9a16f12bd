use replay::headers::{
    capture_can_send, capture_can_send_status, passes, record_headers, replay_can_send,
    replay_can_send_status, sift, HeaderRule,
};

fn pair(name: &str, value: &str) -> (String, String) {
    (name.to_string(), value.to_string())
}

fn is_token_char(c: char) -> bool {
    c.is_ascii_alphanumeric() || "!#$%&'*+-.^_`|~".contains(c)
}

#[test]
fn capture_names_are_tokens_character_by_character() {
    for code in 0u32..0x250 {
        let c = char::from_u32(code).unwrap();
        let name = format!("x{}y", c);
        assert_eq!(capture_can_send(&name, "v"), is_token_char(c), "character {}", code);
    }
}

#[test]
fn replay_names_are_tokens_or_quotes_character_by_character() {
    for code in 0u32..0x250 {
        let c = char::from_u32(code).unwrap();
        let name = format!("x{}y", c);
        assert_eq!(replay_can_send(&name, "v"), is_token_char(c) || c == '"', "character {}", code);
    }
}

#[test]
fn the_two_sides_differ_on_a_quote_in_a_name() {
    assert!(!capture_can_send("x\"y", "v"));
    assert!(replay_can_send("x\"y", "v"));
}

#[test]
fn capture_names_agree_with_hyper() {
    for code in 0u32..0x250 {
        let c = char::from_u32(code).unwrap();
        let name = format!("{}", c);
        let expected = hyper::header::HeaderName::from_bytes(name.as_bytes()).is_ok();
        assert_eq!(capture_can_send(&name, ""), expected, "character {}", code);
    }
}

#[test]
fn replay_names_agree_with_actix() {
    for code in 0u32..0x250 {
        let c = char::from_u32(code).unwrap();
        let name = format!("{}", c);
        let expected = actix_web::http::header::HeaderName::try_from(name.as_str()).is_ok();
        assert_eq!(replay_can_send(&name, ""), expected, "character {}", code);
    }
}

#[test]
fn empty_name_is_refused() {
    assert!(!capture_can_send("", "v"));
    assert!(!replay_can_send("", "v"));
}

#[test]
fn name_length_is_bounded() {
    let longest = "a".repeat(65535);
    let too_long = "a".repeat(65536);
    assert!(capture_can_send(&longest, "v"));
    assert!(!capture_can_send(&too_long, "v"));
    assert!(replay_can_send(&longest, "v"));
    assert!(!replay_can_send(&too_long, "v"));
}

#[test]
fn long_names_are_checked_character_by_character_too() {
    let mut name = "a".repeat(100);
    assert!(capture_can_send(&name, "v"));
    name.push(' ');
    assert!(!capture_can_send(&name, "v"));
    assert!(!replay_can_send(&name, "v"));
}

#[test]
fn standard_names_in_any_case_are_accepted() {
    assert!(capture_can_send("Content-Type", "text/plain"));
    assert!(capture_can_send("content-type", "text/plain"));
    assert!(replay_can_send("Content-Type", "text/plain"));
}

#[test]
fn values_are_checked_character_by_character() {
    for code in 0u32..0x250 {
        let c = char::from_u32(code).unwrap();
        let value = format!("a{}b", c);
        let expected = c == '\t' || (code >= 32 && code != 127);
        assert_eq!(capture_can_send("x", &value), expected, "character {}", code);
        assert_eq!(replay_can_send("x", &value), expected, "character {}", code);
    }
}

#[test]
fn empty_value_is_accepted() {
    assert!(capture_can_send("x", ""));
    assert!(replay_can_send("x", ""));
}

#[test]
fn status_codes_have_three_digits() {
    for code in 0u16..1200 {
        let expected = (100..=999).contains(&code);
        assert_eq!(capture_can_send_status(code), expected, "code {}", code);
        assert_eq!(replay_can_send_status(code), expected, "code {}", code);
    }
    assert!(!capture_can_send_status(u16::MAX));
    assert!(!replay_can_send_status(u16::MAX));
}

#[test]
fn forward_rule_drops_host_and_connection() {
    assert!(!passes(HeaderRule::Forward, "host", "example.com"));
    assert!(!passes(HeaderRule::Forward, "Host", "example.com"));
    assert!(!passes(HeaderRule::Forward, "CONNECTION", "keep-alive"));
    assert!(passes(HeaderRule::Forward, "transfer-encoding", "chunked"));
    assert!(passes(HeaderRule::Forward, "accept", "*/*"));
    assert!(!passes(HeaderRule::Forward, "bad name", "x"));
    assert!(!passes(HeaderRule::Forward, "x", "bad\nvalue"));
}

#[test]
fn return_rule_drops_connection_and_transfer_encoding() {
    assert!(!passes(HeaderRule::Return, "connection", "keep-alive"));
    assert!(!passes(HeaderRule::Return, "Transfer-Encoding", "chunked"));
    assert!(passes(HeaderRule::Return, "host", "example.com"));
    assert!(passes(HeaderRule::Return, "content-type", "application/json"));
    assert!(!passes(HeaderRule::Return, "x\"y", "v"));
}

#[test]
fn replay_rule_drops_only_what_cannot_be_sent() {
    assert!(passes(HeaderRule::Replay, "connection", "close"));
    assert!(passes(HeaderRule::Replay, "host", "example.com"));
    assert!(passes(HeaderRule::Replay, "x\"y", "v"));
    assert!(!passes(HeaderRule::Replay, "bad name", "v"));
    assert!(!passes(HeaderRule::Replay, "x", "a\u{7f}"));
}

#[test]
fn sifting_keeps_order_and_duplicates() {
    let headers = vec![
        pair("b", "1"),
        pair("Host", "h"),
        pair("a", "2"),
        pair("b", "3"),
        pair("bad name", "4"),
        pair("Connection", "close"),
        pair("c", "5"),
    ];
    assert_eq!(
        sift(HeaderRule::Forward, &headers),
        vec![pair("b", "1"), pair("a", "2"), pair("b", "3"), pair("c", "5")]
    );
    assert_eq!(sift(HeaderRule::Forward, &Vec::new()), Vec::new());
}

#[test]
fn unreadable_values_are_recorded_as_empty() {
    let wire = vec![
        ("a".to_string(), Some("1".to_string())),
        ("b".to_string(), None),
        ("a".to_string(), Some(String::new())),
    ];
    assert_eq!(record_headers(&wire), vec![pair("a", "1"), pair("b", ""), pair("a", "")]);
}
