use replay::text::{bytes_to_text, decimal_text, equals_ignoring_case, lower_char, same_str};

#[test]
fn decimal_of_zero_and_single_digits() {
    assert_eq!(decimal_text(0), "0");
    assert_eq!(decimal_text(7), "7");
    assert_eq!(decimal_text(9), "9");
}

#[test]
fn decimal_of_larger_numbers() {
    assert_eq!(decimal_text(10), "10");
    assert_eq!(decimal_text(8080), "8080");
    assert_eq!(decimal_text(65535), "65535");
    assert_eq!(decimal_text(1_000_000), "1000000");
    assert_eq!(decimal_text(u64::MAX), "18446744073709551615");
}

#[test]
fn decimal_agrees_with_std_on_a_range() {
    for n in 0u64..3000 {
        assert_eq!(decimal_text(n), n.to_string());
    }
}

#[test]
fn lower_char_changes_capitals_only() {
    assert_eq!(lower_char('A'), 'a');
    assert_eq!(lower_char('Z'), 'z');
    assert_eq!(lower_char('a'), 'a');
    assert_eq!(lower_char('@'), '@');
    assert_eq!(lower_char('['), '[');
    assert_eq!(lower_char('-'), '-');
    assert_eq!(lower_char('\u{212A}'), '\u{212A}');
}

#[test]
fn names_compare_without_regard_to_ascii_case() {
    assert!(equals_ignoring_case("Host", "host"));
    assert!(equals_ignoring_case("HOST", "host"));
    assert!(equals_ignoring_case("host", "host"));
    assert!(equals_ignoring_case("Transfer-Encoding", "transfer-encoding"));
    assert!(!equals_ignoring_case("hosts", "host"));
    assert!(!equals_ignoring_case("hos", "host"));
    assert!(!equals_ignoring_case("", "host"));
    assert!(!equals_ignoring_case("h\u{f6}st", "host"));
    assert!(equals_ignoring_case("", ""));
}

#[test]
fn the_word_itself_is_not_lowered() {
    assert!(!equals_ignoring_case("host", "Host"));
}

#[test]
fn texts_are_equal_when_their_characters_are() {
    assert!(same_str("GET", "GET"));
    assert!(!same_str("GET", "get"));
    assert!(!same_str("GET", "GETS"));
    assert!(same_str("", ""));
    assert!(same_str("caf\u{e9}", "caf\u{e9}"));
    assert!(!same_str("caf\u{e9}", "cafe"));
}

#[test]
fn well_formed_bytes_are_read_as_text() {
    assert_eq!(bytes_to_text(&b"{\"id\":1}".to_vec()), Some("{\"id\":1}".to_string()));
    assert_eq!(bytes_to_text(&Vec::new()), Some(String::new()));
    assert_eq!(bytes_to_text(&vec![0xc3, 0xa9]), Some("\u{e9}".to_string()));
}

#[test]
fn ill_formed_bytes_are_no_text() {
    assert_eq!(bytes_to_text(&vec![0xff, 0xfe]), None);
    assert_eq!(bytes_to_text(&vec![b'a', 0xc3]), None);
    assert_eq!(bytes_to_text(&vec![0xed, 0xa0, 0x80]), None);
}

#[test]
fn overlong_and_out_of_range_encodings_are_no_text() {
    assert_eq!(bytes_to_text(&vec![0xc0, 0x80]), None);
    assert_eq!(bytes_to_text(&vec![0xe0, 0x80, 0x80]), None);
    assert_eq!(bytes_to_text(&vec![0xf4, 0x90, 0x80, 0x80]), None);
    assert_eq!(bytes_to_text(&vec![0x80]), None);
    assert_eq!(bytes_to_text(&vec![0xf4, 0x8f, 0xbf, 0xbf]), Some("\u{10ffff}".to_string()));
    assert_eq!(bytes_to_text(&vec![0xe2, 0x82, 0xac]), Some("\u{20ac}".to_string()));
}
