use acme_azure_function::{json, text};

#[test]
fn numbers_are_written_in_decimal() {
    assert_eq!(text::to_decimal(0), "0");
    assert_eq!(text::to_decimal(10), "10");
    assert_eq!(text::to_decimal(u64::MAX), "18446744073709551615");
}

#[test]
fn written_numbers_are_read_back() {
    for n in [0, 7, 42, 1000, u64::MAX] {
        assert_eq!(text::parse_unsigned(&text::to_decimal(n), u64::MAX), Ok(n));
    }
}

#[test]
fn numbers_are_read() {
    assert_eq!(text::parse_unsigned("0", 10), Ok(0));
    assert_eq!(text::parse_unsigned("007", 10), Ok(7));
    assert_eq!(text::parse_unsigned("+10", 10), Ok(10));
    assert_eq!(text::parse_unsigned("", 10), Err("cannot parse integer from empty string"));
    assert_eq!(text::parse_unsigned("+", 10), Err("invalid digit found in string"));
    assert_eq!(text::parse_unsigned("-1", 10), Err("invalid digit found in string"));
    assert_eq!(text::parse_unsigned("1 ", 10), Err("invalid digit found in string"));
    assert_eq!(text::parse_unsigned("11", 10), Err("number too large to fit in target type"));
    assert_eq!(
        text::parse_unsigned("18446744073709551616", u64::MAX),
        Err("number too large to fit in target type")
    );
}

#[test]
fn reading_numbers_agrees_with_the_standard_library() {
    for s in ["", "+", "-", "+5", "65535", "65536", "99999x", "x99999", "1e3", "\u{0661}", "000065535"] {
        let expected = s.parse::<u16>().map(u64::from).map_err(|err| err.to_string());
        let actual = text::parse_unsigned(s, u64::from(u16::MAX)).map_err(ToOwned::to_owned);
        assert_eq!(actual, expected, "{s:?}");
    }
}

#[test]
fn texts_are_compared() {
    assert!(text::str_eq("", ""));
    assert!(text::str_eq("a\u{df}c", "a\u{df}c"));
    assert!(!text::str_eq("abc", "ab"));
    assert!(!text::str_eq("abc", "abd"));
    assert!(text::eq_ignore_case("Content-LENGTH", "content-length"));
    assert!(!text::eq_ignore_case("content-length", "content_length"));
    assert!(!text::eq_ignore_case("\u{c4}", "\u{e4}"));
    assert!(text::bytes_eq(&[1, 2], &[1, 2]));
    assert!(!text::bytes_eq(&[1, 2], &[1, 2, 3]));
}

#[test]
fn texts_are_taken_apart() {
    assert_eq!(text::strip_first("/a/b", '/').as_deref(), Some("a/b"));
    assert_eq!(text::strip_first("a/b", '/'), None);
    assert_eq!(text::strip_first("", '/'), None);
    assert_eq!(text::take_after_last("a/b/c", '/'), "c");
    assert_eq!(text::take_after_last("abc", '/'), "abc");
    assert_eq!(text::take_after_last("abc/", '/'), "");
    assert!(text::starts_with("application/json; charset=utf-8", "application/json;"));
    assert!(!text::starts_with("app", "application"));
}

#[test]
fn lines_are_those_of_the_standard_library() {
    for s in ["", "\n", "a", "a\n", "a\nb", "a\r\nb\r\n", "a\r", "\r\n\r\n", "a\rb\n\nc"] {
        let expected: Vec<String> = s.lines().map(ToOwned::to_owned).collect();
        assert_eq!(text::split_lines(s), expected, "{s:?}");
    }
}

#[test]
fn bytes_are_read_as_utf8() {
    assert_eq!(text::from_utf8(b"a\xc3\x9f").as_deref(), Some("a\u{df}"));
    assert_eq!(text::from_utf8(b"a\xc3"), None);
}

#[test]
fn json_is_put_together() {
    assert_eq!(json::object(&vec![]), "{}");
    assert_eq!(json::object(&vec![("a", json::boolean(true)), ("b", "1".to_owned())]), r#"{"a":true,"b":1}"#);
    assert_eq!(json::array(&vec!["1".to_owned(), "2".to_owned()]), "[1,2]");
    assert_eq!(
        json::string_array(&vec!["a\"b\\c".to_owned(), "\n\u{1}\u{df}".to_owned()]),
        "[\"a\\\"b\\\\c\",\"\\n\\u0001\u{df}\"]"
    );
}
