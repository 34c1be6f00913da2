use tiny_agent_rs::json::Json;
use tiny_agent_rs::text::{
    append, chars_of, contains, decimal, ends_with, is_whitespace, join, lines, parse_unsigned,
    same_text, starts_with, string_of, strip_prefix, trim, trim_end_char, trim_start,
};

#[test]
fn trim_drops_white_space_on_both_sides() {
    assert_eq!(trim("  hello world \n"), "hello world");
    assert_eq!(trim("\u{3000}x\u{a0}"), "x");
    assert_eq!(trim("   "), "");
    assert_eq!(trim(""), "");
}

#[test]
fn decimal_writes_numbers() {
    assert_eq!(decimal(0), "0");
    assert_eq!(decimal(7), "7");
    assert_eq!(decimal(1234567890), "1234567890");
    assert_eq!(decimal(u64::MAX), "18446744073709551615");
}

#[test]
fn contains_finds_substrings() {
    assert!(contains("my plan is simple", "plan"));
    assert!(contains("abc", ""));
    assert!(!contains("abc", "abd"));
    assert!(!contains("ab", "abc"));
}

#[test]
fn join_puts_the_separator_between_parts() {
    let parts = vec!["a".to_string(), "b".to_string(), "c".to_string()];
    assert_eq!(join(&parts, ", "), "a, b, c");
    let none: Vec<String> = Vec::new();
    assert_eq!(join(&none, ", "), "");
}

#[test]
fn lines_splits_as_std_does() {
    let text = "foo\nbar\n\r\nbaz\r";
    let expected: Vec<String> = text.lines().map(|l| l.to_string()).collect();
    assert_eq!(lines(text), expected);
    assert_eq!(lines(""), Vec::<String>::new());
    assert_eq!(lines("a\n"), vec!["a".to_string()]);
    assert_eq!(lines("\n"), vec!["".to_string()]);
}

#[test]
fn parse_unsigned_reads_digits_only() {
    assert_eq!(parse_unsigned("2"), Some(2));
    assert_eq!(parse_unsigned("+15"), Some(15));
    assert_eq!(parse_unsigned("18446744073709551615"), Some(u64::MAX));
    assert_eq!(parse_unsigned("18446744073709551616"), None);
    assert_eq!(parse_unsigned(""), None);
    assert_eq!(parse_unsigned("+"), None);
    assert_eq!(parse_unsigned(" 2"), None);
    assert_eq!(parse_unsigned("2s"), None);
    assert_eq!(parse_unsigned("-2"), None);
}

#[test]
fn trim_end_char_drops_the_whole_run() {
    assert_eq!(trim_end_char("http://x/v1///", '/'), "http://x/v1");
    assert_eq!(trim_end_char("///", '/'), "");
    assert_eq!(trim_end_char("abc", '/'), "abc");
}

#[test]
fn json_text_round_trip() {
    let doc = Json::object()
        .with("b", Json::from_u64(2))
        .with("a", Json::array(vec![Json::Null, Json::Bool(true), Json::string("x\"y")]));
    let text = doc.to_text();
    assert_eq!(text, "{\"a\":[null,true,\"x\\\"y\"],\"b\":2}");
    let back = Json::parse(&text).unwrap();
    assert_eq!(back.to_text(), text);
    assert_eq!(back.get("b").unwrap().as_u64(), Some(2));
    assert!(Json::parse("{oops").is_err());
}

#[test]
fn json_later_member_wins() {
    let doc = Json::object().with("k", Json::string("first")).with("k", Json::string("second"));
    assert_eq!(doc.get_str("k"), Some("second"));
    assert_eq!(doc.to_text(), "{\"k\":\"second\"}");
}

#[test]
fn json_copy_is_deep() {
    let doc = Json::parse("{\"a\":[1,2.5,-3,{\"b\":null}],\"c\":\"x\"}").unwrap();
    let copy = doc.clone();
    assert_eq!(copy.to_text(), doc.to_text());
    assert_eq!(copy.to_text(), "{\"a\":[1,2.5,-3,{\"b\":null}],\"c\":\"x\"}");
    assert_eq!(Json::from_u64(18).clone().as_u64(), Some(18));
    assert_eq!(Json::string("18").as_u64(), None);
    assert_eq!(Json::parse("-18").unwrap().as_u64(), None);
}

#[test]
fn json_members_are_replaced_in_place() {
    let mut doc = Json::object().with("a", Json::from_u64(1)).with("b", Json::from_u64(2));
    doc.put("a", Json::from_u64(3));
    doc.put("c", Json::Null);
    assert_eq!(doc.to_text(), "{\"a\":3,\"b\":2,\"c\":null}");
    match &doc {
        Json::Object(members) => assert_eq!(members.len(), 3),
        other => panic!("unexpected {:?}", other),
    }
    assert!(doc.get("d").is_none());
    assert!(doc.as_array().is_none());
    assert!(doc.as_str().is_none());
    assert!(Json::Null.get("a").is_none());
    assert_eq!(Json::array(vec![Json::Null]).as_array().unwrap().len(), 1);
}

#[test]
fn prefixes_and_suffixes_are_found() {
    assert!(starts_with("Title: x", "Title: "));
    assert!(!starts_with("Titl", "Title: "));
    assert!(starts_with("abc", ""));
    assert!(ends_with("/v1/chat/completions", "/chat/completions"));
    assert!(!ends_with("ions", "/chat/completions"));
    assert_eq!(strip_prefix("Title: x", "Title: "), Some("x".to_string()));
    assert_eq!(strip_prefix("Title:x", "Title: "), None);
    assert_eq!(strip_prefix("abc", "abc"), Some(String::new()));
    assert!(same_text("a", "a"));
    assert!(!same_text("a", "b"));
    assert_eq!(append("ab", "cd"), "abcd");
    assert_eq!(trim_start(" \t x "), "x ");
    assert_eq!(chars_of("héllo"), vec!['h', 'é', 'l', 'l', 'o']);
    assert_eq!(string_of(&chars_of("héllo"), 1, 3), "él");
    for c in ['\t', '\n', '\u{b}', '\u{c}', '\r', ' ', '\u{85}', '\u{a0}', '\u{1680}', '\u{2000}', '\u{200a}', '\u{2028}', '\u{2029}', '\u{202f}', '\u{205f}', '\u{3000}'] {
        assert!(is_whitespace(c));
    }
    for c in ['a', '\u{8}', '\u{e}', '\u{200b}', '\u{feff}', '\u{180e}'] {
        assert!(!is_whitespace(c));
    }
}

#[test]
fn white_space_is_what_std_says() {
    for code in 0u32..0x3100 {
        if let Some(c) = char::from_u32(code) {
            assert_eq!(is_whitespace(c), c.is_whitespace(), "{:x}", code);
        }
    }
}

#[test]
fn json_goes_to_serde_and_back() {
    let doc = Json::object()
        .with("k", Json::Null)
        .with("b", Json::array(vec![Json::from_u64(1), Json::string("x")]))
        .with("k", Json::Bool(true));
    let value = doc.to_value();
    assert_eq!(value.to_string(), "{\"b\":[1,\"x\"],\"k\":true}");
    assert_eq!(value.as_object().unwrap().len(), 2);
    assert_eq!(value["k"], serde_json::Value::Bool(true));
    let back = Json::from_value(value);
    assert_eq!(back.to_text(), "{\"b\":[1,\"x\"],\"k\":true}");
    match &back {
        Json::Object(members) => assert_eq!(members.len(), 2),
        other => panic!("unexpected {:?}", other),
    }
    let mut map = serde_json::Map::new();
    map.insert("z".to_string(), serde_json::Value::from(3u64));
    map.insert("a".to_string(), serde_json::Value::Null);
    let read = Json::from_value(serde_json::Value::Object(map));
    assert_eq!(read.get("z").unwrap().as_u64(), Some(3));
    assert!(read.get("a").unwrap().is_null());
    assert_eq!(read.to_text(), "{\"a\":null,\"z\":3}");
}

#[test]
fn repeated_keys_keep_the_later_member_in_text() {
    let repeated = Json::Object(vec![
        ("a".to_string(), Json::Null),
        ("b".to_string(), Json::from_u64(1)),
        ("a".to_string(), Json::Bool(true)),
        ("a".to_string(), Json::string("last")),
    ]);
    assert_eq!(repeated.to_text(), "{\"a\":\"last\",\"b\":1}");
    assert_eq!(repeated.get_str("a"), Some("last"));
    assert_eq!(repeated.clone().to_text(), "{\"a\":\"last\",\"b\":1}");
}
