use openai_qa::chat::build_chat_request;
use openai_qa::json::{element, member, text_of, unsigned_of, JsonValue};
use openai_qa::text::{decimal_string, is_blank, is_whitespace_char};

fn s(t: &str) -> String {
    t.to_string()
}

#[test]
fn request_body_escapes_like_serde_json() {
    let raw = "q\"b\\n\nt\tr\rbs\u{8}ff\u{c}c\u{1}d\u{1f}e\u{7f}é中";
    let body = build_chat_request("u", "k", "", raw).body;
    let expected = format!(
        "{{\"messages\":[{{\"content\":{},\"role\":\"user\"}}],\"model\":\"gpt-3.5-turbo\"}}",
        serde_json::to_string(raw).unwrap()
    );
    assert_eq!(body, expected);
    assert!(body.contains("\\u0001d\\u001fe"));
}

#[test]
fn member_finds_first_match() {
    let v = JsonValue::Object(vec![
        (s("k"), JsonValue::Number(s("1"), Some(1))),
        (s("k"), JsonValue::Number(s("2"), Some(2))),
    ]);
    assert_eq!(member(&v, &s("k")), Some(&JsonValue::Number(s("1"), Some(1))));
    assert_eq!(member(&v, &s("z")), None);
    assert_eq!(member(&JsonValue::Null, &s("k")), None);
}

#[test]
fn element_checks_bounds_and_kind() {
    let v = JsonValue::Array(vec![JsonValue::Bool(true)]);
    assert_eq!(element(&v, 0), Some(&JsonValue::Bool(true)));
    assert_eq!(element(&v, 1), None);
    assert_eq!(element(&JsonValue::Str(s("ab")), 0), None);
}

#[test]
fn text_and_unsigned_read_their_kinds() {
    assert_eq!(text_of(&JsonValue::Str(s("hi"))), Some(&s("hi")));
    assert_eq!(text_of(&JsonValue::Number(s("3"), Some(3))), None);
    assert_eq!(unsigned_of(&JsonValue::Number(s("18446744073709551615"), Some(u64::MAX))), Some(u64::MAX));
    assert_eq!(unsigned_of(&JsonValue::Number(s("1.0"), None)), None);
    assert_eq!(unsigned_of(&JsonValue::Str(s("7"))), None);
}

#[test]
fn decimal_numerals() {
    assert_eq!(decimal_string(0), "0");
    assert_eq!(decimal_string(907), "907");
    assert_eq!(decimal_string(u64::MAX), "18446744073709551615");
}

#[test]
fn blank_text() {
    assert!(is_blank(""));
    assert!(is_blank(" \t\n\r\u{b}\u{c}\u{85}\u{a0}\u{1680}\u{2000}\u{200a}\u{2028}\u{2029}\u{202f}\u{205f}\u{3000}"));
    assert!(!is_blank("\u{200b}"));
    assert!(!is_blank("\u{feff}"));
    assert!(!is_blank("  x "));
}

#[test]
fn white_space_matches_std() {
    for u in 0u32..0x3100 {
        if let Some(c) = char::from_u32(u) {
            assert_eq!(is_whitespace_char(c), c.is_whitespace(), "{:x}", u);
        }
    }
    assert!(!is_whitespace_char('\u{feff}'));
}
