use ai_tools_lib_rust::json::{JsonNumber, JsonValue};
use ai_tools_lib_rust::json_text::{json_text, show_json};
use ai_tools_lib_rust::sorting::sort_strings;
use ai_tools_lib_rust::text::{char_is_whitespace, decimal_string, join_strings, parse_usize_str, replace_str, trim_str};

#[test]
fn decimals_read_back() {
    for n in [0u64, 7, 10, 12345, 18446744073709551615] {
        let s = decimal_string(n);
        assert_eq!(s, n.to_string());
        if n <= usize::MAX as u64 {
            assert_eq!(parse_usize_str(&s), Some(n as usize));
        }
    }
    assert_eq!(parse_usize_str("+5"), Some(5));
    assert_eq!(parse_usize_str(""), None);
    assert_eq!(parse_usize_str("1a"), None);
    assert_eq!(parse_usize_str("99999999999999999999999"), None);
}

#[test]
fn text_helpers() {
    assert_eq!(trim_str("\u{2003} a b \n"), "a b");
    assert_eq!(replace_str("a{x}b{x}", "{x}", "-"), "a-b-");
    assert_eq!(join_strings(&vec!["a".to_string(), "b".to_string()], ", "), "a, b");
    assert_eq!(join_strings(&vec![], ", "), "");
}

#[test]
fn strings_sort_like_std() {
    let v = vec!["b".to_string(), "Z".to_string(), "a".to_string(), "10".to_string(), "1".to_string()];
    let mut expected = v.clone();
    expected.sort();
    assert_eq!(sort_strings(v), expected);
}

#[test]
fn json_reads() {
    let v = JsonValue::Object(vec![
        ("n".to_string(), JsonValue::Number(JsonNumber::PosInt(3))),
        ("s".to_string(), JsonValue::String("t".into())),
        ("n".to_string(), JsonValue::Null),
    ]);
    assert_eq!(v.get("n").unwrap().as_u64(), Some(3));
    assert_eq!(v.get("s").unwrap().as_str(), Some("t"));
    assert!(v.get("x").is_none());
    assert!(JsonValue::Null.get("n").is_none());
    assert!(JsonValue::Number(JsonNumber::NegInt(-1)).is_integer());
    assert!(!JsonValue::Number(JsonNumber::Float("1.5".into())).is_integer());
    assert_eq!(JsonValue::Number(JsonNumber::NegInt(-1)).as_u64(), None);
    let c = v.deep_clone();
    assert_eq!(format!("{:?}", c), format!("{:?}", v));
}

#[test]
fn json_text_is_compact_and_escaped() {

    let v = JsonValue::Object(vec![
        ("a".to_string(), JsonValue::Array(vec![JsonValue::Null, JsonValue::Bool(true), JsonValue::Number(JsonNumber::NegInt(-12))])),
        ("s".to_string(), JsonValue::String("q\"b\\n\n\u{1}é".into())),
        ("f".to_string(), JsonValue::Number(JsonNumber::Float("2.5".into()))),
        ("e".to_string(), JsonValue::Object(vec![])),
    ]);
    assert_eq!(json_text(&v), "{\"a\":[null,true,-12],\"s\":\"q\\\"b\\\\n\\n\\u0001é\",\"f\":2.5,\"e\":{}}");
    assert_eq!(json_text(&JsonValue::Number(JsonNumber::NegInt(i64::MIN))), "-9223372036854775808");
    assert_eq!(json_text(&JsonValue::Array(vec![])), "[]");
}

#[test]
fn shown_json_is_serde_text() {
    let v = JsonValue::Object(vec![
        ("f".to_string(), JsonValue::Number(JsonNumber::Float("2.50".into()))),
        ("s".to_string(), JsonValue::String("a\"b".into())),
    ]);
    assert_eq!(show_json(&v), "{\"f\":2.5,\"s\":\"a\\\"b\"}");
}

#[test]
fn whitespace_is_unicode_white_space() {
    for c in ['\t', '\n', '\u{b}', '\u{c}', '\r', ' ', '\u{85}', '\u{a0}', '\u{1680}', '\u{2000}', '\u{200a}', '\u{2028}', '\u{2029}', '\u{202f}', '\u{205f}', '\u{3000}'] {
        assert!(char_is_whitespace(c));
        assert!(c.is_whitespace());
    }
    for c in ['a', '\u{200b}', '\u{180e}', '\u{feff}', '_'] {
        assert_eq!(char_is_whitespace(c), c.is_whitespace());
    }
}
