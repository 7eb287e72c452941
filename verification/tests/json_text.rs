use argon::json::{is_obj, key, pos, str_of, to_json_text, u64_of, i64_of, JsonValue};
use argon::text::{lowercase_alnum, to_hex_lower, trim, u64_to_decimal};

fn parse(s: &str) -> JsonValue {
    JsonValue::parse(s.as_bytes()).expect("valid json")
}

#[test]
fn parse_and_read_fields() {
    let v = parse(r#"{"a":{"b":[10,"x",-3]},"s":"hi"}"#);
    let a = key(Some(&v), "a");
    let b = key(a, "b");
    assert_eq!(u64_of(pos(b, 0)), Some(10));
    assert_eq!(str_of(pos(b, 1)).map(|s| s.as_str()), Some("x"));
    assert_eq!(i64_of(pos(b, 2)), Some(-3));
    assert_eq!(u64_of(pos(b, 2)), None);
    assert!(pos(b, 3).is_none());
    assert!(key(Some(&v), "missing").is_none());
    assert!(key(key(Some(&v), "s"), "x").is_none());
    assert!(is_obj(Some(&v)));
    assert!(!is_obj(b));
}

#[test]
fn parse_rejects_garbage() {
    assert!(JsonValue::parse(b"{not json").is_none());
    assert!(JsonValue::parse(b"").is_none());
}

#[test]
fn json_text_is_compact_and_sorted() {
    let v = parse(r#"{ "b" : 1, "a" : [true, false, null, 1.5, -7] }"#);
    assert_eq!(to_json_text(&v), r#"{"a":[true,false,null,1.5,-7],"b":1}"#);
}

#[test]
fn json_text_escapes_strings() {
    let v = JsonValue::Str("q\"b\\n\nt\tc\u{1}é/".to_string());
    assert_eq!(to_json_text(&v), "\"q\\\"b\\\\n\\nt\\tc\\u0001é/\"");
    let expected = serde_json::to_string(&serde_json::Value::String("q\"b\\n\nt\tc\u{1}é/".to_string())).unwrap();
    assert_eq!(to_json_text(&v), expected);
}

#[test]
fn json_text_matches_serde_json() {
    let text = r#"{"z":[{"k":"v","a":-9223372036854775808},18446744073709551615,2.5e-3],"e":{},"l":[]}"#;
    let v = parse(text);
    let serde: serde_json::Value = serde_json::from_str(text).unwrap();
    assert_eq!(to_json_text(&v), serde.to_string());
}

#[test]
fn duplicate_copies_value() {
    let v = parse(r#"{"a":[1,{"b":"c"}]}"#);
    let d = v.duplicate();
    assert_eq!(to_json_text(&d), to_json_text(&v));
}

#[test]
fn trim_removes_unicode_whitespace() {
    assert_eq!(trim("  \t123456\u{3000}\n"), "123456");
    assert_eq!(trim("a b"), "a b");
    assert_eq!(trim(" \u{a0} "), "");
    assert_eq!(trim(""), "");
}

#[test]
fn decimal_rendering() {
    assert_eq!(u64_to_decimal(0), "0");
    assert_eq!(u64_to_decimal(7), "7");
    assert_eq!(u64_to_decimal(1234567890), "1234567890");
    assert_eq!(u64_to_decimal(u64::MAX), u64::MAX.to_string());
}

#[test]
fn hex_rendering() {
    assert_eq!(to_hex_lower(&[0x00, 0x0f, 0xa0, 0xff]), "000fa0ff");
    assert_eq!(to_hex_lower(&[]), "");
}

#[test]
fn lowercase_of_letters_and_digits() {
    assert_eq!(lowercase_alnum(&"AbC09xZ".to_string()), "abc09xz");
}
