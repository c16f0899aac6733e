use pterodactyl::json::{json_bytes, JsonValue};

#[test]
fn null_true_false() {
    assert_eq!(json_bytes(&JsonValue::Null), b"null");
    assert_eq!(json_bytes(&JsonValue::Bool(true)), b"true");
    assert_eq!(json_bytes(&JsonValue::Bool(false)), b"false");
}

#[test]
fn numbers() {
    assert_eq!(json_bytes(&JsonValue::UInt(0)), b"0");
    assert_eq!(json_bytes(&JsonValue::UInt(1234567890)), b"1234567890");
    assert_eq!(
        json_bytes(&JsonValue::UInt(u64::MAX)),
        b"18446744073709551615"
    );
    assert_eq!(json_bytes(&JsonValue::Int(0)), b"0");
    assert_eq!(json_bytes(&JsonValue::Int(-42)), b"-42");
    assert_eq!(
        json_bytes(&JsonValue::Int(i64::MIN)),
        b"-9223372036854775808"
    );
    assert_eq!(
        json_bytes(&JsonValue::Int(i64::MAX)),
        b"9223372036854775807"
    );
}

#[test]
fn strings_and_escapes() {
    assert_eq!(json_bytes(&JsonValue::Str(String::new())), b"\"\"");
    assert_eq!(
        json_bytes(&JsonValue::Str("hello".to_string())),
        b"\"hello\""
    );
    assert_eq!(
        json_bytes(&JsonValue::Str("a\"b\\c".to_string())),
        b"\"a\\\"b\\\\c\""
    );
    assert_eq!(
        json_bytes(&JsonValue::Str("\u{1}\n".to_string())),
        b"\"\\u0001\\u000a\""
    );
}

#[test]
fn unicode_passes_through() {
    let v = JsonValue::Str("caf\u{e9}".to_string());
    let bytes = json_bytes(&v);
    assert_eq!(bytes, "\"caf\u{e9}\"".as_bytes());
    let parsed: serde_json::Value = serde_json::from_slice(&bytes).unwrap();
    assert_eq!(parsed, serde_json::Value::String("caf\u{e9}".to_string()));
}

#[test]
fn arrays_and_objects() {
    let v = JsonValue::Arr(vec![
        JsonValue::Null,
        JsonValue::Bool(true),
        JsonValue::Int(-5),
        JsonValue::UInt(7),
    ]);
    assert_eq!(json_bytes(&v), b"[null,true,-5,7]");

    let v = JsonValue::Obj(vec![
        ("k".to_string(), JsonValue::UInt(1)),
        (
            "nested".to_string(),
            JsonValue::Obj(vec![("x".to_string(), JsonValue::Str("y".to_string()))]),
        ),
        ("empty".to_string(), JsonValue::Arr(Vec::new())),
    ]);
    assert_eq!(json_bytes(&v), b"{\"k\":1,\"nested\":{\"x\":\"y\"},\"empty\":[]}");
    assert_eq!(json_bytes(&JsonValue::Obj(Vec::new())), b"{}");
}

#[test]
fn escaped_control_bytes_parse_back() {
    let v = JsonValue::Str("line1\r\nline2\ttab".to_string());
    let bytes = json_bytes(&v);
    let parsed: serde_json::Value = serde_json::from_slice(&bytes).unwrap();
    assert_eq!(
        parsed,
        serde_json::Value::String("line1\r\nline2\ttab".to_string())
    );
}
