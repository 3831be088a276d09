use soldier_core::policy::guard::{canonical_json_bytes, compute_runtime_config_hash, JsonValue};

fn text(v: &JsonValue) -> String {
    String::from_utf8(canonical_json_bytes(v)).unwrap()
}

#[test]
fn objects_are_written_with_sorted_keys_and_no_white_space() {
    let v = JsonValue::Object(vec![
        ("b".to_string(), JsonValue::Int(1)),
        (
            "a".to_string(),
            JsonValue::Array(vec![
                JsonValue::Null,
                JsonValue::Bool(true),
                JsonValue::Str("x\"y".to_string()),
            ]),
        ),
    ]);
    assert_eq!(text(&v), "{\"a\":[null,true,\"x\\\"y\"],\"b\":1}");
    assert_eq!(
        compute_runtime_config_hash(&v),
        "4958c6e49e732831346a74e43f150f791b7f8026a5a20f3d61470c0f3d5c732b"
    );
}

#[test]
fn scalars_and_escapes() {
    assert_eq!(text(&JsonValue::Int(i64::MIN)), "-9223372036854775808");
    assert_eq!(text(&JsonValue::Int(0)), "0");
    assert_eq!(text(&JsonValue::Bool(false)), "false");
    assert_eq!(text(&JsonValue::Float("1.0".to_string())), "1.0");
    assert_eq!(
        text(&JsonValue::Str("a\u{1}\n\t\\é".to_string())),
        "\"a\\u0001\\n\\t\\\\é\""
    );
    assert_eq!(text(&JsonValue::Array(Vec::new())), "[]");
    assert_eq!(text(&JsonValue::Object(Vec::new())), "{}");
}

#[test]
fn equal_keys_keep_their_order() {
    let v = JsonValue::Object(vec![
        ("k".to_string(), JsonValue::Int(2)),
        ("j".to_string(), JsonValue::Int(0)),
        ("k".to_string(), JsonValue::Int(1)),
    ]);
    assert_eq!(text(&v), "{\"j\":0,\"k\":2,\"k\":1}");
}

#[test]
fn key_order_is_code_point_order() {
    let v = JsonValue::Object(vec![
        ("é".to_string(), JsonValue::Null),
        ("z".to_string(), JsonValue::Null),
        ("Z".to_string(), JsonValue::Null),
        ("za".to_string(), JsonValue::Null),
    ]);
    assert_eq!(text(&v), "{\"Z\":null,\"z\":null,\"za\":null,\"é\":null}");
}
