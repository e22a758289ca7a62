//! Tests of the textual rendering of structured values.

use rpc_trace::json::{quoted, render_i64, render_u64, render_value, JsonValue};

#[test]
fn render_scalars() {
    assert_eq!(render_value(&JsonValue::Null), "null");
    assert_eq!(render_value(&JsonValue::Bool(true)), "true");
    assert_eq!(render_value(&JsonValue::Bool(false)), "false");
    assert_eq!(render_value(&JsonValue::Int(0)), "0");
    assert_eq!(render_value(&JsonValue::Int(-17)), "-17");
    assert_eq!(render_value(&JsonValue::Str(String::from("hi"))), "\"hi\"");
    assert_eq!(render_value(&JsonValue::Str(String::new())), "\"\"");
}

#[test]
fn render_unsigned_decimals() {
    assert_eq!(render_u64(0), "0");
    assert_eq!(render_u64(7), "7");
    assert_eq!(render_u64(10), "10");
    assert_eq!(render_u64(1234567890), "1234567890");
    assert_eq!(render_u64(u64::MAX), "18446744073709551615");
}

#[test]
fn render_signed_decimals() {
    assert_eq!(render_i64(i64::MAX), "9223372036854775807");
    assert_eq!(render_i64(i64::MIN), "-9223372036854775808");
    assert_eq!(render_i64(-1), "-1");
    assert_eq!(render_i64(100), "100");
}

#[test]
fn render_empty_containers() {
    assert_eq!(render_value(&JsonValue::Array(vec![])), "[]");
    assert_eq!(render_value(&JsonValue::Object(vec![])), "{}");
}

#[test]
fn render_nested_structures() {
    let value = JsonValue::Array(vec![
        JsonValue::Int(1),
        JsonValue::Array(vec![JsonValue::Bool(true), JsonValue::Null]),
        JsonValue::Object(vec![(String::from("a"), JsonValue::Str(String::from("b")))]),
    ]);
    assert_eq!(render_value(&value), "[1, [true, null], {\"a\": \"b\"}]");
}

#[test]
fn render_object_keeps_entry_order() {
    let value = JsonValue::Object(vec![
        (String::from("z"), JsonValue::Int(26)),
        (String::from("a"), JsonValue::Int(1)),
        (String::from("z"), JsonValue::Int(0)),
    ]);
    assert_eq!(render_value(&value), "{\"z\": 26, \"a\": 1, \"z\": 0}");
}

#[test]
fn quoted_wraps_without_altering() {
    assert_eq!(quoted("foo"), "\"foo\"");
    assert_eq!(quoted(""), "\"\"");
}
