use indy_besu_vdr::ffi::json::JsonValue;
use serde_json::Value;

#[test]
fn json_value_reads_and_writes_text() {
    let value = JsonValue::try_from("{\"a\": [1, 2, true]}".to_string()).unwrap();
    assert_eq!(value.as_inner()["a"][1], Value::from(2));
    assert_eq!(value["a"][2], Value::from(true));
    let text: String = value.clone().into();
    assert_eq!(text, "{\"a\":[1,2,true]}");
    let inner: Value = value.into_inner();
    assert!(inner.is_object());
}

#[test]
fn json_value_refuses_bad_text() {
    assert!(JsonValue::try_from("{\"a\": ".to_string()).is_err());
    assert!(JsonValue::from_text("not json".to_string()).is_err());
}

#[test]
fn json_value_conversions() {
    let value = JsonValue::from(Value::from("x"));
    assert_eq!(value.to_text(), "\"x\"");
    let back: Value = value.into();
    assert_eq!(back, Value::from("x"));
}
