use dig::value::JsonValue;

#[test]
fn output_that_is_json_is_parsed() {
    let v = JsonValue::from_output("[1, 2, 3]".to_string());
    assert_eq!(
        v,
        JsonValue::Array(vec![
            JsonValue::Number("1".to_string()),
            JsonValue::Number("2".to_string()),
            JsonValue::Number("3".to_string()),
        ])
    );
}

#[test]
fn output_that_is_not_json_stays_text() {
    let v = JsonValue::from_output("hello world".to_string());
    assert_eq!(v, JsonValue::Str("hello world".to_string()));
}

#[test]
fn json_text_is_compact() {
    let v = JsonValue::Array(vec![
        JsonValue::Number("7".to_string()),
        JsonValue::Number("13".to_string()),
        JsonValue::Str("a".to_string()),
        JsonValue::Null,
        JsonValue::Bool(true),
    ]);
    assert_eq!(v.to_json_text(), "[7,13,\"a\",null,true]");
}

#[test]
fn plain_text_of_a_string_is_the_string() {
    assert_eq!(JsonValue::Str("bob".to_string()).to_plain_text(), "bob");
    assert_eq!(JsonValue::Number("43.7".to_string()).to_plain_text(), "43.7");
}

#[test]
fn same_compares_structure() {
    let a = JsonValue::from_output("{\"a\": [1, {\"b\": null}]}".to_string());
    let b = a.clone();
    assert!(a.same(&b));
    assert!(!a.same(&JsonValue::Null));
}
