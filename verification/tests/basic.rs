use from_json::convert::FromJson;
use from_json::record::{Test, Test2};
use from_json::value::Value;

// The value tree for `{ "a": 5, "real_b": true, "c": { "e": "hello", "f": false } }`,
// as the external parser would hand it over.
fn sample_object() -> Value {
    Value::Object(vec![
        ("a".to_string(), Value::U64(5)),
        ("real_b".to_string(), Value::Boolean(true)),
        (
            "c".to_string(),
            Value::Object(vec![
                ("e".to_string(), Value::Str("hello".to_string())),
                ("f".to_string(), Value::Boolean(false)),
            ]),
        ),
    ])
}

#[test]
fn test() {
    let json = sample_object();

    let content: Test = FromJson::from_json(&json).unwrap();

    assert_eq!(content.a, 5);
    assert_eq!(content.b, true);
    assert_eq!(content.c.e, "hello".to_string());
    assert_eq!(content.c.f, Some(false));
    assert_eq!(content.d, None);
}

#[test]
fn nested_record_directly() {
    let json = Value::Object(vec![
        ("e".to_string(), Value::Str("hello".to_string())),
        ("f".to_string(), Value::Boolean(false)),
    ]);
    let content: Test2 = FromJson::from_json(&json).unwrap();
    assert_eq!(content, Test2 { e: "hello".to_string(), f: Some(false) });
}
