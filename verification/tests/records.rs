use from_json::convert::FromJson;
use from_json::error::FromJsonError;
use from_json::record::{Test, Test2};
use from_json::value::Value;

// Converting a value that is not an object fails with a shape mismatch
// naming the record.
#[test]
fn non_object_is_rejected() {
    let json = Value::I64(5);
    let r: Result<Test, FromJsonError> = FromJson::from_json(&json);
    assert_eq!(
        r,
        Err(FromJsonError::ExpectError("object Test".to_string(), Value::I64(5)))
    );

    let r2: Result<Test2, FromJsonError> = FromJson::from_json(&Value::Null);
    assert_eq!(
        r2,
        Err(FromJsonError::ExpectError("object Test2".to_string(), Value::Null))
    );
}

// A required field whose key is absent fails with FieldNotFound carrying
// the key and the whole object.
#[test]
fn missing_required_field() {
    let json = Value::Object(vec![
        ("a".to_string(), Value::U64(5)),
        ("real_b".to_string(), Value::Boolean(true)),
    ]);
    let same = Value::Object(vec![
        ("a".to_string(), Value::U64(5)),
        ("real_b".to_string(), Value::Boolean(true)),
    ]);
    let r: Result<Test, FromJsonError> = FromJson::from_json(&json);
    assert_eq!(r, Err(FromJsonError::FieldNotFound("c".to_string(), same)));
}

// An optional field whose key is absent binds to the empty value.
#[test]
fn missing_optional_field() {
    let json = Value::Object(vec![("e".to_string(), Value::Str("x".to_string()))]);
    let content: Test2 = FromJson::from_json(&json).unwrap();
    assert_eq!(content, Test2 { e: "x".to_string(), f: None });
}

// A renamed field is read from its external key only, even when the local
// name is also present.
#[test]
fn rename_reads_external_key_only() {
    let json = Value::Object(vec![
        ("a".to_string(), Value::U64(1)),
        ("b".to_string(), Value::Boolean(false)),
        ("real_b".to_string(), Value::Boolean(true)),
        (
            "c".to_string(),
            Value::Object(vec![("e".to_string(), Value::Str("y".to_string()))]),
        ),
    ]);
    let content: Test = FromJson::from_json(&json).unwrap();
    assert_eq!(content.b, true);
}

// A renamed field is not read from its local name: "b" alone does not
// satisfy "real_b".
#[test]
fn rename_ignores_local_name() {
    let json = Value::Object(vec![
        ("a".to_string(), Value::U64(1)),
        ("b".to_string(), Value::Boolean(false)),
    ]);
    let r: Result<Test, FromJsonError> = FromJson::from_json(&json);
    match r {
        Err(FromJsonError::FieldNotFound(key, _)) => assert_eq!(key, "real_b"),
        other => panic!("expected FieldNotFound, got {:?}", other),
    }
}

// Round trip: encoding an instance and converting the encoding back yields
// an equal instance.
#[test]
fn round_trip_some() {
    let t = Test2 { e: "hello".to_string(), f: Some(true) };
    let encoded = t.to_value();
    let back: Test2 = FromJson::from_json(&encoded).unwrap();
    assert_eq!(back, t);
}

#[test]
fn round_trip_none() {
    let t = Test2 { e: "".to_string(), f: None };
    let encoded = t.to_value();
    let back: Test2 = FromJson::from_json(&encoded).unwrap();
    assert_eq!(back, t);
}

// A float variant into an integer field succeeds via the truncating cast
// performed at the boundary that built the tree.
#[test]
fn float_into_integer_field() {
    let json = Value::Object(vec![
        ("a".to_string(), Value::F64(5.0f64 as i64)),
        ("real_b".to_string(), Value::Boolean(true)),
        (
            "c".to_string(),
            Value::Object(vec![("e".to_string(), Value::Str("z".to_string()))]),
        ),
    ]);
    let content: Test = FromJson::from_json(&json).unwrap();
    assert_eq!(content.a, 5);
}

// An error inside a nested record propagates unchanged.
#[test]
fn nested_error_propagates() {
    let json = Value::Object(vec![
        ("a".to_string(), Value::U64(5)),
        ("real_b".to_string(), Value::Boolean(true)),
        (
            "c".to_string(),
            Value::Object(vec![("e".to_string(), Value::Boolean(true))]),
        ),
    ]);
    let r: Result<Test, FromJsonError> = FromJson::from_json(&json);
    assert_eq!(
        r,
        Err(FromJsonError::ExpectError("string".to_string(), Value::Boolean(true)))
    );
}
