use from_json::convert::{FromJson, KeyMap};
use from_json::error::FromJsonError;
use from_json::value::Value;

#[test]
fn integers_accept_every_numeric_variant() {
    let a: i64 = FromJson::from_json(&Value::I64(-3)).unwrap();
    assert_eq!(a, -3);
    let b: i64 = FromJson::from_json(&Value::U64(7)).unwrap();
    assert_eq!(b, 7);
    let c: i64 = FromJson::from_json(&Value::F64(2.9f64 as i64)).unwrap();
    assert_eq!(c, 2);
    let d: u8 = FromJson::from_json(&Value::U64(200)).unwrap();
    assert_eq!(d, 200);
    let e: usize = FromJson::from_json(&Value::U64(42)).unwrap();
    assert_eq!(e, 42);
    let f: i16 = FromJson::from_json(&Value::I64(-300)).unwrap();
    assert_eq!(f, -300);
}

// No range validation is performed: an out-of-range numeric value is cast,
// taking the target's low bits.
#[test]
fn integers_are_cast_without_range_check() {
    let a: u8 = FromJson::from_json(&Value::I64(300)).unwrap();
    assert_eq!(a, 44);
    let b: i8 = FromJson::from_json(&Value::I64(-1)).unwrap();
    assert_eq!(b, -1);
    let c: u32 = FromJson::from_json(&Value::I64(-1)).unwrap();
    assert_eq!(c, u32::MAX);
}

#[test]
fn integer_rejects_non_numeric() {
    let r: Result<i32, FromJsonError> = FromJson::from_json(&Value::Boolean(true));
    assert_eq!(
        r,
        Err(FromJsonError::ExpectError("integer".to_string(), Value::Boolean(true)))
    );
}

#[test]
fn boolean_conversion() {
    let b: bool = FromJson::from_json(&Value::Boolean(true)).unwrap();
    assert!(b);
    let r: Result<bool, FromJsonError> = FromJson::from_json(&Value::U64(1));
    assert_eq!(
        r,
        Err(FromJsonError::ExpectError("boolean".to_string(), Value::U64(1)))
    );
}

#[test]
fn string_conversion() {
    let s: String = FromJson::from_json(&Value::Str("abc".to_string())).unwrap();
    assert_eq!(s, "abc");
    let r: Result<String, FromJsonError> = FromJson::from_json(&Value::Null);
    assert_eq!(
        r,
        Err(FromJsonError::ExpectError("string".to_string(), Value::Null))
    );
}

#[test]
fn option_accepts_null_and_delegates() {
    let none: Option<bool> = FromJson::from_json(&Value::Null).unwrap();
    assert_eq!(none, None);
    let some: Option<bool> = FromJson::from_json(&Value::Boolean(false)).unwrap();
    assert_eq!(some, Some(false));
    let r: Result<Option<bool>, FromJsonError> = FromJson::from_json(&Value::U64(1));
    assert_eq!(
        r,
        Err(FromJsonError::ExpectError("boolean".to_string(), Value::U64(1)))
    );
}

#[test]
fn array_converts_in_order() {
    let json = Value::Array(vec![Value::I64(1), Value::U64(2), Value::I64(3)]);
    let v: Vec<i64> = FromJson::from_json(&json).unwrap();
    assert_eq!(v, vec![1, 2, 3]);
}

#[test]
fn array_stops_at_first_failure() {
    let json = Value::Array(vec![Value::I64(1), Value::Boolean(true), Value::Str("x".to_string())]);
    let r: Result<Vec<i64>, FromJsonError> = FromJson::from_json(&json);
    assert_eq!(
        r,
        Err(FromJsonError::ExpectError("integer".to_string(), Value::Boolean(true)))
    );
}

#[test]
fn array_rejects_non_array() {
    let r: Result<Vec<i64>, FromJsonError> = FromJson::from_json(&Value::U64(1));
    assert_eq!(
        r,
        Err(FromJsonError::ExpectError("list".to_string(), Value::U64(1)))
    );
}

#[test]
fn key_map_converts_keyed_by_original_key() {
    let json = Value::Object(vec![
        ("x".to_string(), Value::Boolean(true)),
        ("y".to_string(), Value::Boolean(false)),
    ]);
    let m: KeyMap<bool> = FromJson::from_json(&json).unwrap();
    assert_eq!(
        m.entries,
        vec![("x".to_string(), true), ("y".to_string(), false)]
    );
}

#[test]
fn key_map_rejects_non_object() {
    let r: Result<KeyMap<bool>, FromJsonError> = FromJson::from_json(&Value::Null);
    assert_eq!(
        r,
        Err(FromJsonError::ExpectError("object".to_string(), Value::Null))
    );
}

#[test]
fn key_map_stops_at_first_failure() {
    let json = Value::Object(vec![
        ("x".to_string(), Value::Boolean(true)),
        ("y".to_string(), Value::U64(9)),
    ]);
    let r: Result<KeyMap<bool>, FromJsonError> = FromJson::from_json(&json);
    assert_eq!(
        r,
        Err(FromJsonError::ExpectError("boolean".to_string(), Value::U64(9)))
    );
}

#[test]
fn value_accessors() {
    let obj = Value::Object(vec![("k".to_string(), Value::U64(1))]);
    assert!(obj.is_object());
    assert!(!obj.is_array());
    assert_eq!(obj.find("k"), Some(&Value::U64(1)));
    assert_eq!(obj.find("missing"), None);
    assert_eq!(Value::Null.find("k"), None);

    let arr = Value::Array(vec![Value::Null]);
    assert!(arr.is_array());
    assert_eq!(arr.as_array(), Some(&vec![Value::Null]));
    assert_eq!(arr.as_object(), None);
    assert_eq!(obj.as_object(), Some(&vec![("k".to_string(), Value::U64(1))]));
}

#[test]
fn find_returns_first_entry_under_key() {
    let obj = Value::Object(vec![
        ("k".to_string(), Value::U64(1)),
        ("k".to_string(), Value::U64(2)),
    ]);
    assert_eq!(obj.find("k"), Some(&Value::U64(1)));
}

#[test]
fn clone_preserves_the_tree() {
    let obj = Value::Object(vec![
        ("k".to_string(), Value::Array(vec![Value::Str("s".to_string()), Value::F64(-2)])),
    ]);
    assert_eq!(obj.clone(), obj);
}
