//! The field-mapping rules: how a record type's conversion capability is
//! composed from per-field lookups and recursive conversions.
//!
//! For a record with fields `f1..fn` under external keys `k1..kn`, the
//! record's capability first checks that the input is an object, then binds
//! each field in declared order with [`read_field`], and constructs the
//! record when every field binds. A field's external key defaults to its
//! local name unless a rename was declared. The record types [`Test`] and
//! [`Test2`] are the worked example of these rules, [`Test`] with a renamed
//! field and a nested record.

use vstd::prelude::*;

use crate::convert::FromJson;
use crate::error::{res_model, FromJsonError, SpecError};
use crate::value::{spec_entries_of, spec_lookup, SpecValue, Value};

verus! {

/// One field's binding, at the specification level: look the external key
/// up in the object; if present, convert the sub-value; if absent, probe
/// the field's capability with Null. A capability that accepts Null (the
/// optional wrapper) then binds its empty value; one that rejects Null with
/// a shape mismatch makes the whole object fail with `FieldNotFound` naming
/// the key and the object; any other failure is propagated unchanged.
pub open spec fn spec_read_field<T: FromJson>(obj: SpecValue, key: Seq<char>) -> Result<
    T::V,
    SpecError,
> {
    let found = match obj {
        SpecValue::Object(entries) => spec_lookup(entries, key),
        _ => None,
    };
    match found {
        Some(sub) => T::spec_from_json(sub),
        None => match T::spec_from_json(SpecValue::Null) {
            Ok(d) => Ok(d),
            Err(SpecError::ExpectError(_, _)) => Err(SpecError::FieldNotFound(key, obj)),
            Err(e) => Err(e),
        },
    }
}

/// One field's binding: the external key's sub-value converted if the key
/// is present, and the Null probe of [`spec_read_field`] if it is absent.
pub fn read_field<T: FromJson>(input: &Value, key: &str) -> (r: Result<T, FromJsonError>)
    ensures
        res_model(r) == spec_read_field::<T>(input.deep_view(), key@),
{
    match input.find(key) {
        Some(elem) => T::from_json(elem),
        None => match T::from_json(&Value::Null) {
            Ok(value) => Ok(value),
            Err(e) => match e {
                FromJsonError::ExpectError(_, _) => Err(
                    FromJsonError::FieldNotFound(key.to_owned(), input.clone()),
                ),
                FromJsonError::FieldNotFound(f, c) => Err(FromJsonError::FieldNotFound(f, c)),
            },
        },
    }
}

/// Specification-level mirror of [`Test2`].
#[verifier::ext_equal]
pub struct SpecTest2 {
    pub e: Seq<char>,
    pub f: Option<bool>,
}

/// A nested record of the worked example: a required string and an
/// optional boolean, each under its own local name.
#[derive(Debug, PartialEq, Eq)]
pub struct Test2 {
    pub e: String,
    pub f: Option<bool>,
}

impl DeepView for Test2 {
    type V = SpecTest2;

    open spec fn deep_view(&self) -> SpecTest2 {
        SpecTest2 { e: self.e@, f: self.f }
    }
}

impl FromJson for Test2 {
    open spec fn spec_from_json(v: SpecValue) -> Result<SpecTest2, SpecError> {
        if !(v is Object) {
            Err(SpecError::ExpectError("object Test2"@, v))
        } else {
            match spec_read_field::<String>(v, "e"@) {
                Err(e) => Err(e),
                Ok(e_val) => match spec_read_field::<Option<bool>>(v, "f"@) {
                    Err(e) => Err(e),
                    Ok(f_val) => Ok(SpecTest2 { e: e_val, f: f_val }),
                },
            }
        }
    }

    fn from_json(input: &Value) -> (r: Result<Test2, FromJsonError>) {
        if !input.is_object() {
            return Err(FromJsonError::ExpectError("object Test2".to_owned(), input.clone()));
        }
        let e_val = match read_field::<String>(input, "e") {
            Ok(x) => x,
            Err(err) => return Err(err),
        };
        let f_val = match read_field::<Option<bool>>(input, "f") {
            Ok(x) => x,
            Err(err) => return Err(err),
        };
        Ok(Test2 { e: e_val, f: f_val })
    }
}

/// Specification-level mirror of [`Test`].
pub struct SpecTest {
    pub a: i64,
    pub b: bool,
    pub c: SpecTest2,
    pub d: Option<Seq<char>>,
}

/// The worked example record: an integer under its local name, a boolean
/// renamed to the external key "real_b", a required nested record, and an
/// optional string.
#[derive(Debug, PartialEq, Eq)]
pub struct Test {
    pub a: i64,
    pub b: bool,
    pub c: Test2,
    pub d: Option<String>,
}

impl DeepView for Test {
    type V = SpecTest;

    open spec fn deep_view(&self) -> SpecTest {
        SpecTest { a: self.a, b: self.b, c: self.c.deep_view(), d: self.d.deep_view() }
    }
}

impl FromJson for Test {
    open spec fn spec_from_json(v: SpecValue) -> Result<SpecTest, SpecError> {
        if !(v is Object) {
            Err(SpecError::ExpectError("object Test"@, v))
        } else {
            match spec_read_field::<i64>(v, "a"@) {
                Err(e) => Err(e),
                Ok(a_val) => match spec_read_field::<bool>(v, "real_b"@) {
                    Err(e) => Err(e),
                    Ok(b_val) => match spec_read_field::<Test2>(v, "c"@) {
                        Err(e) => Err(e),
                        Ok(c_val) => match spec_read_field::<Option<String>>(v, "d"@) {
                            Err(e) => Err(e),
                            Ok(d_val) => Ok(
                                SpecTest { a: a_val, b: b_val, c: c_val, d: d_val },
                            ),
                        },
                    },
                },
            }
        }
    }

    fn from_json(input: &Value) -> (r: Result<Test, FromJsonError>) {
        if !input.is_object() {
            return Err(FromJsonError::ExpectError("object Test".to_owned(), input.clone()));
        }
        let a_val = match read_field::<i64>(input, "a") {
            Ok(x) => x,
            Err(err) => return Err(err),
        };
        let b_val = match read_field::<bool>(input, "real_b") {
            Ok(x) => x,
            Err(err) => return Err(err),
        };
        let c_val = match read_field::<Test2>(input, "c") {
            Ok(x) => x,
            Err(err) => return Err(err),
        };
        let d_val = match read_field::<Option<String>>(input, "d") {
            Ok(x) => x,
            Err(err) => return Err(err),
        };
        Ok(Test { a: a_val, b: b_val, c: c_val, d: d_val })
    }
}

/// The encoding a [`Test2`] instance round-trips through: an object with
/// its two fields under their keys, the optional field as Null when empty.
pub open spec fn spec_encode_test2(t: SpecTest2) -> SpecValue {
    SpecValue::Object(
        seq![
            ("e"@, SpecValue::Str(t.e)),
            (
                "f"@,
                match t.f {
                    Some(b) => SpecValue::Boolean(b),
                    None => SpecValue::Null,
                },
            ),
        ],
    )
}

impl Test2 {
    /// A symmetric encoder for this record, the collaborator of the
    /// round-trip law [`lemma_test2_round_trip`].
    pub fn to_value(&self) -> (r: Value)
        ensures
            r.deep_view() == spec_encode_test2(self.deep_view()),
    {
        let mut entries: Vec<(String, Value)> = Vec::new();
        entries.push(("e".to_owned(), Value::Str(self.e.clone())));
        let f_val = match self.f {
            Some(b) => Value::Boolean(b),
            None => Value::Null,
        };
        entries.push(("f".to_owned(), f_val));
        proof {
            crate::value::lemma_spec_entries_of(entries@);
            assert(spec_entries_of(entries@) =~= spec_encode_test2(
                self.deep_view(),
            )->Object_0);
        }
        Value::Object(entries)
    }
}

/// Converting any value that is not an object to a record fails with a
/// shape mismatch that names the record and carries the value.
pub proof fn lemma_non_object_rejected(v: SpecValue)
    requires
        !(v is Object),
    ensures
        Test::spec_from_json(v) == Err::<SpecTest, SpecError>(
            SpecError::ExpectError("object Test"@, v),
        ),
        Test2::spec_from_json(v) == Err::<SpecTest2, SpecError>(
            SpecError::ExpectError("object Test2"@, v),
        ),
{
}

/// A required field — one whose capability rejects Null with a shape
/// mismatch — whose key is absent from the object makes the binding fail
/// with `FieldNotFound` naming the key and the whole object.
pub proof fn lemma_missing_required_field<T: FromJson>(obj: SpecValue, key: Seq<char>)
    requires
        obj is Object,
        spec_lookup(obj->Object_0, key) is None,
        T::spec_from_json(SpecValue::Null) matches Err(e) && e is ExpectError,
    ensures
        spec_read_field::<T>(obj, key) == Err::<T::V, SpecError>(
            SpecError::FieldNotFound(key, obj),
        ),
{
}

/// An optional field whose key is absent from the object binds to the
/// empty value, whatever the wrapped type.
pub proof fn lemma_missing_optional_field<T: FromJson>(obj: SpecValue, key: Seq<char>)
    requires
        obj is Object,
        spec_lookup(obj->Object_0, key) is None,
    ensures
        spec_read_field::<Option<T>>(obj, key) == Ok::<Option<T::V>, SpecError>(None),
{
}

/// A renamed field is read from its external key only: whenever the object
/// holds a boolean under "real_b", a successful conversion's `b` field is
/// that boolean, whatever stands under the local name "b".
pub proof fn lemma_rename_reads_external_key(v: SpecValue, x: bool)
    requires
        v is Object,
        spec_lookup(v->Object_0, "real_b"@) == Some(SpecValue::Boolean(x)),
    ensures
        Test::spec_from_json(v) matches Ok(t) ==> t.b == x,
{
}

/// Fail-fast: the error of the first field that fails to bind, in declared
/// order, is the error of the whole conversion.
pub proof fn lemma_first_error_wins(v: SpecValue)
    requires
        v is Object,
        spec_read_field::<i64>(v, "a"@) is Err,
    ensures
        Test::spec_from_json(v) == Err::<SpecTest, SpecError>(
            spec_read_field::<i64>(v, "a"@)->Err_0,
        ),
{
}

/// The missing-field rule on the worked record: when the earlier fields
/// bind and the required key "c" is absent, the conversion fails with
/// `FieldNotFound` naming "c" and the whole object.
pub proof fn lemma_test_missing_c(v: SpecValue)
    requires
        v is Object,
        spec_read_field::<i64>(v, "a"@) is Ok,
        spec_read_field::<bool>(v, "real_b"@) is Ok,
        spec_lookup(v->Object_0, "c"@) is None,
    ensures
        Test::spec_from_json(v) == Err::<SpecTest, SpecError>(
            SpecError::FieldNotFound("c"@, v),
        ),
{
    lemma_missing_required_field::<Test2>(v, "c"@);
}

/// Round trip: encoding an instance and converting the encoding back
/// yields an equal instance.
pub proof fn lemma_test2_round_trip(t: SpecTest2)
    ensures
        Test2::spec_from_json(spec_encode_test2(t)) == Ok::<SpecTest2, SpecError>(t),
{
    let enc = spec_encode_test2(t);
    let entries = enc->Object_0;
    let f_enc = entries[1].1;
    reveal_strlit("e");
    reveal_strlit("f");
    assert("e"@[0] == 'e' && "f"@[0] == 'f');
    assert("e"@ != "f"@);
    assert(entries.len() == 2);
    assert(entries[0] == ("e"@, SpecValue::Str(t.e)));
    assert(spec_lookup(entries, "e"@) == Some(SpecValue::Str(t.e)));
    assert(entries.drop_first()[0] == entries[1]);
    assert(spec_lookup(entries.drop_first(), "f"@) == Some(f_enc));
    assert(spec_lookup(entries, "f"@) == Some(f_enc));
    assert(spec_read_field::<String>(enc, "e"@) == Ok::<_, SpecError>(t.e));
    match t.f {
        Some(b) => {
            assert(f_enc == SpecValue::Boolean(b));
            assert(Option::<bool>::spec_from_json(f_enc) == Ok::<Option<bool>, SpecError>(
                Some(b),
            ));
        },
        None => {
            assert(f_enc == SpecValue::Null);
            assert(Option::<bool>::spec_from_json(f_enc) == Ok::<Option<bool>, SpecError>(None));
        },
    }
    assert(spec_read_field::<Option<bool>>(enc, "f"@) == Ok::<Option<bool>, SpecError>(t.f));
    assert(SpecTest2 { e: t.e, f: t.f } =~= t);
}

} // verus!
