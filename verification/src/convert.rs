//! The conversion capability: a pure function from a JSON value to a typed
//! result or an error, with built-in capabilities for primitives and
//! containers.

use vstd::prelude::*;

use crate::error::{res_model, FromJsonError, SpecError};
use crate::value::{spec_value_of, SpecValue, Value};

verus! {

/// The conversion capability for a type: `from_json` attempts to build the
/// type from a JSON value, and returns exactly what the type's
/// specification-level conversion function says it returns.
pub trait FromJson: Sized + DeepView {
    /// What converting a value to this type yields, at the specification
    /// level.
    spec fn spec_from_json(v: SpecValue) -> Result<Self::V, SpecError>;

    /// Builds the object from a JSON value.
    fn from_json(input: &Value) -> (r: Result<Self, FromJsonError>)
        ensures
            res_model(r) == Self::spec_from_json(input.deep_view()),
    ;
}

impl FromJson for bool {
    open spec fn spec_from_json(v: SpecValue) -> Result<bool, SpecError> {
        match v {
            SpecValue::Boolean(b) => Ok(b),
            _ => Err(SpecError::ExpectError("boolean"@, v)),
        }
    }

    fn from_json(input: &Value) -> (r: Result<bool, FromJsonError>) {
        match input {
            Value::Boolean(b) => Ok(*b),
            _ => Err(FromJsonError::ExpectError("boolean".to_owned(), input.clone())),
        }
    }
}

impl FromJson for String {
    open spec fn spec_from_json(v: SpecValue) -> Result<Seq<char>, SpecError> {
        match v {
            SpecValue::Str(s) => Ok(s),
            _ => Err(SpecError::ExpectError("string"@, v)),
        }
    }

    fn from_json(input: &Value) -> (r: Result<String, FromJsonError>) {
        match input {
            Value::Str(s) => Ok(s.clone()),
            _ => Err(FromJsonError::ExpectError("string".to_owned(), input.clone())),
        }
    }
}

/// The numeric content of a value, if it has one: any numeric variant is
/// accepted, widened losslessly. Conversion to a concrete numeric type
/// truncates this to the target's width; no range validation is performed.
pub open spec fn spec_num_of(v: SpecValue) -> Option<i128> {
    match v {
        SpecValue::I64(i) => Some(i as i128),
        SpecValue::U64(u) => Some(u as i128),
        SpecValue::F64(t) => Some(t as i128),
        _ => None,
    }
}

fn num_of(input: &Value) -> (r: Option<i128>)
    ensures
        r == spec_num_of(input.deep_view()),
{
    match input {
        Value::I64(i) => Some(*i as i128),
        Value::U64(u) => Some(*u as i128),
        Value::F64(t) => Some(*t as i128),
        _ => None,
    }
}

impl FromJson for i64 {
    open spec fn spec_from_json(v: SpecValue) -> Result<i64, SpecError> {
        match spec_num_of(v) {
            Some(n) => Ok(n as i64),
            None => Err(SpecError::ExpectError("integer"@, v)),
        }
    }

    fn from_json(input: &Value) -> (r: Result<i64, FromJsonError>) {
        match num_of(input) {
            Some(n) => Ok(#[verifier::truncate] (n as i64)),
            None => Err(FromJsonError::ExpectError("integer".to_owned(), input.clone())),
        }
    }
}

impl FromJson for u64 {
    open spec fn spec_from_json(v: SpecValue) -> Result<u64, SpecError> {
        match spec_num_of(v) {
            Some(n) => Ok(n as u64),
            None => Err(SpecError::ExpectError("integer"@, v)),
        }
    }

    fn from_json(input: &Value) -> (r: Result<u64, FromJsonError>) {
        match num_of(input) {
            Some(n) => Ok(#[verifier::truncate] (n as u64)),
            None => Err(FromJsonError::ExpectError("integer".to_owned(), input.clone())),
        }
    }
}

impl FromJson for i32 {
    open spec fn spec_from_json(v: SpecValue) -> Result<i32, SpecError> {
        match spec_num_of(v) {
            Some(n) => Ok(n as i32),
            None => Err(SpecError::ExpectError("integer"@, v)),
        }
    }

    fn from_json(input: &Value) -> (r: Result<i32, FromJsonError>) {
        match num_of(input) {
            Some(n) => Ok(#[verifier::truncate] (n as i32)),
            None => Err(FromJsonError::ExpectError("integer".to_owned(), input.clone())),
        }
    }
}

impl FromJson for u32 {
    open spec fn spec_from_json(v: SpecValue) -> Result<u32, SpecError> {
        match spec_num_of(v) {
            Some(n) => Ok(n as u32),
            None => Err(SpecError::ExpectError("integer"@, v)),
        }
    }

    fn from_json(input: &Value) -> (r: Result<u32, FromJsonError>) {
        match num_of(input) {
            Some(n) => Ok(#[verifier::truncate] (n as u32)),
            None => Err(FromJsonError::ExpectError("integer".to_owned(), input.clone())),
        }
    }
}

impl FromJson for i16 {
    open spec fn spec_from_json(v: SpecValue) -> Result<i16, SpecError> {
        match spec_num_of(v) {
            Some(n) => Ok(n as i16),
            None => Err(SpecError::ExpectError("integer"@, v)),
        }
    }

    fn from_json(input: &Value) -> (r: Result<i16, FromJsonError>) {
        match num_of(input) {
            Some(n) => Ok(#[verifier::truncate] (n as i16)),
            None => Err(FromJsonError::ExpectError("integer".to_owned(), input.clone())),
        }
    }
}

impl FromJson for u16 {
    open spec fn spec_from_json(v: SpecValue) -> Result<u16, SpecError> {
        match spec_num_of(v) {
            Some(n) => Ok(n as u16),
            None => Err(SpecError::ExpectError("integer"@, v)),
        }
    }

    fn from_json(input: &Value) -> (r: Result<u16, FromJsonError>) {
        match num_of(input) {
            Some(n) => Ok(#[verifier::truncate] (n as u16)),
            None => Err(FromJsonError::ExpectError("integer".to_owned(), input.clone())),
        }
    }
}

impl FromJson for i8 {
    open spec fn spec_from_json(v: SpecValue) -> Result<i8, SpecError> {
        match spec_num_of(v) {
            Some(n) => Ok(n as i8),
            None => Err(SpecError::ExpectError("integer"@, v)),
        }
    }

    fn from_json(input: &Value) -> (r: Result<i8, FromJsonError>) {
        match num_of(input) {
            Some(n) => Ok(#[verifier::truncate] (n as i8)),
            None => Err(FromJsonError::ExpectError("integer".to_owned(), input.clone())),
        }
    }
}

impl FromJson for u8 {
    open spec fn spec_from_json(v: SpecValue) -> Result<u8, SpecError> {
        match spec_num_of(v) {
            Some(n) => Ok(n as u8),
            None => Err(SpecError::ExpectError("integer"@, v)),
        }
    }

    fn from_json(input: &Value) -> (r: Result<u8, FromJsonError>) {
        match num_of(input) {
            Some(n) => Ok(#[verifier::truncate] (n as u8)),
            None => Err(FromJsonError::ExpectError("integer".to_owned(), input.clone())),
        }
    }
}

impl FromJson for isize {
    open spec fn spec_from_json(v: SpecValue) -> Result<isize, SpecError> {
        match spec_num_of(v) {
            Some(n) => Ok(n as isize),
            None => Err(SpecError::ExpectError("integer"@, v)),
        }
    }

    fn from_json(input: &Value) -> (r: Result<isize, FromJsonError>) {
        match num_of(input) {
            Some(n) => Ok(#[verifier::truncate] (n as isize)),
            None => Err(FromJsonError::ExpectError("integer".to_owned(), input.clone())),
        }
    }
}

impl FromJson for usize {
    open spec fn spec_from_json(v: SpecValue) -> Result<usize, SpecError> {
        match spec_num_of(v) {
            Some(n) => Ok(n as usize),
            None => Err(SpecError::ExpectError("integer"@, v)),
        }
    }

    fn from_json(input: &Value) -> (r: Result<usize, FromJsonError>) {
        match num_of(input) {
            Some(n) => Ok(#[verifier::truncate] (n as usize)),
            None => Err(FromJsonError::ExpectError("integer".to_owned(), input.clone())),
        }
    }
}

impl<T: FromJson> FromJson for Option<T> {
    /// Null becomes the empty result; anything else is delegated to the
    /// wrapped type, whose error is propagated unchanged.
    open spec fn spec_from_json(v: SpecValue) -> Result<Option<T::V>, SpecError> {
        match v {
            SpecValue::Null => Ok(None),
            _ => match T::spec_from_json(v) {
                Ok(t) => Ok(Some(t)),
                Err(e) => Err(e),
            },
        }
    }

    fn from_json(input: &Value) -> (r: Result<Option<T>, FromJsonError>) {
        match input {
            Value::Null => Ok(None),
            _ => match T::from_json(input) {
                Ok(t) => Ok(Some(t)),
                Err(e) => Err(e),
            },
        }
    }
}

/// Element-wise conversion of an array's contents, in order; the first
/// failure aborts the whole conversion.
pub open spec fn spec_seq_from_json<T: FromJson>(elems: Seq<SpecValue>) -> Result<
    Seq<T::V>,
    SpecError,
>
    decreases elems.len(),
{
    if elems.len() == 0 {
        Ok(Seq::empty())
    } else {
        match T::spec_from_json(elems[0]) {
            Err(e) => Err(e),
            Ok(t) => match spec_seq_from_json::<T>(elems.drop_first()) {
                Err(e) => Err(e),
                Ok(rest) => Ok(rest.insert(0, t)),
            },
        }
    }
}

/// If every element of `elems` converts to the matching element of `s`, the
/// whole sequence converts to `s`.
proof fn lemma_seq_from_json_ok<T: FromJson>(elems: Seq<SpecValue>, s: Seq<T::V>)
    requires
        s.len() == elems.len(),
        forall|j: int| 0 <= j < elems.len() ==> T::spec_from_json(elems[j]) == Ok::<_, SpecError>(
            s[j],
        ),
    ensures
        spec_seq_from_json::<T>(elems) == Ok::<_, SpecError>(s),
    decreases elems.len(),
{
    if elems.len() == 0 {
        assert(s =~= Seq::<T::V>::empty());
    } else {
        lemma_seq_from_json_ok::<T>(elems.drop_first(), s.drop_first());
        assert(s.drop_first().insert(0, s[0]) =~= s);
    }
}

/// If a prefix of `elems` converts and element `i` fails, the whole
/// sequence fails with element `i`'s error.
proof fn lemma_seq_from_json_err<T: FromJson>(elems: Seq<SpecValue>, i: int)
    requires
        0 <= i < elems.len(),
        forall|j: int| 0 <= j < i ==> T::spec_from_json(elems[j]) is Ok,
        T::spec_from_json(elems[i]) is Err,
    ensures
        spec_seq_from_json::<T>(elems) == Err::<Seq<T::V>, SpecError>(
            T::spec_from_json(elems[i])->Err_0,
        ),
    decreases i,
{
    if i > 0 {
        lemma_seq_from_json_err::<T>(elems.drop_first(), i - 1);
    }
}

impl<T: FromJson> FromJson for Vec<T> {
    open spec fn spec_from_json(v: SpecValue) -> Result<Seq<T::V>, SpecError> {
        match v {
            SpecValue::Array(elems) => spec_seq_from_json::<T>(elems),
            _ => Err(SpecError::ExpectError("list"@, v)),
        }
    }

    fn from_json(input: &Value) -> (r: Result<Vec<T>, FromJsonError>) {
        match input {
            Value::Array(elems) => {
                let ghost ve = crate::value::spec_values_of(elems@);
                proof {
                    crate::value::lemma_spec_values_of(elems@);
                }
                let mut out: Vec<T> = Vec::new();
                let mut i: usize = 0;
                while i < elems.len()
                    invariant
                        i <= elems.len(),
                        out.deep_view().len() == i,
                        ve == crate::value::spec_values_of(elems@),
                        input.deep_view() == SpecValue::Array(ve),
                        ve.len() == elems@.len(),
                        forall|j: int| 0 <= j < elems@.len() ==> #[trigger] ve[j] == spec_value_of(
                            elems@[j],
                        ),
                        forall|j: int| 0 <= j < i ==> T::spec_from_json(ve[j]) == Ok::<
                            _,
                            SpecError,
                        >(out.deep_view()[j]),
                    decreases elems.len() - i,
                {
                    match T::from_json(&elems[i]) {
                        Ok(t) => {
                            out.push(t);
                        },
                        Err(e) => {
                            proof {
                                lemma_seq_from_json_err::<T>(ve, i as int);
                            }
                            return Err(e);
                        },
                    }
                    i += 1;
                }
                proof {
                    lemma_seq_from_json_ok::<T>(ve, out.deep_view());
                }
                Ok(out)
            },
            _ => Err(FromJsonError::ExpectError("list".to_owned(), input.clone())),
        }
    }
}

/// A string-keyed map of converted values, in document order. It stands in
/// for a hash map keyed by the objects' own keys: entries keep the order of
/// the source object, and keys are as unique as the source object's.
#[derive(Debug, PartialEq, Eq)]
pub struct KeyMap<T> {
    /// The entries, keyed by the source object's keys, in document order.
    pub entries: Vec<(String, T)>,
}

impl<T: DeepView> DeepView for KeyMap<T> {
    type V = Seq<(Seq<char>, T::V)>;

    open spec fn deep_view(&self) -> Seq<(Seq<char>, T::V)> {
        Seq::new(self.entries@.len(), |i: int| (self.entries@[i].0@, self.entries@[i].1.deep_view()))
    }
}

/// Entry-wise conversion of an object's contents, keyed by the original
/// keys, in order; the first failure aborts the whole conversion.
pub open spec fn spec_obj_from_json<T: FromJson>(entries: Seq<(Seq<char>, SpecValue)>) -> Result<
    Seq<(Seq<char>, T::V)>,
    SpecError,
>
    decreases entries.len(),
{
    if entries.len() == 0 {
        Ok(Seq::empty())
    } else {
        match T::spec_from_json(entries[0].1) {
            Err(e) => Err(e),
            Ok(t) => match spec_obj_from_json::<T>(entries.drop_first()) {
                Err(e) => Err(e),
                Ok(rest) => Ok(rest.insert(0, (entries[0].0, t))),
            },
        }
    }
}

/// If every entry's value converts to the matching converted entry, the
/// whole object converts to those entries.
proof fn lemma_obj_from_json_ok<T: FromJson>(
    entries: Seq<(Seq<char>, SpecValue)>,
    s: Seq<(Seq<char>, T::V)>,
)
    requires
        s.len() == entries.len(),
        forall|j: int| 0 <= j < entries.len() ==> #[trigger] s[j].0 == entries[j].0
            && T::spec_from_json(entries[j].1) == Ok::<_, SpecError>(s[j].1),
    ensures
        spec_obj_from_json::<T>(entries) == Ok::<_, SpecError>(s),
    decreases entries.len(),
{
    if entries.len() == 0 {
        assert(s =~= Seq::<(Seq<char>, T::V)>::empty());
    } else {
        lemma_obj_from_json_ok::<T>(entries.drop_first(), s.drop_first());
        assert(s[0].0 == entries[0].0);
        assert((entries[0].0, s[0].1) == s[0]);
        assert(s.drop_first().insert(0, (entries[0].0, s[0].1)) =~= s);
    }
}

/// If a prefix of the entries converts and entry `i`'s value fails, the
/// whole object fails with entry `i`'s error.
proof fn lemma_obj_from_json_err<T: FromJson>(entries: Seq<(Seq<char>, SpecValue)>, i: int)
    requires
        0 <= i < entries.len(),
        forall|j: int| 0 <= j < i ==> T::spec_from_json(#[trigger] entries[j].1) is Ok,
        T::spec_from_json(entries[i].1) is Err,
    ensures
        spec_obj_from_json::<T>(entries) == Err::<Seq<(Seq<char>, T::V)>, SpecError>(
            T::spec_from_json(entries[i].1)->Err_0,
        ),
    decreases i,
{
    if i > 0 {
        lemma_obj_from_json_err::<T>(entries.drop_first(), i - 1);
    }
}

impl<T: FromJson> FromJson for KeyMap<T> {
    open spec fn spec_from_json(v: SpecValue) -> Result<Seq<(Seq<char>, T::V)>, SpecError> {
        match v {
            SpecValue::Object(entries) => spec_obj_from_json::<T>(entries),
            _ => Err(SpecError::ExpectError("object"@, v)),
        }
    }

    fn from_json(input: &Value) -> (r: Result<KeyMap<T>, FromJsonError>) {
        match input {
            Value::Object(entries) => {
                let ghost ve = crate::value::spec_entries_of(entries@);
                proof {
                    crate::value::lemma_spec_entries_of(entries@);
                }
                let mut out: Vec<(String, T)> = Vec::new();
                let mut i: usize = 0;
                while i < entries.len()
                    invariant
                        i <= entries.len(),
                        out.len() == i,
                        ve == crate::value::spec_entries_of(entries@),
                        input.deep_view() == SpecValue::Object(ve),
                        ve.len() == entries@.len(),
                        forall|j: int| 0 <= j < entries@.len() ==> #[trigger] ve[j] == (
                            entries@[j].0@,
                            spec_value_of(entries@[j].1),
                        ),
                        forall|j: int| 0 <= j < i ==> #[trigger] out@[j].0@ == ve[j].0,
                        forall|j: int| 0 <= j < i ==> T::spec_from_json(#[trigger] ve[j].1)
                            == Ok::<_, SpecError>(out@[j].1.deep_view()),
                    decreases entries.len() - i,
                {
                    let entry = &entries[i];
                    match T::from_json(&entry.1) {
                        Ok(t) => {
                            let k = entry.0.clone();
                            out.push((k, t));
                        },
                        Err(e) => {
                            proof {
                                lemma_obj_from_json_err::<T>(ve, i as int);
                            }
                            return Err(e);
                        },
                    }
                    i += 1;
                }
                let result = KeyMap { entries: out };
                proof {
                    lemma_obj_from_json_ok::<T>(ve, result.deep_view());
                }
                Ok(result)
            },
            _ => Err(FromJsonError::ExpectError("object".to_owned(), input.clone())),
        }
    }
}

} // verus!
