//! The value model: an immutable, acyclic tree standing for a parsed JSON
//! document, together with its specification-level mirror.

use vstd::prelude::*;

verus! {

broadcast use vstd::seq::axiom_seq_index_decreases, vstd::std_specs::vec::axiom_vec_index_decreases;

/// Specification-level mirror of [`Value`]: the same tree over mathematical
/// sequences. All conversion contracts are stated over this type.
pub enum SpecValue {
    Null,
    Boolean(bool),
    I64(i64),
    U64(u64),
    /// The float variant, carried as its value truncated toward zero.
    F64(i64),
    Str(Seq<char>),
    Array(Seq<SpecValue>),
    Object(Seq<(Seq<char>, SpecValue)>),
}

/// A JSON value: Null, Boolean, the numeric variants, String, Array
/// (ordered sequence), or Object (string-keyed entries in document order,
/// keys unique).
///
/// The tree is produced by an external parser at the crate boundary and is
/// consumed read-only here. Floating-point numbers cannot appear in verified
/// code, and the conversion logic reads nothing of a float beyond its
/// truncated value, so the boundary that builds a `Value` stores the float
/// variant as that value truncated toward zero.
#[derive(Debug, PartialEq, Eq)]
pub enum Value {
    Null,
    Boolean(bool),
    I64(i64),
    U64(u64),
    /// A float, truncated toward zero by the boundary that built the tree.
    F64(i64),
    Str(String),
    Array(Vec<Value>),
    Object(Vec<(String, Value)>),
}

/// The specification-level tree a [`Value`] stands for.
pub open spec fn spec_value_of(v: Value) -> SpecValue
    decreases v,
{
    match v {
        Value::Null => SpecValue::Null,
        Value::Boolean(b) => SpecValue::Boolean(b),
        Value::I64(i) => SpecValue::I64(i),
        Value::U64(u) => SpecValue::U64(u),
        Value::F64(t) => SpecValue::F64(t),
        Value::Str(s) => SpecValue::Str(s@),
        Value::Array(elems) => {
            proof {
                assert(decreases_to!(v => elems));
                assert(decreases_to!(elems => elems@));
            }
            SpecValue::Array(spec_values_of(elems@))
        },
        Value::Object(entries) => {
            proof {
                assert(decreases_to!(v => entries));
                assert(decreases_to!(entries => entries@));
            }
            SpecValue::Object(spec_entries_of(entries@))
        },
    }
}

/// The specification-level trees a sequence of values stands for, in order.
pub open spec fn spec_values_of(elems: Seq<Value>) -> Seq<SpecValue>
    decreases elems,
{
    if elems.len() == 0 {
        Seq::empty()
    } else {
        proof {
            assert(decreases_to!(elems => elems[0]));
            vstd::seq::axiom_seq_len_decreases(elems, elems.subrange(1, elems.len() as int));
        }
        spec_values_of(elems.subrange(1, elems.len() as int)).insert(0, spec_value_of(elems[0]))
    }
}

/// The specification-level entries a sequence of keyed values stands for,
/// in order.
pub open spec fn spec_entries_of(entries: Seq<(String, Value)>) -> Seq<(Seq<char>, SpecValue)>
    decreases entries,
{
    if entries.len() == 0 {
        Seq::empty()
    } else {
        proof {
            assert(decreases_to!(entries => entries[0]));
            vstd::seq::axiom_seq_len_decreases(entries, entries.subrange(1, entries.len() as int));
        }
        spec_entries_of(entries.subrange(1, entries.len() as int)).insert(
            0,
            (entries[0].0@, spec_value_of(entries[0].1)),
        )
    }
}

/// `spec_values_of` maps the view elementwise.
pub proof fn lemma_spec_values_of(elems: Seq<Value>)
    ensures
        spec_values_of(elems).len() == elems.len(),
        forall|i: int| 0 <= i < elems.len() ==> #[trigger] spec_values_of(elems)[i]
            == spec_value_of(elems[i]),
    decreases elems.len(),
{
    if elems.len() > 0 {
        lemma_spec_values_of(elems.subrange(1, elems.len() as int));
    }
}

/// `spec_entries_of` maps the view elementwise.
pub proof fn lemma_spec_entries_of(entries: Seq<(String, Value)>)
    ensures
        spec_entries_of(entries).len() == entries.len(),
        forall|i: int| 0 <= i < entries.len() ==> #[trigger] spec_entries_of(entries)[i] == (
            entries[i].0@,
            spec_value_of(entries[i].1),
        ),
    decreases entries.len(),
{
    if entries.len() > 0 {
        lemma_spec_entries_of(entries.subrange(1, entries.len() as int));
    }
}

/// Keyed lookup among an object's entries: the first entry under `key`,
/// if any. With unique keys, the first entry is the only one.
pub open spec fn spec_lookup(entries: Seq<(Seq<char>, SpecValue)>, key: Seq<char>) -> Option<
    SpecValue,
>
    decreases entries.len(),
{
    if entries.len() == 0 {
        None
    } else if entries[0].0 == key {
        Some(entries[0].1)
    } else {
        spec_lookup(entries.drop_first(), key)
    }
}

/// If no key of `entries` is `key`, the lookup finds nothing.
proof fn lemma_lookup_none(entries: Seq<(Seq<char>, SpecValue)>, key: Seq<char>)
    requires
        forall|j: int| 0 <= j < entries.len() ==> (#[trigger] entries[j].0) != key,
    ensures
        spec_lookup(entries, key) is None,
    decreases entries.len(),
{
    if entries.len() > 0 {
        lemma_lookup_none(entries.drop_first(), key);
    }
}

/// If the keys before entry `i` are not `key` and entry `i`'s key is, the
/// lookup finds entry `i`'s value.
proof fn lemma_lookup_found(entries: Seq<(Seq<char>, SpecValue)>, key: Seq<char>, i: int)
    requires
        0 <= i < entries.len(),
        forall|j: int| 0 <= j < i ==> (#[trigger] entries[j].0) != key,
        entries[i].0 == key,
    ensures
        spec_lookup(entries, key) == Some(entries[i].1),
    decreases i,
{
    if i > 0 {
        lemma_lookup_found(entries.drop_first(), key, i - 1);
    }
}

/// Key uniqueness among an object's entries: the invariant an object
/// produced by a JSON parser satisfies.
pub open spec fn spec_keys_unique(entries: Seq<(Seq<char>, SpecValue)>) -> bool {
    forall|i: int, j: int| 0 <= i < j < entries.len() ==> (#[trigger] entries[i].0) != (
    #[trigger] entries[j].0)
}

/// With unique keys the first entry under a key is the only one: every
/// entry's value is what the lookup finds under that entry's key.
pub proof fn lemma_lookup_unique(entries: Seq<(Seq<char>, SpecValue)>, i: int)
    requires
        spec_keys_unique(entries),
        0 <= i < entries.len(),
    ensures
        spec_lookup(entries, entries[i].0) == Some(entries[i].1),
{
    lemma_lookup_found(entries, entries[i].0, i);
}

impl DeepView for Value {
    type V = SpecValue;

    open spec fn deep_view(&self) -> SpecValue {
        spec_value_of(*self)
    }
}

impl Value {
    /// Whether this value is an object.
    pub fn is_object(&self) -> (r: bool)
        ensures
            r == (self.deep_view() is Object),
    {
        match self {
            Value::Object(_) => true,
            _ => false,
        }
    }

    /// Whether this value is an array.
    pub fn is_array(&self) -> (r: bool)
        ensures
            r == (self.deep_view() is Array),
    {
        match self {
            Value::Array(_) => true,
            _ => false,
        }
    }

    /// The array's elements, in order, if this value is an array.
    pub fn as_array(&self) -> (r: Option<&Vec<Value>>)
        ensures
            match r {
                Some(elems) => self.deep_view() == SpecValue::Array(spec_values_of(elems@)),
                None => !(self.deep_view() is Array),
            },
    {
        match self {
            Value::Array(elems) => Some(elems),
            _ => None,
        }
    }

    /// The object's entries, in document order, if this value is an object.
    pub fn as_object(&self) -> (r: Option<&Vec<(String, Value)>>)
        ensures
            match r {
                Some(entries) => self.deep_view() == SpecValue::Object(spec_entries_of(entries@)),
                None => !(self.deep_view() is Object),
            },
    {
        match self {
            Value::Object(entries) => Some(entries),
            _ => None,
        }
    }

    /// Keyed lookup: the value under `key` if this value is an object with
    /// such an entry, and nothing otherwise.
    pub fn find<'a>(&'a self, key: &str) -> (r: Option<&'a Value>)
        ensures
            match self.deep_view() {
                SpecValue::Object(entries) => match r {
                    Some(sub) => spec_lookup(entries, key@) == Some(sub.deep_view()),
                    None => spec_lookup(entries, key@) is None,
                },
                _ => r is None,
            },
    {
        match self {
            Value::Object(entries) => {
                let ghost ve = spec_entries_of(entries@);
                proof {
                    lemma_spec_entries_of(entries@);
                }
                let k = key.to_owned();
                let mut i: usize = 0;
                while i < entries.len()
                    invariant
                        i <= entries.len(),
                        k@ == key@,
                        ve == spec_entries_of(entries@),
                        self.deep_view() == SpecValue::Object(ve),
                        ve.len() == entries@.len(),
                        forall|j: int| 0 <= j < entries@.len() ==> #[trigger] ve[j] == (
                            entries@[j].0@,
                            spec_value_of(entries@[j].1),
                        ),
                        forall|j: int| 0 <= j < i ==> (#[trigger] ve[j].0) != key@,
                    decreases entries.len() - i,
                {
                    let entry = &entries[i];
                    if entry.0 == k {
                        proof {
                            lemma_lookup_found(ve, key@, i as int);
                        }
                        return Some(&entry.1);
                    }
                    i += 1;
                }
                proof {
                    lemma_lookup_none(ve, key@);
                }
                None
            },
            _ => None,
        }
    }
}

impl Clone for Value {
    /// A structural copy: the copy stands for the same tree.
    fn clone(&self) -> (r: Value)
        ensures
            r.deep_view() == self.deep_view(),
    {
        clone_value(self)
    }
}

/// Structural copy of a value tree.
fn clone_value(v: &Value) -> (r: Value)
    ensures
        r.deep_view() == v.deep_view(),
    decreases *v,
{
    match v {
        Value::Null => Value::Null,
        Value::Boolean(b) => Value::Boolean(*b),
        Value::I64(i) => Value::I64(*i),
        Value::U64(u) => Value::U64(*u),
        Value::F64(t) => Value::F64(*t),
        Value::Str(s) => Value::Str(s.clone()),
        Value::Array(elems) => {
            let mut out: Vec<Value> = Vec::new();
            let mut i: usize = 0;
            while i < elems.len()
                invariant
                    i <= elems.len(),
                    out@.len() == i,
                    *v == Value::Array(*elems),
                    forall|j: int| 0 <= j < i ==> #[trigger] spec_value_of(out@[j])
                        == spec_value_of(elems@[j]),
                decreases elems.len() - i,
            {
                proof {
                    assert(decreases_to!(*v => v->Array_0));
                    assert(decreases_to!(*elems => elems@[i as int]));
                }
                let e = clone_value(&elems[i]);
                out.push(e);
                i += 1;
            }
            proof {
                lemma_spec_values_of(out@);
                lemma_spec_values_of(elems@);
                assert(spec_values_of(out@) =~= spec_values_of(elems@));
            }
            Value::Array(out)
        },
        Value::Object(entries) => {
            let mut out: Vec<(String, Value)> = Vec::new();
            let mut i: usize = 0;
            while i < entries.len()
                invariant
                    i <= entries.len(),
                    out@.len() == i,
                    *v == Value::Object(*entries),
                    forall|j: int| 0 <= j < i ==> #[trigger] out@[j].0@ == entries@[j].0@
                        && spec_value_of(out@[j].1) == spec_value_of(entries@[j].1),
                decreases entries.len() - i,
            {
                proof {
                    assert(decreases_to!(*v => v->Object_0));
                    assert(decreases_to!(*entries => entries@[i as int]));
                    assert(decreases_to!(entries@[i as int] => entries@[i as int].1));
                }
                let entry = &entries[i];
                let e = clone_value(&entry.1);
                let k = entry.0.clone();
                out.push((k, e));
                i += 1;
            }
            proof {
                lemma_spec_entries_of(out@);
                lemma_spec_entries_of(entries@);
                assert(spec_entries_of(out@) =~= spec_entries_of(entries@));
            }
            Value::Object(out)
        },
    }
}

} // verus!
