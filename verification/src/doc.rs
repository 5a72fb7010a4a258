use vstd::prelude::*;
use vstd::std_specs::cmp::PartialEqSpecImpl;
use vstd::string::*;

use crate::data_type::DataType;
use crate::error::{is_invalid_argument, Error, Result};
use crate::binary16::F16;
use crate::limits::Limits;
use crate::schema::{append_decimal, invalid, lemma_valid_schema, FieldModel, FieldSchema, Schema, SchemaModel};
use crate::text::spec_decimal;
use crate::text::{
    bytes_less, compare_text, join3, lemma_bytes_less_irreflexive, lemma_bytes_less_transitive,
    same_text, text_bytes, TextOrder,
};

verus! {

/// A value stored in a document field.
///
/// Floating-point values are held as their IEEE 754 bit patterns, exactly as supplied.
#[derive(Debug)]
#[allow(inconsistent_fields)]
pub enum Value {
    /// An explicit null.
    Null,
    /// A Boolean scalar.
    Bool(bool),
    /// A signed 32-bit integer scalar.
    I32(i32),
    /// A signed 64-bit integer scalar.
    I64(i64),
    /// An unsigned 32-bit integer scalar.
    U32(u32),
    /// An unsigned 64-bit integer scalar.
    U64(u64),
    /// A single-precision scalar, as its bit pattern.
    F32(u32),
    /// A double-precision scalar, as its bit pattern.
    F64(u64),
    /// A UTF-8 string scalar.
    String(String),
    /// An uninterpreted byte string.
    Binary(Vec<u8>),
    /// An array of Boolean values.
    BoolArray(Vec<bool>),
    /// An array of signed 32-bit integers.
    I32Array(Vec<i32>),
    /// An array of signed 64-bit integers.
    I64Array(Vec<i64>),
    /// An array of unsigned 32-bit integers.
    U32Array(Vec<u32>),
    /// An array of unsigned 64-bit integers.
    U64Array(Vec<u64>),
    /// An array of single-precision values, as bit patterns.
    F32Array(Vec<u32>),
    /// An array of double-precision values, as bit patterns.
    F64Array(Vec<u64>),
    /// An array of UTF-8 strings.
    StringArray(Vec<String>),
    /// An array of uninterpreted byte strings.
    BinaryArray(Vec<Vec<u8>>),
    /// A dense single-precision vector, as bit patterns.
    DenseVectorF32(Vec<u32>),
    /// A dense half-precision vector.
    DenseVectorF16(Vec<F16>),
    /// A dense signed 8-bit integer vector.
    DenseVectorI8(Vec<i8>),
    /// A sparse single-precision vector: coordinates and their values, as bit patterns.
    SparseVectorF32 { indices: Vec<u32>, values: Vec<u32> },
    /// A sparse half-precision vector: coordinates and their values.
    SparseVectorF16 { indices: Vec<u32>, values: Vec<F16> },
}

impl Value {
    /// The logical type of a non-null value.
    pub open spec fn spec_data_type(&self) -> Option<DataType> {
        match self {
            Value::Null => None,
            Value::Bool(_) => Some(DataType::Bool),
            Value::I32(_) => Some(DataType::I32),
            Value::I64(_) => Some(DataType::I64),
            Value::U32(_) => Some(DataType::U32),
            Value::U64(_) => Some(DataType::U64),
            Value::F32(_) => Some(DataType::F32),
            Value::F64(_) => Some(DataType::F64),
            Value::String(_) => Some(DataType::String),
            Value::Binary(_) => Some(DataType::Binary),
            Value::BoolArray(_) => Some(DataType::BoolArray),
            Value::I32Array(_) => Some(DataType::I32Array),
            Value::I64Array(_) => Some(DataType::I64Array),
            Value::U32Array(_) => Some(DataType::U32Array),
            Value::U64Array(_) => Some(DataType::U64Array),
            Value::F32Array(_) => Some(DataType::F32Array),
            Value::F64Array(_) => Some(DataType::F64Array),
            Value::StringArray(_) => Some(DataType::StringArray),
            Value::BinaryArray(_) => Some(DataType::BinaryArray),
            Value::DenseVectorF32(_) => Some(DataType::DenseVectorF32),
            Value::DenseVectorF16(_) => Some(DataType::DenseVectorF16),
            Value::DenseVectorI8(_) => Some(DataType::DenseVectorI8),
            Value::SparseVectorF32 { .. } => Some(DataType::SparseVectorF32),
            Value::SparseVectorF16 { .. } => Some(DataType::SparseVectorF16),
        }
    }

    /// Returns the logical type of a non-null value, or `None` for null.
    #[verifier::when_used_as_spec(spec_data_type)]
    pub fn data_type(&self) -> (r: Option<DataType>)
        ensures
            r == self.spec_data_type(),
    {
        match self {
            Value::Null => None,
            Value::Bool(_) => Some(DataType::Bool),
            Value::I32(_) => Some(DataType::I32),
            Value::I64(_) => Some(DataType::I64),
            Value::U32(_) => Some(DataType::U32),
            Value::U64(_) => Some(DataType::U64),
            Value::F32(_) => Some(DataType::F32),
            Value::F64(_) => Some(DataType::F64),
            Value::String(_) => Some(DataType::String),
            Value::Binary(_) => Some(DataType::Binary),
            Value::BoolArray(_) => Some(DataType::BoolArray),
            Value::I32Array(_) => Some(DataType::I32Array),
            Value::I64Array(_) => Some(DataType::I64Array),
            Value::U32Array(_) => Some(DataType::U32Array),
            Value::U64Array(_) => Some(DataType::U64Array),
            Value::F32Array(_) => Some(DataType::F32Array),
            Value::F64Array(_) => Some(DataType::F64Array),
            Value::StringArray(_) => Some(DataType::StringArray),
            Value::BinaryArray(_) => Some(DataType::BinaryArray),
            Value::DenseVectorF32(_) => Some(DataType::DenseVectorF32),
            Value::DenseVectorF16(_) => Some(DataType::DenseVectorF16),
            Value::DenseVectorI8(_) => Some(DataType::DenseVectorI8),
            Value::SparseVectorF32 { .. } => Some(DataType::SparseVectorF32),
            Value::SparseVectorF16 { .. } => Some(DataType::SparseVectorF16),
        }
    }
}

/// Two values hold the same content: the same variant with equal scalars and element sequences.
pub open spec fn same_content(a: Value, b: Value) -> bool {
    match (a, b) {
            (Value::Null, Value::Null) => true,
            (Value::Bool(x), Value::Bool(y)) => x == y,
            (Value::I32(x), Value::I32(y)) => x == y,
            (Value::I64(x), Value::I64(y)) => x == y,
            (Value::U32(x), Value::U32(y)) => x == y,
            (Value::U64(x), Value::U64(y)) => x == y,
            (Value::F32(x), Value::F32(y)) => x == y,
            (Value::F64(x), Value::F64(y)) => x == y,
            (Value::String(x), Value::String(y)) => x@ == y@,
            (Value::Binary(x), Value::Binary(y)) => x@ == y@,
            (Value::BoolArray(x), Value::BoolArray(y)) => x@ == y@,
            (Value::I32Array(x), Value::I32Array(y)) => x@ == y@,
            (Value::I64Array(x), Value::I64Array(y)) => x@ == y@,
            (Value::U32Array(x), Value::U32Array(y)) => x@ == y@,
            (Value::U64Array(x), Value::U64Array(y)) => x@ == y@,
            (Value::F32Array(x), Value::F32Array(y)) => x@ == y@,
            (Value::F64Array(x), Value::F64Array(y)) => x@ == y@,
            (Value::StringArray(x), Value::StringArray(y)) => x@ == y@,
            (Value::DenseVectorF32(x), Value::DenseVectorF32(y)) => x@ == y@,
            (Value::DenseVectorF16(x), Value::DenseVectorF16(y)) => x@ == y@,
            (Value::DenseVectorI8(x), Value::DenseVectorI8(y)) => x@ == y@,
            (Value::BinaryArray(x), Value::BinaryArray(y)) => x@.len() == y@.len()
                && forall|i: int| 0 <= i < x@.len() ==> (#[trigger] x@[i])@ == y@[i]@,
            (Value::SparseVectorF32 { indices: i1, values: v1 }, Value::SparseVectorF32 { indices: i2, values: v2 }) =>
                i1@ == i2@ && v1@ == v2@,
            (Value::SparseVectorF16 { indices: i1, values: v1 }, Value::SparseVectorF16 { indices: i2, values: v2 }) =>
                i1@ == i2@ && v1@ == v2@,
            _ => false,
    }
}

fn clone_byte_strings(values: &Vec<Vec<u8>>) -> (r: Vec<Vec<u8>>)
    ensures
        r@.len() == values@.len(),
        forall|i: int| 0 <= i < values@.len() ==> (#[trigger] r@[i])@ == values@[i]@,
{
    let mut out: Vec<Vec<u8>> = Vec::new();
    let mut i: usize = 0;
    while i < values.len()
        invariant
            0 <= i <= values@.len(),
            out@.len() == i,
            forall|j: int| 0 <= j < i ==> (#[trigger] out@[j])@ == values@[j]@,
        decreases values@.len() - i,
    {
        let copy = values[i].clone();
        assert(copy@ =~= values@[i as int]@);
        out.push(copy);
        i = i + 1;
    }
    out
}

impl Clone for Value {
    fn clone(&self) -> (r: Self)
        ensures
            same_content(r, *self),
    {
        match self {
            Value::Null => Value::Null,
            Value::Bool(x) => Value::Bool(*x),
            Value::I32(x) => Value::I32(*x),
            Value::I64(x) => Value::I64(*x),
            Value::U32(x) => Value::U32(*x),
            Value::U64(x) => Value::U64(*x),
            Value::F32(x) => Value::F32(*x),
            Value::F64(x) => Value::F64(*x),
            Value::String(x) => Value::String(x.clone()),
            Value::Binary(x) => Value::Binary(x.clone()),
            Value::BoolArray(x) => Value::BoolArray(x.clone()),
            Value::I32Array(x) => Value::I32Array(x.clone()),
            Value::I64Array(x) => Value::I64Array(x.clone()),
            Value::U32Array(x) => Value::U32Array(x.clone()),
            Value::U64Array(x) => Value::U64Array(x.clone()),
            Value::F32Array(x) => Value::F32Array(x.clone()),
            Value::F64Array(x) => Value::F64Array(x.clone()),
            Value::StringArray(x) => Value::StringArray(x.clone()),
            Value::DenseVectorF32(x) => Value::DenseVectorF32(x.clone()),
            Value::DenseVectorF16(x) => Value::DenseVectorF16(x.clone()),
            Value::DenseVectorI8(x) => Value::DenseVectorI8(x.clone()),
            Value::BinaryArray(x) => Value::BinaryArray(clone_byte_strings(x)),
            Value::SparseVectorF32 { indices, values } => Value::SparseVectorF32 { indices: indices.clone(), values: values.clone() },
            Value::SparseVectorF16 { indices, values } => Value::SparseVectorF16 { indices: indices.clone(), values: values.clone() },
        }
    }
}

/// The message of a getter or validation type mismatch: the stored type, or `null`, against the
/// expected type.
pub open spec fn mismatch_message(name: Seq<char>, expected: DataType, actual: Value) -> Seq<char> {
    let actual_name = match actual.spec_data_type() {
        Some(t) => t.spec_variant_name(),
        None => "null"@,
    };
    "field `"@ + name + "` has type "@ + actual_name + ", expected "@ + expected.spec_variant_name()
}

fn type_mismatch(name: &str, expected: DataType, actual: &Value) -> (e: Error)
    ensures
        is_invalid_argument(e, mismatch_message(name@, expected, *actual)),
{
    let actual_name = match actual.data_type() {
        Some(t) => t.variant_name(),
        None => "null",
    };
    let mut s = join3("field `", name, "` has type ");
    s.append(actual_name);
    s.append(", expected ");
    s.append(expected.variant_name());
    invalid(s)
}

/// A document's entries in stored order: names and values.
pub type Entries = Seq<(Seq<char>, Value)>;

/// The value stored under a name: the last entry with that name.
pub open spec fn find_entry(entries: Entries, name: Seq<char>) -> Option<Value>
    decreases entries.len(),
{
    if entries.len() == 0 {
        None
    } else if entries.last().0 == name {
        Some(entries.last().1)
    } else {
        find_entry(entries.drop_last(), name)
    }
}

/// The map from names to values that entries hold.
pub open spec fn entries_map(entries: Entries) -> Map<Seq<char>, Value> {
    Map::new(|k: Seq<char>| find_entry(entries, k) is Some, |k: Seq<char>| find_entry(entries, k)->0)
}

/// Entries are kept in strictly increasing byte order of their names, the order of a
/// `BTreeMap<String, _>`.
pub open spec fn names_sorted(entries: Entries) -> bool {
    forall|i: int, j: int|
        0 <= i < j < entries.len() ==> bytes_less(text_bytes(entries[i].0), text_bytes(entries[j].0))
}

proof fn lemma_find_absent(entries: Entries, name: Seq<char>)
    requires
        forall|i: int| 0 <= i < entries.len() ==> entries[i].0 != name,
    ensures
        find_entry(entries, name) is None,
    decreases entries.len(),
{
    if entries.len() > 0 {
        lemma_find_absent(entries.drop_last(), name);
    }
}

proof fn lemma_find_present(entries: Entries, name: Seq<char>, i: int)
    requires
        0 <= i < entries.len(),
        entries[i].0 == name,
        forall|j: int| i < j < entries.len() ==> entries[j].0 != name,
    ensures
        find_entry(entries, name) == Some(entries[i].1),
    decreases entries.len(),
{
    if i < entries.len() - 1 {
        lemma_find_present(entries.drop_last(), name, i);
    }
}

proof fn lemma_sorted_distinct(entries: Entries)
    requires
        names_sorted(entries),
    ensures
        forall|i: int, j: int|
            0 <= i < entries.len() && 0 <= j < entries.len() && i != j ==> entries[i].0 != entries[j].0,
{
    assert forall|i: int, j: int|
        0 <= i < entries.len() && 0 <= j < entries.len() && i != j implies entries[i].0 != entries[j].0 by {
        lemma_bytes_less_irreflexive(text_bytes(entries[i].0));
    }
}

/// In sorted entries, the value under a name is the one at the position holding that name.
proof fn lemma_lookup(entries: Entries, name: Seq<char>)
    requires
        names_sorted(entries),
    ensures
        forall|i: int| 0 <= i < entries.len() && entries[i].0 == name
            ==> find_entry(entries, name) == Some(#[trigger] entries[i].1),
        (forall|i: int| 0 <= i < entries.len() ==> entries[i].0 != name) ==> find_entry(entries, name) is None,
        entries_map(entries).contains_key(name) <==> exists|i: int| 0 <= i < entries.len() && entries[i].0 == name,
{
    lemma_sorted_distinct(entries);
    assert forall|i: int| 0 <= i < entries.len() && entries[i].0 == name
        implies find_entry(entries, name) == Some(#[trigger] entries[i].1) by {
        lemma_find_present(entries, name, i);
    }
    if exists|i: int| 0 <= i < entries.len() && entries[i].0 == name {
        let i = choose|i: int| 0 <= i < entries.len() && entries[i].0 == name;
        lemma_find_present(entries, name, i);
    } else {
        lemma_find_absent(entries, name);
    }
}

/// Keys are unchanged by replacing the value at a position whose name is kept.
proof fn lemma_map_after_update(before: Entries, i: int, name: Seq<char>, value: Value)
    requires
        names_sorted(before),
        0 <= i < before.len(),
        before[i].0 == name,
    ensures
        names_sorted(before.update(i, (name, value))),
        entries_map(before.update(i, (name, value))) == entries_map(before).insert(name, value),
{
    let after = before.update(i, (name, value));
    assert(names_sorted(after));
    let target = entries_map(before).insert(name, value);
    assert forall|k: Seq<char>| #[trigger] entries_map(after).contains_key(k) == target.contains_key(k)
        && (target.contains_key(k) ==> entries_map(after)[k] == target[k]) by {
        lemma_lookup(before, k);
        lemma_lookup(after, k);
        if k != name {
            if exists|j: int| 0 <= j < before.len() && before[j].0 == k {
                let j = choose|j: int| 0 <= j < before.len() && before[j].0 == k;
                assert(after[j] == before[j]);
                assert(find_entry(before, k) == Some(before[j].1));
                assert(find_entry(after, k) == Some(after[j].1));
            } else {
                assert forall|j: int| 0 <= j < after.len() implies after[j].0 != k by {
                    if j != i {
                        assert(after[j] == before[j]);
                    }
                }
                assert(find_entry(after, k) is None);
            }
        } else {
            assert(after[i] == (name, value));
            assert(find_entry(after, k) == Some(after[i].1));
        }
    }
    assert(entries_map(after) =~= target);
}

/// Inserting a new name at its place in the order keeps the order and adds the name.
proof fn lemma_map_after_insert(before: Entries, i: int, name: Seq<char>, value: Value)
    requires
        names_sorted(before),
        0 <= i <= before.len(),
        forall|j: int| 0 <= j < i ==> bytes_less(text_bytes(before[j].0), text_bytes(name)),
        i < before.len() ==> bytes_less(text_bytes(name), text_bytes(before[i].0)),
    ensures
        names_sorted(before.insert(i, (name, value))),
        entries_map(before.insert(i, (name, value))) == entries_map(before).insert(name, value),
{
    let after = before.insert(i, (name, value));
    assert forall|a: int, b: int| 0 <= a < b < after.len()
        implies bytes_less(text_bytes(after[a].0), text_bytes(after[b].0)) by {
        if b == i {
        } else if a == i {
            if b > i + 1 {
                lemma_bytes_less_transitive(text_bytes(name), text_bytes(before[i].0), text_bytes(before[b - 1].0));
            }
        } else if a < i && b > i {
            if b - 1 > i {
                lemma_bytes_less_transitive(text_bytes(name), text_bytes(before[i].0), text_bytes(before[b - 1].0));
            }
            lemma_bytes_less_transitive(text_bytes(before[a].0), text_bytes(name), text_bytes(before[b - 1].0));
        }
    }
    assert(names_sorted(after));
    let target = entries_map(before).insert(name, value);
    assert forall|k: Seq<char>| #[trigger] entries_map(after).contains_key(k) == target.contains_key(k)
        && (target.contains_key(k) ==> entries_map(after)[k] == target[k]) by {
        lemma_lookup(before, k);
        lemma_lookup(after, k);
        if k != name {
            if exists|j: int| 0 <= j < before.len() && before[j].0 == k {
                let j = choose|j: int| 0 <= j < before.len() && before[j].0 == k;
                assert(find_entry(before, k) == Some(before[j].1));
                if j < i {
                    assert(after[j] == before[j]);
                    assert(find_entry(after, k) == Some(after[j].1));
                } else {
                    assert(after[j + 1] == before[j]);
                    assert(find_entry(after, k) == Some(after[j + 1].1));
                }
            } else {
                assert forall|j: int| 0 <= j < after.len() implies after[j].0 != k by {
                    if j < i {
                        assert(after[j] == before[j]);
                    } else if j > i {
                        assert(after[j] == before[j - 1]);
                    }
                }
                assert(find_entry(after, k) is None);
            }
        } else {
            assert(after[i] == (name, value));
            assert(find_entry(after, k) == Some(after[i].1));
        }
    }
    assert(entries_map(after) =~= target);
}

#[derive(Debug)]
struct Entry {
    name: String,
    value: Value,
}

/// A document assembled from typed field values.
///
/// Setters record values without a schema so documents can be assembled incrementally. Call
/// [`Doc::validate`] before insertion to enforce field presence, nullability, logical types,
/// vector dimensions, finite floating-point values, and configured limits.
///
/// Both sparse-vector setters share one contract: indices and values are retained exactly as
/// supplied, and [`Doc::validate`] rejects mismatched sequence lengths; unsorted, duplicate, or
/// out-of-bounds indices; non-finite values; and vectors that exceed the configured entry limit.
/// Validation never sorts, deduplicates, or otherwise mutates the caller's values. Empty index and
/// value sequences are valid, and entries whose values are `0.0` or `-0.0` are retained and
/// counted toward the entry limit rather than being removed.
#[derive(Debug)]
pub struct Doc {
    entries: Vec<Entry>,
}

impl Default for Doc {
    /// An empty document.
    fn default() -> (d: Self)
        ensures
            d@ == Map::<Seq<char>, Value>::empty(),
            d.entries() == Seq::<(Seq<char>, Value)>::empty(),
    {
        Doc::new()
    }
}

impl Clone for Doc {
    /// A document with the same names, in the same order, each holding the same content.
    fn clone(&self) -> (d: Self)
        ensures
            d.entries().len() == self.entries().len(),
            forall|i: int| 0 <= i < self.entries().len() ==> (#[trigger] d.entries()[i]).0 == self.entries()[i].0
                && same_content(d.entries()[i].1, self.entries()[i].1),
    {
        proof {
            use_type_invariant(self);
        }
        let mut entries: Vec<Entry> = Vec::new();
        let mut i: usize = 0;
        while i < self.entries.len()
            invariant
                0 <= i <= self.entries@.len(),
                names_sorted(self.entries()),
                entries@.len() == i,
                forall|j: int| 0 <= j < i ==> (#[trigger] entries@[j]).name@ == self.entries@[j].name@
                    && same_content(entries@[j].value, self.entries@[j].value),
            decreases self.entries@.len() - i,
        {
            let e = &self.entries[i];
            entries.push(Entry { name: e.name.clone(), value: e.value.clone() });
            i = i + 1;
        }
        let ghost es = entries@.map_values(|e: Entry| (e.name@, e.value));
        proof {
            assert forall|a: int, b: int| 0 <= a < b < es.len()
                implies bytes_less(text_bytes(es[a].0), text_bytes(es[b].0)) by {
                assert(es[a].0 == self.entries()[a].0);
                assert(es[b].0 == self.entries()[b].0);
            }
        }
        Doc { entries }
    }
}

impl View for Doc {
    type V = Map<Seq<char>, Value>;

    open spec fn view(&self) -> Map<Seq<char>, Value> {
        entries_map(self.entries())
    }
}

impl Doc {
    /// The document's entries, in increasing byte order of their names.
    pub closed spec fn entries(self) -> Entries {
        self.entries@.map_values(|e: Entry| (e.name@, e.value))
    }

    #[verifier::type_invariant]
    spec fn sorted(self) -> bool {
        names_sorted(self.entries())
    }

    /// Creates an empty document.
    pub fn new() -> (d: Self)
        ensures
            d@ == Map::<Seq<char>, Value>::empty(),
            d.entries() == Seq::<(Seq<char>, Value)>::empty(),
    {
        let d = Doc { entries: Vec::new() };
        assert(d.entries() =~= Seq::<(Seq<char>, Value)>::empty());
        assert(d@ =~= Map::<Seq<char>, Value>::empty());
        d
    }

    /// The position of the entry with this name, if there is one.
    fn position(&self, name: &str) -> (r: Option<usize>)
        ensures
            match r {
                Some(i) => i < self.entries().len() && self.entries()[i as int].0 == name@,
                None => forall|i: int| 0 <= i < self.entries().len() ==> self.entries()[i].0 != name@,
            },
    {
        let mut i: usize = 0;
        while i < self.entries.len()
            invariant
                0 <= i <= self.entries@.len(),
                forall|j: int| 0 <= j < i ==> self.entries()[j].0 != name@,
            decreases self.entries@.len() - i,
        {
            if same_text(self.entries[i].name.as_str(), name) {
                return Some(i);
            }
            i = i + 1;
        }
        None
    }

    /// The value stored under a name, if any.
    fn lookup(&self, name: &str) -> (r: Option<&Value>)
        ensures
            match r {
                Some(v) => self@.get(name@) == Some(*v),
                None => self@.get(name@) is None,
            },
    {
        proof {
            use_type_invariant(self);
            lemma_lookup(self.entries(), name@);
        }
        match self.position(name) {
            Some(i) => {
                assert(self.entries()[i as int].1 == self.entries@[i as int].value);
                Some(&self.entries[i].value)
            },
            None => None,
        }
    }

    /// Records a value under a name, replacing any value stored there, and keeps the entries in
    /// name order.
    fn insert(&mut self, name: &str, value: Value) -> (r: &mut Self)
        ensures
            r@ == old(self)@.insert(name@, value),
            names_sorted(r.entries()),
            *final(self) == *final(r),
    {
        proof {
            use_type_invariant(&*self);
        }
        let ghost before = self.entries();
        let mut entries: Vec<Entry> = Vec::new();
        std::mem::swap(&mut entries, &mut self.entries);
        let ghost es = entries@.map_values(|e: Entry| (e.name@, e.value));
        assert(es == before);
        let mut i: usize = 0;
        let mut found = false;
        while i < entries.len()
            invariant_except_break
                0 <= i <= entries@.len(),
                entries@.map_values(|e: Entry| (e.name@, e.value)) == before,
                forall|j: int| 0 <= j < i ==> bytes_less(text_bytes(before[j].0), text_bytes(name@)),
                !found,
            ensures
                0 <= i <= entries@.len(),
                entries@.map_values(|e: Entry| (e.name@, e.value)) == before,
                forall|j: int| 0 <= j < i ==> bytes_less(text_bytes(before[j].0), text_bytes(name@)),
                found ==> i < entries@.len() && before[i as int].0 == name@,
                !found && i < entries@.len() ==> bytes_less(text_bytes(name@), text_bytes(before[i as int].0)),
            decreases entries@.len() - i,
        {
            match compare_text(entries[i].name.as_str(), name) {
                TextOrder::Same => {
                    found = true;
                    break;
                },
                TextOrder::After => {
                    break;
                },
                TextOrder::Before => {
                    i = i + 1;
                },
            }
        }
        let ghost new_entry = (name@, value);
        let entry = Entry { name: name.to_owned(), value };
        if found {
            entries.set(i, entry);
            proof {
                assert(entries@.map_values(|e: Entry| (e.name@, e.value)) =~= before.update(i as int, new_entry));
                lemma_map_after_update(before, i as int, name@, value);
            }
        } else {
            entries.insert(i, entry);
            proof {
                assert(entries@.map_values(|e: Entry| (e.name@, e.value)) =~= before.insert(i as int, new_entry));
                lemma_map_after_insert(before, i as int, name@, value);
            }
        }
        self.entries = entries;
        self
    }

    /// Records an explicit null value for a field.
    pub fn set_null(&mut self, name: &str) -> (r: &mut Self)
        ensures
            r@ == old(self)@.insert(name@, Value::Null),
            names_sorted(r.entries()),
            *final(self) == *final(r),
    {
        self.insert(name, Value::Null)
    }

    /// Returns `true` if the document contains an entry for `name`, including an explicit null.
    pub fn contains_field(&self, name: &str) -> (r: bool)
        ensures
            r == self@.contains_key(name@),
    {
        self.lookup(name).is_some()
    }

    /// Returns `true` if the document stores an explicit null for `name`.
    ///
    /// A missing field returns `false`.
    pub fn is_null(&self, name: &str) -> (r: bool)
        ensures
            r == (self@.get(name@) == Some(Value::Null)),
    {
        match self.lookup(name) {
            Some(Value::Null) => true,
            _ => false,
        }
    }

    /// Sets a Boolean field value.
    pub fn set_bool(&mut self, name: &str, value: bool) -> (r: &mut Self)
        ensures
            r@ == old(self)@.insert(name@, Value::Bool(value)),
            names_sorted(r.entries()),
            *final(self) == *final(r),
    {
        self.insert(name, Value::Bool(value))
    }

    /// Returns a Boolean field value.
    ///
    /// Missing and explicitly null values both return `Ok(None)`; use [`Doc::contains_field`] and
    /// [`Doc::is_null`] to distinguish them.
    ///
    /// # Errors
    ///
    /// Returns [`Error::InvalidArgument`] when the stored non-null value has a different type
    /// than the getter expects.
    pub fn get_bool(&self, name: &str) -> (r: Result<Option<bool>>)
        ensures
            match self@.get(name@) {
                None => r matches Ok(None),
                Some(Value::Null) => r matches Ok(None),
                Some(Value::Bool(v)) => r matches Ok(Some(x)) && x == v,
                Some(other) => r matches Err(e)
                    && is_invalid_argument(e, mismatch_message(name@, DataType::Bool, other)),
            },
    {
        match self.lookup(name) {
            None => Ok(None),
            Some(Value::Null) => Ok(None),
            Some(Value::Bool(v)) => Ok(Some(*v)),
            Some(other) => Err(type_mismatch(name, DataType::Bool, other)),
        }
    }

    /// Sets a signed 32-bit integer field value.
    pub fn set_i32(&mut self, name: &str, value: i32) -> (r: &mut Self)
        ensures
            r@ == old(self)@.insert(name@, Value::I32(value)),
            names_sorted(r.entries()),
            *final(self) == *final(r),
    {
        self.insert(name, Value::I32(value))
    }

    /// Returns a signed 32-bit integer field value.
    ///
    /// Missing and explicitly null values both return `Ok(None)`; use [`Doc::contains_field`] and
    /// [`Doc::is_null`] to distinguish them.
    ///
    /// # Errors
    ///
    /// Returns [`Error::InvalidArgument`] when the stored non-null value has a different type
    /// than the getter expects.
    pub fn get_i32(&self, name: &str) -> (r: Result<Option<i32>>)
        ensures
            match self@.get(name@) {
                None => r matches Ok(None),
                Some(Value::Null) => r matches Ok(None),
                Some(Value::I32(v)) => r matches Ok(Some(x)) && x == v,
                Some(other) => r matches Err(e)
                    && is_invalid_argument(e, mismatch_message(name@, DataType::I32, other)),
            },
    {
        match self.lookup(name) {
            None => Ok(None),
            Some(Value::Null) => Ok(None),
            Some(Value::I32(v)) => Ok(Some(*v)),
            Some(other) => Err(type_mismatch(name, DataType::I32, other)),
        }
    }

    /// Sets a signed 64-bit integer field value.
    pub fn set_i64(&mut self, name: &str, value: i64) -> (r: &mut Self)
        ensures
            r@ == old(self)@.insert(name@, Value::I64(value)),
            names_sorted(r.entries()),
            *final(self) == *final(r),
    {
        self.insert(name, Value::I64(value))
    }

    /// Returns a signed 64-bit integer field value.
    ///
    /// Missing and explicitly null values both return `Ok(None)`; use [`Doc::contains_field`] and
    /// [`Doc::is_null`] to distinguish them.
    ///
    /// # Errors
    ///
    /// Returns [`Error::InvalidArgument`] when the stored non-null value has a different type
    /// than the getter expects.
    pub fn get_i64(&self, name: &str) -> (r: Result<Option<i64>>)
        ensures
            match self@.get(name@) {
                None => r matches Ok(None),
                Some(Value::Null) => r matches Ok(None),
                Some(Value::I64(v)) => r matches Ok(Some(x)) && x == v,
                Some(other) => r matches Err(e)
                    && is_invalid_argument(e, mismatch_message(name@, DataType::I64, other)),
            },
    {
        match self.lookup(name) {
            None => Ok(None),
            Some(Value::Null) => Ok(None),
            Some(Value::I64(v)) => Ok(Some(*v)),
            Some(other) => Err(type_mismatch(name, DataType::I64, other)),
        }
    }

    /// Sets an unsigned 32-bit integer field value.
    pub fn set_u32(&mut self, name: &str, value: u32) -> (r: &mut Self)
        ensures
            r@ == old(self)@.insert(name@, Value::U32(value)),
            names_sorted(r.entries()),
            *final(self) == *final(r),
    {
        self.insert(name, Value::U32(value))
    }

    /// Returns an unsigned 32-bit integer field value.
    ///
    /// Missing and explicitly null values both return `Ok(None)`; use [`Doc::contains_field`] and
    /// [`Doc::is_null`] to distinguish them.
    ///
    /// # Errors
    ///
    /// Returns [`Error::InvalidArgument`] when the stored non-null value has a different type
    /// than the getter expects.
    pub fn get_u32(&self, name: &str) -> (r: Result<Option<u32>>)
        ensures
            match self@.get(name@) {
                None => r matches Ok(None),
                Some(Value::Null) => r matches Ok(None),
                Some(Value::U32(v)) => r matches Ok(Some(x)) && x == v,
                Some(other) => r matches Err(e)
                    && is_invalid_argument(e, mismatch_message(name@, DataType::U32, other)),
            },
    {
        match self.lookup(name) {
            None => Ok(None),
            Some(Value::Null) => Ok(None),
            Some(Value::U32(v)) => Ok(Some(*v)),
            Some(other) => Err(type_mismatch(name, DataType::U32, other)),
        }
    }

    /// Sets an unsigned 64-bit integer field value.
    pub fn set_u64(&mut self, name: &str, value: u64) -> (r: &mut Self)
        ensures
            r@ == old(self)@.insert(name@, Value::U64(value)),
            names_sorted(r.entries()),
            *final(self) == *final(r),
    {
        self.insert(name, Value::U64(value))
    }

    /// Returns an unsigned 64-bit integer field value.
    ///
    /// Missing and explicitly null values both return `Ok(None)`; use [`Doc::contains_field`] and
    /// [`Doc::is_null`] to distinguish them.
    ///
    /// # Errors
    ///
    /// Returns [`Error::InvalidArgument`] when the stored non-null value has a different type
    /// than the getter expects.
    pub fn get_u64(&self, name: &str) -> (r: Result<Option<u64>>)
        ensures
            match self@.get(name@) {
                None => r matches Ok(None),
                Some(Value::Null) => r matches Ok(None),
                Some(Value::U64(v)) => r matches Ok(Some(x)) && x == v,
                Some(other) => r matches Err(e)
                    && is_invalid_argument(e, mismatch_message(name@, DataType::U64, other)),
            },
    {
        match self.lookup(name) {
            None => Ok(None),
            Some(Value::Null) => Ok(None),
            Some(Value::U64(v)) => Ok(Some(*v)),
            Some(other) => Err(type_mismatch(name, DataType::U64, other)),
        }
    }

    /// Sets a single-precision floating-point field value, given as its IEEE 754 bit pattern; validation rejects non-finite values.
    pub fn set_f32(&mut self, name: &str, value: u32) -> (r: &mut Self)
        ensures
            r@ == old(self)@.insert(name@, Value::F32(value)),
            names_sorted(r.entries()),
            *final(self) == *final(r),
    {
        self.insert(name, Value::F32(value))
    }

    /// Returns a single-precision floating-point field value as its IEEE 754 bit pattern.
    ///
    /// Missing and explicitly null values both return `Ok(None)`; use [`Doc::contains_field`] and
    /// [`Doc::is_null`] to distinguish them.
    ///
    /// # Errors
    ///
    /// Returns [`Error::InvalidArgument`] when the stored non-null value has a different type
    /// than the getter expects.
    pub fn get_f32(&self, name: &str) -> (r: Result<Option<u32>>)
        ensures
            match self@.get(name@) {
                None => r matches Ok(None),
                Some(Value::Null) => r matches Ok(None),
                Some(Value::F32(v)) => r matches Ok(Some(x)) && x == v,
                Some(other) => r matches Err(e)
                    && is_invalid_argument(e, mismatch_message(name@, DataType::F32, other)),
            },
    {
        match self.lookup(name) {
            None => Ok(None),
            Some(Value::Null) => Ok(None),
            Some(Value::F32(v)) => Ok(Some(*v)),
            Some(other) => Err(type_mismatch(name, DataType::F32, other)),
        }
    }

    /// Sets a double-precision floating-point field value, given as its IEEE 754 bit pattern; validation rejects non-finite values.
    pub fn set_f64(&mut self, name: &str, value: u64) -> (r: &mut Self)
        ensures
            r@ == old(self)@.insert(name@, Value::F64(value)),
            names_sorted(r.entries()),
            *final(self) == *final(r),
    {
        self.insert(name, Value::F64(value))
    }

    /// Returns a double-precision floating-point field value as its IEEE 754 bit pattern.
    ///
    /// Missing and explicitly null values both return `Ok(None)`; use [`Doc::contains_field`] and
    /// [`Doc::is_null`] to distinguish them.
    ///
    /// # Errors
    ///
    /// Returns [`Error::InvalidArgument`] when the stored non-null value has a different type
    /// than the getter expects.
    pub fn get_f64(&self, name: &str) -> (r: Result<Option<u64>>)
        ensures
            match self@.get(name@) {
                None => r matches Ok(None),
                Some(Value::Null) => r matches Ok(None),
                Some(Value::F64(v)) => r matches Ok(Some(x)) && x == v,
                Some(other) => r matches Err(e)
                    && is_invalid_argument(e, mismatch_message(name@, DataType::F64, other)),
            },
    {
        match self.lookup(name) {
            None => Ok(None),
            Some(Value::Null) => Ok(None),
            Some(Value::F64(v)) => Ok(Some(*v)),
            Some(other) => Err(type_mismatch(name, DataType::F64, other)),
        }
    }

    /// Sets a UTF-8 string field value.
    pub fn set_string(&mut self, name: &str, value: &str) -> (r: &mut Self)
        ensures
            r@ == old(self)@.insert(name@, r@[name@]),
            r@[name@] matches Value::String(s) && s@ == value@,
            names_sorted(r.entries()),
            *final(self) == *final(r),
    {
        self.insert(name, Value::String(value.to_owned()))
    }

    /// Sets an uninterpreted byte-string field value.
    pub fn set_binary(&mut self, name: &str, values: Vec<u8>) -> (r: &mut Self)
        ensures
            r@ == old(self)@.insert(name@, Value::Binary(values)),
            names_sorted(r.entries()),
            *final(self) == *final(r),
    {
        self.insert(name, Value::Binary(values))
    }

    /// Returns an uninterpreted byte-string field value.
    ///
    /// Missing and explicitly null values both return `Ok(None)`; use [`Doc::contains_field`] and
    /// [`Doc::is_null`] to distinguish them.
    ///
    /// # Errors
    ///
    /// Returns [`Error::InvalidArgument`] when the stored non-null value has a different type
    /// than the getter expects.
    pub fn get_binary(&self, name: &str) -> (r: Result<Option<&[u8]>>)
        ensures
            match self@.get(name@) {
                None => r matches Ok(None),
                Some(Value::Null) => r matches Ok(None),
                Some(Value::Binary(v)) => r matches Ok(Some(s)) && s@ == v@,
                Some(other) => r matches Err(e)
                    && is_invalid_argument(e, mismatch_message(name@, DataType::Binary, other)),
            },
    {
        match self.lookup(name) {
            None => Ok(None),
            Some(Value::Null) => Ok(None),
            Some(Value::Binary(v)) => Ok(Some(v.as_slice())),
            Some(other) => Err(type_mismatch(name, DataType::Binary, other)),
        }
    }

    /// Sets a Boolean array field value.
    pub fn set_bool_array(&mut self, name: &str, values: Vec<bool>) -> (r: &mut Self)
        ensures
            r@ == old(self)@.insert(name@, Value::BoolArray(values)),
            names_sorted(r.entries()),
            *final(self) == *final(r),
    {
        self.insert(name, Value::BoolArray(values))
    }

    /// Returns a Boolean array field value.
    ///
    /// Missing and explicitly null values both return `Ok(None)`; use [`Doc::contains_field`] and
    /// [`Doc::is_null`] to distinguish them.
    ///
    /// # Errors
    ///
    /// Returns [`Error::InvalidArgument`] when the stored non-null value has a different type
    /// than the getter expects.
    pub fn get_bool_array(&self, name: &str) -> (r: Result<Option<&[bool]>>)
        ensures
            match self@.get(name@) {
                None => r matches Ok(None),
                Some(Value::Null) => r matches Ok(None),
                Some(Value::BoolArray(v)) => r matches Ok(Some(s)) && s@ == v@,
                Some(other) => r matches Err(e)
                    && is_invalid_argument(e, mismatch_message(name@, DataType::BoolArray, other)),
            },
    {
        match self.lookup(name) {
            None => Ok(None),
            Some(Value::Null) => Ok(None),
            Some(Value::BoolArray(v)) => Ok(Some(v.as_slice())),
            Some(other) => Err(type_mismatch(name, DataType::BoolArray, other)),
        }
    }

    /// Sets a signed 32-bit integer array field value.
    pub fn set_i32_array(&mut self, name: &str, values: Vec<i32>) -> (r: &mut Self)
        ensures
            r@ == old(self)@.insert(name@, Value::I32Array(values)),
            names_sorted(r.entries()),
            *final(self) == *final(r),
    {
        self.insert(name, Value::I32Array(values))
    }

    /// Returns a signed 32-bit integer array field value.
    ///
    /// Missing and explicitly null values both return `Ok(None)`; use [`Doc::contains_field`] and
    /// [`Doc::is_null`] to distinguish them.
    ///
    /// # Errors
    ///
    /// Returns [`Error::InvalidArgument`] when the stored non-null value has a different type
    /// than the getter expects.
    pub fn get_i32_array(&self, name: &str) -> (r: Result<Option<&[i32]>>)
        ensures
            match self@.get(name@) {
                None => r matches Ok(None),
                Some(Value::Null) => r matches Ok(None),
                Some(Value::I32Array(v)) => r matches Ok(Some(s)) && s@ == v@,
                Some(other) => r matches Err(e)
                    && is_invalid_argument(e, mismatch_message(name@, DataType::I32Array, other)),
            },
    {
        match self.lookup(name) {
            None => Ok(None),
            Some(Value::Null) => Ok(None),
            Some(Value::I32Array(v)) => Ok(Some(v.as_slice())),
            Some(other) => Err(type_mismatch(name, DataType::I32Array, other)),
        }
    }

    /// Sets a signed 64-bit integer array field value.
    pub fn set_i64_array(&mut self, name: &str, values: Vec<i64>) -> (r: &mut Self)
        ensures
            r@ == old(self)@.insert(name@, Value::I64Array(values)),
            names_sorted(r.entries()),
            *final(self) == *final(r),
    {
        self.insert(name, Value::I64Array(values))
    }

    /// Returns a signed 64-bit integer array field value.
    ///
    /// Missing and explicitly null values both return `Ok(None)`; use [`Doc::contains_field`] and
    /// [`Doc::is_null`] to distinguish them.
    ///
    /// # Errors
    ///
    /// Returns [`Error::InvalidArgument`] when the stored non-null value has a different type
    /// than the getter expects.
    pub fn get_i64_array(&self, name: &str) -> (r: Result<Option<&[i64]>>)
        ensures
            match self@.get(name@) {
                None => r matches Ok(None),
                Some(Value::Null) => r matches Ok(None),
                Some(Value::I64Array(v)) => r matches Ok(Some(s)) && s@ == v@,
                Some(other) => r matches Err(e)
                    && is_invalid_argument(e, mismatch_message(name@, DataType::I64Array, other)),
            },
    {
        match self.lookup(name) {
            None => Ok(None),
            Some(Value::Null) => Ok(None),
            Some(Value::I64Array(v)) => Ok(Some(v.as_slice())),
            Some(other) => Err(type_mismatch(name, DataType::I64Array, other)),
        }
    }

    /// Sets an unsigned 32-bit integer array field value.
    pub fn set_u32_array(&mut self, name: &str, values: Vec<u32>) -> (r: &mut Self)
        ensures
            r@ == old(self)@.insert(name@, Value::U32Array(values)),
            names_sorted(r.entries()),
            *final(self) == *final(r),
    {
        self.insert(name, Value::U32Array(values))
    }

    /// Returns an unsigned 32-bit integer array field value.
    ///
    /// Missing and explicitly null values both return `Ok(None)`; use [`Doc::contains_field`] and
    /// [`Doc::is_null`] to distinguish them.
    ///
    /// # Errors
    ///
    /// Returns [`Error::InvalidArgument`] when the stored non-null value has a different type
    /// than the getter expects.
    pub fn get_u32_array(&self, name: &str) -> (r: Result<Option<&[u32]>>)
        ensures
            match self@.get(name@) {
                None => r matches Ok(None),
                Some(Value::Null) => r matches Ok(None),
                Some(Value::U32Array(v)) => r matches Ok(Some(s)) && s@ == v@,
                Some(other) => r matches Err(e)
                    && is_invalid_argument(e, mismatch_message(name@, DataType::U32Array, other)),
            },
    {
        match self.lookup(name) {
            None => Ok(None),
            Some(Value::Null) => Ok(None),
            Some(Value::U32Array(v)) => Ok(Some(v.as_slice())),
            Some(other) => Err(type_mismatch(name, DataType::U32Array, other)),
        }
    }

    /// Sets an unsigned 64-bit integer array field value.
    pub fn set_u64_array(&mut self, name: &str, values: Vec<u64>) -> (r: &mut Self)
        ensures
            r@ == old(self)@.insert(name@, Value::U64Array(values)),
            names_sorted(r.entries()),
            *final(self) == *final(r),
    {
        self.insert(name, Value::U64Array(values))
    }

    /// Returns an unsigned 64-bit integer array field value.
    ///
    /// Missing and explicitly null values both return `Ok(None)`; use [`Doc::contains_field`] and
    /// [`Doc::is_null`] to distinguish them.
    ///
    /// # Errors
    ///
    /// Returns [`Error::InvalidArgument`] when the stored non-null value has a different type
    /// than the getter expects.
    pub fn get_u64_array(&self, name: &str) -> (r: Result<Option<&[u64]>>)
        ensures
            match self@.get(name@) {
                None => r matches Ok(None),
                Some(Value::Null) => r matches Ok(None),
                Some(Value::U64Array(v)) => r matches Ok(Some(s)) && s@ == v@,
                Some(other) => r matches Err(e)
                    && is_invalid_argument(e, mismatch_message(name@, DataType::U64Array, other)),
            },
    {
        match self.lookup(name) {
            None => Ok(None),
            Some(Value::Null) => Ok(None),
            Some(Value::U64Array(v)) => Ok(Some(v.as_slice())),
            Some(other) => Err(type_mismatch(name, DataType::U64Array, other)),
        }
    }

    /// Sets a single-precision floating-point array field value, given as IEEE 754 bit patterns; validation rejects non-finite elements.
    pub fn set_f32_array(&mut self, name: &str, values: Vec<u32>) -> (r: &mut Self)
        ensures
            r@ == old(self)@.insert(name@, Value::F32Array(values)),
            names_sorted(r.entries()),
            *final(self) == *final(r),
    {
        self.insert(name, Value::F32Array(values))
    }

    /// Returns a single-precision floating-point array field value as IEEE 754 bit patterns.
    ///
    /// Missing and explicitly null values both return `Ok(None)`; use [`Doc::contains_field`] and
    /// [`Doc::is_null`] to distinguish them.
    ///
    /// # Errors
    ///
    /// Returns [`Error::InvalidArgument`] when the stored non-null value has a different type
    /// than the getter expects.
    pub fn get_f32_array(&self, name: &str) -> (r: Result<Option<&[u32]>>)
        ensures
            match self@.get(name@) {
                None => r matches Ok(None),
                Some(Value::Null) => r matches Ok(None),
                Some(Value::F32Array(v)) => r matches Ok(Some(s)) && s@ == v@,
                Some(other) => r matches Err(e)
                    && is_invalid_argument(e, mismatch_message(name@, DataType::F32Array, other)),
            },
    {
        match self.lookup(name) {
            None => Ok(None),
            Some(Value::Null) => Ok(None),
            Some(Value::F32Array(v)) => Ok(Some(v.as_slice())),
            Some(other) => Err(type_mismatch(name, DataType::F32Array, other)),
        }
    }

    /// Sets a double-precision floating-point array field value, given as IEEE 754 bit patterns; validation rejects non-finite elements.
    pub fn set_f64_array(&mut self, name: &str, values: Vec<u64>) -> (r: &mut Self)
        ensures
            r@ == old(self)@.insert(name@, Value::F64Array(values)),
            names_sorted(r.entries()),
            *final(self) == *final(r),
    {
        self.insert(name, Value::F64Array(values))
    }

    /// Returns a double-precision floating-point array field value as IEEE 754 bit patterns.
    ///
    /// Missing and explicitly null values both return `Ok(None)`; use [`Doc::contains_field`] and
    /// [`Doc::is_null`] to distinguish them.
    ///
    /// # Errors
    ///
    /// Returns [`Error::InvalidArgument`] when the stored non-null value has a different type
    /// than the getter expects.
    pub fn get_f64_array(&self, name: &str) -> (r: Result<Option<&[u64]>>)
        ensures
            match self@.get(name@) {
                None => r matches Ok(None),
                Some(Value::Null) => r matches Ok(None),
                Some(Value::F64Array(v)) => r matches Ok(Some(s)) && s@ == v@,
                Some(other) => r matches Err(e)
                    && is_invalid_argument(e, mismatch_message(name@, DataType::F64Array, other)),
            },
    {
        match self.lookup(name) {
            None => Ok(None),
            Some(Value::Null) => Ok(None),
            Some(Value::F64Array(v)) => Ok(Some(v.as_slice())),
            Some(other) => Err(type_mismatch(name, DataType::F64Array, other)),
        }
    }

    /// Sets a UTF-8 string array field value.
    pub fn set_string_array(&mut self, name: &str, values: Vec<String>) -> (r: &mut Self)
        ensures
            r@ == old(self)@.insert(name@, Value::StringArray(values)),
            names_sorted(r.entries()),
            *final(self) == *final(r),
    {
        self.insert(name, Value::StringArray(values))
    }

    /// Returns a UTF-8 string array field value.
    ///
    /// Missing and explicitly null values both return `Ok(None)`; use [`Doc::contains_field`] and
    /// [`Doc::is_null`] to distinguish them.
    ///
    /// # Errors
    ///
    /// Returns [`Error::InvalidArgument`] when the stored non-null value has a different type
    /// than the getter expects.
    pub fn get_string_array(&self, name: &str) -> (r: Result<Option<&[String]>>)
        ensures
            match self@.get(name@) {
                None => r matches Ok(None),
                Some(Value::Null) => r matches Ok(None),
                Some(Value::StringArray(v)) => r matches Ok(Some(s)) && s@ == v@,
                Some(other) => r matches Err(e)
                    && is_invalid_argument(e, mismatch_message(name@, DataType::StringArray, other)),
            },
    {
        match self.lookup(name) {
            None => Ok(None),
            Some(Value::Null) => Ok(None),
            Some(Value::StringArray(v)) => Ok(Some(v.as_slice())),
            Some(other) => Err(type_mismatch(name, DataType::StringArray, other)),
        }
    }

    /// Sets an array of uninterpreted byte strings.
    pub fn set_binary_array(&mut self, name: &str, values: Vec<Vec<u8>>) -> (r: &mut Self)
        ensures
            r@ == old(self)@.insert(name@, Value::BinaryArray(values)),
            names_sorted(r.entries()),
            *final(self) == *final(r),
    {
        self.insert(name, Value::BinaryArray(values))
    }

    /// Returns an array of uninterpreted byte strings.
    ///
    /// Missing and explicitly null values both return `Ok(None)`; use [`Doc::contains_field`] and
    /// [`Doc::is_null`] to distinguish them.
    ///
    /// # Errors
    ///
    /// Returns [`Error::InvalidArgument`] when the stored non-null value has a different type
    /// than the getter expects.
    pub fn get_binary_array(&self, name: &str) -> (r: Result<Option<&[Vec<u8>]>>)
        ensures
            match self@.get(name@) {
                None => r matches Ok(None),
                Some(Value::Null) => r matches Ok(None),
                Some(Value::BinaryArray(v)) => r matches Ok(Some(s)) && s@ == v@,
                Some(other) => r matches Err(e)
                    && is_invalid_argument(e, mismatch_message(name@, DataType::BinaryArray, other)),
            },
    {
        match self.lookup(name) {
            None => Ok(None),
            Some(Value::Null) => Ok(None),
            Some(Value::BinaryArray(v)) => Ok(Some(v.as_slice())),
            Some(other) => Err(type_mismatch(name, DataType::BinaryArray, other)),
        }
    }

    /// Sets a dense single-precision vector field value, given as IEEE 754 bit patterns.
    pub fn set_dense_vector_f32(&mut self, name: &str, values: Vec<u32>) -> (r: &mut Self)
        ensures
            r@ == old(self)@.insert(name@, Value::DenseVectorF32(values)),
            names_sorted(r.entries()),
            *final(self) == *final(r),
    {
        self.insert(name, Value::DenseVectorF32(values))
    }

    /// Returns a dense single-precision vector field value as IEEE 754 bit patterns.
    ///
    /// Missing and explicitly null values both return `Ok(None)`; use [`Doc::contains_field`] and
    /// [`Doc::is_null`] to distinguish them.
    ///
    /// # Errors
    ///
    /// Returns [`Error::InvalidArgument`] when the stored non-null value has a different type
    /// than the getter expects.
    pub fn get_dense_vector_f32(&self, name: &str) -> (r: Result<Option<&[u32]>>)
        ensures
            match self@.get(name@) {
                None => r matches Ok(None),
                Some(Value::Null) => r matches Ok(None),
                Some(Value::DenseVectorF32(v)) => r matches Ok(Some(s)) && s@ == v@,
                Some(other) => r matches Err(e)
                    && is_invalid_argument(e, mismatch_message(name@, DataType::DenseVectorF32, other)),
            },
    {
        match self.lookup(name) {
            None => Ok(None),
            Some(Value::Null) => Ok(None),
            Some(Value::DenseVectorF32(v)) => Ok(Some(v.as_slice())),
            Some(other) => Err(type_mismatch(name, DataType::DenseVectorF32, other)),
        }
    }

    /// Sets a dense half-precision vector field value.
    pub fn set_dense_vector_f16(&mut self, name: &str, values: Vec<F16>) -> (r: &mut Self)
        ensures
            r@ == old(self)@.insert(name@, Value::DenseVectorF16(values)),
            names_sorted(r.entries()),
            *final(self) == *final(r),
    {
        self.insert(name, Value::DenseVectorF16(values))
    }

    /// Returns a dense half-precision vector field value.
    ///
    /// Missing and explicitly null values both return `Ok(None)`; use [`Doc::contains_field`] and
    /// [`Doc::is_null`] to distinguish them.
    ///
    /// # Errors
    ///
    /// Returns [`Error::InvalidArgument`] when the stored non-null value has a different type
    /// than the getter expects.
    pub fn get_dense_vector_f16(&self, name: &str) -> (r: Result<Option<&[F16]>>)
        ensures
            match self@.get(name@) {
                None => r matches Ok(None),
                Some(Value::Null) => r matches Ok(None),
                Some(Value::DenseVectorF16(v)) => r matches Ok(Some(s)) && s@ == v@,
                Some(other) => r matches Err(e)
                    && is_invalid_argument(e, mismatch_message(name@, DataType::DenseVectorF16, other)),
            },
    {
        match self.lookup(name) {
            None => Ok(None),
            Some(Value::Null) => Ok(None),
            Some(Value::DenseVectorF16(v)) => Ok(Some(v.as_slice())),
            Some(other) => Err(type_mismatch(name, DataType::DenseVectorF16, other)),
        }
    }

    /// Sets a dense signed 8-bit integer vector field value.
    pub fn set_dense_vector_i8(&mut self, name: &str, values: Vec<i8>) -> (r: &mut Self)
        ensures
            r@ == old(self)@.insert(name@, Value::DenseVectorI8(values)),
            names_sorted(r.entries()),
            *final(self) == *final(r),
    {
        self.insert(name, Value::DenseVectorI8(values))
    }

    /// Returns a dense signed 8-bit integer vector field value.
    ///
    /// Missing and explicitly null values both return `Ok(None)`; use [`Doc::contains_field`] and
    /// [`Doc::is_null`] to distinguish them.
    ///
    /// # Errors
    ///
    /// Returns [`Error::InvalidArgument`] when the stored non-null value has a different type
    /// than the getter expects.
    pub fn get_dense_vector_i8(&self, name: &str) -> (r: Result<Option<&[i8]>>)
        ensures
            match self@.get(name@) {
                None => r matches Ok(None),
                Some(Value::Null) => r matches Ok(None),
                Some(Value::DenseVectorI8(v)) => r matches Ok(Some(s)) && s@ == v@,
                Some(other) => r matches Err(e)
                    && is_invalid_argument(e, mismatch_message(name@, DataType::DenseVectorI8, other)),
            },
    {
        match self.lookup(name) {
            None => Ok(None),
            Some(Value::Null) => Ok(None),
            Some(Value::DenseVectorI8(v)) => Ok(Some(v.as_slice())),
            Some(other) => Err(type_mismatch(name, DataType::DenseVectorI8, other)),
        }
    }

    /// Returns a UTF-8 string field value.
    ///
    /// Missing and explicitly null values both return `Ok(None)`; use [`Doc::contains_field`] and
    /// [`Doc::is_null`] to distinguish them.
    ///
    /// # Errors
    ///
    /// Returns [`Error::InvalidArgument`] when the stored non-null value has a different type
    /// than the getter expects.
    pub fn get_string(&self, name: &str) -> (r: Result<Option<&str>>)
        ensures
            match self@.get(name@) {
                None => r matches Ok(None),
                Some(Value::Null) => r matches Ok(None),
                Some(Value::String(v)) => r matches Ok(Some(s)) && s@ == v@,
                Some(other) => r matches Err(e)
                    && is_invalid_argument(e, mismatch_message(name@, DataType::String, other)),
            },
    {
        match self.lookup(name) {
            None => Ok(None),
            Some(Value::Null) => Ok(None),
            Some(Value::String(v)) => Ok(Some(v.as_str())),
            Some(other) => Err(type_mismatch(name, DataType::String, other)),
        }
    }

    /// Sets a sparse single-precision vector field value, given as IEEE 754 bit patterns.
    ///
    /// The retention and validation rules shared by both sparse-vector setters are documented on
    /// [`Doc`].
    pub fn set_sparse_vector_f32(&mut self, name: &str, indices: Vec<u32>, values: Vec<u32>) -> (r: &mut Self)
        ensures
            r@ == old(self)@.insert(name@, Value::SparseVectorF32 { indices, values }),
            names_sorted(r.entries()),
            *final(self) == *final(r),
    {
        self.insert(name, Value::SparseVectorF32 { indices, values })
    }

    /// Returns a sparse single-precision vector as `(indices, values)`.
    ///
    /// Missing and explicitly null values both return `Ok(None)`; use [`Doc::contains_field`] and
    /// [`Doc::is_null`] to distinguish them.
    ///
    /// # Errors
    ///
    /// Returns [`Error::InvalidArgument`] when the stored non-null value has a different type
    /// than the getter expects.
    pub fn get_sparse_vector_f32(&self, name: &str) -> (r: Result<Option<(&[u32], &[u32])>>)
        ensures
            match self@.get(name@) {
                None => r matches Ok(None),
                Some(Value::Null) => r matches Ok(None),
                Some(Value::SparseVectorF32 { indices, values }) => r matches Ok(Some(p)) && p.0@ == indices@ && p.1@ == values@,
                Some(other) => r matches Err(e)
                    && is_invalid_argument(e, mismatch_message(name@, DataType::SparseVectorF32, other)),
            },
    {
        match self.lookup(name) {
            None => Ok(None),
            Some(Value::Null) => Ok(None),
            Some(Value::SparseVectorF32 { indices, values }) => Ok(Some((indices.as_slice(), values.as_slice()))),
            Some(other) => Err(type_mismatch(name, DataType::SparseVectorF32, other)),
        }
    }

    /// Sets a sparse half-precision vector field value.
    ///
    /// The retention and validation rules shared by both sparse-vector setters are documented on
    /// [`Doc`].
    pub fn set_sparse_vector_f16(&mut self, name: &str, indices: Vec<u32>, values: Vec<F16>) -> (r: &mut Self)
        ensures
            r@ == old(self)@.insert(name@, Value::SparseVectorF16 { indices, values }),
            names_sorted(r.entries()),
            *final(self) == *final(r),
    {
        self.insert(name, Value::SparseVectorF16 { indices, values })
    }

    /// Returns a sparse half-precision vector as `(indices, values)`.
    ///
    /// Missing and explicitly null values both return `Ok(None)`; use [`Doc::contains_field`] and
    /// [`Doc::is_null`] to distinguish them.
    ///
    /// # Errors
    ///
    /// Returns [`Error::InvalidArgument`] when the stored non-null value has a different type
    /// than the getter expects.
    pub fn get_sparse_vector_f16(&self, name: &str) -> (r: Result<Option<(&[u32], &[F16])>>)
        ensures
            match self@.get(name@) {
                None => r matches Ok(None),
                Some(Value::Null) => r matches Ok(None),
                Some(Value::SparseVectorF16 { indices, values }) => r matches Ok(Some(p)) && p.0@ == indices@ && p.1@ == values@,
                Some(other) => r matches Err(e)
                    && is_invalid_argument(e, mismatch_message(name@, DataType::SparseVectorF16, other)),
            },
    {
        match self.lookup(name) {
            None => Ok(None),
            Some(Value::Null) => Ok(None),
            Some(Value::SparseVectorF16 { indices, values }) => Ok(Some((indices.as_slice(), values.as_slice()))),
            Some(other) => Err(type_mismatch(name, DataType::SparseVectorF16, other)),
        }
    }
}


/// The bit pattern of a finite single-precision value: its exponent field is not all ones.
pub open spec fn f32_bits_finite(bits: u32) -> bool {
    bits & 0x7f80_0000u32 != 0x7f80_0000u32
}

/// The bit pattern of a finite double-precision value: its exponent field is not all ones.
pub open spec fn f64_bits_finite(bits: u64) -> bool {
    bits & 0x7ff0_0000_0000_0000u64 != 0x7ff0_0000_0000_0000u64
}

/// Every single-precision bit pattern is finite.
pub open spec fn all_f32_finite(values: Seq<u32>) -> bool {
    forall|i: int| 0 <= i < values.len() ==> f32_bits_finite(#[trigger] values[i])
}

/// Every double-precision bit pattern is finite.
pub open spec fn all_f64_finite(values: Seq<u64>) -> bool {
    forall|i: int| 0 <= i < values.len() ==> f64_bits_finite(#[trigger] values[i])
}

/// Every half-precision value is finite.
pub open spec fn all_f16_finite(values: Seq<F16>) -> bool {
    forall|i: int| 0 <= i < values.len() ==> crate::binary16::f16_bits_finite((#[trigger] values[i]).bits())
}

/// The first of two possible problems.
pub open spec fn first_error(a: Option<Seq<char>>, b: Option<Seq<char>>) -> Option<Seq<char>> {
    if a is Some {
        a
    } else {
        b
    }
}

/// The problem of a field holding a non-finite floating-point value, if it does.
pub open spec fn finite_error(name: Seq<char>, finite: bool) -> Option<Seq<char>> {
    if finite {
        None
    } else {
        Some("field `"@ + name + "` contains a non-finite floating-point value"@)
    }
}

/// The problem of a dense vector whose length is not the field's dimension, if it is not.
pub open spec fn dense_error(name: Seq<char>, actual: nat, expected: nat) -> Option<Seq<char>> {
    if actual == expected {
        None
    } else {
        Some("dense vector field `"@ + name + "` has dimension "@ + spec_decimal(actual) + ", expected "@
            + spec_decimal(expected))
    }
}

/// The first shape problem of a sparse vector: index and value counts differ, too many entries,
/// indices not strictly increasing, or an index outside the dimension.
pub open spec fn sparse_error(
    name: Seq<char>,
    indices: Seq<u32>,
    values_len: nat,
    dimension: nat,
    max_entries: nat,
) -> Option<Seq<char>> {
    if indices.len() != values_len {
        Some("sparse vector field `"@ + name + "` has "@ + spec_decimal(indices.len()) + " indices but "@
            + spec_decimal(values_len) + " values"@)
    } else if indices.len() > max_entries {
        Some("sparse vector field `"@ + name + "` has "@ + spec_decimal(indices.len()) + " entries, exceeding limit "@
            + spec_decimal(max_entries))
    } else if !(forall|i: int| 0 <= i < indices.len() - 1 ==> #[trigger] indices[i] < indices[i + 1]) {
        Some("sparse vector field `"@ + name + "` indices must be strictly increasing and unique"@)
    } else if exists|i: int| 0 <= i < indices.len() && #[trigger] indices[i] >= dimension {
        Some("sparse vector field `"@ + name + "` contains an index outside dimension "@ + spec_decimal(dimension))
    } else {
        None
    }
}

/// Why a value is refused for a field, if it is: null in a non-nullable field, a type other than
/// the field's, a dense length other than the dimension, a sparse shape problem, or a
/// non-finite floating-point value.
pub open spec fn value_error(name: Seq<char>, value: Value, field: FieldModel, limits: Limits) -> Option<Seq<char>> {
    if value is Null {
        if field.nullable {
            None
        } else {
            Some("non-nullable field `"@ + name + "` cannot be null"@)
        }
    } else if value.spec_data_type() != Some(field.data_type) {
        Some(mismatch_message(name, field.data_type, value))
    } else {
        let d = field.dimension.unwrap() as nat;
        match value {
            Value::F32(b) => finite_error(name, f32_bits_finite(b)),
            Value::F64(b) => finite_error(name, f64_bits_finite(b)),
            Value::F32Array(v) => finite_error(name, all_f32_finite(v@)),
            Value::F64Array(v) => finite_error(name, all_f64_finite(v@)),
            Value::DenseVectorF32(v) => first_error(dense_error(name, v@.len(), d), finite_error(name, all_f32_finite(v@))),
            Value::DenseVectorF16(v) => first_error(dense_error(name, v@.len(), d), finite_error(name, all_f16_finite(v@))),
            Value::DenseVectorI8(v) => dense_error(name, v@.len(), d),
            Value::SparseVectorF32 { indices, values } => first_error(
                sparse_error(name, indices@, values@.len(), d, limits.max_sparse_vector_entries as nat),
                finite_error(name, all_f32_finite(values@)),
            ),
            Value::SparseVectorF16 { indices, values } => first_error(
                sparse_error(name, indices@, values@.len(), d, limits.max_sparse_vector_entries as nat),
                finite_error(name, all_f16_finite(values@)),
            ),
            _ => None,
        }
    }
}

/// The schema field with this name, if there is one.
pub open spec fn field_named(fields: Seq<FieldModel>, name: Seq<char>) -> Option<FieldModel> {
    if exists|i: int| 0 <= i < fields.len() && fields[i].name == name {
        Some(fields[choose|i: int| 0 <= i < fields.len() && fields[i].name == name])
    } else {
        None
    }
}

/// Why a document entry is refused by a schema, if it is: no field has its name, or its value
/// does not fit the field.
pub open spec fn entry_error(name: Seq<char>, value: Value, schema: SchemaModel) -> Option<Seq<char>> {
    match field_named(schema.fields, name) {
        None => Some("document contains unknown field `"@ + name + "`"@),
        Some(f) => value_error(name, value, f, schema.limits),
    }
}

/// The first refused entry among the first `n` entries, in entry order.
pub open spec fn entries_problem(entries: Entries, schema: SchemaModel, n: int) -> Option<Seq<char>>
    decreases n,
{
    if n <= 0 {
        None
    } else {
        first_error(entries_problem(entries, schema, n - 1), entry_error(entries[n - 1].0, entries[n - 1].1, schema))
    }
}

/// The first of the first `n` fields that is non-nullable yet missing or null in the document.
pub open spec fn missing_problem(doc: Map<Seq<char>, Value>, fields: Seq<FieldModel>, n: int) -> Option<Seq<char>>
    decreases n,
{
    if n <= 0 {
        None
    } else {
        let f = fields[n - 1];
        first_error(
            missing_problem(doc, fields, n - 1),
            if !f.nullable && (doc.get(f.name) is None || doc.get(f.name) == Some(Value::Null)) {
                Some("non-nullable field `"@ + f.name + "` is missing or null"@)
            } else {
                None
            },
        )
    }
}

/// Why a document is refused by a schema, if it is: it sets the implicit primary key; else the
/// first refused entry in name order; else the first non-nullable field, in schema order, that is
/// missing or null.
pub open spec fn doc_error(entries: Entries, schema: SchemaModel) -> Option<Seq<char>> {
    if entries_map(entries).contains_key("pk"@) {
        Some("`pk` is the implicit primary key and cannot be set on a document"@)
    } else {
        first_error(
            entries_problem(entries, schema, entries.len() as int),
            missing_problem(entries_map(entries), schema.fields, schema.fields.len() as int),
        )
    }
}

proof fn lemma_entries_problem_stable(entries: Entries, schema: SchemaModel, m: int, n: int)
    requires
        m <= n,
        entries_problem(entries, schema, m) is Some,
    ensures
        entries_problem(entries, schema, n) == entries_problem(entries, schema, m),
    decreases n - m,
{
    if m < n {
        lemma_entries_problem_stable(entries, schema, m, n - 1);
    }
}

proof fn lemma_missing_problem_stable(doc: Map<Seq<char>, Value>, fields: Seq<FieldModel>, m: int, n: int)
    requires
        m <= n,
        missing_problem(doc, fields, m) is Some,
    ensures
        missing_problem(doc, fields, n) == missing_problem(doc, fields, m),
    decreases n - m,
{
    if m < n {
        lemma_missing_problem_stable(doc, fields, m, n - 1);
    }
}

fn f32_finite(bits: u32) -> (r: bool)
    ensures
        r == f32_bits_finite(bits),
{
    bits & 0x7f80_0000u32 != 0x7f80_0000u32
}

fn f64_finite(bits: u64) -> (r: bool)
    ensures
        r == f64_bits_finite(bits),
{
    bits & 0x7ff0_0000_0000_0000u64 != 0x7ff0_0000_0000_0000u64
}

fn check_f32_finite(values: &[u32]) -> (r: bool)
    ensures
        r == all_f32_finite(values@),
{
    let mut i: usize = 0;
    while i < values.len()
        invariant
            0 <= i <= values@.len(),
            forall|j: int| 0 <= j < i ==> f32_bits_finite(#[trigger] values@[j]),
        decreases values@.len() - i,
    {
        if !f32_finite(values[i]) {
            return false;
        }
        i = i + 1;
    }
    true
}

fn check_f64_finite(values: &[u64]) -> (r: bool)
    ensures
        r == all_f64_finite(values@),
{
    let mut i: usize = 0;
    while i < values.len()
        invariant
            0 <= i <= values@.len(),
            forall|j: int| 0 <= j < i ==> f64_bits_finite(#[trigger] values@[j]),
        decreases values@.len() - i,
    {
        if !f64_finite(values[i]) {
            return false;
        }
        i = i + 1;
    }
    true
}

fn check_f16_finite(values: &[F16]) -> (r: bool)
    ensures
        r == all_f16_finite(values@),
{
    let mut i: usize = 0;
    while i < values.len()
        invariant
            0 <= i <= values@.len(),
            forall|j: int| 0 <= j < i ==> crate::binary16::f16_bits_finite((#[trigger] values@[j]).bits()),
        decreases values@.len() - i,
    {
        if !values[i].is_finite() {
            return false;
        }
        i = i + 1;
    }
    true
}

/// Reports a non-finite floating-point value.
fn ensure_finite(name: &str, finite: bool) -> (r: Result<()>)
    ensures
        match finite_error(name@, finite) {
            None => r is Ok,
            Some(m) => r matches Err(e) && is_invalid_argument(e, m),
        },
{
    if finite {
        Ok(())
    } else {
        Err(invalid(join3("field `", name, "` contains a non-finite floating-point value")))
    }
}

/// Reports a dense vector whose length is not the field's dimension.
fn validate_dense_dimension(name: &str, actual: usize, expected: usize) -> (r: Result<()>)
    ensures
        match dense_error(name@, actual as nat, expected as nat) {
            None => r is Ok,
            Some(m) => r matches Err(e) && is_invalid_argument(e, m),
        },
{
    if actual == expected {
        Ok(())
    } else {
        let mut s = join3("dense vector field `", name, "` has dimension ");
        append_decimal(&mut s, actual);
        s.append(", expected ");
        append_decimal(&mut s, expected);
        Err(invalid(s))
    }
}

fn strictly_increasing(indices: &[u32]) -> (r: bool)
    ensures
        r == (forall|i: int| 0 <= i < indices@.len() - 1 ==> #[trigger] indices@[i] < indices@[i + 1]),
{
    let mut i: usize = 1;
    while i < indices.len()
        invariant
            1 <= i,
            i <= indices@.len() || indices@.len() == 0,
            forall|j: int| 0 <= j < i - 1 && j < indices@.len() - 1 ==> #[trigger] indices@[j] < indices@[j + 1],
        decreases indices@.len() - i,
    {
        if indices[i - 1] >= indices[i] {
            assert(indices@[i - 1] >= indices@[(i - 1) + 1]);
            return false;
        }
        i = i + 1;
    }
    true
}

fn all_below(indices: &[u32], dimension: usize) -> (r: bool)
    ensures
        r == !(exists|i: int| 0 <= i < indices@.len() && #[trigger] indices@[i] >= dimension),
{
    let mut k: usize = 0;
    while k < indices.len()
        invariant
            0 <= k <= indices@.len(),
            forall|j: int| 0 <= j < k ==> #[trigger] indices@[j] < dimension,
        decreases indices@.len() - k,
    {
        if indices[k] as u64 >= dimension as u64 {
            assert(indices@[k as int] >= dimension);
            return false;
        }
        k = k + 1;
    }
    true
}

/// Reports the first shape problem of a sparse vector.
fn validate_sparse_shape(
    name: &str,
    indices: &[u32],
    values_len: usize,
    dimension: usize,
    max_entries: usize,
) -> (r: Result<()>)
    ensures
        match sparse_error(name@, indices@, values_len as nat, dimension as nat, max_entries as nat) {
            None => r is Ok,
            Some(m) => r matches Err(e) && is_invalid_argument(e, m),
        },
{
    if indices.len() != values_len {
        let mut s = join3("sparse vector field `", name, "` has ");
        append_decimal(&mut s, indices.len());
        s.append(" indices but ");
        append_decimal(&mut s, values_len);
        s.append(" values");
        return Err(invalid(s));
    }
    if indices.len() > max_entries {
        let mut s = join3("sparse vector field `", name, "` has ");
        append_decimal(&mut s, indices.len());
        s.append(" entries, exceeding limit ");
        append_decimal(&mut s, max_entries);
        return Err(invalid(s));
    }
    if !strictly_increasing(indices) {
        return Err(invalid(join3("sparse vector field `", name, "` indices must be strictly increasing and unique")));
    }
    if !all_below(indices, dimension) {
        let mut s = join3("sparse vector field `", name, "` contains an index outside dimension ");
        append_decimal(&mut s, dimension);
        return Err(invalid(s));
    }
    Ok(())
}

/// The dimension of a vector field.
fn vector_dimension(field: &FieldSchema) -> (r: Result<usize>)
    ensures
        match field@.dimension {
            Some(d) => r == Ok::<usize, Error>(d),
            None => r matches Err(e) && crate::error::is_internal(
                e,
                "validated vector field `"@ + field@.name + "` has no dimension"@,
            ),
        },
{
    match field.dimension() {
        Some(d) => Ok(d),
        None => Err(Error::Internal { message: join3("validated vector field `", field.name(), "` has no dimension") }),
    }
}

fn same_data_type(a: Option<DataType>, b: DataType) -> (r: bool)
    ensures
        r == (a == Some(b)),
{
    match a {
        Some(t) => t == b,
        None => false,
    }
}

/// Checks one document value against its schema field.
fn validate_value(name: &str, value: &Value, field: &FieldSchema, schema: &Schema) -> (r: Result<()>)
    ensures
        match value_error(name@, *value, field@, schema@.limits) {
            None => r is Ok,
            Some(m) => r matches Err(e) && is_invalid_argument(e, m),
        },
{
    let _ = field.dimension();
    if let Value::Null = value {
        if field.is_nullable() {
            return Ok(());
        } else {
            return Err(invalid(join3("non-nullable field `", name, "` cannot be null")));
        }
    }
    if !same_data_type(value.data_type(), field.data_type()) {
        return Err(type_mismatch(name, field.data_type(), value));
    }
    let max_entries = schema.limits().max_sparse_vector_entries;
    match value {
        Value::F32(b) => ensure_finite(name, f32_finite(*b)),
        Value::F64(b) => ensure_finite(name, f64_finite(*b)),
        Value::F32Array(v) => ensure_finite(name, check_f32_finite(v.as_slice())),
        Value::F64Array(v) => ensure_finite(name, check_f64_finite(v.as_slice())),
        Value::DenseVectorF32(v) => {
            let d = vector_dimension(field)?;
            validate_dense_dimension(name, v.len(), d)?;
            ensure_finite(name, check_f32_finite(v.as_slice()))
        },
        Value::DenseVectorF16(v) => {
            let d = vector_dimension(field)?;
            validate_dense_dimension(name, v.len(), d)?;
            ensure_finite(name, check_f16_finite(v.as_slice()))
        },
        Value::DenseVectorI8(v) => {
            let d = vector_dimension(field)?;
            validate_dense_dimension(name, v.len(), d)
        },
        Value::SparseVectorF32 { indices, values } => {
            let d = vector_dimension(field)?;
            validate_sparse_shape(name, indices.as_slice(), values.len(), d, max_entries)?;
            ensure_finite(name, check_f32_finite(values.as_slice()))
        },
        Value::SparseVectorF16 { indices, values } => {
            let d = vector_dimension(field)?;
            validate_sparse_shape(name, indices.as_slice(), values.len(), d, max_entries)?;
            ensure_finite(name, check_f16_finite(values.as_slice()))
        },
        _ => Ok(()),
    }
}

impl Doc {
    /// Validates every document value against `schema` without mutating the document.
    ///
    /// Validation checks `F32` and `F64` scalars, every element of `F32` and `F64` arrays, and
    /// all floating-point vector components for finiteness.
    ///
    /// # Errors
    ///
    /// Returns [`Error::InvalidArgument`] if the document contains an unknown field; omits or
    /// stores null in a non-nullable field; stores a value with the wrong logical type or vector
    /// shape; contains a value that exceeds a configured limit; or contains a non-finite
    /// floating-point value.
    pub fn validate(&self, schema: &Schema) -> (r: Result<()>)
        ensures
            match doc_error(self.entries(), schema@) {
                None => r is Ok,
                Some(m) => r matches Err(e) && is_invalid_argument(e, m),
            },
    {
        proof {
            use_type_invariant(self);
        }
        let ghost entries = self.entries();
        let ghost sm = schema@;
        if self.lookup("pk").is_some() {
            return Err(Error::invalid_argument("`pk` is the implicit primary key and cannot be set on a document"));
        }
        let fields = schema.fields();
        proof {
            lemma_valid_schema(sm.fields, sm.limits);
        }
        let n = self.entries.len();
        let mut i: usize = 0;
        while i < n
            invariant
                n == self.entries@.len(),
                entries == self.entries(),
                sm == schema@,
                !entries_map(entries).contains_key("pk"@),
                0 <= i <= n,
                entries_problem(entries, sm, i as int) is None,
                forall|j: int, k: int| 0 <= j < k < sm.fields.len() ==> sm.fields[j].name != sm.fields[k].name,
                forall|k: int| 0 <= k < sm.fields.len() ==> (#[trigger] sm.fields[k]).error(sm.limits) is None,
            decreases n - i,
        {
            let entry = &self.entries[i];
            assert(entries[i as int] == (entry.name@, entry.value));
            match schema.field(entry.name.as_str()) {
                None => {
                    assert(field_named(sm.fields, entry.name@) is None);
                    let e = invalid(join3("document contains unknown field `", entry.name.as_str(), "`"));
                    proof {
                        lemma_entries_problem_stable(entries, sm, i + 1, n as int);
                    }
                    return Err(e);
                },
                Some(field) => {
                    proof {
                        let c = choose|c: int| 0 <= c < sm.fields.len() && sm.fields[c].name == entry.name@;
                        assert(sm.fields[c] == field@);
                        assert(field_named(sm.fields, entry.name@) == Some(field@));
                    }
                    match validate_value(entry.name.as_str(), &entry.value, field, schema) {
                        Err(e) => {
                            proof {
                                lemma_entries_problem_stable(entries, sm, i + 1, n as int);
                            }
                            return Err(e);
                        },
                        Ok(()) => {},
                    }
                },
            }
            i = i + 1;
        }
        let ghost doc = self@;
        let m = fields.len();
        let mut k: usize = 0;
        while k < m
            invariant
                m == fields@.len(),
                crate::schema::field_models(fields@) == sm.fields,
                sm == schema@,
                doc == self@,
                entries == self.entries(),
                doc == entries_map(entries),
                !entries_map(entries).contains_key("pk"@),
                entries_problem(entries, sm, entries.len() as int) is None,
                0 <= k <= m,
                missing_problem(doc, sm.fields, k as int) is None,
            decreases m - k,
        {
            let field = &fields[k];
            assert(sm.fields[k as int] == field@);
            if !field.is_nullable() {
                let missing = match self.lookup(field.name()) {
                    None => true,
                    Some(Value::Null) => true,
                    Some(_) => false,
                };
                if missing {
                    let e = invalid(join3("non-nullable field `", field.name(), "` is missing or null"));
                    proof {
                        lemma_missing_problem_stable(doc, sm.fields, k + 1, m as int);
                    }
                    return Err(e);
                }
            }
            k = k + 1;
        }
        Ok(())
    }
}

impl Schema {
    /// Validates a document against this schema.
    ///
    /// # Errors
    ///
    /// Returns [`Error::InvalidArgument`] if the document contains an unknown field; omits or
    /// stores null in a non-nullable field; stores a value with the wrong logical type or vector
    /// shape; contains a value that exceeds a configured limit; or contains a non-finite
    /// floating-point value.
    pub fn validate_doc(&self, doc: &Doc) -> (r: Result<()>)
        ensures
            match doc_error(doc.entries(), self@) {
                None => r is Ok,
                Some(m) => r matches Err(e) && is_invalid_argument(e, m),
            },
    {
        doc.validate(self)
    }
}


/// IEEE 754 equality of two single-precision bit patterns: NaN equals nothing and `-0.0 == 0.0`.
pub open spec fn f32_bits_equal(a: u32, b: u32) -> bool {
    &&& a & 0x7fff_ffffu32 <= 0x7f80_0000u32
    &&& b & 0x7fff_ffffu32 <= 0x7f80_0000u32
    &&& (a == b || (a | b) & 0x7fff_ffffu32 == 0)
}

/// IEEE 754 equality of two double-precision bit patterns: NaN equals nothing and `-0.0 == 0.0`.
pub open spec fn f64_bits_equal(a: u64, b: u64) -> bool {
    &&& a & 0x7fff_ffff_ffff_ffffu64 <= 0x7ff0_0000_0000_0000u64
    &&& b & 0x7fff_ffff_ffff_ffffu64 <= 0x7ff0_0000_0000_0000u64
    &&& (a == b || (a | b) & 0x7fff_ffff_ffff_ffffu64 == 0)
}

/// Element-wise IEEE 754 equality of single-precision sequences.
pub open spec fn f32_seq_equal(a: Seq<u32>, b: Seq<u32>) -> bool {
    a.len() == b.len() && forall|i: int| 0 <= i < a.len() ==> f32_bits_equal(#[trigger] a[i], b[i])
}

/// Element-wise IEEE 754 equality of double-precision sequences.
pub open spec fn f64_seq_equal(a: Seq<u64>, b: Seq<u64>) -> bool {
    a.len() == b.len() && forall|i: int| 0 <= i < a.len() ==> f64_bits_equal(#[trigger] a[i], b[i])
}

/// Element-wise IEEE 754 equality of half-precision sequences.
pub open spec fn f16_seq_equal(a: Seq<F16>, b: Seq<F16>) -> bool {
    a.len() == b.len() && forall|i: int| 0 <= i < a.len()
        ==> crate::binary16::f16_bits_equal((#[trigger] a[i]).bits(), b[i].bits())
}

/// Equality of stored values, as the derived equality of the value type computes it: the same
/// variant, and equal contents, with IEEE 754 equality for floating-point components.
pub open spec fn value_equal(a: Value, b: Value) -> bool {
    match (a, b) {
            (Value::Null, Value::Null) => true,
            (Value::Bool(x), Value::Bool(y)) => x == y,
            (Value::I32(x), Value::I32(y)) => x == y,
            (Value::I64(x), Value::I64(y)) => x == y,
            (Value::U32(x), Value::U32(y)) => x == y,
            (Value::U64(x), Value::U64(y)) => x == y,
            (Value::F32(x), Value::F32(y)) => f32_bits_equal(x, y),
            (Value::F64(x), Value::F64(y)) => f64_bits_equal(x, y),
            (Value::String(x), Value::String(y)) => x@ == y@,
            (Value::Binary(x), Value::Binary(y)) => x@ == y@,
            (Value::BoolArray(x), Value::BoolArray(y)) => x@ == y@,
            (Value::I32Array(x), Value::I32Array(y)) => x@ == y@,
            (Value::I64Array(x), Value::I64Array(y)) => x@ == y@,
            (Value::U32Array(x), Value::U32Array(y)) => x@ == y@,
            (Value::U64Array(x), Value::U64Array(y)) => x@ == y@,
            (Value::DenseVectorI8(x), Value::DenseVectorI8(y)) => x@ == y@,
            (Value::F32Array(x), Value::F32Array(y)) => f32_seq_equal(x@, y@),
            (Value::F64Array(x), Value::F64Array(y)) => f64_seq_equal(x@, y@),
            (Value::StringArray(x), Value::StringArray(y)) => x@.len() == y@.len()
                && forall|i: int| 0 <= i < x@.len() ==> (#[trigger] x@[i])@ == y@[i]@,
            (Value::BinaryArray(x), Value::BinaryArray(y)) => x@.len() == y@.len()
                && forall|i: int| 0 <= i < x@.len() ==> (#[trigger] x@[i])@ == y@[i]@,
            (Value::DenseVectorF32(x), Value::DenseVectorF32(y)) => f32_seq_equal(x@, y@),
            (Value::DenseVectorF16(x), Value::DenseVectorF16(y)) => f16_seq_equal(x@, y@),
            (Value::SparseVectorF32 { indices: i1, values: v1 }, Value::SparseVectorF32 { indices: i2, values: v2 }) =>
                i1@ == i2@ && f32_seq_equal(v1@, v2@),
            (Value::SparseVectorF16 { indices: i1, values: v1 }, Value::SparseVectorF16 { indices: i2, values: v2 }) =>
                i1@ == i2@ && f16_seq_equal(v1@, v2@),
            _ => false,
    }
}

fn f32_equal(a: u32, b: u32) -> (r: bool)
    ensures
        r == f32_bits_equal(a, b),
{
    a & 0x7fff_ffffu32 <= 0x7f80_0000u32 && b & 0x7fff_ffffu32 <= 0x7f80_0000u32 && (a == b || (a | b)
        & 0x7fff_ffffu32 == 0)
}

fn f64_equal(a: u64, b: u64) -> (r: bool)
    ensures
        r == f64_bits_equal(a, b),
{
    a & 0x7fff_ffff_ffff_ffffu64 <= 0x7ff0_0000_0000_0000u64 && b & 0x7fff_ffff_ffff_ffffu64
        <= 0x7ff0_0000_0000_0000u64 && (a == b || (a | b) & 0x7fff_ffff_ffff_ffffu64 == 0)
}

fn same_u8s(a: &[u8], b: &[u8]) -> (r: bool)
    ensures
        r == (a@ == b@),
{
    if a.len() != b.len() {
        return false;
    }
    let mut i: usize = 0;
    while i < a.len()
        invariant
            a@.len() == b@.len(),
            0 <= i <= a@.len(),
            forall|j: int| 0 <= j < i ==> a@[j] == b@[j],
        decreases a@.len() - i,
    {
        if a[i] != b[i] {
            return false;
        }
        i = i + 1;
    }
    assert(a@ =~= b@);
    true
}

fn same_bools(a: &[bool], b: &[bool]) -> (r: bool)
    ensures
        r == (a@ == b@),
{
    if a.len() != b.len() {
        return false;
    }
    let mut i: usize = 0;
    while i < a.len()
        invariant
            a@.len() == b@.len(),
            0 <= i <= a@.len(),
            forall|j: int| 0 <= j < i ==> a@[j] == b@[j],
        decreases a@.len() - i,
    {
        if a[i] != b[i] {
            return false;
        }
        i = i + 1;
    }
    assert(a@ =~= b@);
    true
}

fn same_i32s(a: &[i32], b: &[i32]) -> (r: bool)
    ensures
        r == (a@ == b@),
{
    if a.len() != b.len() {
        return false;
    }
    let mut i: usize = 0;
    while i < a.len()
        invariant
            a@.len() == b@.len(),
            0 <= i <= a@.len(),
            forall|j: int| 0 <= j < i ==> a@[j] == b@[j],
        decreases a@.len() - i,
    {
        if a[i] != b[i] {
            return false;
        }
        i = i + 1;
    }
    assert(a@ =~= b@);
    true
}

fn same_i64s(a: &[i64], b: &[i64]) -> (r: bool)
    ensures
        r == (a@ == b@),
{
    if a.len() != b.len() {
        return false;
    }
    let mut i: usize = 0;
    while i < a.len()
        invariant
            a@.len() == b@.len(),
            0 <= i <= a@.len(),
            forall|j: int| 0 <= j < i ==> a@[j] == b@[j],
        decreases a@.len() - i,
    {
        if a[i] != b[i] {
            return false;
        }
        i = i + 1;
    }
    assert(a@ =~= b@);
    true
}

fn same_u32s(a: &[u32], b: &[u32]) -> (r: bool)
    ensures
        r == (a@ == b@),
{
    if a.len() != b.len() {
        return false;
    }
    let mut i: usize = 0;
    while i < a.len()
        invariant
            a@.len() == b@.len(),
            0 <= i <= a@.len(),
            forall|j: int| 0 <= j < i ==> a@[j] == b@[j],
        decreases a@.len() - i,
    {
        if a[i] != b[i] {
            return false;
        }
        i = i + 1;
    }
    assert(a@ =~= b@);
    true
}

fn same_u64s(a: &[u64], b: &[u64]) -> (r: bool)
    ensures
        r == (a@ == b@),
{
    if a.len() != b.len() {
        return false;
    }
    let mut i: usize = 0;
    while i < a.len()
        invariant
            a@.len() == b@.len(),
            0 <= i <= a@.len(),
            forall|j: int| 0 <= j < i ==> a@[j] == b@[j],
        decreases a@.len() - i,
    {
        if a[i] != b[i] {
            return false;
        }
        i = i + 1;
    }
    assert(a@ =~= b@);
    true
}

fn same_i8s(a: &[i8], b: &[i8]) -> (r: bool)
    ensures
        r == (a@ == b@),
{
    if a.len() != b.len() {
        return false;
    }
    let mut i: usize = 0;
    while i < a.len()
        invariant
            a@.len() == b@.len(),
            0 <= i <= a@.len(),
            forall|j: int| 0 <= j < i ==> a@[j] == b@[j],
        decreases a@.len() - i,
    {
        if a[i] != b[i] {
            return false;
        }
        i = i + 1;
    }
    assert(a@ =~= b@);
    true
}

fn f32_slices_equal(a: &[u32], b: &[u32]) -> (r: bool)
    ensures
        r == f32_seq_equal(a@, b@),
{
    if a.len() != b.len() {
        return false;
    }
    let mut i: usize = 0;
    while i < a.len()
        invariant
            a@.len() == b@.len(),
            0 <= i <= a@.len(),
            forall|j: int| 0 <= j < i ==> f32_bits_equal(#[trigger] a@[j], b@[j]),
        decreases a@.len() - i,
    {
        if !f32_equal(a[i], b[i]) {
            return false;
        }
        i = i + 1;
    }
    true
}

fn f64_slices_equal(a: &[u64], b: &[u64]) -> (r: bool)
    ensures
        r == f64_seq_equal(a@, b@),
{
    if a.len() != b.len() {
        return false;
    }
    let mut i: usize = 0;
    while i < a.len()
        invariant
            a@.len() == b@.len(),
            0 <= i <= a@.len(),
            forall|j: int| 0 <= j < i ==> f64_bits_equal(#[trigger] a@[j], b@[j]),
        decreases a@.len() - i,
    {
        if !f64_equal(a[i], b[i]) {
            return false;
        }
        i = i + 1;
    }
    true
}

fn half_slices_equal(a: &[F16], b: &[F16]) -> (r: bool)
    ensures
        r == f16_seq_equal(a@, b@),
{
    if a.len() != b.len() {
        return false;
    }
    let mut i: usize = 0;
    while i < a.len()
        invariant
            a@.len() == b@.len(),
            0 <= i <= a@.len(),
            forall|j: int| 0 <= j < i ==> crate::binary16::f16_bits_equal((#[trigger] a@[j]).bits(), b@[j].bits()),
        decreases a@.len() - i,
    {
        if !(a[i] == b[i]) {
            return false;
        }
        i = i + 1;
    }
    true
}

fn strings_equal(a: &[String], b: &[String]) -> (r: bool)
    ensures
        r == (a@.len() == b@.len() && forall|i: int| 0 <= i < a@.len() ==> (#[trigger] a@[i])@ == b@[i]@),
{
    if a.len() != b.len() {
        return false;
    }
    let mut i: usize = 0;
    while i < a.len()
        invariant
            a@.len() == b@.len(),
            0 <= i <= a@.len(),
            forall|j: int| 0 <= j < i ==> (#[trigger] a@[j])@ == b@[j]@,
        decreases a@.len() - i,
    {
        if !same_text(a[i].as_str(), b[i].as_str()) {
            return false;
        }
        i = i + 1;
    }
    true
}

fn byte_strings_equal(a: &[Vec<u8>], b: &[Vec<u8>]) -> (r: bool)
    ensures
        r == (a@.len() == b@.len() && forall|i: int| 0 <= i < a@.len() ==> (#[trigger] a@[i])@ == b@[i]@),
{
    if a.len() != b.len() {
        return false;
    }
    let mut i: usize = 0;
    while i < a.len()
        invariant
            a@.len() == b@.len(),
            0 <= i <= a@.len(),
            forall|j: int| 0 <= j < i ==> (#[trigger] a@[j])@ == b@[j]@,
        decreases a@.len() - i,
    {
        if !same_u8s(a[i].as_slice(), b[i].as_slice()) {
            return false;
        }
        i = i + 1;
    }
    true
}

impl PartialEq for Value {
    fn eq(&self, other: &Self) -> (r: bool) {
        match (self, other) {
            (Value::Null, Value::Null) => true,
            (Value::Bool(x), Value::Bool(y)) => *x == *y,
            (Value::I32(x), Value::I32(y)) => *x == *y,
            (Value::I64(x), Value::I64(y)) => *x == *y,
            (Value::U32(x), Value::U32(y)) => *x == *y,
            (Value::U64(x), Value::U64(y)) => *x == *y,
            (Value::F32(x), Value::F32(y)) => f32_equal(*x, *y),
            (Value::F64(x), Value::F64(y)) => f64_equal(*x, *y),
            (Value::String(x), Value::String(y)) => same_text(x.as_str(), y.as_str()),
            (Value::Binary(x), Value::Binary(y)) => same_u8s(x.as_slice(), y.as_slice()),
            (Value::BoolArray(x), Value::BoolArray(y)) => same_bools(x.as_slice(), y.as_slice()),
            (Value::I32Array(x), Value::I32Array(y)) => same_i32s(x.as_slice(), y.as_slice()),
            (Value::I64Array(x), Value::I64Array(y)) => same_i64s(x.as_slice(), y.as_slice()),
            (Value::U32Array(x), Value::U32Array(y)) => same_u32s(x.as_slice(), y.as_slice()),
            (Value::U64Array(x), Value::U64Array(y)) => same_u64s(x.as_slice(), y.as_slice()),
            (Value::DenseVectorI8(x), Value::DenseVectorI8(y)) => same_i8s(x.as_slice(), y.as_slice()),
            (Value::F32Array(x), Value::F32Array(y)) => f32_slices_equal(x.as_slice(), y.as_slice()),
            (Value::F64Array(x), Value::F64Array(y)) => f64_slices_equal(x.as_slice(), y.as_slice()),
            (Value::StringArray(x), Value::StringArray(y)) => strings_equal(x.as_slice(), y.as_slice()),
            (Value::BinaryArray(x), Value::BinaryArray(y)) => byte_strings_equal(x.as_slice(), y.as_slice()),
            (Value::DenseVectorF32(x), Value::DenseVectorF32(y)) => f32_slices_equal(x.as_slice(), y.as_slice()),
            (Value::DenseVectorF16(x), Value::DenseVectorF16(y)) => half_slices_equal(x.as_slice(), y.as_slice()),
            (Value::SparseVectorF32 { indices: i1, values: v1 }, Value::SparseVectorF32 { indices: i2, values: v2 }) =>
                same_u32s(i1.as_slice(), i2.as_slice()) && f32_slices_equal(v1.as_slice(), v2.as_slice()),
            (Value::SparseVectorF16 { indices: i1, values: v1 }, Value::SparseVectorF16 { indices: i2, values: v2 }) =>
                same_u32s(i1.as_slice(), i2.as_slice()) && half_slices_equal(v1.as_slice(), v2.as_slice()),
            _ => false,
        }
    }
}

impl PartialEqSpecImpl for Value {
    open spec fn obeys_eq_spec() -> bool {
        true
    }

    open spec fn eq_spec(&self, other: &Self) -> bool {
        value_equal(*self, *other)
    }
}

/// Equality of documents: the same names in the same order, with equal values.
pub open spec fn entries_equal(a: Entries, b: Entries) -> bool {
    a.len() == b.len() && forall|i: int| 0 <= i < a.len() ==> (#[trigger] a[i]).0 == b[i].0 && value_equal(a[i].1, b[i].1)
}

impl PartialEq for Doc {
    fn eq(&self, other: &Self) -> (r: bool) {
        if self.entries.len() != other.entries.len() {
            return false;
        }
        let mut i: usize = 0;
        while i < self.entries.len()
            invariant
                self.entries@.len() == other.entries@.len(),
                0 <= i <= self.entries@.len(),
                forall|j: int| 0 <= j < i ==> (#[trigger] self.entries()[j]).0 == other.entries()[j].0
                    && value_equal(self.entries()[j].1, other.entries()[j].1),
            decreases self.entries@.len() - i,
        {
            let a = &self.entries[i];
            let b = &other.entries[i];
            assert(self.entries()[i as int] == (a.name@, a.value));
            assert(other.entries()[i as int] == (b.name@, b.value));
            if !same_text(a.name.as_str(), b.name.as_str()) || !a.value.eq(&b.value) {
                return false;
            }
            i = i + 1;
        }
        true
    }
}

impl PartialEqSpecImpl for Doc {
    open spec fn obeys_eq_spec() -> bool {
        true
    }

    open spec fn eq_spec(&self, other: &Self) -> bool {
        entries_equal(self.entries(), other.entries())
    }
}

/// What a write records is what a read finds: after storing `value` under `name`, the document
/// holds `value` there and every other name keeps its value.
pub proof fn lemma_write_then_read(doc: Doc, name: Seq<char>, value: Value)
    ensures
        doc@.insert(name, value).get(name) == Some(value),
        forall|other: Seq<char>| other != name ==> doc@.insert(name, value).get(other) == #[trigger] doc@.get(other),
{
}

proof fn lemma_entries_problem_none(entries: Entries, schema: SchemaModel, n: int)
    requires
        0 <= n <= entries.len(),
    ensures
        entries_problem(entries, schema, n) is None
            <==> forall|i: int| 0 <= i < n ==> entry_error(entries[i].0, entries[i].1, schema) is None,
    decreases n,
{
    if n > 0 {
        lemma_entries_problem_none(entries, schema, n - 1);
    }
}

proof fn lemma_missing_problem_none(doc: Map<Seq<char>, Value>, fields: Seq<FieldModel>, n: int)
    requires
        0 <= n <= fields.len(),
    ensures
        missing_problem(doc, fields, n) is None <==> forall|k: int| 0 <= k < n ==> (#[trigger] fields[k]).nullable
            || (doc.get(fields[k].name) is Some && doc.get(fields[k].name) != Some(Value::Null)),
    decreases n,
{
    if n > 0 {
        lemma_missing_problem_none(doc, fields, n - 1);
    }
}

/// A document is accepted by a schema exactly when it does not set `pk`, every stored name is a
/// field of the schema whose rules its value meets, and every non-nullable field holds a
/// non-null value.
pub proof fn lemma_accepted_doc(entries: Entries, schema: SchemaModel)
    ensures
        doc_error(entries, schema) is None <==> {
            &&& !entries_map(entries).contains_key("pk"@)
            &&& forall|i: int| 0 <= i < entries.len() ==> (#[trigger] field_named(schema.fields, entries[i].0)) is Some
                && value_error(entries[i].0, entries[i].1, field_named(schema.fields, entries[i].0)->0, schema.limits) is None
            &&& forall|k: int| 0 <= k < schema.fields.len() ==> (#[trigger] schema.fields[k]).nullable
                || (entries_map(entries).get(schema.fields[k].name) is Some
                    && entries_map(entries).get(schema.fields[k].name) != Some(Value::Null))
        },
{
    lemma_entries_problem_none(entries, schema, entries.len() as int);
    lemma_missing_problem_none(entries_map(entries), schema.fields, schema.fields.len() as int);
    assert(forall|i: int| 0 <= i < entries.len() ==> (entry_error(entries[i].0, entries[i].1, schema) is None <==> (
        (#[trigger] field_named(schema.fields, entries[i].0)) is Some
            && value_error(entries[i].0, entries[i].1, field_named(schema.fields, entries[i].0)->0, schema.limits) is None)));
}

/// Sparse entries are counted as stored: entries whose values are `0.0` or `-0.0` are neither
/// dropped nor refused, so a sparse vector of zeros is judged by its shape alone, and every entry
/// counts toward the entry limit. Empty index and value sequences have no shape problem.
pub proof fn lemma_sparse_zero_entries_count(
    name: Seq<char>,
    indices: Vec<u32>,
    values: Vec<u32>,
    field: FieldModel,
    limits: Limits,
)
    requires
        field.data_type == DataType::SparseVectorF32,
        forall|i: int| 0 <= i < values@.len() ==> #[trigger] values@[i] == 0 || values@[i] == 0x8000_0000u32,
    ensures
        value_error(name, Value::SparseVectorF32 { indices, values }, field, limits) == sparse_error(
            name,
            indices@,
            values@.len(),
            field.dimension.unwrap() as nat,
            limits.max_sparse_vector_entries as nat,
        ),
        indices@.len() == values@.len() && indices@.len() > limits.max_sparse_vector_entries
            ==> value_error(name, Value::SparseVectorF32 { indices, values }, field, limits) is Some,
        indices@.len() == 0 && values@.len() == 0 ==> sparse_error(
            name,
            indices@,
            values@.len(),
            field.dimension.unwrap() as nat,
            limits.max_sparse_vector_entries as nat,
        ) is None,
{
    assert forall|i: int| 0 <= i < values@.len() implies f32_bits_finite(#[trigger] values@[i]) by {
        let v = values@[i];
        assert(v == 0 || v == 0x8000_0000u32);
        assert(v == 0 || v == 0x8000_0000u32 ==> v & 0x7f80_0000u32 != 0x7f80_0000u32) by (bit_vector);
    }
}

/// A double-precision value is finite exactly when its 11-bit exponent field is not all ones,
/// whatever its sign: negating a value never changes whether it is finite, and both infinities
/// and every NaN are refused.
pub proof fn lemma_f64_finite_by_exponent(bits: u64)
    ensures
        f64_bits_finite(bits) <==> (bits >> 52u64) & 0x7ffu64 != 0x7ffu64,
        f64_bits_finite(bits) == f64_bits_finite(bits ^ 0x8000_0000_0000_0000u64),
        (bits >> 52u64) & 0x7ffu64 == 0x7ffu64 ==> !f64_bits_finite(bits),
{
    assert((bits & 0x7ff0_0000_0000_0000u64 != 0x7ff0_0000_0000_0000u64) <==> ((bits >> 52u64) & 0x7ffu64
        != 0x7ffu64)) by (bit_vector);
    assert((bits & 0x7ff0_0000_0000_0000u64) == ((bits ^ 0x8000_0000_0000_0000u64) & 0x7ff0_0000_0000_0000u64))
        by (bit_vector);
}

/// A single-precision value is finite exactly when its 8-bit exponent field is not all ones,
/// whatever its sign.
pub proof fn lemma_f32_finite_by_exponent(bits: u32)
    ensures
        f32_bits_finite(bits) <==> (bits >> 23u32) & 0xffu32 != 0xffu32,
        f32_bits_finite(bits) == f32_bits_finite(bits ^ 0x8000_0000u32),
        (bits >> 23u32) & 0xffu32 == 0xffu32 ==> !f32_bits_finite(bits),
{
    assert((bits & 0x7f80_0000u32 != 0x7f80_0000u32) <==> ((bits >> 23u32) & 0xffu32 != 0xffu32)) by (bit_vector);
    assert((bits & 0x7f80_0000u32) == ((bits ^ 0x8000_0000u32) & 0x7f80_0000u32)) by (bit_vector);
}

/// IEEE 754 equality of double-precision values: a NaN (all-ones exponent, non-zero fraction)
/// equals nothing, not even itself; other values are equal exactly when their bit patterns are,
/// except that positive and negative zero are equal.
pub proof fn lemma_f64_equality(a: u64, b: u64)
    ensures
        f64_bits_equal(a, b) <==> {
            &&& !((a >> 52u64) & 0x7ffu64 == 0x7ffu64 && a & 0x000f_ffff_ffff_ffffu64 != 0)
            &&& !((b >> 52u64) & 0x7ffu64 == 0x7ffu64 && b & 0x000f_ffff_ffff_ffffu64 != 0)
            &&& (a == b || (a << 1u64 == 0 && b << 1u64 == 0))
        },
{
    assert((a & 0x7fff_ffff_ffff_ffffu64 <= 0x7ff0_0000_0000_0000u64) <==> !((a >> 52u64) & 0x7ffu64 == 0x7ffu64
        && a & 0x000f_ffff_ffff_ffffu64 != 0)) by (bit_vector);
    assert((b & 0x7fff_ffff_ffff_ffffu64 <= 0x7ff0_0000_0000_0000u64) <==> !((b >> 52u64) & 0x7ffu64 == 0x7ffu64
        && b & 0x000f_ffff_ffff_ffffu64 != 0)) by (bit_vector);
    assert(((a | b) & 0x7fff_ffff_ffff_ffffu64 == 0) <==> (a << 1u64 == 0 && b << 1u64 == 0)) by (bit_vector);
}

/// IEEE 754 equality of single-precision values: a NaN equals nothing, and other values are
/// equal exactly when their bit patterns are, except that the two zeros are equal.
pub proof fn lemma_f32_equality(a: u32, b: u32)
    ensures
        f32_bits_equal(a, b) <==> {
            &&& !((a >> 23u32) & 0xffu32 == 0xffu32 && a & 0x007f_ffffu32 != 0)
            &&& !((b >> 23u32) & 0xffu32 == 0xffu32 && b & 0x007f_ffffu32 != 0)
            &&& (a == b || (a << 1u32 == 0 && b << 1u32 == 0))
        },
{
    assert((a & 0x7fff_ffffu32 <= 0x7f80_0000u32) <==> !((a >> 23u32) & 0xffu32 == 0xffu32 && a & 0x007f_ffffu32
        != 0)) by (bit_vector);
    assert((b & 0x7fff_ffffu32 <= 0x7f80_0000u32) <==> !((b >> 23u32) & 0xffu32 == 0xffu32 && b & 0x007f_ffffu32
        != 0)) by (bit_vector);
    assert(((a | b) & 0x7fff_ffffu32 == 0) <==> (a << 1u32 == 0 && b << 1u32 == 0)) by (bit_vector);
}

/// Whether a value holds floating-point components, whose equality follows IEEE 754.
pub open spec fn holds_float(v: Value) -> bool {
    ||| v is F32
    ||| v is F64
    ||| v is F32Array
    ||| v is F64Array
    ||| v is DenseVectorF32
    ||| v is DenseVectorF16
    ||| v is SparseVectorF32
    ||| v is SparseVectorF16
}

/// For values without floating-point components, equality is equality of content: the same
/// variant holding the same scalar or the same elements in the same order (strings and byte
/// strings compared by their contents). Equality is symmetric for every value.
pub proof fn lemma_value_equality_is_content_equality(a: Value, b: Value)
    ensures
        !holds_float(a) && !(a is StringArray) ==> (value_equal(a, b) <==> same_content(a, b)),
        a is StringArray ==> (value_equal(a, b) <==> (b is StringArray && a->StringArray_0@.map_values(
            |s: String| s@,
        ) == b->StringArray_0@.map_values(|s: String| s@))),
        same_content(a, b) && !holds_float(a) ==> value_equal(a, b),
        value_equal(a, b) == value_equal(b, a),
{
    if a is StringArray && b is StringArray {
        let x = a->StringArray_0@;
        let y = b->StringArray_0@;
        let xv = x.map_values(|s: String| s@);
        let yv = y.map_values(|s: String| s@);
        if value_equal(a, b) {
            assert(xv =~= yv);
        }
        if xv == yv {
            assert forall|i: int| 0 <= i < x.len() implies (#[trigger] x[i])@ == y[i]@ by {
                assert(xv[i] == yv[i]);
            }
        }
    }
    if a is BinaryArray && b is BinaryArray {
        let x = a->BinaryArray_0@;
        let y = b->BinaryArray_0@;
        if value_equal(a, b) || value_equal(b, a) {
            assert forall|i: int| 0 <= i < y.len() implies (#[trigger] y[i])@ == x[i]@ by {
                assert(x[i]@ == y[i]@);
            }
        }
    }
    if a is StringArray && b is StringArray {
        let x = a->StringArray_0@;
        let y = b->StringArray_0@;
        if value_equal(a, b) || value_equal(b, a) {
            assert forall|i: int| 0 <= i < y.len() implies (#[trigger] y[i])@ == x[i]@ by {
                assert(x[i]@ == y[i]@);
            }
        }
    }
    lemma_value_equality_float_symmetric(a, b);
}

proof fn lemma_value_equality_float_symmetric(a: Value, b: Value)
    ensures
        value_equal(a, b) == value_equal(b, a),
{
    match (a, b) {
        (Value::F32(x), Value::F32(y)) => {
            assert((x | y) == (y | x)) by (bit_vector);
        },
        (Value::F64(x), Value::F64(y)) => {
            assert((x | y) == (y | x)) by (bit_vector);
        },
        (Value::F32Array(x), Value::F32Array(y)) => lemma_f32_seq_equal_symmetric(x@, y@),
        (Value::DenseVectorF32(x), Value::DenseVectorF32(y)) => lemma_f32_seq_equal_symmetric(x@, y@),
        (Value::SparseVectorF32 { values: x, .. }, Value::SparseVectorF32 { values: y, .. }) =>
            lemma_f32_seq_equal_symmetric(x@, y@),
        (Value::F64Array(x), Value::F64Array(y)) => lemma_f64_seq_equal_symmetric(x@, y@),
        (Value::DenseVectorF16(x), Value::DenseVectorF16(y)) => lemma_f16_seq_equal_symmetric(x@, y@),
        (Value::SparseVectorF16 { values: x, .. }, Value::SparseVectorF16 { values: y, .. }) =>
            lemma_f16_seq_equal_symmetric(x@, y@),
        _ => {},
    }
}

proof fn lemma_f32_seq_equal_symmetric(x: Seq<u32>, y: Seq<u32>)
    ensures
        f32_seq_equal(x, y) == f32_seq_equal(y, x),
{
    assert forall|i: int| 0 <= i < x.len() && i < y.len() implies f32_bits_equal(#[trigger] x[i], y[i])
        == f32_bits_equal(y[i], x[i]) by {
        let p = x[i];
        let q = y[i];
        assert((p | q) == (q | p)) by (bit_vector);
    }
}

proof fn lemma_f64_seq_equal_symmetric(x: Seq<u64>, y: Seq<u64>)
    ensures
        f64_seq_equal(x, y) == f64_seq_equal(y, x),
{
    assert forall|i: int| 0 <= i < x.len() && i < y.len() implies f64_bits_equal(#[trigger] x[i], y[i])
        == f64_bits_equal(y[i], x[i]) by {
        let p = x[i];
        let q = y[i];
        assert((p | q) == (q | p)) by (bit_vector);
    }
}

proof fn lemma_f16_seq_equal_symmetric(x: Seq<F16>, y: Seq<F16>)
    ensures
        f16_seq_equal(x, y) == f16_seq_equal(y, x),
{
    assert forall|i: int| 0 <= i < x.len() && i < y.len() implies crate::binary16::f16_bits_equal(
        (#[trigger] x[i]).bits(),
        y[i].bits(),
    ) == crate::binary16::f16_bits_equal(y[i].bits(), x[i].bits()) by {}
}

/// Adjacent indices increase exactly when every earlier index is below every later one.
proof fn lemma_adjacent_increasing(indices: Seq<u32>)
    ensures
        (forall|i: int| 0 <= i < indices.len() - 1 ==> #[trigger] indices[i] < indices[i + 1]) <==> (forall|i: int, j: int|
            0 <= i < j < indices.len() ==> #[trigger] indices[i] < #[trigger] indices[j]),
{
    if forall|i: int| 0 <= i < indices.len() - 1 ==> #[trigger] indices[i] < indices[i + 1] {
        assert forall|i: int, j: int| 0 <= i < j < indices.len() implies #[trigger] indices[i] < #[trigger] indices[j] by {
            lemma_adjacent_chain(indices, i, j);
        }
    }
    if forall|i: int, j: int| 0 <= i < j < indices.len() ==> #[trigger] indices[i] < #[trigger] indices[j] {
        assert forall|i: int| 0 <= i < indices.len() - 1 implies #[trigger] indices[i] < indices[i + 1] by {
            assert(indices[i] < indices[i + 1]);
        }
    }
}

proof fn lemma_adjacent_chain(indices: Seq<u32>, i: int, j: int)
    requires
        forall|k: int| 0 <= k < indices.len() - 1 ==> #[trigger] indices[k] < indices[k + 1],
        0 <= i < j < indices.len(),
    ensures
        indices[i] < indices[j],
    decreases j - i,
{
    if j - i > 1 {
        lemma_adjacent_chain(indices, i, j - 1);
        assert(indices[j - 1] < indices[j]);
    } else {
        assert(indices[i] < indices[i + 1]);
    }
}

/// Single-precision bit patterns whose exponent fields are never all ones.
pub open spec fn f32_exponents_not_all_ones(values: Seq<u32>) -> bool {
    forall|i: int| 0 <= i < values.len() ==> (#[trigger] values[i] >> 23u32) & 0xffu32 != 0xffu32
}

/// Double-precision bit patterns whose exponent fields are never all ones.
pub open spec fn f64_exponents_not_all_ones(values: Seq<u64>) -> bool {
    forall|i: int| 0 <= i < values.len() ==> (#[trigger] values[i] >> 52u64) & 0x7ffu64 != 0x7ffu64
}

/// Half-precision values whose exponent fields are never all ones.
pub open spec fn f16_exponents_not_all_ones(values: Seq<F16>) -> bool {
    forall|i: int| 0 <= i < values.len() ==> ((#[trigger] values[i]).bits() >> 10u16) & 0x1fu16 != 0x1fu16
}

/// Sparse coordinates that fit a dimension: as many as the values, no more than the entry limit,
/// each below the dimension, and every earlier one below every later one.
pub open spec fn sparse_coordinates_fit(indices: Seq<u32>, values_len: nat, dimension: nat, max_entries: nat) -> bool {
    &&& indices.len() == values_len
    &&& indices.len() <= max_entries
    &&& forall|i: int| 0 <= i < indices.len() ==> #[trigger] indices[i] < dimension
    &&& forall|i: int, j: int| 0 <= i < j < indices.len() ==> #[trigger] indices[i] < #[trigger] indices[j]
}

/// Which values a field accepts. Null is accepted exactly by a nullable field. Otherwise the
/// value must have the field's type; a floating-point scalar or array must have no component
/// whose exponent field is all ones (no infinity or NaN, of either sign); a dense vector must
/// have exactly the field's dimension; a sparse vector must have one value per coordinate, no more
/// entries than the limit, strictly increasing coordinates below the dimension, and finite
/// values. Other types accept every value.
#[verifier::rlimit(60)]
pub proof fn lemma_value_acceptance(name: Seq<char>, value: Value, field: FieldModel, limits: Limits)
    ensures
        value_error(name, value, field, limits) is None <==> {
            let d = field.dimension.unwrap() as nat;
            let m = limits.max_sparse_vector_entries as nat;
            match value {
                Value::Null => field.nullable,
                _ => value.spec_data_type() == Some(field.data_type) && match value {
                    Value::F32(b) => (b >> 23u32) & 0xffu32 != 0xffu32,
                    Value::F64(b) => (b >> 52u64) & 0x7ffu64 != 0x7ffu64,
                    Value::F32Array(v) => f32_exponents_not_all_ones(v@),
                    Value::F64Array(v) => f64_exponents_not_all_ones(v@),
                    Value::DenseVectorF32(v) => v@.len() == d && f32_exponents_not_all_ones(v@),
                    Value::DenseVectorF16(v) => v@.len() == d && f16_exponents_not_all_ones(v@),
                    Value::DenseVectorI8(v) => v@.len() == d,
                    Value::SparseVectorF32 { indices, values } => sparse_coordinates_fit(indices@, values@.len(), d, m)
                        && f32_exponents_not_all_ones(values@),
                    Value::SparseVectorF16 { indices, values } => sparse_coordinates_fit(indices@, values@.len(), d, m)
                        && f16_exponents_not_all_ones(values@),
                    _ => true,
                },
            }
        },
{
    match value {
        Value::F32(b) => lemma_f32_finite_by_exponent(b),
        Value::F64(b) => lemma_f64_finite_by_exponent(b),
        Value::F32Array(v) => lemma_all_f32_finite(v@),
        Value::F64Array(v) => lemma_all_f64_finite(v@),
        Value::DenseVectorF32(v) => lemma_all_f32_finite(v@),
        Value::DenseVectorF16(v) => lemma_all_f16_finite(v@),
        Value::SparseVectorF32 { indices, values } => {
            lemma_all_f32_finite(values@);
            lemma_adjacent_increasing(indices@);
        },
        Value::SparseVectorF16 { indices, values } => {
            lemma_all_f16_finite(values@);
            lemma_adjacent_increasing(indices@);
        },
        _ => {},
    }
}

proof fn lemma_all_f32_finite(values: Seq<u32>)
    ensures
        all_f32_finite(values) <==> f32_exponents_not_all_ones(values),
{
    assert forall|i: int| 0 <= i < values.len() implies f32_bits_finite(#[trigger] values[i]) == ((values[i]
        >> 23u32) & 0xffu32 != 0xffu32) by {
        lemma_f32_finite_by_exponent(values[i]);
    }
}

proof fn lemma_all_f64_finite(values: Seq<u64>)
    ensures
        all_f64_finite(values) <==> f64_exponents_not_all_ones(values),
{
    assert forall|i: int| 0 <= i < values.len() implies f64_bits_finite(#[trigger] values[i]) == ((values[i]
        >> 52u64) & 0x7ffu64 != 0x7ffu64) by {
        lemma_f64_finite_by_exponent(values[i]);
    }
}

proof fn lemma_all_f16_finite(values: Seq<F16>)
    ensures
        all_f16_finite(values) <==> f16_exponents_not_all_ones(values),
{
    assert forall|i: int| 0 <= i < values.len() implies crate::binary16::f16_bits_finite((#[trigger] values[i]).bits())
        == ((values[i].bits() >> 10u16) & 0x1fu16 != 0x1fu16) by {
        crate::binary16::lemma_f16_classes_by_field(values[i].bits());
    }
}

} // verus!
