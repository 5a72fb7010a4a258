use std::cmp::Ordering;
use vstd::prelude::*;
use vstd::std_specs::cmp::PartialOrdSpec;

use crate::text::{decimal, spec_decimal};

verus! {

/// The logical type of a schema field.
///
/// Vectors support `F32`, `F16`, and `I8` dense components and `F32` and `F16` sparse components.
/// Binary and `F64` values are supported as scalars and arrays only.
#[non_exhaustive]
#[derive(Clone, Copy, Debug, Eq, Hash, PartialEq, Structural)]
pub enum DataType {
    /// A Boolean scalar.
    Bool,
    /// A signed 32-bit integer scalar.
    I32,
    /// A signed 64-bit integer scalar.
    I64,
    /// An unsigned 32-bit integer scalar.
    U32,
    /// An unsigned 64-bit integer scalar.
    U64,
    /// An IEEE 754 single-precision scalar.
    F32,
    /// An IEEE 754 double-precision scalar.
    F64,
    /// A UTF-8 string scalar.
    String,
    /// An uninterpreted byte string.
    Binary,
    /// An array of Boolean values.
    BoolArray,
    /// An array of signed 32-bit integers.
    I32Array,
    /// An array of signed 64-bit integers.
    I64Array,
    /// An array of unsigned 32-bit integers.
    U32Array,
    /// An array of unsigned 64-bit integers.
    U64Array,
    /// An array of IEEE 754 single-precision values.
    F32Array,
    /// An array of IEEE 754 double-precision values.
    F64Array,
    /// An array of UTF-8 strings.
    StringArray,
    /// An array of uninterpreted byte strings.
    BinaryArray,
    /// A dense vector with single-precision components.
    DenseVectorF32,
    /// A dense vector with half-precision components.
    DenseVectorF16,
    /// A dense vector with signed 8-bit integer components.
    DenseVectorI8,
    /// A sparse vector with explicitly stored single-precision values.
    SparseVectorF32,
    /// A sparse vector with explicitly stored half-precision values.
    SparseVectorF16,
}

impl DataType {
    /// The dense vector types.
    pub open spec fn spec_is_dense_vector(&self) -> bool {
        ||| *self == DataType::DenseVectorF32
        ||| *self == DataType::DenseVectorF16
        ||| *self == DataType::DenseVectorI8
    }

    /// The sparse vector types.
    pub open spec fn spec_is_sparse_vector(&self) -> bool {
        ||| *self == DataType::SparseVectorF32
        ||| *self == DataType::SparseVectorF16
    }

    /// The vector types: dense or sparse.
    pub open spec fn spec_is_vector(&self) -> bool {
        self.spec_is_dense_vector() || self.spec_is_sparse_vector()
    }

    /// Returns whether this type is any supported vector type.
    #[verifier::when_used_as_spec(spec_is_vector)]
    pub fn is_vector(&self) -> (r: bool)
        ensures
            r == self.spec_is_vector(),
    {
        self.is_dense_vector() || self.is_sparse_vector()
    }

    /// Returns whether this type is a supported dense vector type.
    #[verifier::when_used_as_spec(spec_is_dense_vector)]
    pub fn is_dense_vector(&self) -> (r: bool)
        ensures
            r == self.spec_is_dense_vector(),
    {
        match self {
            DataType::DenseVectorF32 | DataType::DenseVectorF16 | DataType::DenseVectorI8 => true,
            _ => false,
        }
    }

    /// Returns whether this type is a supported sparse vector type.
    #[verifier::when_used_as_spec(spec_is_sparse_vector)]
    pub fn is_sparse_vector(&self) -> (r: bool)
        ensures
            r == self.spec_is_sparse_vector(),
    {
        match self {
            DataType::SparseVectorF32 | DataType::SparseVectorF16 => true,
            _ => false,
        }
    }

    /// Returns whether a field of this type requires a fixed dimension.
    #[verifier::when_used_as_spec(spec_is_vector)]
    pub fn requires_dimension(&self) -> (r: bool)
        ensures
            r == self.spec_is_vector(),
    {
        self.is_vector()
    }

    /// The variant's name, as its `Debug` form prints it.
    pub open spec fn spec_variant_name(self) -> Seq<char> {
        match self {
            DataType::Bool => "Bool"@,
            DataType::I32 => "I32"@,
            DataType::I64 => "I64"@,
            DataType::U32 => "U32"@,
            DataType::U64 => "U64"@,
            DataType::F32 => "F32"@,
            DataType::F64 => "F64"@,
            DataType::String => "String"@,
            DataType::Binary => "Binary"@,
            DataType::BoolArray => "BoolArray"@,
            DataType::I32Array => "I32Array"@,
            DataType::I64Array => "I64Array"@,
            DataType::U32Array => "U32Array"@,
            DataType::U64Array => "U64Array"@,
            DataType::F32Array => "F32Array"@,
            DataType::F64Array => "F64Array"@,
            DataType::StringArray => "StringArray"@,
            DataType::BinaryArray => "BinaryArray"@,
            DataType::DenseVectorF32 => "DenseVectorF32"@,
            DataType::DenseVectorF16 => "DenseVectorF16"@,
            DataType::DenseVectorI8 => "DenseVectorI8"@,
            DataType::SparseVectorF32 => "SparseVectorF32"@,
            DataType::SparseVectorF16 => "SparseVectorF16"@,
        }
    }

    /// Returns the variant's name, as used in validation messages.
    pub fn variant_name(&self) -> (r: &'static str)
        ensures
            r@ == self.spec_variant_name(),
    {
        match self {
            DataType::Bool => "Bool",
            DataType::I32 => "I32",
            DataType::I64 => "I64",
            DataType::U32 => "U32",
            DataType::U64 => "U64",
            DataType::F32 => "F32",
            DataType::F64 => "F64",
            DataType::String => "String",
            DataType::Binary => "Binary",
            DataType::BoolArray => "BoolArray",
            DataType::I32Array => "I32Array",
            DataType::I64Array => "I64Array",
            DataType::U32Array => "U32Array",
            DataType::U64Array => "U64Array",
            DataType::F32Array => "F32Array",
            DataType::F64Array => "F64Array",
            DataType::StringArray => "StringArray",
            DataType::BinaryArray => "BinaryArray",
            DataType::DenseVectorF32 => "DenseVectorF32",
            DataType::DenseVectorF16 => "DenseVectorF16",
            DataType::DenseVectorI8 => "DenseVectorI8",
            DataType::SparseVectorF32 => "SparseVectorF32",
            DataType::SparseVectorF16 => "SparseVectorF16",
        }
    }
}

/// The distance or similarity metric used for vector search.
#[non_exhaustive]
#[derive(Clone, Copy, Debug, Eq, Hash, PartialEq, Structural)]
pub enum MetricType {
    /// Euclidean distance.
    L2,
    /// Inner-product similarity.
    InnerProduct,
    /// Cosine similarity.
    Cosine,
}

/// A globally unique internal document identifier.
///
/// Identifiers are allocated monotonically and never reused. [`DocId::new`] does not validate its
/// argument.
#[derive(Clone, Copy, Debug, Eq, Hash, Ord, PartialEq)]
pub struct DocId(u64);

impl DocId {
    /// The wrapped identifier value.
    pub closed spec fn value(self) -> u64 {
        self.0
    }

    /// Wraps an internal identifier value.
    pub fn new(value: u64) -> (id: Self)
        ensures
            id.value() == value,
    {
        DocId(value)
    }

    /// Returns the underlying integer value.
    pub fn get(self) -> (value: u64)
        ensures
            value == self.value(),
    {
        self.0
    }

    /// Renders the identifier as its decimal value.
    pub fn to_string(&self) -> (r: String)
        ensures
            r@ == spec_decimal(self.value() as nat),
    {
        decimal(self.0)
    }
}

impl PartialOrd for DocId {
    fn partial_cmp(&self, other: &Self) -> (r: Option<Ordering>) {
        if self.0 < other.0 {
            Some(Ordering::Less)
        } else if self.0 == other.0 {
            Some(Ordering::Equal)
        } else {
            Some(Ordering::Greater)
        }
    }
}

impl vstd::std_specs::cmp::PartialOrdSpecImpl for DocId {
    open spec fn obeys_partial_cmp_spec() -> bool {
        true
    }

    open spec fn partial_cmp_spec(&self, other: &Self) -> Option<Ordering> {
        Some(
            if self.value() < other.value() {
                Ordering::Less
            } else if self.value() == other.value() {
                Ordering::Equal
            } else {
                Ordering::Greater
            },
        )
    }
}

/// Identifiers are ordered by their values: one id sorts before another exactly when its value
/// is smaller, and two ids compare equal exactly when their values are equal.
pub proof fn lemma_doc_id_order(a: DocId, b: DocId)
    ensures
        (a.partial_cmp_spec(&b) == Some(Ordering::Less)) <==> a.value() < b.value(),
        (a.partial_cmp_spec(&b) == Some(Ordering::Equal)) <==> a.value() == b.value(),
        (a.partial_cmp_spec(&b) == Some(Ordering::Greater)) <==> a.value() > b.value(),
        (a.partial_cmp_spec(&b) == Some(Ordering::Equal)) <==> a == b,
{
}

impl From<DocId> for u64 {
    fn from(value: DocId) -> (r: u64) {
        value.get()
    }
}

impl vstd::std_specs::convert::FromSpecImpl<DocId> for u64 {
    open spec fn obeys_from_spec() -> bool {
        true
    }

    open spec fn from_spec(v: DocId) -> u64 {
        v.value()
    }
}

} // verus!
