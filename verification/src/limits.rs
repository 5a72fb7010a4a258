use vstd::prelude::*;

verus! {

/// Configurable resource and request limits.
///
/// Applications may start with [`Limits::default`], adjust individual limits, and then build a
/// [`Schema`](crate::Schema).
#[non_exhaustive]
#[derive(Debug, Eq, PartialEq, Structural)]
pub struct Limits {
    /// Upper bound on the dimension of a dense or sparse vector field.
    ///
    /// Dimension validation applies further rules beyond this bound; they are documented on
    /// [`FieldSchemaBuilder::build_with_limits`](crate::FieldSchemaBuilder::build_with_limits).
    pub max_vector_dimension: usize,
    /// Maximum number of stored entries in one sparse vector.
    ///
    /// Entries containing `0.0` or `-0.0` are accepted and count toward this limit; validation
    /// does not remove them implicitly.
    pub max_sparse_vector_entries: usize,
    /// Maximum number of vector fields in one collection schema.
    pub max_vector_fields: usize,
    /// Maximum `top_k` value accepted by search requests.
    pub max_top_k: usize,
    /// Maximum number of documents accepted by one batch write.
    pub max_batch_write_documents: usize,
}

impl Limits {
    /// The default limits.
    pub open spec fn spec_default() -> Limits {
        Limits {
            max_vector_dimension: 16_384,
            max_sparse_vector_entries: 65_536,
            max_vector_fields: 4,
            max_top_k: 65_536,
            max_batch_write_documents: 10_000,
        }
    }
}

impl Clone for Limits {
    fn clone(&self) -> (r: Self)
        ensures
            r == *self,
    {
        Limits { ..*self }
    }
}

impl Default for Limits {
    fn default() -> (r: Self)
        ensures
            r == Limits::spec_default(),
    {
        Limits {
            max_vector_dimension: 16_384,
            max_sparse_vector_entries: 65_536,
            max_vector_fields: 4,
            max_top_k: 65_536,
            max_batch_write_documents: 10_000,
        }
    }
}

} // verus!
