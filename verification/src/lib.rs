//! Shared data model, validation rules and score-kernel selection for an embedded vector database.

pub mod data_type;
pub mod error;
pub mod binary16;
pub mod kernel;
pub mod limits;
pub mod schema;
pub mod doc;
pub mod text;

pub use data_type::{DataType, DocId, MetricType};
pub use doc::{Doc, Value};
pub use error::{Error, Result};
pub use binary16::F16;
pub use limits::Limits;
pub use schema::{FieldSchema, FieldSchemaBuilder, Schema, SchemaBuilder};
pub use kernel::{
    avx2_dot_i8_sum, avx2_squared_l2_i8_sum, avx512_dot_i8_sum, avx512_squared_l2_i8_sum,
    chunked_dot_i8_sum, chunked_squared_l2_i8_sum, contiguous_layout, dot_i8_sum,
    first_ragged_target, i8_dimension_supported, resolve_path, score_formula, squared_l2_i8_sum,
    Arch, ElementKind, FeatureSet, ImplementedPaths, KernelPath, LayoutProblem, ScoreFormula,
    MAX_I8_DIMENSION,
};
