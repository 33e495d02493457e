//! Core of a changelog-driven incremental computation engine: a typed columnar
//! data model, changelog batches with row operations and visibility masks,
//! streaming aggregation state, and constant expression evaluation.

pub mod agg;
pub mod array;
pub mod chunk;
pub mod component;
pub mod expr_literal;
pub mod row_count;
pub mod pb;
pub mod scalar;
pub mod types;
pub mod value_encoding;
