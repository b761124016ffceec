//! Columnar batches and first-value aggregation for a vectorized query engine.
//!
//! A column is a [`chunked_vec::ChunkedVecInt`]: dense element slots beside a
//! bit-packed presence map. Aggregation state is fed from such columns one
//! value at a time, by a repeated constant, or through a list of selected rows.

pub mod error;
pub mod eval_type;
pub mod expr;
pub mod chunked_vec;
pub mod data_type;
pub mod rpn_fn;
pub mod aggr_first;
