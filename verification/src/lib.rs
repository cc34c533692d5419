//! Expression-evaluation core of a columnar query engine.
//!
//! An expression tree (column references, literals, comparisons, arithmetic)
//! is evaluated against a batch of equally indexed columns and yields a
//! [`value::ColumnarValue`]: either a full column or a single scalar.
//! Aggregation folds successive batches of evaluated expressions into one
//! running scalar through an accumulator.
//!
//! The vectorized kernels (elementwise comparison and arithmetic, min/max
//! reduction) come from the `arrow2` crate and are consumed through the
//! trusted declarations in `kernels`; everything around them is verified.

mod kernels;
pub mod aggregate;
pub mod display;
pub mod error;
pub mod expression;
pub mod laws;
pub mod semantics;
pub mod value;
