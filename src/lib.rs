//! Expression rewriting for logical query plans: column normalization with
//! ambiguity detection, qualifier stripping, schema-driven coercion and
//! preservation of output names across rewrites.
pub mod common;
pub mod tree;
pub mod expr;
pub mod normalize;
pub mod rewrite;
pub mod names;
pub mod plan;
pub mod coerce;
pub mod preserve;
pub mod traverse;
pub mod laws;
