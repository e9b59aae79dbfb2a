//! A small JavaScript-to-TypeScript rewriter.
//!
//! The engine applies a fixed, ordered catalogue of literal substitution
//! rules to an input string: one validation rule that aborts the whole
//! conversion, a list of unconditional substitutions, and two substitutions
//! gated on substring tests against the original input.

pub mod engine;
pub mod text;

pub use engine::convert_js_to_ts;
