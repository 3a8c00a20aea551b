//! Diagnostic-reporting core of a parsing engine.
//!
//! An [`error::Error`] captures a parse failure: either the sets of grammar
//! rules that were expected and unexpected at the deepest position the matcher
//! reached, or a custom message anchored at a position or a span of the input.
//! The crate renders such a record as a boxed, source-anchored report with a
//! caret underline, and can rewrite rule lists into a custom message through a
//! caller-supplied rule renderer.

pub mod error;
pub use error::Error;
pub mod source;
pub mod text;
