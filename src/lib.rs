//! Evaluation core of a small expression language: values, scope chains,
//! closures with lexical capture, built-ins and a depth-bounded evaluator.
pub mod error;
pub mod number;
pub mod value;
pub mod environment;
pub mod eval;
pub mod builtins;
pub mod laws;
