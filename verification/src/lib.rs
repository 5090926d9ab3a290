//! A typed tensor abstraction layer: multi-dimensional numeric and string
//! buffers built from flat data plus an optional, partially specified shape.
//!
//! The layer resolves wildcard dimensions, tags each buffer with a closed
//! element-kind set, enforces a construction-time mutability contract, and
//! supports an explicit hand-off of a float buffer to a foreign caller.

pub mod debug;
pub mod element;
pub mod errors;
pub mod shape;
pub mod tensor;
