//! Decoding of cairo path buffers into typed drawing commands.
//!
//! A path buffer is an array of fixed-size slots. A command occupies a header
//! slot, which names the command and says how many slots it spans, followed by
//! the points the command carries. This crate turns such a buffer into a
//! sequence of [`paths::PathSegment`] values and proves that no read leaves the
//! buffer.

pub mod data;
pub mod decode;
pub mod error;
pub mod laws;
pub mod paths;
