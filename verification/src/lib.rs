//! Builder generation for flat record types.
//!
//! Given the schema of a record, the library classifies every field into a
//! population strategy, lays out the companion builder, writes the builder's
//! source text, and models what the builder does when its setters are called
//! and a record is constructed.

pub mod schema;
pub mod classify;
pub mod generate;
pub mod emit;
pub mod construct;
pub mod laws;
