//! Mapping of Rust value types onto the type descriptors of SQL backends.

pub mod database;
pub mod types;
