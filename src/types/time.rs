//! Date and time types of the `time` crate.

pub use time::{Date, OffsetDateTime, PrimitiveDateTime, Time, UtcOffset};
