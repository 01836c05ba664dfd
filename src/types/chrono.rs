//! Date and time types of the `chrono` crate.

pub use chrono::{DateTime, NaiveDate, NaiveDateTime, NaiveTime, Utc};
