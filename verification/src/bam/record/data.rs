//! The optional fields of a record.

pub mod field;
