//! Alignment records and the index over a file of them.

pub mod bai;
pub mod record;

pub use self::record::Record;
