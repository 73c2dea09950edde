//! The columnar format: what goes into a slice of records, and the
//! preservation map of a compression header.

pub mod container;
pub mod num;
pub mod reader;
pub mod record;
pub mod writer;

pub use self::record::Record;
