//! Reading the records of a file.

pub mod records;

pub use self::records::Records;
