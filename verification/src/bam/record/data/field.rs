//! One optional field of a record: a tag and a value.

pub mod value;

pub use self::value::Type;
