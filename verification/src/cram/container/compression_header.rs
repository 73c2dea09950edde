//! The header that says how the records of a container are encoded.

pub mod preservation_map;

pub use self::preservation_map::PreservationMap;
