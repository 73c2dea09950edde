//! Writing a compression header.

pub mod preservation_map;

pub use self::preservation_map::write_preservation_map;
