//! Numbers of variable length.

pub mod itf8;

pub use self::itf8::{write_itf8, Itf8};
