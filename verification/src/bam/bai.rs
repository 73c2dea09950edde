//! The index of a coordinate-sorted alignment file.

pub mod index;
