//! Writing the parts of a container.

pub mod compression_header;
