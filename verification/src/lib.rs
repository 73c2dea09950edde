//! Random access to block-compressed alignment files.
//!
//! [`bgzf`] reads a stream of independently compressed blocks and addresses
//! any byte of the decompressed data by a virtual position. [`bam`] builds,
//! from alignment records and the chunks of virtual positions they occupy,
//! the binning index and the linear index of one reference sequence.
//! [`cram`] holds pieces of the columnar format: the builder of a slice, the
//! writer of a preservation map and the iterator over the records of a file.

pub mod bam;
pub mod bgzf;
pub mod cram;
