//! A container and what it holds.

pub mod block;
pub mod compression_header;
pub mod reference_sequence_id;
pub mod slice;

pub use self::block::Block;
pub use self::reference_sequence_id::ReferenceSequenceId;
pub use self::slice::Slice;
