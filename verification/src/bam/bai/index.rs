//! The index, one fragment for each reference sequence.

pub mod reference_sequence;

pub use self::reference_sequence::ReferenceSequence;
