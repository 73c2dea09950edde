//! The reference sequence of the records of a container or a slice.

use vstd::prelude::*;

verus! {

/// The reference sequence that the records of a slice are aligned to.
#[derive(Clone, Copy, Debug, PartialEq, Eq, Structural)]
pub enum ReferenceSequenceId {
    /// All records are aligned to the reference sequence of this index.
    Single(i32),
    /// No record is aligned.
    Unmapped,
    /// The records are aligned to more than one reference sequence.
    Many,
}

} // verus!
