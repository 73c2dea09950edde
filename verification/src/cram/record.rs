//! What a slice reads of a record.

pub mod tag;

use vstd::prelude::*;

verus! {

/// What a slice reads of a record: the reference sequence that it is aligned
/// to and the position at which its alignment starts.
#[derive(Clone, Copy, Debug, PartialEq, Eq, Structural)]
pub struct Record {
    /// The index of the reference sequence, negative for a record that is
    /// aligned to none.
    pub reference_id: i32,
    /// The 1-based position at which the alignment starts.
    pub alignment_start: i32,
}

impl Record {
    /// The record aligned to the given reference sequence at the given
    /// position.
    pub fn new(reference_id: i32, alignment_start: i32) -> (r: Record)
        ensures
            r == (Record { reference_id, alignment_start }),
    {
        Record { reference_id, alignment_start }
    }

    /// The index of the reference sequence, or `None` for a record that is
    /// aligned to none.
    pub open spec fn spec_reference_sequence_id(self) -> Option<i32> {
        if self.reference_id < 0 {
            None
        } else {
            Some(self.reference_id)
        }
    }

    /// The index of the reference sequence, or `None` for a record that is
    /// aligned to none.
    pub fn reference_sequence_id(&self) -> (r: Option<i32>)
        ensures
            r == self.spec_reference_sequence_id(),
    {
        if self.reference_id < 0 {
            None
        } else {
            Some(self.reference_id)
        }
    }

    /// The 1-based position at which the alignment starts.
    pub fn alignment_start(&self) -> (r: i32)
        ensures
            r == self.alignment_start,
    {
        self.alignment_start
    }
}

} // verus!
