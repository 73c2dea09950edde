//! Counts and bounds of the records of one reference sequence.

use crate::bgzf::VirtualPosition;
use vstd::prelude::*;

verus! {

/// The smallest start and the largest end of the chunks of the records of
/// one reference sequence, and the numbers of its mapped and unmapped
/// records.
#[derive(Clone, Copy, Debug, PartialEq, Eq, Structural)]
pub struct Metadata {
    /// The smallest virtual position at which a chunk starts.
    pub start_position: VirtualPosition,
    /// The largest virtual position at which a chunk ends.
    pub end_position: VirtualPosition,
    /// The number of mapped records.
    pub mapped_record_count: u64,
    /// The number of unmapped records.
    pub unmapped_record_count: u64,
}

impl Metadata {
    /// The metadata of these values.
    pub fn new(
        start_position: VirtualPosition,
        end_position: VirtualPosition,
        mapped_record_count: u64,
        unmapped_record_count: u64,
    ) -> (r: Metadata)
        ensures
            r == (Metadata {
                start_position,
                end_position,
                mapped_record_count,
                unmapped_record_count,
            }),
    {
        Metadata { start_position, end_position, mapped_record_count, unmapped_record_count }
    }

    /// The smallest virtual position at which a chunk starts.
    pub fn start_position(&self) -> (r: VirtualPosition)
        ensures
            r == self.start_position,
    {
        self.start_position
    }

    /// The largest virtual position at which a chunk ends.
    pub fn end_position(&self) -> (r: VirtualPosition)
        ensures
            r == self.end_position,
    {
        self.end_position
    }

    /// The number of mapped records.
    pub fn mapped_record_count(&self) -> (r: u64)
        ensures
            r == self.mapped_record_count,
    {
        self.mapped_record_count
    }

    /// The number of unmapped records.
    pub fn unmapped_record_count(&self) -> (r: u64)
        ensures
            r == self.unmapped_record_count,
    {
        self.unmapped_record_count
    }
}

} // verus!
