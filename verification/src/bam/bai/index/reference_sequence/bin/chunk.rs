//! The span of virtual positions that records occupy.

use crate::bgzf::VirtualPosition;
use vstd::prelude::*;

verus! {

/// A span of a block-compressed file: the virtual position at which the
/// first of one or more consecutive records starts, and the one at which
/// the last of them ends. The start is never behind the end.
#[derive(Clone, Copy, Debug, PartialEq, Eq, Structural)]
pub struct Chunk {
    start: VirtualPosition,
    end: VirtualPosition,
}

impl Chunk {
    #[verifier::type_invariant]
    spec fn inv(self) -> bool {
        self.start@ <= self.end@
    }

    /// The virtual position at which the chunk starts.
    pub closed spec fn spec_start(self) -> VirtualPosition {
        self.start
    }

    /// The virtual position at which the chunk ends.
    pub closed spec fn spec_end(self) -> VirtualPosition {
        self.end
    }

    /// The chunk from `start` to `end`.
    pub fn new(start: VirtualPosition, end: VirtualPosition) -> (r: Chunk)
        requires
            start@ <= end@,
        ensures
            r.spec_start() == start,
            r.spec_end() == end,
    {
        Chunk { start, end }
    }

    /// The virtual position at which the chunk starts.
    pub fn start(&self) -> (r: VirtualPosition)
        ensures
            r == self.spec_start(),
            r@ <= self.spec_end()@,
    {
        proof {
            use_type_invariant(self);
        }
        self.start
    }

    /// The virtual position at which the chunk ends.
    pub fn end(&self) -> (r: VirtualPosition)
        ensures
            r == self.spec_end(),
            self.spec_start()@ <= r@,
    {
        proof {
            use_type_invariant(self);
        }
        self.end
    }
}

} // verus!
