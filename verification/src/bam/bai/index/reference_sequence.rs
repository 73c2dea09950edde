//! The fragment of the index for one reference sequence.

pub mod bin;
pub mod builder;
pub mod metadata;

pub use self::bin::Bin;
pub use self::builder::Builder;
pub use self::metadata::Metadata;

use self::bin::BinView;
use crate::bgzf::VirtualPosition;
use vstd::prelude::*;

verus! {

/// The number of bases of one window of the linear index.
pub const WINDOW_SIZE: i32 = 16384;

/// The number of windows of the linear index, whatever the length of the
/// reference sequence.
pub const MAX_INTERVAL_COUNT: usize = 131072;

/// What the fragment for one reference sequence holds.
pub ghost struct ReferenceSequenceView {
    /// The bins.
    pub bins: Seq<BinView>,
    /// The linear index: for each window the virtual position at which to
    /// start reading for the records that overlap it.
    pub intervals: Seq<VirtualPosition>,
    /// The metadata, unless no record was seen.
    pub metadata: Option<Metadata>,
}

impl ReferenceSequenceView {
    /// The fragment of a reference sequence without records: no bin, every
    /// window at the default position, no metadata.
    pub open spec fn empty() -> ReferenceSequenceView {
        ReferenceSequenceView {
            bins: Seq::empty(),
            intervals: Seq::new(MAX_INTERVAL_COUNT as nat, |i: int| VirtualPosition::spec_default()),
            metadata: None,
        }
    }
}

/// The fragment of the index for one reference sequence.
#[derive(Clone, Debug, PartialEq, Eq)]
pub struct ReferenceSequence {
    bins: Vec<Bin>,
    intervals: Vec<VirtualPosition>,
    metadata: Option<Metadata>,
}

impl View for ReferenceSequence {
    type V = ReferenceSequenceView;

    closed spec fn view(&self) -> ReferenceSequenceView {
        ReferenceSequenceView {
            bins: self.bins@.map_values(|b: Bin| b@),
            intervals: self.intervals@,
            metadata: self.metadata,
        }
    }
}

/// A linear index with every window at the default position.
pub fn empty_intervals() -> (r: Vec<VirtualPosition>)
    ensures
        r@ == ReferenceSequenceView::empty().intervals,
{
    let mut intervals: Vec<VirtualPosition> = Vec::with_capacity(MAX_INTERVAL_COUNT);
    let mut i: usize = 0;
    while i < MAX_INTERVAL_COUNT
        invariant
            i <= MAX_INTERVAL_COUNT,
            intervals@.len() == i,
            forall|j: int| 0 <= j < i ==> intervals@[j] == VirtualPosition::spec_default(),
        decreases MAX_INTERVAL_COUNT - i,
    {
        intervals.push(VirtualPosition::default());
        i = i + 1;
    }
    assert(intervals@ =~= ReferenceSequenceView::empty().intervals);
    intervals
}

impl ReferenceSequence {
    /// The fragment of these bins, windows and metadata.
    pub fn new(bins: Vec<Bin>, intervals: Vec<VirtualPosition>, metadata: Option<Metadata>) -> (r:
        ReferenceSequence)
        ensures
            r@ == (ReferenceSequenceView {
                bins: bins@.map_values(|b: Bin| b@),
                intervals: intervals@,
                metadata,
            }),
    {
        ReferenceSequence { bins, intervals, metadata }
    }

    /// The bins.
    pub fn bins(&self) -> (r: &[Bin])
        ensures
            r@.map_values(|b: Bin| b@) == self@.bins,
    {
        self.bins.as_slice()
    }

    /// The linear index.
    pub fn intervals(&self) -> (r: &[VirtualPosition])
        ensures
            r@ == self@.intervals,
    {
        self.intervals.as_slice()
    }

    /// The metadata, unless no record was seen.
    pub fn metadata(&self) -> (r: Option<&Metadata>)
        ensures
            match r {
                Some(metadata) => self@.metadata == Some(*metadata),
                None => self@.metadata is None,
            },
    {
        self.metadata.as_ref()
    }
}

impl Default for ReferenceSequence {
    /// The fragment of a reference sequence without records.
    fn default() -> (r: ReferenceSequence)
        ensures
            r@ == ReferenceSequenceView::empty(),
    {
        let r = ReferenceSequence { bins: Vec::new(), intervals: empty_intervals(), metadata: None };
        assert(r@.bins =~= Seq::empty());
        r
    }
}

} // verus!
