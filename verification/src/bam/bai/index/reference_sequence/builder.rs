//! The builder of the index fragment of one reference sequence.

use super::bin::{self, BinView, Chunk};
use super::{
    empty_intervals, Bin, Metadata, ReferenceSequence, ReferenceSequenceView, MAX_INTERVAL_COUNT,
    WINDOW_SIZE,
};
use crate::bam::Record;
use crate::bgzf::virtual_position::lemma_equal_by_view;
use crate::bgzf::VirtualPosition;
use std::collections::HashMap;
use vstd::prelude::*;
use vstd::seq_lib::to_multiset_contains;
use vstd::std_specs::hash::group_hash_axioms;

verus! {

/// The window of the linear index that holds the base at the 1-based
/// `position`; the first window for a position before the first base.
pub open spec fn window_of(position: int) -> int {
    if position >= 1 {
        (position - 1) / (WINDOW_SIZE as int)
    } else {
        0
    }
}

/// Whether one of `bins` has the id `id`.
pub open spec fn has_bin(bins: Seq<BinView>, id: u32) -> bool {
    exists|i: int| 0 <= i < bins.len() && (#[trigger] bins[i]).id == id
}

/// The index in `bins` of a bin with the id `id`, where there is one.
pub open spec fn bin_index(bins: Seq<BinView>, id: u32) -> int {
    choose|i: int| 0 <= i < bins.len() && (#[trigger] bins[i]).id == id
}

/// Whether no two of `bins` have the same id.
pub open spec fn distinct_ids(bins: Seq<BinView>) -> bool {
    forall|i: int, j: int|
        0 <= i < j < bins.len() ==> (#[trigger] bins[i]).id != (#[trigger] bins[j]).id
}

/// What a builder has collected.
pub ghost struct BuilderState {
    /// The bins, in the order in which their ids were first seen.
    pub bins: Seq<BinView>,
    /// The linear index.
    pub intervals: Seq<VirtualPosition>,
    /// The smallest start of a chunk seen.
    pub start_position: VirtualPosition,
    /// The largest end of a chunk seen.
    pub end_position: VirtualPosition,
    /// The number of mapped records seen.
    pub mapped_record_count: int,
    /// The number of unmapped records seen.
    pub unmapped_record_count: int,
}

impl BuilderState {
    /// The state of a builder that has seen no record: no bin, every window
    /// at the default position, the start at the largest position and the
    /// end at the default one, so that the first chunk replaces both.
    pub open spec fn initial() -> BuilderState {
        BuilderState {
            bins: Seq::empty(),
            intervals: ReferenceSequenceView::empty().intervals,
            start_position: VirtualPosition::spec_max(),
            end_position: VirtualPosition::spec_default(),
            mapped_record_count: 0,
            unmapped_record_count: 0,
        }
    }

    /// No two bins share an id, the linear index has all its windows, and
    /// the counts are counts.
    pub open spec fn wf(self) -> bool {
        &&& distinct_ids(self.bins)
        &&& self.intervals.len() == MAX_INTERVAL_COUNT
        &&& 0 <= self.mapped_record_count
        &&& 0 <= self.unmapped_record_count
    }

    /// The chunk goes to the end of the bin of the record; a bin not seen
    /// before is added behind the others.
    pub open spec fn update_bins(self, record: Record, chunk: Chunk) -> BuilderState {
        let id = record.spec_bin() as u32;
        let i = bin_index(self.bins, id);
        BuilderState {
            bins: if has_bin(self.bins, id) {
                self.bins.update(i, BinView { id, chunks: self.bins[i].chunks.push(chunk) })
            } else {
                self.bins.push(BinView { id, chunks: seq![chunk] })
            },
            ..self
        }
    }

    /// Every window from that of the first base of the record to that of its
    /// last is set to the start of the chunk, whatever it held.
    pub open spec fn update_linear_index(self, record: Record, chunk: Chunk) -> BuilderState {
        let first = window_of(record.spec_position() as int);
        let last = window_of(record.spec_end());
        BuilderState {
            intervals: Seq::new(
                self.intervals.len(),
                |i: int|
                    if first <= i <= last {
                        chunk.spec_start()
                    } else {
                        self.intervals[i]
                    },
            ),
            ..self
        }
    }

    /// The record is counted as mapped or unmapped, the start goes down to
    /// that of the chunk and the end up to that of the chunk.
    pub open spec fn update_metadata(self, record: Record, chunk: Chunk) -> BuilderState {
        let unmapped = record.spec_flags().spec_is_unmapped();
        BuilderState {
            start_position: if chunk.spec_start()@ < self.start_position@ {
                chunk.spec_start()
            } else {
                self.start_position
            },
            end_position: if chunk.spec_end()@ > self.end_position@ {
                chunk.spec_end()
            } else {
                self.end_position
            },
            mapped_record_count: if unmapped {
                self.mapped_record_count
            } else {
                self.mapped_record_count + 1
            },
            unmapped_record_count: if unmapped {
                self.unmapped_record_count + 1
            } else {
                self.unmapped_record_count
            },
            ..self
        }
    }

    /// The state after a record that occupies `chunk` was added.
    pub open spec fn add_record(self, record: Record, chunk: Chunk) -> BuilderState {
        self.update_bins(record, chunk).update_linear_index(record, chunk).update_metadata(
            record,
            chunk,
        )
    }

    /// The state after the records of `records` were added to a new builder,
    /// the first of them first.
    pub open spec fn after(records: Seq<(Record, Chunk)>) -> BuilderState
        decreases records.len(),
    {
        if records.len() == 0 {
            Self::initial()
        } else {
            Self::after(records.drop_last()).add_record(records.last().0, records.last().1)
        }
    }

    /// The fragment that is built: the empty one where no bin was added,
    /// else the bins, the linear index and the metadata collected.
    pub open spec fn build(self) -> ReferenceSequenceView {
        if self.bins.len() == 0 {
            ReferenceSequenceView::empty()
        } else {
            ReferenceSequenceView {
                bins: self.bins,
                intervals: self.intervals,
                metadata: Some(
                    Metadata {
                        start_position: self.start_position,
                        end_position: self.end_position,
                        mapped_record_count: self.mapped_record_count as u64,
                        unmapped_record_count: self.unmapped_record_count as u64,
                    },
                ),
            }
        }
    }
}

/// Builds the index fragment of one reference sequence from its records and
/// the chunks that they occupy.
///
/// The builders of the bins stand in the order in which their ids were first
/// seen, so that the bins are built in that order; a map from the id of a
/// bin to the place of its builder finds the bin of a record.
#[derive(Debug)]
pub struct Builder {
    bin_builders: Vec<bin::Builder>,
    bin_indices: HashMap<u32, usize>,
    intervals: Vec<VirtualPosition>,
    start_position: VirtualPosition,
    end_position: VirtualPosition,
    mapped_record_count: u64,
    unmapped_record_count: u64,
}

impl View for Builder {
    type V = BuilderState;

    closed spec fn view(&self) -> BuilderState {
        BuilderState {
            bins: self.bin_builders@.map_values(|b: bin::Builder| b@),
            intervals: self.intervals@,
            start_position: self.start_position,
            end_position: self.end_position,
            mapped_record_count: self.mapped_record_count as int,
            unmapped_record_count: self.unmapped_record_count as int,
        }
    }
}

impl Builder {
    /// Whether the builder is one that `default` and `add_record` can have
    /// made: what it has collected is well formed, and it finds each bin by
    /// its id.
    pub closed spec fn wf(&self) -> bool {
        &&& self@.wf()
        &&& forall|i: int|
            0 <= i < self.bin_builders@.len() ==> self.bin_indices@.contains_key(
                (#[trigger] self.bin_builders@[i])@.id,
            ) && self.bin_indices@[self.bin_builders@[i]@.id] == i
        &&& forall|id: u32| #[trigger]
            self.bin_indices@.contains_key(id) ==> self.bin_indices@[id]
                < self.bin_builders@.len() && self.bin_builders@[self.bin_indices@[id] as int]@.id
                == id
    }

    /// What a well-formed builder has collected is well formed.
    pub proof fn lemma_wf(&self)
        requires
            self.wf(),
        ensures
            self@.wf(),
    {
    }

    /// Adds a record and the chunk that it occupies: to its bin, to the
    /// windows of the linear index that it covers, and to the metadata.
    pub fn add_record(&mut self, record: &Record, chunk: Chunk)
        requires
            old(self).wf(),
            old(self)@.mapped_record_count < u64::MAX,
            old(self)@.unmapped_record_count < u64::MAX,
        ensures
            final(self).wf(),
            final(self)@ == old(self)@.add_record(*record, chunk),
    {
        self.update_bins(record, chunk);
        self.update_linear_index(record, chunk);
        self.update_metadata(record, chunk);
    }

    /// The fragment collected. Without a record it is the empty fragment,
    /// which has no metadata.
    pub fn build(self) -> (r: ReferenceSequence)
        requires
            self.wf(),
        ensures
            r@ == self@.build(),
            r@.intervals.len() == MAX_INTERVAL_COUNT,
    {
        if self.bin_builders.is_empty() {
            return ReferenceSequence::default();
        }
        let ghost views = self@.bins;
        let mut bins: Vec<Bin> = Vec::new();
        for builder in it: self.bin_builders
            invariant
                it.seq().map_values(|b: bin::Builder| b@) == views,
                bins@.map_values(|b: Bin| b@) == views.take(it.index() as int),
        {
            let ghost before = bins@;
            bins.push(builder.build());
            assert(bins@.map_values(|b: Bin| b@) =~= views.take(it.index() as int + 1)) by {
                assert(bins@ == before.push(bins@.last()));
                assert(views.take(it.index() as int + 1) =~= views.take(it.index() as int).push(
                    views[it.index() as int],
                ));
            }
        }
        assert(views.take(views.len() as int) =~= views);
        let metadata = Metadata::new(
            self.start_position,
            self.end_position,
            self.mapped_record_count,
            self.unmapped_record_count,
        );
        ReferenceSequence::new(bins, self.intervals, Some(metadata))
    }

    /// The number of bins.
    pub fn bin_count(&self) -> (r: usize)
        ensures
            r == self@.bins.len(),
    {
        self.bin_builders.len()
    }

    /// The linear index.
    pub fn intervals(&self) -> (r: &[VirtualPosition])
        ensures
            r@ == self@.intervals,
    {
        self.intervals.as_slice()
    }

    /// The smallest start of a chunk seen.
    pub fn start_position(&self) -> (r: VirtualPosition)
        ensures
            r == self@.start_position,
    {
        self.start_position
    }

    /// The largest end of a chunk seen.
    pub fn end_position(&self) -> (r: VirtualPosition)
        ensures
            r == self@.end_position,
    {
        self.end_position
    }

    /// The number of mapped records seen.
    pub fn mapped_record_count(&self) -> (r: u64)
        ensures
            r == self@.mapped_record_count,
    {
        self.mapped_record_count
    }

    /// The number of unmapped records seen.
    pub fn unmapped_record_count(&self) -> (r: u64)
        ensures
            r == self@.unmapped_record_count,
    {
        self.unmapped_record_count
    }

    /// Adds the chunk to the bin of the record, which is made where the
    /// record is the first of its bin.
    fn update_bins(&mut self, record: &Record, chunk: Chunk)
        requires
            old(self).wf(),
        ensures
            final(self).wf(),
            final(self)@ == old(self)@.update_bins(*record, chunk),
    {
        let bin_id: u32 = record.bin() as u32;
        let ghost bins = self@.bins;
        broadcast use group_hash_axioms;

        let found: Option<usize> = match self.bin_indices.get(&bin_id) {
            Some(i) => Some(*i),
            None => None,
        };
        if let Some(i) = found {
            assert(bins[i as int].id == bin_id);
            assert(bin_index(bins, bin_id) == i);
            self.bin_builders[i].add_chunk(chunk);
            assert(self@.bins =~= bins.update(
                i as int,
                BinView { id: bin_id, chunks: bins[i as int].chunks.push(chunk) },
            ));
        } else {
            assert(!has_bin(bins, bin_id));
            let mut builder = Bin::builder();
            builder.set_id(bin_id);
            builder.add_chunk(chunk);
            self.bin_indices.insert(bin_id, self.bin_builders.len());
            self.bin_builders.push(builder);
            assert(self@.bins =~= bins.push(BinView { id: bin_id, chunks: seq![chunk] }));
        }
    }

    /// Sets the windows that the record covers to the start of the chunk.
    fn update_linear_index(&mut self, record: &Record, chunk: Chunk)
        requires
            old(self).wf(),
        ensures
            final(self).wf(),
            final(self)@ == old(self)@.update_linear_index(*record, chunk),
    {
        let start: i64 = record.position() as i64;
        let reference_len: i64 = record.reference_len() as i64;
        let end: i64 = start + reference_len - 1;
        let window_size: i64 = WINDOW_SIZE as i64;

        let linear_index_start_offset: usize = if start >= 1 {
            ((start - 1) / window_size) as usize
        } else {
            0
        };
        let linear_index_end_offset: usize = if end >= 1 {
            ((end - 1) / window_size) as usize
        } else {
            0
        };

        let ghost first = window_of(record.spec_position() as int);
        let ghost last = window_of(record.spec_end());
        let ghost before = self@.intervals;
        let position: VirtualPosition = chunk.start();
        let mut i: usize = linear_index_start_offset;
        while i <= linear_index_end_offset
            invariant
                first == linear_index_start_offset,
                last == linear_index_end_offset,
                last < MAX_INTERVAL_COUNT,
                first <= i,
                i <= last + 1 || i == first,
                position == chunk.spec_start(),
                before.len() == MAX_INTERVAL_COUNT,
                self.intervals@.len() == before.len(),
                self.bin_builders == old(self).bin_builders,
                self.bin_indices == old(self).bin_indices,
                self.start_position == old(self).start_position,
                self.end_position == old(self).end_position,
                self.mapped_record_count == old(self).mapped_record_count,
                self.unmapped_record_count == old(self).unmapped_record_count,
                forall|j: int|
                    0 <= j < before.len() ==> self.intervals@[j] == if first <= j < i {
                        position
                    } else {
                        before[j]
                    },
            decreases linear_index_end_offset + 1 - i,
        {
            self.intervals[i] = position;
            i = i + 1;
        }
        assert(self@.intervals =~= old(self)@.update_linear_index(*record, chunk).intervals);
    }

    /// Counts the record and widens the span of virtual positions to that
    /// of the chunk.
    fn update_metadata(&mut self, record: &Record, chunk: Chunk)
        requires
            old(self).wf(),
            old(self)@.mapped_record_count < u64::MAX,
            old(self)@.unmapped_record_count < u64::MAX,
        ensures
            final(self).wf(),
            final(self)@ == old(self)@.update_metadata(*record, chunk),
    {
        if record.flags().is_unmapped() {
            self.unmapped_record_count = self.unmapped_record_count + 1;
        } else {
            self.mapped_record_count = self.mapped_record_count + 1;
        }
        let start: VirtualPosition = chunk.start();
        let end: VirtualPosition = chunk.end();
        if start < self.start_position {
            self.start_position = start;
        }
        if end > self.end_position {
            self.end_position = end;
        }
    }
}

impl Default for Builder {
    /// A builder that has seen no record.
    fn default() -> (r: Builder)
        ensures
            r.wf(),
            r@ == BuilderState::initial(),
    {
        broadcast use group_hash_axioms;

        let r = Builder {
            bin_builders: Vec::new(),
            bin_indices: HashMap::new(),
            intervals: empty_intervals(),
            start_position: VirtualPosition::max(),
            end_position: VirtualPosition::default(),
            mapped_record_count: 0,
            unmapped_record_count: 0,
        };
        assert(r@.bins =~= Seq::empty());
        r
    }
}

/// A builder without records builds the empty fragment: no bin, every
/// window of the linear index at the default position, no metadata.
pub proof fn lemma_build_without_records()
    ensures
        BuilderState::initial().wf(),
        BuilderState::initial().build() == ReferenceSequenceView::empty(),
        BuilderState::after(Seq::empty()) == BuilderState::initial(),
{
}

/// Adding a record keeps the state well formed, and leaves it with a bin of
/// the id of the record.
pub proof fn lemma_add_record_keeps_wf(state: BuilderState, record: Record, chunk: Chunk)
    requires
        state.wf(),
    ensures
        state.add_record(record, chunk).wf(),
        has_bin(state.add_record(record, chunk).bins, record.spec_bin() as u32),
        state.add_record(record, chunk).bins.len() > 0,
{
    let id = record.spec_bin() as u32;
    let bins = state.update_bins(record, chunk).bins;
    if has_bin(state.bins, id) {
        let i = bin_index(state.bins, id);
        assert(bins[i].id == id);
    } else {
        assert(bins[state.bins.len() as int].id == id);
    }
}

/// Adding a record to a builder that has seen `records` leaves it as a
/// builder that has seen `records` and then the record.
pub proof fn lemma_after_push(records: Seq<(Record, Chunk)>, record: Record, chunk: Chunk)
    ensures
        BuilderState::after(records.push((record, chunk))) == BuilderState::after(
            records,
        ).add_record(record, chunk),
{
    assert(records.push((record, chunk)).drop_last() =~= records);
}

/// Whatever records were added, in whatever order, the state is well
/// formed and every one of them was counted once, as mapped or as unmapped.
pub proof fn lemma_after_is_wf(records: Seq<(Record, Chunk)>)
    ensures
        BuilderState::after(records).wf(),
        BuilderState::after(records).mapped_record_count + BuilderState::after(
            records,
        ).unmapped_record_count == records.len(),
        records.len() > 0 ==> BuilderState::after(records).bins.len() > 0,
    decreases records.len(),
{
    if records.len() > 0 {
        lemma_after_is_wf(records.drop_last());
        lemma_add_record_keeps_wf(
            BuilderState::after(records.drop_last()),
            records.last().0,
            records.last().1,
        );
    }
}

/// The start collected is the minimum of the starts of all chunks seen and
/// the end the maximum of their ends: no chunk starts before the one or ends
/// behind the other, and some chunk starts at the one and some chunk ends at
/// the other. Without a chunk the start is the largest position and the end
/// the default one.
pub proof fn lemma_metadata_is_min_and_max(records: Seq<(Record, Chunk)>)
    ensures
        forall|i: int|
            0 <= i < records.len() ==> BuilderState::after(records).start_position@ <= (
            #[trigger] records[i]).1.spec_start()@,
        forall|i: int|
            0 <= i < records.len() ==> (#[trigger] records[i]).1.spec_end()@ <= BuilderState::after(
                records,
            ).end_position@,
        records.len() > 0 ==> exists|i: int|
            0 <= i < records.len() && BuilderState::after(records).start_position == (
            #[trigger] records[i]).1.spec_start(),
        records.len() > 0 ==> exists|i: int|
            0 <= i < records.len() && BuilderState::after(records).end_position == (
            #[trigger] records[i]).1.spec_end(),
        records.len() == 0 ==> BuilderState::after(records).start_position
            == VirtualPosition::spec_max() && BuilderState::after(records).end_position
            == VirtualPosition::spec_default(),
    decreases records.len(),
{
    if records.len() > 0 {
        let earlier = records.drop_last();
        let before = BuilderState::after(earlier);
        let now = BuilderState::after(records);
        let chunk = records.last().1;
        let last = records.len() - 1;
        lemma_metadata_is_min_and_max(earlier);
        VirtualPosition::lemma_view(chunk.spec_start());
        VirtualPosition::lemma_view(chunk.spec_end());
        VirtualPosition::lemma_from_raw(u64::MAX);
        VirtualPosition::lemma_from_raw(0);
        assert forall|i: int| 0 <= i < records.len() implies now.start_position@ <= (
        #[trigger] records[i]).1.spec_start()@ && records[i].1.spec_end()@ <= now.end_position@ by {
            if i < last {
                assert(records[i] == earlier[i]);
            }
        }
        if now.start_position == before.start_position && chunk.spec_start()@
            != now.start_position@ {
            let i = choose|i: int|
                0 <= i < earlier.len() && before.start_position == (#[trigger] earlier[i]).1.spec_start();
            assert(records[i] == earlier[i]);
        } else {
            lemma_equal_by_view(chunk.spec_start(), now.start_position);
            assert(now.start_position == records[last].1.spec_start());
        }
        if now.end_position == before.end_position && chunk.spec_end()@ != now.end_position@ {
            let i = choose|i: int|
                0 <= i < earlier.len() && before.end_position == (#[trigger] earlier[i]).1.spec_end();
            assert(records[i] == earlier[i]);
        } else {
            lemma_equal_by_view(chunk.spec_end(), now.end_position);
            assert(now.end_position == records[last].1.spec_end());
        }
    }
}

/// The start and the end collected do not depend on the order in which the
/// records were added: two sequences of the same records give the same.
pub proof fn lemma_metadata_ignores_order(a: Seq<(Record, Chunk)>, b: Seq<(Record, Chunk)>)
    requires
        a.to_multiset() == b.to_multiset(),
    ensures
        BuilderState::after(a).start_position == BuilderState::after(b).start_position,
        BuilderState::after(a).end_position == BuilderState::after(b).end_position,
{
    a.to_multiset_ensures();
    b.to_multiset_ensures();
    lemma_metadata_is_min_and_max(a);
    lemma_metadata_is_min_and_max(b);
    let sa = BuilderState::after(a);
    let sb = BuilderState::after(b);
    if a.len() > 0 {
        let i = choose|i: int| 0 <= i < a.len() && sa.start_position == (#[trigger] a[i]).1.spec_start();
        lemma_bounds_of_member(b, a, i);
        let j = choose|j: int| 0 <= j < b.len() && sb.start_position == (#[trigger] b[j]).1.spec_start();
        lemma_bounds_of_member(a, b, j);
        let k = choose|k: int| 0 <= k < a.len() && sa.end_position == (#[trigger] a[k]).1.spec_end();
        lemma_bounds_of_member(b, a, k);
        let l = choose|l: int| 0 <= l < b.len() && sb.end_position == (#[trigger] b[l]).1.spec_end();
        lemma_bounds_of_member(a, b, l);
        lemma_equal_by_view(sa.start_position, sb.start_position);
        lemma_equal_by_view(sa.end_position, sb.end_position);
    }
}

/// A record of `other` that is also one of `records` lies within the start
/// and the end collected from `records`.
proof fn lemma_bounds_of_member(
    records: Seq<(Record, Chunk)>,
    other: Seq<(Record, Chunk)>,
    i: int,
)
    requires
        records.to_multiset() == other.to_multiset(),
        0 <= i < other.len(),
    ensures
        BuilderState::after(records).start_position@ <= other[i].1.spec_start()@,
        other[i].1.spec_end()@ <= BuilderState::after(records).end_position@,
{
    lemma_metadata_is_min_and_max(records);
    to_multiset_contains(other, other[i]);
    to_multiset_contains(records, other[i]);
    assert(other.contains(other[i]));
    let j = choose|j: int| 0 <= j < records.len() && records[j] == other[i];
    assert(records[j].1 == other[i].1);
}

/// Whether a record covers the window `i` of the linear index: the window
/// lies between that of its first base and that of its last.
pub open spec fn covers(record: Record, i: int) -> bool {
    window_of(record.spec_position() as int) <= i <= window_of(record.spec_end())
}

/// The chunks of the records of `records` that fall in the bin `id`, in the
/// order of the records.
pub open spec fn chunks_of_bin(records: Seq<(Record, Chunk)>, id: u32) -> Seq<Chunk>
    decreases records.len(),
{
    if records.len() == 0 {
        Seq::empty()
    } else if records.last().0.spec_bin() as u32 == id {
        chunks_of_bin(records.drop_last(), id).push(records.last().1)
    } else {
        chunks_of_bin(records.drop_last(), id)
    }
}

/// The ids of the bins of the records of `records`, each once, in the order
/// in which they are first met.
pub open spec fn bins_first_seen(records: Seq<(Record, Chunk)>) -> Seq<u32>
    decreases records.len(),
{
    if records.len() == 0 {
        Seq::empty()
    } else if bins_first_seen(records.drop_last()).contains(records.last().0.spec_bin() as u32) {
        bins_first_seen(records.drop_last())
    } else {
        bins_first_seen(records.drop_last()).push(records.last().0.spec_bin() as u32)
    }
}

/// Among bins of distinct ids, the bin of an id is found at the one place
/// where it stands.
pub proof fn lemma_bin_index_is_unique(bins: Seq<BinView>, id: u32, k: int)
    requires
        distinct_ids(bins),
        0 <= k < bins.len(),
        bins[k].id == id,
    ensures
        has_bin(bins, id),
        bin_index(bins, id) == k,
{
    let i = bin_index(bins, id);
    assert(bins[i].id == id);
    if i < k {
        assert(bins[i].id != bins[k].id);
    } else if k < i {
        assert(bins[k].id != bins[i].id);
    }
}

/// The linear index is the work of the last writer: a window that no record
/// covers is at the default position, and a window that records cover is at
/// the start of the chunk of the last of them, whatever the starts of the
/// others.
pub proof fn lemma_linear_index_last_writer_wins(records: Seq<(Record, Chunk)>, i: int)
    requires
        0 <= i < MAX_INTERVAL_COUNT,
    ensures
        BuilderState::after(records).intervals.len() == MAX_INTERVAL_COUNT,
        (forall|j: int| 0 <= j < records.len() ==> !covers((#[trigger] records[j]).0, i))
            ==> BuilderState::after(records).intervals[i] == VirtualPosition::spec_default(),
        forall|j: int|
            0 <= j < records.len() && covers((#[trigger] records[j]).0, i) && (forall|k: int|
                j < k < records.len() ==> !covers((#[trigger] records[k]).0, i))
                ==> BuilderState::after(records).intervals[i] == records[j].1.spec_start(),
    decreases records.len(),
{
    lemma_after_is_wf(records);
    if records.len() > 0 {
        let earlier = records.drop_last();
        let last = records.len() - 1;
        lemma_after_is_wf(earlier);
        lemma_linear_index_last_writer_wins(earlier, i);
        assert forall|j: int| 0 <= j < earlier.len() implies earlier[j] == records[j] by {}
        if covers(records[last].0, i) {
            assert forall|j: int|
                0 <= j < records.len() && covers((#[trigger] records[j]).0, i) && (forall|k: int|
                    j < k < records.len() ==> !covers((#[trigger] records[k]).0, i)) implies j
                == last by {
                if j < last {
                    assert(covers(records[last].0, i));
                }
            }
        } else {
            if forall|j: int| 0 <= j < records.len() ==> !covers((#[trigger] records[j]).0, i) {
                assert forall|j: int| 0 <= j < earlier.len() implies !covers(
                    (#[trigger] earlier[j]).0,
                    i,
                ) by {
                    assert(earlier[j] == records[j]);
                }
            }
            assert forall|j: int|
                0 <= j < records.len() && covers((#[trigger] records[j]).0, i) && (forall|k: int|
                    j < k < records.len() ==> !covers(
                        (#[trigger] records[k]).0,
                        i,
                    )) implies BuilderState::after(records).intervals[i]
                == records[j].1.spec_start() by {
                assert(j < last);
                assert(earlier[j] == records[j]);
                assert forall|k: int| j < k < earlier.len() implies !covers(
                    (#[trigger] earlier[k]).0,
                    i,
                ) by {
                    assert(earlier[k] == records[k]);
                }
            }
        }
    }
}

/// A bin holds the chunks of the records that fall in it, all of them and
/// in the order in which they were added, none merged; and there is a bin
/// for an id exactly when a record falls in it.
pub proof fn lemma_bins_hold_their_chunks(records: Seq<(Record, Chunk)>, id: u32)
    ensures
        has_bin(BuilderState::after(records).bins, id) <==> chunks_of_bin(records, id).len() > 0,
        has_bin(BuilderState::after(records).bins, id) ==> BuilderState::after(
            records,
        ).bins[bin_index(BuilderState::after(records).bins, id)] == (BinView {
            id,
            chunks: chunks_of_bin(records, id),
        }),
    decreases records.len(),
{
    if records.len() > 0 {
        let earlier = records.drop_last();
        let before = BuilderState::after(earlier);
        let now = BuilderState::after(records);
        let record = records.last().0;
        let chunk = records.last().1;
        let rid = record.spec_bin() as u32;
        lemma_after_is_wf(earlier);
        lemma_after_is_wf(records);
        lemma_bins_hold_their_chunks(earlier, id);
        assert(now.bins == before.update_bins(record, chunk).bins);
        if has_bin(before.bins, rid) {
            let i = bin_index(before.bins, rid);
            assert(before.bins[i].id == rid);
            assert(now.bins[i].id == rid);
            if id == rid {
                lemma_bin_index_is_unique(now.bins, id, i);
            } else if has_bin(before.bins, id) {
                let k = bin_index(before.bins, id);
                assert(before.bins[k].id == id);
                assert(now.bins[k] == before.bins[k]);
                lemma_bin_index_is_unique(now.bins, id, k);
            } else if has_bin(now.bins, id) {
                let k = bin_index(now.bins, id);
                assert(now.bins[k].id == id);
                assert(before.bins[k].id == id);
            }
        } else {
            let n = before.bins.len() as int;
            assert(now.bins[n].id == rid);
            if id == rid {
                lemma_bin_index_is_unique(now.bins, id, n);
                assert(chunks_of_bin(earlier, id) =~= Seq::<Chunk>::empty());
                assert(chunks_of_bin(records, id) =~= seq![chunk]);
            } else if has_bin(before.bins, id) {
                let k = bin_index(before.bins, id);
                assert(before.bins[k].id == id);
                assert(now.bins[k] == before.bins[k]);
                lemma_bin_index_is_unique(now.bins, id, k);
            } else if has_bin(now.bins, id) {
                let k = bin_index(now.bins, id);
                assert(now.bins[k].id == id);
                assert(before.bins[k].id == id);
            }
        }
    } else {
        assert(!has_bin(BuilderState::after(records).bins, id));
    }
}

/// The bins stand in the order in which the records first met their ids.
pub proof fn lemma_bins_stand_as_first_seen(records: Seq<(Record, Chunk)>)
    ensures
        BuilderState::after(records).bins.map_values(|b: BinView| b.id) == bins_first_seen(records),
    decreases records.len(),
{
    let ids = BuilderState::after(records).bins.map_values(|b: BinView| b.id);
    if records.len() > 0 {
        let earlier = records.drop_last();
        let before = BuilderState::after(earlier);
        let now = BuilderState::after(records);
        let record = records.last().0;
        let chunk = records.last().1;
        let rid = record.spec_bin() as u32;
        let ids_before = before.bins.map_values(|b: BinView| b.id);
        lemma_bins_stand_as_first_seen(earlier);
        assert(now.bins == before.update_bins(record, chunk).bins);
        if has_bin(before.bins, rid) {
            let i = bin_index(before.bins, rid);
            assert(before.bins[i].id == rid);
            assert(ids_before[i] == rid);
            assert(ids =~= ids_before);
        } else {
            if ids_before.contains(rid) {
                let k = choose|k: int| 0 <= k < ids_before.len() && ids_before[k] == rid;
                assert(before.bins[k].id == rid);
            }
            assert(ids =~= ids_before.push(rid));
        }
    } else {
        assert(ids =~= Seq::<u32>::empty());
    }
}

} // verus!
