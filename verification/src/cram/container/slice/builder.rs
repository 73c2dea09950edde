//! The builder of a slice.

use super::header::HeaderView;
use super::{Header, Slice, SliceView};
use crate::cram::container::block::{Block, BlockView, CompressionMethod, ContentType};
use crate::cram::container::ReferenceSequenceId;
use crate::cram::Record;
use vstd::prelude::*;

verus! {

/// Collects the records of a slice. All of them are aligned to the one
/// reference sequence of the slice, or none is aligned.
#[derive(Debug)]
pub struct Builder {
    reference_sequence_id: ReferenceSequenceId,
    records: Vec<Record>,
}

/// Why a record was not added to a slice.
#[derive(Clone, Debug, Eq, PartialEq, Structural)]
pub enum AddRecordError {
    /// The record is not aligned to the reference sequence of the slice.
    ReferenceSequenceIdMismatch,
}

/// Why no slice was built.
#[derive(Clone, Copy, Debug, Eq, PartialEq, Structural)]
pub enum BuildError {
    /// The builder holds no record.
    NoRecords,
    /// A number of records, of blocks or of bytes is more than 32 signed
    /// bits can count.
    TooLarge,
}

/// The content id of the block of the core data series.
pub const CORE_DATA_BLOCK_CONTENT_ID: i32 = 0;

/// The data of one external data series: the content id of its block, and
/// the bytes written to it.
#[derive(Debug, PartialEq, Eq)]
pub struct ExternalData {
    /// The content id of the block.
    pub block_content_id: i32,
    /// The bytes.
    pub data: Vec<u8>,
}

/// The content id and the bytes of each of `external`.
pub open spec fn external_view(external: Seq<ExternalData>) -> Seq<(i32, Seq<u8>)> {
    external.map_values(|e: ExternalData| (e.block_content_id, e.data@))
}

/// The block of uncompressed data of the given type and content id.
pub open spec fn uncompressed_block(content_type: ContentType, content_id: i32, data: Seq<u8>) -> BlockView {
    BlockView {
        compression_method: CompressionMethod::Uncompressed,
        content_type,
        content_id,
        uncompressed_len: data.len() as i32,
        data,
        crc32: 0,
    }
}

/// Whether the numbers that the header and the blocks of a slice hold can
/// be counted in 32 signed bits: the records, the blocks, and the bytes of
/// each block.
pub open spec fn fits(records: Seq<Record>, core_data: Seq<u8>, external: Seq<(i32, Seq<u8>)>) -> bool {
    &&& records.len() <= i32::MAX
    &&& core_data.len() <= i32::MAX
    &&& external.len() + 1 <= i32::MAX
    &&& forall|i: int| 0 <= i < external.len() ==> (#[trigger] external[i]).1.len() <= i32::MAX
}

/// The slice of the given records and data: a header, a core data block and
/// one external block for each of `external`, in their order. The header
/// counts the records and the blocks and lists the content ids, that of the
/// core data block first.
pub open spec fn slice_of(
    reference_sequence_id: ReferenceSequenceId,
    records: Seq<Record>,
    core_data: Seq<u8>,
    external: Seq<(i32, Seq<u8>)>,
) -> SliceView {
    SliceView {
        header: HeaderView {
            reference_sequence_id,
            alignment_start: 1,
            alignment_span: 0,
            record_count: records.len() as i32,
            record_counter: 0,
            block_count: (external.len() + 1) as i32,
            block_content_ids: seq![CORE_DATA_BLOCK_CONTENT_ID] + external.map_values(
                |e: (i32, Seq<u8>)| e.0,
            ),
            embedded_reference_bases_block_content_id: 0,
            reference_md5: Seq::new(16, |i: int| 0u8),
            optional_tags: Seq::empty(),
        },
        core_data_block: uncompressed_block(
            ContentType::CoreData,
            CORE_DATA_BLOCK_CONTENT_ID,
            core_data,
        ),
        external_blocks: external.map_values(
            |e: (i32, Seq<u8>)| uncompressed_block(ContentType::ExternalData, e.0, e.1),
        ),
    }
}

/// Whether a record that is aligned to `record` (to no reference sequence
/// for `None`) belongs in a slice of `slice`.
pub open spec fn accepts(slice: ReferenceSequenceId, record: Option<i32>) -> bool {
    match slice {
        ReferenceSequenceId::Unmapped => record is None,
        ReferenceSequenceId::Single(id) => record == Some(id),
        ReferenceSequenceId::Many => false,
    }
}

impl Builder {
    /// The reference sequence of the slice.
    pub closed spec fn spec_reference_sequence_id(&self) -> ReferenceSequenceId {
        self.reference_sequence_id
    }

    /// The records added, in the order in which they were added.
    pub closed spec fn spec_records(&self) -> Seq<Record> {
        self.records@
    }

    /// A builder of a slice for the given reference sequence, without
    /// records.
    pub fn new(reference_sequence_id: ReferenceSequenceId) -> (r: Builder)
        ensures
            r.spec_reference_sequence_id() == reference_sequence_id,
            r.spec_records() == Seq::<Record>::empty(),
    {
        Builder { reference_sequence_id, records: Vec::new() }
    }

    /// The reference sequence of the slice.
    pub fn reference_sequence_id(&self) -> (r: ReferenceSequenceId)
        ensures
            r == self.spec_reference_sequence_id(),
    {
        self.reference_sequence_id
    }

    /// The records added, in the order in which they were added.
    pub fn records(&self) -> (r: &[Record])
        ensures
            r@ == self.spec_records(),
    {
        self.records.as_slice()
    }

    /// Adds a record behind those added before and returns it, where it is
    /// aligned as the slice asks; else the builder stays as it is.
    pub fn add_record(&mut self, record: Record) -> (r: Result<&Record, AddRecordError>)
        requires
            old(self).spec_reference_sequence_id() != ReferenceSequenceId::Many,
        ensures
            final(self).spec_reference_sequence_id() == old(self).spec_reference_sequence_id(),
            accepts(old(self).spec_reference_sequence_id(), record.spec_reference_sequence_id())
                ==> r == Ok::<&Record, AddRecordError>(&record) && final(self).spec_records() == old(
                self,
            ).spec_records().push(record),
            !accepts(old(self).spec_reference_sequence_id(), record.spec_reference_sequence_id())
                ==> r == Err::<&Record, AddRecordError>(AddRecordError::ReferenceSequenceIdMismatch)
                && final(self).spec_records() == old(self).spec_records(),
    {
        let record_reference_sequence_id: Option<i32> = record.reference_sequence_id();

        let accepted: bool = match self.reference_sequence_id {
            ReferenceSequenceId::Unmapped => match record_reference_sequence_id {
                Some(_) => false,
                None => true,
            },
            ReferenceSequenceId::Single(slice_reference_sequence_id) => {
                match record_reference_sequence_id {
                    Some(id) => slice_reference_sequence_id == id,
                    None => false,
                }
            },
            ReferenceSequenceId::Many => false,
        };

        if accepted {
            self.records.push(record);
            let n: usize = self.records.len();
            Ok(&self.records[n - 1])
        } else {
            Err(AddRecordError::ReferenceSequenceIdMismatch)
        }
    }

    /// The slice of the records added, from the data that writing them gave:
    /// the bits of the core data series, and the bytes of each external data
    /// series with the content id of its block. A builder without records
    /// builds nothing.
    pub fn build(self, core_data: Vec<u8>, external_data: Vec<ExternalData>) -> (r: Result<
        Slice,
        BuildError,
    >)
        ensures
            self.spec_records().len() == 0 ==> r == Err::<Slice, BuildError>(BuildError::NoRecords),
            self.spec_records().len() > 0 && !fits(
                self.spec_records(),
                core_data@,
                external_view(external_data@),
            ) ==> r == Err::<Slice, BuildError>(BuildError::TooLarge),
            self.spec_records().len() > 0 && fits(
                self.spec_records(),
                core_data@,
                external_view(external_data@),
            ) ==> r is Ok && r->Ok_0@ == slice_of(
                self.spec_reference_sequence_id(),
                self.spec_records(),
                core_data@,
                external_view(external_data@),
            ),
    {
        if self.records.len() == 0 {
            return Err(BuildError::NoRecords);
        }
        let ghost external = external_view(external_data@);
        let ghost core = core_data@;
        let limit: usize = i32::MAX as usize;
        if self.records.len() > limit || core_data.len() > limit || external_data.len() >= limit {
            return Err(BuildError::TooLarge);
        }
        let record_count: i32 = self.records.len() as i32;
        let block_count: i32 = (external_data.len() + 1) as i32;

        let core_data_block = Block::new(
            CompressionMethod::Uncompressed,
            ContentType::CoreData,
            CORE_DATA_BLOCK_CONTENT_ID,
            core_data.len() as i32,
            core_data,
            0,
        );

        let mut block_content_ids: Vec<i32> = Vec::new();
        block_content_ids.push(CORE_DATA_BLOCK_CONTENT_ID);
        let mut external_blocks: Vec<Block> = Vec::new();

        for e in it: external_data
            invariant
                limit == i32::MAX,
                self.spec_records().len() > 0,
                external_view(it.seq()) == external,
                forall|i: int| 0 <= i < it.index() ==> (#[trigger] external[i]).1.len() <= i32::MAX,
                block_content_ids@ == seq![CORE_DATA_BLOCK_CONTENT_ID] + external.take(
                    it.index() as int,
                ).map_values(|e: (i32, Seq<u8>)| e.0),
                external_blocks@.map_values(|b: Block| b@) == external.take(
                    it.index() as int,
                ).map_values(
                    |e: (i32, Seq<u8>)| uncompressed_block(ContentType::ExternalData, e.0, e.1),
                ),
        {
            let ghost k = it.index() as int;
            assert(external[k] == (e.block_content_id, e.data@));
            if e.data.len() > limit {
                assert(!fits(self.spec_records(), core, external));
                return Err(BuildError::TooLarge);
            }
            let ghost ids = block_content_ids@;
            let ghost blocks = external_blocks@;
            block_content_ids.push(e.block_content_id);
            external_blocks.push(
                Block::new(
                    CompressionMethod::Uncompressed,
                    ContentType::ExternalData,
                    e.block_content_id,
                    e.data.len() as i32,
                    e.data,
                    0,
                ),
            );
            assert(external.take(k + 1) =~= external.take(k).push(external[k]));
            assert(block_content_ids@ =~= seq![CORE_DATA_BLOCK_CONTENT_ID] + external.take(
                k + 1,
            ).map_values(|e: (i32, Seq<u8>)| e.0));
            assert(external_blocks@ == blocks.push(external_blocks@.last()));
            assert(external_blocks@.last()@ == uncompressed_block(
                ContentType::ExternalData,
                external[k].0,
                external[k].1,
            ));
            assert(external_blocks@.map_values(|b: Block| b@) =~= blocks.map_values(
                |b: Block| b@,
            ).push(external_blocks@.last()@));
            assert(external_blocks@.map_values(|b: Block| b@) =~= external.take(k + 1).map_values(
                |e: (i32, Seq<u8>)| uncompressed_block(ContentType::ExternalData, e.0, e.1),
            ));
        }
        assert(external.take(external.len() as int) =~= external);

        let reference_md5: [u8; 16] = [0u8; 16];
        assert(reference_md5@ =~= Seq::new(16, |i: int| 0u8));
        let header = Header::new(
            self.reference_sequence_id,
            1,
            0,
            record_count,
            0,
            block_count,
            block_content_ids,
            0,
            reference_md5,
            Vec::new(),
        );

        Ok(Slice::new(header, core_data_block, external_blocks))
    }
}

} // verus!
