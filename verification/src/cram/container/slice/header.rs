//! The header of a slice.

use crate::cram::container::ReferenceSequenceId;
use vstd::prelude::*;

verus! {

/// What the header of a slice holds.
pub ghost struct HeaderView {
    /// The reference sequence of the records.
    pub reference_sequence_id: ReferenceSequenceId,
    /// The position at which the first alignment starts.
    pub alignment_start: i32,
    /// The number of bases that the alignments span.
    pub alignment_span: i32,
    /// The number of records.
    pub record_count: i32,
    /// The number of records of the file before the first of the slice.
    pub record_counter: i64,
    /// The number of blocks.
    pub block_count: i32,
    /// The content ids of the blocks.
    pub block_content_ids: Seq<i32>,
    /// The content id of the block that holds the bases of the reference.
    pub embedded_reference_bases_block_content_id: i32,
    /// The checksum of the bases of the reference that the slice spans.
    pub reference_md5: Seq<u8>,
    /// The optional tags.
    pub optional_tags: Seq<u8>,
}

/// The header of a slice.
#[derive(Clone, Debug, PartialEq, Eq)]
pub struct Header {
    reference_sequence_id: ReferenceSequenceId,
    alignment_start: i32,
    alignment_span: i32,
    record_count: i32,
    record_counter: i64,
    block_count: i32,
    block_content_ids: Vec<i32>,
    embedded_reference_bases_block_content_id: i32,
    reference_md5: [u8; 16],
    optional_tags: Vec<u8>,
}

impl View for Header {
    type V = HeaderView;

    closed spec fn view(&self) -> HeaderView {
        HeaderView {
            reference_sequence_id: self.reference_sequence_id,
            alignment_start: self.alignment_start,
            alignment_span: self.alignment_span,
            record_count: self.record_count,
            record_counter: self.record_counter,
            block_count: self.block_count,
            block_content_ids: self.block_content_ids@,
            embedded_reference_bases_block_content_id: self.embedded_reference_bases_block_content_id,
            reference_md5: self.reference_md5@,
            optional_tags: self.optional_tags@,
        }
    }
}

impl Header {
    /// The header of these values.
    pub fn new(
        reference_sequence_id: ReferenceSequenceId,
        alignment_start: i32,
        alignment_span: i32,
        record_count: i32,
        record_counter: i64,
        block_count: i32,
        block_content_ids: Vec<i32>,
        embedded_reference_bases_block_content_id: i32,
        reference_md5: [u8; 16],
        optional_tags: Vec<u8>,
    ) -> (r: Header)
        ensures
            r@ == (HeaderView {
                reference_sequence_id,
                alignment_start,
                alignment_span,
                record_count,
                record_counter,
                block_count,
                block_content_ids: block_content_ids@,
                embedded_reference_bases_block_content_id,
                reference_md5: reference_md5@,
                optional_tags: optional_tags@,
            }),
    {
        Header {
            reference_sequence_id,
            alignment_start,
            alignment_span,
            record_count,
            record_counter,
            block_count,
            block_content_ids,
            embedded_reference_bases_block_content_id,
            reference_md5,
            optional_tags,
        }
    }

    /// The reference sequence of the records.
    pub fn reference_sequence_id(&self) -> (r: ReferenceSequenceId)
        ensures
            r == self@.reference_sequence_id,
    {
        self.reference_sequence_id
    }

    /// The position at which the first alignment starts.
    pub fn alignment_start(&self) -> (r: i32)
        ensures
            r == self@.alignment_start,
    {
        self.alignment_start
    }

    /// The number of bases that the alignments span.
    pub fn alignment_span(&self) -> (r: i32)
        ensures
            r == self@.alignment_span,
    {
        self.alignment_span
    }

    /// The number of records.
    pub fn record_count(&self) -> (r: i32)
        ensures
            r == self@.record_count,
    {
        self.record_count
    }

    /// The number of records of the file before the first of the slice.
    pub fn record_counter(&self) -> (r: i64)
        ensures
            r == self@.record_counter,
    {
        self.record_counter
    }

    /// The number of blocks.
    pub fn block_count(&self) -> (r: i32)
        ensures
            r == self@.block_count,
    {
        self.block_count
    }

    /// The content ids of the blocks.
    pub fn block_content_ids(&self) -> (r: &[i32])
        ensures
            r@ == self@.block_content_ids,
    {
        self.block_content_ids.as_slice()
    }

    /// The content id of the block that holds the bases of the reference.
    pub fn embedded_reference_bases_block_content_id(&self) -> (r: i32)
        ensures
            r == self@.embedded_reference_bases_block_content_id,
    {
        self.embedded_reference_bases_block_content_id
    }

    /// The checksum of the bases of the reference that the slice spans.
    pub fn reference_md5(&self) -> (r: [u8; 16])
        ensures
            r@ == self@.reference_md5,
    {
        self.reference_md5
    }

    /// The optional tags.
    pub fn optional_tags(&self) -> (r: &[u8])
        ensures
            r@ == self@.optional_tags,
    {
        self.optional_tags.as_slice()
    }
}

} // verus!
