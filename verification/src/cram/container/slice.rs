//! A slice: the records of one part of a container.

pub mod builder;
pub mod header;

pub use self::builder::Builder;
pub use self::header::Header;

use self::header::HeaderView;
use super::block::{Block, BlockView};
use vstd::prelude::*;

verus! {

/// What a slice holds.
pub ghost struct SliceView {
    /// The header.
    pub header: HeaderView,
    /// The block of the core data series.
    pub core_data_block: BlockView,
    /// The blocks of the external data series.
    pub external_blocks: Seq<BlockView>,
}

/// A slice: its header, the block of the core data series and the blocks of
/// the external data series.
#[derive(Clone, Debug, PartialEq, Eq)]
pub struct Slice {
    header: Header,
    core_data_block: Block,
    external_blocks: Vec<Block>,
}

impl View for Slice {
    type V = SliceView;

    closed spec fn view(&self) -> SliceView {
        SliceView {
            header: self.header@,
            core_data_block: self.core_data_block@,
            external_blocks: self.external_blocks@.map_values(|b: Block| b@),
        }
    }
}

impl Slice {
    /// The slice of these parts.
    pub fn new(header: Header, core_data_block: Block, external_blocks: Vec<Block>) -> (r: Slice)
        ensures
            r@ == (SliceView {
                header: header@,
                core_data_block: core_data_block@,
                external_blocks: external_blocks@.map_values(|b: Block| b@),
            }),
    {
        Slice { header, core_data_block, external_blocks }
    }

    /// The header.
    pub fn header(&self) -> (r: &Header)
        ensures
            r@ == self@.header,
    {
        &self.header
    }

    /// The block of the core data series.
    pub fn core_data_block(&self) -> (r: &Block)
        ensures
            r@ == self@.core_data_block,
    {
        &self.core_data_block
    }

    /// The blocks of the external data series.
    pub fn external_blocks(&self) -> (r: &[Block])
        ensures
            r@.map_values(|b: Block| b@) == self@.external_blocks,
    {
        self.external_blocks.as_slice()
    }
}

} // verus!
