//! A bin of the index: the chunks of the records that fall in one interval
//! of the binning scheme.

pub mod builder;
pub mod chunk;

pub use self::builder::Builder;
pub use self::chunk::Chunk;

use vstd::prelude::*;

verus! {

/// What a bin holds: its id and its chunks, in the order in which they were
/// added.
pub ghost struct BinView {
    /// The id of the bin in the binning scheme.
    pub id: u32,
    /// The chunks.
    pub chunks: Seq<Chunk>,
}

/// A bin with its chunks.
#[derive(Clone, Debug, PartialEq, Eq)]
pub struct Bin {
    id: u32,
    chunks: Vec<Chunk>,
}

impl View for Bin {
    type V = BinView;

    closed spec fn view(&self) -> BinView {
        BinView { id: self.id, chunks: self.chunks@ }
    }
}

impl Bin {
    /// A builder of a bin, with id 0 and no chunk.
    pub fn builder() -> (r: Builder)
        ensures
            r@ == (BinView { id: 0, chunks: Seq::empty() }),
    {
        Builder::default()
    }

    /// The bin with the given id and chunks.
    pub fn new(id: u32, chunks: Vec<Chunk>) -> (r: Bin)
        ensures
            r@ == (BinView { id, chunks: chunks@ }),
    {
        Bin { id, chunks }
    }

    /// The id of the bin.
    pub fn id(&self) -> (r: u32)
        ensures
            r == self@.id,
    {
        self.id
    }

    /// The chunks of the bin, in the order in which they were added.
    pub fn chunks(&self) -> (r: &[Chunk])
        ensures
            r@ == self@.chunks,
    {
        self.chunks.as_slice()
    }
}

} // verus!
