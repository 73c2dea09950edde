//! The builder of a bin.

use super::chunk::Chunk;
use super::{Bin, BinView};
use vstd::prelude::*;

verus! {

/// Collects the chunks of one bin.
#[derive(Debug)]
pub struct Builder {
    id: u32,
    chunks: Vec<Chunk>,
}

impl View for Builder {
    type V = BinView;

    /// The bin that `build` returns.
    closed spec fn view(&self) -> BinView {
        BinView { id: self.id, chunks: self.chunks@ }
    }
}

impl Builder {
    /// Sets the id of the bin.
    pub fn set_id(&mut self, id: u32)
        ensures
            final(self)@ == (BinView { id, chunks: old(self)@.chunks }),
    {
        self.id = id;
    }

    /// The id of the bin.
    pub fn id(&self) -> (r: u32)
        ensures
            r == self@.id,
    {
        self.id
    }

    /// Adds a chunk behind those added before. Chunks that overlap or touch
    /// are not merged.
    pub fn add_chunk(&mut self, chunk: Chunk)
        ensures
            final(self)@ == (BinView { id: old(self)@.id, chunks: old(self)@.chunks.push(chunk) }),
    {
        self.chunks.push(chunk);
    }

    /// The bin with the id set and the chunks added.
    pub fn build(self) -> (r: Bin)
        ensures
            r@ == self@,
    {
        Bin::new(self.id, self.chunks)
    }
}

impl Default for Builder {
    /// A builder with id 0 and no chunk.
    fn default() -> (r: Builder)
        ensures
            r@ == (BinView { id: 0, chunks: Seq::empty() }),
    {
        Builder { id: 0, chunks: Vec::new() }
    }
}

} // verus!
