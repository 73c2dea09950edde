//! One decompressed block and the cursor that reads it.

use super::virtual_position::VirtualPosition;
use vstd::prelude::*;

verus! {

/// The decompressed data of one block, the offset at which the block starts
/// in the compressed stream, and a cursor into the data.
///
/// The cursor may stand behind the end of the data: nothing is left to read
/// then.
#[derive(Debug)]
pub struct Block {
    position: u64,
    data: Vec<u8>,
    cursor: usize,
}

impl View for Block {
    type V = Seq<u8>;

    /// The decompressed data.
    closed spec fn view(&self) -> Seq<u8> {
        self.data@
    }
}

impl Block {
    /// The offset at which the block starts in the compressed stream.
    pub closed spec fn spec_position(&self) -> u64 {
        self.position
    }

    /// The offset into the data of the next byte to read.
    pub closed spec fn spec_cursor(&self) -> usize {
        self.cursor
    }

    /// The data from the cursor on.
    pub open spec fn remaining(&self) -> Seq<u8> {
        if self.spec_cursor() <= self@.len() {
            self@.skip(self.spec_cursor() as int)
        } else {
            Seq::empty()
        }
    }

    /// The virtual position of the next byte to read. Of a cursor that
    /// exceeds 16 bits the lower 16 are kept.
    pub open spec fn spec_virtual_position(&self) -> VirtualPosition {
        VirtualPosition::spec_new(self.spec_position(), (self.spec_cursor() % 0x1_0000) as u16)
    }

    /// A block with the given data that starts at `position`, the cursor at
    /// the first byte.
    pub fn new(position: u64, data: Vec<u8>) -> (r: Block)
        ensures
            r.spec_position() == position,
            r@ == data@,
            r.spec_cursor() == 0,
    {
        Block { position, data, cursor: 0 }
    }

    /// The offset at which the block starts in the compressed stream.
    pub fn position(&self) -> (r: u64)
        ensures
            r == self.spec_position(),
    {
        self.position
    }

    /// Records the offset at which the block starts in the compressed stream.
    pub fn set_position(&mut self, position: u64)
        ensures
            final(self).spec_position() == position,
            final(self)@ == old(self)@,
            final(self).spec_cursor() == old(self).spec_cursor(),
    {
        self.position = position;
    }

    /// The decompressed data.
    pub fn data(&self) -> (r: &[u8])
        ensures
            r@ == self@,
    {
        self.data.as_slice()
    }

    /// Replaces the data and puts the cursor at its first byte.
    pub fn set_data(&mut self, data: Vec<u8>)
        ensures
            final(self)@ == data@,
            final(self).spec_cursor() == 0,
            final(self).spec_position() == old(self).spec_position(),
    {
        self.data = data;
        self.cursor = 0;
    }

    /// The offset into the data of the next byte to read.
    pub fn cursor(&self) -> (r: usize)
        ensures
            r == self.spec_cursor(),
    {
        self.cursor
    }

    /// Moves the cursor to `cursor`, which may lie behind the end of the data.
    pub fn set_cursor(&mut self, cursor: usize)
        ensures
            final(self).spec_cursor() == cursor,
            final(self)@ == old(self)@,
            final(self).spec_position() == old(self).spec_position(),
    {
        self.cursor = cursor;
    }

    /// The virtual position of the next byte to read.
    pub fn virtual_position(&self) -> (r: VirtualPosition)
        ensures
            r == self.spec_virtual_position(),
    {
        let cursor: usize = self.cursor;
        let low: usize = cursor & 0xffff;
        assert(low == cursor % 0x1_0000) by (bit_vector)
            requires
                low == cursor & 0xffff,
        ;
        VirtualPosition::new(self.position, low as u16)
    }

    /// Copies bytes from the cursor on into `buf`, as many as are left and
    /// fit, moves the cursor behind them and returns their number.
    pub fn read(&mut self, buf: &mut [u8]) -> (n: usize)
        ensures
            n == if old(buf)@.len() <= old(self).remaining().len() {
                old(buf)@.len()
            } else {
                old(self).remaining().len()
            },
            final(buf)@ == old(self).remaining().take(n as int) + old(buf)@.skip(n as int),
            final(self)@ == old(self)@,
            final(self).spec_position() == old(self).spec_position(),
            final(self).spec_cursor() == old(self).spec_cursor() + n,
    {
        let left: usize = if self.cursor <= self.data.len() {
            self.data.len() - self.cursor
        } else {
            0
        };
        let n: usize = if buf.len() <= left {
            buf.len()
        } else {
            left
        };
        let mut i: usize = 0;
        while i < n
            invariant
                i <= n,
                n <= left,
                n <= buf@.len(),
                buf@.len() == old(buf)@.len(),
                left == old(self).remaining().len(),
                n > 0 ==> self.cursor + left == self.data.len(),
                self.data.len() <= usize::MAX,
                *self == *old(self),
                buf@ == old(self).remaining().take(i as int) + old(buf)@.skip(i as int),
            decreases n - i,
        {
            buf[i] = self.data[self.cursor + i];
            i = i + 1;
        }
        self.cursor = self.cursor + n;
        n
    }
}

impl Default for Block {
    /// An empty block at the start of the stream.
    fn default() -> (r: Block)
        ensures
            r.spec_position() == 0,
            r@ == Seq::<u8>::empty(),
            r.spec_cursor() == 0,
    {
        Block { position: 0, data: Vec::new(), cursor: 0 }
    }
}

} // verus!
