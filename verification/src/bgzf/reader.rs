//! Decoding of framed blocks, and the reader that serves the decompressed
//! bytes of a stream of blocks.

use super::block::Block;
use super::gz;
use super::virtual_position::{lemma_offsets_roundtrip, VirtualPosition};
use super::BGZF_HEADER_SIZE;
use byteorder::{ByteOrder, LittleEndian};
use flate2::read::DeflateDecoder;
use std::io::Read;
use vstd::prelude::*;
use vstd::slice::slice_subrange;

verus! {

/// Why the bytes at an offset of a compressed stream are no block.
#[derive(Clone, Copy, Debug, PartialEq, Eq, Structural)]
pub enum ReadError {
    /// The stream ends inside the header.
    TruncatedHeader,
    /// The header declares a block too small to hold a header and a trailer.
    InvalidBlockSize,
    /// The stream ends inside the compressed payload.
    TruncatedPayload,
    /// The stream ends inside the trailer.
    TruncatedTrailer,
    /// The payload did not inflate.
    InvalidData,
    /// The stream ends where a block was to start.
    UnexpectedEof,
}

/// What a call of [`Reader::read`] did.
#[derive(Clone, Copy, Debug, PartialEq, Eq, Structural)]
pub enum Progress {
    /// So many bytes were copied into the buffer. None, for a buffer that has
    /// room, is the end of the stream.
    Done(usize),
    /// The block at hand was used up and the next one was loaded. No byte was
    /// copied: read again.
    NeedMore,
}

/// The unsigned 16-bit number that the first two bytes of `bytes` hold in
/// little-endian order.
pub open spec fn u16_le(bytes: Seq<u8>) -> int {
    bytes[0] as int + 0x100 * bytes[1] as int
}

/// What the decoder of `flate2` makes of the raw deflate stream `cdata`: the
/// data that it inflates to, or `None` where the decoder reports an error.
pub uninterp spec fn inflated(cdata: Seq<u8>) -> Option<Seq<u8>>;

/// What stands at an offset of a compressed stream.
pub ghost enum Frame {
    /// The stream ends at or before the offset.
    End,
    /// The bytes from the offset on are no block.
    Malformed(ReadError),
    /// A block of `size` bytes whose payload inflates to `data`.
    Block { size: int, data: Seq<u8> },
}

/// The size that the header at `offset` declares for its whole block.
pub open spec fn declared_size(src: Seq<u8>, offset: int) -> int {
    u16_le(src.subrange(offset + 16, offset + 18)) + 1
}

/// The compressed payload of the block at `offset`: what lies between its
/// header and its trailer.
pub open spec fn payload_at(src: Seq<u8>, offset: int) -> Seq<u8> {
    src.subrange(
        offset + BGZF_HEADER_SIZE,
        offset + declared_size(src, offset) - gz::TRAILER_SIZE,
    )
}

/// What stands at `offset` in `src`: the end of the stream, a block, or
/// bytes that are no block, with the first reason met in the order header,
/// payload, trailer, data.
pub open spec fn frame_at(src: Seq<u8>, offset: int) -> Frame {
    let size = declared_size(src, offset);
    if offset >= src.len() {
        Frame::End
    } else if src.len() - offset < BGZF_HEADER_SIZE {
        Frame::Malformed(ReadError::TruncatedHeader)
    } else if size < BGZF_HEADER_SIZE + gz::TRAILER_SIZE {
        Frame::Malformed(ReadError::InvalidBlockSize)
    } else if src.len() - offset < size - gz::TRAILER_SIZE {
        Frame::Malformed(ReadError::TruncatedPayload)
    } else if src.len() - offset < size {
        Frame::Malformed(ReadError::TruncatedTrailer)
    } else {
        match inflated(payload_at(src, offset)) {
            Some(data) => Frame::Block { size, data },
            None => Frame::Malformed(ReadError::InvalidData),
        }
    }
}

/// `byteorder::LittleEndian::read_u16`: the number that the first two bytes
/// of `buf` hold, the low byte first. It panics on fewer than two bytes.
#[verifier::external_body]
fn read_u16_le(buf: &[u8]) -> (r: u16)
    requires
        buf@.len() >= 2,
    ensures
        r == u16_le(buf@),
{
    LittleEndian::read_u16(buf)
}

/// `flate2::read::DeflateDecoder` over `cdata`, read to its end: the
/// inflated data, or `None` where the decoder reports an error.
#[verifier::external_body]
fn deflate_decode(cdata: &[u8]) -> (r: Option<Vec<u8>>)
    ensures
        match r {
            Some(data) => inflated(cdata@) == Some(data@),
            None => inflated(cdata@) is None,
        },
{
    let mut data = Vec::new();
    match DeflateDecoder::new(cdata).read_to_end(&mut data) {
        Ok(_) => Some(data),
        Err(_) => None,
    }
}

/// Reads the header of the block at `offset` and returns the size of the
/// whole block, or 0 where the stream ends at `offset`.
pub fn read_block_size(src: &[u8], offset: usize) -> (r: Result<usize, ReadError>)
    ensures
        offset >= src@.len() ==> r == Ok::<usize, ReadError>(0),
        offset < src@.len() && src@.len() - offset < BGZF_HEADER_SIZE ==> r == Err::<
            usize,
            ReadError,
        >(ReadError::TruncatedHeader),
        src@.len() - offset >= BGZF_HEADER_SIZE ==> r == Ok::<usize, ReadError>(
            declared_size(src@, offset as int) as usize,
        ) && 1 <= declared_size(src@, offset as int) <= 0x1_0000,
{
    if offset >= src.len() {
        return Ok(0);
    }
    if src.len() - offset < BGZF_HEADER_SIZE {
        return Err(ReadError::TruncatedHeader);
    }
    let bsize = slice_subrange(src, offset + 16, offset + 18);
    let size: u16 = read_u16_le(bsize);
    // BSIZE is the size of the whole block less one.
    Ok(size as usize + 1)
}

/// Consumes the trailer that starts at `offset`: all of it has to be there.
pub fn read_trailer(src: &[u8], offset: usize) -> (r: Result<(), ReadError>)
    ensures
        r is Ok <==> offset + gz::TRAILER_SIZE <= src@.len(),
        r is Err ==> r == Err::<(), ReadError>(ReadError::TruncatedTrailer),
{
    if offset <= src.len() && src.len() - offset >= gz::TRAILER_SIZE {
        Ok(())
    } else {
        Err(ReadError::TruncatedTrailer)
    }
}

/// Appends what the decoder made of a payload to `writer` and returns the
/// number of bytes appended; `None` is data that did not inflate.
pub fn store_inflated(decoded: Option<Vec<u8>>, writer: &mut Vec<u8>) -> (r: Result<
    usize,
    ReadError,
>)
    ensures
        match decoded {
            Some(data) => r == Ok::<usize, ReadError>(data@.len() as usize) && final(writer)@
                == old(writer)@ + data@,
            None => r == Err::<usize, ReadError>(ReadError::InvalidData) && final(writer)@ == old(
                writer,
            )@,
        },
{
    match decoded {
        Some(mut data) => {
            let n: usize = data.len();
            writer.append(&mut data);
            Ok(n)
        },
        None => Err(ReadError::InvalidData),
    }
}

/// Inflates the raw deflate stream `cdata`, appends the data to `writer` and
/// returns the number of bytes appended.
pub fn inflate_data(cdata: &[u8], writer: &mut Vec<u8>) -> (r: Result<usize, ReadError>)
    ensures
        match inflated(cdata@) {
            Some(data) => r == Ok::<usize, ReadError>(data.len() as usize) && final(writer)@
                == old(writer)@ + data,
            None => r == Err::<usize, ReadError>(ReadError::InvalidData) && final(writer)@ == old(
                writer,
            )@,
        },
{
    store_inflated(deflate_decode(cdata), writer)
}

/// Decodes the block that starts at `offset` in `src` into `block`: its data
/// replaces that of `block`, and the cursor goes to the first byte. Returns
/// the size of the whole block, so that `offset` plus the size is where the
/// next block starts, or 0 where the stream ends at `offset`. Where the
/// stream ends, or holds no block, `block` stays as it is.
pub fn read_block(src: &[u8], offset: usize, block: &mut Block) -> (r: Result<usize, ReadError>)
    ensures
        final(block).spec_position() == old(block).spec_position(),
        match frame_at(src@, offset as int) {
            Frame::End => r == Ok::<usize, ReadError>(0) && *final(block) == *old(block),
            Frame::Malformed(e) => r == Err::<usize, ReadError>(e) && *final(block) == *old(block),
            Frame::Block { size, data } => {
                &&& r == Ok::<usize, ReadError>(size as usize)
                &&& BGZF_HEADER_SIZE + gz::TRAILER_SIZE <= size <= 0x1_0000
                &&& offset + size <= src@.len() <= usize::MAX
                &&& final(block)@ == data
                &&& final(block).spec_cursor() == 0
            },
        },
{
    let block_size: usize = match read_block_size(src, offset) {
        Ok(0) => { return Ok(0); },
        Ok(bs) => bs,
        Err(e) => { return Err(e); },
    };
    if block_size < BGZF_HEADER_SIZE + gz::TRAILER_SIZE {
        return Err(ReadError::InvalidBlockSize);
    }
    let cdata_len: usize = block_size - BGZF_HEADER_SIZE - gz::TRAILER_SIZE;
    if src.len() - offset - BGZF_HEADER_SIZE < cdata_len {
        return Err(ReadError::TruncatedPayload);
    }
    let cdata = slice_subrange(src, offset + BGZF_HEADER_SIZE, offset + BGZF_HEADER_SIZE + cdata_len);
    match read_trailer(src, offset + BGZF_HEADER_SIZE + cdata_len) {
        Ok(()) => {},
        Err(e) => { return Err(e); },
    }
    let mut udata: Vec<u8> = Vec::new();
    match inflate_data(cdata, &mut udata) {
        Ok(_) => {},
        Err(e) => { return Err(e); },
    }
    block.set_data(udata);
    Ok(block_size)
}

/// What a reader holds: the compressed stream, how much of it was consumed,
/// and the block at hand with its cursor.
pub ghost struct ReaderState {
    /// The compressed stream.
    pub source: Seq<u8>,
    /// The number of compressed bytes consumed: the offset at which the next
    /// block starts.
    pub position: int,
    /// The offset at which the block at hand starts.
    pub block_position: int,
    /// The decompressed data of the block at hand.
    pub data: Seq<u8>,
    /// The offset into the data of the next byte to serve.
    pub cursor: int,
}

impl ReaderState {
    /// The state of a reader that has read nothing of `source`.
    pub open spec fn initial(source: Seq<u8>) -> ReaderState {
        ReaderState { source, position: 0, block_position: 0, data: Seq::empty(), cursor: 0 }
    }

    /// The data of the block at hand that was not served yet.
    pub open spec fn remaining(self) -> Seq<u8> {
        if 0 <= self.cursor <= self.data.len() {
            self.data.skip(self.cursor)
        } else {
            Seq::empty()
        }
    }

    /// The virtual position of the next byte to serve: where the block at
    /// hand starts, and the cursor into its data.
    pub open spec fn virtual_position(self) -> VirtualPosition {
        VirtualPosition::spec_new(self.block_position as u64, (self.cursor % 0x1_0000) as u16)
    }

    /// The state after the block at `offset`, of `size` bytes and with the
    /// given data, was loaded, with the cursor at `cursor`.
    pub open spec fn loaded(self, offset: int, size: int, data: Seq<u8>, cursor: int) -> ReaderState {
        ReaderState {
            source: self.source,
            position: offset + size,
            block_position: offset,
            data,
            cursor,
        }
    }

    /// A read into a buffer of `len` bytes: the state after it and what it
    /// returns. A buffer without room gets nothing and changes nothing. Else
    /// bytes of the block at hand are served, as many as are left and fit.
    /// Where none is left the next block is loaded and the caller is told to
    /// read again, unless the stream ends there or holds no block.
    pub open spec fn read(self, len: int) -> (ReaderState, Result<Progress, ReadError>) {
        let left = self.remaining().len() as int;
        let n = if len <= left {
            len
        } else {
            left
        };
        if n > 0 || len == 0 {
            (ReaderState { cursor: self.cursor + n, ..self }, Ok(Progress::Done(n as usize)))
        } else {
            match frame_at(self.source, self.position) {
                Frame::End => (self, Ok(Progress::Done(0))),
                Frame::Malformed(e) => (self, Err(e)),
                Frame::Block { size, data } => (
                    self.loaded(self.position, size, data, 0),
                    Ok(Progress::NeedMore),
                ),
            }
        }
    }

    /// A seek to `pos`: the state with the block at the compressed offset of
    /// `pos` loaded and the cursor at its uncompressed offset, or the reason
    /// for which no block starts there.
    pub open spec fn seek(self, pos: VirtualPosition) -> Result<ReaderState, ReadError> {
        match frame_at(self.source, pos.spec_compressed()) {
            Frame::End => Err(ReadError::UnexpectedEof),
            Frame::Malformed(e) => Err(e),
            Frame::Block { size, data } => Ok(
                self.loaded(pos.spec_compressed(), size, data, pos.spec_uncompressed()),
            ),
        }
    }
}

/// A reader of the decompressed bytes of a stream of blocks held in memory.
#[derive(Debug)]
pub struct Reader {
    inner: Vec<u8>,
    position: usize,
    block: Block,
}

impl View for Reader {
    type V = ReaderState;

    closed spec fn view(&self) -> ReaderState {
        ReaderState {
            source: self.inner@,
            position: self.position as int,
            block_position: self.block.spec_position() as int,
            data: self.block@,
            cursor: self.block.spec_cursor() as int,
        }
    }
}

impl Reader {
    /// A reader at the start of the compressed stream `inner`, with no block
    /// loaded.
    pub fn new(inner: Vec<u8>) -> (r: Reader)
        ensures
            r@ == ReaderState::initial(inner@),
    {
        Reader { inner, position: 0, block: Block::default() }
    }

    /// The compressed stream.
    pub fn get_ref(&self) -> (r: &[u8])
        ensures
            r@ == self@.source,
    {
        self.inner.as_slice()
    }

    /// The number of compressed bytes consumed so far.
    pub fn position(&self) -> (r: u64)
        ensures
            r == self@.position,
    {
        self.position as u64
    }

    /// The virtual position of the next byte that a read serves.
    pub fn virtual_position(&self) -> (r: VirtualPosition)
        ensures
            r == self@.virtual_position(),
    {
        self.block.virtual_position()
    }

    /// Loads the block at the compressed offset of `pos`, whatever was
    /// loaded before, and puts the cursor at the uncompressed offset of
    /// `pos`. Returns `pos`. Where no block starts at that offset the reader
    /// stays as it is.
    pub fn seek(&mut self, pos: VirtualPosition) -> (r: Result<VirtualPosition, ReadError>)
        ensures
            match old(self)@.seek(pos) {
                Ok(state) => r == Ok::<VirtualPosition, ReadError>(pos) && final(self)@ == state,
                Err(e) => r == Err::<VirtualPosition, ReadError>(e) && final(self)@ == old(self)@,
            },
    {
        let compressed_offset: u64 = pos.compressed();
        let uncompressed_offset: u16 = pos.uncompressed();
        if compressed_offset >= self.inner.len() as u64 {
            return Err(ReadError::UnexpectedEof);
        }
        let offset: usize = compressed_offset as usize;
        match read_block(self.inner.as_slice(), offset, &mut self.block) {
            Ok(bs) => {
                self.block.set_position(compressed_offset);
                self.block.set_cursor(uncompressed_offset as usize);
                self.position = offset + bs;
                Ok(pos)
            },
            Err(e) => Err(e),
        }
    }

    /// Copies decompressed bytes into `buf`, from the block at hand only.
    /// Where that block is used up, the call loads the next one, copies
    /// nothing and returns [`Progress::NeedMore`]: the next call serves the
    /// new block. `Done(0)` for a buffer with room is the end of the stream.
    /// On an error the reader stays as it is.
    pub fn read(&mut self, buf: &mut [u8]) -> (r: Result<Progress, ReadError>)
        ensures
            r == old(self)@.read(old(buf)@.len() as int).1,
            final(self)@ == old(self)@.read(old(buf)@.len() as int).0,
            final(buf)@.len() == old(buf)@.len(),
            match r {
                Ok(Progress::Done(n)) => final(buf)@ == old(self)@.remaining().take(n as int) + old(
                    buf,
                )@.skip(n as int),
                _ => final(buf)@ == old(buf)@,
            },
    {
        if buf.len() == 0 {
            return Ok(Progress::Done(0));
        }
        let n: usize = self.block.read(buf);
        if n > 0 {
            return Ok(Progress::Done(n));
        }
        match read_block(self.inner.as_slice(), self.position, &mut self.block) {
            Ok(0) => Ok(Progress::Done(0)),
            Ok(bs) => {
                self.block.set_position(self.position as u64);
                self.position = self.position + bs;
                Ok(Progress::NeedMore)
            },
            Err(e) => Err(e),
        }
    }
}

/// A header, a payload and a trailer laid end to end are a block, whatever
/// stands before and behind them, where the header declares their size:
/// decoding it gives what the payload inflates to, all of it and nothing
/// else, and the size of the three.
pub proof fn lemma_frame_of_parts(
    before: Seq<u8>,
    header: Seq<u8>,
    payload: Seq<u8>,
    trailer: Seq<u8>,
    behind: Seq<u8>,
)
    requires
        header.len() == BGZF_HEADER_SIZE,
        trailer.len() == gz::TRAILER_SIZE,
        u16_le(header.subrange(16, 18)) + 1 == header.len() + payload.len() + trailer.len(),
    ensures
        inflated(payload) matches Some(data) ==> frame_at(
            before + header + payload + trailer + behind,
            before.len() as int,
        ) == (Frame::Block { size: (header.len() + payload.len() + trailer.len()) as int, data }),
        inflated(payload) is None ==> frame_at(
            before + header + payload + trailer + behind,
            before.len() as int,
        ) == Frame::Malformed(ReadError::InvalidData),
{
    let src = before + header + payload + trailer + behind;
    let offset = before.len() as int;
    assert(src.subrange(offset + 16, offset + 18) =~= header.subrange(16, 18));
    assert(payload_at(src, offset) =~= payload);
}

/// A read that meets the end of the block at hand copies nothing and asks
/// for another call: it never serves bytes of two blocks at once. It leaves
/// the next block loaded, its first byte next: the virtual position is the
/// offset at which that block starts and 0. The call after it serves bytes
/// of that block, from the first on, as many as fit.
pub proof fn lemma_read_across_boundary(state: ReaderState, len: int, size: int, data: Seq<u8>)
    requires
        0 < len <= usize::MAX,
        state.remaining().len() == 0,
        frame_at(state.source, state.position) == (Frame::Block { size, data }),
    ensures
        state.read(len).1 == Ok::<Progress, ReadError>(Progress::NeedMore),
        state.read(len).0.virtual_position() == VirtualPosition::spec_new(state.position as u64, 0),
        state.read(len).0.position == state.position + size,
        state.read(len).0.remaining() == data,
        0 < data.len() <= len ==> state.read(len).0.read(len).1 == Ok::<Progress, ReadError>(
            Progress::Done(data.len() as usize),
        ),
        len < data.len() ==> state.read(len).0.read(len).1 == Ok::<Progress, ReadError>(
            Progress::Done(len as usize),
        ),
{
    let next = state.read(len).0;
    assert(next.data.skip(0) == next.data);
}

/// After a seek to `pos` the virtual position is `pos`, and a read into a
/// buffer without room leaves it there; a second seek to `pos` changes
/// nothing and returns what the first did.
pub proof fn lemma_seek_is_idempotent(state: ReaderState, pos: VirtualPosition)
    requires
        state.seek(pos) is Ok,
    ensures
        state.seek(pos)->Ok_0.virtual_position() == pos,
        state.seek(pos)->Ok_0.read(0) == (
            state.seek(pos)->Ok_0,
            Ok::<Progress, ReadError>(Progress::Done(0)),
        ),
        state.seek(pos)->Ok_0.seek(pos) == state.seek(pos),
{
    lemma_offsets_roundtrip(pos);
}

/// What a failed seek reports depends on the stream and the compressed
/// offset alone, and so does the block that a successful one loads.
pub proof fn lemma_seek_ignores_earlier_state(a: ReaderState, b: ReaderState, pos: VirtualPosition)
    requires
        a.source == b.source,
    ensures
        a.seek(pos) == b.seek(pos),
{
}

} // verus!
