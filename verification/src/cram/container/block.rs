//! A block of a container.

use vstd::prelude::*;

verus! {

/// How the data of a block is compressed.
#[derive(Clone, Copy, Debug, PartialEq, Eq, Structural)]
pub enum CompressionMethod {
    /// Not at all.
    Uncompressed,
    /// With gzip.
    Gzip,
    /// With bzip2.
    Bzip2,
    /// With LZMA.
    Lzma,
    /// With rANS.
    Rans,
}

/// What a block holds.
#[derive(Clone, Copy, Debug, PartialEq, Eq, Structural)]
pub enum ContentType {
    /// The header of the file.
    FileHeader,
    /// A compression header.
    CompressionHeader,
    /// The header of a slice.
    SliceHeader,
    /// Nothing yet.
    Reserved,
    /// The bytes of one external data series.
    ExternalData,
    /// The bits of the core data series.
    CoreData,
}

/// What a block holds.
pub ghost struct BlockView {
    /// How the data is compressed.
    pub compression_method: CompressionMethod,
    /// What the data is.
    pub content_type: ContentType,
    /// The id by which the encodings of a compression header refer to the
    /// block.
    pub content_id: i32,
    /// The length of the data before compression.
    pub uncompressed_len: i32,
    /// The data.
    pub data: Seq<u8>,
    /// The checksum of the block.
    pub crc32: u32,
}

/// A block of a container.
#[derive(Clone, Debug, PartialEq, Eq)]
pub struct Block {
    compression_method: CompressionMethod,
    content_type: ContentType,
    content_id: i32,
    uncompressed_len: i32,
    data: Vec<u8>,
    crc32: u32,
}

impl View for Block {
    type V = BlockView;

    closed spec fn view(&self) -> BlockView {
        BlockView {
            compression_method: self.compression_method,
            content_type: self.content_type,
            content_id: self.content_id,
            uncompressed_len: self.uncompressed_len,
            data: self.data@,
            crc32: self.crc32,
        }
    }
}

impl Block {
    /// The block of these values.
    pub fn new(
        compression_method: CompressionMethod,
        content_type: ContentType,
        content_id: i32,
        uncompressed_len: i32,
        data: Vec<u8>,
        crc32: u32,
    ) -> (r: Block)
        ensures
            r@ == (BlockView {
                compression_method,
                content_type,
                content_id,
                uncompressed_len,
                data: data@,
                crc32,
            }),
    {
        Block { compression_method, content_type, content_id, uncompressed_len, data, crc32 }
    }

    /// How the data is compressed.
    pub fn compression_method(&self) -> (r: CompressionMethod)
        ensures
            r == self@.compression_method,
    {
        self.compression_method
    }

    /// What the data is.
    pub fn content_type(&self) -> (r: ContentType)
        ensures
            r == self@.content_type,
    {
        self.content_type
    }

    /// The id by which the encodings of a compression header refer to the
    /// block.
    pub fn content_id(&self) -> (r: i32)
        ensures
            r == self@.content_id,
    {
        self.content_id
    }

    /// The length of the data before compression.
    pub fn uncompressed_len(&self) -> (r: i32)
        ensures
            r == self@.uncompressed_len,
    {
        self.uncompressed_len
    }

    /// The data.
    pub fn data(&self) -> (r: &[u8])
        ensures
            r@ == self@.data,
    {
        self.data.as_slice()
    }

    /// The checksum of the block.
    pub fn crc32(&self) -> (r: u32)
        ensures
            r == self@.crc32,
    {
        self.crc32
    }
}

} // verus!
