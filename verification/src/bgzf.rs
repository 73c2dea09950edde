//! Blocked gzip: virtual positions, decompressed blocks and the reader over
//! a stream of blocks.

pub mod block;
pub mod gz;
pub mod reader;
pub mod virtual_position;

pub use self::block::Block;
pub use self::reader::{Progress, ReadError, Reader};
pub use self::virtual_position::VirtualPosition;

use vstd::prelude::*;

verus! {

/// The number of bytes of a block's header. Its last two hold the size of the
/// whole block, less one, in little-endian order.
pub const BGZF_HEADER_SIZE: usize = 18;

} // verus!
