//! Sizes of the gzip member that frames a block.

use vstd::prelude::*;

verus! {

/// The number of bytes of a block's trailer: a checksum and the length of
/// the decompressed data, four bytes each.
pub const TRAILER_SIZE: usize = 8;

} // verus!
