//! The address of a byte in a block-compressed stream.

use std::cmp::Ordering;
use vstd::prelude::*;
use vstd::std_specs::cmp::PartialOrdSpecImpl;
use vstd::std_specs::convert::FromSpecImpl;

verus! {

/// The largest offset of a block in the compressed stream that a virtual
/// position can hold: 48 bits.
pub const MAX_COMPRESSED_POSITION: u64 = 0xffff_ffff_ffff;

/// The largest offset into the decompressed data of a block that a virtual
/// position can hold: 16 bits.
pub const MAX_UNCOMPRESSED_POSITION: u16 = 0xffff;

/// The packed value of the pair `(compressed, uncompressed)`: the compressed
/// offset in the upper 48 bits, the uncompressed offset in the lower 16.
pub open spec fn pack(compressed: int, uncompressed: int) -> int {
    compressed * 0x1_0000 + uncompressed
}

/// Whether `(compressed, uncompressed)` fits the 48 and the 16 bits of a
/// virtual position.
pub open spec fn valid_offsets(compressed: int, uncompressed: int) -> bool {
    0 <= compressed <= MAX_COMPRESSED_POSITION && 0 <= uncompressed <= MAX_UNCOMPRESSED_POSITION
}

/// Lexicographic order on pairs of offsets.
pub open spec fn lex_lt(c1: int, u1: int, c2: int, u2: int) -> bool {
    c1 < c2 || (c1 == c2 && u1 < u2)
}

/// A position in a block-compressed stream: the offset at which a block
/// starts in the compressed stream, and an offset into the decompressed data
/// of that block. Both are packed into one 64-bit value, so that the order of
/// the packed values is the order of the positions in the stream.
#[derive(Clone, Copy, Debug, PartialEq, Eq, Structural, Hash, Ord)]
pub struct VirtualPosition(u64);

impl View for VirtualPosition {
    type V = int;

    /// The packed 64-bit value.
    closed spec fn view(&self) -> int {
        self.0 as int
    }
}

impl VirtualPosition {
    /// The offset of the block in the compressed stream.
    pub open spec fn spec_compressed(self) -> int {
        self@ / 0x1_0000
    }

    /// The offset into the decompressed data of the block.
    pub open spec fn spec_uncompressed(self) -> int {
        self@ % 0x1_0000
    }

    /// The position that holds the packed value `raw`.
    pub closed spec fn spec_from_raw(raw: u64) -> VirtualPosition {
        VirtualPosition(raw)
    }

    /// The position of the pair `(compressed, uncompressed)`. Only the low
    /// 48 bits of `compressed` are kept.
    pub closed spec fn spec_new(compressed: u64, uncompressed: u16) -> VirtualPosition {
        VirtualPosition(pack(compressed as int % 0x1_0000_0000_0000, uncompressed as int) as u64)
    }

    /// A position is the value it packs, and every 64-bit value is one.
    pub broadcast proof fn lemma_view(self)
        ensures
            0 <= #[trigger] self@ <= u64::MAX,
            Self::spec_from_raw(self@ as u64) == self,
    {
    }

    /// `spec_from_raw` packs nothing else than its argument.
    pub broadcast proof fn lemma_from_raw(raw: u64)
        ensures
            (#[trigger] Self::spec_from_raw(raw))@ == raw,
    {
    }

    /// What `spec_new` packs.
    pub broadcast proof fn lemma_new(compressed: u64, uncompressed: u16)
        ensures
            (#[trigger] Self::spec_new(compressed, uncompressed))@ == pack(
                compressed as int % 0x1_0000_0000_0000,
                uncompressed as int,
            ),
            Self::spec_new(compressed, uncompressed).spec_compressed() == compressed as int
                % 0x1_0000_0000_0000,
            Self::spec_new(compressed, uncompressed).spec_uncompressed() == uncompressed,
    {
    }

    /// The position of the pair `(compressed, uncompressed)`. A compressed
    /// offset of more than 48 bits loses its upper bits.
    pub fn new(compressed: u64, uncompressed: u16) -> (r: VirtualPosition)
        ensures
            r == Self::spec_new(compressed, uncompressed),
            compressed <= MAX_COMPRESSED_POSITION ==> r.spec_compressed() == compressed,
            r.spec_uncompressed() == uncompressed,
    {
        let low: u64 = compressed & MAX_COMPRESSED_POSITION;
        let wide: u64 = uncompressed as u64;
        assert(low == compressed % 0x1_0000_0000_0000 && (low << 16) | wide == low * 0x1_0000
            + wide) by (bit_vector)
            requires
                low == compressed & 0xffff_ffff_ffff,
                wide <= 0xffff,
        ;
        VirtualPosition((low << 16) | wide)
    }

    /// The largest position: all 64 bits set.
    pub open spec fn spec_max() -> VirtualPosition {
        Self::spec_from_raw(u64::MAX)
    }

    /// The position `(0, 0)`.
    pub open spec fn spec_default() -> VirtualPosition {
        Self::spec_from_raw(0)
    }

    /// The largest position: no position of a byte in a stream is greater.
    pub fn max() -> (r: VirtualPosition)
        ensures
            r == Self::spec_max(),
            r@ == u64::MAX,
    {
        VirtualPosition(u64::MAX)
    }

    /// The offset of the block in the compressed stream.
    pub fn compressed(self) -> (r: u64)
        ensures
            r == self.spec_compressed(),
            r <= MAX_COMPRESSED_POSITION,
    {
        let raw: u64 = self.0;
        assert(raw >> 16 == raw / 0x1_0000 && raw >> 16 <= 0xffff_ffff_ffff) by (bit_vector);
        raw >> 16
    }

    /// The offset into the decompressed data of the block.
    pub fn uncompressed(self) -> (r: u16)
        ensures
            r == self.spec_uncompressed(),
    {
        let raw: u64 = self.0;
        assert(raw & 0xffff == raw % 0x1_0000) by (bit_vector);
        (raw & 0xffff) as u16
    }
}

impl Default for VirtualPosition {
    /// The position of the first byte of the first block.
    fn default() -> (r: VirtualPosition)
        ensures
            r == VirtualPosition::spec_default(),
            r@ == 0,
    {
        VirtualPosition(0)
    }
}

impl FromSpecImpl<u64> for VirtualPosition {
    open spec fn obeys_from_spec() -> bool {
        true
    }

    open spec fn from_spec(raw: u64) -> VirtualPosition {
        VirtualPosition::spec_from_raw(raw)
    }
}

impl From<u64> for VirtualPosition {
    /// The position that holds the packed value `raw`.
    fn from(raw: u64) -> (r: VirtualPosition) {
        VirtualPosition(raw)
    }
}

impl FromSpecImpl<VirtualPosition> for u64 {
    open spec fn obeys_from_spec() -> bool {
        true
    }

    open spec fn from_spec(pos: VirtualPosition) -> u64 {
        pos@ as u64
    }
}

impl From<VirtualPosition> for u64 {
    /// The packed value of the position.
    fn from(pos: VirtualPosition) -> (r: u64) {
        pos.0
    }
}

impl PartialOrdSpecImpl for VirtualPosition {
    open spec fn obeys_partial_cmp_spec() -> bool {
        true
    }

    open spec fn partial_cmp_spec(&self, other: &VirtualPosition) -> Option<Ordering> {
        if self@ < other@ {
            Some(Ordering::Less)
        } else if self@ == other@ {
            Some(Ordering::Equal)
        } else {
            Some(Ordering::Greater)
        }
    }
}

impl PartialOrd for VirtualPosition {
    /// Positions are ordered as their packed values are.
    fn partial_cmp(&self, other: &VirtualPosition) -> (r: Option<Ordering>) {
        if self.0 < other.0 {
            Some(Ordering::Less)
        } else if self.0 == other.0 {
            Some(Ordering::Equal)
        } else {
            Some(Ordering::Greater)
        }
    }
}

/// Two positions are equal exactly when they pack the same value.
pub proof fn lemma_equal_by_view(a: VirtualPosition, b: VirtualPosition)
    ensures
        a == b <==> a@ == b@,
{
    VirtualPosition::lemma_view(a);
    VirtualPosition::lemma_view(b);
}

/// Every position is the position of its two offsets, and these fit the 48
/// and the 16 bits.
pub proof fn lemma_offsets_roundtrip(p: VirtualPosition)
    ensures
        valid_offsets(p.spec_compressed(), p.spec_uncompressed()),
        VirtualPosition::spec_new(p.spec_compressed() as u64, p.spec_uncompressed() as u16) == p,
{
    VirtualPosition::lemma_view(p);
    let c = p.spec_compressed();
    let u = p.spec_uncompressed();
    assert(p@ == pack(c, u));
    VirtualPosition::lemma_new(c as u64, u as u16);
    lemma_equal_by_view(VirtualPosition::spec_new(c as u64, u as u16), p);
}

/// The order of the packed values is the lexicographic order of the pairs:
/// for offsets that fit, `(c1, u1)` comes before `(c2, u2)` exactly when the
/// position of the first packs a smaller value than that of the second.
pub proof fn lemma_order_is_lexicographic(c1: u64, u1: u16, c2: u64, u2: u16)
    requires
        valid_offsets(c1 as int, u1 as int),
        valid_offsets(c2 as int, u2 as int),
    ensures
        lex_lt(c1 as int, u1 as int, c2 as int, u2 as int) <==> VirtualPosition::spec_new(c1, u1)@
            < VirtualPosition::spec_new(c2, u2)@,
        (c1 == c2 && u1 == u2) <==> VirtualPosition::spec_new(c1, u1) == VirtualPosition::spec_new(
            c2,
            u2,
        ),
{
    VirtualPosition::lemma_new(c1, u1);
    VirtualPosition::lemma_new(c2, u2);
    lemma_equal_by_view(VirtualPosition::spec_new(c1, u1), VirtualPosition::spec_new(c2, u2));
}

/// No position is greater than the largest one, and the position of a pair
/// of offsets that fit is smaller, unless both offsets are the largest that
/// fit: that pair packs 64 set bits, as the largest position does.
pub proof fn lemma_max_is_greatest(p: VirtualPosition, c: u64, u: u16)
    requires
        valid_offsets(c as int, u as int),
    ensures
        p@ <= VirtualPosition::spec_max()@,
        !(c == MAX_COMPRESSED_POSITION && u == MAX_UNCOMPRESSED_POSITION) ==> VirtualPosition::spec_new(
            c,
            u,
        )@ < VirtualPosition::spec_max()@,
{
    VirtualPosition::lemma_view(p);
    VirtualPosition::lemma_new(c, u);
    VirtualPosition::lemma_from_raw(u64::MAX);
}

/// The default position is `(0, 0)`: it is smaller than the position of any
/// pair of offsets that fit of which one is not zero.
pub proof fn lemma_default_is_least(p: VirtualPosition, c: u64, u: u16)
    requires
        valid_offsets(c as int, u as int),
        c != 0 || u != 0,
    ensures
        VirtualPosition::spec_default()@ <= p@,
        VirtualPosition::spec_default() == VirtualPosition::spec_new(0, 0),
        VirtualPosition::spec_default()@ < VirtualPosition::spec_new(c, u)@,
{
    VirtualPosition::lemma_view(p);
    VirtualPosition::lemma_new(c, u);
    VirtualPosition::lemma_new(0, 0);
    VirtualPosition::lemma_from_raw(0);
    lemma_equal_by_view(VirtualPosition::spec_default(), VirtualPosition::spec_new(0, 0));
}

} // verus!
