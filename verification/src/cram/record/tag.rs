//! The key of an optional field: its tag and the type of its value.

use crate::bam::record::data::field::value::Type;
use vstd::prelude::*;

verus! {

/// The key of an optional field: the two characters of its tag and the type
/// of its value.
#[derive(Clone, Copy, Debug, PartialEq, Eq)]
pub struct Key {
    tag: [u8; 2],
    ty: Type,
}

impl Key {
    /// The two characters of the tag.
    pub closed spec fn spec_tag(self) -> Seq<u8> {
        self.tag@
    }

    /// The type of the value.
    pub closed spec fn spec_ty(self) -> Type {
        self.ty
    }

    /// The three bytes that stand for the key in a file: the two characters
    /// of the tag and that of the type.
    pub open spec fn bytes(self) -> Seq<u8> {
        seq![self.spec_tag()[0], self.spec_tag()[1], self.spec_ty().spec_code()]
    }

    /// The number that the three bytes of the key make, the first the
    /// highest.
    pub open spec fn spec_id(self) -> int {
        self.bytes()[0] * 0x1_0000 + self.bytes()[1] * 0x100 + self.bytes()[2]
    }

    /// The key of the given tag and type.
    pub fn new(tag: [u8; 2], ty: Type) -> (r: Key)
        ensures
            r.spec_tag() == tag@,
            r.spec_ty() == ty,
    {
        Key { tag, ty }
    }

    /// The two characters of the tag.
    pub fn tag(&self) -> (r: [u8; 2])
        ensures
            r@ == self.spec_tag(),
    {
        self.tag
    }

    /// The type of the value.
    pub fn ty(&self) -> (r: Type)
        ensures
            r == self.spec_ty(),
    {
        self.ty
    }

    /// The number that the three bytes of the key make, the first the
    /// highest.
    pub fn id(&self) -> (r: i32)
        ensures
            r == self.spec_id(),
            0 <= r < 0x100_0000,
    {
        let high: i32 = self.tag[0] as i32;
        let mid: i32 = self.tag[1] as i32;
        let low: i32 = self.ty.code() as i32;
        assert((high << 16) | (mid << 8) | low == high * 0x1_0000 + mid * 0x100 + low) by (bit_vector)
            requires
                0 <= high < 0x100,
                0 <= mid < 0x100,
                0 <= low < 0x100,
        ;
        (high << 16) | (mid << 8) | low
    }
}

} // verus!
