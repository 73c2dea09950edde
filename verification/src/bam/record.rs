//! What the index reads of an alignment record.

pub mod data;

use vstd::prelude::*;

verus! {

/// The flag bit of a record that is not mapped.
pub const UNMAPPED: u16 = 0x4;

/// The flags of an alignment record.
#[derive(Clone, Copy, Debug, PartialEq, Eq, Structural)]
pub struct Flags(u16);

impl Flags {
    /// The 16 flag bits.
    pub closed spec fn bits(self) -> u16 {
        self.0
    }

    /// Whether the flag of an unmapped record is set.
    pub open spec fn spec_is_unmapped(self) -> bool {
        self.bits() & UNMAPPED != 0
    }

    /// The flags with the given bits.
    pub fn from_bits(bits: u16) -> (r: Flags)
        ensures
            r.bits() == bits,
    {
        Flags(bits)
    }

    /// No flag set.
    pub fn empty() -> (r: Flags)
        ensures
            r.bits() == 0,
            !r.spec_is_unmapped(),
    {
        assert(0u16 & 0x4 == 0) by (bit_vector);
        Flags(0)
    }

    /// Whether the flag of an unmapped record is set.
    pub fn is_unmapped(self) -> (r: bool)
        ensures
            r == self.spec_is_unmapped(),
    {
        self.0 & UNMAPPED != 0
    }
}

/// Whether a record at the 1-based `position` that covers `reference_len`
/// bases can be held: the position is not negative, and the last base
/// covered is one that 32 signed bits can number.
pub open spec fn valid_span(position: int, reference_len: int) -> bool {
    0 <= position && position + reference_len - 1 <= i32::MAX
}

/// What the index reads of an alignment record: its bin, its flags, the
/// 1-based position of its first base on the reference sequence (0 for a
/// record without one) and the number of bases of the reference that its
/// alignment covers.
#[derive(Clone, Copy, Debug, PartialEq, Eq)]
pub struct Record {
    bin: u16,
    flags: Flags,
    position: i32,
    reference_len: u32,
}

impl Record {
    #[verifier::type_invariant]
    spec fn inv(self) -> bool {
        valid_span(self.position as int, self.reference_len as int)
    }

    /// The bin that the record falls in.
    pub closed spec fn spec_bin(self) -> u16 {
        self.bin
    }

    /// The flags.
    pub closed spec fn spec_flags(self) -> Flags {
        self.flags
    }

    /// The 1-based position of the first base.
    pub closed spec fn spec_position(self) -> i32 {
        self.position
    }

    /// The number of bases of the reference covered.
    pub closed spec fn spec_reference_len(self) -> u32 {
        self.reference_len
    }

    /// The 1-based position of the last base covered.
    pub open spec fn spec_end(self) -> int {
        self.spec_position() + self.spec_reference_len() - 1
    }

    /// A record of these values, or `None` where its span cannot be held.
    pub fn new(bin: u16, flags: Flags, position: i32, reference_len: u32) -> (r: Option<Record>)
        ensures
            r is Some <==> valid_span(position as int, reference_len as int),
            r matches Some(record) ==> {
                &&& record.spec_bin() == bin
                &&& record.spec_flags() == flags
                &&& record.spec_position() == position
                &&& record.spec_reference_len() == reference_len
            },
    {
        if position >= 0 && position as i64 + reference_len as i64 - 1 <= i32::MAX as i64 {
            Some(Record { bin, flags, position, reference_len })
        } else {
            None
        }
    }

    /// The bin that the record falls in.
    pub fn bin(&self) -> (r: u16)
        ensures
            r == self.spec_bin(),
    {
        self.bin
    }

    /// The flags.
    pub fn flags(&self) -> (r: Flags)
        ensures
            r == self.spec_flags(),
    {
        self.flags
    }

    /// The 1-based position of the first base, 0 for a record without one.
    pub fn position(&self) -> (r: i32)
        ensures
            r == self.spec_position(),
            r >= 0,
    {
        proof {
            use_type_invariant(self);
        }
        self.position
    }

    /// The number of bases of the reference that the alignment covers.
    pub fn reference_len(&self) -> (r: u32)
        ensures
            r == self.spec_reference_len(),
            valid_span(self.spec_position() as int, r as int),
    {
        proof {
            use_type_invariant(self);
        }
        self.reference_len
    }
}

} // verus!
