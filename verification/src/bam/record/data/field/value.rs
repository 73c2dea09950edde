//! The types of the value of an optional field.

use vstd::prelude::*;

verus! {

/// The type of the value of an optional field.
#[derive(Clone, Copy, Debug, PartialEq, Eq, Structural)]
pub enum Type {
    /// A character, `A`.
    Char,
    /// A signed 8-bit integer, `c`.
    Int8,
    /// An unsigned 8-bit integer, `C`.
    UInt8,
    /// A signed 16-bit integer, `s`.
    Int16,
    /// An unsigned 16-bit integer, `S`.
    UInt16,
    /// A signed 32-bit integer, `i`.
    Int32,
    /// An unsigned 32-bit integer, `I`.
    UInt32,
    /// A single-precision number, `f`.
    Float,
    /// A string, `Z`.
    String,
    /// A string of hexadecimal digits, `H`.
    Hex,
    /// An array of numbers, `B`.
    Array,
}

impl Type {
    /// The character that stands for the type in a file.
    pub open spec fn spec_code(self) -> u8 {
        match self {
            Type::Char => 0x41,
            Type::Int8 => 0x63,
            Type::UInt8 => 0x43,
            Type::Int16 => 0x73,
            Type::UInt16 => 0x53,
            Type::Int32 => 0x69,
            Type::UInt32 => 0x49,
            Type::Float => 0x66,
            Type::String => 0x5a,
            Type::Hex => 0x48,
            Type::Array => 0x42,
        }
    }

    /// The character that stands for the type in a file.
    pub fn code(self) -> (r: u8)
        ensures
            r == self.spec_code(),
    {
        match self {
            Type::Char => 0x41,
            Type::Int8 => 0x63,
            Type::UInt8 => 0x43,
            Type::Int16 => 0x73,
            Type::UInt16 => 0x53,
            Type::Int32 => 0x69,
            Type::UInt32 => 0x49,
            Type::Float => 0x66,
            Type::String => 0x5a,
            Type::Hex => 0x48,
            Type::Array => 0x42,
        }
    }
}

} // verus!
