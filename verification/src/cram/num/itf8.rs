//! Signed 32-bit integers in one to five bytes.

use vstd::prelude::*;

verus! {

/// A number that is written in one to five bytes.
pub type Itf8 = i32;

/// The 32 bits of `value`, read as an unsigned number.
pub open spec fn bits_of(value: Itf8) -> int {
    if value >= 0 {
        value as int
    } else {
        value + 0x1_0000_0000
    }
}

/// The bytes of `value`. The leading bits of the first byte give the number
/// of bytes that follow it: none after a 0, one after 10, two after 110,
/// three after 1110, four after 1111. The bits of the number follow, the
/// highest first; of the fifth byte only the low four bits are used.
pub open spec fn encode_itf8(value: Itf8) -> Seq<u8> {
    let v = bits_of(value);
    if v < 0x80 {
        seq![v as u8]
    } else if v < 0x4000 {
        seq![(0x80 + v / 0x100) as u8, (v % 0x100) as u8]
    } else if v < 0x20_0000 {
        seq![(0xc0 + v / 0x1_0000) as u8, (v / 0x100 % 0x100) as u8, (v % 0x100) as u8]
    } else if v < 0x1000_0000 {
        seq![
            (0xe0 + v / 0x100_0000) as u8,
            (v / 0x1_0000 % 0x100) as u8,
            (v / 0x100 % 0x100) as u8,
            (v % 0x100) as u8,
        ]
    } else {
        seq![
            (0xf0 + v / 0x1000_0000) as u8,
            (v / 0x10_0000 % 0x100) as u8,
            (v / 0x1000 % 0x100) as u8,
            (v / 0x10 % 0x100) as u8,
            (v % 0x10) as u8,
        ]
    }
}

/// A number takes one to five bytes, fewer the smaller it is; a negative
/// one takes five.
pub proof fn lemma_encode_itf8_len(value: Itf8)
    ensures
        1 <= encode_itf8(value).len() <= 5,
        encode_itf8(value).len() == 1 <==> 0 <= value < 0x80,
        encode_itf8(value).len() == 5 <==> (value < 0 || value >= 0x1000_0000),
{
}

/// Appends the bytes of `value` to `writer`.
pub fn write_itf8(writer: &mut Vec<u8>, value: Itf8)
    ensures
        final(writer)@ == old(writer)@ + encode_itf8(value),
{
    let v: u32 = value as u32;
    assert(v == bits_of(value)) by (bit_vector)
        requires
            v == value as u32,
    ;
    if v < 0x80 {
        writer.push(v as u8);
        assert(writer@ =~= old(writer)@ + encode_itf8(value));
    } else if v < 0x4000 {
        assert((v >> 8) | 0x80 == 0x80 + v / 0x100 && v & 0xff == v % 0x100) by (bit_vector)
            requires
                v < 0x4000,
        ;
        writer.push(((v >> 8) | 0x80) as u8);
        writer.push((v & 0xff) as u8);
        assert(writer@ =~= old(writer)@ + encode_itf8(value));
    } else if v < 0x20_0000 {
        assert((v >> 16) | 0xc0 == 0xc0 + v / 0x1_0000 && (v >> 8) & 0xff == v / 0x100 % 0x100 && v
            & 0xff == v % 0x100) by (bit_vector)
            requires
                v < 0x20_0000,
        ;
        writer.push(((v >> 16) | 0xc0) as u8);
        writer.push(((v >> 8) & 0xff) as u8);
        writer.push((v & 0xff) as u8);
        assert(writer@ =~= old(writer)@ + encode_itf8(value));
    } else if v < 0x1000_0000 {
        assert((v >> 24) | 0xe0 == 0xe0 + v / 0x100_0000 && (v >> 16) & 0xff == v / 0x1_0000
            % 0x100 && (v >> 8) & 0xff == v / 0x100 % 0x100 && v & 0xff == v % 0x100)
            by (bit_vector)
            requires
                v < 0x1000_0000,
        ;
        writer.push(((v >> 24) | 0xe0) as u8);
        writer.push(((v >> 16) & 0xff) as u8);
        writer.push(((v >> 8) & 0xff) as u8);
        writer.push((v & 0xff) as u8);
        assert(writer@ =~= old(writer)@ + encode_itf8(value));
    } else {
        assert((v >> 28) | 0xf0 == 0xf0 + v / 0x1000_0000 && (v >> 20) & 0xff == v / 0x10_0000
            % 0x100 && (v >> 12) & 0xff == v / 0x1000 % 0x100 && (v >> 4) & 0xff == v / 0x10
            % 0x100 && v & 0x0f == v % 0x10) by (bit_vector);
        writer.push(((v >> 28) | 0xf0) as u8);
        writer.push(((v >> 20) & 0xff) as u8);
        writer.push(((v >> 12) & 0xff) as u8);
        writer.push(((v >> 4) & 0xff) as u8);
        writer.push((v & 0x0f) as u8);
        assert(writer@ =~= old(writer)@ + encode_itf8(value));
    }
}

} // verus!
