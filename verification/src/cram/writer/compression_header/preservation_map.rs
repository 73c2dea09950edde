//! Writing a preservation map.

use crate::cram::container::compression_header::preservation_map::{
    Key, PreservationMapView, SubstitutionMatrix, TagIdsDictionary,
};
use crate::cram::container::compression_header::PreservationMap;
use crate::cram::num::itf8::encode_itf8;
use crate::cram::num::{write_itf8, Itf8};
use crate::cram::record::tag;
use byteorder::WriteBytesExt;
use vstd::prelude::*;

verus! {

/// The number of entries of a preservation map.
pub const MAP_LENGTH: Itf8 = 5;

/// The byte of the truth value false.
pub const FALSE: u8 = 0x00;

/// The byte of the truth value true.
pub const TRUE: u8 = 0x01;

/// The byte that closes a line of the dictionary of tag ids.
pub const NUL: u8 = 0x00;

/// Why a preservation map was not written.
#[derive(Clone, Copy, Debug, PartialEq, Eq, Structural)]
pub enum WriteError {
    /// The bytes to write are more than a length of 32 signed bits can
    /// count.
    DataTooLong,
}

/// The byte that stands for a truth value.
pub open spec fn encode_bool(value: bool) -> Seq<u8> {
    seq![if value { TRUE } else { FALSE }]
}

/// The bytes of the keys of one line of the dictionary of tag ids, three
/// for each key.
pub open spec fn encode_keys(keys: Seq<tag::Key>) -> Seq<u8>
    decreases keys.len(),
{
    if keys.len() == 0 {
        Seq::empty()
    } else {
        encode_keys(keys.drop_last()) + keys.last().bytes()
    }
}

/// The bytes of the lines of the dictionary of tag ids: each line is its
/// keys and a closing NUL.
pub open spec fn encode_lines(lines: Seq<Seq<tag::Key>>) -> Seq<u8>
    decreases lines.len(),
{
    if lines.len() == 0 {
        Seq::empty()
    } else {
        encode_lines(lines.drop_last()) + encode_keys(lines.last()) + seq![NUL]
    }
}

/// The bytes that follow the length of a preservation map: the number of
/// entries, then each entry, its key before its value.
pub open spec fn encode_entries(map: PreservationMapView) -> Seq<u8> {
    let lines = encode_lines(map.tag_ids_dictionary);
    encode_itf8(MAP_LENGTH) + Key::ReadNamesIncluded.spec_bytes() + encode_bool(
        map.read_names_included,
    ) + Key::ApDataSeriesDelta.spec_bytes() + encode_bool(map.ap_data_series_delta)
        + Key::ReferenceRequired.spec_bytes() + encode_bool(map.reference_required)
        + Key::SubstitutionMatrix.spec_bytes() + map.substitution_matrix
        + Key::TagIdsDictionary.spec_bytes() + encode_itf8(lines.len() as Itf8) + lines
}

/// The length `len` as a number that can be written, unless it is more than
/// 32 signed bits can count.
pub fn data_len(len: usize) -> (r: Result<Itf8, WriteError>)
    ensures
        len <= i32::MAX ==> r == Ok::<Itf8, WriteError>(len as Itf8),
        len > i32::MAX ==> r == Err::<Itf8, WriteError>(WriteError::DataTooLong),
{
    if len > i32::MAX as usize {
        Err(WriteError::DataTooLong)
    } else {
        Ok(len as Itf8)
    }
}

/// `byteorder::WriteBytesExt::write_u8` on a vector: the byte is appended.
/// Writing to a vector does not fail.
#[verifier::external_body]
fn write_u8(writer: &mut Vec<u8>, n: u8)
    ensures
        final(writer)@ == old(writer)@.push(n),
{
    let _ = WriteBytesExt::write_u8(writer, n);
}

/// Appends a preservation map to `writer`: the length of the bytes that
/// follow, the number of entries, and the five entries. Where the lines of
/// the dictionary of tag ids, or all that follows the length, are too long
/// for their length to be written, nothing is appended.
pub fn write_preservation_map(writer: &mut Vec<u8>, preservation_map: &PreservationMap) -> (r:
    Result<(), WriteError>)
    ensures
        match r {
            Ok(()) => {
                &&& encode_lines(preservation_map@.tag_ids_dictionary).len() <= i32::MAX
                &&& encode_entries(preservation_map@).len() <= i32::MAX
                &&& final(writer)@ == old(writer)@ + encode_itf8(
                    encode_entries(preservation_map@).len() as Itf8,
                ) + encode_entries(preservation_map@)
            },
            Err(e) => {
                &&& e == WriteError::DataTooLong
                &&& encode_lines(preservation_map@.tag_ids_dictionary).len() > i32::MAX
                    || encode_entries(preservation_map@).len() > i32::MAX
                &&& final(writer)@ == old(writer)@
            },
        },
{
    let mut buf: Vec<u8> = Vec::new();

    write_itf8(&mut buf, MAP_LENGTH);

    write_key(&mut buf, Key::ReadNamesIncluded);
    write_bool(&mut buf, preservation_map.read_names_included());

    write_key(&mut buf, Key::ApDataSeriesDelta);
    write_bool(&mut buf, preservation_map.ap_data_series_delta());

    write_key(&mut buf, Key::ReferenceRequired);
    write_bool(&mut buf, preservation_map.reference_required());

    write_key(&mut buf, Key::SubstitutionMatrix);
    write_substitution_matrix(&mut buf, preservation_map.substitution_matrix());

    write_key(&mut buf, Key::TagIdsDictionary);
    match write_tag_ids_dictionary(&mut buf, preservation_map.tag_ids_dictionary()) {
        Ok(()) => {},
        Err(e) => { return Err(e); },
    }
    assert(buf@ =~= encode_entries(preservation_map@));

    let data_len: Itf8 = match data_len(buf.len()) {
        Ok(len) => len,
        Err(e) => { return Err(e); },
    };
    write_itf8(writer, data_len);

    writer.append(&mut buf);
    Ok(())
}

/// Appends the two characters of a key.
pub fn write_key(writer: &mut Vec<u8>, key: Key)
    ensures
        final(writer)@ == old(writer)@ + key.spec_bytes(),
{
    let data: [u8; 2] = key.bytes();
    writer.push(data[0]);
    writer.push(data[1]);
    assert(writer@ =~= old(writer)@ + key.spec_bytes());
}

/// Appends the byte of a truth value: 1 for true, 0 for false.
pub fn write_bool(writer: &mut Vec<u8>, value: bool)
    ensures
        final(writer)@ == old(writer)@ + encode_bool(value),
{
    if value {
        write_u8(writer, TRUE);
    } else {
        write_u8(writer, FALSE);
    }
    assert(writer@ =~= old(writer)@ + encode_bool(value));
}

/// Appends the five bytes of a substitution matrix.
pub fn write_substitution_matrix(writer: &mut Vec<u8>, substitution_matrix: &SubstitutionMatrix)
    ensures
        final(writer)@ == old(writer)@ + substitution_matrix@,
{
    let buf: [u8; 5] = substitution_matrix.to_bytes();
    let mut i: usize = 0;
    while i < 5
        invariant
            i <= 5,
            buf@.len() == 5,
            writer@ == old(writer)@ + buf@.take(i as int),
        decreases 5 - i,
    {
        writer.push(buf[i]);
        assert(buf@.take(i + 1) =~= buf@.take(i as int).push(buf@[i as int]));
        i = i + 1;
    }
    assert(buf@.take(5) =~= buf@);
}

/// Appends a dictionary of tag ids: the length of the bytes of its lines,
/// then the lines, each its keys in three bytes and a closing NUL. Where the
/// lines take more bytes than the length can count, nothing is appended.
pub fn write_tag_ids_dictionary(writer: &mut Vec<u8>, tag_ids_dictionary: &TagIdsDictionary) -> (r:
    Result<(), WriteError>)
    ensures
        match r {
            Ok(()) => encode_lines(tag_ids_dictionary@).len() <= i32::MAX && final(writer)@ == old(
                writer,
            )@ + encode_itf8(encode_lines(tag_ids_dictionary@).len() as Itf8) + encode_lines(
                tag_ids_dictionary@,
            ),
            Err(e) => e == WriteError::DataTooLong && encode_lines(tag_ids_dictionary@).len()
                > i32::MAX && final(writer)@ == old(writer)@,
        },
{
    let mut buf: Vec<u8> = Vec::new();
    let ghost lines = tag_ids_dictionary@;

    let n: usize = tag_ids_dictionary.len();
    let mut i: usize = 0;
    while i < n
        invariant
            i <= n,
            n == lines.len(),
            lines == tag_ids_dictionary@,
            buf@ == encode_lines(lines.take(i as int)),
        decreases n - i,
    {
        let keys = tag_ids_dictionary.line(i);
        let ghost line = lines[i as int];
        let ghost before = buf@;
        let m: usize = keys.len();
        let mut j: usize = 0;
        while j < m
            invariant
                j <= m,
                m == line.len(),
                keys@ == line,
                buf@ == before + encode_keys(line.take(j as int)),
            decreases m - j,
        {
            let key = &keys[j];
            let id: i32 = key.id();
            assert(((id >> 16) & 0xff) as u8 == key.bytes()[0] && ((id >> 8) & 0xff) as u8
                == key.bytes()[1] && (id & 0xff) as u8 == key.bytes()[2]) by {
                let a: i32 = key.bytes()[0] as i32;
                let b: i32 = key.bytes()[1] as i32;
                let c: i32 = key.bytes()[2] as i32;
                assert((id >> 16) & 0xff == a && (id >> 8) & 0xff == b && id & 0xff == c)
                    by (bit_vector)
                    requires
                        id == a * 0x1_0000 + b * 0x100 + c,
                        0 <= a < 0x100,
                        0 <= b < 0x100,
                        0 <= c < 0x100,
                ;
            }
            buf.push(((id >> 16) & 0xff) as u8);
            buf.push(((id >> 8) & 0xff) as u8);
            buf.push((id & 0xff) as u8);
            assert(line.take(j + 1).drop_last() =~= line.take(j as int));
            assert(buf@ =~= before + encode_keys(line.take(j + 1)));
            j = j + 1;
        }
        assert(line.take(m as int) =~= line);

        buf.push(NUL);
        assert(lines.take(i + 1).drop_last() =~= lines.take(i as int));
        assert(buf@ =~= encode_lines(lines.take(i + 1)));
        i = i + 1;
    }
    assert(lines.take(n as int) =~= lines);

    let data_len: Itf8 = match data_len(buf.len()) {
        Ok(len) => len,
        Err(e) => { return Err(e); },
    };
    write_itf8(writer, data_len);
    writer.append(&mut buf);

    Ok(())
}

} // verus!
