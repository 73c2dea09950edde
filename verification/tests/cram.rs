use noodles::bam::record::data::field::value::Type;
use noodles::cram::container::compression_header::preservation_map::{
    Key as MapKey, SubstitutionMatrix, TagIdsDictionary,
};
use noodles::cram::container::compression_header::PreservationMap;
use noodles::cram::container::block::{CompressionMethod, ContentType};
use noodles::cram::container::slice::builder::{AddRecordError, BuildError, ExternalData};
use noodles::cram::container::slice::{Builder, Header, Slice};
use noodles::cram::container::Block;
use noodles::cram::container::ReferenceSequenceId;
use noodles::cram::num::write_itf8;
use noodles::cram::reader::Records;
use noodles::cram::record::tag::Key;
use noodles::cram::writer::compression_header::preservation_map::{
    data_len, write_bool, write_key, write_preservation_map, write_substitution_matrix,
    write_tag_ids_dictionary, WriteError,
};
use noodles::cram::Record;

fn itf8(value: i32) -> Vec<u8> {
    let mut buf = Vec::new();
    write_itf8(&mut buf, value);
    buf
}

#[test]
fn test_write_tag_ids_dictionary() {
    let mut buf = Vec::new();

    let tag_ids_dictionary = TagIdsDictionary::new(vec![
        vec![Key::new([b'N', b'H'], Type::Int8)],
        vec![
            Key::new([b'N', b'H'], Type::Int8),
            Key::new([b'C', b'O'], Type::String),
        ],
    ]);

    assert_eq!(write_tag_ids_dictionary(&mut buf, &tag_ids_dictionary), Ok(()));

    let expected = [
        0x0b, // data_len
        0x4e, 0x48, 0x63, // NH:c
        0x00, // nul
        0x4e, 0x48, 0x63, // NH:c
        0x43, 0x4f, 0x5a, // CO:Z
        0x00, // nul
    ];

    assert_eq!(buf, expected);
}

#[test]
fn test_write_tag_ids_dictionary_appends() {
    let mut buf = vec![0xaa];
    let empty = TagIdsDictionary::new(Vec::new());
    assert_eq!(write_tag_ids_dictionary(&mut buf, &empty), Ok(()));
    assert_eq!(buf, [0xaa, 0x00]);

    let one_empty_line = TagIdsDictionary::new(vec![Vec::new()]);
    assert_eq!(one_empty_line.len(), 1);
    assert!(one_empty_line.line(0).is_empty());
    assert_eq!(write_tag_ids_dictionary(&mut buf, &one_empty_line), Ok(()));
    assert_eq!(buf, [0xaa, 0x00, 0x01, 0x00]);
}

#[test]
fn test_write_tag_ids_dictionary_with_a_long_length() {
    // 43 keys and a NUL are 130 bytes: the length takes two.
    let line: Vec<Key> = (0..43).map(|_| Key::new([b'X', b'Y'], Type::Array)).collect();
    let dictionary = TagIdsDictionary::new(vec![line]);
    let mut buf = Vec::new();
    assert_eq!(write_tag_ids_dictionary(&mut buf, &dictionary), Ok(()));
    assert_eq!(buf.len(), 2 + 130);
    assert_eq!(&buf[..5], &[0x80, 0x82, b'X', b'Y', b'B']);
    assert_eq!(buf[131], 0x00);
}

#[test]
fn test_write_itf8() {
    assert_eq!(itf8(0), [0x00]);
    assert_eq!(itf8(5), [0x05]);
    assert_eq!(itf8(127), [0x7f]);
    assert_eq!(itf8(128), [0x80, 0x80]);
    assert_eq!(itf8(0x0755), [0x87, 0x55]);
    assert_eq!(itf8(16383), [0xbf, 0xff]);
    assert_eq!(itf8(16384), [0xc0, 0x40, 0x00]);
    assert_eq!(itf8(0x07_5599), [0xc7, 0x55, 0x99]);
    assert_eq!(itf8(2097151), [0xdf, 0xff, 0xff]);
    assert_eq!(itf8(2097152), [0xe0, 0x20, 0x00, 0x00]);
    assert_eq!(itf8(0x0755_9bd4), [0xe7, 0x55, 0x9b, 0xd4]);
    assert_eq!(itf8(268435455), [0xef, 0xff, 0xff, 0xff]);
    assert_eq!(itf8(268435456), [0xf1, 0x00, 0x00, 0x00, 0x00]);
    assert_eq!(itf8(i32::MAX), [0xf7, 0xff, 0xff, 0xff, 0x0f]);
    assert_eq!(itf8(-1), [0xff, 0xff, 0xff, 0xff, 0x0f]);
    assert_eq!(itf8(i32::MIN), [0xf8, 0x00, 0x00, 0x00, 0x00]);
    assert_eq!(itf8(-1122229319), [0xfb, 0xd1, 0xc2, 0x3b, 0x09]);

    let mut buf = vec![1, 2];
    write_itf8(&mut buf, 300);
    assert_eq!(buf, [1, 2, 0x81, 0x2c]);
}

#[test]
fn test_tag_key() {
    let key = Key::new([b'N', b'H'], Type::Int8);
    assert_eq!(key.tag(), [b'N', b'H']);
    assert_eq!(key.ty(), Type::Int8);
    assert_eq!(key.id(), 0x4e4863);
    assert_eq!(Key::new([0xff, 0xff], Type::Int16).id(), 0xffff73);

    let codes = [
        (Type::Char, b'A'),
        (Type::Int8, b'c'),
        (Type::UInt8, b'C'),
        (Type::Int16, b's'),
        (Type::UInt16, b'S'),
        (Type::Int32, b'i'),
        (Type::UInt32, b'I'),
        (Type::Float, b'f'),
        (Type::String, b'Z'),
        (Type::Hex, b'H'),
        (Type::Array, b'B'),
    ];
    for (ty, code) in codes {
        assert_eq!(ty.code(), code);
        assert_eq!(Key::new([0, 0], ty).id(), code as i32);
    }
}

#[test]
fn test_write_key() {
    let keys = [
        (MapKey::ReadNamesIncluded, *b"RN"),
        (MapKey::ApDataSeriesDelta, *b"AP"),
        (MapKey::ReferenceRequired, *b"RR"),
        (MapKey::SubstitutionMatrix, *b"SM"),
        (MapKey::TagIdsDictionary, *b"TD"),
    ];
    for (key, bytes) in keys {
        assert_eq!(key.bytes(), bytes);
        let mut buf = vec![9];
        write_key(&mut buf, key);
        assert_eq!(buf, [9, bytes[0], bytes[1]]);
    }
}

#[test]
fn test_write_bool() {
    let mut buf = vec![9];
    write_bool(&mut buf, true);
    assert_eq!(buf, [9, 0x01]);
    write_bool(&mut buf, false);
    assert_eq!(buf, [9, 0x01, 0x00]);
}

#[test]
fn test_write_substitution_matrix() {
    let matrix = SubstitutionMatrix::from_bytes([0x93, 0x1b, 0x6c, 0xb1, 0xc6]);
    assert_eq!(matrix.to_bytes(), [0x93, 0x1b, 0x6c, 0xb1, 0xc6]);
    let mut buf = vec![9];
    write_substitution_matrix(&mut buf, &matrix);
    assert_eq!(buf, [9, 0x93, 0x1b, 0x6c, 0xb1, 0xc6]);
}

#[test]
fn test_write_preservation_map() {
    let map = PreservationMap::new(
        true,
        false,
        true,
        SubstitutionMatrix::from_bytes([0x93, 0x1b, 0x6c, 0xb1, 0xc6]),
        TagIdsDictionary::new(vec![vec![Key::new([b'C', b'O'], Type::String)]]),
    );
    assert!(map.read_names_included());
    assert!(!map.ap_data_series_delta());
    assert!(map.reference_required());
    assert_eq!(map.substitution_matrix().to_bytes()[0], 0x93);
    assert_eq!(map.tag_ids_dictionary().len(), 1);

    let mut buf = vec![0xaa];
    assert_eq!(write_preservation_map(&mut buf, &map), Ok(()));

    let expected = [
        0xaa, // what was there
        0x18, // data_len
        0x05, // map_len
        0x52, 0x4e, 0x01, // RN = true
        0x41, 0x50, 0x00, // AP = false
        0x52, 0x52, 0x01, // RR = true
        0x53, 0x4d, 0x93, 0x1b, 0x6c, 0xb1, 0xc6, // SM
        0x54, 0x44, 0x04, 0x43, 0x4f, 0x5a, 0x00, // TD
    ];
    assert_eq!(buf, expected);
}

#[test]
fn test_slice_builder_of_one_reference_sequence() {
    let mut builder = Builder::new(ReferenceSequenceId::Single(2));
    assert_eq!(builder.reference_sequence_id(), ReferenceSequenceId::Single(2));
    assert!(builder.records().is_empty());

    assert_eq!(builder.add_record(Record::new(2, 10)), Ok(&Record::new(2, 10)));
    assert_eq!(
        builder.add_record(Record::new(3, 11)),
        Err(AddRecordError::ReferenceSequenceIdMismatch)
    );
    assert_eq!(
        builder.add_record(Record::new(-1, 0)),
        Err(AddRecordError::ReferenceSequenceIdMismatch)
    );
    assert_eq!(builder.add_record(Record::new(2, 12)), Ok(&Record::new(2, 12)));
    assert_eq!(builder.records(), &[Record::new(2, 10), Record::new(2, 12)][..]);
}

#[test]
fn test_slice_builder_of_unmapped_records() {
    let mut builder = Builder::new(ReferenceSequenceId::Unmapped);
    assert_eq!(
        builder.add_record(Record::new(0, 1)),
        Err(AddRecordError::ReferenceSequenceIdMismatch)
    );
    assert_eq!(builder.add_record(Record::new(-1, 0)), Ok(&Record::new(-1, 0)));
    assert_eq!(builder.add_record(Record::new(-7, 5)), Ok(&Record::new(-7, 5)));
    assert_eq!(builder.records().len(), 2);
    assert_eq!(Record::new(-7, 5).reference_sequence_id(), None);
    assert_eq!(Record::new(0, 5).reference_sequence_id(), Some(0));
    assert_eq!(Record::new(0, 5).alignment_start(), 5);
}

#[test]
fn test_records() {
    let mut records = Records::new();
    assert_eq!(records.next(), None);

    let container = vec![
        vec![Record::new(0, 1), Record::new(0, 2)],
        Vec::new(),
        vec![Record::new(1, 3)],
    ];
    assert!(!records.read_container_records(Some(container)));
    assert_eq!(records.next(), Some(Record::new(0, 1)));
    assert_eq!(records.next(), Some(Record::new(0, 2)));
    assert_eq!(records.next(), Some(Record::new(1, 3)));
    assert_eq!(records.next(), None);
    assert_eq!(records.next(), None);

    // A container without records, then one with a record.
    assert!(!records.read_container_records(Some(vec![Vec::new()])));
    assert_eq!(records.next(), None);
    assert!(!records.read_container_records(Some(vec![vec![Record::new(2, 4)]])));

    // The end of the file leaves what is held.
    assert!(records.read_container_records(None));
    assert_eq!(records.next(), Some(Record::new(2, 4)));
    assert_eq!(records.next(), None);
    assert!(records.read_container_records(None));
    assert_eq!(records.next(), None);
}

#[test]
fn test_slice_build() {
    let mut builder = Builder::new(ReferenceSequenceId::Single(2));
    builder.add_record(Record::new(2, 10)).unwrap();
    builder.add_record(Record::new(2, 12)).unwrap();

    let external_data = vec![
        ExternalData { block_content_id: 1, data: vec![0xaa, 0xbb] },
        ExternalData { block_content_id: 5131619, data: Vec::new() },
        ExternalData { block_content_id: 2, data: vec![0xcc] },
    ];
    let actual = builder.build(vec![1, 2, 3], external_data).unwrap();

    let expected = Slice::new(
        Header::new(
            ReferenceSequenceId::Single(2),
            1,
            0,
            2,
            0,
            4,
            vec![0, 1, 5131619, 2],
            0,
            [0; 16],
            Vec::new(),
        ),
        Block::new(
            CompressionMethod::Uncompressed,
            ContentType::CoreData,
            0,
            3,
            vec![1, 2, 3],
            0,
        ),
        vec![
            Block::new(
                CompressionMethod::Uncompressed,
                ContentType::ExternalData,
                1,
                2,
                vec![0xaa, 0xbb],
                0,
            ),
            Block::new(
                CompressionMethod::Uncompressed,
                ContentType::ExternalData,
                5131619,
                0,
                Vec::new(),
                0,
            ),
            Block::new(
                CompressionMethod::Uncompressed,
                ContentType::ExternalData,
                2,
                1,
                vec![0xcc],
                0,
            ),
        ],
    );
    assert_eq!(actual, expected);

    assert_eq!(actual.header().reference_sequence_id(), ReferenceSequenceId::Single(2));
    assert_eq!(actual.header().alignment_start(), 1);
    assert_eq!(actual.header().alignment_span(), 0);
    assert_eq!(actual.header().record_count(), 2);
    assert_eq!(actual.header().record_counter(), 0);
    assert_eq!(actual.header().block_count(), 4);
    assert_eq!(actual.header().block_content_ids(), &[0, 1, 5131619, 2][..]);
    assert_eq!(actual.header().embedded_reference_bases_block_content_id(), 0);
    assert_eq!(actual.header().reference_md5(), [0; 16]);
    assert!(actual.header().optional_tags().is_empty());
    assert_eq!(actual.core_data_block().content_type(), ContentType::CoreData);
    assert_eq!(actual.core_data_block().compression_method(), CompressionMethod::Uncompressed);
    assert_eq!(actual.core_data_block().content_id(), 0);
    assert_eq!(actual.core_data_block().uncompressed_len(), 3);
    assert_eq!(actual.core_data_block().data(), &[1, 2, 3][..]);
    assert_eq!(actual.core_data_block().crc32(), 0);
    assert_eq!(actual.external_blocks().len(), 3);
}

#[test]
fn test_slice_build_without_external_data() {
    let mut builder = Builder::new(ReferenceSequenceId::Unmapped);
    builder.add_record(Record::new(-1, 0)).unwrap();
    let slice = builder.build(Vec::new(), Vec::new()).unwrap();
    assert_eq!(slice.header().record_count(), 1);
    assert_eq!(slice.header().block_count(), 1);
    assert_eq!(slice.header().block_content_ids(), &[0][..]);
    assert!(slice.core_data_block().data().is_empty());
    assert!(slice.external_blocks().is_empty());
}

#[test]
fn test_slice_build_without_records() {
    let builder = Builder::new(ReferenceSequenceId::Single(0));
    assert_eq!(
        builder.build(vec![1], Vec::new()),
        Err(BuildError::NoRecords)
    );

    let mut builder = Builder::new(ReferenceSequenceId::Single(0));
    assert!(builder.add_record(Record::new(1, 1)).is_err());
    assert_eq!(
        builder.build(Vec::new(), Vec::new()),
        Err(BuildError::NoRecords)
    );
}

#[test]
fn test_slice_build_with_too_much_data() {
    // A length of 2^31 is one more than 32 signed bits can count.
    let mut builder = Builder::new(ReferenceSequenceId::Single(0));
    builder.add_record(Record::new(0, 1)).unwrap();
    assert_eq!(
        builder.build(vec![0u8; 1 << 31], Vec::new()),
        Err(BuildError::TooLarge)
    );

    let mut builder = Builder::new(ReferenceSequenceId::Single(0));
    builder.add_record(Record::new(0, 1)).unwrap();
    let external_data = vec![
        ExternalData { block_content_id: 1, data: vec![1] },
        ExternalData { block_content_id: 2, data: vec![0u8; 1 << 31] },
    ];
    assert_eq!(
        builder.build(vec![1], external_data),
        Err(BuildError::TooLarge)
    );
}

#[test]
fn test_data_len() {
    assert_eq!(data_len(0), Ok(0));
    assert_eq!(data_len(11), Ok(11));
    assert_eq!(data_len(i32::MAX as usize), Ok(i32::MAX));
    assert_eq!(data_len(1 << 31), Err(WriteError::DataTooLong));
    assert_eq!(data_len(usize::MAX), Err(WriteError::DataTooLong));
}
