use noodles::bam::bai::index::reference_sequence::bin::Chunk;
use noodles::bam::bai::index::reference_sequence::{
    Bin, Builder, Metadata, ReferenceSequence, MAX_INTERVAL_COUNT, WINDOW_SIZE,
};
use noodles::bam::record::{Flags, UNMAPPED};
use noodles::bam::Record;
use noodles::bgzf::VirtualPosition;

fn chunk(start: u64, end: u64) -> Chunk {
    Chunk::new(VirtualPosition::from(start), VirtualPosition::from(end))
}

fn mapped(bin: u16, position: i32, reference_len: u32) -> Record {
    Record::new(bin, Flags::empty(), position, reference_len).unwrap()
}

fn unmapped(bin: u16, position: i32, reference_len: u32) -> Record {
    Record::new(bin, Flags::from_bits(UNMAPPED), position, reference_len).unwrap()
}

/// What a reader of the index does with chunks that touch or overlap: it
/// reads them as one.
fn coalesce(chunks: &[Chunk]) -> Vec<Chunk> {
    let mut merged: Vec<Chunk> = Vec::new();
    for c in chunks {
        match merged.last().copied() {
            Some(last) if c.start() <= last.end() => {
                let end = if c.end() > last.end() { c.end() } else { last.end() };
                *merged.last_mut().unwrap() = Chunk::new(last.start(), end);
            }
            _ => merged.push(*c),
        }
    }
    merged
}

#[test]
fn test_build() {
    let mut builder = Builder::default();

    // sq0, 8 bases: a mapped record at 2 with 4M, then an unmapped one at 6
    // with 2M. Both fall in bin 4681.
    let record = mapped(4681, 2, 4);
    builder.add_record(&record, chunk(55, 89));

    let record = unmapped(4681, 6, 2);
    builder.add_record(&record, chunk(89, 144));

    let actual = builder.build();

    let mut expected_linear_index = vec![VirtualPosition::default(); MAX_INTERVAL_COUNT];
    expected_linear_index[0] = VirtualPosition::from(89);

    let expected = ReferenceSequence::new(
        vec![Bin::new(4681, vec![chunk(55, 89), chunk(89, 144)])],
        expected_linear_index,
        Some(Metadata::new(
            VirtualPosition::from(55),
            VirtualPosition::from(144),
            1,
            1,
        )),
    );

    assert_eq!(actual, expected);

    // The two chunks touch: read as one they are the span from 55 to 144.
    assert_eq!(actual.bins().len(), 1);
    assert_eq!(coalesce(actual.bins()[0].chunks()), vec![chunk(55, 144)]);
}

#[test]
fn test_build_with_no_bins() {
    let reference_sequence = Builder::default().build();
    assert_eq!(reference_sequence, ReferenceSequence::default());
}

#[test]
fn test_default() {
    let builder = Builder::default();

    assert_eq!(builder.bin_count(), 0);

    assert!(builder
        .intervals()
        .iter()
        .all(|&pos| pos == VirtualPosition::default()));

    assert_eq!(builder.start_position(), VirtualPosition::max());
    assert_eq!(builder.end_position(), VirtualPosition::default());
    assert_eq!(builder.mapped_record_count(), 0);
    assert_eq!(builder.unmapped_record_count(), 0);
}

#[test]
fn test_empty_reference_sequence() {
    let reference_sequence = ReferenceSequence::default();
    assert!(reference_sequence.bins().is_empty());
    assert_eq!(reference_sequence.intervals().len(), MAX_INTERVAL_COUNT);
    assert_eq!(reference_sequence.intervals().len(), 131072);
    assert!(reference_sequence
        .intervals()
        .iter()
        .all(|&pos| pos == VirtualPosition::from(0)));
    assert_eq!(reference_sequence.metadata(), None);
}

#[test]
fn test_default_builder_has_all_windows() {
    let builder = Builder::default();
    assert_eq!(builder.intervals().len(), MAX_INTERVAL_COUNT);
    assert_eq!(WINDOW_SIZE, 16384);
}

#[test]
fn test_chunks_are_kept_in_order_and_not_merged() {
    let mut builder = Builder::default();
    builder.add_record(&mapped(4681, 1, 10), chunk(10, 30));
    builder.add_record(&mapped(4681, 5, 10), chunk(20, 40));
    builder.add_record(&mapped(4681, 5, 10), chunk(20, 40));
    let reference_sequence = builder.build();
    assert_eq!(
        reference_sequence.bins(),
        &[Bin::new(
            4681,
            vec![chunk(10, 30), chunk(20, 40), chunk(20, 40)]
        )][..]
    );
}

#[test]
fn test_bins_come_in_the_order_first_seen() {
    let mut builder = Builder::default();
    builder.add_record(&mapped(4682, 16385, 5), chunk(1, 2));
    builder.add_record(&mapped(4681, 1, 5), chunk(2, 3));
    builder.add_record(&mapped(585, 16380, 10), chunk(3, 4));
    builder.add_record(&mapped(4682, 16390, 5), chunk(4, 5));
    assert_eq!(builder.bin_count(), 3);
    let reference_sequence = builder.build();
    assert_eq!(
        reference_sequence.bins(),
        &[
            Bin::new(4682, vec![chunk(1, 2), chunk(4, 5)]),
            Bin::new(4681, vec![chunk(2, 3)]),
            Bin::new(585, vec![chunk(3, 4)]),
        ][..]
    );
    assert_eq!(reference_sequence.bins()[0].id(), 4682);
}

#[test]
fn test_linear_index_windows_of_a_record() {
    // Bases 16384 and 16385 lie in the windows 0 and 1.
    let mut builder = Builder::default();
    builder.add_record(&mapped(585, 16384, 2), chunk(7, 9));
    let intervals = builder.intervals();
    assert_eq!(intervals[0], VirtualPosition::from(7));
    assert_eq!(intervals[1], VirtualPosition::from(7));
    assert_eq!(intervals[2], VirtualPosition::default());

    // Base 16385 is the first of window 1; base 49152 the last of window 2.
    let mut builder = Builder::default();
    builder.add_record(&mapped(73, 16385, 32768), chunk(11, 12));
    let intervals = builder.intervals();
    assert_eq!(intervals[0], VirtualPosition::default());
    assert_eq!(intervals[1], VirtualPosition::from(11));
    assert_eq!(intervals[2], VirtualPosition::from(11));
    assert_eq!(intervals[3], VirtualPosition::default());
}

#[test]
fn test_linear_index_last_window() {
    let mut builder = Builder::default();
    builder.add_record(&mapped(0, i32::MAX, 1), chunk(5, 6));
    let intervals = builder.intervals();
    assert_eq!(intervals[MAX_INTERVAL_COUNT - 1], VirtualPosition::from(5));
    assert_eq!(intervals[MAX_INTERVAL_COUNT - 2], VirtualPosition::default());
}

#[test]
fn test_linear_index_last_writer_wins() {
    let mut in_order = Builder::default();
    in_order.add_record(&mapped(4681, 2, 4), chunk(55, 89));
    in_order.add_record(&mapped(4681, 6, 2), chunk(89, 144));
    assert_eq!(in_order.intervals()[0], VirtualPosition::from(89));

    let mut reversed = Builder::default();
    reversed.add_record(&mapped(4681, 6, 2), chunk(89, 144));
    reversed.add_record(&mapped(4681, 2, 4), chunk(55, 89));
    assert_eq!(reversed.intervals()[0], VirtualPosition::from(55));
}

#[test]
fn test_linear_index_of_a_record_that_covers_no_base() {
    // Without a base covered the last base is the one before the first.
    let mut builder = Builder::default();
    builder.add_record(&unmapped(4681, 100, 0), chunk(3, 4));
    assert_eq!(builder.intervals()[0], VirtualPosition::from(3));

    // The first base opens window 1 and the one before it lies in window 0:
    // no window is set.
    let mut builder = Builder::default();
    builder.add_record(&unmapped(4682, 16385, 0), chunk(3, 4));
    assert_eq!(builder.intervals()[0], VirtualPosition::default());
    assert_eq!(builder.intervals()[1], VirtualPosition::default());

    // A record without a position counts for the first window.
    let mut builder = Builder::default();
    builder.add_record(&unmapped(4680, 0, 0), chunk(8, 9));
    assert_eq!(builder.intervals()[0], VirtualPosition::from(8));
    assert_eq!(builder.intervals()[1], VirtualPosition::default());
}

#[test]
fn test_metadata_is_min_and_max_in_any_order() {
    let records = [
        (mapped(4681, 10, 5), chunk(300, 400)),
        (unmapped(4681, 12, 5), chunk(100, 200)),
        (mapped(4681, 14, 5), chunk(200, 900)),
        (mapped(4681, 16, 5), chunk(150, 160)),
    ];
    let orders: [[usize; 4]; 4] = [[0, 1, 2, 3], [3, 2, 1, 0], [1, 3, 0, 2], [2, 0, 3, 1]];
    for order in orders {
        let mut builder = Builder::default();
        for i in order {
            builder.add_record(&records[i].0, records[i].1);
        }
        assert_eq!(builder.start_position(), VirtualPosition::from(100));
        assert_eq!(builder.end_position(), VirtualPosition::from(900));
        assert_eq!(builder.mapped_record_count(), 3);
        assert_eq!(builder.unmapped_record_count(), 1);
        let reference_sequence = builder.build();
        assert_eq!(
            reference_sequence.metadata(),
            Some(&Metadata::new(
                VirtualPosition::from(100),
                VirtualPosition::from(900),
                3,
                1
            ))
        );
    }
}

#[test]
fn test_metadata_accessors() {
    let metadata = Metadata::new(VirtualPosition::from(55), VirtualPosition::from(144), 1, 2);
    assert_eq!(metadata.start_position(), VirtualPosition::from(55));
    assert_eq!(metadata.end_position(), VirtualPosition::from(144));
    assert_eq!(metadata.mapped_record_count(), 1);
    assert_eq!(metadata.unmapped_record_count(), 2);
}

#[test]
fn test_record_new() {
    let record = Record::new(4681, Flags::from_bits(0x14), 6, 2).unwrap();
    assert_eq!(record.bin(), 4681);
    assert!(record.flags().is_unmapped());
    assert_eq!(record.position(), 6);
    assert_eq!(record.reference_len(), 2);
    assert!(!Flags::empty().is_unmapped());
    assert!(!Flags::from_bits(0x13).is_unmapped());

    assert!(Record::new(0, Flags::empty(), 0, 0).is_some());
    assert!(Record::new(0, Flags::empty(), i32::MAX, 1).is_some());
    assert!(Record::new(0, Flags::empty(), 1, i32::MAX as u32).is_some());
    assert_eq!(Record::new(0, Flags::empty(), -1, 1), None);
    assert_eq!(Record::new(0, Flags::empty(), i32::MAX, 2), None);
    assert_eq!(Record::new(0, Flags::empty(), 2, i32::MAX as u32), None);
    assert_eq!(Record::new(0, Flags::empty(), 1, u32::MAX), None);
}

#[test]
fn test_bin_builder() {
    let mut builder = Bin::builder();
    assert_eq!(builder.id(), 0);
    builder.set_id(37450);
    builder.add_chunk(chunk(1, 2));
    builder.add_chunk(chunk(2, 3));
    let bin = builder.build();
    assert_eq!(bin.id(), 37450);
    assert_eq!(bin.chunks(), &[chunk(1, 2), chunk(2, 3)][..]);
    assert_eq!(bin.chunks()[1].start(), VirtualPosition::from(2));
    assert_eq!(bin.chunks()[1].end(), VirtualPosition::from(3));
}

#[test]
fn test_many_bins() {
    let mut builder = Builder::default();
    for round in 0..3u64 {
        for id in 0..500u16 {
            let start = round * 1000 + u64::from(id);
            builder.add_record(&mapped(id, 1, 1), chunk(start, start + 1));
        }
    }
    assert_eq!(builder.bin_count(), 500);
    let reference_sequence = builder.build();
    for (i, bin) in reference_sequence.bins().iter().enumerate() {
        assert_eq!(bin.id(), i as u32);
        let i = i as u64;
        assert_eq!(
            bin.chunks(),
            &[chunk(i, i + 1), chunk(1000 + i, 1001 + i), chunk(2000 + i, 2001 + i)][..]
        );
    }
}
