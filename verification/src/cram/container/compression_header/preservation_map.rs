//! What of the records a container preserves.

use crate::cram::record::tag;
use vstd::prelude::*;

verus! {

/// The keys of the entries of a preservation map.
#[derive(Clone, Copy, Debug, PartialEq, Eq, Structural)]
pub enum Key {
    /// Whether read names are kept, `RN`.
    ReadNamesIncluded,
    /// Whether alignment starts are written as differences, `AP`.
    ApDataSeriesDelta,
    /// Whether the reference sequence is needed to restore the bases, `RR`.
    ReferenceRequired,
    /// The substitution matrix, `SM`.
    SubstitutionMatrix,
    /// The dictionary of tag ids, `TD`.
    TagIdsDictionary,
}

impl Key {
    /// The two characters that stand for the key in a file.
    pub open spec fn spec_bytes(self) -> Seq<u8> {
        match self {
            Key::ReadNamesIncluded => seq![0x52u8, 0x4eu8],
            Key::ApDataSeriesDelta => seq![0x41u8, 0x50u8],
            Key::ReferenceRequired => seq![0x52u8, 0x52u8],
            Key::SubstitutionMatrix => seq![0x53u8, 0x4du8],
            Key::TagIdsDictionary => seq![0x54u8, 0x44u8],
        }
    }

    /// The two characters that stand for the key in a file.
    pub fn bytes(self) -> (r: [u8; 2])
        ensures
            r@ == self.spec_bytes(),
    {
        let r: [u8; 2] = match self {
            Key::ReadNamesIncluded => [0x52, 0x4e],
            Key::ApDataSeriesDelta => [0x41, 0x50],
            Key::ReferenceRequired => [0x52, 0x52],
            Key::SubstitutionMatrix => [0x53, 0x4d],
            Key::TagIdsDictionary => [0x54, 0x44],
        };
        assert(r@ =~= self.spec_bytes());
        r
    }
}

/// The substitution matrix in the five bytes that a file holds: one byte for
/// each reference base.
#[derive(Clone, Copy, Debug, PartialEq, Eq)]
pub struct SubstitutionMatrix {
    codes: [u8; 5],
}

impl View for SubstitutionMatrix {
    type V = Seq<u8>;

    /// The five bytes.
    closed spec fn view(&self) -> Seq<u8> {
        self.codes@
    }
}

impl SubstitutionMatrix {
    /// The matrix that these five bytes stand for.
    pub fn from_bytes(codes: [u8; 5]) -> (r: SubstitutionMatrix)
        ensures
            r@ == codes@,
    {
        SubstitutionMatrix { codes }
    }

    /// The five bytes that stand for the matrix.
    pub fn to_bytes(&self) -> (r: [u8; 5])
        ensures
            r@ == self@,
            self@.len() == 5,
    {
        self.codes
    }
}

/// The dictionary of tag ids: the lines of keys that the records of a
/// container use.
#[derive(Clone, Debug, PartialEq, Eq)]
pub struct TagIdsDictionary {
    lines: Vec<Vec<tag::Key>>,
}

impl View for TagIdsDictionary {
    type V = Seq<Seq<tag::Key>>;

    /// The lines, each the keys that it holds.
    closed spec fn view(&self) -> Seq<Seq<tag::Key>> {
        self.lines@.map_values(|line: Vec<tag::Key>| line@)
    }
}

impl TagIdsDictionary {
    /// The dictionary of these lines.
    pub fn new(lines: Vec<Vec<tag::Key>>) -> (r: TagIdsDictionary)
        ensures
            r@ == lines@.map_values(|line: Vec<tag::Key>| line@),
    {
        TagIdsDictionary { lines }
    }

    /// The number of lines.
    pub fn len(&self) -> (r: usize)
        ensures
            r == self@.len(),
    {
        self.lines.len()
    }

    /// The keys of the line `i`.
    pub fn line(&self, i: usize) -> (r: &[tag::Key])
        requires
            i < self@.len(),
        ensures
            r@ == self@[i as int],
    {
        self.lines[i].as_slice()
    }
}

/// What a preservation map holds.
pub ghost struct PreservationMapView {
    /// Whether read names are kept.
    pub read_names_included: bool,
    /// Whether alignment starts are written as differences.
    pub ap_data_series_delta: bool,
    /// Whether the reference sequence is needed to restore the bases.
    pub reference_required: bool,
    /// The five bytes of the substitution matrix.
    pub substitution_matrix: Seq<u8>,
    /// The lines of the dictionary of tag ids.
    pub tag_ids_dictionary: Seq<Seq<tag::Key>>,
}

/// The preservation map of a compression header.
#[derive(Clone, Debug, PartialEq, Eq)]
pub struct PreservationMap {
    read_names_included: bool,
    ap_data_series_delta: bool,
    reference_required: bool,
    substitution_matrix: SubstitutionMatrix,
    tag_ids_dictionary: TagIdsDictionary,
}

impl View for PreservationMap {
    type V = PreservationMapView;

    closed spec fn view(&self) -> PreservationMapView {
        PreservationMapView {
            read_names_included: self.read_names_included,
            ap_data_series_delta: self.ap_data_series_delta,
            reference_required: self.reference_required,
            substitution_matrix: self.substitution_matrix@,
            tag_ids_dictionary: self.tag_ids_dictionary@,
        }
    }
}

impl PreservationMap {
    /// The preservation map of these values.
    pub fn new(
        read_names_included: bool,
        ap_data_series_delta: bool,
        reference_required: bool,
        substitution_matrix: SubstitutionMatrix,
        tag_ids_dictionary: TagIdsDictionary,
    ) -> (r: PreservationMap)
        ensures
            r@ == (PreservationMapView {
                read_names_included,
                ap_data_series_delta,
                reference_required,
                substitution_matrix: substitution_matrix@,
                tag_ids_dictionary: tag_ids_dictionary@,
            }),
    {
        PreservationMap {
            read_names_included,
            ap_data_series_delta,
            reference_required,
            substitution_matrix,
            tag_ids_dictionary,
        }
    }

    /// Whether read names are kept.
    pub fn read_names_included(&self) -> (r: bool)
        ensures
            r == self@.read_names_included,
    {
        self.read_names_included
    }

    /// Whether alignment starts are written as differences.
    pub fn ap_data_series_delta(&self) -> (r: bool)
        ensures
            r == self@.ap_data_series_delta,
    {
        self.ap_data_series_delta
    }

    /// Whether the reference sequence is needed to restore the bases.
    pub fn reference_required(&self) -> (r: bool)
        ensures
            r == self@.reference_required,
    {
        self.reference_required
    }

    /// The substitution matrix.
    pub fn substitution_matrix(&self) -> (r: &SubstitutionMatrix)
        ensures
            r@ == self@.substitution_matrix,
    {
        &self.substitution_matrix
    }

    /// The dictionary of tag ids.
    pub fn tag_ids_dictionary(&self) -> (r: &TagIdsDictionary)
        ensures
            r@ == self@.tag_ids_dictionary,
    {
        &self.tag_ids_dictionary
    }
}

} // verus!
