//! Every error variant, produced from an input that earns it, and the
//! shape-validity rules of the array-shaped bodies.

use lv2rs_atom::atom::array_tail_len;
use lv2rs_atom::atom::AtomHeader;
use lv2rs_atom::atom::GetBodyError;
use lv2rs_atom::atom::UnknownAtom;
use lv2rs_atom::frame::RootFrame;
use lv2rs_atom::literal;
use lv2rs_atom::literal::LiteralWritingError;
use lv2rs_atom::ports::AtomInputPort;
use lv2rs_atom::ports::AtomOutputPort;
use lv2rs_atom::ports::GetAtomError;
use lv2rs_atom::ports::WriteAtomError;
use lv2rs_atom::scalar;
use lv2rs_atom::sequence;
use lv2rs_atom::sequence::SequenceWritingError;
use lv2rs_atom::sequence::TimeStamp;
use lv2rs_atom::sequence::TimeUnit;
use lv2rs_atom::string;
use lv2rs_atom::string::AtomString;
use lv2rs_atom::string::AtomStringWritingError;
use lv2rs_atom::unknown;
use lv2rs_atom::uris::MappedURIDs;
use lv2rs_atom::vector::Vector;

fn int_atom(value: i32, urids: &MappedURIDs) -> Vec<u8> {
    let mut frame = RootFrame::new(vec![0u8; 16], urids.int).unwrap();
    scalar::initialize_int(&mut frame, value).unwrap();
    frame.finish()
}

#[test]
fn wrong_urid_is_reported() {
    let urids = MappedURIDs::default();
    let data = int_atom(42, &urids);
    let atom = UnknownAtom::from_span(&data).unwrap();
    assert_eq!(Err(GetBodyError::WrongURID), scalar::cast_long(&atom, &urids));
    assert_eq!(Err(GetBodyError::WrongURID), scalar::cast_float_bits(&atom, &urids));
    assert!(matches!(Vector::cast(&atom, &urids), Err(GetBodyError::WrongURID)));
    // The right cast still works.
    assert_eq!(Ok(42), scalar::cast_int(&atom, &urids));
}

#[test]
fn malformed_scalar_is_reported() {
    let urids = MappedURIDs::default();
    // A 6-byte body under the int identifier: neither 4 nor anything a
    // 32-bit integer could live in.
    let mut frame = RootFrame::new(vec![0u8; 16], urids.int).unwrap();
    frame.write_raw(&[1, 2, 3, 4, 5, 6]).unwrap();
    let data = frame.finish();
    let atom = UnknownAtom::from_span(&data).unwrap();
    assert_eq!(6, atom.body_size());
    assert_eq!(Err(GetBodyError::MalformedAtom), scalar::cast_int(&atom, &urids));
}

#[test]
fn truncated_span_is_malformed() {
    // Shorter than a header.
    assert!(matches!(UnknownAtom::from_span(&[0u8; 7]), Err(GetBodyError::MalformedAtom)));
    // The declared body does not fit into the span.
    let mut data = vec![0u8; 12];
    data[0] = 200; // size 200 in a 12-byte span
    assert!(matches!(UnknownAtom::from_span(&data), Err(GetBodyError::MalformedAtom)));
}

#[test]
fn insufficient_space_is_reported() {
    let urids = MappedURIDs::default();
    // No room for even one header.
    assert!(matches!(
        RootFrame::new(vec![0u8; 7], urids.int),
        Err(WriteAtomError::InsufficientSpace)
    ));
    // Room for the header, but not for the body.
    let mut frame = RootFrame::new(vec![0u8; 10], urids.int).unwrap();
    assert!(matches!(
        scalar::initialize_int(&mut frame, 42),
        Err(WriteAtomError::InsufficientSpace)
    ));
    // A failed write leaves the size untouched.
    assert_eq!(0, frame.body_size());
}

#[test]
fn unconnected_ports_report_null() {
    let mut out_port = AtomOutputPort::new();
    assert!(matches!(out_port.write_atom(1), Err(WriteAtomError::NullPointer)));
    let in_port = AtomInputPort::new();
    assert!(matches!(in_port.get_atom(), Err(GetAtomError::NullPointer)));
}

#[test]
fn string_is_written_once() {
    let urids = MappedURIDs::default();
    let mut frame = RootFrame::new(vec![0u8; 64], urids.string).unwrap();
    string::write_string(&mut frame, b"one").unwrap();
    assert_eq!(
        Err(AtomStringWritingError::NotFirstCall),
        string::write_string(&mut frame, b"two")
    );
    // The first content stays as it was.
    let data = frame.finish();
    let atom = UnknownAtom::from_span(&data).unwrap();
    let string_view = AtomString::cast(&atom, &urids).unwrap();
    assert_eq!(b"one".to_vec(), string_view.as_text().unwrap());
}

#[test]
fn string_text_extraction_checks_termination() {
    let urids = MappedURIDs::default();
    // An unterminated body.
    let mut frame = RootFrame::new(vec![0u8; 32], urids.string).unwrap();
    frame.write_raw(b"abc").unwrap();
    let data = frame.finish();
    let atom = UnknownAtom::from_span(&data).unwrap();
    assert!(AtomString::cast(&atom, &urids).unwrap().as_text().is_none());
    // An interior zero byte.
    let mut frame = RootFrame::new(vec![0u8; 32], urids.string).unwrap();
    frame.write_raw(&[97, 0, 98, 0]).unwrap();
    let data = frame.finish();
    let atom = UnknownAtom::from_span(&data).unwrap();
    assert!(AtomString::cast(&atom, &urids).unwrap().as_text().is_none());
    // An empty body.
    let mut frame = RootFrame::new(vec![0u8; 32], urids.string).unwrap();
    let data = frame.finish();
    let atom = UnknownAtom::from_span(&data).unwrap();
    assert!(AtomString::cast(&atom, &urids).unwrap().as_text().is_none());
}

#[test]
fn literal_text_is_written_once() {
    let urids = MappedURIDs::default();
    let mut frame = RootFrame::new(vec![0u8; 64], urids.literal).unwrap();
    literal::initialize(&mut frame, 0).unwrap();
    literal::write_string(&mut frame, b"one").unwrap();
    assert_eq!(
        Err(LiteralWritingError::NotFirstCall),
        literal::write_string(&mut frame, b"two")
    );
}

#[test]
fn literal_shorter_than_its_sub_header_is_malformed() {
    let urids = MappedURIDs::default();
    let mut frame = RootFrame::new(vec![0u8; 16], urids.literal).unwrap();
    frame.write_raw(&[1, 2, 3]).unwrap();
    let data = frame.finish();
    let atom = UnknownAtom::from_span(&data).unwrap();
    assert!(matches!(
        literal::Literal::cast(&atom, &urids),
        Err(GetBodyError::MalformedAtom)
    ));
}

#[test]
fn sequence_unit_mismatch_reports_and_writes_nothing() {
    let urids = MappedURIDs::default();
    let mut frame = RootFrame::new(vec![0u8; 128], urids.sequence).unwrap();
    sequence::initialize(&mut frame, &TimeUnit::Beats, &urids).unwrap();
    let before = frame.body_size();
    assert_eq!(
        Err(SequenceWritingError::UnitMismatch),
        sequence::push_event(&mut frame, &TimeStamp::Frames(0), urids.int, &urids)
    );
    assert_eq!(before, frame.body_size());
    // The matching unit is accepted.
    sequence::push_event(&mut frame, &TimeStamp::Beats(1.5f64.to_bits()), urids.int, &urids)
        .unwrap();
    scalar::initialize_int(&mut frame, 3).unwrap();
    frame.close_nested();
}

#[test]
fn array_divisibility_rule() {
    // The element count exists exactly when the tail splits into whole
    // elements.
    assert_eq!(Ok(3), array_tail_len(8 + 12, 8, 4));
    assert_eq!(Ok(0), array_tail_len(8, 8, 4));
    assert_eq!(Err(GetBodyError::MalformedAtom), array_tail_len(8 + 13, 8, 4));
    assert_eq!(Err(GetBodyError::MalformedAtom), array_tail_len(7, 8, 4));
    assert_eq!(Ok(13), array_tail_len(13, 0, 1));
}

#[test]
fn vector_divisibility_is_checked_at_cast() {
    let urids = MappedURIDs::default();
    // Declared 4-byte elements over a 6-byte run.
    let mut frame = RootFrame::new(vec![0u8; 64], urids.vector).unwrap();
    lv2rs_atom::vector::initialize(&mut frame, 4, urids.int).unwrap();
    frame.write_raw(&[1, 2, 3, 4, 5, 6]).unwrap();
    let data = frame.finish();
    let atom = UnknownAtom::from_span(&data).unwrap();
    assert!(matches!(Vector::cast(&atom, &urids), Err(GetBodyError::MalformedAtom)));

    // A zero element width can hold no count at all.
    let mut frame = RootFrame::new(vec![0u8; 64], urids.vector).unwrap();
    lv2rs_atom::vector::initialize(&mut frame, 0, urids.int).unwrap();
    let data = frame.finish();
    let atom = UnknownAtom::from_span(&data).unwrap();
    assert!(matches!(Vector::cast(&atom, &urids), Err(GetBodyError::MalformedAtom)));

    // A vector body shorter than its sub-header.
    let mut frame = RootFrame::new(vec![0u8; 64], urids.vector).unwrap();
    frame.write_raw(&[9, 9]).unwrap();
    let data = frame.finish();
    let atom = UnknownAtom::from_span(&data).unwrap();
    assert!(matches!(Vector::cast(&atom, &urids), Err(GetBodyError::MalformedAtom)));
}

#[test]
fn chunk_round_trip_and_wrong_type() {
    let urids = MappedURIDs::default();
    let mut frame = RootFrame::new(vec![0u8; 32], urids.chunk).unwrap();
    unknown::initialize(&mut frame, &[9, 8, 7]).unwrap();
    let data = frame.finish();
    let atom = UnknownAtom::from_span(&data).unwrap();
    assert_eq!(vec![9, 8, 7], unknown::cast_chunk(&atom, &urids).unwrap());
    assert!(matches!(scalar::cast_int(&atom, &urids), Err(GetBodyError::WrongURID)));
}

#[test]
fn header_encoding_round_trip() {
    let h = AtomHeader { size: 513, atom_type: 77 };
    let bytes = h.encode();
    assert_eq!(vec![1, 2, 0, 0, 77, 0, 0, 0], bytes);
    assert_eq!(h, AtomHeader::read_at(&bytes, 0));
}
