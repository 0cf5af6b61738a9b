//! The full write-and-read-back cycle for every scalar shape, and the small
//! identifier helpers.

use lv2rs_atom::atom::UnknownAtom;
use lv2rs_atom::frame::RootFrame;
use lv2rs_atom::scalar;
use lv2rs_atom::sequence::TimeStamp;
use lv2rs_atom::sequence::TimeUnit;
use lv2rs_atom::uris::MappedURIDs;

#[test]
fn int_round_trip() {
    let urids = MappedURIDs::default();
    let mut frame = RootFrame::new(vec![0u8; 16], urids.int).unwrap();
    scalar::initialize_int(&mut frame, -123456).unwrap();
    let data = frame.finish();
    let atom = UnknownAtom::from_span(&data).unwrap();
    assert_eq!(4, atom.body_size());
    assert_eq!(urids.int, atom.body_type());
    assert_eq!(-123456, scalar::cast_int(&atom, &urids).unwrap());
}

#[test]
fn long_round_trip() {
    let urids = MappedURIDs::default();
    let mut frame = RootFrame::new(vec![0u8; 16], urids.long).unwrap();
    scalar::initialize_long(&mut frame, -(1i64 << 40)).unwrap();
    let data = frame.finish();
    let atom = UnknownAtom::from_span(&data).unwrap();
    assert_eq!(8, atom.body_size());
    assert_eq!(urids.long, atom.body_type());
    assert_eq!(-(1i64 << 40), scalar::cast_long(&atom, &urids).unwrap());
}

#[test]
fn double_round_trip() {
    let urids = MappedURIDs::default();
    let mut frame = RootFrame::new(vec![0u8; 16], urids.double).unwrap();
    scalar::initialize_double_bits(&mut frame, 17.25f64.to_bits()).unwrap();
    let data = frame.finish();
    let atom = UnknownAtom::from_span(&data).unwrap();
    assert_eq!(8, atom.body_size());
    assert_eq!(17.25, f64::from_bits(scalar::cast_double_bits(&atom, &urids).unwrap()));
}

#[test]
fn urid_round_trip() {
    let urids = MappedURIDs::default();
    let mut frame = RootFrame::new(vec![0u8; 16], urids.urid).unwrap();
    scalar::initialize_urid(&mut frame, 9001).unwrap();
    let data = frame.finish();
    let atom = UnknownAtom::from_span(&data).unwrap();
    assert_eq!(4, atom.body_size());
    assert_eq!(9001, scalar::cast_urid(&atom, &urids).unwrap());
}

#[test]
fn bool_round_trip() {
    let urids = MappedURIDs::default();
    for value in [true, false] {
        let mut frame = RootFrame::new(vec![0u8; 16], urids.bool).unwrap();
        scalar::initialize_bool(&mut frame, value).unwrap();
        let data = frame.finish();
        let atom = UnknownAtom::from_span(&data).unwrap();
        assert_eq!(1, atom.body_size());
        assert_eq!(value, scalar::cast_bool(&atom, &urids).unwrap());
    }
}

#[test]
fn default_urid_table() {
    let urids = MappedURIDs::default();
    assert_eq!(0, urids.root);
    assert_eq!(4, urids.bool);
    assert_eq!(5, urids.chunk);
    assert_eq!(9, urids.int);
    assert_eq!(17, urids.sequence);
    assert_eq!(20, urids.tuple);
    assert_eq!(23, urids.vector);
    assert_eq!(31, urids.time_unit);
}

#[test]
fn time_unit_identifiers() {
    let urids = MappedURIDs::default();
    assert_eq!(Ok(TimeUnit::Beats), TimeUnit::try_from_urid(urids.beat_time, &urids));
    assert_eq!(Ok(TimeUnit::Frames), TimeUnit::try_from_urid(urids.frame_time, &urids));
    assert_eq!(Err(()), TimeUnit::try_from_urid(0, &urids));
    assert_eq!(urids.frame_time, TimeUnit::Frames.into_urid(&urids));
    assert_eq!(urids.beat_time, TimeUnit::Beats.into_urid(&urids));
    // Reading a sub-header defaults everything unknown to frame time.
    assert_eq!(TimeUnit::Frames, TimeUnit::from_urid(0, &urids));
    assert_eq!(TimeUnit::Beats, TimeUnit::from_urid(urids.beat_time, &urids));
}

#[test]
fn time_stamp_units() {
    assert_eq!(TimeUnit::Frames, TimeStamp::Frames(17).get_unit());
    assert_eq!(TimeUnit::Beats, TimeStamp::Beats(0).get_unit());
}
