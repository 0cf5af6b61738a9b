//! Writing container atoms — tuples, objects and sequences — and walking
//! their contents back out.

use lv2rs_atom::atom::UnknownAtom;
use lv2rs_atom::frame::RootFrame;
use lv2rs_atom::literal;
use lv2rs_atom::literal::Literal;
use lv2rs_atom::object;
use lv2rs_atom::object::Object;
use lv2rs_atom::object::PropertyHeader;
use lv2rs_atom::scalar;
use lv2rs_atom::sequence;
use lv2rs_atom::sequence::Sequence;
use lv2rs_atom::sequence::TimeStamp;
use lv2rs_atom::sequence::TimeUnit;
use lv2rs_atom::tuple;
use lv2rs_atom::tuple::Tuple;
use lv2rs_atom::uris::MappedURIDs;
use lv2rs_atom::vector;
use lv2rs_atom::vector::Vector;

#[test]
fn test_tuple() {
    let urids = MappedURIDs::default();

    let atom_space = vec![0u8; 256];
    let mut frame = RootFrame::new(atom_space, urids.tuple).unwrap();

    // Writing.
    tuple::initialize(&mut frame).unwrap();
    assert_eq!(0, frame.body_size() % 8);

    frame.open_nested(urids.int).unwrap();
    scalar::initialize_int(&mut frame, 42).unwrap();
    frame.close_nested();
    assert_eq!(0, frame.body_size() % 8);

    frame.open_nested(urids.vector).unwrap();
    vector::initialize(&mut frame, 4, urids.int).unwrap();
    vector::append_ints(&mut frame, &[0, 2, 4]).unwrap();
    frame.close_nested();
    assert_eq!(0, frame.body_size() % 8);

    frame.open_nested(urids.literal).unwrap();
    literal::initialize(&mut frame, 0).unwrap();
    literal::write_string(&mut frame, "Hello World!".as_bytes()).unwrap();
    frame.close_nested();
    assert_eq!(0, frame.body_size() % 8);

    let data = frame.finish();

    // Reading.
    let atom = UnknownAtom::from_span(&data).unwrap();

    // i32: header, int, pad.
    let mut assumed_size = 8 + 4 + 4;
    // Vector: header, vector sub-header, slice, pad.
    assumed_size += 8 + 8 + 3 * 4 + 4;
    // Literal: header, literal sub-header, string, pad.
    assumed_size += 8 + 8 + 13 + 3;
    assert_eq!(assumed_size, atom.body_size());
    assert_eq!(urids.tuple, atom.body_type());

    let tuple_view = Tuple::cast(&atom, &urids).unwrap();
    let mut iter = tuple_view.iter();

    let (_, element) = iter.next().unwrap();
    assert_eq!(42, scalar::cast_int(&element, &urids).unwrap());

    let (_, element) = iter.next().unwrap();
    let vector_view = Vector::cast(&element, &urids).unwrap();
    assert_eq!(vec![0, 2, 4], vector_view.int_elements(&urids).unwrap());

    let (_, element) = iter.next().unwrap();
    let literal_view = Literal::cast(&element, &urids).unwrap();
    assert_eq!("Hello World!", String::from_utf8(literal_view.text_bytes()).unwrap());

    assert!(iter.next().is_none());
}

#[test]
fn test_sequence() {
    let urids = MappedURIDs::default();

    let atom_space = vec![0u8; 256];
    let mut frame = RootFrame::new(atom_space, urids.sequence).unwrap();

    // Writing.
    sequence::initialize(&mut frame, &TimeUnit::Frames, &urids).unwrap();
    assert_eq!(0, frame.body_size() % 8);

    sequence::push_event(&mut frame, &TimeStamp::Frames(0), urids.int, &urids).unwrap();
    scalar::initialize_int(&mut frame, 42).unwrap();
    frame.close_nested();
    assert_eq!(0, frame.body_size() % 8);

    // An event stamped in the wrong unit is refused and changes nothing.
    let old_atom_size = frame.body_size();
    assert!(
        sequence::push_event(
            &mut frame,
            &TimeStamp::Beats(42.0f64.to_bits()),
            urids.int,
            &urids
        )
        .is_err()
    );
    assert_eq!(old_atom_size, frame.body_size());

    sequence::push_event(&mut frame, &TimeStamp::Frames(1), urids.tuple, &urids).unwrap();
    tuple::initialize(&mut frame).unwrap();
    assert_eq!(0, frame.body_size() % 8);
    frame.open_nested(urids.int).unwrap();
    scalar::initialize_int(&mut frame, 1).unwrap();
    frame.close_nested();
    assert_eq!(0, frame.body_size() % 8);
    frame.open_nested(urids.int).unwrap();
    scalar::initialize_int(&mut frame, 2).unwrap();
    frame.close_nested();
    assert_eq!(0, frame.body_size() % 8);
    frame.close_nested();
    assert_eq!(0, frame.body_size() % 8);

    let data = frame.finish();

    // Reading.
    let atom = UnknownAtom::from_span(&data).unwrap();
    assert_eq!(urids.sequence, atom.body_type());
    let sequence_view = Sequence::cast(&atom, &urids).unwrap();
    let unit = sequence_view.time_unit(&urids);
    assert_eq!(TimeUnit::Frames, unit);
    let mut sequence_iter = sequence_view.iter();

    let (pre, event) = sequence_iter.next().unwrap();
    assert_eq!(TimeStamp::Frames(0), TimeStamp::from_bytes(&unit, &pre));
    assert_eq!(42, scalar::cast_int(&event, &urids).unwrap());

    let (pre, event) = sequence_iter.next().unwrap();
    assert_eq!(TimeStamp::Frames(1), TimeStamp::from_bytes(&unit, &pre));
    let tuple_view = Tuple::cast(&event, &urids).unwrap();
    {
        let mut iter = tuple_view.iter();
        let (_, element) = iter.next().unwrap();
        assert_eq!(1, scalar::cast_int(&element, &urids).unwrap());
        let (_, element) = iter.next().unwrap();
        assert_eq!(2, scalar::cast_int(&element, &urids).unwrap());
        assert!(iter.next().is_none());
    }

    assert!(sequence_iter.next().is_none());
}

#[test]
fn test_object() {
    let urids = MappedURIDs::default();

    let atom_space = vec![0u8; 256];
    let mut frame = RootFrame::new(atom_space, urids.object).unwrap();

    // An object of class 99 with two properties: key 7 holds int 42, key 8
    // holds a long.
    object::initialize(&mut frame, 0, 99).unwrap();
    object::push_property(&mut frame, 7, 0, urids.int).unwrap();
    scalar::initialize_int(&mut frame, 42).unwrap();
    frame.close_nested();
    object::push_property(&mut frame, 8, 0, urids.long).unwrap();
    scalar::initialize_long(&mut frame, -5).unwrap();
    frame.close_nested();
    let data = frame.finish();

    let atom = UnknownAtom::from_span(&data).unwrap();
    assert_eq!(urids.object, atom.body_type());
    let object_view = Object::cast(&atom, &urids).unwrap();
    assert_eq!(0, object_view.header.id);
    assert_eq!(99, object_view.header.otype);

    let mut iter = object_view.iter();
    let (pre, value) = iter.next().unwrap();
    let property = PropertyHeader::from_bytes(&pre);
    assert_eq!(7, property.key);
    assert_eq!(0, property.context);
    assert_eq!(42, scalar::cast_int(&value, &urids).unwrap());

    let (pre, value) = iter.next().unwrap();
    let property = PropertyHeader::from_bytes(&pre);
    assert_eq!(8, property.key);
    assert_eq!(-5, scalar::cast_long(&value, &urids).unwrap());

    assert!(iter.next().is_none());
}
