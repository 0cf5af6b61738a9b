//! Writing scalar, string, literal and vector atoms through a root frame
//! and reading them back through the typed casts.

use lv2rs_atom::atom::UnknownAtom;
use lv2rs_atom::frame::RootFrame;
use lv2rs_atom::literal;
use lv2rs_atom::literal::Literal;
use lv2rs_atom::ports::AtomInputPort;
use lv2rs_atom::ports::AtomOutputPort;
use lv2rs_atom::scalar;
use lv2rs_atom::string;
use lv2rs_atom::string::AtomString;
use lv2rs_atom::uris::MappedURIDs;
use lv2rs_atom::vector;
use lv2rs_atom::vector::Vector;

#[test]
fn test_scalar() {
    let urids = MappedURIDs::default();

    // Creating the atom space.
    let atom_space = vec![0u8; 256];

    // Creating the ports and connecting them.
    let mut out_port = AtomOutputPort::new();
    out_port.connect_port(atom_space);

    // Writing.
    let mut frame = out_port.write_atom(urids.float).unwrap();
    scalar::initialize_float_bits(&mut frame, 42.0f32.to_bits()).unwrap();
    let data = frame.finish();

    let mut in_port = AtomInputPort::new();
    in_port.connect_port(data);

    // Reading.
    let atom = in_port.get_atom().unwrap();

    // Asserting.
    assert_eq!(4, atom.body_size());
    assert_eq!(urids.float, atom.body_type());
    let bits = scalar::cast_float_bits(&atom, &urids).unwrap();
    assert_eq!(42.0, f32::from_bits(bits));
}

#[test]
fn writing_test_scalar() {
    let urids = MappedURIDs::default();
    let atom_space = vec![0u8; std::mem::size_of::<f32>() + 8 + 8];

    let mut port = AtomOutputPort::new();
    port.connect_port(atom_space);
    let mut frame = port.write_atom(urids.float).unwrap();
    scalar::initialize_float_bits(&mut frame, 42.0f32.to_bits()).unwrap();
    let data = frame.finish();

    let atom = UnknownAtom::from_span(&data).unwrap();
    let bits = scalar::cast_float_bits(&atom, &urids).unwrap();
    assert_eq!(42.0f32, f32::from_bits(bits));
}

#[test]
fn test_literal() {
    let urids = MappedURIDs::default();

    let atom_space = vec![0u8; 256];
    let mut frame = RootFrame::new(atom_space, urids.literal).unwrap();

    // Writing.
    literal::initialize(&mut frame, 0).unwrap();
    assert!(literal::write_string(&mut frame, "Hello World!".as_bytes()).is_ok());
    let data = frame.finish();

    // Reading.
    let atom = UnknownAtom::from_span(&data).unwrap();

    // Asserting.
    assert_eq!(21, atom.body_size());
    assert_eq!(urids.literal, atom.body_type());
    let literal_view = Literal::cast(&atom, &urids).unwrap();
    assert_eq!(0, literal_view.lang());
    assert_eq!("Hello World!", String::from_utf8(literal_view.text_bytes()).unwrap());
}

#[test]
fn test_literal_streaming() {
    // Text appended in pieces, without a terminator: the body holds the
    // sub-header and the bare text.
    let urids = MappedURIDs::default();

    let atom_space = vec![0u8; 256];
    let mut frame = RootFrame::new(atom_space, urids.literal).unwrap();

    literal::initialize(&mut frame, 7).unwrap();
    literal::append_string(&mut frame, "Hello ".as_bytes()).unwrap();
    literal::append_string(&mut frame, "World!".as_bytes()).unwrap();
    let data = frame.finish();

    let atom = UnknownAtom::from_span(&data).unwrap();
    assert_eq!(20, atom.body_size());
    let literal_view = Literal::cast(&atom, &urids).unwrap();
    assert_eq!(7, literal_view.lang());
    assert_eq!("Hello World!", String::from_utf8(literal_view.text_bytes()).unwrap());
}

#[test]
fn test_string() {
    let urids = MappedURIDs::default();

    let atom_space = vec![0u8; 256];
    let mut frame = RootFrame::new(atom_space, urids.string).unwrap();

    // Writing.
    string::write_string(&mut frame, "Hello World!".as_bytes()).unwrap();
    let data = frame.finish();

    // Reading.
    let atom = UnknownAtom::from_span(&data).unwrap();

    // Asserting.
    assert_eq!(13, atom.body_size());
    assert_eq!(urids.string, atom.body_type());
    let string_view = AtomString::cast(&atom, &urids).unwrap();
    assert_eq!(b"Hello World!\0".to_vec(), string_view.data);
    assert_eq!("Hello World!", String::from_utf8(string_view.as_text().unwrap()).unwrap());
}

#[test]
fn test_vector() {
    let urids = MappedURIDs::default();

    let atom_space = vec![0u8; 256];
    let mut frame = RootFrame::new(atom_space, urids.vector).unwrap();

    // Writing.
    vector::initialize(&mut frame, 4, urids.float).unwrap();
    vector::push_float_bits(&mut frame, 0.0f32.to_bits()).unwrap();
    let tail: Vec<u32> = [1.0f32, 2.0, 3.0, 4.0].iter().map(|f| f.to_bits()).collect();
    vector::append_float_bits(&mut frame, &tail).unwrap();
    let data = frame.finish();

    // Reading.
    let atom = UnknownAtom::from_span(&data).unwrap();

    // Asserting.
    assert_eq!(8 + 4 * 5, atom.body_size());
    assert_eq!(urids.vector, atom.body_type());
    let vector_view = Vector::cast(&atom, &urids).unwrap();
    assert_eq!(4, vector_view.child_body_size());
    assert_eq!(urids.float, vector_view.child_body_type());
    assert_eq!(5, vector_view.element_count());
    let elements: Vec<f32> = vector_view
        .float_bits_elements(&urids)
        .unwrap()
        .into_iter()
        .map(f32::from_bits)
        .collect();
    assert_eq!(vec![0.0, 1.0, 2.0, 3.0, 4.0], elements);
}
