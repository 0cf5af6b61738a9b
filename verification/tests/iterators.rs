//! Walking raw byte spans as runs of pre-headed atoms, including spans that
//! are truncated or corrupted.

use lv2rs_atom::atom::AtomIterator;
use lv2rs_atom::unknown::ChunkIterator;

fn write_u32(data: &mut [u8], pos: usize, value: u32) {
    data[pos..pos + 4].copy_from_slice(&value.to_le_bytes());
}

fn write_u64(data: &mut [u8], pos: usize, value: u64) {
    data[pos..pos + 8].copy_from_slice(&value.to_le_bytes());
}

/// A hand-built span for the reader checks: an 8-byte prefix before each
/// atom, the first atom one byte long so that seven padding bytes follow
/// it.
fn chunk_test_data() -> Vec<u8> {
    let mut data = vec![0u8; 256];

    // First prefix.
    write_u64(&mut data, 0, 650000);
    // First atom: a single byte, an important edge case because it needs
    // seven bytes of padding.
    write_u32(&mut data, 8, 1); // size
    write_u32(&mut data, 12, 42); // type
    data[16] = 17;

    // Padding and second prefix.
    write_u64(&mut data, 24, 4711);
    data
}

#[test]
fn atom_test_chunk_iterator() {
    let mut data = chunk_test_data();
    // Second atom: a single byte again.
    write_u32(&mut data, 32, 1); // size
    write_u32(&mut data, 36, 10); // type
    data[40] = 4;

    let mut iter = AtomIterator::new(&data, 8);

    // First atom.
    let (prefix, atom) = iter.next().unwrap();
    assert_eq!(650000, u64::from_le_bytes(prefix.as_slice().try_into().unwrap()));
    assert_eq!(42, atom.body_type());
    assert_eq!(1, atom.body_size());
    assert_eq!(17, atom.body[0]);

    // Second atom.
    let (prefix, atom) = iter.next().unwrap();
    assert_eq!(4711, u64::from_le_bytes(prefix.as_slice().try_into().unwrap()));
    assert_eq!(10, atom.body_type());
    assert_eq!(1, atom.body_size());
    assert_eq!(4, atom.body[0]);
}

#[test]
fn unknown_test_chunk_iterator() {
    let mut data = chunk_test_data();
    // Second atom: a 32-bit value.
    write_u32(&mut data, 32, 4); // size
    write_u32(&mut data, 36, 10); // type
    write_u32(&mut data, 40, 4);

    let mut iter = ChunkIterator::new(&data, 8);

    // First atom.
    let (prefix, atom) = iter.next().unwrap();
    assert_eq!(650000, u64::from_le_bytes(prefix.as_slice().try_into().unwrap()));
    assert_eq!(42, atom.body_type());
    assert_eq!(1, atom.body_size());
    assert_eq!(17, atom.body[0]);

    // Second atom.
    let (prefix, atom) = iter.next().unwrap();
    assert_eq!(4711, u64::from_le_bytes(prefix.as_slice().try_into().unwrap()));
    assert_eq!(10, atom.body_type());
    assert_eq!(4, atom.body_size());
    assert_eq!(4, u32::from_le_bytes(atom.body.as_slice().try_into().unwrap()));
}

#[test]
fn iterator_ends_on_truncated_span() {
    // Too short for even one pre-header and header.
    let data = vec![0u8; 15];
    let mut iter = AtomIterator::new(&data, 8);
    assert!(iter.next().is_none());

    // The declared body runs past the span's end.
    let mut data = vec![0u8; 32];
    write_u32(&mut data, 8, 1000); // size far beyond the span
    write_u32(&mut data, 12, 42);
    let mut iter = AtomIterator::new(&data, 8);
    assert!(iter.next().is_none());

    // An empty span.
    let data: Vec<u8> = Vec::new();
    let mut iter = AtomIterator::new(&data, 0);
    assert!(iter.next().is_none());
}

#[test]
fn iterator_terminates_on_garbage() {
    // An adversarial span: every walk must end after finitely many items
    // and never read out of bounds.  The byte pattern yields headers with
    // arbitrary sizes.
    let mut data = vec![0u8; 257];
    let mut state: u32 = 0x12345678;
    for byte in data.iter_mut() {
        // A simple deterministic scramble.
        state = state.wrapping_mul(1664525).wrapping_add(1013904223);
        *byte = (state >> 24) as u8;
    }
    for pre in [0usize, 8, 16] {
        let mut iter = AtomIterator::new(&data, pre);
        let mut produced = 0usize;
        while let Some((prefix, atom)) = iter.next() {
            assert_eq!(pre, prefix.len());
            assert_eq!(atom.body_size() as usize, atom.body.len());
            produced += 1;
            // One item per 8 bytes is the hard ceiling.
            assert!(produced <= (data.len() + 7) / 8);
        }
    }
}

#[test]
fn iterator_skips_to_alignment() {
    // A valid atom whose body ends unaligned, followed by a second atom on
    // the next boundary: the walk must re-align in between.
    let mut data = vec![0u8; 26];
    write_u32(&mut data, 0, 3); // size
    write_u32(&mut data, 4, 1); // type
    data[8] = 0xaa;
    data[9] = 0xbb;
    data[10] = 0xcc;
    // Next boundary is 16.
    write_u32(&mut data, 16, 2); // size
    write_u32(&mut data, 20, 2); // type
    data[24] = 0xdd;
    data[25] = 0xee;

    let mut iter = AtomIterator::new(&data, 0);
    let (_, first) = iter.next().unwrap();
    assert_eq!(vec![0xaa, 0xbb, 0xcc], first.body);
    let (_, second) = iter.next().unwrap();
    assert_eq!(vec![0xdd, 0xee], second.body);
}
