//! The vector atom: a homogeneous run of fixed-size elements behind a
//! sub-header that names the element type and its byte width.
//!
//! A vector is streaming-appendable: after its sub-header is initialized,
//! elements may be pushed one at a time or appended as whole runs, in any
//! combination.  The element count is never stored; readers derive it from
//! the body length, which must split into whole elements.

use vstd::bytes::lemma_auto_spec_u32_to_from_le_bytes;
use vstd::bytes::spec_u32_from_le_bytes;
use vstd::bytes::spec_u32_to_le_bytes;
use vstd::bytes::u32_from_le_bytes;
use vstd::bytes::u32_to_le_bytes;
use vstd::prelude::*;
use vstd::slice::slice_subrange;
use vstd::slice::slice_to_vec;

verus! {

use crate::atom::array_tail_len;
use crate::atom::spec_array_tail_ok;
use crate::atom::GetBodyError;
use crate::atom::UnknownAtom;
use crate::frame::spec_fits;
use crate::frame::spec_wrote;
use crate::frame::RootFrame;
use crate::scalar::spec_int_body;
use crate::scalar::spec_int_value;
use crate::uris::MappedURIDs;

/// The sub-header of a vector: the byte width of each element and the
/// element type's identifier.
#[derive(Clone, Copy, PartialEq, Eq, Structural, Debug)]
pub struct VectorHeader {
    /// Byte width of each element; never 0 in a valid vector.
    pub child_size: u32,
    /// Identifier of the element type.
    pub child_type: u32,
}

/// The 8-byte wire encoding of a vector's sub-header: element width, then
/// element type, both little-endian.
pub open spec fn spec_vector_header_bytes(h: VectorHeader) -> Seq<u8> {
    spec_u32_to_le_bytes(h.child_size) + spec_u32_to_le_bytes(h.child_type)
}

/// The sub-header encoded at the start of a vector's body.
pub open spec fn spec_vector_header_at(body: Seq<u8>) -> VectorHeader {
    VectorHeader {
        child_size: spec_u32_from_le_bytes(body.subrange(0, 4)),
        child_type: spec_u32_from_le_bytes(body.subrange(4, 8)),
    }
}

/// Encoding a vector sub-header and decoding it gives the sub-header back,
/// whatever tail follows it.
pub proof fn lemma_vector_header_round_trip(h: VectorHeader, tail: Seq<u8>)
    ensures
        spec_vector_header_bytes(h).len() == 8,
        spec_vector_header_at(spec_vector_header_bytes(h) + tail) == h,
{
    lemma_auto_spec_u32_to_from_le_bytes();
    let b = spec_vector_header_bytes(h) + tail;
    assert(b.subrange(0, 4) =~= spec_u32_to_le_bytes(h.child_size));
    assert(b.subrange(4, 8) =~= spec_u32_to_le_bytes(h.child_type));
}

/// The concatenated little-endian encodings of a run of 32-bit elements.
pub open spec fn spec_u32s_bytes(vs: Seq<u32>) -> Seq<u8>
    decreases vs.len(),
{
    if vs.len() == 0 {
        Seq::empty()
    } else {
        spec_u32s_bytes(vs.drop_last()) + spec_u32_to_le_bytes(vs.last())
    }
}

/// Appending one element extends the encoding by that element's bytes.
pub proof fn lemma_u32s_bytes_push(vs: Seq<u32>, v: u32)
    ensures
        spec_u32s_bytes(vs.push(v)) == spec_u32s_bytes(vs) + spec_u32_to_le_bytes(v),
{
    assert(vs.push(v).drop_last() =~= vs);
    assert(vs.push(v).last() == v);
}

/// The encoding of `n` elements is `4 * n` bytes long.
pub proof fn lemma_u32s_bytes_len(vs: Seq<u32>)
    ensures
        spec_u32s_bytes(vs).len() == 4 * vs.len(),
    decreases vs.len(),
{
    lemma_auto_spec_u32_to_from_le_bytes();
    if vs.len() > 0 {
        lemma_u32s_bytes_len(vs.drop_last());
    }
}

/// The encoded run holds each element at its own offset.
pub proof fn lemma_u32s_bytes_elements(vs: Seq<u32>, k: int)
    requires
        0 <= k < vs.len(),
    ensures
        spec_u32s_bytes(vs).subrange(4 * k, 4 * k + 4) == spec_u32_to_le_bytes(vs[k]),
    decreases vs.len(),
{
    lemma_auto_spec_u32_to_from_le_bytes();
    lemma_u32s_bytes_len(vs);
    lemma_u32s_bytes_len(vs.drop_last());
    if k == vs.len() - 1 {
        assert(spec_u32s_bytes(vs).subrange(4 * k, 4 * k + 4) =~= spec_u32_to_le_bytes(vs.last()));
    } else {
        lemma_u32s_bytes_elements(vs.drop_last(), k);
        assert(spec_u32s_bytes(vs).subrange(4 * k, 4 * k + 4) =~= spec_u32s_bytes(
            vs.drop_last(),
        ).subrange(4 * k, 4 * k + 4));
    }
}

/// The concatenated encodings of a run of 32-bit integers, by their bit
/// patterns.
pub open spec fn spec_ints_bytes(vs: Seq<i32>) -> Seq<u8> {
    spec_u32s_bytes(vs.map_values(|v: i32| v as u32))
}

/// Vector round trip: a run of 32-bit integers appended to a vector and
/// read back element by element yields the integers again.
pub proof fn lemma_int_elements_round_trip(vs: Seq<i32>, k: int)
    requires
        0 <= k < vs.len(),
    ensures
        spec_ints_bytes(vs).len() == 4 * vs.len(),
        spec_int_value(spec_ints_bytes(vs).subrange(4 * k, 4 * k + 4)) == vs[k],
{
    lemma_auto_spec_u32_to_from_le_bytes();
    let bits = vs.map_values(|v: i32| v as u32);
    lemma_u32s_bytes_len(bits);
    lemma_u32s_bytes_elements(bits, k);
    let v = vs[k];
    assert(bits[k] == v as u32);
    assert(spec_ints_bytes(vs).subrange(4 * k, 4 * k + 4) == spec_u32_to_le_bytes(bits[k]));
    assert(spec_u32_from_le_bytes(spec_u32_to_le_bytes(bits[k])) == bits[k]);
    assert((v as u32) as i32 == v) by (bit_vector);
}

/// Encode a run of 32-bit elements into its concatenated byte form.
fn u32s_to_bytes(elems: &[u32]) -> (r: Vec<u8>)
    ensures
        r@ == spec_u32s_bytes(elems@),
{
    let n = elems.len();
    let mut bytes: Vec<u8> = Vec::new();
    let mut i: usize = 0;
    proof {
        assert(elems@.take(0) =~= Seq::<u32>::empty());
    }
    while i < n
        invariant
            i <= n,
            n == elems@.len(),
            bytes@ == spec_u32s_bytes(elems@.take(i as int)),
        decreases n - i,
    {
        let mut e = u32_to_le_bytes(elems[i]);
        bytes.append(&mut e);
        proof {
            assert(elems@.take(i + 1) =~= elems@.take(i as int).push(elems@[i as int]));
            lemma_u32s_bytes_push(elems@.take(i as int), elems@[i as int]);
        }
        i = i + 1;
    }
    proof {
        assert(elems@.take(n as int) =~= elems@);
    }
    bytes
}

/// Initialize the vector under construction: write its sub-header, leaving
/// the run of elements empty.
pub fn initialize(frame: &mut RootFrame, child_size: u32, child_type: u32) -> (r: Result<
    (),
    crate::ports::WriteAtomError,
>)
    requires
        old(frame).wf(),
    ensures
        match r {
            Ok(()) => spec_wrote(
                *old(frame),
                *final(frame),
                spec_vector_header_bytes(VectorHeader { child_size, child_type }),
            ),
            Err(e) => {
                &&& e == crate::ports::WriteAtomError::InsufficientSpace
                &&& !spec_fits(*old(frame), 8)
                &&& *final(frame) == *old(frame)
            },
        },
{
    let mut bytes = u32_to_le_bytes(child_size);
    let mut t = u32_to_le_bytes(child_type);
    bytes.append(&mut t);
    frame.write_raw(bytes.as_slice())
}

/// Push one 32-bit integer element onto the vector's run.
pub fn push_int(frame: &mut RootFrame, value: i32) -> (r: Result<(), crate::ports::WriteAtomError>)
    requires
        old(frame).wf(),
    ensures
        match r {
            Ok(()) => spec_wrote(*old(frame), *final(frame), spec_int_body(value)),
            Err(e) => {
                &&& e == crate::ports::WriteAtomError::InsufficientSpace
                &&& !spec_fits(*old(frame), 4)
                &&& *final(frame) == *old(frame)
            },
        },
{
    let bytes = u32_to_le_bytes(#[verifier::truncate] (value as u32));
    frame.write_raw(bytes.as_slice())
}

/// Push the bit pattern of one 32-bit floating-point element onto the
/// vector's run.
pub fn push_float_bits(frame: &mut RootFrame, bits: u32) -> (r: Result<
    (),
    crate::ports::WriteAtomError,
>)
    requires
        old(frame).wf(),
    ensures
        match r {
            Ok(()) => spec_wrote(*old(frame), *final(frame), spec_u32_to_le_bytes(bits)),
            Err(e) => {
                &&& e == crate::ports::WriteAtomError::InsufficientSpace
                &&& !spec_fits(*old(frame), 4)
                &&& *final(frame) == *old(frame)
            },
        },
{
    let bytes = u32_to_le_bytes(bits);
    frame.write_raw(bytes.as_slice())
}

/// Append a whole run of 32-bit integer elements to the vector.
pub fn append_ints(frame: &mut RootFrame, values: &[i32]) -> (r: Result<
    (),
    crate::ports::WriteAtomError,
>)
    requires
        old(frame).wf(),
    ensures
        match r {
            Ok(()) => spec_wrote(*old(frame), *final(frame), spec_ints_bytes(values@)),
            Err(e) => {
                &&& e == crate::ports::WriteAtomError::InsufficientSpace
                &&& !spec_fits(*old(frame), spec_ints_bytes(values@).len() as int)
                &&& *final(frame) == *old(frame)
            },
        },
{
    let n = values.len();
    let mut bits: Vec<u32> = Vec::new();
    let mut i: usize = 0;
    while i < n
        invariant
            i <= n,
            n == values@.len(),
            bits@ =~= values@.take(i as int).map_values(|v: i32| v as u32),
        decreases n - i,
    {
        bits.push(#[verifier::truncate] (values[i] as u32));
        proof {
            assert(values@.take(i + 1) =~= values@.take(i as int).push(values@[i as int]));
            assert(bits@ =~= values@.take(i + 1).map_values(|v: i32| v as u32));
        }
        i = i + 1;
    }
    proof {
        assert(values@.take(n as int) =~= values@);
    }
    let bytes = u32s_to_bytes(bits.as_slice());
    frame.write_raw(bytes.as_slice())
}

/// Append a whole run of 32-bit floating-point bit patterns to the vector.
pub fn append_float_bits(frame: &mut RootFrame, values: &[u32]) -> (r: Result<
    (),
    crate::ports::WriteAtomError,
>)
    requires
        old(frame).wf(),
    ensures
        match r {
            Ok(()) => spec_wrote(*old(frame), *final(frame), spec_u32s_bytes(values@)),
            Err(e) => {
                &&& e == crate::ports::WriteAtomError::InsufficientSpace
                &&& !spec_fits(*old(frame), spec_u32s_bytes(values@).len() as int)
                &&& *final(frame) == *old(frame)
            },
        },
{
    let bytes = u32s_to_bytes(values);
    frame.write_raw(bytes.as_slice())
}

/// The typed view of a vector atom: its decoded sub-header and its run of
/// element bytes.
pub struct Vector {
    /// The decoded sub-header.
    pub header: VectorHeader,
    /// The elements' raw bytes: `element_count * child_size` of them.
    pub data: Vec<u8>,
}

impl Vector {
    /// The element width is meaningful and the run splits into whole
    /// elements.
    pub open spec fn wf(&self) -> bool {
        &&& self.header.child_size >= 1
        &&& self.data@.len() as int % (self.header.child_size as int) == 0
    }

    /// Cast an untyped atom to a vector view.  The header must carry the
    /// vector identifier; the body must hold a sub-header with a non-zero
    /// element width, followed by a whole number of elements.
    pub fn cast(atom: &UnknownAtom, urids: &MappedURIDs) -> (r: Result<Vector, GetBodyError>)
        requires
            atom.wf(),
        ensures
            match r {
                Ok(v) => {
                    &&& atom.header.atom_type == urids.vector
                    &&& atom.body@.len() >= 8
                    &&& v.header == spec_vector_header_at(atom.body@)
                    &&& v.header.child_size >= 1
                    &&& v.data@ == atom.body@.skip(8)
                    &&& v.wf()
                },
                Err(GetBodyError::WrongURID) => atom.header.atom_type != urids.vector,
                Err(GetBodyError::MalformedAtom) => {
                    &&& atom.header.atom_type == urids.vector
                    &&& (atom.body@.len() < 8 || spec_vector_header_at(atom.body@).child_size == 0
                        || !spec_array_tail_ok(
                        atom.body@.len() as int,
                        8,
                        spec_vector_header_at(atom.body@).child_size as int,
                    ))
                },
            },
    {
        if atom.header.atom_type != urids.vector {
            return Err(GetBodyError::WrongURID);
        }
        let n = atom.body.len();
        if n < 8 {
            return Err(GetBodyError::MalformedAtom);
        }
        let child_size = u32_from_le_bytes(slice_subrange(atom.body.as_slice(), 0, 4));
        let child_type = u32_from_le_bytes(slice_subrange(atom.body.as_slice(), 4, 8));
        if child_size == 0 {
            return Err(GetBodyError::MalformedAtom);
        }
        match array_tail_len(n, 8, child_size as usize) {
            Ok(_) => {
                let data = slice_to_vec(slice_subrange(atom.body.as_slice(), 8, n));
                proof {
                    assert(atom.body@.subrange(8, n as int) =~= atom.body@.skip(8));
                }
                Ok(Vector { header: VectorHeader { child_size, child_type }, data })
            },
            Err(e) => Err(e),
        }
    }

    /// The byte width of each element, as the sub-header declares it.
    pub fn child_body_size(&self) -> (r: usize)
        ensures
            r == self.header.child_size,
    {
        self.header.child_size as usize
    }

    /// The element type's identifier, as the sub-header declares it.
    pub fn child_body_type(&self) -> (r: u32)
        ensures
            r == self.header.child_type,
    {
        self.header.child_type
    }

    /// The derived element count: the run's length over the element width.
    pub fn element_count(&self) -> (r: usize)
        requires
            self.wf(),
        ensures
            r == self.data@.len() as int / self.header.child_size as int,
    {
        self.data.len() / (self.header.child_size as usize)
    }

    /// The run as 32-bit integers.  The sub-header must declare 4-byte
    /// elements of the integer type.
    pub fn int_elements(&self, urids: &MappedURIDs) -> (r: Result<Vec<i32>, GetBodyError>)
        requires
            self.wf(),
        ensures
            match r {
                Ok(es) => {
                    &&& self.header.child_type == urids.int
                    &&& self.header.child_size == 4
                    &&& 4 * es@.len() == self.data@.len()
                    &&& forall|k: int|
                        0 <= k < es@.len() ==> es@[k] == spec_int_value(
                            #[trigger] self.data@.subrange(4 * k, 4 * k + 4),
                        )
                },
                Err(GetBodyError::WrongURID) => self.header.child_type != urids.int,
                Err(GetBodyError::MalformedAtom) => {
                    &&& self.header.child_type == urids.int
                    &&& self.header.child_size != 4
                },
            },
    {
        if self.header.child_type != urids.int {
            return Err(GetBodyError::WrongURID);
        }
        if self.header.child_size != 4 {
            return Err(GetBodyError::MalformedAtom);
        }
        let n = self.data.len();
        let mut es: Vec<i32> = Vec::new();
        let mut i: usize = 0;
        while n - i >= 4
            invariant
                n == self.data@.len(),
                n % 4 == 0,
                i % 4 == 0,
                i <= n,
                4 * es@.len() == i,
                forall|k: int|
                    0 <= k < es@.len() ==> es@[k] == spec_int_value(
                        #[trigger] self.data@.subrange(4 * k, 4 * k + 4),
                    ),
            decreases n - i,
        {
            let bits = u32_from_le_bytes(slice_subrange(self.data.as_slice(), i, i + 4));
            es.push(#[verifier::truncate] (bits as i32));
            i = i + 4;
        }
        Ok(es)
    }

    /// The run as the bit patterns of 32-bit floating-point numbers.  The
    /// sub-header must declare 4-byte elements of the float type.
    pub fn float_bits_elements(&self, urids: &MappedURIDs) -> (r: Result<Vec<u32>, GetBodyError>)
        requires
            self.wf(),
        ensures
            match r {
                Ok(es) => {
                    &&& self.header.child_type == urids.float
                    &&& self.header.child_size == 4
                    &&& 4 * es@.len() == self.data@.len()
                    &&& forall|k: int|
                        0 <= k < es@.len() ==> es@[k] == spec_u32_from_le_bytes(
                            #[trigger] self.data@.subrange(4 * k, 4 * k + 4),
                        )
                },
                Err(GetBodyError::WrongURID) => self.header.child_type != urids.float,
                Err(GetBodyError::MalformedAtom) => {
                    &&& self.header.child_type == urids.float
                    &&& self.header.child_size != 4
                },
            },
    {
        if self.header.child_type != urids.float {
            return Err(GetBodyError::WrongURID);
        }
        if self.header.child_size != 4 {
            return Err(GetBodyError::MalformedAtom);
        }
        let n = self.data.len();
        let mut es: Vec<u32> = Vec::new();
        let mut i: usize = 0;
        while n - i >= 4
            invariant
                n == self.data@.len(),
                n % 4 == 0,
                i % 4 == 0,
                i <= n,
                4 * es@.len() == i,
                forall|k: int|
                    0 <= k < es@.len() ==> es@[k] == spec_u32_from_le_bytes(
                        #[trigger] self.data@.subrange(4 * k, 4 * k + 4),
                    ),
            decreases n - i,
        {
            let bits = u32_from_le_bytes(slice_subrange(self.data.as_slice(), i, i + 4));
            es.push(bits);
            i = i + 4;
        }
        Ok(es)
    }
}

} // verus!
