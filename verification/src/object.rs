//! The object atom: a map-like container whose body is a sub-header naming
//! the object's identifier and class, followed by a run of properties, each
//! a `(key, context)` pre-header and a complete value atom.

use vstd::bytes::lemma_auto_spec_u32_to_from_le_bytes;
use vstd::bytes::spec_u32_from_le_bytes;
use vstd::bytes::spec_u32_to_le_bytes;
use vstd::bytes::u32_from_le_bytes;
use vstd::bytes::u32_to_le_bytes;
use vstd::prelude::*;
use vstd::slice::slice_subrange;
use vstd::slice::slice_to_vec;

verus! {

use crate::atom::spec_header_bytes;
use crate::atom::AtomHeader;
use crate::atom::AtomIterator;
use crate::atom::GetBodyError;
use crate::atom::UnknownAtom;
use crate::frame::spec_fits;
use crate::frame::spec_splice;
use crate::frame::spec_wrote;
use crate::frame::RootFrame;
use crate::ports::WriteAtomError;
use crate::uris::MappedURIDs;

/// The pre-header of one object property: the property's name and an
/// optional context, both as identifiers.
#[derive(Clone, Copy, PartialEq, Eq, Structural, Debug)]
pub struct PropertyHeader {
    /// Identifier of the property's name.
    pub key: u32,
    /// Context identifier; generally 0.
    pub context: u32,
}

/// The sub-header of an object: its own identifier (0 for blank) and the
/// identifier of the class it instantiates.
#[derive(Clone, Copy, PartialEq, Eq, Structural, Debug)]
pub struct ObjectHeader {
    /// The object's identifier, or 0 for blank.
    pub id: u32,
    /// Identifier of the object's class.
    pub otype: u32,
}

/// The 8-byte wire encoding of an object's sub-header: id, then class, both
/// little-endian.
pub open spec fn spec_object_header_bytes(h: ObjectHeader) -> Seq<u8> {
    spec_u32_to_le_bytes(h.id) + spec_u32_to_le_bytes(h.otype)
}

/// The sub-header encoded at the start of an object's body.
pub open spec fn spec_object_header_at(body: Seq<u8>) -> ObjectHeader {
    ObjectHeader {
        id: spec_u32_from_le_bytes(body.subrange(0, 4)),
        otype: spec_u32_from_le_bytes(body.subrange(4, 8)),
    }
}

/// The 8-byte wire encoding of a property's pre-header: key, then context,
/// both little-endian.
pub open spec fn spec_property_header_bytes(h: PropertyHeader) -> Seq<u8> {
    spec_u32_to_le_bytes(h.key) + spec_u32_to_le_bytes(h.context)
}

/// The pre-header encoded in the 8 bytes of `pre`.
pub open spec fn spec_property_header_at(pre: Seq<u8>) -> PropertyHeader {
    PropertyHeader {
        key: spec_u32_from_le_bytes(pre.subrange(0, 4)),
        context: spec_u32_from_le_bytes(pre.subrange(4, 8)),
    }
}

/// Encoding an object sub-header or a property pre-header and decoding it
/// gives it back.
pub proof fn lemma_object_headers_round_trip(h: ObjectHeader, p: PropertyHeader, tail: Seq<u8>)
    ensures
        spec_object_header_bytes(h).len() == 8,
        spec_object_header_at(spec_object_header_bytes(h) + tail) == h,
        spec_property_header_bytes(p).len() == 8,
        spec_property_header_at(spec_property_header_bytes(p) + tail) == p,
{
    lemma_auto_spec_u32_to_from_le_bytes();
    let b = spec_object_header_bytes(h) + tail;
    assert(b.subrange(0, 4) =~= spec_u32_to_le_bytes(h.id));
    assert(b.subrange(4, 8) =~= spec_u32_to_le_bytes(h.otype));
    let q = spec_property_header_bytes(p) + tail;
    assert(q.subrange(0, 4) =~= spec_u32_to_le_bytes(p.key));
    assert(q.subrange(4, 8) =~= spec_u32_to_le_bytes(p.context));
}

/// Initialize the object under construction: write its sub-header, leaving
/// the run of properties empty.
pub fn initialize(frame: &mut RootFrame, id: u32, otype: u32) -> (r: Result<(), WriteAtomError>)
    requires
        old(frame).wf(),
    ensures
        match r {
            Ok(()) => spec_wrote(
                *old(frame),
                *final(frame),
                spec_object_header_bytes(ObjectHeader { id, otype }),
            ),
            Err(e) => {
                &&& e == WriteAtomError::InsufficientSpace
                &&& !spec_fits(*old(frame), 8)
                &&& *final(frame) == *old(frame)
            },
        },
{
    let mut bytes = u32_to_le_bytes(id);
    let mut t = u32_to_le_bytes(otype);
    bytes.append(&mut t);
    frame.write_raw(bytes.as_slice())
}

/// Begin one property: write its `(key, context)` pre-header and open a
/// nested frame for the value atom of the given type.  The caller
/// initializes the value's body through the frame and closes it again.
///
/// Fails exactly when pre-header and value header together do not fit, and
/// then writes nothing at all.
pub fn push_property(frame: &mut RootFrame, key: u32, context: u32, child_type: u32) -> (r: Result<
    (),
    WriteAtomError,
>)
    requires
        old(frame).wf(),
        old(frame).aligned(),
    ensures
        final(frame).wf(),
        final(frame).capacity() == old(frame).capacity(),
        match r {
            Ok(()) => {
                &&& spec_fits(*old(frame), 16)
                &&& final(frame).used_bytes() == old(frame).used_bytes() + 16
                &&& final(frame).aligned()
                &&& final(frame).open_frames() == old(frame).open_frames().push(
                    old(frame).used_bytes() + 8,
                )
                &&& final(frame).atom_starts() == old(frame).atom_starts().push(
                    old(frame).used_bytes() + 8,
                )
                &&& final(frame).space() == spec_splice(
                    spec_splice(
                        old(frame).space(),
                        old(frame).used_bytes(),
                        spec_property_header_bytes(PropertyHeader { key, context }),
                    ),
                    old(frame).used_bytes() + 8,
                    spec_header_bytes(AtomHeader { size: 0, atom_type: child_type }),
                )
            },
            Err(e) => {
                &&& e == WriteAtomError::InsufficientSpace
                &&& !spec_fits(*old(frame), 16)
                &&& *final(frame) == *old(frame)
            },
        },
{
    if 16 > frame.buffer_len() - frame.cursor() {
        return Err(WriteAtomError::InsufficientSpace);
    }
    let mut bytes = u32_to_le_bytes(key);
    let mut c = u32_to_le_bytes(context);
    bytes.append(&mut c);
    let r1 = frame.write_raw(bytes.as_slice());
    proof {
        assert(r1 is Ok);
    }
    let r2 = frame.open_nested(child_type);
    proof {
        assert(r2 is Ok);
    }
    Ok(())
}

/// The typed view of an object atom: its decoded sub-header and its run of
/// properties.
pub struct Object {
    /// The decoded sub-header.
    pub header: ObjectHeader,
    /// The property run: pairs of pre-header and value atom.
    pub data: Vec<u8>,
}

impl Object {
    /// Cast an untyped atom to an object view.  The header must carry the
    /// object identifier and the body must be long enough for the
    /// sub-header.
    pub fn cast(atom: &UnknownAtom, urids: &MappedURIDs) -> (r: Result<Object, GetBodyError>)
        requires
            atom.wf(),
        ensures
            match r {
                Ok(o) => {
                    &&& atom.header.atom_type == urids.object
                    &&& atom.body@.len() >= 8
                    &&& o.header == spec_object_header_at(atom.body@)
                    &&& o.data@ == atom.body@.skip(8)
                },
                Err(GetBodyError::WrongURID) => atom.header.atom_type != urids.object,
                Err(GetBodyError::MalformedAtom) => {
                    &&& atom.header.atom_type == urids.object
                    &&& atom.body@.len() < 8
                },
            },
    {
        if atom.header.atom_type != urids.object {
            return Err(GetBodyError::WrongURID);
        }
        let n = atom.body.len();
        if n < 8 {
            return Err(GetBodyError::MalformedAtom);
        }
        let id = u32_from_le_bytes(slice_subrange(atom.body.as_slice(), 0, 4));
        let otype = u32_from_le_bytes(slice_subrange(atom.body.as_slice(), 4, 8));
        let data = slice_to_vec(slice_subrange(atom.body.as_slice(), 8, n));
        proof {
            assert(atom.body@.subrange(8, n as int) =~= atom.body@.skip(8));
        }
        Ok(Object { header: ObjectHeader { id, otype }, data })
    }

    /// Walk the object's properties.  Each produced pre-header holds 8
    /// bytes to decode with [`PropertyHeader::from_bytes`].
    pub fn iter<'a>(&'a self) -> (r: AtomIterator<'a>)
        ensures
            r.wf(),
            r.spec_data() == self.data@,
            r.spec_position() == 0,
            r.spec_pre_header_size() == 8,
    {
        AtomIterator::new(self.data.as_slice(), 8)
    }
}

impl PropertyHeader {
    /// Decode a property pre-header from the 8 bytes an object walk
    /// produced before the value atom.
    pub fn from_bytes(pre: &[u8]) -> (r: PropertyHeader)
        requires
            pre@.len() == 8,
        ensures
            r == spec_property_header_at(pre@),
    {
        let key = u32_from_le_bytes(slice_subrange(pre, 0, 4));
        let context = u32_from_le_bytes(slice_subrange(pre, 4, 8));
        PropertyHeader { key, context }
    }
}

} // verus!
