//! The tuple atom: a heterogeneous run of complete atoms, each aligned to 8
//! bytes, with no pre-header between them.
//!
//! A freshly initialized tuple is empty.  An element is appended by opening
//! a nested frame of the element's type on the writer, initializing the
//! element's body through it, and closing the frame again, which pads the
//! tuple back to alignment.  Reading walks the body with an
//! [`AtomIterator`] expecting no pre-header.

use vstd::bytes::lemma_auto_spec_u32_to_from_le_bytes;
use vstd::bytes::spec_u32_to_le_bytes;
use vstd::prelude::*;
use vstd::slice::slice_to_vec;

verus! {

use crate::atom::spec_header_at;
use crate::atom::spec_header_bytes;
use crate::atom::spec_iter_has_next;
use crate::atom::spec_iter_item_end;
use crate::atom::spec_iter_items;
use crate::atom::AtomHeader;
use crate::atom::AtomIterator;
use crate::atom::GetBodyError;
use crate::atom::UnknownAtom;
use crate::frame::lemma_splice_facts;
use crate::frame::spec_pad_len;
use crate::frame::spec_splice;
use crate::frame::RootFrame;
use crate::uris::MappedURIDs;

/// Initialize the tuple under construction: a minimally valid tuple body is
/// empty, so nothing is written.
pub fn initialize(frame: &mut RootFrame) -> (r: Result<(), crate::ports::WriteAtomError>)
    requires
        old(frame).wf(),
    ensures
        r is Ok,
        *final(frame) == *old(frame),
{
    Ok(())
}

/// Writing one element into a fresh tuple and walking the finished buffer
/// yields exactly that element back.
///
/// The byte chain mirrors the writer's steps: claiming the buffer stamps
/// the tuple header, opening a nested frame stamps the element's header,
/// the body follows, closing stamps the element's size and pads to 8, and
/// finishing stamps the tuple's total.  Walking the finished tuple's body
/// then produces one single item: the element's header over its body.
pub proof fn lemma_tuple_single_element(tuple_ty: u32, elem_ty: u32, body: Seq<u8>, space: Seq<u8>)
    requires
        16 + body.len() as int + spec_pad_len(16 + body.len() as int) <= space.len() as int,
        space.len() <= u32::MAX,
    ensures
        ({
            let pad = spec_pad_len(16 + body.len() as int);
            let s1 = spec_splice(space, 0, spec_header_bytes(AtomHeader { size: 0, atom_type: tuple_ty }));
            let s2 = spec_splice(s1, 8, spec_header_bytes(AtomHeader { size: 0, atom_type: elem_ty }));
            let s3 = spec_splice(s2, 16, body);
            let s4 = spec_splice(
                spec_splice(s3, 8, spec_u32_to_le_bytes(body.len() as u32)),
                16 + body.len() as int,
                Seq::new(pad as nat, |i: int| 0u8),
            );
            let full = spec_splice(s4, 0, spec_u32_to_le_bytes((8 + body.len() as int + pad) as u32));
            let tail = full.subrange(8, 16 + body.len() as int + pad);
            &&& spec_header_at(full, 0) == AtomHeader {
                size: (8 + body.len() as int + pad) as u32,
                atom_type: tuple_ty,
            }
            &&& spec_iter_has_next(tail, 0, 0)
            &&& spec_header_at(tail, 0) == AtomHeader { size: body.len() as u32, atom_type: elem_ty }
            &&& tail.subrange(8, 8 + body.len() as int) == body
            &&& spec_iter_item_end(tail, 0, 0) == 8 + body.len() as int
            &&& spec_iter_items(tail, 0, 0) == seq![
                AtomHeader { size: body.len() as u32, atom_type: elem_ty },
            ]
        }),
{
    lemma_auto_spec_u32_to_from_le_bytes();
    let l = body.len() as int;
    let pad = spec_pad_len(16 + l);
    let h_tuple = spec_header_bytes(AtomHeader { size: 0, atom_type: tuple_ty });
    let h_elem = spec_header_bytes(AtomHeader { size: 0, atom_type: elem_ty });
    let zeros = Seq::new(pad as nat, |i: int| 0u8);
    crate::atom::lemma_header_bytes_len(AtomHeader { size: 0, atom_type: tuple_ty });
    crate::atom::lemma_header_bytes_len(AtomHeader { size: 0, atom_type: elem_ty });
    let s1 = spec_splice(space, 0, h_tuple);
    let s2 = spec_splice(s1, 8, h_elem);
    let s3 = spec_splice(s2, 16, body);
    let s3b = spec_splice(s3, 8, spec_u32_to_le_bytes(l as u32));
    let s4 = spec_splice(s3b, 16 + l, zeros);
    let full = spec_splice(s4, 0, spec_u32_to_le_bytes((8 + l + pad) as u32));
    lemma_splice_facts(space, 0, h_tuple);
    lemma_splice_facts(s1, 8, h_elem);
    lemma_splice_facts(s2, 16, body);
    lemma_splice_facts(s3, 8, spec_u32_to_le_bytes(l as u32));
    lemma_splice_facts(s3b, 16 + l, zeros);
    lemma_splice_facts(s4, 0, spec_u32_to_le_bytes((8 + l + pad) as u32));
    // The outer header: the stamped total size, and the type written when
    // the buffer was claimed.
    assert(full.subrange(0, 4) == spec_u32_to_le_bytes((8 + l + pad) as u32));
    assert(s1.subrange(4, 8) =~= spec_u32_to_le_bytes(tuple_ty));
    assert(full.subrange(4, 8) == s1.subrange(4, 8));
    // The element's header: the stamped size, and the type written when the
    // nested frame opened.
    assert(full.subrange(8, 12) == s3b.subrange(8, 12));
    assert(s3b.subrange(8, 12) =~= spec_u32_to_le_bytes(l as u32));
    assert(s2.subrange(12, 16) =~= spec_u32_to_le_bytes(elem_ty));
    assert(full.subrange(12, 16) == s2.subrange(12, 16));
    // The element's body bytes.
    assert(s3.subrange(16, 16 + l) == body);
    assert(full.subrange(16, 16 + l) == s3.subrange(16, 16 + l));
    // The walk over the tuple's body sees the element aligned at its start
    // and stops right after it: the padding is too short for another item.
    let tail = full.subrange(8, 16 + l + pad);
    assert(tail.subrange(0, 4) =~= full.subrange(8, 12));
    assert(tail.subrange(4, 8) =~= full.subrange(12, 16));
    assert(tail.subrange(8, 8 + l) =~= full.subrange(16, 16 + l));
    assert(spec_header_at(tail, 0) == AtomHeader { size: l as u32, atom_type: elem_ty });
    assert((16 + l + pad) % 8 == 0);
    assert(spec_iter_item_end(tail, 0, 0) == 8 + l);
    assert(crate::atom::spec_align8(8 + l) == 8 + l + pad);
    assert(!spec_iter_has_next(tail, 8 + l, 0));
    assert(spec_iter_items(tail, 8 + l, 0) =~= Seq::<AtomHeader>::empty());
    assert(spec_iter_items(tail, 0, 0) =~= seq![
        AtomHeader { size: l as u32, atom_type: elem_ty },
    ]);
}

/// The typed view of a tuple atom: the raw run of its element atoms.
pub struct Tuple {
    /// The body bytes: a padded run of complete atoms.
    pub data: Vec<u8>,
}

impl Tuple {
    /// Cast an untyped atom to a tuple view.  The header must carry the
    /// tuple identifier; any body is structurally acceptable, elements are
    /// validated one by one while iterating.
    pub fn cast(atom: &UnknownAtom, urids: &MappedURIDs) -> (r: Result<Tuple, GetBodyError>)
        requires
            atom.wf(),
        ensures
            match r {
                Ok(t) => {
                    &&& atom.header.atom_type == urids.tuple
                    &&& t.data@ == atom.body@
                },
                Err(GetBodyError::WrongURID) => atom.header.atom_type != urids.tuple,
                Err(GetBodyError::MalformedAtom) => false,
            },
    {
        if atom.header.atom_type != urids.tuple {
            return Err(GetBodyError::WrongURID);
        }
        Ok(Tuple { data: slice_to_vec(atom.body.as_slice()) })
    }

    /// Walk the tuple's elements.  Each produced pre-header is empty; the
    /// produced atoms are the elements in writing order.
    pub fn iter<'a>(&'a self) -> (r: AtomIterator<'a>)
        ensures
            r.wf(),
            r.spec_data() == self.data@,
            r.spec_position() == 0,
            r.spec_pre_header_size() == 0,
    {
        AtomIterator::new(self.data.as_slice(), 0)
    }
}

} // verus!
