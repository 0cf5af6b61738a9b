//! The opaque chunk atom, and the raw chunk walk.
//!
//! A chunk is a body of plain bytes with no further structure: any span is a
//! valid chunk, which makes it the escape hatch for readers that must
//! inspect an atom's type before attempting a typed cast.

use vstd::prelude::*;
use vstd::slice::slice_to_vec;

verus! {

use crate::atom::spec_align8;
use crate::atom::spec_header_at;
use crate::atom::spec_iter_has_next;
use crate::atom::spec_iter_item_end;
use crate::atom::spec_iter_items;
use crate::atom::AtomHeader;
use crate::atom::AtomIterator;
use crate::atom::GetBodyError;
use crate::atom::UnknownAtom;
use crate::frame::spec_fits;
use crate::frame::spec_wrote;
use crate::frame::RootFrame;
use crate::uris::MappedURIDs;

/// Initialize the chunk under construction: its body is the given bytes as
/// they are.
pub fn initialize(frame: &mut RootFrame, data: &[u8]) -> (r: Result<
    (),
    crate::ports::WriteAtomError,
>)
    requires
        old(frame).wf(),
    ensures
        match r {
            Ok(()) => spec_wrote(*old(frame), *final(frame), data@),
            Err(e) => {
                &&& e == crate::ports::WriteAtomError::InsufficientSpace
                &&& !spec_fits(*old(frame), data@.len() as int)
                &&& *final(frame) == *old(frame)
            },
        },
{
    frame.write_raw(data)
}

/// Cast an untyped atom to a chunk: the header must carry the chunk
/// identifier; any body is a valid chunk.
pub fn cast_chunk(atom: &UnknownAtom, urids: &MappedURIDs) -> (r: Result<Vec<u8>, GetBodyError>)
    requires
        atom.wf(),
    ensures
        match r {
            Ok(b) => {
                &&& atom.header.atom_type == urids.chunk
                &&& b@ == atom.body@
            },
            Err(GetBodyError::WrongURID) => atom.header.atom_type != urids.chunk,
            Err(GetBodyError::MalformedAtom) => false,
        },
{
    if atom.header.atom_type != urids.chunk {
        return Err(GetBodyError::WrongURID);
    }
    Ok(slice_to_vec(atom.body.as_slice()))
}

/// A lazy forward cursor over a run of `(pre-header, atom)` pairs, walked
/// as raw chunks: like [`AtomIterator`], ending silently on any structural
/// inconsistency.
pub struct ChunkIterator<'a> {
    inner: AtomIterator<'a>,
}

impl<'a> ChunkIterator<'a> {
    /// The span being walked.
    pub closed spec fn spec_data(&self) -> Seq<u8> {
        self.inner.spec_data()
    }

    /// The cursor, in bytes from the span's start.
    pub closed spec fn spec_position(&self) -> int {
        self.inner.spec_position()
    }

    /// The byte width of the pre-header preceding each atom.
    pub closed spec fn spec_pre_header_size(&self) -> int {
        self.inner.spec_pre_header_size()
    }

    /// The cursor never leaves the span.
    pub closed spec fn wf(&self) -> bool {
        self.inner.wf()
    }

    /// A fresh cursor over `data`, expecting a pre-header of
    /// `pre_header_size` bytes before each atom.
    pub fn new(data: &'a [u8], pre_header_size: usize) -> (r: ChunkIterator<'a>)
        ensures
            r.wf(),
            r.spec_data() == data@,
            r.spec_position() == 0,
            r.spec_pre_header_size() == pre_header_size,
    {
        ChunkIterator { inner: AtomIterator::new(data, pre_header_size) }
    }

    /// Produce the next `(pre-header, atom)` pair, or `None` once the span
    /// is exhausted or structurally inconsistent.
    pub fn next(&mut self) -> (r: Option<(Vec<u8>, UnknownAtom)>)
        requires
            old(self).wf(),
        ensures
            final(self).wf(),
            final(self).spec_data() == old(self).spec_data(),
            final(self).spec_pre_header_size() == old(self).spec_pre_header_size(),
            match r {
                Some((pre, atom)) => {
                    let data = old(self).spec_data();
                    let h = old(self).spec_pre_header_size();
                    let p = spec_align8(old(self).spec_position());
                    &&& spec_iter_has_next(data, old(self).spec_position(), h)
                    &&& pre@ == data.subrange(p, p + h)
                    &&& atom.wf()
                    &&& atom.header == spec_header_at(data, p + h)
                    &&& atom.body@ == data.subrange(p + h + 8, p + h + 8 + atom.header.size)
                    &&& final(self).spec_position() == spec_iter_item_end(
                        data,
                        old(self).spec_position(),
                        h,
                    )
                    &&& final(self).spec_position() >= old(self).spec_position() + 8
                    &&& spec_iter_items(data, old(self).spec_position(), h) == seq![atom.header]
                        + spec_iter_items(data, final(self).spec_position(), h)
                },
                None => {
                    &&& !spec_iter_has_next(
                        old(self).spec_data(),
                        old(self).spec_position(),
                        old(self).spec_pre_header_size(),
                    )
                    &&& spec_iter_items(
                        old(self).spec_data(),
                        old(self).spec_position(),
                        old(self).spec_pre_header_size(),
                    ) =~= Seq::<AtomHeader>::empty()
                    &&& final(self).spec_position() >= old(self).spec_position()
                },
            },
    {
        self.inner.next()
    }
}

} // verus!
