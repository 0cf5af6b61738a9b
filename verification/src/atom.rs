//! The fixed 8-byte record prefixing every value, and the untyped view of a
//! value read back from a byte span.
//!
//! A record ("atom") on the wire is `{size: u32, type: u32}` in little-endian
//! byte order, immediately followed by `size` body bytes.  `size` never counts
//! the header itself nor the alignment padding that may follow the body.

use vstd::bytes::lemma_auto_spec_u32_to_from_le_bytes;
use vstd::bytes::spec_u32_from_le_bytes;
use vstd::bytes::spec_u32_to_le_bytes;
use vstd::bytes::u32_from_le_bytes;
use vstd::bytes::u32_to_le_bytes;
use vstd::prelude::*;
use vstd::slice::slice_subrange;
use vstd::slice::slice_to_vec;

verus! {

/// Errors of casting a raw atom to a typed view.
#[derive(Clone, Copy, PartialEq, Eq, Structural, Debug)]
pub enum GetBodyError {
    /// The identifier in the atom header is not the one of the requested
    /// shape.
    WrongURID,
    /// The body bytes are structurally invalid for the requested shape.
    MalformedAtom,
}

/// The marker prefixing every atom: the body's byte length and its shape
/// identifier.
#[derive(Clone, Copy, PartialEq, Eq, Structural, Debug)]
pub struct AtomHeader {
    /// Byte length of the body, excluding this header and excluding any
    /// trailing alignment padding.
    pub size: u32,
    /// Identifier of the body's shape, as assigned by the host registry.
    pub atom_type: u32,
}

/// The 8-byte wire encoding of a header: the size field, then the type field,
/// both little-endian.
pub open spec fn spec_header_bytes(h: AtomHeader) -> Seq<u8> {
    spec_u32_to_le_bytes(h.size) + spec_u32_to_le_bytes(h.atom_type)
}

/// The header encoded at offset `pos` of `data`.
pub open spec fn spec_header_at(data: Seq<u8>, pos: int) -> AtomHeader {
    AtomHeader {
        size: spec_u32_from_le_bytes(data.subrange(pos, pos + 4)),
        atom_type: spec_u32_from_le_bytes(data.subrange(pos + 4, pos + 8)),
    }
}

/// A header's wire form is always 8 bytes long.
pub broadcast proof fn lemma_header_bytes_len(h: AtomHeader)
    ensures
        #[trigger] spec_header_bytes(h).len() == 8,
{
    lemma_auto_spec_u32_to_from_le_bytes();
}

/// Encoding a header and decoding it at any offset gives the header back.
pub proof fn lemma_header_round_trip(h: AtomHeader, prefix: Seq<u8>, tail: Seq<u8>)
    ensures
        spec_header_bytes(h).len() == 8,
        spec_header_at(prefix + spec_header_bytes(h) + tail, prefix.len() as int) == h,
{
    lemma_auto_spec_u32_to_from_le_bytes();
    let all = prefix + spec_header_bytes(h) + tail;
    let pos = prefix.len() as int;
    assert(all.subrange(pos, pos + 4) =~= spec_u32_to_le_bytes(h.size));
    assert(all.subrange(pos + 4, pos + 8) =~= spec_u32_to_le_bytes(h.atom_type));
}

impl AtomHeader {
    /// Encode the header into its 8-byte wire form.
    pub fn encode(&self) -> (r: Vec<u8>)
        ensures
            r@ == spec_header_bytes(*self),
    {
        let mut r = u32_to_le_bytes(self.size);
        let mut t = u32_to_le_bytes(self.atom_type);
        r.append(&mut t);
        r
    }

    /// Decode the header stored at offset `pos` of `data`.
    pub fn read_at(data: &[u8], pos: usize) -> (h: AtomHeader)
        requires
            pos + 8 <= data@.len(),
        ensures
            h == spec_header_at(data@, pos as int),
    {
        let _len = data.len();
        let size = u32_from_le_bytes(slice_subrange(data, pos, pos + 4));
        let atom_type = u32_from_le_bytes(slice_subrange(data, pos + 4, pos + 8));
        AtomHeader { size, atom_type }
    }
}

/// The untyped view of an atom read back from a byte span: the decoded
/// header and a copy of the `size` body bytes that follow it.  Any byte span
/// that is long enough has such a view; shape-specific casts start from it.
pub struct UnknownAtom {
    /// The atom's decoded header.
    pub header: AtomHeader,
    /// The atom's body: exactly `header.size` bytes.
    pub body: Vec<u8>,
}

/// A span holds a complete atom: room for a header whose declared body then
/// also lies within the span.
pub open spec fn spec_atom_fits(data: Seq<u8>) -> bool {
    &&& data.len() >= 8
    &&& 8 + spec_header_at(data, 0).size <= data.len()
}

impl UnknownAtom {
    /// The body really is as long as the header declares.
    pub open spec fn wf(&self) -> bool {
        self.body@.len() == self.header.size
    }

    /// The declared body length.
    pub fn body_size(&self) -> (r: u32)
        ensures
            r == self.header.size,
    {
        self.header.size
    }

    /// The declared shape identifier.
    pub fn body_type(&self) -> (r: u32)
        ensures
            r == self.header.atom_type,
    {
        self.header.atom_type
    }

    /// The untyped view of the atom at the start of `data`: header first,
    /// then the `size` body bytes it declares.  Trailing bytes beyond the
    /// body (alignment padding, free space) are ignored.  Fails exactly when
    /// the span is too short for the header or for the declared body.
    pub fn from_span(data: &[u8]) -> (r: Result<UnknownAtom, GetBodyError>)
        ensures
            match r {
                Ok(a) => {
                    &&& spec_atom_fits(data@)
                    &&& a.wf()
                    &&& a.header == spec_header_at(data@, 0)
                    &&& a.body@ == data@.subrange(8, 8 + a.header.size as int)
                },
                Err(e) => {
                    &&& e == GetBodyError::MalformedAtom
                    &&& !spec_atom_fits(data@)
                },
            },
    {
        let len = data.len();
        if len < 8 {
            return Err(GetBodyError::MalformedAtom);
        }
        let header = AtomHeader::read_at(data, 0);
        if header.size as usize > len - 8 {
            return Err(GetBodyError::MalformedAtom);
        }
        let body = slice_to_vec(slice_subrange(data, 8, 8 + header.size as usize));
        Ok(UnknownAtom { header, body })
    }
}

/// Round trip through a root frame: opening a frame over a buffer (header
/// of type `ty`, size 0), writing `body` behind the header, and stamping the
/// final size on completion leaves a buffer whose untyped view is exactly
/// the header `{body.len(), ty}` over `body` — whatever free space trails
/// it.
pub proof fn lemma_written_atom_view(ty: u32, body: Seq<u8>, space: Seq<u8>)
    requires
        8 + body.len() <= space.len(),
        space.len() <= u32::MAX,
    ensures
        ({
            let after_new = crate::frame::spec_splice(
                space,
                0,
                spec_header_bytes(AtomHeader { size: 0, atom_type: ty }),
            );
            let after_body = crate::frame::spec_splice(after_new, 8, body);
            let full = crate::frame::spec_splice(
                after_body,
                0,
                spec_u32_to_le_bytes(body.len() as u32),
            );
            &&& full.len() == space.len()
            &&& spec_atom_fits(full)
            &&& spec_header_at(full, 0) == AtomHeader {
                size: body.len() as u32,
                atom_type: ty,
            }
            &&& full.subrange(8, 8 + body.len() as int) == body
        }),
{
    lemma_auto_spec_u32_to_from_le_bytes();
    let h0 = AtomHeader { size: 0, atom_type: ty };
    let after_new = crate::frame::spec_splice(space, 0, spec_header_bytes(h0));
    let after_body = crate::frame::spec_splice(after_new, 8, body);
    let full = crate::frame::spec_splice(after_body, 0, spec_u32_to_le_bytes(body.len() as u32));
    assert(full.len() == space.len());
    assert(full.subrange(0, 4) =~= spec_u32_to_le_bytes(body.len() as u32));
    assert(full.subrange(4, 8) =~= spec_u32_to_le_bytes(ty));
    assert(full.subrange(8, 8 + body.len() as int) =~= body);
}

/// Validity of an array-shaped body: after the shape's fixed sub-header, the
/// tail must split into whole elements.
pub open spec fn spec_array_tail_ok(body_len: int, head_size: int, elem_size: int) -> bool {
    &&& body_len >= head_size
    &&& (body_len - head_size) % elem_size == 0
}

/// The element count of an array-shaped body of `body_len` bytes: a fixed
/// sub-header of `head_size` bytes followed by a tail of `elem_size`-byte
/// elements.
///
/// This cast fails with `MalformedAtom` exactly when the body is shorter
/// than the sub-header or the tail is not a whole number of elements;
/// otherwise the tail length is the quotient.  The count is derived, never
/// stored.
pub fn array_tail_len(body_len: usize, head_size: usize, elem_size: usize) -> (r: Result<
    usize,
    GetBodyError,
>)
    requires
        elem_size >= 1,
    ensures
        match r {
            Ok(n) => {
                &&& spec_array_tail_ok(body_len as int, head_size as int, elem_size as int)
                &&& n == (body_len - head_size) / (elem_size as int)
            },
            Err(e) => {
                &&& e == GetBodyError::MalformedAtom
                &&& !spec_array_tail_ok(body_len as int, head_size as int, elem_size as int)
            },
        },
{
    if body_len < head_size {
        return Err(GetBodyError::MalformedAtom);
    }
    let tail = body_len - head_size;
    if tail % elem_size != 0 {
        return Err(GetBodyError::MalformedAtom);
    }
    Ok(tail / elem_size)
}

/// `pos` advanced to the next multiple of 8 (a no-op if already there).
pub open spec fn spec_align8(pos: int) -> int {
    pos + crate::frame::spec_pad_len(pos)
}

/// A cursor at `pos` of `data` still finds a whole item: after re-aligning,
/// a pre-header of `h` bytes and an atom header fit, and so does the body
/// that the header declares.
pub open spec fn spec_iter_has_next(data: Seq<u8>, pos: int, h: int) -> bool {
    let p = spec_align8(pos);
    &&& p + h + 8 <= data.len()
    &&& p + h + 8 + spec_header_at(data, p + h).size <= data.len()
}

/// Where the item found at `pos` ends: pre-header, atom header and declared
/// body consumed.
pub open spec fn spec_iter_item_end(data: Seq<u8>, pos: int, h: int) -> int {
    spec_align8(pos) + h + 8 + spec_header_at(data, spec_align8(pos) + h).size
}

/// The headers of all items that a walk from `pos` produces, in order.  The
/// recursion is well-founded because every item moves the cursor at least 8
/// bytes forward and never past the span's end: every walk is finite,
/// whatever the span holds.
pub open spec fn spec_iter_items(data: Seq<u8>, pos: int, h: int) -> Seq<AtomHeader>
    decreases data.len() - pos,
    when 0 <= pos && 0 <= h
{
    if spec_iter_has_next(data, pos, h) {
        seq![spec_header_at(data, spec_align8(pos) + h)] + spec_iter_items(
            data,
            spec_iter_item_end(data, pos, h),
            h,
        )
    } else {
        Seq::empty()
    }
}

/// Iterator termination: over any byte span — truncated or corrupted ones
/// included — a walk from `pos` produces a finite sequence, of at most one
/// item per 8 bytes between `pos` and the span's end.
pub proof fn lemma_iterator_finite(data: Seq<u8>, pos: int, h: int)
    requires
        0 <= pos <= data.len(),
        0 <= h,
    ensures
        8 * spec_iter_items(data, pos, h).len() <= data.len() - pos + 7,
    decreases data.len() - pos,
{
    if spec_iter_has_next(data, pos, h) {
        lemma_iterator_finite(data, spec_iter_item_end(data, pos, h), h);
    }
}

/// A lazy forward cursor over a container tail: a byte span interpreted as a
/// sequence of `(pre-header, atom)` pairs, each pair starting on an 8-byte
/// boundary relative to the span's start.
///
/// Any structural inconsistency — a truncated pre-header or header, a body
/// that would run past the span — silently ends the iteration rather than
/// surfacing an error, so that readers stay robust against partially
/// delivered buffers.  The walk is single-pass and not restartable.
pub struct AtomIterator<'a> {
    data: &'a [u8],
    position: usize,
    pre_header_size: usize,
}

impl<'a> AtomIterator<'a> {
    /// The span being walked.
    pub closed spec fn spec_data(&self) -> Seq<u8> {
        self.data@
    }

    /// The cursor, in bytes from the span's start.
    pub closed spec fn spec_position(&self) -> int {
        self.position as int
    }

    /// The byte width of the pre-header preceding each atom.
    pub closed spec fn spec_pre_header_size(&self) -> int {
        self.pre_header_size as int
    }

    /// The cursor never leaves the span.
    pub open spec fn wf(&self) -> bool {
        self.spec_position() <= self.spec_data().len()
    }

    /// A fresh cursor over `data`, expecting a pre-header of
    /// `pre_header_size` bytes before each atom.
    pub fn new(data: &'a [u8], pre_header_size: usize) -> (r: AtomIterator<'a>)
        ensures
            r.wf(),
            r.spec_data() == data@,
            r.spec_position() == 0,
            r.spec_pre_header_size() == pre_header_size,
    {
        AtomIterator { data, position: 0, pre_header_size }
    }

    /// Produce the next `(pre-header, atom)` pair, or `None` once the span
    /// is exhausted or structurally inconsistent.  Each produced item lies
    /// entirely within the span, and the cursor advances by at least 8
    /// bytes, so every walk is finite.
    pub fn next(&mut self) -> (r: Option<(Vec<u8>, UnknownAtom)>)
        requires
            old(self).wf(),
        ensures
            final(self).wf(),
            final(self).spec_data() == old(self).spec_data(),
            final(self).spec_pre_header_size() == old(self).spec_pre_header_size(),
            match r {
                Some((pre, atom)) => {
                    let data = old(self).spec_data();
                    let h = old(self).spec_pre_header_size();
                    let p = spec_align8(old(self).spec_position());
                    &&& spec_iter_has_next(data, old(self).spec_position(), h)
                    &&& pre@ == data.subrange(p, p + h)
                    &&& atom.wf()
                    &&& atom.header == spec_header_at(data, p + h)
                    &&& atom.body@ == data.subrange(p + h + 8, p + h + 8 + atom.header.size)
                    &&& final(self).spec_position() == spec_iter_item_end(
                        data,
                        old(self).spec_position(),
                        h,
                    )
                    &&& final(self).spec_position() >= old(self).spec_position() + 8
                    &&& spec_iter_items(data, old(self).spec_position(), h) == seq![atom.header]
                        + spec_iter_items(data, final(self).spec_position(), h)
                },
                None => {
                    &&& !spec_iter_has_next(
                        old(self).spec_data(),
                        old(self).spec_position(),
                        old(self).spec_pre_header_size(),
                    )
                    &&& spec_iter_items(
                        old(self).spec_data(),
                        old(self).spec_position(),
                        old(self).spec_pre_header_size(),
                    ) =~= Seq::<AtomHeader>::empty()
                    &&& final(self).spec_position() >= old(self).spec_position()
                },
            },
    {
        let len = self.data.len();
        // Re-align the cursor to the next 8-byte boundary.
        let rem = self.position % 8;
        if rem != 0 {
            if 8 - rem > len - self.position {
                self.position = len;
                return None;
            }
            self.position = self.position + (8 - rem);
        }
        let p = self.position;
        let h = self.pre_header_size;
        // A pre-header and an atom header must still fit.
        if len - p < h || len - p - h < 8 {
            return None;
        }
        let header = AtomHeader::read_at(self.data, p + h);
        // The declared body must fit as well.
        if header.size as usize > len - p - h - 8 {
            return None;
        }
        let pre = slice_to_vec(slice_subrange(self.data, p, p + h));
        let body = slice_to_vec(
            slice_subrange(self.data, p + h + 8, p + h + 8 + header.size as usize),
        );
        self.position = p + h + 8 + header.size as usize;
        Some((pre, UnknownAtom { header, body }))
    }
}

} // verus!
