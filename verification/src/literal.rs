//! The text literal atom: a run of text bytes behind a sub-header naming the
//! text's datatype and language.
//!
//! A literal is streaming-appendable: after its sub-header is initialized,
//! text may be appended in any number of calls, and a zero terminator is
//! pushed explicitly at the end.  [`write_string`] bundles the common case —
//! all the text plus the terminator in one piece — and rejects a second call
//! once any tail byte has been written.

use vstd::bytes::lemma_auto_spec_u32_to_from_le_bytes;
use vstd::bytes::spec_u32_from_le_bytes;
use vstd::bytes::spec_u32_to_le_bytes;
use vstd::bytes::u32_from_le_bytes;
use vstd::bytes::u32_to_le_bytes;
use vstd::prelude::*;
use vstd::slice::slice_subrange;
use vstd::slice::slice_to_vec;

verus! {

use crate::atom::GetBodyError;
use crate::atom::UnknownAtom;
use crate::frame::spec_fits;
use crate::frame::spec_wrote;
use crate::frame::RootFrame;
use crate::uris::MappedURIDs;

/// The sub-header of a literal: the identifiers of the text's datatype and
/// of its language.
#[derive(Clone, Copy, PartialEq, Eq, Structural, Debug)]
pub struct LiteralHeader {
    /// Identifier of the text's datatype; 0 for plain text.
    pub datatype: u32,
    /// Identifier of the text's language; 0 where none applies.
    pub lang: u32,
}

/// Errors of writing a literal atom's text.
#[derive(Clone, Copy, PartialEq, Eq, Structural, Debug)]
pub enum LiteralWritingError {
    /// The text does not fit into the destination buffer.
    InsufficientSpace,
    /// The literal already has tail bytes; its text is written exactly
    /// once.
    NotFirstCall,
}

/// The 8-byte wire encoding of a literal's sub-header: datatype, then
/// language, both little-endian.
pub open spec fn spec_literal_header_bytes(h: LiteralHeader) -> Seq<u8> {
    spec_u32_to_le_bytes(h.datatype) + spec_u32_to_le_bytes(h.lang)
}

/// The sub-header encoded at the start of a literal's body.
pub open spec fn spec_literal_header_at(body: Seq<u8>) -> LiteralHeader {
    LiteralHeader {
        datatype: spec_u32_from_le_bytes(body.subrange(0, 4)),
        lang: spec_u32_from_le_bytes(body.subrange(4, 8)),
    }
}

/// Encoding a literal sub-header and decoding it gives the sub-header back,
/// whatever tail follows it.
pub proof fn lemma_literal_header_round_trip(h: LiteralHeader, tail: Seq<u8>)
    ensures
        spec_literal_header_bytes(h).len() == 8,
        spec_literal_header_at(spec_literal_header_bytes(h) + tail) == h,
{
    lemma_auto_spec_u32_to_from_le_bytes();
    let b = spec_literal_header_bytes(h) + tail;
    assert(b.subrange(0, 4) =~= spec_u32_to_le_bytes(h.datatype));
    assert(b.subrange(4, 8) =~= spec_u32_to_le_bytes(h.lang));
}

/// Initialize the literal under construction: write its sub-header, with
/// datatype 0 and the given language, leaving the tail empty.
pub fn initialize(frame: &mut RootFrame, lang: u32) -> (r: Result<(), LiteralWritingError>)
    requires
        old(frame).wf(),
    ensures
        match r {
            Ok(()) => spec_wrote(
                *old(frame),
                *final(frame),
                spec_literal_header_bytes(LiteralHeader { datatype: 0, lang }),
            ),
            Err(LiteralWritingError::InsufficientSpace) => {
                &&& !spec_fits(*old(frame), 8)
                &&& *final(frame) == *old(frame)
            },
            Err(LiteralWritingError::NotFirstCall) => false,
        },
{
    let mut bytes = u32_to_le_bytes(0);
    let mut lang_bytes = u32_to_le_bytes(lang);
    bytes.append(&mut lang_bytes);
    match frame.write_raw(bytes.as_slice()) {
        Ok(()) => Ok(()),
        Err(_) => Err(LiteralWritingError::InsufficientSpace),
    }
}

/// Append text bytes to the literal's tail.  May be called any number of
/// times after [`initialize`]; no terminator is added.
pub fn append_string(frame: &mut RootFrame, text: &[u8]) -> (r: Result<(), LiteralWritingError>)
    requires
        old(frame).wf(),
    ensures
        match r {
            Ok(()) => spec_wrote(*old(frame), *final(frame), text@),
            Err(LiteralWritingError::InsufficientSpace) => {
                &&& !spec_fits(*old(frame), text@.len() as int)
                &&& *final(frame) == *old(frame)
            },
            Err(LiteralWritingError::NotFirstCall) => false,
        },
{
    match frame.write_raw(text) {
        Ok(()) => Ok(()),
        Err(_) => Err(LiteralWritingError::InsufficientSpace),
    }
}

/// Write the literal's whole text plus its zero terminator in one piece.
///
/// Fails with `NotFirstCall` if the literal already has tail bytes beyond
/// its 8-byte sub-header, and with `InsufficientSpace` if the text does not
/// fit; in both cases nothing is written.
pub fn write_string(frame: &mut RootFrame, text: &[u8]) -> (r: Result<(), LiteralWritingError>)
    requires
        old(frame).wf(),
    ensures
        match r {
            Ok(()) => {
                &&& old(frame).frame_body_size(old(frame).open_frames().len() - 1) <= 8
                &&& spec_wrote(*old(frame), *final(frame), text@ + seq![0u8])
            },
            Err(LiteralWritingError::NotFirstCall) => {
                &&& old(frame).frame_body_size(old(frame).open_frames().len() - 1) > 8
                &&& *final(frame) == *old(frame)
            },
            Err(LiteralWritingError::InsufficientSpace) => {
                &&& old(frame).frame_body_size(old(frame).open_frames().len() - 1) <= 8
                &&& !spec_fits(*old(frame), text@.len() as int + 1)
                &&& *final(frame) == *old(frame)
            },
        },
{
    if frame.body_size() > 8 {
        return Err(LiteralWritingError::NotFirstCall);
    }
    let mut body = slice_to_vec(text);
    body.push(0u8);
    proof {
        assert(body@ =~= text@ + seq![0u8]);
    }
    match frame.write_raw(body.as_slice()) {
        Ok(()) => Ok(()),
        Err(_) => Err(LiteralWritingError::InsufficientSpace),
    }
}

/// The typed view of a literal atom: its decoded sub-header and its tail of
/// text bytes.
pub struct Literal {
    /// The decoded sub-header.
    pub header: LiteralHeader,
    /// The tail: the text bytes, terminator included if one was written.
    pub data: Vec<u8>,
}

impl Literal {
    /// Cast an untyped atom to a literal view.  The header must carry the
    /// literal identifier and the body must be long enough for the
    /// sub-header.
    pub fn cast(atom: &UnknownAtom, urids: &MappedURIDs) -> (r: Result<Literal, GetBodyError>)
        requires
            atom.wf(),
        ensures
            match r {
                Ok(l) => {
                    &&& atom.header.atom_type == urids.literal
                    &&& atom.body@.len() >= 8
                    &&& l.header == spec_literal_header_at(atom.body@)
                    &&& l.data@ == atom.body@.skip(8)
                },
                Err(GetBodyError::WrongURID) => atom.header.atom_type != urids.literal,
                Err(GetBodyError::MalformedAtom) => {
                    &&& atom.header.atom_type == urids.literal
                    &&& atom.body@.len() < 8
                },
            },
    {
        if atom.header.atom_type != urids.literal {
            return Err(GetBodyError::WrongURID);
        }
        let n = atom.body.len();
        if n < 8 {
            return Err(GetBodyError::MalformedAtom);
        }
        let datatype = u32_from_le_bytes(slice_subrange(atom.body.as_slice(), 0, 4));
        let lang = u32_from_le_bytes(slice_subrange(atom.body.as_slice(), 4, 8));
        let data = slice_to_vec(slice_subrange(atom.body.as_slice(), 8, n));
        proof {
            assert(atom.body@.subrange(8, n as int) =~= atom.body@.skip(8));
        }
        Ok(Literal { header: LiteralHeader { datatype, lang }, data })
    }

    /// The language identifier stamped into the sub-header.
    pub fn lang(&self) -> (r: u32)
        ensures
            r == self.header.lang,
    {
        self.header.lang
    }

    /// The text without a trailing zero terminator: the terminator is
    /// dropped if present, and the tail is served as it is if the writer
    /// never pushed one.
    pub fn text_bytes(&self) -> (r: Vec<u8>)
        ensures
            r@ == if self.data@.len() > 0 && self.data@[self.data@.len() - 1] == 0 {
                self.data@.take(self.data@.len() - 1)
            } else {
                self.data@
            },
    {
        let n = self.data.len();
        if n > 0 && self.data[n - 1] == 0 {
            slice_to_vec(slice_subrange(self.data.as_slice(), 0, n - 1))
        } else {
            slice_to_vec(self.data.as_slice())
        }
    }
}

} // verus!
