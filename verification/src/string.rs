//! The plain string atom: a zero-terminated run of bytes.
//!
//! A string atom is written once: the writer puts the full byte content plus
//! an explicit trailing zero byte into the frame in one call, and rejects a
//! second call with `NotFirstCall`.  On reading, any body casts to a string
//! view; whether the bytes form a well-terminated string is checked only
//! when the text is extracted.

use vstd::prelude::*;
use vstd::slice::slice_subrange;
use vstd::slice::slice_to_vec;

verus! {

use crate::atom::GetBodyError;
use crate::atom::UnknownAtom;
use crate::frame::spec_fits;
use crate::frame::spec_wrote;
use crate::frame::RootFrame;
use crate::uris::MappedURIDs;

/// Errors of writing a string atom's content.
#[derive(Clone, Copy, PartialEq, Eq, Structural, Debug)]
pub enum AtomStringWritingError {
    /// The content does not fit into the destination buffer.
    InsufficientSpace,
    /// The atom already has content; a string is written exactly once.
    NotFirstCall,
}

/// The body of a string atom holding `text`: the bytes themselves and one
/// terminating zero byte.
pub open spec fn spec_string_body(text: Seq<u8>) -> Seq<u8> {
    text + seq![0u8]
}

/// Write the full content of the string atom under construction: `text`
/// plus its zero terminator, in one piece.
///
/// Fails with `NotFirstCall` if the innermost open atom already has body
/// bytes, and with `InsufficientSpace` if the content does not fit; in both
/// cases nothing is written.
pub fn write_string(frame: &mut RootFrame, text: &[u8]) -> (r: Result<(), AtomStringWritingError>)
    requires
        old(frame).wf(),
    ensures
        match r {
            Ok(()) => {
                &&& old(frame).frame_body_size(old(frame).open_frames().len() - 1) == 0
                &&& spec_wrote(*old(frame), *final(frame), spec_string_body(text@))
            },
            Err(AtomStringWritingError::NotFirstCall) => {
                &&& old(frame).frame_body_size(old(frame).open_frames().len() - 1) > 0
                &&& *final(frame) == *old(frame)
            },
            Err(AtomStringWritingError::InsufficientSpace) => {
                &&& old(frame).frame_body_size(old(frame).open_frames().len() - 1) == 0
                &&& !spec_fits(*old(frame), text@.len() as int + 1)
                &&& *final(frame) == *old(frame)
            },
        },
{
    if frame.body_size() > 0 {
        return Err(AtomStringWritingError::NotFirstCall);
    }
    let mut body = slice_to_vec(text);
    body.push(0u8);
    proof {
        assert(body@ =~= spec_string_body(text@));
    }
    match frame.write_raw(body.as_slice()) {
        Ok(()) => Ok(()),
        Err(_) => Err(AtomStringWritingError::InsufficientSpace),
    }
}

/// The typed view of a string atom: its raw bytes, terminator included.
pub struct AtomString {
    /// The body bytes, including the trailing zero if the writer was
    /// well-behaved.
    pub data: Vec<u8>,
}

/// The body bytes form a zero-terminated string: non-empty, ending in the
/// only zero byte.
pub open spec fn spec_cstr_ok(data: Seq<u8>) -> bool {
    &&& data.len() >= 1
    &&& data[data.len() - 1] == 0
    &&& forall|i: int| 0 <= i < data.len() - 1 ==> data[i] != 0
}

impl AtomString {
    /// Cast an untyped atom to a string view.  The header must carry the
    /// string identifier; any body is structurally acceptable.
    pub fn cast(atom: &UnknownAtom, urids: &MappedURIDs) -> (r: Result<AtomString, GetBodyError>)
        requires
            atom.wf(),
        ensures
            match r {
                Ok(s) => {
                    &&& atom.header.atom_type == urids.string
                    &&& s.data@ == atom.body@
                },
                Err(GetBodyError::WrongURID) => atom.header.atom_type != urids.string,
                Err(GetBodyError::MalformedAtom) => false,
            },
    {
        if atom.header.atom_type != urids.string {
            return Err(GetBodyError::WrongURID);
        }
        // An array body with no sub-header and single-byte elements: every
        // body length splits into whole elements, so no shape check can
        // fail here.
        Ok(AtomString { data: slice_to_vec(atom.body.as_slice()) })
    }

    /// The text without its terminator, or `None` if the bytes are not a
    /// zero-terminated string (empty, unterminated, or with an interior
    /// zero byte).
    pub fn as_text(&self) -> (r: Option<Vec<u8>>)
        ensures
            match r {
                Some(t) => {
                    &&& spec_cstr_ok(self.data@)
                    &&& t@ == self.data@.take(self.data@.len() - 1)
                },
                None => !spec_cstr_ok(self.data@),
            },
    {
        let n = self.data.len();
        if n == 0 {
            return None;
        }
        if self.data[n - 1] != 0 {
            return None;
        }
        let mut i: usize = 0;
        while i < n - 1
            invariant
                n == self.data@.len(),
                n >= 1,
                i <= n - 1,
                forall|j: int| 0 <= j < i ==> self.data@[j] != 0,
            decreases n - 1 - i,
        {
            if self.data[i] == 0 {
                return None;
            }
            i = i + 1;
        }
        Some(slice_to_vec(slice_subrange(self.data.as_slice(), 0, n - 1)))
    }
}

} // verus!
