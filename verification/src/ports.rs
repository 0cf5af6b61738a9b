//! Buffer hand-over at the port boundary, and the errors of both directions.
//!
//! A plugin host hands each port a byte buffer per cycle.  An output port
//! turns its buffer into a [`crate::frame::RootFrame`] for construction; an
//! input port serves the buffer back for read-only inspection.  A port that
//! was never connected to a buffer reports that instead of producing garbage.

use vstd::prelude::*;

verus! {

use crate::atom::spec_atom_fits;
use crate::atom::spec_header_at;
use crate::atom::spec_header_bytes;
use crate::atom::AtomHeader;
use crate::atom::GetBodyError;
use crate::atom::UnknownAtom;
use crate::frame::spec_splice;
use crate::frame::RootFrame;

/// Errors of writing an atom through an output port.
#[derive(Clone, Copy, PartialEq, Eq, Structural, Debug)]
pub enum WriteAtomError {
    /// The port holds no buffer; `connect_port` was never called.
    NullPointer,
    /// The buffer is too small for what was to be written.
    InsufficientSpace,
}

/// Errors of reading an atom through an input port.
#[derive(Clone, Copy, PartialEq, Eq, Structural, Debug)]
pub enum GetAtomError {
    /// The port holds no buffer; `connect_port` was never called.
    NullPointer,
    /// The buffer's contents do not form the requested view.
    GetBody(GetBodyError),
}

/// An output port: hands the buffer the host connected to it over to a
/// [`RootFrame`] for one single-pass construction.
pub struct AtomOutputPort {
    space: Option<Vec<u8>>,
}

impl AtomOutputPort {
    /// The buffer the port currently holds, if any.
    pub closed spec fn spec_space(&self) -> Option<Seq<u8>> {
        match self.space {
            Some(ref v) => Some(v@),
            None => None,
        }
    }

    /// A fresh, unconnected port: writing through it reports `NullPointer`
    /// until a buffer is connected.
    pub fn new() -> (r: AtomOutputPort)
        ensures
            r.spec_space() is None,
    {
        AtomOutputPort { space: None }
    }

    /// Connect the port to the destination buffer of the current cycle.
    pub fn connect_port(&mut self, space: Vec<u8>)
        ensures
            final(self).spec_space() == Some(space@),
    {
        self.space = Some(space);
    }

    /// Begin writing an atom of the given type: take the connected buffer
    /// out of the port and open a [`RootFrame`] over it.  Fails with
    /// `NullPointer` on an unconnected port and with `InsufficientSpace` on
    /// a buffer too small for one header.
    pub fn write_atom(&mut self, atom_type: u32) -> (r: Result<RootFrame, WriteAtomError>)
        requires
            old(self).spec_space() matches Some(s) ==> s.len() <= u32::MAX,
        ensures
            final(self).spec_space() is None,
            match r {
                Ok(f) => {
                    &&& old(self).spec_space() matches Some(s)
                    &&& f.wf()
                    &&& f.aligned()
                    &&& f.capacity() == old(self).spec_space()->Some_0.len()
                    &&& f.capacity() >= 8
                    &&& f.used_bytes() == 8
                    &&& f.open_frames() == seq![0int]
                    &&& f.atom_starts() == seq![0int]
                    &&& f.space() == spec_splice(
                        old(self).spec_space()->Some_0,
                        0,
                        spec_header_bytes(AtomHeader { size: 0, atom_type }),
                    )
                },
                Err(WriteAtomError::NullPointer) => old(self).spec_space() is None,
                Err(WriteAtomError::InsufficientSpace) => {
                    &&& old(self).spec_space() matches Some(s)
                    &&& s.len() < 8
                },
            },
    {
        match self.space.take() {
            Some(space) => RootFrame::new(space, atom_type),
            None => Err(WriteAtomError::NullPointer),
        }
    }
}

/// An input port: serves the read-only buffer the host connected to it as an
/// untyped atom view.
pub struct AtomInputPort {
    data: Option<Vec<u8>>,
}

impl AtomInputPort {
    /// The buffer the port currently holds, if any.
    pub closed spec fn spec_data(&self) -> Option<Seq<u8>> {
        match self.data {
            Some(ref v) => Some(v@),
            None => None,
        }
    }

    /// A fresh, unconnected port: reading through it reports `NullPointer`
    /// until a buffer is connected.
    pub fn new() -> (r: AtomInputPort)
        ensures
            r.spec_data() is None,
    {
        AtomInputPort { data: None }
    }

    /// Connect the port to the source buffer of the current cycle.
    pub fn connect_port(&mut self, data: Vec<u8>)
        ensures
            final(self).spec_data() == Some(data@),
    {
        self.data = Some(data);
    }

    /// The untyped view of the connected buffer's atom: its header and the
    /// body bytes the header declares.  Fails with `NullPointer` on an
    /// unconnected port and with a `MalformedAtom` body error on a buffer
    /// too short for its own declared content.
    pub fn get_atom(&self) -> (r: Result<UnknownAtom, GetAtomError>)
        ensures
            match r {
                Ok(a) => {
                    &&& self.spec_data() matches Some(d)
                    &&& spec_atom_fits(d)
                    &&& a.wf()
                    &&& a.header == spec_header_at(d, 0)
                    &&& a.body@ == d.subrange(8, 8 + a.header.size as int)
                },
                Err(GetAtomError::NullPointer) => self.spec_data() is None,
                Err(GetAtomError::GetBody(e)) => {
                    &&& self.spec_data() matches Some(d)
                    &&& e == GetBodyError::MalformedAtom
                    &&& !spec_atom_fits(d)
                },
            },
    {
        match &self.data {
            Some(data) => match UnknownAtom::from_span(data.as_slice()) {
                Ok(a) => Ok(a),
                Err(e) => Err(GetAtomError::GetBody(e)),
            },
            None => Err(GetAtomError::NullPointer),
        }
    }
}

} // verus!
