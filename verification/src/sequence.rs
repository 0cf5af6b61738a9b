//! The sequence atom: a run of time-stamped events, each an 8-byte time
//! stamp followed by a complete atom.
//!
//! The sequence's sub-header names the unit its stamps are given in: frame
//! counts or beat positions.  Pushing an event whose stamp disagrees with
//! that unit fails with `UnitMismatch` and writes nothing.

use vstd::bytes::lemma_auto_spec_u32_to_from_le_bytes;
use vstd::bytes::lemma_auto_spec_u64_to_from_le_bytes;
use vstd::bytes::spec_u32_from_le_bytes;
use vstd::bytes::spec_u32_to_le_bytes;
use vstd::bytes::spec_u64_from_le_bytes;
use vstd::bytes::spec_u64_to_le_bytes;
use vstd::bytes::u32_from_le_bytes;
use vstd::bytes::u32_to_le_bytes;
use vstd::bytes::u64_from_le_bytes;
use vstd::bytes::u64_to_le_bytes;
use vstd::prelude::*;
use vstd::slice::slice_subrange;
use vstd::slice::slice_to_vec;

verus! {

use crate::atom::spec_header_bytes;
use crate::atom::AtomHeader;
use crate::atom::AtomIterator;
use crate::atom::GetBodyError;
use crate::atom::UnknownAtom;
use crate::frame::spec_fits;
use crate::frame::spec_splice;
use crate::frame::spec_wrote;
use crate::frame::RootFrame;
use crate::uris::MappedURIDs;

/// The unit that a sequence's time stamps are given in.
#[derive(Clone, Copy, PartialEq, Eq, Structural, Debug)]
pub enum TimeUnit {
    /// Stamps count audio frames since startup.
    Frames,
    /// Stamps are beat positions; on the wire, 64-bit floating-point
    /// numbers carried here as their bit patterns.
    Beats,
}

impl TimeUnit {
    /// The unit a sub-header identifier names, with frames as the default.
    pub open spec fn from_urid_spec(urid: u32, urids: MappedURIDs) -> TimeUnit {
        if urid == urids.beat_time {
            TimeUnit::Beats
        } else {
            TimeUnit::Frames
        }
    }

    /// The unit named by a stamp-type identifier: exactly the beat-time and
    /// frame-time identifiers name a unit.
    pub fn try_from_urid(urid: u32, mapped_urids: &MappedURIDs) -> (r: Result<TimeUnit, ()>)
        ensures
            match r {
                Ok(TimeUnit::Beats) => urid == mapped_urids.beat_time,
                Ok(TimeUnit::Frames) => {
                    &&& urid != mapped_urids.beat_time
                    &&& urid == mapped_urids.frame_time
                },
                Err(()) => {
                    &&& urid != mapped_urids.beat_time
                    &&& urid != mapped_urids.frame_time
                },
            },
    {
        if urid == mapped_urids.beat_time {
            Ok(TimeUnit::Beats)
        } else if urid == mapped_urids.frame_time {
            Ok(TimeUnit::Frames)
        } else {
            Err(())
        }
    }

    /// The unit read from a sequence sub-header: beat time if the
    /// identifier says so, frame time for everything else (0 included, the
    /// default stamp type).
    pub fn from_urid(urid: u32, mapped_urids: &MappedURIDs) -> (r: TimeUnit)
        ensures
            r == (if urid == mapped_urids.beat_time {
                TimeUnit::Beats
            } else {
                TimeUnit::Frames
            }),
    {
        if urid == mapped_urids.beat_time {
            TimeUnit::Beats
        } else {
            TimeUnit::Frames
        }
    }

    /// The identifier of this unit's stamp type.
    pub fn into_urid(&self, mapped_urids: &MappedURIDs) -> (r: u32)
        ensures
            r == (match self {
                TimeUnit::Frames => mapped_urids.frame_time,
                TimeUnit::Beats => mapped_urids.beat_time,
            }),
    {
        match self {
            TimeUnit::Frames => mapped_urids.frame_time,
            TimeUnit::Beats => mapped_urids.beat_time,
        }
    }
}

/// One event's time stamp: a frame count, or a beat position as the bit
/// pattern of a 64-bit floating-point number.
#[derive(Clone, Copy, PartialEq, Eq, Structural, Debug)]
pub enum TimeStamp {
    /// Audio frames since startup.
    Frames(i64),
    /// A beat position's 64-bit floating-point bit pattern.
    Beats(u64),
}

impl TimeStamp {
    /// The unit this stamp is given in.
    pub open spec fn spec_unit(&self) -> TimeUnit {
        match self {
            TimeStamp::Frames(_) => TimeUnit::Frames,
            TimeStamp::Beats(_) => TimeUnit::Beats,
        }
    }

    /// The unit this stamp is given in.
    #[verifier::when_used_as_spec(spec_unit)]
    pub fn get_unit(&self) -> (r: TimeUnit)
        ensures
            r == self.spec_unit(),
    {
        match self {
            TimeStamp::Frames(_) => TimeUnit::Frames,
            TimeStamp::Beats(_) => TimeUnit::Beats,
        }
    }
}

/// The 8-byte wire form of a stamp: its 64 bits, little-endian.
pub open spec fn spec_stamp_bytes(t: TimeStamp) -> Seq<u8> {
    match t {
        TimeStamp::Frames(f) => spec_u64_to_le_bytes(f as u64),
        TimeStamp::Beats(b) => spec_u64_to_le_bytes(b),
    }
}

/// The sub-header of a sequence: the identifier of its stamps' unit, and an
/// unused padding word.
#[derive(Clone, Copy, PartialEq, Eq, Structural, Debug)]
pub struct SequenceHeader {
    /// Identifier of the stamps' unit, or 0 for the default (frames).
    pub unit: u32,
    /// Unused.
    pub pad: u32,
}

/// Errors of writing into a sequence atom.
#[derive(Clone, Copy, PartialEq, Eq, Structural, Debug)]
pub enum SequenceWritingError {
    /// The event does not fit into the destination buffer.
    InsufficientSpace,
    /// The event's stamp is in a different unit than the sequence.
    UnitMismatch,
}

/// The 8-byte wire encoding of a sequence's sub-header: unit, then padding,
/// both little-endian.
pub open spec fn spec_sequence_header_bytes(h: SequenceHeader) -> Seq<u8> {
    spec_u32_to_le_bytes(h.unit) + spec_u32_to_le_bytes(h.pad)
}

/// The sub-header encoded at the start of a sequence's body.
pub open spec fn spec_sequence_header_at(body: Seq<u8>) -> SequenceHeader {
    SequenceHeader {
        unit: spec_u32_from_le_bytes(body.subrange(0, 4)),
        pad: spec_u32_from_le_bytes(body.subrange(4, 8)),
    }
}

/// Encoding a sequence sub-header and decoding it gives the sub-header
/// back; a stamp's wire form is 8 bytes and decodes to its bits.
pub proof fn lemma_sequence_round_trip(h: SequenceHeader, t: TimeStamp, tail: Seq<u8>)
    ensures
        spec_sequence_header_bytes(h).len() == 8,
        spec_sequence_header_at(spec_sequence_header_bytes(h) + tail) == h,
        spec_stamp_bytes(t).len() == 8,
        t matches TimeStamp::Frames(f) ==> spec_u64_from_le_bytes(spec_stamp_bytes(t)) as i64 == f,
        t matches TimeStamp::Beats(b) ==> spec_u64_from_le_bytes(spec_stamp_bytes(t)) == b,
{
    lemma_auto_spec_u32_to_from_le_bytes();
    lemma_auto_spec_u64_to_from_le_bytes();
    let b = spec_sequence_header_bytes(h) + tail;
    assert(b.subrange(0, 4) =~= spec_u32_to_le_bytes(h.unit));
    assert(b.subrange(4, 8) =~= spec_u32_to_le_bytes(h.pad));
    match t {
        TimeStamp::Frames(f) => {
            assert((f as u64) as i64 == f) by (bit_vector);
        },
        TimeStamp::Beats(_) => {},
    }
}

/// Initialize the sequence under construction: write its sub-header naming
/// the given unit, leaving the run of events empty.
pub fn initialize(frame: &mut RootFrame, unit: &TimeUnit, urids: &MappedURIDs) -> (r: Result<
    (),
    crate::ports::WriteAtomError,
>)
    requires
        old(frame).wf(),
    ensures
        match r {
            Ok(()) => spec_wrote(
                *old(frame),
                *final(frame),
                spec_sequence_header_bytes(
                    SequenceHeader {
                        unit: (match unit {
                            TimeUnit::Frames => urids.frame_time,
                            TimeUnit::Beats => urids.beat_time,
                        }),
                        pad: 0,
                    },
                ),
            ),
            Err(e) => {
                &&& e == crate::ports::WriteAtomError::InsufficientSpace
                &&& !spec_fits(*old(frame), 8)
                &&& *final(frame) == *old(frame)
            },
        },
{
    let mut bytes = u32_to_le_bytes(unit.into_urid(urids));
    let mut pad = u32_to_le_bytes(0);
    bytes.append(&mut pad);
    frame.write_raw(bytes.as_slice())
}

/// The unit identifier stamped into the sequence that the frame's innermost
/// open atom holds: the first 4 body bytes after that atom's header.
pub open spec fn spec_frame_unit_urid(frame: RootFrame) -> u32 {
    let body = frame.open_frames().last() + 8;
    spec_u32_from_le_bytes(frame.space().subrange(body, body + 4))
}

/// Begin one event: check the stamp against the sequence's unit, write the
/// 8-byte stamp, and open a nested frame for the event's atom of the given
/// type.  The caller initializes the atom's body through the frame and
/// closes it again.
///
/// The innermost open atom must be a sequence whose sub-header is already
/// written.  Fails with `UnitMismatch` — writing nothing — when the stamp's
/// unit is not the sequence's, and with `InsufficientSpace` — also writing
/// nothing — when stamp and atom header together do not fit.
pub fn push_event(frame: &mut RootFrame, time: &TimeStamp, child_type: u32, urids: &MappedURIDs) -> (r:
    Result<(), SequenceWritingError>)
    requires
        old(frame).wf(),
        old(frame).aligned(),
        old(frame).frame_body_size(old(frame).open_frames().len() - 1) >= 8,
    ensures
        final(frame).wf(),
        final(frame).capacity() == old(frame).capacity(),
        match r {
            Ok(()) => {
                &&& time.get_unit() == TimeUnit::from_urid_spec(
                    spec_frame_unit_urid(*old(frame)),
                    *urids,
                )
                &&& spec_fits(*old(frame), 16)
                &&& final(frame).used_bytes() == old(frame).used_bytes() + 16
                &&& final(frame).aligned()
                &&& final(frame).open_frames() == old(frame).open_frames().push(
                    old(frame).used_bytes() + 8,
                )
                &&& final(frame).atom_starts() == old(frame).atom_starts().push(
                    old(frame).used_bytes() + 8,
                )
                &&& final(frame).space() == spec_splice(
                    spec_splice(old(frame).space(), old(frame).used_bytes(), spec_stamp_bytes(*time)),
                    old(frame).used_bytes() + 8,
                    spec_header_bytes(AtomHeader { size: 0, atom_type: child_type }),
                )
            },
            Err(SequenceWritingError::UnitMismatch) => {
                &&& time.get_unit() != TimeUnit::from_urid_spec(
                    spec_frame_unit_urid(*old(frame)),
                    *urids,
                )
                &&& *final(frame) == *old(frame)
            },
            Err(SequenceWritingError::InsufficientSpace) => {
                &&& time.get_unit() == TimeUnit::from_urid_spec(
                    spec_frame_unit_urid(*old(frame)),
                    *urids,
                )
                &&& !spec_fits(*old(frame), 16)
                &&& *final(frame) == *old(frame)
            },
        },
{
    // Look the sequence's unit up in its own sub-header.
    let depth = frame.depth();
    let ghost n = frame.open_frames().len();
    proof {
        assert(frame.open_frames()[n - 1] + 8 <= frame.used_bytes());
    }
    let body_off = frame.frame_offset(depth - 1) + 8;
    let unit_urid = frame.read_u32_at(body_off);
    let sequence_unit = TimeUnit::from_urid(unit_urid, urids);
    let stamp_unit = time.get_unit();
    if sequence_unit != stamp_unit {
        return Err(SequenceWritingError::UnitMismatch);
    }
    if 16 > frame.buffer_len() - frame.cursor() {
        return Err(SequenceWritingError::InsufficientSpace);
    }
    let bits: u64 = match time {
        TimeStamp::Frames(f) => #[verifier::truncate] (*f as u64),
        TimeStamp::Beats(b) => *b,
    };
    let stamp = u64_to_le_bytes(bits);
    let r1 = frame.write_raw(stamp.as_slice());
    proof {
        assert(r1 is Ok);
    }
    let r2 = frame.open_nested(child_type);
    proof {
        assert(r2 is Ok);
    }
    Ok(())
}

/// The typed view of a sequence atom: its decoded sub-header and its run of
/// stamped events.
pub struct Sequence {
    /// The decoded sub-header.
    pub header: SequenceHeader,
    /// The event run: pairs of 8-byte stamp and complete atom.
    pub data: Vec<u8>,
}

impl Sequence {
    /// Cast an untyped atom to a sequence view.  The header must carry the
    /// sequence identifier and the body must be long enough for the
    /// sub-header.
    pub fn cast(atom: &UnknownAtom, urids: &MappedURIDs) -> (r: Result<Sequence, GetBodyError>)
        requires
            atom.wf(),
        ensures
            match r {
                Ok(s) => {
                    &&& atom.header.atom_type == urids.sequence
                    &&& atom.body@.len() >= 8
                    &&& s.header == spec_sequence_header_at(atom.body@)
                    &&& s.data@ == atom.body@.skip(8)
                },
                Err(GetBodyError::WrongURID) => atom.header.atom_type != urids.sequence,
                Err(GetBodyError::MalformedAtom) => {
                    &&& atom.header.atom_type == urids.sequence
                    &&& atom.body@.len() < 8
                },
            },
    {
        if atom.header.atom_type != urids.sequence {
            return Err(GetBodyError::WrongURID);
        }
        let n = atom.body.len();
        if n < 8 {
            return Err(GetBodyError::MalformedAtom);
        }
        let unit = u32_from_le_bytes(slice_subrange(atom.body.as_slice(), 0, 4));
        let pad = u32_from_le_bytes(slice_subrange(atom.body.as_slice(), 4, 8));
        let data = slice_to_vec(slice_subrange(atom.body.as_slice(), 8, n));
        proof {
            assert(atom.body@.subrange(8, n as int) =~= atom.body@.skip(8));
        }
        Ok(Sequence { header: SequenceHeader { unit, pad }, data })
    }

    /// The unit the sequence's stamps are given in.
    pub fn time_unit(&self, urids: &MappedURIDs) -> (r: TimeUnit)
        ensures
            r == TimeUnit::from_urid_spec(self.header.unit, *urids),
    {
        TimeUnit::from_urid(self.header.unit, urids)
    }

    /// Walk the sequence's events.  Each produced pre-header holds the 8
    /// stamp bytes to decode with [`TimeStamp::from_bytes`] under the
    /// sequence's unit.
    pub fn iter<'a>(&'a self) -> (r: AtomIterator<'a>)
        ensures
            r.wf(),
            r.spec_data() == self.data@,
            r.spec_position() == 0,
            r.spec_pre_header_size() == 8,
    {
        AtomIterator::new(self.data.as_slice(), 8)
    }
}

impl TimeStamp {
    /// Decode a stamp from the 8 bytes a sequence walk produced before the
    /// event's atom, reading them in the given unit.
    pub fn from_bytes(unit: &TimeUnit, pre: &[u8]) -> (r: TimeStamp)
        requires
            pre@.len() == 8,
        ensures
            r == (match unit {
                TimeUnit::Frames => TimeStamp::Frames(
                    spec_u64_from_le_bytes(pre@) as i64,
                ),
                TimeUnit::Beats => TimeStamp::Beats(spec_u64_from_le_bytes(pre@)),
            }),
    {
        let bits = u64_from_le_bytes(pre);
        match unit {
            TimeUnit::Frames => TimeStamp::Frames(#[verifier::truncate] (bits as i64)),
            TimeUnit::Beats => TimeStamp::Beats(bits),
        }
    }
}

} // verus!
