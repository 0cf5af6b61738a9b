//! Scalar (number-like) atoms: 32- and 64-bit integers, the bit patterns of
//! 32- and 64-bit floating-point numbers, truth values and shape
//! identifiers.
//!
//! Scalars are statically sized and written in one piece: their initializer
//! writes the value itself and nothing may be appended afterwards.  On
//! reading, a scalar's body must be exactly as long as the value — no more,
//! no less.  Floating-point values pass through this engine as their raw bit
//! patterns; the engine never interprets them numerically.

use vstd::bytes::lemma_auto_spec_u32_to_from_le_bytes;
use vstd::bytes::lemma_auto_spec_u64_to_from_le_bytes;
use vstd::bytes::spec_u32_from_le_bytes;
use vstd::bytes::spec_u32_to_le_bytes;
use vstd::bytes::spec_u64_from_le_bytes;
use vstd::bytes::spec_u64_to_le_bytes;
use vstd::bytes::u32_from_le_bytes;
use vstd::bytes::u32_to_le_bytes;
use vstd::bytes::u64_from_le_bytes;
use vstd::bytes::u64_to_le_bytes;
use vstd::prelude::*;

verus! {

use crate::atom::GetBodyError;
use crate::atom::UnknownAtom;
use crate::frame::spec_fits;
use crate::frame::spec_wrote;
use crate::frame::RootFrame;
use crate::ports::WriteAtomError;
use crate::uris::MappedURIDs;

/// The body of a 32-bit integer atom.
pub open spec fn spec_int_body(value: i32) -> Seq<u8> {
    spec_u32_to_le_bytes(value as u32)
}

/// The 32-bit integer stored in a 4-byte body.
pub open spec fn spec_int_value(body: Seq<u8>) -> i32 {
    spec_u32_from_le_bytes(body) as i32
}

/// The body of a 64-bit integer atom.
pub open spec fn spec_long_body(value: i64) -> Seq<u8> {
    spec_u64_to_le_bytes(value as u64)
}

/// The 64-bit integer stored in an 8-byte body.
pub open spec fn spec_long_value(body: Seq<u8>) -> i64 {
    spec_u64_from_le_bytes(body) as i64
}

/// The body of a truth-value atom: a single byte, 1 for true and 0 for
/// false.
pub open spec fn spec_bool_body(value: bool) -> Seq<u8> {
    seq![if value { 1u8 } else { 0u8 }]
}

/// Writing a scalar's body and reading it back yields the value again, for
/// every scalar shape this engine knows; the body is exactly as long as the
/// value.
pub proof fn lemma_scalar_round_trip(iv: i32, lv: i64, bits32: u32, bits64: u64, truth: bool)
    ensures
        spec_int_body(iv).len() == 4 && spec_int_value(spec_int_body(iv)) == iv,
        spec_long_body(lv).len() == 8 && spec_long_value(spec_long_body(lv)) == lv,
        spec_u32_to_le_bytes(bits32).len() == 4 && spec_u32_from_le_bytes(
            spec_u32_to_le_bytes(bits32),
        ) == bits32,
        spec_u64_to_le_bytes(bits64).len() == 8 && spec_u64_from_le_bytes(
            spec_u64_to_le_bytes(bits64),
        ) == bits64,
        spec_bool_body(truth).len() == 1 && (spec_bool_body(truth)[0] != 0) == truth,
{
    lemma_auto_spec_u32_to_from_le_bytes();
    lemma_auto_spec_u64_to_from_le_bytes();
    assert((iv as u32) as i32 == iv) by (bit_vector);
    assert((lv as u64) as i64 == lv) by (bit_vector);
}

/// Write a 32-bit integer body into the frame's innermost open atom.
pub fn initialize_int(frame: &mut RootFrame, value: i32) -> (r: Result<(), WriteAtomError>)
    requires
        old(frame).wf(),
    ensures
        match r {
            Ok(()) => spec_wrote(*old(frame), *final(frame), spec_int_body(value)),
            Err(e) => {
                &&& e == WriteAtomError::InsufficientSpace
                &&& !spec_fits(*old(frame), 4)
                &&& *final(frame) == *old(frame)
            },
        },
{
    let bytes = u32_to_le_bytes(#[verifier::truncate] (value as u32));
    frame.write_raw(bytes.as_slice())
}

/// Write a 64-bit integer body into the frame's innermost open atom.
pub fn initialize_long(frame: &mut RootFrame, value: i64) -> (r: Result<(), WriteAtomError>)
    requires
        old(frame).wf(),
    ensures
        match r {
            Ok(()) => spec_wrote(*old(frame), *final(frame), spec_long_body(value)),
            Err(e) => {
                &&& e == WriteAtomError::InsufficientSpace
                &&& !spec_fits(*old(frame), 8)
                &&& *final(frame) == *old(frame)
            },
        },
{
    let bytes = u64_to_le_bytes(#[verifier::truncate] (value as u64));
    frame.write_raw(bytes.as_slice())
}

/// Write the bit pattern of a 32-bit floating-point number as the body of
/// the frame's innermost open atom.
pub fn initialize_float_bits(frame: &mut RootFrame, bits: u32) -> (r: Result<(), WriteAtomError>)
    requires
        old(frame).wf(),
    ensures
        match r {
            Ok(()) => spec_wrote(*old(frame), *final(frame), spec_u32_to_le_bytes(bits)),
            Err(e) => {
                &&& e == WriteAtomError::InsufficientSpace
                &&& !spec_fits(*old(frame), 4)
                &&& *final(frame) == *old(frame)
            },
        },
{
    let bytes = u32_to_le_bytes(bits);
    frame.write_raw(bytes.as_slice())
}

/// Write the bit pattern of a 64-bit floating-point number as the body of
/// the frame's innermost open atom.
pub fn initialize_double_bits(frame: &mut RootFrame, bits: u64) -> (r: Result<(), WriteAtomError>)
    requires
        old(frame).wf(),
    ensures
        match r {
            Ok(()) => spec_wrote(*old(frame), *final(frame), spec_u64_to_le_bytes(bits)),
            Err(e) => {
                &&& e == WriteAtomError::InsufficientSpace
                &&& !spec_fits(*old(frame), 8)
                &&& *final(frame) == *old(frame)
            },
        },
{
    let bytes = u64_to_le_bytes(bits);
    frame.write_raw(bytes.as_slice())
}

/// Write a shape-identifier body into the frame's innermost open atom.
pub fn initialize_urid(frame: &mut RootFrame, value: u32) -> (r: Result<(), WriteAtomError>)
    requires
        old(frame).wf(),
    ensures
        match r {
            Ok(()) => spec_wrote(*old(frame), *final(frame), spec_u32_to_le_bytes(value)),
            Err(e) => {
                &&& e == WriteAtomError::InsufficientSpace
                &&& !spec_fits(*old(frame), 4)
                &&& *final(frame) == *old(frame)
            },
        },
{
    let bytes = u32_to_le_bytes(value);
    frame.write_raw(bytes.as_slice())
}

/// Write a truth-value body into the frame's innermost open atom.
pub fn initialize_bool(frame: &mut RootFrame, value: bool) -> (r: Result<(), WriteAtomError>)
    requires
        old(frame).wf(),
    ensures
        match r {
            Ok(()) => spec_wrote(*old(frame), *final(frame), spec_bool_body(value)),
            Err(e) => {
                &&& e == WriteAtomError::InsufficientSpace
                &&& !spec_fits(*old(frame), 1)
                &&& *final(frame) == *old(frame)
            },
        },
{
    let mut bytes: Vec<u8> = Vec::new();
    bytes.push(if value { 1u8 } else { 0u8 });
    proof {
        assert(bytes@ =~= spec_bool_body(value));
    }
    frame.write_raw(bytes.as_slice())
}

/// Cast an untyped atom to a 32-bit integer: the header must carry the
/// integer identifier and the body must be exactly 4 bytes.
pub fn cast_int(atom: &UnknownAtom, urids: &MappedURIDs) -> (r: Result<i32, GetBodyError>)
    requires
        atom.wf(),
    ensures
        match r {
            Ok(v) => {
                &&& atom.header.atom_type == urids.int
                &&& atom.body@.len() == 4
                &&& v == spec_int_value(atom.body@)
            },
            Err(GetBodyError::WrongURID) => atom.header.atom_type != urids.int,
            Err(GetBodyError::MalformedAtom) => {
                &&& atom.header.atom_type == urids.int
                &&& atom.body@.len() != 4
            },
        },
{
    if atom.header.atom_type != urids.int {
        return Err(GetBodyError::WrongURID);
    }
    if atom.body.len() != 4 {
        return Err(GetBodyError::MalformedAtom);
    }
    Ok(#[verifier::truncate] (u32_from_le_bytes(atom.body.as_slice()) as i32))
}

/// Cast an untyped atom to a 64-bit integer: the header must carry the
/// long-integer identifier and the body must be exactly 8 bytes.
pub fn cast_long(atom: &UnknownAtom, urids: &MappedURIDs) -> (r: Result<i64, GetBodyError>)
    requires
        atom.wf(),
    ensures
        match r {
            Ok(v) => {
                &&& atom.header.atom_type == urids.long
                &&& atom.body@.len() == 8
                &&& v == spec_long_value(atom.body@)
            },
            Err(GetBodyError::WrongURID) => atom.header.atom_type != urids.long,
            Err(GetBodyError::MalformedAtom) => {
                &&& atom.header.atom_type == urids.long
                &&& atom.body@.len() != 8
            },
        },
{
    if atom.header.atom_type != urids.long {
        return Err(GetBodyError::WrongURID);
    }
    if atom.body.len() != 8 {
        return Err(GetBodyError::MalformedAtom);
    }
    Ok(#[verifier::truncate] (u64_from_le_bytes(atom.body.as_slice()) as i64))
}

/// Cast an untyped atom to the bit pattern of a 32-bit floating-point
/// number: the header must carry the float identifier and the body must be
/// exactly 4 bytes.
pub fn cast_float_bits(atom: &UnknownAtom, urids: &MappedURIDs) -> (r: Result<u32, GetBodyError>)
    requires
        atom.wf(),
    ensures
        match r {
            Ok(v) => {
                &&& atom.header.atom_type == urids.float
                &&& atom.body@.len() == 4
                &&& v == spec_u32_from_le_bytes(atom.body@)
            },
            Err(GetBodyError::WrongURID) => atom.header.atom_type != urids.float,
            Err(GetBodyError::MalformedAtom) => {
                &&& atom.header.atom_type == urids.float
                &&& atom.body@.len() != 4
            },
        },
{
    if atom.header.atom_type != urids.float {
        return Err(GetBodyError::WrongURID);
    }
    if atom.body.len() != 4 {
        return Err(GetBodyError::MalformedAtom);
    }
    Ok(u32_from_le_bytes(atom.body.as_slice()))
}

/// Cast an untyped atom to the bit pattern of a 64-bit floating-point
/// number: the header must carry the double identifier and the body must be
/// exactly 8 bytes.
pub fn cast_double_bits(atom: &UnknownAtom, urids: &MappedURIDs) -> (r: Result<u64, GetBodyError>)
    requires
        atom.wf(),
    ensures
        match r {
            Ok(v) => {
                &&& atom.header.atom_type == urids.double
                &&& atom.body@.len() == 8
                &&& v == spec_u64_from_le_bytes(atom.body@)
            },
            Err(GetBodyError::WrongURID) => atom.header.atom_type != urids.double,
            Err(GetBodyError::MalformedAtom) => {
                &&& atom.header.atom_type == urids.double
                &&& atom.body@.len() != 8
            },
        },
{
    if atom.header.atom_type != urids.double {
        return Err(GetBodyError::WrongURID);
    }
    if atom.body.len() != 8 {
        return Err(GetBodyError::MalformedAtom);
    }
    Ok(u64_from_le_bytes(atom.body.as_slice()))
}

/// Cast an untyped atom to a shape identifier: the header must carry the
/// identifier identifier and the body must be exactly 4 bytes.
pub fn cast_urid(atom: &UnknownAtom, urids: &MappedURIDs) -> (r: Result<u32, GetBodyError>)
    requires
        atom.wf(),
    ensures
        match r {
            Ok(v) => {
                &&& atom.header.atom_type == urids.urid
                &&& atom.body@.len() == 4
                &&& v == spec_u32_from_le_bytes(atom.body@)
            },
            Err(GetBodyError::WrongURID) => atom.header.atom_type != urids.urid,
            Err(GetBodyError::MalformedAtom) => {
                &&& atom.header.atom_type == urids.urid
                &&& atom.body@.len() != 4
            },
        },
{
    if atom.header.atom_type != urids.urid {
        return Err(GetBodyError::WrongURID);
    }
    if atom.body.len() != 4 {
        return Err(GetBodyError::MalformedAtom);
    }
    Ok(u32_from_le_bytes(atom.body.as_slice()))
}

/// Cast an untyped atom to a truth value: the header must carry the bool
/// identifier and the body must be exactly 1 byte, any non-zero byte
/// reading as true.
pub fn cast_bool(atom: &UnknownAtom, urids: &MappedURIDs) -> (r: Result<bool, GetBodyError>)
    requires
        atom.wf(),
    ensures
        match r {
            Ok(v) => {
                &&& atom.header.atom_type == urids.bool
                &&& atom.body@.len() == 1
                &&& v == (atom.body@[0] != 0)
            },
            Err(GetBodyError::WrongURID) => atom.header.atom_type != urids.bool,
            Err(GetBodyError::MalformedAtom) => {
                &&& atom.header.atom_type == urids.bool
                &&& atom.body@.len() != 1
            },
        },
{
    if atom.header.atom_type != urids.bool {
        return Err(GetBodyError::WrongURID);
    }
    if atom.body.len() != 1 {
        return Err(GetBodyError::MalformedAtom);
    }
    Ok(atom.body[0] != 0)
}

} // verus!
