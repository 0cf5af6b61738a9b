//! The type-identifier table handed out by the host's identifier registry.
//!
//! Every body shape is named on the wire by a small integer ("URID") that a
//! host-side registry assigns to the shape's URI.  The engine itself only ever
//! compares such integers for equality; the registry lookup happens outside of
//! it.  [`MappedURIDs`] holds one identifier per shape this crate knows about,
//! and its `Default` impl provides the fixed table that a debugging registry
//! would produce.

use vstd::prelude::*;

verus! {

/// The identifiers of all atom shapes, as mapped by the host registry.
#[derive(Clone, Copy, PartialEq, Eq, Structural, Debug)]
pub struct MappedURIDs {
    pub root: u32,
    pub atom: u32,
    pub atom_port: u32,
    pub blank: u32,
    pub bool: u32,
    pub chunk: u32,
    pub double: u32,
    pub event: u32,
    pub float: u32,
    pub int: u32,
    pub literal: u32,
    pub long: u32,
    pub number: u32,
    pub object: u32,
    pub path: u32,
    pub property: u32,
    pub resource: u32,
    pub sequence: u32,
    pub sound: u32,
    pub string: u32,
    pub tuple: u32,
    pub uri: u32,
    pub urid: u32,
    pub vector: u32,
    pub atom_transfer: u32,
    pub beat_time: u32,
    pub buffer: u32,
    pub child: u32,
    pub event_transfer: u32,
    pub frame_time: u32,
    pub supports: u32,
    pub time_unit: u32,
}

/// The table produced by [`MappedURIDs::default`]: shapes are numbered in the
/// order of their URIs.
pub open spec fn spec_default_urids() -> MappedURIDs {
    MappedURIDs {
        root: 0,
        atom: 1,
        atom_port: 2,
        blank: 3,
        bool: 4,
        chunk: 5,
        double: 6,
        event: 7,
        float: 8,
        int: 9,
        literal: 10,
        long: 11,
        number: 12,
        object: 13,
        path: 14,
        property: 15,
        resource: 16,
        sequence: 17,
        sound: 18,
        string: 19,
        tuple: 20,
        uri: 21,
        urid: 22,
        vector: 23,
        atom_transfer: 24,
        beat_time: 25,
        buffer: 26,
        child: 27,
        event_transfer: 28,
        frame_time: 29,
        supports: 30,
        time_unit: 31,
    }
}

impl Default for MappedURIDs {
    /// The fixed identifier table of the debugging registry.
    fn default() -> (r: MappedURIDs)
        ensures
            r == spec_default_urids(),
    {
        MappedURIDs {
            root: 0,
            atom: 1,
            atom_port: 2,
            blank: 3,
            bool: 4,
            chunk: 5,
            double: 6,
            event: 7,
            float: 8,
            int: 9,
            literal: 10,
            long: 11,
            number: 12,
            object: 13,
            path: 14,
            property: 15,
            resource: 16,
            sequence: 17,
            sound: 18,
            string: 19,
            tuple: 20,
            uri: 21,
            urid: 22,
            vector: 23,
            atom_transfer: 24,
            beat_time: 25,
            buffer: 26,
            child: 27,
            event_transfer: 28,
            frame_time: 29,
            supports: 30,
            time_unit: 31,
        }
    }
}

} // verus!
