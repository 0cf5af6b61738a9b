//! Writing access to a caller-supplied byte buffer.
//!
//! A [`RootFrame`] owns the destination buffer for the duration of one
//! single-pass construction.  It stamps the outermost atom header into the
//! first 8 bytes and then appends body bytes with a bump cursor.  Nested atoms
//! are built by opening a nested frame (which writes a fresh header), writing
//! the nested body, and closing the frame again, innermost first; closing
//! stamps the nested header's final size and emits the zero padding that
//! re-aligns the cursor to 8 bytes.  The padding counts toward every enclosing
//! record, never toward the closed record itself.
//!
//! The size field of an open frame's header is derived state: it always equals
//! the number of bytes written after that header, so a single append at
//! nesting depth `k` conceptually grows all `k + 1` enclosing sizes at once.
//! Headers of open frames are stamped with their final size when they close
//! (the root's when [`RootFrame::finish`] runs); while a frame is open its
//! size is served by [`RootFrame::body_size`] instead, mid-construction buffer
//! bytes being private to the writer anyway.

use vstd::bytes::spec_u32_from_le_bytes;
use vstd::bytes::spec_u32_to_le_bytes;
use vstd::bytes::u32_from_le_bytes;
use vstd::bytes::u32_to_le_bytes;
use vstd::prelude::*;
use vstd::slice::slice_subrange;

verus! {

use crate::atom::spec_header_bytes;
use crate::atom::AtomHeader;
use crate::ports::WriteAtomError;

broadcast use crate::atom::lemma_header_bytes_len;

/// `b` with the bytes starting at `off` replaced by `d`.
pub open spec fn spec_splice(b: Seq<u8>, off: int, d: Seq<u8>) -> Seq<u8>
    recommends
        0 <= off,
        off + d.len() <= b.len(),
{
    b.take(off) + d + b.skip(off + d.len())
}

/// The number of zero bytes needed after `pos` to reach the next multiple
/// of 8.
pub open spec fn spec_pad_len(pos: int) -> int {
    (8 - pos % 8) % 8
}

/// What an overwrite leaves behind: the spliced bytes themselves, and every
/// range that does not meet them unchanged.  Chains of writer steps combine
/// into buffer layouts through these three facts.
pub proof fn lemma_splice_facts(b: Seq<u8>, off: int, d: Seq<u8>)
    requires
        0 <= off,
        off + d.len() <= b.len(),
    ensures
        spec_splice(b, off, d).len() == b.len(),
        spec_splice(b, off, d).subrange(off, off + d.len()) == d,
        forall|a0: int, a1: int|
            0 <= a0 <= a1 <= b.len() && (a1 <= off || off + d.len() <= a0)
                ==> #[trigger] spec_splice(b, off, d).subrange(a0, a1) == b.subrange(a0, a1),
{
    assert(spec_splice(b, off, d).subrange(off, off + d.len() as int) =~= d);
    assert forall|a0: int, a1: int|
        0 <= a0 <= a1 <= b.len() && (a1 <= off || off + d.len() <= a0) implies #[trigger] spec_splice(
        b,
        off,
        d,
    ).subrange(a0, a1) == b.subrange(a0, a1) by {
        assert(spec_splice(b, off, d).subrange(a0, a1) =~= b.subrange(a0, a1));
    }
}

/// One successful plain append of `body` to the writer: the cursor advanced
/// over exactly those bytes, every open frame's body size grew by their
/// count, and nothing else changed.
pub open spec fn spec_wrote(pre: RootFrame, post: RootFrame, body: Seq<u8>) -> bool {
    &&& post.wf()
    &&& post.capacity() == pre.capacity()
    &&& post.open_frames() == pre.open_frames()
    &&& post.atom_starts() == pre.atom_starts()
    &&& post.used_bytes() == pre.used_bytes() + body.len()
    &&& post.space() == spec_splice(pre.space(), pre.used_bytes(), body)
}

/// `n` more bytes still fit into the writer's buffer.
pub open spec fn spec_fits(pre: RootFrame, n: int) -> bool {
    pre.used_bytes() + n <= pre.capacity()
}

/// The writer over one destination buffer.
///
/// The buffer's length never changes; `used` is the bump cursor, and
/// `frames` holds the header offset of every frame that is still open,
/// outermost first (the root's header sits at offset 0).  `starts` records
/// the offset of every atom header ever written into the buffer, open or
/// closed, so that the alignment invariant can speak about all of them.
pub struct RootFrame {
    buf: Vec<u8>,
    used: usize,
    frames: Vec<usize>,
    starts: Ghost<Seq<int>>,
}

impl RootFrame {
    /// The full contents of the destination buffer.
    pub closed spec fn space(&self) -> Seq<u8> {
        self.buf@
    }

    /// The bump cursor: how many buffer bytes have been claimed so far.
    pub closed spec fn used_bytes(&self) -> int {
        self.used as int
    }

    /// Header offsets of the open frames, outermost first.
    pub closed spec fn open_frames(&self) -> Seq<int> {
        self.frames@.map_values(|o: usize| o as int)
    }

    /// Header offsets of every atom written so far, open or closed.
    pub closed spec fn atom_starts(&self) -> Seq<int> {
        self.starts@
    }

    /// The buffer's length.
    pub open spec fn capacity(&self) -> int {
        self.space().len() as int
    }

    /// The body size of the open frame at nesting index `i`: everything
    /// written after its header is part of its body.
    pub open spec fn frame_body_size(&self, i: int) -> int {
        self.used_bytes() - self.open_frames()[i] - 8
    }

    /// The cursor sits on an 8-byte boundary, so a header may be written
    /// next.
    pub open spec fn aligned(&self) -> bool {
        self.used_bytes() % 8 == 0
    }

    /// Well-formedness: the cursor stays within the buffer, sizes fit the
    /// header's 32-bit field, the root frame is open at offset 0, and every
    /// atom header ever written starts on an 8-byte boundary.
    pub open spec fn wf(&self) -> bool {
        &&& self.capacity() <= u32::MAX
        &&& 8 <= self.used_bytes()
        &&& self.used_bytes() <= self.capacity()
        &&& self.open_frames().len() >= 1
        &&& self.open_frames()[0] == 0
        &&& forall|i: int|
            0 <= i < self.open_frames().len() ==> {
                &&& (#[trigger] self.open_frames()[i]) % 8 == 0
                &&& self.open_frames()[i] + 8 <= self.used_bytes()
            }
        &&& forall|i: int|
            0 <= i < self.atom_starts().len() ==> {
                &&& (#[trigger] self.atom_starts()[i]) % 8 == 0
                &&& self.atom_starts()[i] + 8 <= self.used_bytes()
            }
    }

    /// Alignment invariant: in a well-formed writer, every atom header that
    /// any sequence of frame opens and closes has put into the buffer starts
    /// at an offset that is a multiple of 8.
    pub proof fn lemma_alignment_invariant(self)
        requires
            self.wf(),
        ensures
            forall|i: int|
                0 <= i < self.atom_starts().len() ==> (#[trigger] self.atom_starts()[i]) % 8 == 0,
    {
    }

    /// Size propagation: between two states of one construction that have the
    /// same open frames, every open frame's body size has grown by exactly
    /// the bytes the cursor advanced — each write of `B` bytes at nesting
    /// depth `k` grows all `k + 1` enclosing body sizes by `B` at once, and
    /// padding committed by a closing frame grows every frame still open.
    pub proof fn lemma_size_propagation(pre: RootFrame, post: RootFrame)
        requires
            post.open_frames() == pre.open_frames(),
        ensures
            forall|i: int|
                0 <= i < pre.open_frames().len() ==> #[trigger] post.frame_body_size(i)
                    - pre.frame_body_size(i) == post.used_bytes() - pre.used_bytes(),
    {
    }

    /// How many frames are open, the root frame included.
    pub fn depth(&self) -> (r: usize)
        ensures
            r == self.open_frames().len(),
    {
        self.frames.len()
    }

    /// The current cursor position.
    pub fn cursor(&self) -> (r: usize)
        ensures
            r == self.used_bytes(),
    {
        self.used
    }

    /// The destination buffer's length.
    pub fn buffer_len(&self) -> (r: usize)
        ensures
            r == self.capacity(),
    {
        self.buf.len()
    }

    /// The header offset of the open frame at nesting index `i`.
    pub fn frame_offset(&self, i: usize) -> (r: usize)
        requires
            i < self.open_frames().len(),
        ensures
            r == self.open_frames()[i as int],
    {
        self.frames[i]
    }

    /// Claim a buffer and open the outermost frame: the first 8 bytes become
    /// a header of the given type with size 0, the rest is free space.
    ///
    /// Fails exactly when the buffer cannot even hold one header.  The
    /// buffer's length must fit the header's 32-bit size field.
    pub fn new(space: Vec<u8>, atom_type: u32) -> (r: Result<RootFrame, WriteAtomError>)
        requires
            space@.len() <= u32::MAX,
        ensures
            match r {
                Ok(f) => {
                    &&& space@.len() >= 8
                    &&& f.wf()
                    &&& f.aligned()
                    &&& f.capacity() == space@.len()
                    &&& f.used_bytes() == 8
                    &&& f.open_frames() == seq![0int]
                    &&& f.atom_starts() == seq![0int]
                    &&& f.space() == spec_splice(
                        space@,
                        0,
                        spec_header_bytes(AtomHeader { size: 0, atom_type }),
                    )
                },
                Err(e) => {
                    &&& e == WriteAtomError::InsufficientSpace
                    &&& space@.len() < 8
                },
            },
    {
        if space.len() < 8 {
            return Err(WriteAtomError::InsufficientSpace);
        }
        let mut frames: Vec<usize> = Vec::new();
        frames.push(0);
        let ghost root_start: Seq<int> = seq![0int];
        let mut f = RootFrame { buf: space, used: 8, frames, starts: Ghost(root_start) };
        let header = AtomHeader { size: 0, atom_type };
        f.store_bytes(0, &header.encode());
        proof {
            assert(f.open_frames() =~= seq![0int]);
        }
        Ok(f)
    }

    /// Overwrite the bytes at `off` with `data`, leaving every other byte and
    /// all bookkeeping as it was.
    fn store_bytes(&mut self, off: usize, data: &Vec<u8>)
        requires
            off + data@.len() <= old(self).space().len(),
        ensures
            final(self).space() == spec_splice(old(self).space(), off as int, data@),
            final(self).used == old(self).used,
            final(self).frames == old(self).frames,
            final(self).starts == old(self).starts,
    {
        let n = data.len();
        let cap = self.buf.len();
        let mut i: usize = 0;
        while i < n
            invariant
                i <= n,
                n == data@.len(),
                cap == self.buf@.len(),
                off + n <= self.buf@.len(),
                self.buf@.len() == old(self).buf@.len(),
                forall|j: int| off <= j < off + i ==> self.buf@[j] == data@[j - off],
                forall|j: int|
                    0 <= j < self.buf@.len() && !(off <= j < off + i) ==> self.buf@[j] == old(
                        self,
                    ).buf@[j],
                self.used == old(self).used,
                self.frames == old(self).frames,
                self.starts == old(self).starts,
            decreases n - i,
        {
            self.buf.set(off + i, data[i]);
            i = i + 1;
        }
        proof {
            assert(self.buf@ =~= spec_splice(old(self).buf@, off as int, data@));
        }
    }

    /// Append raw bytes at the cursor.  No padding is added; the body size of
    /// every open frame grows by the byte count, nothing else changes.
    ///
    /// Fails exactly when the bytes do not fit into the remaining free space,
    /// and then leaves the writer untouched.
    pub fn write_raw(&mut self, data: &[u8]) -> (r: Result<(), WriteAtomError>)
        requires
            old(self).wf(),
        ensures
            final(self).wf(),
            final(self).capacity() == old(self).capacity(),
            final(self).open_frames() == old(self).open_frames(),
            final(self).atom_starts() == old(self).atom_starts(),
            match r {
                Ok(()) => {
                    &&& old(self).used_bytes() + data@.len() <= old(self).capacity()
                    &&& final(self).used_bytes() == old(self).used_bytes() + data@.len()
                    &&& final(self).space() == spec_splice(
                        old(self).space(),
                        old(self).used_bytes(),
                        data@,
                    )
                },
                Err(e) => {
                    &&& e == WriteAtomError::InsufficientSpace
                    &&& old(self).used_bytes() + data@.len() > old(self).capacity()
                    &&& *final(self) == *old(self)
                },
            },
    {
        let n = data.len();
        if n > self.buf.len() - self.used {
            return Err(WriteAtomError::InsufficientSpace);
        }
        let cap = self.buf.len();
        let mut i: usize = 0;
        while i < n
            invariant
                old(self).wf(),
                i <= n,
                n == data@.len(),
                cap == self.buf@.len(),
                self.used + n <= self.buf@.len(),
                self.buf@.len() == old(self).buf@.len(),
                forall|j: int|
                    self.used <= j < self.used + i ==> self.buf@[j] == data@[j - self.used],
                forall|j: int|
                    0 <= j < self.buf@.len() && !(self.used <= j < self.used + i)
                        ==> self.buf@[j] == old(self).buf@[j],
                self.used == old(self).used,
                self.frames == old(self).frames,
                self.starts == old(self).starts,
            decreases n - i,
        {
            self.buf.set(self.used + i, data[i]);
            i = i + 1;
        }
        self.used = self.used + n;
        proof {
            assert(self.buf@ =~= spec_splice(old(self).buf@, old(self).used as int, data@));
            assert(self.open_frames() == old(self).open_frames());
            assert(self.atom_starts() == old(self).atom_starts());
        }
        Ok(())
    }

    /// Open a nested frame: write a fresh header of the given type with
    /// size 0 at the cursor and push it onto the stack of open frames.  The
    /// cursor must sit on an 8-byte boundary, as every atom must.
    ///
    /// Fails exactly when the header does not fit into the free space, and
    /// then leaves the writer untouched.
    pub fn open_nested(&mut self, atom_type: u32) -> (r: Result<(), WriteAtomError>)
        requires
            old(self).wf(),
            old(self).aligned(),
        ensures
            final(self).wf(),
            final(self).capacity() == old(self).capacity(),
            match r {
                Ok(()) => {
                    &&& old(self).used_bytes() + 8 <= old(self).capacity()
                    &&& final(self).used_bytes() == old(self).used_bytes() + 8
                    &&& final(self).aligned()
                    &&& final(self).open_frames() == old(self).open_frames().push(
                        old(self).used_bytes(),
                    )
                    &&& final(self).atom_starts() == old(self).atom_starts().push(
                        old(self).used_bytes(),
                    )
                    &&& final(self).space() == spec_splice(
                        old(self).space(),
                        old(self).used_bytes(),
                        spec_header_bytes(AtomHeader { size: 0, atom_type }),
                    )
                },
                Err(e) => {
                    &&& e == WriteAtomError::InsufficientSpace
                    &&& old(self).used_bytes() + 8 > old(self).capacity()
                    &&& *final(self) == *old(self)
                },
            },
    {
        let off = self.used;
        let header = AtomHeader { size: 0, atom_type };
        match self.write_raw(header.encode().as_slice()) {
            Ok(()) => {
                self.frames.push(off);
                self.starts = Ghost(self.starts@.push(off as int));
                proof {
                    assert(self.open_frames() =~= old(self).open_frames().push(off as int));
                }
                Ok(())
            },
            Err(e) => Err(e),
        }
    }

    /// Close the innermost nested frame: stamp its final body size into its
    /// header, then write the zero padding that the enclosing record needs to
    /// bring the cursor back to an 8-byte boundary.  The padding counts
    /// toward every frame still open, never toward the closed one.
    ///
    /// The root frame cannot be closed this way, and the caller must leave
    /// room for the padding; within a buffer whose length is a multiple of 8
    /// that is always the case.
    pub fn close_nested(&mut self)
        requires
            old(self).wf(),
            old(self).open_frames().len() >= 2,
            old(self).used_bytes() + spec_pad_len(old(self).used_bytes()) <= old(self).capacity(),
        ensures
            final(self).wf(),
            final(self).aligned(),
            final(self).capacity() == old(self).capacity(),
            final(self).open_frames() == old(self).open_frames().drop_last(),
            final(self).atom_starts() == old(self).atom_starts(),
            final(self).used_bytes() == old(self).used_bytes() + spec_pad_len(
                old(self).used_bytes(),
            ),
            final(self).space() == spec_splice(
                spec_splice(
                    old(self).space(),
                    old(self).open_frames().last(),
                    spec_u32_to_le_bytes(
                        (old(self).used_bytes() - old(self).open_frames().last() - 8) as u32,
                    ),
                ),
                old(self).used_bytes(),
                Seq::new(spec_pad_len(old(self).used_bytes()) as nat, |i: int| 0u8),
            ),
    {
        let ghost pre = *self;
        let depth = self.frames.len();
        let off = self.frames[depth - 1];
        proof {
            assert(self.open_frames()[depth - 1] == off as int);
            assert(self.open_frames()[depth - 1] + 8 <= self.used_bytes());
            assert(self.open_frames()[depth - 2] % 8 == 0);
            assert(self.open_frames()[depth - 2] + 8 <= self.used_bytes());
        }
        // The padding the enclosing frame will need, computed from its body
        // size; since its header is 8-byte aligned, this equals the distance
        // from the cursor to the next 8-byte boundary.
        let parent_off = self.frames[depth - 2];
        let parent_size = self.used - parent_off - 8;
        let pad = (8 - (parent_size % 8)) % 8;
        proof {
            assert(parent_off as int % 8 == 0);
            assert(pad == spec_pad_len(pre.used_bytes()));
        }
        let mut zeros: Vec<u8> = Vec::new();
        let mut k: usize = 0;
        while k < pad
            invariant
                k <= pad,
                zeros@ =~= Seq::new(k as nat, |i: int| 0u8),
            decreases pad - k,
        {
            zeros.push(0u8);
            k = k + 1;
        }
        // Stamp the closed atom's size: everything written after its header.
        let closed_size = (self.used - off - 8) as u32;
        self.store_bytes(off, &u32_to_le_bytes(closed_size));
        self.frames.pop();
        proof {
            assert(self.open_frames() =~= pre.open_frames().drop_last());
            assert(self.atom_starts() == pre.atom_starts());
            assert forall|i: int| 0 <= i < self.open_frames().len() implies {
                &&& (#[trigger] self.open_frames()[i]) % 8 == 0
                &&& self.open_frames()[i] + 8 <= self.used_bytes()
            } by {
                assert(self.open_frames()[i] == pre.open_frames()[i]);
            }
        }
        let r = self.write_raw(zeros.as_slice());
        proof {
            assert(r is Ok);
            assert(self.space() =~= spec_splice(
                spec_splice(
                    pre.space(),
                    pre.open_frames().last(),
                    spec_u32_to_le_bytes(closed_size),
                ),
                pre.used_bytes(),
                Seq::new(spec_pad_len(pre.used_bytes()) as nat, |i: int| 0u8),
            ));
        }
    }

    /// Stamp the root header's final size and hand the buffer back.  All
    /// nested frames must have been closed, innermost first.
    pub fn finish(self) -> (r: Vec<u8>)
        requires
            self.wf(),
            self.open_frames().len() == 1,
        ensures
            r@.len() == self.capacity(),
            r@ == spec_splice(
                self.space(),
                0,
                spec_u32_to_le_bytes((self.used_bytes() - 8) as u32),
            ),
    {
        let mut f = self;
        let root_size = (f.used - 8) as u32;
        f.store_bytes(0, &u32_to_le_bytes(root_size));
        f.buf
    }

    /// Decode the little-endian 32-bit value stored at `off`; used to look a
    /// shape's own sub-header fields up again during construction.
    pub fn read_u32_at(&self, off: usize) -> (r: u32)
        requires
            self.wf(),
            off + 4 <= self.used_bytes(),
        ensures
            r == spec_u32_from_le_bytes(self.space().subrange(off as int, off + 4)),
    {
        u32_from_le_bytes(slice_subrange(self.buf.as_slice(), off, off + 4))
    }

    /// The body size that the innermost open frame's header will declare:
    /// every byte written after that header.
    pub fn body_size(&self) -> (r: u32)
        requires
            self.wf(),
        ensures
            r == self.frame_body_size(self.open_frames().len() - 1),
    {
        proof {
            let n = self.open_frames().len();
            assert(self.open_frames()[n - 1] + 8 <= self.used_bytes());
        }
        let off = self.frames[self.frames.len() - 1];
        (self.used - off - 8) as u32
    }
}

} // verus!
