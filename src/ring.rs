//! A bounded byte channel of whole frames, written by probes and drained in
//! order by one consumer. A frame that does not fit is dropped.
use vstd::prelude::*;

verus! {

/// Bytes taken by a sequence of frames.
pub open spec fn total_len(frames: Seq<Seq<u8>>) -> nat
    decreases frames.len(),
{
    if frames.len() == 0 {
        0
    } else {
        frames[0].len() + total_len(frames.drop_first())
    }
}

pub proof fn lemma_total_len_push(frames: Seq<Seq<u8>>, f: Seq<u8>)
    ensures
        total_len(frames.push(f)) == total_len(frames) + f.len(),
    decreases frames.len(),
{
    if frames.len() > 0 {
        lemma_total_len_push(frames.drop_first(), f);
        assert(frames.push(f).drop_first() =~= frames.drop_first().push(f));
    } else {
        assert(frames.push(f).drop_first() =~= frames);
    }
}

/// The ring buffer. Committed frames are visible to the consumer in the
/// order they were committed; `used` counts their bytes.
pub struct RingBuf {
    capacity: usize,
    used: usize,
    frames: Vec<Vec<u8>>,
}

impl RingBuf {
    /// The committed frames, oldest first.
    pub closed spec fn frames(&self) -> Seq<Seq<u8>> {
        self.frames@.map_values(|f: Vec<u8>| f@)
    }

    pub closed spec fn capacity_spec(&self) -> nat {
        self.capacity as nat
    }

    /// Bytes still free for new frames.
    pub open spec fn free_spec(&self) -> nat {
        (self.capacity_spec() - total_len(self.frames())) as nat
    }

    /// The byte count kept beside the frames is theirs.
    pub closed spec fn inv(&self) -> bool {
        self.used as nat == total_len(self.frames())
    }

    /// The committed frames fit in the buffer.
    pub open spec fn wf(&self) -> bool {
        &&& self.inv()
        &&& total_len(self.frames()) <= self.capacity_spec()
    }

    /// An empty buffer of `capacity` bytes.
    pub fn new(capacity: usize) -> (r: RingBuf)
        ensures
            r.wf(),
            r.frames() == Seq::<Seq<u8>>::empty(),
            r.capacity_spec() == capacity,
    {
        let r = RingBuf { capacity, used: 0, frames: Vec::new() };
        assert(r.frames() =~= Seq::<Seq<u8>>::empty());
        r
    }

    pub fn capacity(&self) -> (r: usize)
        ensures
            r == self.capacity_spec(),
    {
        self.capacity
    }

    /// Bytes still free for new frames.
    pub fn free(&self) -> (r: usize)
        requires
            self.wf(),
        ensures
            r == self.free_spec(),
    {
        self.capacity - self.used
    }

    /// Number of committed frames not yet taken.
    pub fn len(&self) -> (r: usize)
        ensures
            r == self.frames().len(),
    {
        self.frames.len()
    }

    /// Reserves a frame of exactly `frame.len()` bytes, fills it with `frame`
    /// and commits it. When no space remains the frame is dropped, `false` is
    /// returned and the buffer is left as it was.
    pub fn output(&mut self, frame: Vec<u8>) -> (r: bool)
        requires
            old(self).wf(),
        ensures
            final(self).wf(),
            final(self).capacity_spec() == old(self).capacity_spec(),
            r == (frame@.len() <= old(self).free_spec()),
            r ==> final(self).frames() == old(self).frames().push(frame@),
            !r ==> final(self).frames() == old(self).frames(),
    {
        let n = frame.len();
        if n > self.capacity - self.used {
            return false;
        }
        proof {
            lemma_total_len_push(self.frames(), frame@);
        }
        self.used = self.used + n;
        self.frames.push(frame);
        assert(self.frames() =~= old(self).frames().push(frame@));
        true
    }

    /// Takes the oldest committed frame, if any, and frees its space.
    pub fn next(&mut self) -> (r: Option<Vec<u8>>)
        requires
            old(self).wf(),
        ensures
            final(self).wf(),
            final(self).capacity_spec() == old(self).capacity_spec(),
            old(self).frames().len() == 0 ==> r is None && final(self).frames() == old(self).frames(),
            old(self).frames().len() > 0 ==> (r matches Some(f) && f@ == old(self).frames()[0]
                && final(self).frames() == old(self).frames().drop_first()),
    {
        if self.frames.len() == 0 {
            return None;
        }
        let f = self.frames.remove(0);
        assert(self.frames() =~= old(self).frames().drop_first());
        self.used = self.used - f.len();
        Some(f)
    }
}

/// Taking the oldest frame frees exactly its bytes, so a frame refused for
/// want of space fits once enough frames have been taken.
pub proof fn lemma_drain_frees_space(frames: Seq<Seq<u8>>)
    requires
        frames.len() > 0,
    ensures
        total_len(frames.drop_first()) + frames[0].len() == total_len(frames),
{
}

} // verus!
