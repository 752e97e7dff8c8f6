//! The staging buffer a stream socket lends to the kernel.
//!
//! One buffer serves both directions of a stream: a read fills it with
//! the bytes the kernel delivered and the caller consumes them at its
//! own pace; a write stages the caller's bytes (up to the buffer's
//! capacity — a short write) before one kernel write sends them. While
//! unconsumed data remains, refilling is a no-op, so repeated polls
//! return the same region without a second submission. On cancellation
//! the storage moves out into the cancellation token instead of being
//! freed.

use vstd::prelude::*;
use crate::ring::Cancellation;

verus! {

/// The capacity every stream buffer is created with.
pub const BUFFER_CAPACITY: usize = 4096;

/// A stream socket's staging buffer: stored bytes and how many of them
/// the caller has consumed already.
pub struct Buffer {
    pub data: Vec<u8>,
    pub pos: usize,
}

impl Buffer {
    /// Consumption never runs ahead of the data, which never exceeds
    /// the capacity.
    pub open spec fn wf(self) -> bool {
        self.pos <= self.data@.len() <= BUFFER_CAPACITY
    }

    /// The bytes stored and not yet consumed.
    pub open spec fn remaining(self) -> Seq<u8> {
        self.data@.skip(self.pos as int)
    }

    /// An empty buffer.
    pub fn new() -> (r: Buffer)
        ensures
            r.wf(),
            r.remaining().len() == 0,
            r.data@.len() == 0,
    {
        Buffer { data: Vec::new(), pos: 0 }
    }

    /// Whether no unconsumed bytes remain.
    pub fn is_empty(&self) -> (r: bool)
        requires
            self.wf(),
        ensures
            r == (self.remaining().len() == 0),
    {
        self.pos == self.data.len()
    }

    /// How many unconsumed bytes remain.
    pub fn len(&self) -> (n: usize)
        requires
            self.wf(),
        ensures
            n == self.remaining().len(),
    {
        self.data.len() - self.pos
    }

    /// Stores the bytes a completed kernel read delivered. Only an
    /// empty buffer may be filled: unconsumed data is never overwritten.
    pub fn fill(&mut self, bytes: &Vec<u8>)
        requires
            old(self).wf(),
            old(self).remaining().len() == 0,
            bytes@.len() <= BUFFER_CAPACITY,
        ensures
            final(self).wf(),
            final(self).remaining() == bytes@,
    {
        self.data = copy_bytes(bytes, bytes.len());
        self.pos = 0;
        proof {
            assert(self.remaining() =~= bytes@);
        }
    }

    /// Stages the caller's bytes for one kernel write, bounded by the
    /// capacity: a single call may stage only a prefix, mirroring a
    /// short write. Only an empty buffer stages; re-polling a write
    /// whose bytes are already staged must not stage again.
    pub fn stage(&mut self, src: &Vec<u8>) -> (n: usize)
        requires
            old(self).wf(),
            old(self).remaining().len() == 0,
        ensures
            final(self).wf(),
            n == min_spec(src@.len() as int, BUFFER_CAPACITY as int),
            final(self).remaining() == src@.take(n as int),
    {
        let n = if src.len() <= BUFFER_CAPACITY { src.len() } else { BUFFER_CAPACITY };
        self.data = copy_bytes(src, n);
        self.pos = 0;
        proof {
            assert(self.remaining() =~= src@.take(n as int));
        }
        n
    }

    /// Marks `amt` unconsumed bytes as consumed by the caller.
    pub fn consume(&mut self, amt: usize)
        requires
            old(self).wf(),
            amt <= old(self).remaining().len(),
        ensures
            final(self).wf(),
            final(self).remaining() == old(self).remaining().skip(amt as int),
    {
        self.pos = self.pos + amt;
        proof {
            assert(self.remaining() =~= old(self).remaining().skip(amt as int));
        }
    }

    /// Copies out and consumes up to `limit` unconsumed bytes: the copy
    /// step of a buffered read.
    pub fn take_into(&mut self, limit: usize) -> (out: Vec<u8>)
        requires
            old(self).wf(),
        ensures
            final(self).wf(),
            out@ == old(self).remaining().take(min_spec(limit as int, old(self).remaining().len() as int)),
            final(self).remaining() == old(self).remaining().skip(out@.len() as int),
    {
        let avail = self.data.len() - self.pos;
        let n = if limit <= avail { limit } else { avail };
        let mut out: Vec<u8> = Vec::new();
        let mut i: usize = 0;
        while i < n
            invariant
                old(self).wf(),
                *self == *old(self),
                n <= old(self).remaining().len(),
                n == min_spec(limit as int, old(self).remaining().len() as int),
                i <= n,
                out@ =~= old(self).remaining().take(i as int),
            decreases n - i,
        {
            out.push(self.data[self.pos + i]);
            proof {
                assert(old(self).remaining()[i as int] == self.data@[self.pos + i]);
                assert(out@ =~= old(self).remaining().take(i as int + 1));
            }
            i = i + 1;
        }
        self.pos = self.pos + n;
        proof {
            assert(self.remaining() =~= old(self).remaining().skip(out@.len() as int));
        }
        out
    }

    /// Empties the buffer after a completed kernel write.
    pub fn clear(&mut self)
        ensures
            final(self).wf(),
            final(self).remaining().len() == 0,
            final(self).data@.len() == 0,
    {
        self.data = Vec::new();
        self.pos = 0;
    }

    /// Moves the storage out into a cancellation token, leaving the
    /// buffer empty: the capsule, not this buffer, now answers for the
    /// memory the kernel may still reference, and its regular teardown
    /// becomes a no-op for that memory.
    pub fn cancellation(&mut self) -> (c: Cancellation)
        ensures
            final(self).wf(),
            final(self).remaining().len() == 0,
            c == Cancellation::BufCapsule(old(self).data),
    {
        let mut taken: Vec<u8> = Vec::new();
        core::mem::swap(&mut taken, &mut self.data);
        self.pos = 0;
        Cancellation::BufCapsule(taken)
    }
}

/// The smaller of two values.
pub open spec fn min_spec(a: int, b: int) -> int {
    if a <= b { a } else { b }
}

/// Copies the first `n` bytes of `src` into a fresh vector.
fn copy_bytes(src: &Vec<u8>, n: usize) -> (out: Vec<u8>)
    requires
        n <= src@.len(),
    ensures
        out@ == src@.take(n as int),
{
    let mut out: Vec<u8> = Vec::new();
    let mut i: usize = 0;
    while i < n
        invariant
            n <= src@.len(),
            i <= n,
            out@ =~= src@.take(i as int),
        decreases n - i,
    {
        out.push(src[i]);
        proof {
            assert(out@ =~= src@.take(i as int + 1));
        }
        i = i + 1;
    }
    out
}

} // verus!
