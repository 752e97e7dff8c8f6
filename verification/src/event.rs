//! The operation-descriptor contract, with accept as its canonical
//! instance: how many submission slots an operation needs, how to fill
//! them, and how to turn an abandoned descriptor into a cancellation
//! token without running its regular teardown on the memory the kernel
//! may still reference.

use vstd::prelude::*;
use crate::addr::AddrBuf;
use crate::ring::{Cancellation, SubmissionDesc};

verus! {

/// The descriptor of one accept operation: the listening descriptor
/// and the optional scratch buffer the kernel writes the peer's
/// address into. The descriptor and everything it points into must
/// stay at a fixed location and alive until the operation completes or
/// [`Accept::cancel`] is invoked.
pub struct Accept {
    pub addr: Option<Box<AddrBuf>>,
    pub fd: i32,
}

impl Accept {
    /// How many contiguous submission-queue entries an accept needs:
    /// exactly one.
    pub fn sqes_needed(&self) -> (n: u32)
        ensures
            n == 1,
    {
        1
    }

    /// Fills one submission slot with the operation's parameters: the
    /// descriptor to accept on, and whether the kernel should write
    /// the peer's address into the scratch buffer.
    pub fn prepare(&self) -> (s: SubmissionDesc)
        ensures
            s == (SubmissionDesc::Accept { fd: self.fd, want_addr: self.addr is Some }),
    {
        SubmissionDesc::Accept { fd: self.fd, want_addr: self.addr.is_some() }
    }

    /// Consumes an abandoned descriptor into a cancellation token
    /// wrapping exactly the memory the kernel might still touch — the
    /// scratch buffer — so its release is deferred to the driver and
    /// its regular teardown never runs on that memory.
    pub fn cancel(this: Accept) -> (c: Cancellation)
        ensures
            c == Cancellation::AddrCapsule(this.addr),
    {
        Cancellation::AddrCapsule(this.addr)
    }
}

} // verus!
