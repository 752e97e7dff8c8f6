//! The vocabulary shared with the ring/driver collaborator.
//!
//! The driver owns the real submission queue and polls the kernel for
//! completions; these sockets only hand it submission descriptors and
//! cancellation tokens, and consume the completion results it reports.

use vstd::prelude::*;
use crate::addr::{AddrBuf, SocketAddress};

verus! {

/// A capsule of whatever memory was lent to the kernel by an in-flight
/// operation. It is handed to the driver when the operation is
/// abandoned; the driver defers its release until the kernel can no
/// longer reference the memory, and only then drops it.
pub enum Cancellation {
    /// The operation referenced no caller-owned memory (a close).
    Empty,
    /// A listener's peer-address scratch buffer, present or not.
    AddrCapsule(Option<Box<AddrBuf>>),
    /// A stream's staging-buffer storage.
    BufCapsule(Vec<u8>),
}

/// One submission-queue entry's worth of operation parameters, ready
/// for the driver to lodge with the kernel.
pub enum SubmissionDesc {
    /// Accept one connection on `fd`; if `want_addr`, the kernel also
    /// writes the peer's address into the socket's scratch buffer.
    Accept { fd: i32, want_addr: bool },
    /// Read up to `len` bytes from `fd` into the stream's buffer region.
    Read { fd: i32, len: usize },
    /// Write the stream's `len` staged bytes to `fd`.
    Write { fd: i32, len: usize },
    /// Close `fd`.
    Close { fd: i32 },
    /// Connect `fd` to `addr`.
    Connect { fd: i32, addr: SocketAddress },
}

/// What the driver reports for the operation lodged on a socket: not
/// complete yet, or complete with the kernel's result (a value, or an
/// errno on failure).
pub enum DriverPoll {
    Pending,
    Ready(Result<i32, i32>),
}

/// What tearing a socket down did. A socket with no outstanding
/// operation closes its descriptor synchronously; one with an
/// outstanding operation issues exactly one cancellation token and
/// leaves the descriptor open, since the kernel may still reference it;
/// a socket whose close already completed has nothing left to do.
pub enum Teardown {
    /// The descriptor was closed synchronously, with this result.
    SyncClose(Result<(), i32>),
    /// This cancellation token must reach the driver; the descriptor
    /// was deliberately not closed.
    Cancelled(Cancellation),
    /// The close operation had already completed.
    AlreadyClosed,
}

} // verus!
