//! TCP listener sockets: bind, accept (with or without the peer's
//! address), the never-ending incoming streams, close, and teardown.
//!
//! As for streams, every operation is a suspend-point driven in two
//! steps per poll: the `poll_*` step runs the guard, hands back any
//! cancellation token the driver must receive first, and describes the
//! submission; the `complete_*` step decodes the driver's completion.

use vstd::prelude::*;
use crate::SocketError;
use crate::addr::{AddrBuf, SocketAddress, AF_INET, AF_INET6, ADDR_BUF_LEN};
use crate::guard::{confirm_close, guard, guard_cancels, OpKind, OpState};
use crate::ring::{Cancellation, SubmissionDesc, Teardown};
use crate::stream::TcpStream;
use crate::sys;
use crate::tcp;

verus! {

/// The backlog every listener is created with.
pub const LISTEN_BACKLOG: usize = 128;

/// A TCP listener socket: a file descriptor, the operation-state tag,
/// and the lazily allocated peer-address scratch buffer the current
/// accept operation lends to the kernel.
pub struct TcpListener {
    pub fd: i32,
    pub active: OpState,
    pub addr: Option<Box<AddrBuf>>,
}

impl TcpListener {
    /// The descriptor is valid, the scratch buffer (if allocated)
    /// well-formed, and any outstanding operation one of this socket
    /// type's kinds.
    pub open spec fn wf(self) -> bool {
        &&& self.fd >= 0
        &&& match self.active {
            OpState::Live(k) => k is Accept || k is Close,
            _ => true,
        }
        &&& match self.addr {
            Some(b) => b.wf(),
            None => true,
        }
    }

    /// Binds a listener: creates a socket for the first workable
    /// candidate address, enables address reuse, binds it there, and
    /// listens with the fixed backlog. Zero candidates is the
    /// input-validation error; any operating-system failure is
    /// surfaced as its errno.
    pub fn bind(addrs: &Vec<SocketAddress>) -> (r: Result<TcpListener, SocketError>)
        ensures
            addrs@.len() == 0 ==> r == Err::<TcpListener, SocketError>(SocketError::InvalidInput),
            r matches Err(e) ==> (e is InvalidInput <==> addrs@.len() == 0),
            r matches Ok(l) ==> l.wf() && l.active is Idle && l.addr is None,
    {
        let (fd, addr) = match tcp::socket(addrs) {
            Ok(p) => p,
            Err(e) => { return Err(e); }
        };
        match sys::sys_set_reuseaddr(fd) {
            Ok(_) => {}
            Err(e) => { return Err(SocketError::Os(e)); }
        }
        match sys::sys_bind(fd, &addr) {
            Ok(_) => {}
            Err(e) => { return Err(SocketError::Os(e)); }
        }
        match sys::sys_listen(fd, LISTEN_BACKLOG) {
            Ok(_) => {}
            Err(e) => { return Err(SocketError::Os(e)); }
        }
        Ok(TcpListener { fd, active: OpState::Idle, addr: None })
    }

    /// Whether an operation may be started: false once the close
    /// operation has completed, when any further operation is a fatal
    /// caller-contract violation. Callers must check before polling.
    pub fn op_allowed(&self) -> (r: bool)
        ensures
            r == !(self.active is Closed),
    {
        !matches!(self.active, OpState::Closed)
    }

    /// Runs the guard for one poll: validates the state, transitions to
    /// `op`, and when an operation of a different kind was outstanding
    /// moves the scratch buffer into the cancellation token the driver
    /// must receive before the new submission.
    pub fn guard_op(&mut self, op: OpKind) -> (c: Option<Cancellation>)
        requires
            old(self).wf(),
            !(old(self).active is Closed),
            op is Accept || op is Close,
        ensures
            final(self).wf(),
            final(self).fd == old(self).fd,
            final(self).active == OpState::Live(op),
            guard_cancels(old(self).active, op) ==> c
                == Some(Cancellation::AddrCapsule(old(self).addr))
                && final(self).addr is None,
            !guard_cancels(old(self).active, op) ==> c is None
                && final(self).addr == old(self).addr,
    {
        let cancel = guard(&mut self.active, op);
        if cancel {
            Some(Cancellation::AddrCapsule(self.addr.take()))
        } else {
            None
        }
    }

    /// The preparation step of one accept poll. The guard transitions
    /// to the accept operation; when the peer's address is wanted and
    /// no scratch buffer is allocated yet, one is allocated lazily.
    /// Re-polling an accept already in progress changes nothing but
    /// the (idempotent) lazy allocation.
    pub fn poll_accept(&mut self) -> (r: (Option<Cancellation>, SubmissionDesc))
        requires
            old(self).wf(),
            !(old(self).active is Closed),
        ensures
            final(self).wf(),
            final(self).fd == old(self).fd,
            final(self).active == OpState::Live(OpKind::Accept),
            guard_cancels(old(self).active, OpKind::Accept) ==> r.0
                == Some(Cancellation::AddrCapsule(old(self).addr)),
            !guard_cancels(old(self).active, OpKind::Accept) ==> r.0 is None
                && (old(self).addr is Some ==> final(self).addr == old(self).addr),
            final(self).addr is Some,
            r.1 == (SubmissionDesc::Accept { fd: old(self).fd, want_addr: true }),
    {
        let c = self.guard_op(OpKind::Accept);
        if self.addr.is_none() {
            self.addr = Some(Box::new(AddrBuf::uninit()));
        }
        (c, SubmissionDesc::Accept { fd: self.fd, want_addr: true })
    }

    /// The preparation step of one accept poll that skips address
    /// decoding: no scratch buffer is allocated or required.
    pub fn poll_accept_no_addr(&mut self) -> (r: (Option<Cancellation>, SubmissionDesc))
        requires
            old(self).wf(),
            !(old(self).active is Closed),
        ensures
            final(self).wf(),
            final(self).fd == old(self).fd,
            final(self).active == OpState::Live(OpKind::Accept),
            guard_cancels(old(self).active, OpKind::Accept) ==> r.0
                == Some(Cancellation::AddrCapsule(old(self).addr))
                && final(self).addr is None,
            !guard_cancels(old(self).active, OpKind::Accept) ==> r.0 is None
                && final(self).addr == old(self).addr,
            r.1 == (SubmissionDesc::Accept { fd: old(self).fd, want_addr: false }),
    {
        let c = self.guard_op(OpKind::Accept);
        (c, SubmissionDesc::Accept { fd: self.fd, want_addr: false })
    }

    /// Stores the raw peer-address bytes the kernel wrote on completing
    /// an accept. The driver owns this step: the bytes answer for the
    /// kernel's write into the lent scratch buffer.
    pub fn fill_addr(&mut self, bytes: &Vec<u8>)
        requires
            old(self).wf(),
            old(self).addr is Some,
            bytes@.len() == ADDR_BUF_LEN,
        ensures
            final(self).wf(),
            final(self).fd == old(self).fd,
            final(self).active == old(self).active,
            final(self).addr matches Some(b) && b.raw@ == bytes@,
    {
        let mut raw: Vec<u8> = Vec::new();
        let mut i: usize = 0;
        while i < bytes.len()
            invariant
                i <= bytes@.len(),
                raw@ =~= bytes@.take(i as int),
            decreases bytes@.len() - i,
        {
            raw.push(bytes[i]);
            proof {
                assert(raw@ =~= bytes@.take(i as int + 1));
            }
            i = i + 1;
        }
        proof {
            assert(raw@ =~= bytes@);
        }
        self.addr = Some(Box::new(AddrBuf { raw }));
    }

    /// The completion step of an accept that decodes the peer address.
    /// The kernel's result is the accepted connection's descriptor,
    /// which becomes a fresh idle stream socket; the scratch buffer is
    /// decoded into the peer's address and then released. The listener
    /// is IPv4/IPv6-only by construction, so the kernel writing any
    /// other family would be a driver-contract violation and is
    /// excluded. A failed accept is surfaced and releases nothing.
    pub fn complete_accept(&mut self, res: Result<i32, i32>) -> (r: Result<
        (TcpStream, SocketAddress),
        SocketError,
    >)
        requires
            old(self).wf(),
            old(self).active == OpState::Live(OpKind::Accept),
            old(self).addr is Some,
            res matches Ok(fd) ==> fd >= 0,
            res matches Ok(_) ==> old(self).addr.unwrap().family_spec() == AF_INET
                || old(self).addr.unwrap().family_spec() == AF_INET6,
        ensures
            final(self).wf(),
            final(self).fd == old(self).fd,
            final(self).active == old(self).active,
            res matches Err(e) ==> r == Err::<(TcpStream, SocketAddress), SocketError>(
                SocketError::Os(e),
            ) && final(self).addr == old(self).addr,
            res matches Ok(fd) ==> (r matches Ok((s, a)) && s.wf() && s.fd == fd
                && s.active is Idle && s.buf.remaining().len() == 0
                && a == old(self).addr.unwrap().addr_spec()) && final(self).addr is None,
    {
        match res {
            Err(e) => Err(SocketError::Os(e)),
            Ok(fd) => {
                let buf = self.addr.take().unwrap();
                let addr = buf.as_socket_addr();
                Ok((TcpStream::from_fd(fd), addr))
            }
        }
    }

    /// The completion step of an accept without address decoding: the
    /// accepted descriptor becomes a fresh idle stream socket.
    pub fn complete_accept_no_addr(&mut self, res: Result<i32, i32>) -> (r: Result<
        TcpStream,
        SocketError,
    >)
        requires
            old(self).wf(),
            old(self).active == OpState::Live(OpKind::Accept),
            res matches Ok(fd) ==> fd >= 0,
        ensures
            final(self).wf(),
            final(self).fd == old(self).fd,
            final(self).active == old(self).active,
            final(self).addr == old(self).addr,
            res matches Err(e) ==> r == Err::<TcpStream, SocketError>(SocketError::Os(e)),
            res matches Ok(fd) ==> r matches Ok(s) && s.wf() && s.fd == fd && s.active is Idle
                && s.buf.remaining().len() == 0,
    {
        match res {
            Err(e) => Err(SocketError::Os(e)),
            Ok(fd) => Ok(TcpStream::from_fd(fd)),
        }
    }

    /// The preparation step of a close poll: the guard transitions to
    /// the close operation, cancelling an outstanding accept first.
    pub fn poll_close(&mut self) -> (r: (Option<Cancellation>, SubmissionDesc))
        requires
            old(self).wf(),
            !(old(self).active is Closed),
        ensures
            final(self).wf(),
            final(self).fd == old(self).fd,
            final(self).active == OpState::Live(OpKind::Close),
            guard_cancels(old(self).active, OpKind::Close) ==> r.0
                == Some(Cancellation::AddrCapsule(old(self).addr)),
            !guard_cancels(old(self).active, OpKind::Close) ==> r.0 is None,
            r.1 == (SubmissionDesc::Close { fd: old(self).fd }),
    {
        let c = self.guard_op(OpKind::Close);
        (c, SubmissionDesc::Close { fd: self.fd })
    }

    /// The completion step of a close: success makes the listener
    /// terminally closed — every further operation on it, close
    /// included, is a fatal contract violation. A failure is surfaced
    /// and the listener is not marked closed.
    pub fn complete_close(&mut self, res: Result<i32, i32>) -> (r: Result<(), SocketError>)
        requires
            old(self).wf(),
            old(self).active == OpState::Live(OpKind::Close),
        ensures
            final(self).wf(),
            final(self).fd == old(self).fd,
            res matches Err(e) ==> r == Err::<(), SocketError>(SocketError::Os(e))
                && final(self).active == old(self).active,
            res matches Ok(_) ==> r is Ok && final(self).active is Closed,
    {
        match res {
            Err(e) => Err(SocketError::Os(e)),
            Ok(_) => {
                confirm_close(&mut self.active);
                Ok(())
            }
        }
    }

    /// The never-ending stream of accepted connections with their peer
    /// addresses, implemented by repeatedly polling one accept.
    pub fn incoming(self) -> (r: Incoming)
        ensures
            r.listener == self,
    {
        Incoming { listener: self }
    }

    /// The never-ending stream of accepted connections without
    /// address decoding.
    pub fn incoming_no_addr(self) -> (r: IncomingNoAddr)
        ensures
            r.listener == self,
    {
        IncomingNoAddr { listener: self }
    }

    /// Teardown on drop. With no outstanding operation the descriptor
    /// is closed synchronously; with an outstanding accept, exactly one
    /// cancellation token (the scratch buffer) is issued and the
    /// descriptor is deliberately left open, since the kernel may still
    /// reference it; an outstanding close carries no memory; after a
    /// completed close there is nothing to do.
    pub fn teardown(self) -> (r: Teardown)
        requires
            self.wf(),
        ensures
            self.active is Idle ==> r is SyncClose,
            self.active == OpState::Live(OpKind::Accept) ==> r == Teardown::Cancelled(
                Cancellation::AddrCapsule(self.addr),
            ),
            self.active == OpState::Live(OpKind::Close) ==> r == Teardown::Cancelled(
                Cancellation::Empty,
            ),
            self.active is Closed ==> r is AlreadyClosed,
    {
        match self.active {
            OpState::Closed => Teardown::AlreadyClosed,
            OpState::Idle => Teardown::SyncClose(sys::sys_close(self.fd)),
            OpState::Live(k) => match k {
                OpKind::Accept => Teardown::Cancelled(Cancellation::AddrCapsule(self.addr)),
                _ => Teardown::Cancelled(Cancellation::Empty),
            },
        }
    }
}

/// The incoming suspend-point: an unbounded repetition of accept over
/// the listener it owns. It never terminates by itself: every completed
/// accept is reported as one more item, never as end-of-stream.
pub struct Incoming {
    pub listener: TcpListener,
}

impl Incoming {
    /// Hands the listener back.
    pub fn into_inner(self) -> (r: TcpListener)
        ensures
            r == self.listener,
    {
        self.listener
    }

    /// The preparation step of one poll of the stream: exactly one
    /// accept poll. A not-yet-ready attempt leaves the state unchanged
    /// until it is ready.
    pub fn poll_next(&mut self) -> (r: (Option<Cancellation>, SubmissionDesc))
        requires
            old(self).listener.wf(),
            !(old(self).listener.active is Closed),
        ensures
            final(self).listener.wf(),
            final(self).listener.active == OpState::Live(OpKind::Accept),
            final(self).listener.fd == old(self).listener.fd,
            r.1 == (SubmissionDesc::Accept { fd: old(self).listener.fd, want_addr: true }),
    {
        self.listener.poll_accept()
    }

    /// The completion step of one poll of the stream: every completed
    /// accept — success or failure — is one more item. The result is
    /// never end-of-stream: after any number of ready completions the
    /// stream has produced exactly that many items.
    pub fn complete_next(&mut self, res: Result<i32, i32>) -> (r: Option<
        Result<(TcpStream, SocketAddress), SocketError>,
    >)
        requires
            old(self).listener.wf(),
            old(self).listener.active == OpState::Live(OpKind::Accept),
            old(self).listener.addr is Some,
            res matches Ok(fd) ==> fd >= 0,
            res matches Ok(_) ==> old(self).listener.addr.unwrap().family_spec() == AF_INET
                || old(self).listener.addr.unwrap().family_spec() == AF_INET6,
        ensures
            final(self).listener.wf(),
            r is Some,
            res matches Ok(fd) ==> r matches Some(Ok((s, a))) && s.wf() && s.fd == fd
                && a == old(self).listener.addr.unwrap().addr_spec(),
            res matches Err(e) ==> r == Some(Err::<(TcpStream, SocketAddress), SocketError>(
                SocketError::Os(e),
            )),
    {
        Some(self.listener.complete_accept(res))
    }
}

/// The incoming suspend-point without address decoding.
pub struct IncomingNoAddr {
    pub listener: TcpListener,
}

impl IncomingNoAddr {
    /// Hands the listener back.
    pub fn into_inner(self) -> (r: TcpListener)
        ensures
            r == self.listener,
    {
        self.listener
    }

    /// The preparation step of one poll of the stream.
    pub fn poll_next(&mut self) -> (r: (Option<Cancellation>, SubmissionDesc))
        requires
            old(self).listener.wf(),
            !(old(self).listener.active is Closed),
        ensures
            final(self).listener.wf(),
            final(self).listener.active == OpState::Live(OpKind::Accept),
            final(self).listener.fd == old(self).listener.fd,
            r.1 == (SubmissionDesc::Accept { fd: old(self).listener.fd, want_addr: false }),
    {
        self.listener.poll_accept_no_addr()
    }

    /// The completion step: every completed accept is one more item,
    /// never end-of-stream.
    pub fn complete_next(&mut self, res: Result<i32, i32>) -> (r: Option<
        Result<TcpStream, SocketError>,
    >)
        requires
            old(self).listener.wf(),
            old(self).listener.active == OpState::Live(OpKind::Accept),
            res matches Ok(fd) ==> fd >= 0,
        ensures
            final(self).listener.wf(),
            r is Some,
            res matches Ok(fd) ==> r matches Some(Ok(s)) && s.wf() && s.fd == fd,
            res matches Err(e) ==> r == Some(Err::<TcpStream, SocketError>(SocketError::Os(e))),
    {
        Some(self.listener.complete_accept_no_addr(res))
    }
}

} // verus!
