//! TCP stream sockets: byte-stream reads and writes staged through the
//! socket's buffer, connect, close, and teardown.
//!
//! Every operation is a suspend-point driven in two steps per poll: the
//! `poll_*` step runs the guard, hands back any cancellation token the
//! driver must receive first, and describes the submission; once the
//! driver reports the completion, the `complete_*` step decodes it.

use vstd::prelude::*;
use crate::SocketError;
use crate::addr::SocketAddress;
use crate::buffer::{min_spec, Buffer, BUFFER_CAPACITY};
use crate::guard::{confirm_close, guard, guard_cancels, OpKind, OpState};
use crate::ring::{Cancellation, DriverPoll, SubmissionDesc, Teardown};
use crate::tcp;

verus! {

/// A TCP stream socket: a file descriptor, the operation-state tag, and
/// the staging buffer both byte-stream directions share.
pub struct TcpStream {
    pub fd: i32,
    pub active: OpState,
    pub buf: Buffer,
}

/// What one poll of the read path yields after the guard has run:
/// either unconsumed buffered bytes are available already (no kernel
/// submission), or the buffer is empty and this read must be submitted.
pub enum ReadStep {
    Buffered(usize),
    Submit(SubmissionDesc),
}

impl TcpStream {
    /// The descriptor is valid, the buffer well-formed, and any
    /// outstanding operation one of this socket type's kinds.
    pub open spec fn wf(self) -> bool {
        &&& self.fd >= 0
        &&& self.buf.wf()
        &&& match self.active {
            OpState::Live(k) => k is Read || k is Write || k is Close,
            _ => true,
        }
    }

    /// A freshly accepted or connected stream: idle, with an empty buffer.
    pub(crate) fn from_fd(fd: i32) -> (s: TcpStream)
        requires
            fd >= 0,
        ensures
            s.wf(),
            s.fd == fd,
            s.active is Idle,
            s.buf.remaining().len() == 0,
    {
        TcpStream { fd, active: OpState::Idle, buf: Buffer::new() }
    }

    /// Whether an operation may be started: false once the socket's
    /// close operation has completed, when any further operation is a
    /// fatal caller-contract violation. Callers must check before
    /// polling any operation.
    pub fn op_allowed(&self) -> (r: bool)
        ensures
            r == !(self.active is Closed),
    {
        !matches!(self.active, OpState::Closed)
    }

    /// Runs the guard for one poll: validates the state, transitions to
    /// `op`, and when an operation of a different kind was outstanding
    /// moves the buffer's storage into the cancellation token the
    /// driver must receive before the new submission.
    pub fn guard_op(&mut self, op: OpKind) -> (c: Option<Cancellation>)
        requires
            old(self).wf(),
            !(old(self).active is Closed),
            op is Read || op is Write || op is Close,
        ensures
            final(self).wf(),
            final(self).fd == old(self).fd,
            final(self).active == OpState::Live(op),
            guard_cancels(old(self).active, op) ==> c
                == Some(Cancellation::BufCapsule(old(self).buf.data))
                && final(self).buf.remaining().len() == 0,
            !guard_cancels(old(self).active, op) ==> c is None
                && final(self).buf == old(self).buf,
    {
        let cancel = guard(&mut self.active, op);
        if cancel {
            Some(self.buf.cancellation())
        } else {
            None
        }
    }

    /// The fill step of the read path, run on every read poll. While
    /// unconsumed bytes remain they are reported as already available —
    /// re-polling without consuming returns the same region and submits
    /// nothing. Only an empty buffer leads to a kernel read submission.
    pub fn poll_fill_buf(&mut self) -> (r: (Option<Cancellation>, ReadStep))
        requires
            old(self).wf(),
            !(old(self).active is Closed),
        ensures
            final(self).wf(),
            final(self).fd == old(self).fd,
            final(self).active == OpState::Live(OpKind::Read),
            guard_cancels(old(self).active, OpKind::Read) ==> r.0
                == Some(Cancellation::BufCapsule(old(self).buf.data))
                && final(self).buf.remaining().len() == 0
                && r.1 == (ReadStep::Submit(
                    SubmissionDesc::Read { fd: old(self).fd, len: BUFFER_CAPACITY },
                )),
            !guard_cancels(old(self).active, OpKind::Read) ==> r.0 is None
                && final(self).buf == old(self).buf
                && if old(self).buf.remaining().len() > 0 {
                    r.1 == ReadStep::Buffered(old(self).buf.remaining().len() as int as usize)
                } else {
                    r.1 == ReadStep::Submit(
                        SubmissionDesc::Read { fd: old(self).fd, len: BUFFER_CAPACITY },
                    )
                },
    {
        let c = self.guard_op(OpKind::Read);
        let step = if self.buf.is_empty() {
            ReadStep::Submit(SubmissionDesc::Read { fd: self.fd, len: BUFFER_CAPACITY })
        } else {
            ReadStep::Buffered(self.buf.len())
        };
        (c, step)
    }

    /// The completion step of a kernel read: the driver hands over the
    /// bytes the kernel delivered (empty on end-of-stream), or the
    /// errno it failed with. On success the bytes become the buffered
    /// region; on failure nothing changes and the error is surfaced.
    pub fn complete_read(&mut self, res: Result<Vec<u8>, i32>) -> (r: Result<usize, SocketError>)
        requires
            old(self).wf(),
            old(self).active == OpState::Live(OpKind::Read),
            old(self).buf.remaining().len() == 0,
            res matches Ok(b) ==> b@.len() <= BUFFER_CAPACITY,
        ensures
            final(self).wf(),
            final(self).fd == old(self).fd,
            final(self).active == old(self).active,
            res matches Err(e) ==> r == Err::<usize, SocketError>(SocketError::Os(e))
                && final(self).buf == old(self).buf,
            res matches Ok(b) ==> r == Ok::<usize, SocketError>(b@.len() as int as usize)
                && final(self).buf.remaining() == b@,
    {
        match res {
            Err(e) => Err(SocketError::Os(e)),
            Ok(b) => {
                let n = b.len();
                self.buf.fill(&b);
                Ok(n)
            }
        }
    }

    /// The copy step of the read path: moves up to `limit` buffered
    /// bytes out to the caller and marks them consumed, so a partial
    /// consumption leaves the rest for the next poll.
    pub fn read_buffered(&mut self, limit: usize) -> (out: Vec<u8>)
        requires
            old(self).wf(),
        ensures
            final(self).wf(),
            final(self).fd == old(self).fd,
            final(self).active == old(self).active,
            out@ == old(self).buf.remaining().take(
                min_spec(limit as int, old(self).buf.remaining().len() as int),
            ),
            final(self).buf.remaining() == old(self).buf.remaining().skip(out@.len() as int),
    {
        self.buf.take_into(limit)
    }

    /// Marks `amt` buffered bytes as consumed without copying them.
    pub fn consume(&mut self, amt: usize)
        requires
            old(self).wf(),
            amt <= old(self).buf.remaining().len(),
        ensures
            final(self).wf(),
            final(self).fd == old(self).fd,
            final(self).active == old(self).active,
            final(self).buf.remaining() == old(self).buf.remaining().skip(amt as int),
    {
        self.buf.consume(amt)
    }

    /// The staging step of the write path, run on every write poll.
    /// With an empty buffer the caller's bytes are staged, bounded by
    /// the buffer's capacity (a short write); re-polling while staged
    /// bytes remain stages nothing again. The submission always covers
    /// exactly the staged bytes.
    pub fn poll_write(&mut self, slice: &Vec<u8>) -> (r: (Option<Cancellation>, SubmissionDesc))
        requires
            old(self).wf(),
            !(old(self).active is Closed),
        ensures
            final(self).wf(),
            final(self).fd == old(self).fd,
            final(self).active == OpState::Live(OpKind::Write),
            guard_cancels(old(self).active, OpKind::Write) ==> r.0
                == Some(Cancellation::BufCapsule(old(self).buf.data)),
            !guard_cancels(old(self).active, OpKind::Write) ==> r.0 is None,
            (guard_cancels(old(self).active, OpKind::Write)
                || old(self).buf.remaining().len() == 0) ==> final(self).buf.remaining()
                == slice@.take(min_spec(slice@.len() as int, BUFFER_CAPACITY as int)),
            (!guard_cancels(old(self).active, OpKind::Write)
                && old(self).buf.remaining().len() > 0) ==> final(self).buf == old(self).buf,
            r.1 == (SubmissionDesc::Write {
                fd: old(self).fd,
                len: final(self).buf.remaining().len() as int as usize,
            }),
    {
        let c = self.guard_op(OpKind::Write);
        if self.buf.is_empty() {
            self.buf.stage(slice);
        }
        let len = self.buf.len();
        (c, SubmissionDesc::Write { fd: self.fd, len })
    }

    /// The completion step of a kernel write: the kernel reports how
    /// many staged bytes it took (possibly fewer than staged — a short
    /// write, which is success). The staging buffer is then cleared;
    /// on failure it is kept and the error surfaced.
    pub fn complete_write(&mut self, res: Result<i32, i32>) -> (r: Result<usize, SocketError>)
        requires
            old(self).wf(),
            old(self).active == OpState::Live(OpKind::Write),
            res matches Ok(n) ==> 0 <= n <= old(self).buf.remaining().len(),
        ensures
            final(self).wf(),
            final(self).fd == old(self).fd,
            final(self).active == old(self).active,
            res matches Err(e) ==> r == Err::<usize, SocketError>(SocketError::Os(e))
                && final(self).buf == old(self).buf,
            res matches Ok(n) ==> r == Ok::<usize, SocketError>(n as usize)
                && final(self).buf.remaining().len() == 0,
    {
        match res {
            Err(e) => Err(SocketError::Os(e)),
            Ok(n) => {
                self.buf.clear();
                Ok(n as usize)
            }
        }
    }

    /// The staging step of a flush: one write cycle over an empty
    /// slice, forcing any staged bytes out; with nothing staged it is a
    /// zero-length kernel write. Completed by [`Self::complete_flush`].
    pub fn poll_flush(&mut self) -> (r: (Option<Cancellation>, SubmissionDesc))
        requires
            old(self).wf(),
            !(old(self).active is Closed),
        ensures
            final(self).wf(),
            final(self).fd == old(self).fd,
            final(self).active == OpState::Live(OpKind::Write),
            guard_cancels(old(self).active, OpKind::Write) ==> r.0
                == Some(Cancellation::BufCapsule(old(self).buf.data)),
            !guard_cancels(old(self).active, OpKind::Write) ==> r.0 is None,
            r.1 == (SubmissionDesc::Write {
                fd: old(self).fd,
                len: final(self).buf.remaining().len() as int as usize,
            }),
    {
        let empty: Vec<u8> = Vec::new();
        self.poll_write(&empty)
    }

    /// The completion step of a flush: the write completion with the
    /// count discarded.
    pub fn complete_flush(&mut self, res: Result<i32, i32>) -> (r: Result<(), SocketError>)
        requires
            old(self).wf(),
            old(self).active == OpState::Live(OpKind::Write),
            res matches Ok(n) ==> 0 <= n <= old(self).buf.remaining().len(),
        ensures
            final(self).wf(),
            final(self).fd == old(self).fd,
            final(self).active == old(self).active,
            res matches Err(e) ==> r == Err::<(), SocketError>(SocketError::Os(e)),
            res matches Ok(_) ==> r is Ok && final(self).buf.remaining().len() == 0,
    {
        match self.complete_write(res) {
            Ok(_) => Ok(()),
            Err(e) => Err(e),
        }
    }

    /// The preparation step of a close poll: the guard transitions to
    /// the close operation, cancelling any other outstanding kind first.
    pub fn poll_close(&mut self) -> (r: (Option<Cancellation>, SubmissionDesc))
        requires
            old(self).wf(),
            !(old(self).active is Closed),
        ensures
            final(self).wf(),
            final(self).fd == old(self).fd,
            final(self).active == OpState::Live(OpKind::Close),
            guard_cancels(old(self).active, OpKind::Close) ==> r.0
                == Some(Cancellation::BufCapsule(old(self).buf.data)),
            !guard_cancels(old(self).active, OpKind::Close) ==> r.0 is None,
            r.1 == (SubmissionDesc::Close { fd: old(self).fd }),
    {
        let c = self.guard_op(OpKind::Close);
        (c, SubmissionDesc::Close { fd: self.fd })
    }

    /// The completion step of a close: success makes the socket
    /// terminally closed — every further operation on it, close
    /// included, is a fatal contract violation. A failure is surfaced
    /// and the socket is not marked closed.
    pub fn complete_close(&mut self, res: Result<i32, i32>) -> (r: Result<(), SocketError>)
        requires
            old(self).wf(),
            old(self).active == OpState::Live(OpKind::Close),
        ensures
            final(self).wf(),
            final(self).fd == old(self).fd,
            res matches Err(e) ==> r == Err::<(), SocketError>(SocketError::Os(e))
                && final(self).active == old(self).active,
            res matches Ok(_) ==> r is Ok && final(self).active is Closed,
    {
        match res {
            Err(e) => Err(SocketError::Os(e)),
            Ok(_) => {
                confirm_close(&mut self.active);
                Ok(())
            }
        }
    }

    /// Teardown on drop. With no outstanding operation the descriptor
    /// is closed synchronously; with one outstanding, exactly one
    /// cancellation token (the buffer's storage) is issued and the
    /// descriptor is deliberately left open, since the kernel may still
    /// reference it; after a completed close there is nothing to do.
    pub fn teardown(self) -> (r: Teardown)
        requires
            self.wf(),
        ensures
            self.active is Idle ==> r is SyncClose,
            self.active is Live ==> r == Teardown::Cancelled(
                Cancellation::BufCapsule(self.buf.data),
            ),
            self.active is Closed ==> r is AlreadyClosed,
    {
        match self.active {
            OpState::Closed => Teardown::AlreadyClosed,
            OpState::Idle => Teardown::SyncClose(crate::sys::sys_close(self.fd)),
            OpState::Live(_) => {
                let mut buf = self.buf;
                Teardown::Cancelled(buf.cancellation())
            }
        }
    }
}

/// The suspend-point of a connect: either an owned pending submission
/// (the created descriptor and the address being connected to), or the
/// error that socket creation or resolution produced, to be yielded
/// exactly once.
pub struct Connect {
    pub inner: Result<ConnectPending, Option<SocketError>>,
}

/// An owned pending connect submission.
pub struct ConnectPending {
    pub fd: i32,
    pub addr: SocketAddress,
}

/// What one poll of a connect suspend-point yields.
pub enum ConnectPoll {
    Pending,
    Ready(Result<TcpStream, SocketError>),
}

impl TcpStream {
    /// Starts a connect: creates a socket for the first workable
    /// candidate address. A creation or resolution failure is stored in
    /// the suspend-point, which will yield it exactly once.
    pub fn connect(addrs: &Vec<SocketAddress>) -> (r: Connect)
        ensures
            addrs@.len() == 0 ==> r.inner == Err::<ConnectPending, Option<SocketError>>(
                Some(SocketError::InvalidInput),
            ),
            r.inner matches Ok(p) ==> p.fd >= 0 && exists|j: int|
                0 <= j < addrs@.len() && addrs@[j] == p.addr,
            r.inner matches Err(e) ==> e matches Some(se)
                && (se is InvalidInput <==> addrs@.len() == 0),
    {
        match tcp::socket(addrs) {
            Ok((fd, addr)) => Connect { inner: Ok(ConnectPending { fd, addr }) },
            Err(e) => Connect { inner: Err(Some(e)) },
        }
    }
}

impl Connect {
    /// The submission this suspend-point owns, if creation succeeded.
    pub fn desc(&self) -> (r: Option<SubmissionDesc>)
        ensures
            self.inner matches Ok(p) ==> r == Some(
                SubmissionDesc::Connect { fd: p.fd, addr: p.addr },
            ),
            self.inner is Err ==> r is None,
    {
        match &self.inner {
            Ok(p) => Some(SubmissionDesc::Connect { fd: p.fd, addr: p.addr }),
            Err(_) => None,
        }
    }

    /// One poll. A pre-populated error is yielded exactly once: polling
    /// again after it was yielded is a caller-contract violation, so a
    /// consumed error state is excluded. A pending submission consumes
    /// the driver's report; completion constructs the stream socket
    /// from the connected descriptor.
    pub fn poll(&mut self, report: DriverPoll) -> (r: ConnectPoll)
        requires
            old(self).inner matches Err(e) ==> e is Some,
            old(self).inner matches Ok(p) ==> p.fd >= 0,
        ensures
            old(self).inner matches Err(e) ==> final(self).inner
                == Err::<ConnectPending, Option<SocketError>>(None)
                && r == ConnectPoll::Ready(Err(e.unwrap())),
            old(self).inner matches Ok(p) ==> final(self).inner == old(self).inner
                && match report {
                    DriverPoll::Pending => r is Pending,
                    DriverPoll::Ready(res) => match res {
                        Ok(_) => r matches ConnectPoll::Ready(Ok(s)) && s.wf() && s.fd == p.fd
                            && s.active is Idle && s.buf.remaining().len() == 0,
                        Err(e) => r == ConnectPoll::Ready(Err(SocketError::Os(e))),
                    },
                },
    {
        match &mut self.inner {
            Err(slot) => {
                let err = slot.take().unwrap();
                ConnectPoll::Ready(Err(err))
            }
            Ok(p) => match report {
                DriverPoll::Pending => ConnectPoll::Pending,
                DriverPoll::Ready(res) => match res {
                    Ok(_) => {
                        let fd = p.fd;
                        ConnectPoll::Ready(Ok(TcpStream::from_fd(fd)))
                    }
                    Err(e) => ConnectPoll::Ready(Err(SocketError::Os(e))),
                },
            },
        }
    }
}

} // verus!
