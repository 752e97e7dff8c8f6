use ringbahn_net::addr::{AddrBuf, IpAddress, SocketAddress, ADDR_BUF_LEN};
use ringbahn_net::buffer::{Buffer, BUFFER_CAPACITY};
use ringbahn_net::event;
use ringbahn_net::guard::{guard, OpKind, OpState};
use ringbahn_net::listener::TcpListener;
use ringbahn_net::ring::{Cancellation, DriverPoll, SubmissionDesc, Teardown};
use ringbahn_net::stream::{ConnectPoll, ReadStep, TcpStream};
use ringbahn_net::tcp::resolve_from_outcomes;
use ringbahn_net::SocketError;

fn v4(a: u8, b: u8, c: u8, d: u8, port: u16) -> SocketAddress {
    SocketAddress { ip: IpAddress::V4([a, b, c, d]), port }
}

fn fake_stream(fd: i32) -> TcpStream {
    TcpStream { fd, active: OpState::Idle, buf: Buffer::new() }
}

fn fake_listener(fd: i32) -> TcpListener {
    TcpListener { fd, active: OpState::Idle, addr: None }
}

#[test]
fn guard_from_idle_starts_op() {
    let mut st = OpState::Idle;
    let cancel = guard(&mut st, OpKind::Read);
    assert!(!cancel);
    assert_eq!(st, OpState::Live(OpKind::Read));
}

#[test]
fn guard_same_kind_is_idempotent() {
    let mut st = OpState::Live(OpKind::Accept);
    let cancel = guard(&mut st, OpKind::Accept);
    assert!(!cancel);
    assert_eq!(st, OpState::Live(OpKind::Accept));
}

#[test]
fn guard_switch_requests_cancellation() {
    let mut st = OpState::Live(OpKind::Read);
    let cancel = guard(&mut st, OpKind::Write);
    assert!(cancel);
    assert_eq!(st, OpState::Live(OpKind::Write));
}

#[test]
fn switching_stream_kinds_cancels_read_buffer_first() {
    // A stream in the middle of a read, with bytes the kernel delivered.
    let mut s = fake_stream(33);
    let (c, step) = s.poll_fill_buf();
    assert!(c.is_none());
    assert!(matches!(step, ReadStep::Submit(SubmissionDesc::Read { fd: 33, len: BUFFER_CAPACITY })));
    s.complete_read(Ok(vec![1, 2, 3])).unwrap();

    // Switching to a write must hand over the read's buffer before the
    // write submission is described.
    let (c, _desc) = s.poll_write(&vec![9, 9]);
    match c {
        Some(Cancellation::BufCapsule(storage)) => assert_eq!(storage, vec![1, 2, 3]),
        _ => panic!("expected the read buffer as a cancellation token"),
    }
    assert_eq!(s.active, OpState::Live(OpKind::Write));
}

#[test]
fn repolling_read_in_progress_requests_no_cancellation() {
    let mut s = fake_stream(5);
    let (c1, step1) = s.poll_fill_buf();
    assert!(c1.is_none());
    assert!(matches!(step1, ReadStep::Submit(_)));
    // Re-polling before the completion: nothing changes, nothing to cancel.
    let (c2, step2) = s.poll_fill_buf();
    assert!(c2.is_none());
    assert!(matches!(step2, ReadStep::Submit(_)));
    assert_eq!(s.active, OpState::Live(OpKind::Read));
}

#[test]
fn buffered_bytes_satisfy_repolls_without_submission() {
    let mut s = fake_stream(5);
    s.poll_fill_buf();
    s.complete_read(Ok(vec![10, 20, 30, 40])).unwrap();
    // While unconsumed bytes remain, polling reports them as available.
    let (c, step) = s.poll_fill_buf();
    assert!(c.is_none());
    assert!(matches!(step, ReadStep::Buffered(4)));
    let out = s.read_buffered(2);
    assert_eq!(out, vec![10, 20]);
    let (_, step) = s.poll_fill_buf();
    assert!(matches!(step, ReadStep::Buffered(2)));
    let out = s.read_buffered(10);
    assert_eq!(out, vec![30, 40]);
    // Fully consumed: the next poll asks for a fresh submission.
    let (_, step) = s.poll_fill_buf();
    assert!(matches!(step, ReadStep::Submit(_)));
}

#[test]
fn write_stages_short_writes_at_capacity() {
    let mut s = fake_stream(7);
    let big = vec![42u8; BUFFER_CAPACITY + 1000];
    let (c, desc) = s.poll_write(&big);
    assert!(c.is_none());
    match desc {
        SubmissionDesc::Write { fd, len } => {
            assert_eq!(fd, 7);
            assert_eq!(len, BUFFER_CAPACITY);
        }
        _ => panic!("expected a write submission"),
    }
    // The kernel took only part of it: still success, buffer cleared.
    let n = s.complete_write(Ok(100)).unwrap();
    assert_eq!(n, 100);
    assert_eq!(s.buf.data.len(), 0);
}

#[test]
fn repolling_write_does_not_restage() {
    let mut s = fake_stream(7);
    let (_, desc) = s.poll_write(&vec![1, 2, 3]);
    assert!(matches!(desc, SubmissionDesc::Write { fd: 7, len: 3 }));
    // A second poll with a different slice: the staged bytes stand.
    let (c, desc) = s.poll_write(&vec![9; 50]);
    assert!(c.is_none());
    assert!(matches!(desc, SubmissionDesc::Write { fd: 7, len: 3 }));
    assert_eq!(&s.buf.data, &vec![1, 2, 3]);
}

#[test]
fn flush_is_a_zero_length_write_cycle() {
    let mut s = fake_stream(7);
    let (c, desc) = s.poll_flush();
    assert!(c.is_none());
    assert!(matches!(desc, SubmissionDesc::Write { fd: 7, len: 0 }));
    s.complete_flush(Ok(0)).unwrap();
}

#[test]
fn dropping_idle_stream_closes_synchronously() {
    // A descriptor number nothing holds: the synchronous close path is
    // taken (and reports the descriptor as stale).
    let s = fake_stream(1 << 20);
    match s.teardown() {
        Teardown::SyncClose(_) => {}
        _ => panic!("an idle socket must close its descriptor synchronously"),
    }
}

#[test]
fn dropping_stream_with_outstanding_op_cancels_instead() {
    let mut s = fake_stream(9);
    s.poll_fill_buf();
    s.complete_read(Ok(vec![5, 6])).unwrap();
    match s.teardown() {
        Teardown::Cancelled(Cancellation::BufCapsule(storage)) => {
            assert_eq!(storage, vec![5, 6]);
        }
        _ => panic!("an outstanding operation must become exactly one cancellation"),
    }
}

#[test]
fn dropping_listener_with_outstanding_accept_cancels_addr_buffer() {
    let mut l = fake_listener(11);
    let (c, desc) = l.poll_accept();
    assert!(c.is_none());
    assert!(matches!(desc, SubmissionDesc::Accept { fd: 11, want_addr: true }));
    match l.teardown() {
        Teardown::Cancelled(Cancellation::AddrCapsule(Some(_))) => {}
        _ => panic!("an outstanding accept must hand its scratch buffer over"),
    }
}

#[test]
fn closed_socket_rejects_every_operation() {
    let mut s = fake_stream(13);
    let (c, desc) = s.poll_close();
    assert!(c.is_none());
    assert!(matches!(desc, SubmissionDesc::Close { fd: 13 }));
    s.complete_close(Ok(0)).unwrap();
    assert_eq!(s.active, OpState::Closed);
    // Every operation, close included, is now a contract violation.
    assert!(!s.op_allowed());
    match s.teardown() {
        Teardown::AlreadyClosed => {}
        _ => panic!("a closed socket's teardown has nothing to do"),
    }
}

#[test]
fn failed_close_leaves_socket_usable() {
    let mut s = fake_stream(13);
    s.poll_close();
    match s.complete_close(Err(9)) {
        Err(SocketError::Os(9)) => {}
        _ => panic!("a failed close surfaces its errno"),
    }
    assert!(s.op_allowed());
}

#[test]
fn incoming_yields_one_item_per_ready_completion_and_never_ends() {
    let l = fake_listener(21);
    let mut inc = l.incoming_no_addr();
    for round in 0..3 {
        let (c, desc) = inc.poll_next();
        if round == 0 {
            assert!(c.is_none());
        }
        assert!(matches!(desc, SubmissionDesc::Accept { fd: 21, want_addr: false }));
        let item = inc.complete_next(Ok(100 + round));
        match item {
            Some(Ok(s)) => assert_eq!(s.fd, 100 + round),
            _ => panic!("every ready completion is exactly one item"),
        }
    }
    // A not-yet-ready attempt leaves the state unchanged until ready.
    let before = inc.listener.active;
    inc.poll_next();
    assert_eq!(inc.listener.active, before);
    let l = inc.into_inner();
    assert_eq!(l.active, OpState::Live(OpKind::Accept));
}

#[test]
fn incoming_with_addr_decodes_each_peer() {
    let l = fake_listener(22);
    let mut inc = l.incoming();
    inc.poll_next();
    let mut raw = vec![0u8; ADDR_BUF_LEN];
    raw[0] = 2; // IPv4 family, little-endian tag
    raw[2] = 0x1f; // port 8080 in network byte order
    raw[3] = 0x90;
    raw[4] = 127;
    raw[7] = 1;
    inc.listener.fill_addr(&raw);
    match inc.complete_next(Ok(50)) {
        Some(Ok((s, peer))) => {
            assert_eq!(s.fd, 50);
            assert_eq!(peer, v4(127, 0, 0, 1, 8080));
        }
        _ => panic!("a ready accept with a valid peer address is an item"),
    }
}

#[test]
fn failed_accept_is_an_item_not_the_end() {
    let l = fake_listener(23);
    let mut inc = l.incoming_no_addr();
    inc.poll_next();
    match inc.complete_next(Err(103)) {
        Some(Err(SocketError::Os(103))) => {}
        _ => panic!("a failed accept is one erroneous item"),
    }
}

#[test]
fn addr_buf_decodes_ipv6() {
    let mut raw = vec![0u8; ADDR_BUF_LEN];
    raw[0] = 10; // IPv6 family
    raw[2] = 0x00;
    raw[3] = 0x50; // port 80
    raw[8] = 0xfe;
    raw[9] = 0x80; // first group fe80
    raw[22] = 0x00;
    raw[23] = 0x01; // last group 1
    let buf = AddrBuf { raw };
    let a = buf.as_socket_addr();
    assert_eq!(
        a,
        SocketAddress { ip: IpAddress::V6([0xfe80, 0, 0, 0, 0, 0, 0, 1]), port: 80 }
    );
}

#[test]
fn accept_descriptor_contract() {
    let ev = event::Accept { addr: Some(Box::new(AddrBuf::uninit())), fd: 17 };
    assert_eq!(ev.sqes_needed(), 1);
    assert!(matches!(ev.prepare(), SubmissionDesc::Accept { fd: 17, want_addr: true }));
    match event::Accept::cancel(ev) {
        Cancellation::AddrCapsule(Some(_)) => {}
        _ => panic!("cancelling must capsule exactly the scratch buffer"),
    }
}

#[test]
fn resolution_with_zero_candidates_is_input_validation_error() {
    let r = resolve_from_outcomes(&vec![], &vec![]);
    assert!(matches!(r, Err(SocketError::InvalidInput)));
}

#[test]
fn resolution_uses_second_candidate_when_first_creation_fails() {
    let addrs = vec![v4(10, 0, 0, 1, 80), v4(10, 0, 0, 2, 80)];
    let outcomes = vec![Err(97), Ok(7)];
    match resolve_from_outcomes(&addrs, &outcomes) {
        Ok((fd, a)) => {
            assert_eq!(fd, 7);
            assert_eq!(a, v4(10, 0, 0, 2, 80));
        }
        _ => panic!("the second candidate must answer"),
    }
}

#[test]
fn resolution_all_failures_keeps_last_os_error() {
    let addrs = vec![v4(10, 0, 0, 1, 80), v4(10, 0, 0, 2, 80)];
    let outcomes = vec![Err(97), Err(13)];
    assert!(matches!(resolve_from_outcomes(&addrs, &outcomes), Err(SocketError::Os(13))));
}

#[test]
fn connect_with_zero_candidates_yields_error_exactly_once() {
    let mut c = TcpStream::connect(&vec![]);
    match c.poll(DriverPoll::Pending) {
        ConnectPoll::Ready(Err(SocketError::InvalidInput)) => {}
        _ => panic!("the pre-populated error is yielded"),
    }
    // The error slot is consumed now; polling again would be a
    // contract violation, which the state shows.
    assert!(matches!(c.inner, Err(None)));
}

#[test]
fn error_descriptions() {
    assert_eq!(
        SocketError::InvalidInput.describe(),
        "could not resolve to any addresses"
    );
    assert_eq!(SocketError::Os(4).describe(), "operating-system error");
}

#[test]
fn connect_success_constructs_idle_stream() {
    // Socket creation is real; the driver's completion is fed back.
    let mut c = TcpStream::connect(&vec![v4(127, 0, 0, 1, 80)]);
    let fd = match c.desc() {
        Some(SubmissionDesc::Connect { fd, addr }) => {
            assert_eq!(addr, v4(127, 0, 0, 1, 80));
            fd
        }
        _ => panic!("a created socket owns a connect submission"),
    };
    match c.poll(DriverPoll::Ready(Ok(0))) {
        ConnectPoll::Ready(Ok(s)) => {
            assert_eq!(s.fd, fd);
            assert_eq!(s.active, OpState::Idle);
            match s.teardown() {
                Teardown::SyncClose(r) => r.unwrap(),
                _ => panic!("an idle stream closes synchronously"),
            }
        }
        _ => panic!("a ready connect completion yields the stream"),
    }
}

#[test]
fn connect_failure_completion_surfaces_errno() {
    let mut c = TcpStream::connect(&vec![v4(127, 0, 0, 1, 80)]);
    let fd = match c.desc() {
        Some(SubmissionDesc::Connect { fd, .. }) => fd,
        _ => panic!("a created socket owns a connect submission"),
    };
    match c.poll(DriverPoll::Ready(Err(111))) {
        ConnectPoll::Ready(Err(SocketError::Os(111))) => {}
        _ => panic!("a failed connect surfaces its errno"),
    }
    // The descriptor itself is still the caller's to release.
    let s = TcpStream { fd, active: OpState::Idle, buf: Buffer::new() };
    assert!(matches!(s.teardown(), Teardown::SyncClose(Ok(()))));
}

#[test]
fn consume_without_copying_advances_the_region() {
    let mut s = fake_stream(5);
    s.poll_fill_buf();
    s.complete_read(Ok(vec![7, 8, 9])).unwrap();
    s.consume(2);
    let (_, step) = s.poll_fill_buf();
    assert!(matches!(step, ReadStep::Buffered(1)));
    assert_eq!(s.read_buffered(5), vec![9]);
}

#[test]
fn only_internet_families_are_decodable() {
    let mut raw = vec![0u8; ADDR_BUF_LEN];
    raw[0] = 2;
    assert!(AddrBuf { raw: raw.clone() }.family_supported());
    raw[0] = 10;
    assert!(AddrBuf { raw: raw.clone() }.family_supported());
    // A unix-domain peer: an internet listener never decodes it.
    raw[0] = 1;
    assert!(!AddrBuf { raw }.family_supported());
}
