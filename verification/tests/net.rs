//! Tests that drive the library against real descriptors, with this
//! test harness playing the driver: it performs the submissions the
//! sockets describe and feeds the completions back. The byte-stream
//! legs run over a connected socket pair, so they exercise the same
//! read/write/close submissions without needing a routable interface.

use nix::sys::socket as nix_socket;
use ringbahn_net::addr::{IpAddress, SocketAddress, ADDR_BUF_LEN};
use ringbahn_net::guard::OpState;
use ringbahn_net::listener::TcpListener;
use ringbahn_net::ring::{SubmissionDesc, Teardown};
use ringbahn_net::stream::{ReadStep, TcpStream};
use ringbahn_net::tcp;
use ringbahn_net::SocketError;

fn loopback(port: u16) -> SocketAddress {
    SocketAddress { ip: IpAddress::V4([127, 0, 0, 1]), port }
}

/// The local port a descriptor is bound to.
fn local_port(fd: i32) -> u16 {
    match nix_socket::getsockname(fd).unwrap() {
        nix_socket::SockAddr::Inet(ia) => ia.port(),
        _ => panic!("expected an internet address"),
    }
}

/// The raw scratch-buffer bytes for a peer's IPv4 address, as the
/// kernel would write them: family tag little-endian, port and address
/// in network byte order.
fn raw_v4_bytes(octets: [u8; 4], port: u16) -> Vec<u8> {
    let mut raw = vec![0u8; ADDR_BUF_LEN];
    raw[0] = 2;
    raw[2] = (port >> 8) as u8;
    raw[3] = (port & 0xff) as u8;
    raw[4] = octets[0];
    raw[5] = octets[1];
    raw[6] = octets[2];
    raw[7] = octets[3];
    raw
}

/// Performs a kernel read for the stream (the driver's part) and feeds
/// the completion back, returning how many bytes are available.
fn drive_read(s: &mut TcpStream) -> usize {
    assert!(s.op_allowed());
    let (_cancel, step) = s.poll_fill_buf();
    match step {
        ReadStep::Buffered(n) => n,
        ReadStep::Submit(SubmissionDesc::Read { fd, len }) => {
            let mut tmp = vec![0u8; len];
            let n = nix::unistd::read(fd, &mut tmp).unwrap();
            tmp.truncate(n);
            s.complete_read(Ok(tmp)).unwrap()
        }
        _ => panic!("expected a read step"),
    }
}

/// Performs a kernel write of the stream's staged bytes (the driver's
/// part) and feeds the completion back.
fn drive_write(s: &mut TcpStream, payload: &Vec<u8>) -> usize {
    assert!(s.op_allowed());
    let (_cancel, desc) = s.poll_write(payload);
    match desc {
        SubmissionDesc::Write { fd, len } => {
            let staged = s.buf.data[s.buf.pos..].to_vec();
            assert_eq!(staged.len(), len);
            let n = nix::unistd::write(fd, &staged).unwrap();
            s.complete_write(Ok(n as i32)).unwrap()
        }
        _ => panic!("expected a write submission"),
    }
}

/// Performs the close submission (the driver's part) and feeds the
/// completion back.
fn drive_close_stream(s: &mut TcpStream) {
    assert!(s.op_allowed());
    let (_cancel, desc) = s.poll_close();
    match desc {
        SubmissionDesc::Close { fd } => {
            nix::unistd::close(fd).unwrap();
            s.complete_close(Ok(0)).unwrap();
        }
        _ => panic!("expected a close submission"),
    }
}

#[test]
fn socket_with_zero_candidates_is_input_validation_error() {
    assert!(matches!(tcp::socket(&vec![]), Err(SocketError::InvalidInput)));
}

#[test]
fn socket_creates_descriptor_for_loopback_candidate() {
    let (fd, a) = tcp::socket(&vec![loopback(0)]).unwrap();
    assert!(fd >= 0);
    assert_eq!(a, loopback(0));
    nix::unistd::close(fd).unwrap();
}

#[test]
fn bind_on_ephemeral_loopback_port_succeeds() {
    let l = TcpListener::bind(&vec![loopback(0)]).unwrap();
    assert_eq!(l.active, OpState::Idle);
    assert!(local_port(l.fd) != 0);
    match l.teardown() {
        Teardown::SyncClose(Ok(())) => {}
        _ => panic!("an idle listener closes its descriptor synchronously"),
    }
}

#[test]
fn bind_with_zero_candidates_is_input_validation_error() {
    assert!(matches!(
        TcpListener::bind(&vec![]),
        Err(SocketError::InvalidInput)
    ));
}

#[test]
fn end_to_end_accept_read_write_close() {
    // Bind a listener on an ephemeral loopback port.
    let mut l = TcpListener::bind(&vec![loopback(0)]).unwrap();
    assert!(local_port(l.fd) != 0);

    // A connected pair stands in for the accepted connection and its
    // client: the driver would hand the listener exactly such a
    // descriptor and the peer address the kernel wrote.
    let (server_fd, client_fd) = nix_socket::socketpair(
        nix_socket::AddressFamily::Unix,
        nix_socket::SockType::Stream,
        None,
        nix_socket::SockFlag::SOCK_CLOEXEC,
    )
    .unwrap();
    let client_port = 45678;

    // Accept: the listener prepares the submission; the driver
    // completes it with the connection and the peer's bytes. The
    // decoded peer address matches what the kernel wrote — the
    // client's observed local address.
    assert!(l.op_allowed());
    let (cancel, desc) = l.poll_accept();
    assert!(cancel.is_none());
    assert!(matches!(desc, SubmissionDesc::Accept { want_addr: true, .. }));
    l.fill_addr(&raw_v4_bytes([127, 0, 0, 1], client_port));
    let (mut server, peer) = l.complete_accept(Ok(server_fd)).unwrap();
    assert_eq!(peer, loopback(client_port));

    // Client writes; the server reads the same bytes, possibly across
    // multiple short reads and partial consumptions.
    let sent: Vec<u8> = (0u16..2000).map(|i| (i % 251) as u8).collect();
    let mut off = 0;
    while off < sent.len() {
        off += nix::unistd::write(client_fd, &sent[off..]).unwrap();
    }
    let mut got: Vec<u8> = Vec::new();
    while got.len() < sent.len() {
        let avail = drive_read(&mut server);
        assert!(avail > 0, "the peer has more bytes to deliver");
        // Consume in small pieces to exercise partial consumption.
        let piece = server.read_buffered(700);
        got.extend_from_slice(&piece);
    }
    assert_eq!(got, sent);

    // Server writes back; the client reads the same bytes.
    let reply: Vec<u8> = (0u16..900).map(|i| (i % 13) as u8).collect();
    let mut sent_back = 0;
    while sent_back < reply.len() {
        let rest: Vec<u8> = reply[sent_back..].to_vec();
        sent_back += drive_write(&mut server, &rest);
    }
    let mut echoed: Vec<u8> = Vec::new();
    let mut tmp = vec![0u8; 4096];
    while echoed.len() < reply.len() {
        let n = nix::unistd::read(client_fd, &mut tmp).unwrap();
        assert!(n > 0);
        echoed.extend_from_slice(&tmp[..n]);
    }
    assert_eq!(echoed, reply);

    // Close the server stream; afterwards every operation on it is
    // rejected as a contract violation.
    drive_close_stream(&mut server);
    assert!(!server.op_allowed());

    nix::unistd::close(client_fd).unwrap();
    // The listener still has its accept operation outstanding, so its
    // teardown issues exactly one cancellation and leaves the
    // descriptor open.
    match l.teardown() {
        Teardown::Cancelled(_) => {}
        _ => panic!("an outstanding accept must become a cancellation"),
    }
}
