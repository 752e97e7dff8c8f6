//! Trusted boundary to the operating system's socket-setup calls.
//!
//! Each function here wraps exactly one call of the `nix` crate; their
//! results depend on the machine's state, so the contracts only state
//! what holds of every outcome. Errors are surfaced as the errno value.

use vstd::prelude::*;
use crate::addr::{IpAddress, SocketAddress};

verus! {

/// Relies on nix::sys::socket::socket: creates a TCP stream socket with
/// close-on-exec in the requested family. A successful result is the
/// new descriptor, which is non-negative; the error is the errno value.
#[verifier::external_body]
pub(crate) fn sys_socket(ipv6: bool) -> (r: Result<i32, i32>)
    ensures
        r matches Ok(fd) ==> fd >= 0,
{
    let family = if ipv6 {
        nix::sys::socket::AddressFamily::Inet6
    } else {
        nix::sys::socket::AddressFamily::Inet
    };
    match nix::sys::socket::socket(
        family,
        nix::sys::socket::SockType::Stream,
        nix::sys::socket::SockFlag::SOCK_CLOEXEC,
        Some(nix::sys::socket::SockProtocol::Tcp),
    ) {
        Ok(fd) => Ok(fd),
        Err(e) => Err(e as i32),
    }
}

/// Relies on nix::sys::socket::setsockopt with sockopt::ReuseAddr:
/// enables SO_REUSEADDR on `fd`; the error is the errno value.
#[verifier::external_body]
pub(crate) fn sys_set_reuseaddr(fd: i32) -> (r: Result<(), i32>) {
    match nix::sys::socket::setsockopt(fd, nix::sys::socket::sockopt::ReuseAddr, &true) {
        Ok(()) => Ok(()),
        Err(e) => Err(e as i32),
    }
}

/// Relies on nix::sys::socket::bind: binds `fd` to the given address;
/// the error is the errno value.
#[verifier::external_body]
pub(crate) fn sys_bind(fd: i32, addr: &SocketAddress) -> (r: Result<(), i32>) {
    let ip = match addr.ip {
        IpAddress::V4(o) => nix::sys::socket::IpAddr::new_v4(o[0], o[1], o[2], o[3]),
        IpAddress::V6(g) => {
            nix::sys::socket::IpAddr::new_v6(g[0], g[1], g[2], g[3], g[4], g[5], g[6], g[7])
        }
    };
    let sa = nix::sys::socket::SockAddr::new_inet(nix::sys::socket::InetAddr::new(ip, addr.port));
    match nix::sys::socket::bind(fd, &sa) {
        Ok(()) => Ok(()),
        Err(e) => Err(e as i32),
    }
}

/// Relies on nix::sys::socket::listen: marks `fd` as a passive socket
/// with the given backlog; the error is the errno value.
#[verifier::external_body]
pub(crate) fn sys_listen(fd: i32, backlog: usize) -> (r: Result<(), i32>) {
    match nix::sys::socket::listen(fd, backlog) {
        Ok(()) => Ok(()),
        Err(e) => Err(e as i32),
    }
}

/// Relies on nix::unistd::close: closes `fd` synchronously; the error
/// is the errno value.
#[verifier::external_body]
pub(crate) fn sys_close(fd: i32) -> (r: Result<(), i32>) {
    match nix::unistd::close(fd) {
        Ok(()) => Ok(()),
        Err(e) => Err(e as i32),
    }
}

} // verus!
