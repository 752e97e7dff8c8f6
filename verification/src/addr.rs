//! Plain-value model of internet socket addresses, and the peer-address
//! scratch buffer an accept operation lends to the kernel.
//!
//! The buffer holds the raw bytes of a `sockaddr` as the kernel wrote
//! them: the address-family tag in the machine's (little-endian) byte
//! order in the first two bytes, then the port in network byte order,
//! then the address itself (at offset 4 for IPv4, offset 8 for IPv6,
//! with each group in network byte order). Decoding those bytes into a
//! typed address is verified here; only writing them is the driver's.

use vstd::prelude::*;

verus! {

/// The address-family tag of an IPv4 socket address.
pub const AF_INET: u16 = 2;

/// The address-family tag of an IPv6 socket address.
pub const AF_INET6: u16 = 10;

/// The length of the raw scratch buffer lent to the kernel: enough for
/// any socket address the kernel may write.
pub const ADDR_BUF_LEN: usize = 128;

/// An IP address as plain values: four octets, or eight 16-bit groups.
#[derive(Clone, Copy, Debug, PartialEq, Eq)]
pub enum IpAddress {
    V4([u8; 4]),
    V6([u16; 8]),
}

/// An internet socket address: an IP address and a port.
#[derive(Clone, Copy, Debug, PartialEq, Eq)]
pub struct SocketAddress {
    pub ip: IpAddress,
    pub port: u16,
}

/// The scratch memory an accept operation lends to the kernel, which
/// fills it with the raw bytes of the peer's socket address. It must
/// stay at a fixed location and alive until the operation completes or
/// is cancelled; on cancellation it travels inside the cancellation
/// token rather than being freed.
pub struct AddrBuf {
    pub raw: Vec<u8>,
}

impl AddrBuf {
    /// The buffer has its full fixed length.
    pub open spec fn wf(self) -> bool {
        self.raw@.len() == ADDR_BUF_LEN
    }

    /// The address-family tag the kernel wrote, little-endian.
    pub open spec fn family_spec(self) -> int {
        self.raw@[0] + 256 * self.raw@[1]
    }

    /// The port the kernel wrote, network byte order.
    pub open spec fn port_spec(self) -> int {
        256 * self.raw@[2] + self.raw@[3]
    }

    /// The 16-bit group `j` of an IPv6 address, network byte order.
    pub open spec fn v6_group_spec(self, j: int) -> int {
        256 * self.raw@[8 + 2 * j] + self.raw@[8 + 2 * j + 1]
    }

    /// The typed address the raw bytes denote, assuming a supported family.
    pub open spec fn addr_spec(self) -> SocketAddress {
        if self.family_spec() == AF_INET {
            SocketAddress {
                ip: IpAddress::V4([self.raw@[4], self.raw@[5], self.raw@[6], self.raw@[7]]),
                port: self.port_spec() as u16,
            }
        } else {
            SocketAddress {
                ip: IpAddress::V6(
                    [
                        self.v6_group_spec(0) as u16,
                        self.v6_group_spec(1) as u16,
                        self.v6_group_spec(2) as u16,
                        self.v6_group_spec(3) as u16,
                        self.v6_group_spec(4) as u16,
                        self.v6_group_spec(5) as u16,
                        self.v6_group_spec(6) as u16,
                        self.v6_group_spec(7) as u16,
                    ],
                ),
                port: self.port_spec() as u16,
            }
        }
    }

    /// A zeroed buffer, ready to be lent to the kernel.
    pub fn uninit() -> (r: AddrBuf)
        ensures
            r.wf(),
            forall|i: int| 0 <= i < ADDR_BUF_LEN ==> r.raw@[i] == 0,
    {
        let mut raw: Vec<u8> = Vec::new();
        let mut i: usize = 0;
        while i < ADDR_BUF_LEN
            invariant
                i <= ADDR_BUF_LEN,
                raw@.len() == i,
                forall|j: int| 0 <= j < i ==> raw@[j] == 0,
            decreases ADDR_BUF_LEN - i,
        {
            raw.push(0);
            i = i + 1;
        }
        AddrBuf { raw }
    }

    /// The address-family tag as the kernel wrote it.
    pub fn family(&self) -> (f: u16)
        requires
            self.wf(),
        ensures
            f == self.family_spec(),
    {
        (self.raw[0] as u16) + 256 * (self.raw[1] as u16)
    }

    /// Whether the kernel wrote an address of a family this library
    /// decodes: these sockets are IPv4/IPv6-only by construction, so any
    /// other family is a contract violation of the driver.
    pub fn family_supported(&self) -> (r: bool)
        requires
            self.wf(),
        ensures
            r == (self.family_spec() == AF_INET || self.family_spec() == AF_INET6),
    {
        let f = self.family();
        f == AF_INET || f == AF_INET6
    }

    /// Decodes the raw bytes into a typed socket address. Decoding an
    /// address of an unexpected family is a fatal contract violation,
    /// so the family must be checked to be a supported one first.
    pub fn as_socket_addr(&self) -> (r: SocketAddress)
        requires
            self.wf(),
            self.family_spec() == AF_INET || self.family_spec() == AF_INET6,
        ensures
            r == self.addr_spec(),
    {
        let port = 256 * (self.raw[2] as u16) + (self.raw[3] as u16);
        if self.family() == AF_INET {
            SocketAddress {
                ip: IpAddress::V4([self.raw[4], self.raw[5], self.raw[6], self.raw[7]]),
                port,
            }
        } else {
            SocketAddress {
                ip: IpAddress::V6(
                    [
                        self.v6_group(0),
                        self.v6_group(1),
                        self.v6_group(2),
                        self.v6_group(3),
                        self.v6_group(4),
                        self.v6_group(5),
                        self.v6_group(6),
                        self.v6_group(7),
                    ],
                ),
                port,
            }
        }
    }

    /// One 16-bit group of an IPv6 address, from network byte order.
    fn v6_group(&self, j: usize) -> (g: u16)
        requires
            self.wf(),
            j < 8,
        ensures
            g == self.v6_group_spec(j as int),
    {
        256 * (self.raw[8 + 2 * j] as u16) + (self.raw[8 + 2 * j + 1] as u16)
    }
}

} // verus!
