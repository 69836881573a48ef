//! Address values and the kernel's generic socket-address encoding.
//!
//! `SIOC*` address ioctls carry addresses in a 16-byte `sockaddr`: a
//! 2-byte address family followed by 14 bytes of family-specific payload.
//! For IPv4 the payload is laid out as in `sockaddr_in` (2 bytes of port,
//! then the 4 address octets in network order); for a hardware address the
//! 6 octets start right after the family.  Both encodings are total and
//! lossless, which this module states and proves.

use vstd::prelude::*;

verus! {

/// `AF_INET` on Linux.
pub const AF_INET: u16 = 2;
/// `ARPHRD_ETHER`: the link-layer family tag of an Ethernet hardware
/// address.
pub const ARPHRD_ETHER: u16 = 1;
/// A `sockaddr` is 16 bytes: 2 of family, 14 of payload.
pub const SOCKADDR_LEN: usize = 16;

/// An IPv4 address as its four octets.
#[derive(Clone, Copy, Debug)]
pub struct Ipv4Addr {
    octets: [u8; 4],
}

impl View for Ipv4Addr {
    type V = Seq<u8>;

    closed spec fn view(&self) -> Seq<u8> {
        self.octets@
    }
}

impl Ipv4Addr {
    pub fn new(a: u8, b: u8, c: u8, d: u8) -> (r: Ipv4Addr)
        ensures
            r@ == seq![a, b, c, d],
    {
        let octets = [a, b, c, d];
        assert(octets@ =~= seq![a, b, c, d]);
        Ipv4Addr { octets }
    }

    pub open spec fn wf(self) -> bool {
        self@.len() == 4
    }

    pub fn octets(&self) -> (r: [u8; 4])
        ensures
            r@ == self@,
    {
        self.octets
    }
}

/// An IPv6 address as its sixteen octets.
#[derive(Clone, Copy, Debug)]
pub struct Ipv6Addr {
    octets: [u8; 16],
}

impl View for Ipv6Addr {
    type V = Seq<u8>;

    closed spec fn view(&self) -> Seq<u8> {
        self.octets@
    }
}

impl Ipv6Addr {
    pub fn new(octets: [u8; 16]) -> (r: Ipv6Addr)
        ensures
            r@ == octets@,
    {
        Ipv6Addr { octets }
    }

    pub open spec fn wf(self) -> bool {
        self@.len() == 16
    }

    pub fn octets(&self) -> (r: [u8; 16])
        ensures
            r@ == self@,
    {
        self.octets
    }
}

/// A 6-byte Ethernet hardware (MAC) address.
#[derive(Clone, Copy, Debug)]
pub struct MacAddr {
    octets: [u8; 6],
}

impl View for MacAddr {
    type V = Seq<u8>;

    closed spec fn view(&self) -> Seq<u8> {
        self.octets@
    }
}

impl MacAddr {
    pub fn new(octets: [u8; 6]) -> (r: MacAddr)
        ensures
            r@ == octets@,
    {
        MacAddr { octets }
    }

    pub open spec fn wf(self) -> bool {
        self@.len() == 6
    }

    pub fn octets(&self) -> (r: [u8; 6])
        ensures
            r@ == self@,
    {
        self.octets
    }
}

/// The 16 `sockaddr` bytes that carry an IPv4 address: `AF_INET` in
/// little-endian, a zero port, the four octets, and zero padding.
pub open spec fn spec_ipv4_sockaddr(a: Seq<u8>) -> Seq<u8> {
    seq![
        2u8,
        0u8,
        0u8,
        0u8,
        a[0],
        a[1],
        a[2],
        a[3],
        0u8,
        0u8,
        0u8,
        0u8,
        0u8,
        0u8,
        0u8,
        0u8,
    ]
}

/// The IPv4 octets held in `sockaddr` bytes: payload bytes 2 to 6.
pub open spec fn spec_sockaddr_ipv4(s: Seq<u8>) -> Seq<u8> {
    s.subrange(4, 8)
}

/// The 16 `sockaddr` bytes that carry a hardware address: the link-layer
/// family tag, the six octets, and zero padding.
pub open spec fn spec_hw_sockaddr(m: Seq<u8>) -> Seq<u8> {
    seq![
        1u8,
        0u8,
        m[0],
        m[1],
        m[2],
        m[3],
        m[4],
        m[5],
        0u8,
        0u8,
        0u8,
        0u8,
        0u8,
        0u8,
        0u8,
        0u8,
    ]
}

/// The hardware-address octets held in `sockaddr` bytes: payload bytes 0
/// to 6.
pub open spec fn spec_sockaddr_hw(s: Seq<u8>) -> Seq<u8> {
    s.subrange(2, 8)
}

/// Every IPv4 address survives the trip into the kernel encoding and
/// back: the codec is total and lossless.
pub proof fn lemma_ipv4_sockaddr_round_trip(a: Seq<u8>)
    requires
        a.len() == 4,
    ensures
        spec_sockaddr_ipv4(spec_ipv4_sockaddr(a)) == a,
{
    assert(spec_sockaddr_ipv4(spec_ipv4_sockaddr(a)) =~= a);
}

/// Every hardware address survives the trip into the kernel encoding and
/// back.
pub proof fn lemma_hw_sockaddr_round_trip(m: Seq<u8>)
    requires
        m.len() == 6,
    ensures
        spec_sockaddr_hw(spec_hw_sockaddr(m)) == m,
{
    assert(spec_sockaddr_hw(spec_hw_sockaddr(m)) =~= m);
}

} // verus!
