//! The kernel's fixed-layout control structures and ioctl request codes.
//!
//! An `ifreq` is 40 bytes on 64-bit Linux: a 16-byte, null-padded
//! interface name followed by a 24-byte union.  Every union member (flag
//! word, MTU, interface index, `sockaddr`) starts at the same offset, so
//! only the member matching the ioctl just issued is valid to read.
//! [`IfReq`] models the structure as a byte buffer with one typed
//! accessor pair per member; each accessor states the exact bytes it
//! reads or writes.  [`In6Req`] is the distinct 24-byte request IPv6
//! address ioctls use.  Multi-byte fields are little-endian, as on every
//! architecture this ABI targets here.

use vstd::prelude::*;

use crate::addr::{
    spec_hw_sockaddr, spec_ipv4_sockaddr, spec_sockaddr_hw, spec_sockaddr_ipv4, Ipv4Addr, Ipv6Addr,
    MacAddr,
};

verus! {

// New-style ioctl codes of the TUN driver: `_IOW('T', nr, int)`.

/// Creates the interface and negotiates its name and flags.
pub const TUNSETIFF: u64 = 0x400454ca;
/// Makes the interface outlive its descriptors, or undoes that.
pub const TUNSETPERSIST: u64 = 0x400454cb;
/// Assigns the interface to a user.
pub const TUNSETOWNER: u64 = 0x400454cc;
/// Assigns the interface to a group.
pub const TUNSETGROUP: u64 = 0x400454ce;
/// Attaches or detaches one multiqueue descriptor.
pub const TUNSETQUEUE: u64 = 0x400454d9;

// Legacy fixed-number `SIOC*` codes of `linux/sockios.h`.

/// Reads the administrative flag word.
pub const SIOCGIFFLAGS: u64 = 0x8913;
/// Writes the administrative flag word.
pub const SIOCSIFFLAGS: u64 = 0x8914;
/// Reads the IPv4 address.
pub const SIOCGIFADDR: u64 = 0x8915;
/// Writes the IPv4 address; on an IPv6 control socket, adds an IPv6
/// address given an `in6_ifreq`.
pub const SIOCSIFADDR: u64 = 0x8916;
/// Reads the point-to-point destination address.
pub const SIOCGIFDSTADDR: u64 = 0x8917;
/// Writes the point-to-point destination address.
pub const SIOCSIFDSTADDR: u64 = 0x8918;
/// Reads the broadcast address.
pub const SIOCGIFBRDADDR: u64 = 0x8919;
/// Writes the broadcast address.
pub const SIOCSIFBRDADDR: u64 = 0x891a;
/// Reads the netmask.
pub const SIOCGIFNETMASK: u64 = 0x891b;
/// Writes the netmask.
pub const SIOCSIFNETMASK: u64 = 0x891c;
/// Reads the MTU.
pub const SIOCGIFMTU: u64 = 0x8921;
/// Writes the MTU.
pub const SIOCSIFMTU: u64 = 0x8922;
/// Writes the hardware address (TAP only).
pub const SIOCSIFHWADDR: u64 = 0x8924;
/// Reads the hardware address (TAP only).
pub const SIOCGIFHWADDR: u64 = 0x8927;
/// Reads the interface index.
pub const SIOCGIFINDEX: u64 = 0x8933;
/// On an IPv6 control socket, deletes an IPv6 address given an
/// `in6_ifreq`.
pub const SIOCDIFADDR: u64 = 0x8936;

/// `IFNAMSIZ`: the name field holds at most 15 significant bytes plus a
/// terminator.
pub const IFNAMSIZ: usize = 16;
/// Size of an `ifreq` on 64-bit Linux.
pub const IFREQ_LEN: usize = 40;
/// Size of an `in6_ifreq`.
pub const IN6_IFREQ_LEN: usize = 24;

/// The new-style ioctl number layout: direction, argument size, driver
/// type and request number packed into one word.
pub open spec fn spec_ioc(dir: u64, ty: u64, nr: u64, size: u64) -> u64 {
    (dir << 30) | (size << 16) | (ty << 8) | nr
}

/// Each TUN code is exactly `_IOW('T', nr, int)`: write direction,
/// 4-byte argument, driver type `'T'`, and its own request number.
pub proof fn lemma_tun_ioctl_codes()
    ensures
        TUNSETIFF == spec_ioc(1, 0x54, 202, 4),
        TUNSETPERSIST == spec_ioc(1, 0x54, 203, 4),
        TUNSETOWNER == spec_ioc(1, 0x54, 204, 4),
        TUNSETGROUP == spec_ioc(1, 0x54, 206, 4),
        TUNSETQUEUE == spec_ioc(1, 0x54, 217, 4),
{
    assert((1u64 << 30) | (4u64 << 16) | (0x54u64 << 8) | 202u64 == 0x400454cau64)
        by (bit_vector);
    assert((1u64 << 30) | (4u64 << 16) | (0x54u64 << 8) | 203u64 == 0x400454cbu64)
        by (bit_vector);
    assert((1u64 << 30) | (4u64 << 16) | (0x54u64 << 8) | 204u64 == 0x400454ccu64)
        by (bit_vector);
    assert((1u64 << 30) | (4u64 << 16) | (0x54u64 << 8) | 206u64 == 0x400454ceu64)
        by (bit_vector);
    assert((1u64 << 30) | (4u64 << 16) | (0x54u64 << 8) | 217u64 == 0x400454d9u64)
        by (bit_vector);
}

/// `n` zero bytes.
pub open spec fn spec_zeros(n: int) -> Seq<u8> {
    Seq::new(n as nat, |i: int| 0u8)
}

/// The 16-byte name field the encoder writes for a requested `name`:
/// truncated to 15 bytes and null-padded.
pub open spec fn spec_padded_name(name: Seq<u8>) -> Seq<u8> {
    Seq::new(16, |i: int| if i < name.len() && i < 15 { name[i] } else { 0u8 })
}

/// Index of the first zero byte of the name field, or 16 if there is
/// none.
pub open spec fn spec_name_stop(s: Seq<u8>, i: int) -> int
    decreases 16 - i,
{
    if i < 0 || i >= 16 {
        16
    } else if s[i] == 0 {
        i
    } else {
        spec_name_stop(s, i + 1)
    }
}

/// The interface name held in a request's name field: the bytes before
/// the first terminator.
pub open spec fn spec_iface_name(s: Seq<u8>) -> Seq<u8> {
    s.subrange(0, spec_name_stop(s, 0))
}

/// A name whose encoding decodes back to itself: at most 15 bytes, none
/// of them zero.
pub open spec fn spec_name_encodable(name: Seq<u8>) -> bool {
    name.len() <= 15 && (forall|i: int| 0 <= i < name.len() ==> name[i] != 0u8)
}

proof fn lemma_name_stop_after(s: Seq<u8>, i: int, n: int)
    requires
        0 <= i <= n <= 15,
        s.len() >= 16,
        forall|j: int| i <= j < n ==> s[j] != 0u8,
        s[n] == 0u8,
    ensures
        spec_name_stop(s, i) == n,
    decreases n - i,
{
    if i < n {
        lemma_name_stop_after(s, i + 1, n);
    }
}

/// Encoding then decoding an encodable name gives the name back; the
/// kernel-side truncation loses nothing for names of at most 15 bytes.
pub proof fn lemma_name_round_trip(name: Seq<u8>)
    requires
        spec_name_encodable(name),
    ensures
        spec_iface_name(spec_padded_name(name)) == name,
{
    let p = spec_padded_name(name);
    lemma_name_stop_after(p, 0, name.len() as int);
    assert(p.subrange(0, name.len() as int) =~= name);
}

/// The two little-endian bytes of a 16-bit value.
pub open spec fn spec_le16_bytes(v: u16) -> Seq<u8> {
    seq![(v % 256) as u8, (v / 256) as u8]
}

/// The four little-endian bytes of a 32-bit value.
pub open spec fn spec_le32_bytes(v: u32) -> Seq<u8> {
    seq![
        (v % 256) as u8,
        ((v / 256) % 256) as u8,
        ((v / 65536) % 256) as u8,
        (v / 16777216) as u8,
    ]
}

/// The value read back from two little-endian bytes.
pub open spec fn spec_le16(s: Seq<u8>, i: int) -> int {
    s[i] + 256 * s[i + 1]
}

/// The value read back from four little-endian bytes.
pub open spec fn spec_le32(s: Seq<u8>, i: int) -> int {
    s[i] + 256 * s[i + 1] + 65536 * s[i + 2] + 16777216 * s[i + 3]
}

proof fn lemma_u16_radix(v: u16)
    by (bit_vector)
    ensures
        (v % 256) + 256 * (v / 256) == v,
        v / 256 < 256,
{
}

proof fn lemma_u32_radix(v: u32)
    by (bit_vector)
    ensures
        (v % 256) + 256 * ((v / 256) % 256) + 65536 * ((v / 65536) % 256) + 16777216 * (v
            / 16777216) == v,
        v / 16777216 < 256,
{
}

/// Reading two little-endian bytes recovers the value they encode: the
/// 16-bit field codec is lossless for every value.
pub proof fn lemma_le16_round_trip(v: u16)
    ensures
        spec_le16(spec_le16_bytes(v), 0) == v,
{
    lemma_u16_radix(v);
}

/// Reading four little-endian bytes recovers the value they encode: the
/// 32-bit field codec is lossless for every value.
pub proof fn lemma_le32_round_trip(v: u32)
    ensures
        spec_le32(spec_le32_bytes(v), 0) == v,
{
    lemma_u32_radix(v);
}

/// An `ifreq`, modeled as its exact bytes.
pub struct IfReq {
    bytes: Vec<u8>,
}

impl View for IfReq {
    type V = Seq<u8>;

    closed spec fn view(&self) -> Seq<u8> {
        self.bytes@
    }
}

impl IfReq {
    pub open spec fn wf(&self) -> bool {
        self@.len() == 40
    }

    /// An `ifreq` whose name field holds `name` (truncated to 15 bytes,
    /// null-padded) and whose union region is zeroed.  Pure
    /// construction: any name is accepted.
    pub fn new(name: &[u8]) -> (r: IfReq)
        ensures
            r.wf(),
            r@ == spec_padded_name(name@) + spec_zeros(24),
    {
        let mut bytes: Vec<u8> = Vec::new();
        let mut i: usize = 0;
        while i < 40
            invariant
                i <= 40,
                bytes@.len() == i,
                forall|j: int| 0 <= j < i ==> bytes@[j] == 0u8,
            decreases 40 - i,
        {
            bytes.push(0u8);
            i = i + 1;
        }
        let n: usize = if name.len() < 15 {
            name.len()
        } else {
            15
        };
        let mut k: usize = 0;
        while k < n
            invariant
                k <= n,
                n <= 15,
                n <= name@.len(),
                n == if name@.len() < 15 {
                    name@.len() as int
                } else {
                    15int
                },
                bytes@.len() == 40,
                forall|j: int| 0 <= j < k ==> bytes@[j] == name@[j],
                forall|j: int| k <= j < 40 ==> bytes@[j] == 0u8,
            decreases n - k,
        {
            bytes.set(k, name[k]);
            k = k + 1;
        }
        let r = IfReq { bytes };
        proof {
            assert(r@ =~= spec_padded_name(name@) + spec_zeros(24));
        }
        r
    }

    /// The raw bytes, for handing the request to the kernel.
    pub fn as_bytes(&self) -> (r: &Vec<u8>)
        ensures
            r@ == self@,
    {
        &self.bytes
    }

    /// Rebuilds a request value from bytes the kernel mutated in place.
    pub fn from_bytes(bytes: Vec<u8>) -> (r: Result<IfReq, ()>)
        ensures
            bytes@.len() == 40 <==> r is Ok,
            r is Ok ==> r->Ok_0.wf() && r->Ok_0@ == bytes@,
    {
        if bytes.len() == 40 {
            Ok(IfReq { bytes })
        } else {
            Err(())
        }
    }

    /// The interface name held in the name field, up to its terminator.
    pub fn name(&self) -> (r: Vec<u8>)
        requires
            self.wf(),
        ensures
            r@ == spec_iface_name(self@),
    {
        let mut r: Vec<u8> = Vec::new();
        let mut i: usize = 0;
        while i < 16 && self.bytes[i] != 0
            invariant
                self.wf(),
                i <= 16,
                r@ == self@.subrange(0, i as int),
                spec_name_stop(self@, 0) == spec_name_stop(self@, i as int),
            decreases 16 - i,
        {
            r.push(self.bytes[i]);
            proof {
                assert(r@ =~= self@.subrange(0, i + 1));
            }
            i = i + 1;
        }
        proof {
            assert(spec_name_stop(self@, i as int) == i);
        }
        r
    }

    /// The 16-bit flag word of the union region.
    pub fn flags_word(&self) -> (r: u16)
        requires
            self.wf(),
        ensures
            r == spec_le16(self@, 16),
    {
        self.bytes[16] as u16 + (self.bytes[17] as u16) * 256
    }

    /// Writes the 16-bit flag word into the union region.
    pub fn set_flags_word(&mut self, w: u16)
        requires
            old(self).wf(),
        ensures
            final(self).wf(),
            final(self)@ == old(self)@.update(16, (w % 256) as u8).update(17, (w / 256) as u8),
            spec_le16(final(self)@, 16) == w,
            spec_iface_name(final(self)@) == spec_iface_name(old(self)@),
    {
        proof {
            lemma_u16_radix(w);
        }
        let lo: u8 = (w % 256) as u8;
        let hi: u8 = (w / 256) as u8;
        self.bytes.set(16, lo);
        self.bytes.set(17, hi);
        proof {
            lemma_name_stop_unchanged(old(self)@, self@);
            assert(spec_iface_name(self@) =~= spec_iface_name(old(self)@));
        }
    }

    /// The 32-bit integer member of the union region (`ifr_mtu` or
    /// `ifr_ifindex`, whichever the last ioctl filled).
    pub fn ivalue(&self) -> (r: u32)
        requires
            self.wf(),
        ensures
            r == spec_le32(self@, 16),
    {
        self.bytes[16] as u32 + (self.bytes[17] as u32) * 256 + (self.bytes[18] as u32) * 65536 + (
        self.bytes[19] as u32) * 16777216
    }

    /// Writes the 32-bit integer member of the union region.
    pub fn set_ivalue(&mut self, v: u32)
        requires
            old(self).wf(),
        ensures
            final(self).wf(),
            final(self)@ == old(self)@.subrange(0, 16) + spec_le32_bytes(v) + old(self)@.subrange(
                20,
                40,
            ),
            spec_le32(final(self)@, 16) == v,
            spec_iface_name(final(self)@) == spec_iface_name(old(self)@),
    {
        proof {
            lemma_u32_radix(v);
        }
        let b0: u8 = (v % 256) as u8;
        let b1: u8 = ((v / 256) % 256) as u8;
        let b2: u8 = ((v / 65536) % 256) as u8;
        let b3: u8 = (v / 16777216) as u8;
        self.bytes.set(16, b0);
        self.bytes.set(17, b1);
        self.bytes.set(18, b2);
        self.bytes.set(19, b3);
        proof {
            assert(self@ =~= old(self)@.subrange(0, 16) + spec_le32_bytes(v) + old(
                self,
            )@.subrange(20, 40));
            lemma_name_stop_unchanged(old(self)@, self@);
            assert(spec_iface_name(self@) =~= spec_iface_name(old(self)@));
        }
    }

    /// The IPv4 address held in the union's `sockaddr` member.
    pub fn ipv4(&self) -> (r: Ipv4Addr)
        requires
            self.wf(),
        ensures
            r@ == spec_sockaddr_ipv4(self@.subrange(16, 32)),
    {
        let r = Ipv4Addr::new(self.bytes[20], self.bytes[21], self.bytes[22], self.bytes[23]);
        proof {
            assert(r@ =~= spec_sockaddr_ipv4(self@.subrange(16, 32)));
        }
        r
    }

    /// Writes an IPv4 address into the union's `sockaddr` member, in the
    /// kernel's generic socket-address encoding.
    pub fn set_ipv4(&mut self, a: &Ipv4Addr)
        requires
            old(self).wf(),


        ensures
            final(self).wf(),
            final(self)@ == old(self)@.subrange(0, 16) + spec_ipv4_sockaddr(a@) + old(
                self,
            )@.subrange(32, 40),
            spec_iface_name(final(self)@) == spec_iface_name(old(self)@),
    {
        let o = a.octets();
        self.bytes.set(16, 2);
        self.bytes.set(17, 0);
        self.bytes.set(18, 0);
        self.bytes.set(19, 0);
        self.bytes.set(20, o[0]);
        self.bytes.set(21, o[1]);
        self.bytes.set(22, o[2]);
        self.bytes.set(23, o[3]);
        proof {
            let e = spec_ipv4_sockaddr(a@);
            assert(e[0] == 2u8 && e[1] == 0u8 && e[2] == 0u8 && e[3] == 0u8 && e[4] == a@[0]
                && e[5] == a@[1] && e[6] == a@[2] && e[7] == a@[3]);
        }
        let mut i: usize = 24;
        while i < 32
            invariant
                24 <= i <= 32,
                old(self)@.len() == 40,
                self@.len() == 40,
                forall|j: int| 0 <= j < 16 ==> self@[j] == old(self)@[j],
                forall|j: int| 16 <= j < 24 ==> self@[j] == spec_ipv4_sockaddr(a@)[j - 16],
                forall|j: int| 24 <= j < i ==> self@[j] == 0u8,
                forall|j: int| 32 <= j < 40 ==> self@[j] == old(self)@[j],
            decreases 32 - i,
        {
            self.bytes.set(i, 0);
            i = i + 1;
        }
        proof {
            assert(self@ =~= old(self)@.subrange(0, 16) + spec_ipv4_sockaddr(a@) + old(
                self,
            )@.subrange(32, 40));
            lemma_name_stop_unchanged(old(self)@, self@);
            assert(spec_iface_name(self@) =~= spec_iface_name(old(self)@));
        }
    }

    /// The hardware address held in the union's `sockaddr` member.
    pub fn hwaddr(&self) -> (r: MacAddr)
        requires
            self.wf(),
        ensures
            r@ == spec_sockaddr_hw(self@.subrange(16, 32)),
    {
        let o = [
            self.bytes[18],
            self.bytes[19],
            self.bytes[20],
            self.bytes[21],
            self.bytes[22],
            self.bytes[23],
        ];
        let r = MacAddr::new(o);
        proof {
            assert(r@ =~= spec_sockaddr_hw(self@.subrange(16, 32)));
        }
        r
    }

    /// Writes a hardware address into the union's `sockaddr` member,
    /// tagged with the Ethernet link-layer family.
    pub fn set_hwaddr(&mut self, m: &MacAddr)
        requires
            old(self).wf(),
        ensures
            final(self).wf(),
            final(self)@ == old(self)@.subrange(0, 16) + spec_hw_sockaddr(m@) + old(
                self,
            )@.subrange(32, 40),
            spec_iface_name(final(self)@) == spec_iface_name(old(self)@),
    {
        let o = m.octets();
        self.bytes.set(16, 1);
        self.bytes.set(17, 0);
        self.bytes.set(18, o[0]);
        self.bytes.set(19, o[1]);
        self.bytes.set(20, o[2]);
        self.bytes.set(21, o[3]);
        self.bytes.set(22, o[4]);
        self.bytes.set(23, o[5]);
        proof {
            let e = spec_hw_sockaddr(m@);
            assert(e[0] == 1u8 && e[1] == 0u8 && e[2] == m@[0] && e[3] == m@[1] && e[4] == m@[2]
                && e[5] == m@[3] && e[6] == m@[4] && e[7] == m@[5]);
        }
        let mut i: usize = 24;
        while i < 32
            invariant
                24 <= i <= 32,
                old(self)@.len() == 40,
                self@.len() == 40,
                forall|j: int| 0 <= j < 16 ==> self@[j] == old(self)@[j],
                forall|j: int| 16 <= j < 24 ==> self@[j] == spec_hw_sockaddr(m@)[j - 16],
                forall|j: int| 24 <= j < i ==> self@[j] == 0u8,
                forall|j: int| 32 <= j < 40 ==> self@[j] == old(self)@[j],
            decreases 32 - i,
        {
            self.bytes.set(i, 0);
            i = i + 1;
        }
        proof {
            assert(self@ =~= old(self)@.subrange(0, 16) + spec_hw_sockaddr(m@) + old(
                self,
            )@.subrange(32, 40));
            lemma_name_stop_unchanged(old(self)@, self@);
            assert(spec_iface_name(self@) =~= spec_iface_name(old(self)@));
        }
    }
}

/// The first terminator is never found beyond the end of the name
/// field.
pub proof fn lemma_name_stop_range(s: Seq<u8>, i: int)
    requires
        0 <= i <= 16,
    ensures
        i <= spec_name_stop(s, i) <= 16,
    decreases 16 - i,
{
    if i < 16 && s[i] != 0 {
        lemma_name_stop_range(s, i + 1);
    }
}

proof fn lemma_name_stop_nonzero(s: Seq<u8>, i: int)
    requires
        0 <= i <= 16,
    ensures
        forall|j: int| i <= j < spec_name_stop(s, i) ==> s[j] != 0u8,
    decreases 16 - i,
{
    if i < 16 && s[i] != 0 {
        lemma_name_stop_nonzero(s, i + 1);
    }
}

/// A name decoded from a request's name field is itself encodable
/// whenever it fits the 15-byte bound: its bytes are the ones before
/// the first terminator, so none of them is zero.
pub proof fn lemma_iface_name_encodable(s: Seq<u8>)
    requires
        s.len() >= 16,
        spec_iface_name(s).len() <= 15,
    ensures
        spec_name_encodable(spec_iface_name(s)),
{
    lemma_name_stop_range(s, 0);
    lemma_name_stop_nonzero(s, 0);
}

/// The decoded name depends on the name field alone: two requests that
/// agree on their first 16 bytes decode to the same name.  In
/// particular, writing the union region leaves the name unchanged.
pub proof fn lemma_name_stop_unchanged(a: Seq<u8>, b: Seq<u8>)
    requires
        a.len() >= 16,
        b.len() >= 16,
        forall|j: int| 0 <= j < 16 ==> a[j] == b[j],
    ensures
        spec_name_stop(a, 0) == spec_name_stop(b, 0),
        spec_iface_name(a) == spec_iface_name(b),
{
    lemma_name_stop_eq(a, b, 0);
    lemma_name_stop_range(a, 0);
    assert(spec_iface_name(a) =~= spec_iface_name(b));
}

proof fn lemma_name_stop_eq(a: Seq<u8>, b: Seq<u8>, i: int)
    requires
        a.len() >= 16,
        b.len() >= 16,
        forall|j: int| 0 <= j < 16 ==> a[j] == b[j],
    ensures
        spec_name_stop(a, i) == spec_name_stop(b, i),
    decreases 16 - i,
{
    if 0 <= i < 16 && a[i] != 0 {
        lemma_name_stop_eq(a, b, i + 1);
    }
}

/// An `in6_ifreq`, modeled as its exact bytes: a 16-byte IPv6 address, a
/// 32-bit prefix length and a 32-bit interface index.
pub struct In6Req {
    bytes: Vec<u8>,
}

impl View for In6Req {
    type V = Seq<u8>;

    closed spec fn view(&self) -> Seq<u8> {
        self.bytes@
    }
}

impl In6Req {
    pub open spec fn wf(&self) -> bool {
        self@.len() == 24
    }

    /// Builds the request that names `addr` with the given prefix length
    /// on the interface with the given index.
    pub fn new(addr: &Ipv6Addr, prefix_len: u32, index: u32) -> (r: In6Req)
        ensures
            r.wf(),
            r@ == addr@ + spec_le32_bytes(prefix_len) + spec_le32_bytes(index),
    {
        proof {
            lemma_u32_radix(prefix_len);
            lemma_u32_radix(index);
        }
        let o = addr.octets();
        let mut bytes: Vec<u8> = Vec::new();
        let mut i: usize = 0;
        while i < 16
            invariant
                i <= 16,
                bytes@.len() == i,
                o@ == addr@,
                forall|j: int| 0 <= j < i ==> bytes@[j] == addr@[j],
            decreases 16 - i,
        {
            bytes.push(o[i]);
            i = i + 1;
        }
        bytes.push((prefix_len % 256) as u8);
        bytes.push(((prefix_len / 256) % 256) as u8);
        bytes.push(((prefix_len / 65536) % 256) as u8);
        bytes.push((prefix_len / 16777216) as u8);
        bytes.push((index % 256) as u8);
        bytes.push(((index / 256) % 256) as u8);
        bytes.push(((index / 65536) % 256) as u8);
        bytes.push((index / 16777216) as u8);
        let r = In6Req { bytes };
        proof {
            assert(r@ =~= addr@ + spec_le32_bytes(prefix_len) + spec_le32_bytes(index));
        }
        r
    }

    /// The raw bytes, for handing the request to the kernel.
    pub fn as_bytes(&self) -> (r: &Vec<u8>)
        ensures
            r@ == self@,
    {
        &self.bytes
    }
}

} // verus!
