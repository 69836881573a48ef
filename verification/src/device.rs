//! Interface handles and the control-plane operations.
//!
//! Creation is a negotiation: a caller asks for a name, a mode and a
//! queue count; the kernel answers by mutating the `TUNSETIFF` request
//! in place, and the name it wrote back — never the requested one — is
//! the identity every later request must carry.  [`CreationRequest`]
//! holds the validated, fully encoded ask; [`Dev`] is one descriptor
//! bound to the negotiated interface.  Every attribute operation comes
//! in two verified halves: a builder that produces the exact ioctl code
//! and request bytes, and a decoder that reads the kernel's reply.  The
//! embedding program only ferries those bytes through the ioctl.
//!
//! The data path (`read`/`write` on the descriptor) runs from here
//! through trusted wrappers; [`io_step`] is the retry decision of the
//! non-blocking path.

use vstd::prelude::*;

use crate::addr::{
    lemma_hw_sockaddr_round_trip, lemma_ipv4_sockaddr_round_trip, spec_hw_sockaddr,
    spec_ipv4_sockaddr, spec_sockaddr_hw, spec_sockaddr_ipv4, Ipv4Addr, Ipv6Addr, MacAddr,
};
use crate::error::Error;
use crate::flags::{
    Flags, Mode, FLAGS_MASK, IFF_MULTI_QUEUE, IFF_NO_PI, UP_RUNNING_WORD,
    spec_down_word, spec_up_word, down_word, up_word,
};
use crate::request::{
    lemma_iface_name_encodable, lemma_le16_round_trip, lemma_le32_round_trip, spec_iface_name,
    spec_le16, spec_le16_bytes, spec_le32, spec_le32_bytes, spec_name_encodable, spec_padded_name,
    spec_zeros, IfReq, In6Req, SIOCDIFADDR, SIOCGIFADDR, SIOCGIFBRDADDR, SIOCGIFDSTADDR,
    SIOCGIFFLAGS, SIOCGIFINDEX, SIOCGIFMTU, SIOCGIFNETMASK, SIOCSIFADDR, SIOCSIFBRDADDR,
    SIOCSIFDSTADDR, SIOCSIFFLAGS, SIOCSIFHWADDR, SIOCGIFHWADDR, SIOCSIFMTU, SIOCSIFNETMASK,
    TUNSETGROUP, TUNSETIFF, TUNSETOWNER, TUNSETPERSIST, TUNSETQUEUE,
};

verus! {

/// The flag word of a creation request: the mode bit, the
/// no-packet-info bit unless the header was asked for, and the
/// multiqueue bit when more than one descriptor shares the interface.
pub open spec fn spec_creation_word(mode: Mode, packet_info: bool, fd_count: int) -> u16 {
    let base = mode.spec_flag_bits();
    let with_pi = if !packet_info {
        base | IFF_NO_PI
    } else {
        base
    };
    if fd_count > 1 {
        with_pi | IFF_MULTI_QUEUE
    } else {
        with_pi
    }
}

/// The bytes of a request that carries only the interface name.
pub open spec fn spec_name_ifreq(name: Seq<u8>) -> Seq<u8> {
    spec_padded_name(name) + spec_zeros(24)
}

/// The bytes of a request whose union region holds a flag word.
pub open spec fn spec_flags_ifreq(name: Seq<u8>, w: u16) -> Seq<u8> {
    spec_padded_name(name) + spec_le16_bytes(w) + spec_zeros(22)
}

/// The bytes of a request whose union region holds a 32-bit integer.
pub open spec fn spec_ivalue_ifreq(name: Seq<u8>, v: u32) -> Seq<u8> {
    spec_padded_name(name) + spec_le32_bytes(v) + spec_zeros(20)
}

/// The bytes of a request whose union region holds an IPv4 address.
pub open spec fn spec_addr_ifreq(name: Seq<u8>, a: Seq<u8>) -> Seq<u8> {
    spec_padded_name(name) + spec_ipv4_sockaddr(a) + spec_zeros(8)
}

/// The bytes of a request whose union region holds a hardware address.
pub open spec fn spec_hw_ifreq(name: Seq<u8>, m: Seq<u8>) -> Seq<u8> {
    spec_padded_name(name) + spec_hw_sockaddr(m) + spec_zeros(8)
}

/// A validated, fully encoded `TUNSETIFF` ask: how many descriptors to
/// open, whether to open them non-blocking, and the exact request bytes
/// to hand each one.
pub struct CreationRequest {
    ifr: IfReq,
    mode: Mode,
    fd_count: usize,
    packet_info: bool,
    non_blocking: bool,
}

impl CreationRequest {
    pub closed spec fn spec_mode(&self) -> Mode {
        self.mode
    }

    pub closed spec fn spec_fd_count(&self) -> usize {
        self.fd_count
    }

    pub closed spec fn spec_packet_info(&self) -> bool {
        self.packet_info
    }

    pub closed spec fn spec_non_blocking(&self) -> bool {
        self.non_blocking
    }

    pub closed spec fn spec_ifr(&self) -> Seq<u8> {
        self.ifr@
    }

    pub open spec fn wf(&self) -> bool {
        &&& self.spec_fd_count() >= 1
        &&& self.spec_ifr().len() == 40
        &&& spec_le16(self.spec_ifr(), 16) == spec_creation_word(
            self.spec_mode(),
            self.spec_packet_info(),
            self.spec_fd_count() as int,
        )
    }

    /// The ioctl to issue on each freshly opened descriptor.
    pub fn ioctl_code(&self) -> (r: u64)
        ensures
            r == TUNSETIFF,
    {
        TUNSETIFF
    }

    /// The request bytes the creation ioctl takes; the kernel mutates
    /// them in place.
    pub fn request(&self) -> (r: &IfReq)
        ensures
            r@ == self.spec_ifr(),
            r.wf() <==> self.spec_ifr().len() == 40,
    {
        &self.ifr
    }

    pub fn fd_count(&self) -> (r: usize)
        ensures
            r == self.spec_fd_count(),
    {
        self.fd_count
    }

    pub fn non_blocking(&self) -> (r: bool)
        ensures
            r == self.spec_non_blocking(),
    {
        self.non_blocking
    }

    pub fn mode(&self) -> (r: Mode)
        ensures
            r == self.spec_mode(),
    {
        self.mode
    }
}

fn make_request(name: &[u8], mode: Mode, fd_count: usize, packet_info: bool, non_blocking: bool) -> (r:
    CreationRequest)
    requires
        fd_count >= 1,
    ensures
        r.wf(),
        r.spec_mode() == mode,
        r.spec_fd_count() == fd_count,
        r.spec_packet_info() == packet_info,
        r.spec_non_blocking() == non_blocking,
        r.spec_ifr() == spec_flags_ifreq(
            name@,
            spec_creation_word(mode, packet_info, fd_count as int),
        ),
{
    let base = mode.flag_bits();
    let with_pi = if !packet_info {
        base | IFF_NO_PI
    } else {
        base
    };
    let w = if fd_count > 1 {
        with_pi | IFF_MULTI_QUEUE
    } else {
        with_pi
    };
    let mut ifr = IfReq::new(name);
    ifr.set_flags_word(w);
    proof {
        assert(ifr@ =~= spec_flags_ifreq(name@, w));
        assert(spec_le16_bytes(w)[0] == ifr@[16] && spec_le16_bytes(w)[1] == ifr@[17]);
    }
    CreationRequest { ifr, mode, fd_count, packet_info, non_blocking }
}

/// Validates creation parameters and encodes the creation request.
/// A zero descriptor count is a caller error, refused before anything
/// else could happen; every other combination is accepted.
pub fn creation_request(
    name: &[u8],
    mode: Mode,
    fd_count: usize,
    packet_info: bool,
    non_blocking: bool,
) -> (r: Result<CreationRequest, Error>)
    ensures
        r is Ok <==> fd_count >= 1,
        r is Err ==> r->Err_0 == Error::ZeroDevices,
        r is Ok ==> ({
            let q = r->Ok_0;
            &&& q.wf()
            &&& q.spec_mode() == mode
            &&& q.spec_fd_count() == fd_count
            &&& q.spec_packet_info() == packet_info
            &&& q.spec_non_blocking() == non_blocking
            &&& q.spec_ifr() == spec_flags_ifreq(
                name@,
                spec_creation_word(mode, packet_info, fd_count as int),
            )
        }),
{
    if fd_count == 0 {
        Err(Error::ZeroDevices)
    } else {
        Ok(make_request(name, mode, fd_count, packet_info, non_blocking))
    }
}

/// One open descriptor bound to a kernel interface, together with the
/// negotiated interface name and the two control sockets that attribute
/// operations are issued against.  The name and the sockets are
/// interface state shared by every sibling handle; the descriptor is
/// owned by this handle alone.
pub struct Dev {
    fd: i32,
    name: Vec<u8>,
    mode: Mode,
    non_blocking: bool,
    sock4: i32,
    sock6: i32,
}

impl Dev {
    pub closed spec fn spec_fd(&self) -> i32 {
        self.fd
    }

    pub closed spec fn spec_name(&self) -> Seq<u8> {
        self.name@
    }

    pub closed spec fn spec_mode(&self) -> Mode {
        self.mode
    }

    pub closed spec fn spec_non_blocking(&self) -> bool {
        self.non_blocking
    }

    pub closed spec fn spec_sock4(&self) -> i32 {
        self.sock4
    }

    pub closed spec fn spec_sock6(&self) -> i32 {
        self.sock6
    }

    /// Validity: the negotiated name is non-empty and encodes losslessly
    /// into every later request's name field.
    pub open spec fn wf(&self) -> bool {
        self.spec_name().len() >= 1 && spec_name_encodable(self.spec_name())
    }

    /// Builds one handle from the kernel's reply to `TUNSETIFF`.  The
    /// authoritative name is the one the kernel wrote back into the
    /// request, never the one asked for.  A reply whose name field is
    /// empty or lacks a terminator is rejected.
    pub fn assemble(req: &CreationRequest, fd: i32, reply: &IfReq, sock4: i32, sock6: i32) -> (r:
        Result<Dev, Error>)
        requires
            reply.wf(),
        ensures
            r is Ok <==> 1 <= spec_iface_name(reply@).len() <= 15,
            r is Err ==> r->Err_0 == Error::BadName,
            r is Ok ==> ({
                let d = r->Ok_0;
                &&& d.wf()
                &&& d.spec_name() == spec_iface_name(reply@)
                &&& d.spec_fd() == fd
                &&& d.spec_mode() == req.spec_mode()
                &&& d.spec_non_blocking() == req.spec_non_blocking()
                &&& d.spec_sock4() == sock4
                &&& d.spec_sock6() == sock6
            }),
    {
        let name = reply.name();
        if name.len() >= 1 && name.len() <= 15 {
            proof {
                lemma_iface_name_encodable(reply@);
            }
            Ok(Dev {
                fd,
                name,
                mode: req.mode,
                non_blocking: req.non_blocking,
                sock4,
                sock6,
            })
        } else {
            Err(Error::BadName)
        }
    }

    /// The interface name the kernel chose.
    pub fn name(&self) -> (r: &Vec<u8>)
        ensures
            r@ == self.spec_name(),
    {
        &self.name
    }

    /// The device descriptor the data path runs on.
    pub fn fd(&self) -> (r: i32)
        ensures
            r == self.spec_fd(),
    {
        self.fd
    }

    /// The IPv4 control socket attribute ioctls are issued against.
    pub fn sock4(&self) -> (r: i32)
        ensures
            r == self.spec_sock4(),
    {
        self.sock4
    }

    /// The IPv6 control socket address ioctls are issued against.
    pub fn sock6(&self) -> (r: i32)
        ensures
            r == self.spec_sock6(),
    {
        self.sock6
    }

    pub fn mode(&self) -> (r: Mode)
        ensures
            r == self.spec_mode(),
    {
        self.mode
    }

    pub fn non_blocking(&self) -> (r: bool)
        ensures
            r == self.spec_non_blocking(),
    {
        self.non_blocking
    }

    fn new_ifreq(&self) -> (r: IfReq)
        requires
            self.wf(),
        ensures
            r.wf(),
            r@ == spec_name_ifreq(self.spec_name()),
    {
        IfReq::new(self.name.as_slice())
    }

    fn query(&self, code: u64) -> (r: (u64, IfReq))
        requires
            self.wf(),
        ensures
            r.0 == code,
            r.1.wf(),
            r.1@ == spec_name_ifreq(self.spec_name()),
    {
        (code, self.new_ifreq())
    }

    fn flags_request(&self, code: u64, w: u16) -> (r: (u64, IfReq))
        requires
            self.wf(),
        ensures
            r.0 == code,
            r.1.wf(),
            r.1@ == spec_flags_ifreq(self.spec_name(), w),
    {
        let mut ifr = self.new_ifreq();
        ifr.set_flags_word(w);
        proof {
            assert(ifr@ =~= spec_flags_ifreq(self.spec_name(), w));
        }
        (code, ifr)
    }

    fn addr_request(&self, code: u64, a: &Ipv4Addr) -> (r: (u64, IfReq))
        requires
            self.wf(),

        ensures
            r.0 == code,
            r.1.wf(),
            r.1@ == spec_addr_ifreq(self.spec_name(), a@),
    {
        let mut ifr = self.new_ifreq();
        ifr.set_ipv4(a);
        proof {
            assert(ifr@ =~= spec_addr_ifreq(self.spec_name(), a@));
        }
        (code, ifr)
    }

    /// The operation that reads the administrative flag word, for the
    /// IPv4 control socket.
    pub fn read_flags_request(&self) -> (r: (u64, IfReq))
        requires
            self.wf(),
        ensures
            r.0 == SIOCGIFFLAGS,
            r.1.wf(),
            r.1@ == spec_name_ifreq(self.spec_name()),
    {
        self.query(SIOCGIFFLAGS)
    }

    /// The operation that brings the interface up: writes back the
    /// currently reported word with `IFF_UP | IFF_RUNNING` OR-ed in.
    pub fn bring_up_request(&self, current: u16) -> (r: (u64, IfReq))
        requires
            self.wf(),
        ensures
            r.0 == SIOCSIFFLAGS,
            r.1.wf(),
            r.1@ == spec_flags_ifreq(self.spec_name(), spec_up_word(current)),
    {
        let w = up_word(current);
        self.flags_request(SIOCSIFFLAGS, w)
    }

    /// The operation that brings the interface down: writes back the
    /// currently reported word with `IFF_UP | IFF_RUNNING` cleared.
    pub fn bring_down_request(&self, current: u16) -> (r: (u64, IfReq))
        requires
            self.wf(),
        ensures
            r.0 == SIOCSIFFLAGS,
            r.1.wf(),
            r.1@ == spec_flags_ifreq(self.spec_name(), spec_down_word(current)),
    {
        let w = down_word(current);
        self.flags_request(SIOCSIFFLAGS, w)
    }

    /// The operation that writes the MTU.  The kernel field is a signed
    /// 32-bit integer, so the value must fit it.
    pub fn set_mtu_request(&self, mtu: u32) -> (r: (u64, IfReq))
        requires
            self.wf(),
            mtu <= 0x7fffffff,
        ensures
            r.0 == SIOCSIFMTU,
            r.1.wf(),
            r.1@ == spec_ivalue_ifreq(self.spec_name(), mtu),
    {
        let mut ifr = self.new_ifreq();
        ifr.set_ivalue(mtu);
        proof {
            assert(ifr@ =~= spec_ivalue_ifreq(self.spec_name(), mtu));
        }
        (SIOCSIFMTU, ifr)
    }

    /// The operation that reads the MTU.
    pub fn get_mtu_request(&self) -> (r: (u64, IfReq))
        requires
            self.wf(),
        ensures
            r.0 == SIOCGIFMTU,
            r.1.wf(),
            r.1@ == spec_name_ifreq(self.spec_name()),
    {
        self.query(SIOCGIFMTU)
    }

    /// The operation that reads the interface index, which IPv6 address
    /// operations need.
    pub fn get_index_request(&self) -> (r: (u64, IfReq))
        requires
            self.wf(),
        ensures
            r.0 == SIOCGIFINDEX,
            r.1.wf(),
            r.1@ == spec_name_ifreq(self.spec_name()),
    {
        self.query(SIOCGIFINDEX)
    }

    /// The operation that writes the IPv4 address.
    pub fn set_addr_request(&self, a: &Ipv4Addr) -> (r: (u64, IfReq))
        requires
            self.wf(),
        ensures
            r.0 == SIOCSIFADDR,
            r.1.wf(),
            r.1@ == spec_addr_ifreq(self.spec_name(), a@),
    {
        self.addr_request(SIOCSIFADDR, a)
    }

    /// The operation that reads the IPv4 address.
    pub fn get_addr_request(&self) -> (r: (u64, IfReq))
        requires
            self.wf(),
        ensures
            r.0 == SIOCGIFADDR,
            r.1.wf(),
            r.1@ == spec_name_ifreq(self.spec_name()),
    {
        self.query(SIOCGIFADDR)
    }

    /// The operation that deletes the IPv4 address: the kernel drops the
    /// binding when the all-zero address is written.
    pub fn del_addr_request(&self) -> (r: (u64, IfReq))
        requires
            self.wf(),
        ensures
            r.0 == SIOCSIFADDR,
            r.1.wf(),
            r.1@ == spec_addr_ifreq(self.spec_name(), seq![0u8, 0u8, 0u8, 0u8]),
    {
        let zero = Ipv4Addr::new(0, 0, 0, 0);
        self.addr_request(SIOCSIFADDR, &zero)
    }

    /// The operation that writes the netmask.
    pub fn set_netmask_request(&self, a: &Ipv4Addr) -> (r: (u64, IfReq))
        requires
            self.wf(),
        ensures
            r.0 == SIOCSIFNETMASK,
            r.1.wf(),
            r.1@ == spec_addr_ifreq(self.spec_name(), a@),
    {
        self.addr_request(SIOCSIFNETMASK, a)
    }

    /// The operation that reads the netmask.
    pub fn get_netmask_request(&self) -> (r: (u64, IfReq))
        requires
            self.wf(),
        ensures
            r.0 == SIOCGIFNETMASK,
            r.1.wf(),
            r.1@ == spec_name_ifreq(self.spec_name()),
    {
        self.query(SIOCGIFNETMASK)
    }

    /// The operation that writes the broadcast address.
    pub fn set_brd_addr_request(&self, a: &Ipv4Addr) -> (r: (u64, IfReq))
        requires
            self.wf(),
        ensures
            r.0 == SIOCSIFBRDADDR,
            r.1.wf(),
            r.1@ == spec_addr_ifreq(self.spec_name(), a@),
    {
        self.addr_request(SIOCSIFBRDADDR, a)
    }

    /// The operation that reads the broadcast address.
    pub fn get_brd_addr_request(&self) -> (r: (u64, IfReq))
        requires
            self.wf(),
        ensures
            r.0 == SIOCGIFBRDADDR,
            r.1.wf(),
            r.1@ == spec_name_ifreq(self.spec_name()),
    {
        self.query(SIOCGIFBRDADDR)
    }

    /// The operation that writes the point-to-point destination address.
    pub fn set_dst_addr_request(&self, a: &Ipv4Addr) -> (r: (u64, IfReq))
        requires
            self.wf(),
        ensures
            r.0 == SIOCSIFDSTADDR,
            r.1.wf(),
            r.1@ == spec_addr_ifreq(self.spec_name(), a@),
    {
        self.addr_request(SIOCSIFDSTADDR, a)
    }

    /// The operation that reads the point-to-point destination address.
    pub fn get_dst_addr_request(&self) -> (r: (u64, IfReq))
        requires
            self.wf(),
        ensures
            r.0 == SIOCGIFDSTADDR,
            r.1.wf(),
            r.1@ == spec_name_ifreq(self.spec_name()),
    {
        self.query(SIOCGIFDSTADDR)
    }

    /// The operation that adds an IPv6 address, for the IPv6 control
    /// socket.  IPv6 ioctls address the interface by index, so the
    /// index read back from `SIOCGIFINDEX` is taken as an argument.
    pub fn add_ipv6_request(&self, addr: &Ipv6Addr, prefix_len: u32, index: u32) -> (r: (
        u64,
        In6Req,
    ))
        requires
            self.wf(),
            prefix_len <= 128,
        ensures
            r.0 == SIOCSIFADDR,
            r.1.wf(),
            r.1@ == addr@ + spec_le32_bytes(prefix_len) + spec_le32_bytes(index),
    {
        (SIOCSIFADDR, In6Req::new(addr, prefix_len, index))
    }

    /// The operation that deletes an IPv6 address, for the IPv6 control
    /// socket.
    pub fn del_ipv6_request(&self, addr: &Ipv6Addr, prefix_len: u32, index: u32) -> (r: (
        u64,
        In6Req,
    ))
        requires
            self.wf(),
            prefix_len <= 128,
        ensures
            r.0 == SIOCDIFADDR,
            r.1.wf(),
            r.1@ == addr@ + spec_le32_bytes(prefix_len) + spec_le32_bytes(index),
    {
        (SIOCDIFADDR, In6Req::new(addr, prefix_len, index))
    }

    /// The operation that makes the interface persistent, or undoes
    /// that; issued on the device descriptor, with the flag as the
    /// ioctl's integer argument.
    pub fn set_persist_request(&self, persist: bool) -> (r: (u64, u64))
        requires
            self.wf(),
        ensures
            r.0 == TUNSETPERSIST,
            r.1 == if persist {
                1u64
            } else {
                0u64
            },
    {
        (TUNSETPERSIST, if persist { 1 } else { 0 })
    }

    /// The operation that assigns the interface to a user, so a
    /// non-root process can use a persistent interface.
    pub fn set_owner_request(&self, owner: u32) -> (r: (u64, u64))
        requires
            self.wf(),
        ensures
            r.0 == TUNSETOWNER,
            r.1 == owner as u64,
    {
        (TUNSETOWNER, owner as u64)
    }

    /// The operation that assigns the interface to a group.
    pub fn set_group_request(&self, group: u32) -> (r: (u64, u64))
        requires
            self.wf(),
        ensures
            r.0 == TUNSETGROUP,
            r.1 == group as u64,
    {
        (TUNSETGROUP, group as u64)
    }

    pub(crate) fn hw_set_request(&self, m: &MacAddr) -> (r: (u64, IfReq))
        requires
            self.wf(),
        ensures
            r.0 == SIOCSIFHWADDR,
            r.1.wf(),
            r.1@ == spec_hw_ifreq(self.spec_name(), m@),
    {
        let mut ifr = self.new_ifreq();
        ifr.set_hwaddr(m);
        proof {
            assert(ifr@ =~= spec_hw_ifreq(self.spec_name(), m@));
        }
        (SIOCSIFHWADDR, ifr)
    }

    pub(crate) fn hw_get_request(&self) -> (r: (u64, IfReq))
        requires
            self.wf(),
        ensures
            r.0 == SIOCGIFHWADDR,
            r.1.wf(),
            r.1@ == spec_name_ifreq(self.spec_name()),
    {
        self.query(SIOCGIFHWADDR)
    }

    /// Writes one packet from `buf` to the device descriptor; on
    /// success at most `buf`'s length was written.  On a non-blocking
    /// handle a would-block outcome surfaces as the distinguished
    /// error.
    pub fn send(&self, buf: &Vec<u8>) -> (r: Result<usize, Error>)
        ensures
            r is Ok ==> r->Ok_0 <= buf@.len(),
            r is Err ==> r->Err_0 is Os,
    {
        match sys_write(self.fd, buf) {
            Ok(n) => Ok(n),
            Err(e) => Err(Error::Os(e)),
        }
    }

    /// Reads one packet from the device descriptor into a prefix of
    /// `buf`, whose length is unchanged; on success at most `buf`'s
    /// length was read.  On a non-blocking handle a would-block outcome
    /// surfaces as the distinguished error.
    pub fn recv(&self, buf: &mut Vec<u8>) -> (r: Result<usize, Error>)
        ensures
            final(buf)@.len() == old(buf)@.len(),
            r is Ok ==> r->Ok_0 <= old(buf)@.len(),
            r is Err ==> r->Err_0 is Os,
    {
        match sys_read(self.fd, buf) {
            Ok(n) => Ok(n),
            Err(e) => Err(Error::Os(e)),
        }
    }

    /// Lists the interface's IPv6 addresses by filtering the system's
    /// address table down to this interface's name.  What the table
    /// holds depends on live kernel state, so the exact selection
    /// contract lives on [`select_ipv6_addrs`], which this calls on
    /// whatever the system reported.
    pub fn get_ipv6_addrs(&self) -> (r: Result<Vec<Ipv6Addr>, Error>)
        ensures
            r is Err ==> r->Err_0 is Os,
    {
        match sys_interface_addresses() {
            Ok(entries) => Ok(select_ipv6_addrs(&entries, &self.name)),
            Err(e) => Err(Error::Os(e)),
        }
    }
}

/// Decodes the kernel's reply to a flags read.  The reply word is 16
/// bits and every 16-bit pattern lies inside the recognized set, so
/// this decoding always succeeds; the error path of
/// [`Flags::try_from_bits`] is owed only to wider words.
pub fn decode_flags(reply: &IfReq) -> (r: Result<Flags, Error>)
    requires
        reply.wf(),
    ensures
        r is Ok,
        r->Ok_0.spec_bits() == spec_le16(reply@, 16),
        r->Ok_0.wf(),
{
    let w = reply.flags_word();
    let bits = w as u32;
    proof {
        assert(bits & FLAGS_MASK == bits) by (bit_vector)
            requires
                bits < 0x10000u32,
        ;
    }
    match Flags::try_from_bits(bits) {
        Ok(f) => Ok(f),
        Err(_) => vstd::pervasive::unreached(),
    }
}

/// Decodes the 32-bit integer member of a reply: the MTU after
/// `SIOCGIFMTU`, the interface index after `SIOCGIFINDEX`.
pub fn decode_ivalue(reply: &IfReq) -> (r: u32)
    requires
        reply.wf(),
    ensures
        r == spec_le32(reply@, 16),
{
    reply.ivalue()
}

/// Decodes the IPv4 address member of a reply, after any of the
/// address reads.
pub fn decode_addr(reply: &IfReq) -> (r: Ipv4Addr)
    requires
        reply.wf(),
    ensures
        r@ == spec_sockaddr_ipv4(reply@.subrange(16, 32)),
{
    reply.ipv4()
}

/// Decodes the hardware address member of a reply, after
/// `SIOCGIFHWADDR`.
pub fn decode_hwaddr(reply: &IfReq) -> (r: MacAddr)
    requires
        reply.wf(),
    ensures
        r@ == crate::addr::spec_sockaddr_hw(reply@.subrange(16, 32)),
{
    reply.hwaddr()
}

/// Relies on `nix::unistd::write`: writes from the buffer to the
/// descriptor and returns the number of bytes written, which `write(2)`
/// documents as at most the buffer's length, or the errno.
#[verifier::external_body]
fn sys_write(fd: i32, buf: &Vec<u8>) -> (r: Result<usize, i32>)
    ensures
        r is Ok ==> r->Ok_0 <= buf@.len(),
{
    match nix::unistd::write(fd, buf.as_slice()) {
        Ok(n) => Ok(n),
        Err(e) => Err(e as i32),
    }
}

/// Relies on `nix::unistd::read`: fills a prefix of the buffer and
/// returns the number of bytes read, which `read(2)` documents as at
/// most the buffer's length, or the errno.
#[verifier::external_body]
fn sys_read(fd: i32, buf: &mut Vec<u8>) -> (r: Result<usize, i32>)
    ensures
        final(buf)@.len() == old(buf)@.len(),
        r is Ok ==> r->Ok_0 <= old(buf)@.len(),
{
    match nix::unistd::read(fd, buf.as_mut_slice()) {
        Ok(n) => Ok(n),
        Err(e) => Err(e as i32),
    }
}

/// One entry of the system's interface-address table: an interface
/// name and, when the entry is an IPv6 binding, the address octets.
pub struct IfaceAddrEntry {
    pub name: Vec<u8>,
    pub ipv6: Option<Ipv6Addr>,
}

/// Relies on `nix::ifaddrs::getifaddrs`: lists the address bindings of
/// every interface in the system.  Which entries come back, and in what
/// order, depends on live kernel state, so nothing is promised of the
/// contents; each entry keeps its interface name and, for an IPv6
/// binding, the address.
#[verifier::external_body]
fn sys_interface_addresses() -> (r: Result<Vec<IfaceAddrEntry>, i32>)
{
    match nix::ifaddrs::getifaddrs() {
        Ok(it) => Ok(
            it.map(
                |ia| IfaceAddrEntry {
                    name: ia.interface_name.into_bytes(),
                    ipv6: ia.address.and_then(
                        |a| a.as_sockaddr_in6().map(|s6| Ipv6Addr::new(s6.ip().octets())),
                    ),
                },
            ).collect(),
        ),
        Err(e) => Err(e as i32),
    }
}

/// The IPv6 addresses of the entries whose interface name is `name`,
/// in table order.
pub open spec fn spec_select_ipv6(entries: Seq<IfaceAddrEntry>, name: Seq<u8>) -> Seq<Ipv6Addr>
    decreases entries.len(),
{
    if entries.len() == 0 {
        Seq::empty()
    } else {
        let rest = spec_select_ipv6(entries.drop_last(), name);
        let e = entries.last();
        if e.name@ == name && e.ipv6 is Some {
            rest.push(e.ipv6->0)
        } else {
            rest
        }
    }
}

fn bytes_eq(a: &Vec<u8>, b: &Vec<u8>) -> (r: bool)
    ensures
        r <==> a@ == b@,
{
    if a.len() != b.len() {
        return false;
    }
    let mut i: usize = 0;
    while i < a.len()
        invariant
            i <= a@.len(),
            a@.len() == b@.len(),
            forall|j: int| 0 <= j < i ==> a@[j] == b@[j],
        decreases a@.len() - i,
    {
        if a[i] != b[i] {
            return false;
        }
        i = i + 1;
    }
    proof {
        assert(a@ =~= b@);
    }
    true
}

/// Keeps, in order, the IPv6 addresses of the entries named `name`:
/// the verified selection that `get_ipv6_addrs` applies to the
/// system's address table.
pub fn select_ipv6_addrs(entries: &Vec<IfaceAddrEntry>, name: &Vec<u8>) -> (r: Vec<Ipv6Addr>)
    ensures
        r@ == spec_select_ipv6(entries@, name@),
{
    let mut r: Vec<Ipv6Addr> = Vec::new();
    let mut i: usize = 0;
    while i < entries.len()
        invariant
            i <= entries@.len(),
            r@ == spec_select_ipv6(entries@.subrange(0, i as int), name@),
        decreases entries@.len() - i,
    {
        let e = &entries[i];
        if bytes_eq(&e.name, name) {
            match e.ipv6 {
                Some(a) => r.push(a),
                None => (),
            }
        }
        proof {
            assert(entries@.subrange(0, i + 1).drop_last() =~= entries@.subrange(0, i as int));
            assert(entries@.subrange(0, i + 1).last() == entries@[i as int]);
        }
        i = i + 1;
    }
    proof {
        assert(entries@.subrange(0, entries@.len() as int) =~= entries@);
    }
    r
}

/// What one non-blocking I/O attempt decided: finish with a count,
/// fail, or wait for readiness and try again.
#[derive(Clone, Copy, Debug, PartialEq, Eq, Structural)]
pub enum IoStep {
    Done(usize),
    Fail(Error),
    Wait,
}

/// The retry decision of the non-blocking path: a would-block outcome
/// waits for readiness and retries; every other outcome finishes the
/// operation.  A spurious wakeup simply lands back in `Wait` on the
/// next attempt, so the loop never trusts a notification.
pub fn io_step(outcome: Result<usize, Error>) -> (r: IoStep)
    ensures
        outcome is Ok ==> r == IoStep::Done(outcome->Ok_0),
        outcome is Err && outcome->Err_0.spec_is_would_block() ==> r == IoStep::Wait,
        outcome is Err && !outcome->Err_0.spec_is_would_block() ==> r == IoStep::Fail(
            outcome->Err_0,
        ),
{
    match outcome {
        Ok(n) => IoStep::Done(n),
        Err(e) => if e.is_would_block() {
            IoStep::Wait
        } else {
            IoStep::Fail(e)
        },
    }
}

/// Round trip of the address field through a request: the octets
/// decoded from the bytes a set-address request carries are exactly
/// the octets written, for every address — the all-zero and all-ones
/// addresses included.  The same bytes serve the netmask, broadcast
/// and destination operations.
pub proof fn lemma_addr_request_round_trip(name: Seq<u8>, a: Seq<u8>)
    requires
        a.len() == 4,
    ensures
        spec_sockaddr_ipv4(spec_addr_ifreq(name, a).subrange(16, 32)) == a,
{
    assert(spec_addr_ifreq(name, a).subrange(16, 32) =~= spec_ipv4_sockaddr(a));
    lemma_ipv4_sockaddr_round_trip(a);
}

/// Round trip of the MTU field through a request: the value decoded
/// from the bytes a set-MTU request carries is exactly the value
/// written, for every value the field can hold.
pub proof fn lemma_mtu_request_round_trip(name: Seq<u8>, mtu: u32)
    ensures
        spec_le32(spec_ivalue_ifreq(name, mtu), 16) == mtu,
{
    let s = spec_ivalue_ifreq(name, mtu);
    let b = spec_le32_bytes(mtu);
    assert(s[16] == b[0] && s[17] == b[1] && s[18] == b[2] && s[19] == b[3]);
    lemma_le32_round_trip(mtu);
}

/// Round trip of the flag word through a request: the word decoded
/// from the bytes a write-flags request carries is exactly the word
/// written.
pub proof fn lemma_flags_request_round_trip(name: Seq<u8>, w: u16)
    ensures
        spec_le16(spec_flags_ifreq(name, w), 16) == w,
{
    let s = spec_flags_ifreq(name, w);
    let b = spec_le16_bytes(w);
    assert(s[16] == b[0] && s[17] == b[1]);
    lemma_le16_round_trip(w);
}

/// Round trip of the hardware address through a request: the octets
/// decoded from the bytes a set-hardware-address request carries are
/// exactly the octets written.
pub proof fn lemma_hw_request_round_trip(name: Seq<u8>, m: Seq<u8>)
    requires
        m.len() == 6,
    ensures
        spec_sockaddr_hw(spec_hw_ifreq(name, m).subrange(16, 32)) == m,
{
    assert(spec_hw_ifreq(name, m).subrange(16, 32) =~= spec_hw_sockaddr(m));
    lemma_hw_sockaddr_round_trip(m);
}

/// What a bring-up writes is visible to the very next flags read: the
/// word carried by the bring-up request contains `IFF_UP | IFF_RUNNING`,
/// and the word carried by a bring-down request contains neither bit —
/// whatever word the kernel reported before.
pub proof fn lemma_up_down_requests_visible(name: Seq<u8>, current: u16)
    ensures
        spec_le16(spec_flags_ifreq(name, spec_up_word(current)), 16) == spec_up_word(current),
        spec_up_word(current) & UP_RUNNING_WORD == UP_RUNNING_WORD,
        spec_le16(spec_flags_ifreq(name, spec_down_word(current)), 16) == spec_down_word(current),
        spec_down_word(current) & UP_RUNNING_WORD == 0,
{
    lemma_flags_request_round_trip(name, spec_up_word(current));
    lemma_flags_request_round_trip(name, spec_down_word(current));
    crate::flags::lemma_up_down_bits(current);
}

/// Sibling multiqueue handles are assembled from one creation reply,
/// so they share one interface identity: their names are equal, and
/// every attribute operation they build addresses the same kernel
/// interface.
pub proof fn lemma_siblings_share_name(d1: Dev, d2: Dev, reply: Seq<u8>)
    requires
        d1.spec_name() == spec_iface_name(reply),
        d2.spec_name() == spec_iface_name(reply),
    ensures
        d1.spec_name() == d2.spec_name(),
{
}

} // verus!
