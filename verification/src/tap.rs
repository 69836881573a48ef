//! The TAP (Ethernet-layer) handle family: blocking, multiqueue and
//! non-blocking variants.
//!
//! A TAP interface has a hardware address, so the hardware-address
//! operations live on these types and only on them: a TUN handle
//! cannot even phrase the request.

use vstd::prelude::*;

use crate::addr::MacAddr;
use crate::device::{
    creation_request, spec_creation_word, spec_flags_ifreq, spec_hw_ifreq, spec_name_ifreq,
    CreationRequest, Dev,
};
use crate::error::Error;
use crate::flags::{Mode, IFF_ATTACH_QUEUE, IFF_DETACH_QUEUE};
use crate::request::{spec_iface_name, IfReq, SIOCGIFHWADDR, SIOCSIFHWADDR, TUNSETQUEUE};
use crate::tun::queue_request;

verus! {

/// A blocking TAP handle: one descriptor, synchronous data path.
pub struct Tap {
    dev: Dev,
}

impl Tap {
    pub closed spec fn spec_dev(&self) -> Dev {
        self.dev
    }

    pub open spec fn wf(&self) -> bool {
        &&& self.spec_dev().wf()
        &&& self.spec_dev().spec_mode() == Mode::Tap
        &&& !self.spec_dev().spec_non_blocking()
    }

    /// The creation ask for a blocking TAP interface without the
    /// packet-information header.
    pub fn without_packet_info(name: &[u8]) -> (r: CreationRequest)
        ensures
            r.wf(),
            r.spec_mode() == Mode::Tap,
            r.spec_fd_count() == 1,
            !r.spec_packet_info(),
            !r.spec_non_blocking(),
            r.spec_ifr() == spec_flags_ifreq(name@, spec_creation_word(Mode::Tap, false, 1)),
    {
        match creation_request(name, Mode::Tap, 1, false, false) {
            Ok(q) => q,
            Err(_) => vstd::pervasive::unreached(),
        }
    }

    /// The creation ask for a blocking TAP interface with the
    /// packet-information header.
    pub fn with_packet_info(name: &[u8]) -> (r: CreationRequest)
        ensures
            r.wf(),
            r.spec_mode() == Mode::Tap,
            r.spec_fd_count() == 1,
            r.spec_packet_info(),
            !r.spec_non_blocking(),
            r.spec_ifr() == spec_flags_ifreq(name@, spec_creation_word(Mode::Tap, true, 1)),
    {
        match creation_request(name, Mode::Tap, 1, true, false) {
            Ok(q) => q,
            Err(_) => vstd::pervasive::unreached(),
        }
    }

    /// Builds the handle from the kernel's creation reply.
    pub fn assemble(req: &CreationRequest, fd: i32, reply: &IfReq, sock4: i32, sock6: i32) -> (r:
        Result<Tap, Error>)
        requires
            reply.wf(),
            req.spec_mode() == Mode::Tap,
            !req.spec_non_blocking(),
        ensures
            r is Ok <==> 1 <= spec_iface_name(reply@).len() <= 15,
            r is Err ==> r->Err_0 == Error::BadName,
            r is Ok ==> ({
                let d = r->Ok_0.spec_dev();
                &&& r->Ok_0.wf()
                &&& d.spec_name() == spec_iface_name(reply@)
                &&& d.spec_fd() == fd
                &&& d.spec_sock4() == sock4
                &&& d.spec_sock6() == sock6
            }),
    {
        match Dev::assemble(req, fd, reply, sock4, sock6) {
            Ok(d) => Ok(Tap { dev: d }),
            Err(e) => Err(e),
        }
    }

    /// The operation that writes the hardware address.
    pub fn set_hwaddr_request(&self, m: &MacAddr) -> (r: (u64, IfReq))
        requires
            self.wf(),
        ensures
            r.0 == SIOCSIFHWADDR,
            r.1.wf(),
            r.1@ == spec_hw_ifreq(self.spec_dev().spec_name(), m@),
    {
        self.dev.hw_set_request(m)
    }

    /// The operation that reads the hardware address.
    pub fn get_hwaddr_request(&self) -> (r: (u64, IfReq))
        requires
            self.wf(),
        ensures
            r.0 == SIOCGIFHWADDR,
            r.1.wf(),
            r.1@ == spec_name_ifreq(self.spec_dev().spec_name()),
    {
        self.dev.hw_get_request()
    }

    /// The underlying device, for its operations.
    pub fn dev(&self) -> (r: &Dev)
        ensures
            *r == self.spec_dev(),
    {
        &self.dev
    }
}

/// One queue of a blocking multiqueue TAP interface.
pub struct MQTap {
    dev: Dev,
}

impl MQTap {
    pub closed spec fn spec_dev(&self) -> Dev {
        self.dev
    }

    pub open spec fn wf(&self) -> bool {
        &&& self.spec_dev().wf()
        &&& self.spec_dev().spec_mode() == Mode::Tap
        &&& !self.spec_dev().spec_non_blocking()
    }

    /// The creation ask for `len` queues without the
    /// packet-information header.  A zero count is the dedicated
    /// caller error, refused before any descriptor could be opened.
    pub fn without_packet_info(name: &[u8], len: usize) -> (r: Result<CreationRequest, Error>)
        ensures
            r is Ok <==> len >= 1,
            r is Err ==> r->Err_0 == Error::ZeroDevices,
            r is Ok ==> ({
                let q = r->Ok_0;
                &&& q.wf()
                &&& q.spec_mode() == Mode::Tap
                &&& q.spec_fd_count() == len
                &&& !q.spec_packet_info()
                &&& !q.spec_non_blocking()
                &&& q.spec_ifr() == spec_flags_ifreq(
                    name@,
                    spec_creation_word(Mode::Tap, false, len as int),
                )
            }),
    {
        creation_request(name, Mode::Tap, len, false, false)
    }

    /// The creation ask for `len` queues with the packet-information
    /// header.  A zero count is the dedicated caller error.
    pub fn with_packet_info(name: &[u8], len: usize) -> (r: Result<CreationRequest, Error>)
        ensures
            r is Ok <==> len >= 1,
            r is Err ==> r->Err_0 == Error::ZeroDevices,
            r is Ok ==> ({
                let q = r->Ok_0;
                &&& q.wf()
                &&& q.spec_mode() == Mode::Tap
                &&& q.spec_fd_count() == len
                &&& q.spec_packet_info()
                &&& !q.spec_non_blocking()
                &&& q.spec_ifr() == spec_flags_ifreq(
                    name@,
                    spec_creation_word(Mode::Tap, true, len as int),
                )
            }),
    {
        creation_request(name, Mode::Tap, len, true, false)
    }

    /// Builds one queue handle from the kernel's creation reply; called
    /// once per opened descriptor, with the same reply each time, so
    /// every sibling carries the same interface name.
    pub fn assemble(req: &CreationRequest, fd: i32, reply: &IfReq, sock4: i32, sock6: i32) -> (r:
        Result<MQTap, Error>)
        requires
            reply.wf(),
            req.spec_mode() == Mode::Tap,
            !req.spec_non_blocking(),
        ensures
            r is Ok <==> 1 <= spec_iface_name(reply@).len() <= 15,
            r is Err ==> r->Err_0 == Error::BadName,
            r is Ok ==> ({
                let d = r->Ok_0.spec_dev();
                &&& r->Ok_0.wf()
                &&& d.spec_name() == spec_iface_name(reply@)
                &&& d.spec_fd() == fd
                &&& d.spec_sock4() == sock4
                &&& d.spec_sock6() == sock6
            }),
    {
        match Dev::assemble(req, fd, reply, sock4, sock6) {
            Ok(d) => Ok(MQTap { dev: d }),
            Err(e) => Err(e),
        }
    }

    /// The operation that puts this queue back in service, issued on
    /// the queue's own descriptor.
    pub fn attach_request(&self) -> (r: (u64, IfReq))
        ensures
            r.0 == TUNSETQUEUE,
            r.1.wf(),
            r.1@ == spec_flags_ifreq(Seq::empty(), IFF_ATTACH_QUEUE),
    {
        queue_request(IFF_ATTACH_QUEUE)
    }

    /// The operation that takes this queue out of service, issued on
    /// the queue's own descriptor.
    pub fn detach_request(&self) -> (r: (u64, IfReq))
        ensures
            r.0 == TUNSETQUEUE,
            r.1.wf(),
            r.1@ == spec_flags_ifreq(Seq::empty(), IFF_DETACH_QUEUE),
    {
        queue_request(IFF_DETACH_QUEUE)
    }

    /// The operation that writes the hardware address.
    pub fn set_hwaddr_request(&self, m: &MacAddr) -> (r: (u64, IfReq))
        requires
            self.wf(),
        ensures
            r.0 == SIOCSIFHWADDR,
            r.1.wf(),
            r.1@ == spec_hw_ifreq(self.spec_dev().spec_name(), m@),
    {
        self.dev.hw_set_request(m)
    }

    /// The operation that reads the hardware address.
    pub fn get_hwaddr_request(&self) -> (r: (u64, IfReq))
        requires
            self.wf(),
        ensures
            r.0 == SIOCGIFHWADDR,
            r.1.wf(),
            r.1@ == spec_name_ifreq(self.spec_dev().spec_name()),
    {
        self.dev.hw_get_request()
    }

    /// The underlying device, for its operations.
    pub fn dev(&self) -> (r: &Dev)
        ensures
            *r == self.spec_dev(),
    {
        &self.dev
    }
}

/// A non-blocking TAP handle.
pub struct AsyncTap {
    dev: Dev,
}

impl AsyncTap {
    pub closed spec fn spec_dev(&self) -> Dev {
        self.dev
    }

    pub open spec fn wf(&self) -> bool {
        &&& self.spec_dev().wf()
        &&& self.spec_dev().spec_mode() == Mode::Tap
        &&& self.spec_dev().spec_non_blocking()
    }

    /// The creation ask for a non-blocking TAP interface without the
    /// packet-information header.
    pub fn without_packet_info(name: &[u8]) -> (r: CreationRequest)
        ensures
            r.wf(),
            r.spec_mode() == Mode::Tap,
            r.spec_fd_count() == 1,
            !r.spec_packet_info(),
            r.spec_non_blocking(),
            r.spec_ifr() == spec_flags_ifreq(name@, spec_creation_word(Mode::Tap, false, 1)),
    {
        match creation_request(name, Mode::Tap, 1, false, true) {
            Ok(q) => q,
            Err(_) => vstd::pervasive::unreached(),
        }
    }

    /// The creation ask for a non-blocking TAP interface with the
    /// packet-information header.
    pub fn with_packet_info(name: &[u8]) -> (r: CreationRequest)
        ensures
            r.wf(),
            r.spec_mode() == Mode::Tap,
            r.spec_fd_count() == 1,
            r.spec_packet_info(),
            r.spec_non_blocking(),
            r.spec_ifr() == spec_flags_ifreq(name@, spec_creation_word(Mode::Tap, true, 1)),
    {
        match creation_request(name, Mode::Tap, 1, true, true) {
            Ok(q) => q,
            Err(_) => vstd::pervasive::unreached(),
        }
    }

    /// Builds the handle from the kernel's creation reply.
    pub fn assemble(req: &CreationRequest, fd: i32, reply: &IfReq, sock4: i32, sock6: i32) -> (r:
        Result<AsyncTap, Error>)
        requires
            reply.wf(),
            req.spec_mode() == Mode::Tap,
            req.spec_non_blocking(),
        ensures
            r is Ok <==> 1 <= spec_iface_name(reply@).len() <= 15,
            r is Err ==> r->Err_0 == Error::BadName,
            r is Ok ==> ({
                let d = r->Ok_0.spec_dev();
                &&& r->Ok_0.wf()
                &&& d.spec_name() == spec_iface_name(reply@)
                &&& d.spec_fd() == fd
                &&& d.spec_sock4() == sock4
                &&& d.spec_sock6() == sock6
            }),
    {
        match Dev::assemble(req, fd, reply, sock4, sock6) {
            Ok(d) => Ok(AsyncTap { dev: d }),
            Err(e) => Err(e),
        }
    }

    /// One immediate receive attempt on the non-blocking descriptor:
    /// either data, or an error of which the would-block condition is
    /// the recoverable one.
    pub fn try_recv(&self, buf: &mut Vec<u8>) -> (r: Result<usize, Error>)
        ensures
            final(buf)@.len() == old(buf)@.len(),
            r is Ok ==> r->Ok_0 <= old(buf)@.len(),
            r is Err ==> r->Err_0 is Os,
    {
        self.dev.recv(buf)
    }

    /// One immediate send attempt on the non-blocking descriptor.
    pub fn try_send(&self, buf: &Vec<u8>) -> (r: Result<usize, Error>)
        ensures
            r is Ok ==> r->Ok_0 <= buf@.len(),
            r is Err ==> r->Err_0 is Os,
    {
        self.dev.send(buf)
    }

    /// The operation that writes the hardware address.
    pub fn set_hwaddr_request(&self, m: &MacAddr) -> (r: (u64, IfReq))
        requires
            self.wf(),
        ensures
            r.0 == SIOCSIFHWADDR,
            r.1.wf(),
            r.1@ == spec_hw_ifreq(self.spec_dev().spec_name(), m@),
    {
        self.dev.hw_set_request(m)
    }

    /// The operation that reads the hardware address.
    pub fn get_hwaddr_request(&self) -> (r: (u64, IfReq))
        requires
            self.wf(),
        ensures
            r.0 == SIOCGIFHWADDR,
            r.1.wf(),
            r.1@ == spec_name_ifreq(self.spec_dev().spec_name()),
    {
        self.dev.hw_get_request()
    }

    /// The underlying device, for its operations.
    pub fn dev(&self) -> (r: &Dev)
        ensures
            *r == self.spec_dev(),
    {
        &self.dev
    }
}

} // verus!
