//! The TUN (IP-layer) handle family: blocking, multiqueue and
//! non-blocking variants.
//!
//! Each constructor encodes the creation ask for its variant; the
//! embedding program opens `/dev/net/tun`, issues the `TUNSETIFF`
//! ioctl and the two control-socket opens, and hands the results to
//! `assemble`, which builds the handle around the name the kernel
//! chose.

use vstd::prelude::*;

use crate::device::{
    creation_request, spec_creation_word, spec_flags_ifreq, CreationRequest, Dev,
};
use crate::error::Error;
use crate::flags::{Mode, IFF_ATTACH_QUEUE, IFF_DETACH_QUEUE};
use crate::request::{spec_iface_name, IfReq, TUNSETQUEUE};

verus! {

/// A blocking TUN handle: one descriptor, synchronous data path.
pub struct Tun {
    dev: Dev,
}

impl Tun {
    pub closed spec fn spec_dev(&self) -> Dev {
        self.dev
    }

    pub open spec fn wf(&self) -> bool {
        &&& self.spec_dev().wf()
        &&& self.spec_dev().spec_mode() == Mode::Tun
        &&& !self.spec_dev().spec_non_blocking()
    }

    /// The creation ask for a blocking TUN interface without the
    /// packet-information header.
    pub fn without_packet_info(name: &[u8]) -> (r: CreationRequest)
        ensures
            r.wf(),
            r.spec_mode() == Mode::Tun,
            r.spec_fd_count() == 1,
            !r.spec_packet_info(),
            !r.spec_non_blocking(),
            r.spec_ifr() == spec_flags_ifreq(name@, spec_creation_word(Mode::Tun, false, 1)),
    {
        match creation_request(name, Mode::Tun, 1, false, false) {
            Ok(q) => q,
            Err(_) => vstd::pervasive::unreached(),
        }
    }

    /// The creation ask for a blocking TUN interface with the
    /// packet-information header.
    pub fn with_packet_info(name: &[u8]) -> (r: CreationRequest)
        ensures
            r.wf(),
            r.spec_mode() == Mode::Tun,
            r.spec_fd_count() == 1,
            r.spec_packet_info(),
            !r.spec_non_blocking(),
            r.spec_ifr() == spec_flags_ifreq(name@, spec_creation_word(Mode::Tun, true, 1)),
    {
        match creation_request(name, Mode::Tun, 1, true, false) {
            Ok(q) => q,
            Err(_) => vstd::pervasive::unreached(),
        }
    }

    /// Builds the handle from the kernel's creation reply.
    pub fn assemble(req: &CreationRequest, fd: i32, reply: &IfReq, sock4: i32, sock6: i32) -> (r:
        Result<Tun, Error>)
        requires
            reply.wf(),
            req.spec_mode() == Mode::Tun,
            !req.spec_non_blocking(),
        ensures
            r is Ok <==> 1 <= spec_iface_name(reply@).len() <= 15,
            r is Err ==> r->Err_0 == Error::BadName,
            r is Ok ==> ({
                let d = r->Ok_0.spec_dev();
                &&& r->Ok_0.wf()
                &&& d.spec_name() == spec_iface_name(reply@)
                &&& d.spec_fd() == fd
                &&& d.spec_sock4() == sock4
                &&& d.spec_sock6() == sock6
            }),
    {
        match Dev::assemble(req, fd, reply, sock4, sock6) {
            Ok(d) => Ok(Tun { dev: d }),
            Err(e) => Err(e),
        }
    }

    /// The underlying device, for its operations.
    pub fn dev(&self) -> (r: &Dev)
        ensures
            *r == self.spec_dev(),
    {
        &self.dev
    }
}

/// One queue of a blocking multiqueue TUN interface.  Sibling handles
/// share the interface name and control sockets; each owns its
/// descriptor and can be attached and detached on its own.
pub struct MQTun {
    dev: Dev,
}

impl MQTun {
    pub closed spec fn spec_dev(&self) -> Dev {
        self.dev
    }

    pub open spec fn wf(&self) -> bool {
        &&& self.spec_dev().wf()
        &&& self.spec_dev().spec_mode() == Mode::Tun
        &&& !self.spec_dev().spec_non_blocking()
    }

    /// The creation ask for `len` queues without the
    /// packet-information header.  A zero count is the dedicated
    /// caller error, refused before any descriptor could be opened.
    pub fn without_packet_info(name: &[u8], len: usize) -> (r: Result<CreationRequest, Error>)
        ensures
            r is Ok <==> len >= 1,
            r is Err ==> r->Err_0 == Error::ZeroDevices,
            r is Ok ==> ({
                let q = r->Ok_0;
                &&& q.wf()
                &&& q.spec_mode() == Mode::Tun
                &&& q.spec_fd_count() == len
                &&& !q.spec_packet_info()
                &&& !q.spec_non_blocking()
                &&& q.spec_ifr() == spec_flags_ifreq(
                    name@,
                    spec_creation_word(Mode::Tun, false, len as int),
                )
            }),
    {
        creation_request(name, Mode::Tun, len, false, false)
    }

    /// The creation ask for `len` queues with the packet-information
    /// header.  A zero count is the dedicated caller error.
    pub fn with_packet_info(name: &[u8], len: usize) -> (r: Result<CreationRequest, Error>)
        ensures
            r is Ok <==> len >= 1,
            r is Err ==> r->Err_0 == Error::ZeroDevices,
            r is Ok ==> ({
                let q = r->Ok_0;
                &&& q.wf()
                &&& q.spec_mode() == Mode::Tun
                &&& q.spec_fd_count() == len
                &&& q.spec_packet_info()
                &&& !q.spec_non_blocking()
                &&& q.spec_ifr() == spec_flags_ifreq(
                    name@,
                    spec_creation_word(Mode::Tun, true, len as int),
                )
            }),
    {
        creation_request(name, Mode::Tun, len, true, false)
    }

    /// Builds one queue handle from the kernel's creation reply; called
    /// once per opened descriptor, with the same reply each time, so
    /// every sibling carries the same interface name.
    pub fn assemble(req: &CreationRequest, fd: i32, reply: &IfReq, sock4: i32, sock6: i32) -> (r:
        Result<MQTun, Error>)
        requires
            reply.wf(),
            req.spec_mode() == Mode::Tun,
            !req.spec_non_blocking(),
        ensures
            r is Ok <==> 1 <= spec_iface_name(reply@).len() <= 15,
            r is Err ==> r->Err_0 == Error::BadName,
            r is Ok ==> ({
                let d = r->Ok_0.spec_dev();
                &&& r->Ok_0.wf()
                &&& d.spec_name() == spec_iface_name(reply@)
                &&& d.spec_fd() == fd
                &&& d.spec_sock4() == sock4
                &&& d.spec_sock6() == sock6
            }),
    {
        match Dev::assemble(req, fd, reply, sock4, sock6) {
            Ok(d) => Ok(MQTun { dev: d }),
            Err(e) => Err(e),
        }
    }

    /// The operation that puts this queue back in service, issued on
    /// the queue's own descriptor.  The request carries no name: the
    /// descriptor already identifies the queue.
    pub fn attach_request(&self) -> (r: (u64, IfReq))
        ensures
            r.0 == TUNSETQUEUE,
            r.1.wf(),
            r.1@ == spec_flags_ifreq(Seq::empty(), IFF_ATTACH_QUEUE),
    {
        queue_request(IFF_ATTACH_QUEUE)
    }

    /// The operation that takes this queue out of service, issued on
    /// the queue's own descriptor.
    pub fn detach_request(&self) -> (r: (u64, IfReq))
        ensures
            r.0 == TUNSETQUEUE,
            r.1.wf(),
            r.1@ == spec_flags_ifreq(Seq::empty(), IFF_DETACH_QUEUE),
    {
        queue_request(IFF_DETACH_QUEUE)
    }

    /// The underlying device, for its operations.
    pub fn dev(&self) -> (r: &Dev)
        ensures
            *r == self.spec_dev(),
    {
        &self.dev
    }
}

pub(crate) fn queue_request(w: u16) -> (r: (u64, IfReq))
    ensures
        r.0 == TUNSETQUEUE,
        r.1.wf(),
        r.1@ == spec_flags_ifreq(Seq::empty(), w),
{
    let empty: [u8; 0] = [];
    let mut ifr = IfReq::new(empty.as_slice());
    ifr.set_flags_word(w);
    proof {
        assert(ifr@ =~= spec_flags_ifreq(Seq::empty(), w));
    }
    (TUNSETQUEUE, ifr)
}

/// A non-blocking TUN handle: its descriptor is opened with
/// `O_NONBLOCK`, `try_recv`/`try_send` surface the would-block
/// condition, and the suspending data path is driven by readiness
/// notifications through [`crate::device::io_step`].
pub struct AsyncTun {
    dev: Dev,
}

impl AsyncTun {
    pub closed spec fn spec_dev(&self) -> Dev {
        self.dev
    }

    pub open spec fn wf(&self) -> bool {
        &&& self.spec_dev().wf()
        &&& self.spec_dev().spec_mode() == Mode::Tun
        &&& self.spec_dev().spec_non_blocking()
    }

    /// The creation ask for a non-blocking TUN interface without the
    /// packet-information header.
    pub fn without_packet_info(name: &[u8]) -> (r: CreationRequest)
        ensures
            r.wf(),
            r.spec_mode() == Mode::Tun,
            r.spec_fd_count() == 1,
            !r.spec_packet_info(),
            r.spec_non_blocking(),
            r.spec_ifr() == spec_flags_ifreq(name@, spec_creation_word(Mode::Tun, false, 1)),
    {
        match creation_request(name, Mode::Tun, 1, false, true) {
            Ok(q) => q,
            Err(_) => vstd::pervasive::unreached(),
        }
    }

    /// The creation ask for a non-blocking TUN interface with the
    /// packet-information header.
    pub fn with_packet_info(name: &[u8]) -> (r: CreationRequest)
        ensures
            r.wf(),
            r.spec_mode() == Mode::Tun,
            r.spec_fd_count() == 1,
            r.spec_packet_info(),
            r.spec_non_blocking(),
            r.spec_ifr() == spec_flags_ifreq(name@, spec_creation_word(Mode::Tun, true, 1)),
    {
        match creation_request(name, Mode::Tun, 1, true, true) {
            Ok(q) => q,
            Err(_) => vstd::pervasive::unreached(),
        }
    }

    /// Builds the handle from the kernel's creation reply.
    pub fn assemble(req: &CreationRequest, fd: i32, reply: &IfReq, sock4: i32, sock6: i32) -> (r:
        Result<AsyncTun, Error>)
        requires
            reply.wf(),
            req.spec_mode() == Mode::Tun,
            req.spec_non_blocking(),
        ensures
            r is Ok <==> 1 <= spec_iface_name(reply@).len() <= 15,
            r is Err ==> r->Err_0 == Error::BadName,
            r is Ok ==> ({
                let d = r->Ok_0.spec_dev();
                &&& r->Ok_0.wf()
                &&& d.spec_name() == spec_iface_name(reply@)
                &&& d.spec_fd() == fd
                &&& d.spec_sock4() == sock4
                &&& d.spec_sock6() == sock6
            }),
    {
        match Dev::assemble(req, fd, reply, sock4, sock6) {
            Ok(d) => Ok(AsyncTun { dev: d }),
            Err(e) => Err(e),
        }
    }

    /// One immediate receive attempt on the non-blocking descriptor:
    /// either data, or an error of which the would-block condition is
    /// the recoverable one.
    pub fn try_recv(&self, buf: &mut Vec<u8>) -> (r: Result<usize, Error>)
        ensures
            final(buf)@.len() == old(buf)@.len(),
            r is Ok ==> r->Ok_0 <= old(buf)@.len(),
            r is Err ==> r->Err_0 is Os,
    {
        self.dev.recv(buf)
    }

    /// One immediate send attempt on the non-blocking descriptor.
    pub fn try_send(&self, buf: &Vec<u8>) -> (r: Result<usize, Error>)
        ensures
            r is Ok ==> r->Ok_0 <= buf@.len(),
            r is Err ==> r->Err_0 is Os,
    {
        self.dev.send(buf)
    }

    /// The underlying device, for its operations.
    pub fn dev(&self) -> (r: &Dev)
        ensures
            *r == self.spec_dev(),
    {
        &self.dev
    }
}

} // verus!
