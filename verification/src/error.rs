//! The error domain of the crate.

use vstd::prelude::*;

verus! {

/// `EAGAIN` on Linux; `EWOULDBLOCK` is the same number.
pub const EAGAIN: i32 = 11;

/// Everything that can go wrong in the control plane.
#[derive(Clone, Copy, Debug, PartialEq, Eq, Structural)]
pub enum Error {
    /// A multiqueue interface was requested with zero queues.  Detected
    /// before any descriptor is opened; never a kernel error.
    ZeroDevices,
    /// A failing system call, carrying the errno the kernel reported.
    Os(i32),
    /// The kernel reported a flag word with bits outside the recognized
    /// set; the offending word is carried for diagnosis.
    BadFlags(u32),
    /// The creation reply held no usable interface name: the name field
    /// was empty or not null-terminated.
    BadName,
}

impl Error {
    /// True exactly of the recoverable would-block condition on a
    /// non-blocking descriptor, so callers can tell it apart from every
    /// genuine failure and retry.
    pub open spec fn spec_is_would_block(self) -> bool {
        self == Error::Os(EAGAIN)
    }

    pub fn is_would_block(&self) -> (r: bool)
        ensures
            r == self.spec_is_would_block(),
    {
        match self {
            Error::Os(e) => *e == EAGAIN,
            _ => false,
        }
    }
}

} // verus!
