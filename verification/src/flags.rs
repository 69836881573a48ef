//! The kernel's interface-flag words.
//!
//! Two flag vocabularies share the 16-bit `ifr_flags` field of an `ifreq`:
//! the `netdevice` administrative flags (`IFF_UP`, `IFF_RUNNING`, ...) used
//! with `SIOCGIFFLAGS`/`SIOCSIFFLAGS`, and the TUN-specific creation flags
//! (`IFF_TUN`, `IFF_NO_PI`, ...) used with `TUNSETIFF` and `TUNSETQUEUE`.
//! This module defines both bit sets, a validated [`Flags`] value for the
//! administrative word, and the pure flag arithmetic behind bringing an
//! interface up or down.

use vstd::prelude::*;

use crate::error::Error;

verus! {

// Administrative interface flags, as in `linux/if.h` (`man netdevice`).

/// Interface is administratively up.
pub const IFF_UP: u32 = 0x1;
/// Valid broadcast address set.
pub const IFF_BROADCAST: u32 = 0x2;
/// Internal debugging flag.
pub const IFF_DEBUG: u32 = 0x4;
/// Interface is a loopback interface.
pub const IFF_LOOPBACK: u32 = 0x8;
/// Interface is a point-to-point link.
pub const IFF_POINTOPOINT: u32 = 0x10;
/// Avoid use of trailers.
pub const IFF_NOTRAILERS: u32 = 0x20;
/// Resources allocated.
pub const IFF_RUNNING: u32 = 0x40;
/// No ARP protocol, L2 destination address not set.
pub const IFF_NOARP: u32 = 0x80;
/// Interface is in promiscuous mode.
pub const IFF_PROMISC: u32 = 0x100;
/// Receive all multicast packets.
pub const IFF_ALLMULTI: u32 = 0x200;
/// Master of a load-balancing bundle.
pub const IFF_MASTER: u32 = 0x400;
/// Slave of a load-balancing bundle.
pub const IFF_SLAVE: u32 = 0x800;
/// Supports multicast.
pub const IFF_MULTICAST: u32 = 0x1000;
/// Can select media type via ifmap.
pub const IFF_PORTSEL: u32 = 0x2000;
/// Auto media selection active.
pub const IFF_AUTOMEDIA: u32 = 0x4000;
/// Addresses are lost when the interface goes down.
pub const IFF_DYNAMIC: u32 = 0x8000;
/// Driver signals L1 up.
pub const IFF_LOWER_UP: u32 = 0x10000;
/// Driver signals dormant.
pub const IFF_DORMANT: u32 = 0x20000;
/// Echo sent packets.
pub const IFF_ECHO: u32 = 0x40000;

/// Union of every recognized administrative flag; a word with a bit
/// outside this set is a conversion error.
pub const FLAGS_MASK: u32 = 0x7ffff;

// TUN-specific flags, as in `linux/if_tun.h`.  They live in the 16-bit
// flag word of the creation and queue requests.

/// Request an IP-layer (TUN) device.
pub const IFF_TUN: u16 = 0x0001;
/// Request an Ethernet-layer (TAP) device.
pub const IFF_TAP: u16 = 0x0002;
/// Open several descriptors (queues) against one interface.
pub const IFF_MULTI_QUEUE: u16 = 0x0100;
/// Put a queue back into service (`TUNSETQUEUE`).
pub const IFF_ATTACH_QUEUE: u16 = 0x0200;
/// Take a queue out of service (`TUNSETQUEUE`).
pub const IFF_DETACH_QUEUE: u16 = 0x0400;
/// Do not prepend the 4-byte packet-information header.
pub const IFF_NO_PI: u16 = 0x1000;

/// The administrative bits OR-ed in by bring-up and cleared by
/// bring-down: `IFF_UP | IFF_RUNNING`, as a 16-bit request word.
pub const UP_RUNNING_WORD: u16 = 0x41;

/// Whether the interface carries IP packets (TUN) or Ethernet frames
/// (TAP).  Fixed at creation time; hardware-address operations exist only
/// for TAP.
#[derive(Clone, Copy, Debug, PartialEq, Eq, Structural)]
pub enum Mode {
    Tun,
    Tap,
}

impl Mode {
    /// The creation-flag bit that requests this mode from the kernel.
    pub open spec fn spec_flag_bits(self) -> u16 {
        match self {
            Mode::Tun => IFF_TUN,
            Mode::Tap => IFF_TAP,
        }
    }

    pub fn flag_bits(self) -> (r: u16)
        ensures
            r == self.spec_flag_bits(),
    {
        match self {
            Mode::Tun => IFF_TUN,
            Mode::Tap => IFF_TAP,
        }
    }
}

/// A validated administrative flag word: every set bit is one the kernel
/// defines.
#[derive(Clone, Copy, Debug, PartialEq, Eq, Structural)]
pub struct Flags {
    bits: u32,
}

impl Flags {
    pub closed spec fn spec_bits(self) -> u32 {
        self.bits
    }

    /// Validity: no bit outside the recognized set.
    pub open spec fn wf(self) -> bool {
        self.spec_bits() & FLAGS_MASK == self.spec_bits()
    }

    /// Validates a raw flag word from the kernel.  Succeeds exactly when
    /// every set bit is recognized; an unknown bit is a hard error, never
    /// silently masked.
    pub fn try_from_bits(bits: u32) -> (r: Result<Flags, Error>)
        ensures
            (bits & FLAGS_MASK == bits) <==> r is Ok,
            r is Ok ==> r->Ok_0.spec_bits() == bits && r->Ok_0.wf(),
            r is Err ==> r->Err_0 == Error::BadFlags(bits),
    {
        if bits & FLAGS_MASK == bits {
            Ok(Flags { bits })
        } else {
            Err(Error::BadFlags(bits))
        }
    }

    /// The raw word back out.
    pub fn bits(&self) -> (r: u32)
        ensures
            r == self.spec_bits(),
    {
        self.bits
    }

    /// True when every bit of `other` is set in `self`.
    pub fn contains(&self, other: Flags) -> (r: bool)
        ensures
            r == (self.spec_bits() & other.spec_bits() == other.spec_bits()),
    {
        self.bits & other.bits == other.bits
    }
}

/// The flag word after bring-up: the current word with
/// `IFF_UP | IFF_RUNNING` OR-ed in.
pub open spec fn spec_up_word(w: u16) -> u16 {
    w | UP_RUNNING_WORD
}

/// The flag word after bring-down: the current word with
/// `IFF_UP | IFF_RUNNING` cleared.
pub open spec fn spec_down_word(w: u16) -> u16 {
    w & !UP_RUNNING_WORD
}

/// Computes the word to write back for bring-up, given the word the
/// kernel currently reports.
pub fn up_word(w: u16) -> (r: u16)
    ensures
        r == spec_up_word(w),
{
    w | UP_RUNNING_WORD
}

/// Computes the word to write back for bring-down, given the word the
/// kernel currently reports.
pub fn down_word(w: u16) -> (r: u16)
    ensures
        r == spec_down_word(w),
{
    w & !UP_RUNNING_WORD
}

/// Bringing an interface up twice writes the same word as bringing it up
/// once: OR is idempotent.
pub proof fn lemma_up_idempotent(w: u16)
    ensures
        spec_up_word(spec_up_word(w)) == spec_up_word(w),
{
    assert((w | 0x41u16) | 0x41u16 == w | 0x41u16) by (bit_vector);
}

/// Bringing an interface down twice writes the same word as bringing it
/// down once: AND-NOT is idempotent.
pub proof fn lemma_down_idempotent(w: u16)
    ensures
        spec_down_word(spec_down_word(w)) == spec_down_word(w),
{
    assert((w & !0x41u16) & !0x41u16 == w & !0x41u16) by (bit_vector);
}

/// After bring-up the word contains `IFF_UP | IFF_RUNNING`; after
/// bring-down it contains neither bit.
pub proof fn lemma_up_down_bits(w: u16)
    ensures
        spec_up_word(w) & UP_RUNNING_WORD == UP_RUNNING_WORD,
        spec_down_word(w) & UP_RUNNING_WORD == 0,
{
    assert((w | 0x41u16) & 0x41u16 == 0x41u16) by (bit_vector);
    assert((w & !0x41u16) & 0x41u16 == 0u16) by (bit_vector);
}

} // verus!
