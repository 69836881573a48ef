//! Control-plane logic for Linux TUN/TAP network interfaces.
//!
//! A TUN/TAP interface is created by opening the clone device and issuing a
//! `TUNSETIFF` ioctl; its attributes (flags, addresses, MTU, hardware
//! address) are then read and written with `SIOC*` ioctls issued against an
//! auxiliary datagram socket.  Every one of those requests travels in a
//! fixed-layout `ifreq` (or `in6_ifreq`) structure whose bytes must match
//! the kernel ABI exactly.
//!
//! This crate holds the verified core of that protocol: it validates
//! creation parameters, builds the exact request bytes for every operation,
//! decodes the kernel's replies, and classifies outcomes (in particular the
//! recoverable would-block condition).  The ioctl syscalls themselves are
//! unsafe foreign calls and are left to the embedding program, which feeds
//! the encoded requests to the kernel and hands the mutated bytes back.
//! The data path (`read`/`write` on the device descriptor) is driven from
//! here through thin trusted wrappers over safe `nix` calls.

pub mod addr;
pub mod device;
pub mod error;
pub mod flags;
pub mod request;
pub mod tap;
pub mod tun;
