//! Verified core of a point-to-point IP tunnel.
//!
//! Whole IP packets read from a virtual network interface travel over one TCP
//! connection as length-prefixed frames and are injected into the peer's
//! interface. This crate holds every decision of such an endpoint as
//! functions on plain values, each with a proved contract; the program around
//! it owns the device handle, the sockets and the threads.

pub mod device;
pub mod error;
pub mod flow;
pub mod frame;
pub mod handshake;
pub mod hexdump;
pub mod invocation;
pub mod session;
