//! Client side of the KmBox network protocol: a fixed-layout binary protocol,
//! carried in UDP datagrams, that drives a remote mouse-emulation device.
//!
//! The crate performs no I/O. It builds and checks datagrams and keeps the
//! session's state; the caller owns the socket, sends what the session has
//! queued and reports back what it received.

pub mod error;
pub mod codec;
pub mod identity;
pub mod net;
pub mod mouse;
pub mod kmbox;
pub mod laws;
pub mod capture;
pub mod inference;
