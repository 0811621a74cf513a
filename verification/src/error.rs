use vstd::prelude::*;

verus! {

/// Everything that can go wrong while talking to the device.
#[derive(Clone, Copy, Debug, PartialEq, Eq, Structural)]
pub enum Error {
    /// The device identifier is not a base-16 number of 32 bits.
    InvalidIdentity,
    /// The device address could not be parsed or resolved.
    InvalidAddress,
    /// The local socket could not be created or configured.
    ConnectFailure,
    /// No handshake reply arrived before the deadline.
    Timeout,
    /// The handshake reply came from another address than the one dialed.
    UnexpectedSender,
    /// The handshake reply is too short to hold a header.
    MalformedResponse,
    /// The transport rejected a datagram.
    SendFailure,
    /// The operation is not part of the protocol as implemented.
    Unsupported,
}

} // verus!
