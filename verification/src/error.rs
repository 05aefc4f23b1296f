//! The failures a link can report.

use vstd::prelude::*;

verus! {

/// The connection to the device could not be established, so no session
/// exists.
#[derive(Clone, Copy, Debug, PartialEq, Eq, Structural)]
pub struct ConnectError;

/// Everything that can go wrong once a session exists.
#[derive(Clone, Copy, Debug, PartialEq, Eq, Structural)]
pub enum ProtocolError {
    /// A byte could not be written to or read from the connection.
    TransportError,
    /// The device answered the connect request with something other than the
    /// acknowledgement.
    HandshakeRejected,
    /// The first byte of a packet names no known packet type.
    UnknownPacketType,
    /// The packet type was recognised but its payload encodes neither an
    /// operating mode nor a tracking colour.
    InvalidPayload,
}

impl ProtocolError {
    /// Whether this failure ends the session. Transport failures and a
    /// rejected handshake do; a packet that fails to decode does not.
    pub open spec fn fatal(self) -> bool {
        self is TransportError || self is HandshakeRejected
    }

    /// Computes [`ProtocolError::fatal`].
    pub fn is_fatal(&self) -> (r: bool)
        ensures
            r == self.fatal(),
    {
        match self {
            ProtocolError::TransportError => true,
            ProtocolError::HandshakeRejected => true,
            ProtocolError::UnknownPacketType => false,
            ProtocolError::InvalidPayload => false,
        }
    }
}

} // verus!
