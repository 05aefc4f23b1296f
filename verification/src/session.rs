//! The link session: its lifecycle, the handshake, and the intake of
//! packets.
//!
//! A session does no I/O of its own. The owner of the connection carries out
//! each write and each blocking read and reports the outcome to the session,
//! which decides what that outcome means: whether the exchange goes on,
//! which error it ends in, and what becomes of the tracked device state.
//!
//! A handshake is three calls:
//!
//! 1. [`Session::handshake_request`] gives the byte to write;
//! 2. [`Session::request_written`] takes whether the write went through;
//! 3. [`Session::handshake_reply`] takes the one byte read back, or `None`
//!    if the read failed.
//!
//! After that, each packet is one call of [`Session::next_packet`] with the
//! two bytes read, or `None` if the read failed.
//!
//! A transport failure or a rejected handshake ends the session: it stops
//! being usable, and every later call on it reports a transport error and
//! changes nothing. A packet that fails to decode is reported and otherwise
//! ignored.

use vstd::prelude::*;
use crate::error::{ConnectError, ProtocolError};
use crate::state::DeviceState;
use crate::wire::{
    decode_handshake_ack, decode_packet, encode_handshake_request, packet_meaning,
    payload_meaning, OperatingMode, Packet, PacketType, TrackingColor, CONNECT_ACK,
    CONNECT_REQUEST,
};

verus! {

/// Number of bytes to read for the device's answer to a connect request.
pub const HANDSHAKE_REPLY_LEN: usize = 1;

/// Number of bytes to read for one packet.
pub const PACKET_LEN: usize = 2;

/// What a session is, as far as its behaviour goes.
pub struct SessionView {
    /// The device state as last reported.
    pub state: DeviceState,
    /// Whether the session can still carry protocol traffic.
    pub usable: bool,
}

/// The host's end of one connection to a device.
#[derive(Debug)]
pub struct Session {
    state: DeviceState,
    usable: bool,
}

impl View for Session {
    type V = SessionView;

    closed spec fn view(&self) -> SessionView {
        SessionView { state: self.state, usable: self.usable }
    }
}

impl SessionView {
    /// A session as it is right after the connection has been established.
    pub open spec fn initial() -> SessionView {
        SessionView { state: DeviceState::initial(), usable: true }
    }

    /// The same session, ended.
    pub open spec fn ended(self) -> SessionView {
        SessionView { state: self.state, usable: false }
    }

    /// The byte to write to open the handshake.
    pub open spec fn handshake_request(self) -> Result<u8, ProtocolError> {
        if self.usable {
            Ok(CONNECT_REQUEST)
        } else {
            Err(ProtocolError::TransportError)
        }
    }

    /// The session and the verdict after the write of the connect request
    /// has been attempted.
    pub open spec fn request_written(self, written: bool) -> (
        SessionView,
        Result<(), ProtocolError>,
    ) {
        if !self.usable {
            (self, Err(ProtocolError::TransportError))
        } else if written {
            (self, Ok(()))
        } else {
            (self.ended(), Err(ProtocolError::TransportError))
        }
    }

    /// The session and the verdict after the read of the device's answer
    /// has been attempted.
    pub open spec fn handshake_reply(self, reply: Option<u8>) -> (
        SessionView,
        Result<(), ProtocolError>,
    ) {
        if !self.usable {
            (self, Err(ProtocolError::TransportError))
        } else {
            match reply {
                None => (self.ended(), Err(ProtocolError::TransportError)),
                Some(byte) => if byte == CONNECT_ACK {
                    (self, Ok(()))
                } else {
                    (self.ended(), Err(ProtocolError::HandshakeRejected))
                },
            }
        }
    }

    /// The session and the verdict after the read of one packet has been
    /// attempted.
    pub open spec fn next_packet(self, frame: Option<[u8; 2]>) -> (
        SessionView,
        Result<Packet, ProtocolError>,
    ) {
        if !self.usable {
            (self, Err(ProtocolError::TransportError))
        } else {
            match frame {
                None => (self.ended(), Err(ProtocolError::TransportError)),
                Some(bytes) => match packet_meaning(bytes[0], bytes[1]) {
                    Err(error) => (self, Err(error)),
                    Ok(packet) => match packet.meaning() {
                        Err(error) => (self, Err(error)),
                        Ok(change) => (
                            SessionView { state: self.state.after(change), usable: true },
                            Ok(packet),
                        ),
                    },
                },
            }
        }
    }
}

impl Session {
    /// Creates the session for a connection attempt. `connected` says
    /// whether the attempt succeeded; if it did not, there is no session.
    pub fn open(connected: bool) -> (opened: Result<Session, ConnectError>)
        ensures
            connected ==> (opened matches Ok(session) && session@ == SessionView::initial()),
            !connected ==> opened is Err,
    {
        if connected {
            Ok(Session { state: DeviceState::new(), usable: true })
        } else {
            Err(ConnectError)
        }
    }

    /// First step of the handshake: the byte to write to the device.
    pub fn handshake_request(&self) -> (request: Result<u8, ProtocolError>)
        ensures
            request == self@.handshake_request(),
    {
        if self.usable {
            Ok(encode_handshake_request())
        } else {
            Err(ProtocolError::TransportError)
        }
    }

    /// Second step of the handshake: `written` says whether the request
    /// byte was written. On `Ok` the device's one-byte answer is to be read
    /// next.
    pub fn request_written(&mut self, written: bool) -> (verdict: Result<(), ProtocolError>)
        ensures
            (final(self)@, verdict) == old(self)@.request_written(written),
            verdict is Ok <==> old(self)@.usable && written,
    {
        if !self.usable {
            Err(ProtocolError::TransportError)
        } else if written {
            Ok(())
        } else {
            self.usable = false;
            Err(ProtocolError::TransportError)
        }
    }

    /// Last step of the handshake: `reply` is the byte read from the
    /// device, or `None` if the read failed. The handshake succeeds exactly
    /// when the device sent the acknowledgement.
    pub fn handshake_reply(&mut self, reply: Option<u8>) -> (verdict: Result<(), ProtocolError>)
        ensures
            (final(self)@, verdict) == old(self)@.handshake_reply(reply),
            verdict is Ok <==> old(self)@.usable && reply == Some(CONNECT_ACK),
    {
        if !self.usable {
            return Err(ProtocolError::TransportError);
        }
        match reply {
            None => {
                self.usable = false;
                Err(ProtocolError::TransportError)
            },
            Some(byte) => {
                if decode_handshake_ack(byte) {
                    Ok(())
                } else {
                    self.usable = false;
                    Err(ProtocolError::HandshakeRejected)
                }
            },
        }
    }

    /// Takes in one packet: `frame` holds the two bytes read from the
    /// device, or `None` if the read failed. A packet whose payload is valid
    /// updates the tracked state and is returned; one that fails to decode
    /// is reported and leaves the session as it was.
    pub fn next_packet(&mut self, frame: Option<[u8; 2]>) -> (received: Result<
        Packet,
        ProtocolError,
    >)
        ensures
            (final(self)@, received) == old(self)@.next_packet(frame),
            received matches Ok(packet) ==> packet.well_formed(),
            received is Err ==> final(self)@.state == old(self)@.state,
    {
        if !self.usable {
            return Err(ProtocolError::TransportError);
        }
        match frame {
            None => {
                self.usable = false;
                Err(ProtocolError::TransportError)
            },
            Some(bytes) => {
                let packet: Packet = decode_packet(bytes)?;
                let change = packet.payload()?;
                self.state.apply(change);
                Ok(packet)
            },
        }
    }

    /// The operating mode the device last reported.
    pub fn current_mode(&self) -> (mode: OperatingMode)
        ensures
            mode == self@.state.mode,
    {
        self.state.mode
    }

    /// The colour the device was last told to track.
    pub fn current_color(&self) -> (color: TrackingColor)
        ensures
            color == self@.state.color,
    {
        self.state.color
    }

    /// Whether the session can still carry protocol traffic.
    pub fn is_usable(&self) -> (usable: bool)
        ensures
            usable == self@.usable,
    {
        self.usable
    }
}

/// Whether the step from `before` to `outcome.0` treats the verdict
/// `outcome.1` as the lifecycle demands: an error keeps the tracked state,
/// and the session remains usable unless the error is fatal.
pub open spec fn outcome_respects_lifecycle<T>(
    before: SessionView,
    outcome: (SessionView, Result<T, ProtocolError>),
) -> bool {
    match outcome.1 {
        Ok(_) => outcome.0.usable,
        Err(error) => outcome.0.state == before.state && (outcome.0.usable <==> !error.fatal()),
    }
}

/// On a usable session the byte asked to be written is the connect
/// request, a successful write lets the handshake go on, and the device's
/// answer then decides: the acknowledgement completes the handshake, any
/// other byte rejects it and ends the session.
pub proof fn lemma_handshake_decided_by_reply(session: SessionView, reply: u8)
    requires
        session.usable,
    ensures
        session.handshake_request() == Ok::<u8, ProtocolError>(0xFFu8),
        session.request_written(true) == (session, Ok::<(), ProtocolError>(())),
        reply == 0xFE ==> session.handshake_reply(Some(reply)) == (
            session,
            Ok::<(), ProtocolError>(()),
        ),
        reply != 0xFE ==> session.handshake_reply(Some(reply)) == (
            session.ended(),
            Err::<(), ProtocolError>(ProtocolError::HandshakeRejected),
        ),
{
}

/// What a usable session makes of two bytes read as a packet. An unknown
/// type code and an invalid payload are told apart, and both leave the
/// session exactly as it was. A valid packet is returned with its payload
/// byte and applied to the tracked state.
pub proof fn lemma_packet_intake(session: SessionView, bytes: [u8; 2])
    requires
        session.usable,
    ensures
        bytes[0] != 0xF0 ==> session.next_packet(Some(bytes)) == (
            session,
            Err::<Packet, ProtocolError>(ProtocolError::UnknownPacketType),
        ),
        bytes[0] == 0xF0 && payload_meaning(bytes[1]) is Err ==> session.next_packet(Some(bytes)) == (
            session,
            Err::<Packet, ProtocolError>(ProtocolError::InvalidPayload),
        ),
        bytes[0] == 0xF0 && payload_meaning(bytes[1]) is Ok ==> session.next_packet(Some(bytes)) == (
            SessionView {
                state: session.state.after(payload_meaning(bytes[1])->Ok_0),
                usable: true,
            },
            Ok::<Packet, ProtocolError>(
                Packet { message_type: PacketType::StateChange, message_byte: bytes[1] },
            ),
        ),
{
}

/// A failed write or read ends a usable session with a transport error,
/// whichever operation it interrupts, and keeps the tracked state.
pub proof fn lemma_transport_failure_is_fatal(session: SessionView)
    requires
        session.usable,
    ensures
        session.request_written(false) == (
            session.ended(),
            Err::<(), ProtocolError>(ProtocolError::TransportError),
        ),
        session.handshake_reply(None) == (
            session.ended(),
            Err::<(), ProtocolError>(ProtocolError::TransportError),
        ),
        session.next_packet(None) == (
            session.ended(),
            Err::<Packet, ProtocolError>(ProtocolError::TransportError),
        ),
{
}

/// Whatever is reported to a usable session, an error never changes the
/// tracked state, and the session stays usable exactly when the outcome is
/// not a fatal error.
pub proof fn lemma_only_fatal_errors_end_session(
    session: SessionView,
    written: bool,
    reply: Option<u8>,
    frame: Option<[u8; 2]>,
)
    requires
        session.usable,
    ensures
        outcome_respects_lifecycle(session, session.request_written(written)),
        outcome_respects_lifecycle(session, session.handshake_reply(reply)),
        outcome_respects_lifecycle(session, session.next_packet(frame)),
{
}

/// Taking in the same bytes twice in a row gives the same verdict twice
/// and leaves the session as the first intake left it.
pub proof fn lemma_repeated_packet_is_idempotent(session: SessionView, frame: Option<[u8; 2]>)
    ensures
        session.next_packet(frame).0.next_packet(frame) == session.next_packet(frame),
{
}

/// Once a session has ended, every report made to it is answered with a
/// transport error and changes nothing.
pub proof fn lemma_ended_session_is_inert(
    session: SessionView,
    written: bool,
    reply: Option<u8>,
    frame: Option<[u8; 2]>,
)
    requires
        !session.usable,
    ensures
        session.handshake_request() == Err::<u8, ProtocolError>(ProtocolError::TransportError),
        session.request_written(written) == (
            session,
            Err::<(), ProtocolError>(ProtocolError::TransportError),
        ),
        session.handshake_reply(reply) == (
            session,
            Err::<(), ProtocolError>(ProtocolError::TransportError),
        ),
        session.next_packet(frame) == (
            session,
            Err::<Packet, ProtocolError>(ProtocolError::TransportError),
        ),
{
}

} // verus!
