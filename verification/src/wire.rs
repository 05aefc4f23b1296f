//! Byte-level encoding of handshake tokens and packets.
//!
//! Every value on the wire is a single byte. A packet is two of them: a type
//! code and a payload. The payload of a state-change packet names either an
//! operating mode or a tracking colour; the two share the byte's value space
//! and are told apart by a flag bit.

use vstd::prelude::*;
use crate::error::ProtocolError;

verus! {

/// The byte the host sends to ask for a connection.
pub const CONNECT_REQUEST: u8 = 0xFF;

/// The byte the device sends back to accept a connection.
pub const CONNECT_ACK: u8 = 0xFE;

/// Type code of a state-change packet.
pub const STATE_CHANGE_CODE: u8 = 0xF0;

/// Payload bit that marks a tracking colour.
pub const COLOR_FLAG: u8 = 0x08;

/// Payload bits that select the variant within a mode or a colour.
pub const SELECTOR_MASK: u8 = 0x03;

/// Payload bits above the selector. A mode has none of them set, a colour
/// exactly the colour flag.
pub const KIND_MASK: u8 = 0xFC;

/// The behavioural phase the device reports.
#[derive(Clone, Copy, Debug, PartialEq, Eq, Structural)]
pub enum OperatingMode {
    Disconnected,
    Calibrate,
    Race,
}

/// The colour the device follows.
#[derive(Clone, Copy, Debug, PartialEq, Eq, Structural)]
pub enum TrackingColor {
    Black,
    Blue,
    Green,
    Red,
}

/// What the payload of a state-change packet announces.
#[derive(Clone, Copy, Debug, PartialEq, Eq, Structural)]
pub enum ModeOrColor {
    Mode(OperatingMode),
    Color(TrackingColor),
}

/// The kinds of packet the device sends.
#[derive(Clone, Copy, Debug, PartialEq, Eq, Structural)]
pub enum PacketType {
    StateChange,
}

/// One decoded packet: its type and its payload byte, the latter still
/// uninterpreted.
#[derive(Clone, Copy, Debug, PartialEq, Eq, Structural)]
pub struct Packet {
    pub message_type: PacketType,
    pub message_byte: u8,
}

/// The byte the host writes to open the handshake.
pub fn encode_handshake_request() -> (byte: u8)
    ensures
        byte == CONNECT_REQUEST,
{
    CONNECT_REQUEST
}

/// Whether `byte` is the device's acknowledgement of a connect request.
pub fn decode_handshake_ack(byte: u8) -> (accepted: bool)
    ensures
        accepted <==> byte == CONNECT_ACK,
{
    byte == CONNECT_ACK
}

impl OperatingMode {
    /// The payload byte that stands for this mode.
    pub open spec fn byte(self) -> u8 {
        match self {
            OperatingMode::Disconnected => 0x00,
            OperatingMode::Calibrate => 0x01,
            OperatingMode::Race => 0x02,
        }
    }

    /// Encodes the mode as a payload byte.
    pub fn to_byte(self) -> (byte: u8)
        ensures
            byte == self.byte(),
    {
        match self {
            OperatingMode::Disconnected => 0x00,
            OperatingMode::Calibrate => 0x01,
            OperatingMode::Race => 0x02,
        }
    }
}

impl TrackingColor {
    /// The payload byte that stands for this colour.
    pub open spec fn byte(self) -> u8 {
        match self {
            TrackingColor::Black => 0x08,
            TrackingColor::Blue => 0x09,
            TrackingColor::Green => 0x0A,
            TrackingColor::Red => 0x0B,
        }
    }

    /// Encodes the colour as a payload byte.
    pub fn to_byte(self) -> (byte: u8)
        ensures
            byte == self.byte(),
    {
        match self {
            TrackingColor::Black => 0x08,
            TrackingColor::Blue => 0x09,
            TrackingColor::Green => 0x0A,
            TrackingColor::Red => 0x0B,
        }
    }
}

impl ModeOrColor {
    /// The payload byte that stands for this value.
    pub open spec fn byte(self) -> u8 {
        match self {
            ModeOrColor::Mode(mode) => mode.byte(),
            ModeOrColor::Color(color) => color.byte(),
        }
    }
}

/// What a payload byte means: the seven assigned values, and a protocol
/// violation for every other byte.
pub open spec fn payload_meaning(byte: u8) -> Result<ModeOrColor, ProtocolError> {
    if byte == 0x00 {
        Ok(ModeOrColor::Mode(OperatingMode::Disconnected))
    } else if byte == 0x01 {
        Ok(ModeOrColor::Mode(OperatingMode::Calibrate))
    } else if byte == 0x02 {
        Ok(ModeOrColor::Mode(OperatingMode::Race))
    } else if byte == 0x08 {
        Ok(ModeOrColor::Color(TrackingColor::Black))
    } else if byte == 0x09 {
        Ok(ModeOrColor::Color(TrackingColor::Blue))
    } else if byte == 0x0A {
        Ok(ModeOrColor::Color(TrackingColor::Green))
    } else if byte == 0x0B {
        Ok(ModeOrColor::Color(TrackingColor::Red))
    } else {
        Err(ProtocolError::InvalidPayload)
    }
}

/// Encodes a mode or a colour as a payload byte. Decoding that byte gives
/// the value back.
pub fn encode_mode_or_color(value: ModeOrColor) -> (byte: u8)
    ensures
        byte == value.byte(),
        payload_meaning(byte) == Ok::<ModeOrColor, ProtocolError>(value),
{
    match value {
        ModeOrColor::Mode(mode) => mode.to_byte(),
        ModeOrColor::Color(color) => color.to_byte(),
    }
}

/// How the two masks carve up the byte: the selector is the byte modulo
/// four, nothing is set above it exactly in `0x00..=0x03`, and the colour
/// flag alone is set above it exactly in `0x08..=0x0B`.
proof fn lemma_payload_masks(byte: u8)
    ensures
        byte & 0x03 == byte % 4,
        byte & 0xFC == 0 <==> byte < 4,
        byte & 0xFC == 0x08 <==> 8 <= byte < 12,
{
    assert(byte & 0x03 == byte % 4) by (bit_vector);
    assert(byte & 0xFC == 0 <==> byte < 4) by (bit_vector);
    assert(byte & 0xFC == 0x08 <==> 8 <= byte < 12) by (bit_vector);
}

/// Interprets a payload byte. With nothing set above the selector bits the
/// selector names a mode; with exactly the colour flag set above them it
/// names a colour; any other byte is rejected.
pub fn decode_mode_or_color(byte: u8) -> (decoded: Result<ModeOrColor, ProtocolError>)
    ensures
        decoded == payload_meaning(byte),
{
    let selector: u8 = byte & SELECTOR_MASK;
    let kind: u8 = byte & KIND_MASK;
    proof {
        lemma_payload_masks(byte);
    }
    if kind == 0 {
        if selector == 0 {
            Ok(ModeOrColor::Mode(OperatingMode::Disconnected))
        } else if selector == 1 {
            Ok(ModeOrColor::Mode(OperatingMode::Calibrate))
        } else if selector == 2 {
            Ok(ModeOrColor::Mode(OperatingMode::Race))
        } else {
            Err(ProtocolError::InvalidPayload)
        }
    } else if kind == COLOR_FLAG {
        if selector == 0 {
            Ok(ModeOrColor::Color(TrackingColor::Black))
        } else if selector == 1 {
            Ok(ModeOrColor::Color(TrackingColor::Blue))
        } else if selector == 2 {
            Ok(ModeOrColor::Color(TrackingColor::Green))
        } else {
            Ok(ModeOrColor::Color(TrackingColor::Red))
        }
    } else {
        Err(ProtocolError::InvalidPayload)
    }
}

impl PacketType {
    /// The type code that announces this kind of packet.
    pub open spec fn code(self) -> u8 {
        match self {
            PacketType::StateChange => STATE_CHANGE_CODE,
        }
    }

    /// The kind of packet a type code announces, if any.
    pub open spec fn of_code(code: u8) -> Option<PacketType> {
        if code == STATE_CHANGE_CODE {
            Some(PacketType::StateChange)
        } else {
            None
        }
    }

    /// Encodes the packet type as the first byte of a packet.
    pub fn to_code(self) -> (code: u8)
        ensures
            code == self.code(),
            PacketType::of_code(code) == Some(self),
    {
        match self {
            PacketType::StateChange => STATE_CHANGE_CODE,
        }
    }

    /// Looks up the packet type that `code` announces.
    pub fn from_code(code: u8) -> (found: Option<PacketType>)
        ensures
            found == PacketType::of_code(code),
    {
        if code == STATE_CHANGE_CODE {
            Some(PacketType::StateChange)
        } else {
            None
        }
    }
}

impl Packet {
    /// What the payload announces, read according to the packet's type.
    pub open spec fn meaning(self) -> Result<ModeOrColor, ProtocolError> {
        match self.message_type {
            PacketType::StateChange => payload_meaning(self.message_byte),
        }
    }

    /// A packet is well formed when its payload is valid for its type.
    pub open spec fn well_formed(self) -> bool {
        self.meaning() is Ok
    }

    /// Interprets the payload according to the packet's type.
    pub fn payload(&self) -> (decoded: Result<ModeOrColor, ProtocolError>)
        ensures
            decoded == self.meaning(),
            decoded is Ok <==> self.well_formed(),
    {
        match self.message_type {
            PacketType::StateChange => decode_mode_or_color(self.message_byte),
        }
    }
}

/// What two bytes off the wire mean as a packet: the first selects the
/// type, the second is carried along as the payload whatever it holds.
pub open spec fn packet_meaning(first: u8, second: u8) -> Result<Packet, ProtocolError> {
    match PacketType::of_code(first) {
        Some(message_type) => Ok(Packet { message_type, message_byte: second }),
        None => Err(ProtocolError::UnknownPacketType),
    }
}

/// Frames two bytes as a packet. Only the type code is examined here; the
/// payload is validated by [`Packet::payload`].
pub fn decode_packet(bytes: [u8; 2]) -> (decoded: Result<Packet, ProtocolError>)
    ensures
        decoded == packet_meaning(bytes[0], bytes[1]),
        bytes[0] == 0xF0 ==> decoded == Ok::<Packet, ProtocolError>(
            Packet { message_type: PacketType::StateChange, message_byte: bytes[1] },
        ),
        bytes[0] != 0xF0 ==> decoded == Err::<Packet, ProtocolError>(
            ProtocolError::UnknownPacketType,
        ),
{
    match PacketType::from_code(bytes[0]) {
        Some(message_type) => Ok(Packet { message_type, message_byte: bytes[1] }),
        None => Err(ProtocolError::UnknownPacketType),
    }
}

/// Encoding a mode or a colour and decoding the byte gives the same
/// variant back.
pub proof fn lemma_payload_round_trip(value: ModeOrColor)
    ensures
        payload_meaning(value.byte()) == Ok::<ModeOrColor, ProtocolError>(value),
{
}

/// A byte that decodes is the encoding of what it decodes to, so no two
/// bytes decode to the same variant.
pub proof fn lemma_payload_byte_recovered(byte: u8)
    ensures
        payload_meaning(byte) matches Ok(value) ==> value.byte() == byte,
{
}

/// A byte with nothing set above the selector bits, the unassigned `0x03`
/// apart, decodes to the mode it encodes, and so never to a colour.
pub proof fn lemma_mode_bytes_decode_to_modes(byte: u8)
    requires
        byte & KIND_MASK == 0,
        byte != 0x03,
    ensures
        payload_meaning(byte) matches Ok(ModeOrColor::Mode(mode)) && mode.byte() == byte,
        !(payload_meaning(byte) matches Ok(ModeOrColor::Color(_))),
{
    lemma_payload_masks(byte);
}

/// The bytes `0x08..=0x0B` decode to the colour they encode. A byte that is
/// neither one of these nor one of the three mode bytes is an invalid
/// payload.
pub proof fn lemma_color_bytes_decode_to_colors(byte: u8)
    ensures
        0x08 <= byte <= 0x0B ==> (payload_meaning(byte) matches Ok(ModeOrColor::Color(color))
            && color.byte() == byte),
        byte > 0x02 && !(0x08 <= byte <= 0x0B) ==> payload_meaning(byte) == Err::<
            ModeOrColor,
            ProtocolError,
        >(ProtocolError::InvalidPayload),
{
}

} // verus!
