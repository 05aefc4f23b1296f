//! Host side of a two-phase control link to a remote device: a one-byte
//! handshake followed by fixed two-byte packets that report the device's
//! operating mode and the colour it tracks.
//!
//! The crate never touches a socket. Whoever owns the connection performs
//! each read and write and reports how it went; everything that is decided
//! from those reports is decided, and proved, here.
//!
//! * [`wire`] turns bytes into typed protocol values and back.
//! * [`state`] holds the device state and applies reported changes.
//! * [`session`] sequences the handshake and the intake of packets, and
//!   keeps track of whether the link is still usable.
//! * [`error`] names the failures.

pub mod error;
pub mod session;
pub mod state;
pub mod wire;

pub use crate::error::{ConnectError, ProtocolError};
pub use crate::session::Session;
pub use crate::state::DeviceState;
pub use crate::wire::{ModeOrColor, OperatingMode, Packet, PacketType, TrackingColor};
