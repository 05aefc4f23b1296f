use control_link::session::{HANDSHAKE_REPLY_LEN, PACKET_LEN};
use control_link::{
    ConnectError, OperatingMode, Packet, PacketType, ProtocolError, Session, TrackingColor,
};

fn fresh() -> Session {
    match Session::open(true) {
        Ok(session) => session,
        Err(_) => panic!("a successful connection must give a session"),
    }
}

#[test]
fn failed_connection_gives_no_session() {
    assert!(matches!(Session::open(false), Err(ConnectError)));
}

#[test]
fn new_session_starts_disconnected_green_and_usable() {
    let session = fresh();
    assert_eq!(session.current_mode(), OperatingMode::Disconnected);
    assert_eq!(session.current_color(), TrackingColor::Green);
    assert!(session.is_usable());
}

#[test]
fn read_sizes_match_the_wire_format() {
    assert_eq!(HANDSHAKE_REPLY_LEN, 1);
    assert_eq!(PACKET_LEN, 2);
}

#[test]
fn handshake_asks_for_the_connect_request() {
    let session = fresh();
    assert_eq!(session.handshake_request(), Ok(0xFF));
}

#[test]
fn written_request_lets_the_handshake_go_on() {
    let mut session = fresh();
    assert_eq!(session.request_written(true), Ok(()));
    assert!(session.is_usable());
}

#[test]
fn failed_write_is_a_fatal_transport_error() {
    let mut session = fresh();
    assert_eq!(session.request_written(false), Err(ProtocolError::TransportError));
    assert!(!session.is_usable());
}

#[test]
fn acknowledgement_completes_the_handshake() {
    let mut session = fresh();
    assert_eq!(session.handshake_reply(Some(0xFE)), Ok(()));
    assert!(session.is_usable());
    assert_eq!(session.current_mode(), OperatingMode::Disconnected);
    assert_eq!(session.current_color(), TrackingColor::Green);
}

#[test]
fn every_other_reply_rejects_the_handshake() {
    for reply in 0..=255u8 {
        if reply == 0xFE {
            continue;
        }
        let mut session = fresh();
        assert_eq!(session.handshake_reply(Some(reply)), Err(ProtocolError::HandshakeRejected));
        assert!(!session.is_usable());
    }
}

#[test]
fn failed_reply_read_is_a_transport_error_not_a_rejection() {
    let mut session = fresh();
    assert_eq!(session.handshake_reply(None), Err(ProtocolError::TransportError));
    assert!(!session.is_usable());
}

#[test]
fn color_packet_updates_the_color() {
    let mut session = fresh();
    assert_eq!(
        session.next_packet(Some([0xF0, 0x0B])),
        Ok(Packet { message_type: PacketType::StateChange, message_byte: 0x0B })
    );
    assert_eq!(session.current_color(), TrackingColor::Red);
    assert_eq!(session.current_mode(), OperatingMode::Disconnected);
}

#[test]
fn mode_packet_updates_the_mode() {
    let mut session = fresh();
    assert_eq!(
        session.next_packet(Some([0xF0, 0x02])),
        Ok(Packet { message_type: PacketType::StateChange, message_byte: 0x02 })
    );
    assert_eq!(session.current_mode(), OperatingMode::Race);
    assert_eq!(session.current_color(), TrackingColor::Green);
}

#[test]
fn repeated_mode_packet_keeps_the_mode() {
    let mut session = fresh();
    assert!(session.next_packet(Some([0xF0, 0x01])).is_ok());
    assert_eq!(session.current_mode(), OperatingMode::Calibrate);
    assert!(session.next_packet(Some([0xF0, 0x01])).is_ok());
    assert_eq!(session.current_mode(), OperatingMode::Calibrate);
}

#[test]
fn unknown_packet_type_is_reported_and_survivable() {
    let mut session = fresh();
    assert!(session.next_packet(Some([0xF0, 0x01])).is_ok());
    assert_eq!(session.next_packet(Some([0x0F, 0x02])), Err(ProtocolError::UnknownPacketType));
    assert_eq!(session.current_mode(), OperatingMode::Calibrate);
    assert_eq!(session.current_color(), TrackingColor::Green);
    assert!(session.is_usable());
    assert!(session.next_packet(Some([0xF0, 0x02])).is_ok());
    assert_eq!(session.current_mode(), OperatingMode::Race);
}

#[test]
fn invalid_payload_is_reported_and_survivable() {
    let mut session = fresh();
    assert!(session.next_packet(Some([0xF0, 0x09])).is_ok());
    assert_eq!(session.next_packet(Some([0xF0, 0x07])), Err(ProtocolError::InvalidPayload));
    assert_eq!(session.current_mode(), OperatingMode::Disconnected);
    assert_eq!(session.current_color(), TrackingColor::Blue);
    assert!(session.is_usable());
    assert!(session.next_packet(Some([0xF0, 0x08])).is_ok());
    assert_eq!(session.current_color(), TrackingColor::Black);
}

#[test]
fn unknown_type_wins_over_invalid_payload() {
    let mut session = fresh();
    assert_eq!(session.next_packet(Some([0x00, 0x07])), Err(ProtocolError::UnknownPacketType));
}

#[test]
fn failed_packet_read_is_fatal_and_keeps_the_state() {
    let mut session = fresh();
    assert!(session.next_packet(Some([0xF0, 0x02])).is_ok());
    assert_eq!(session.next_packet(None), Err(ProtocolError::TransportError));
    assert!(!session.is_usable());
    assert_eq!(session.current_mode(), OperatingMode::Race);
    assert_eq!(session.current_color(), TrackingColor::Green);
}

#[test]
fn ended_session_answers_everything_with_a_transport_error() {
    let mut session = fresh();
    assert_eq!(session.handshake_reply(Some(0x00)), Err(ProtocolError::HandshakeRejected));
    assert_eq!(session.handshake_request(), Err(ProtocolError::TransportError));
    assert_eq!(session.request_written(true), Err(ProtocolError::TransportError));
    assert_eq!(session.handshake_reply(Some(0xFE)), Err(ProtocolError::TransportError));
    assert_eq!(session.next_packet(Some([0xF0, 0x0B])), Err(ProtocolError::TransportError));
    assert!(!session.is_usable());
    assert_eq!(session.current_color(), TrackingColor::Green);
}
