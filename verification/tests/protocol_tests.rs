use soft_kvm::kvm_core::types::{NetworkAddress, Timestamp};
use soft_kvm::protocol::manager::ProtocolManager;
use soft_kvm::protocol::messages::{
    ClientInfo, HeartbeatPayload, HelloPayload, MessagePayload, MessageType, ProtocolMessage,
};
use soft_kvm::protocol::session::{PeerInfo, ProtocolSession, SessionState};
use soft_kvm::protocol::transport::TransportConfig;
use soft_kvm::protocol::{ProtocolConfig, PROTOCOL_VERSION};

fn test_peer() -> PeerInfo {
    PeerInfo {
        peer_id: "test-peer".to_string(),
        peer_name: "Test Peer".to_string(),
        address: NetworkAddress::localhost(8080),
        capabilities: vec!["video".to_string()],
        authenticated: false,
        last_seen: Timestamp { secs: 0, nanos: 0 },
    }
}

#[test]
fn test_protocol_message_creation() {
    let payload = MessagePayload::Hello(HelloPayload {
        protocol_version: "1.0.0".to_string(),
        client_info: ClientInfo {
            client_id: "test-client".to_string(),
            client_name: "Test Client".to_string(),
            platform: "linux".to_string(),
            version: "1.0.0".to_string(),
        },
        capabilities: vec!["video".to_string(), "input".to_string()],
    });

    let message = ProtocolMessage::new(MessageType::Hello, payload);

    assert_eq!(message.message_type(), &MessageType::Hello);
    assert!(message.session_id().is_none());
    assert!(!message.is_compressed());
}

#[test]
fn test_message_with_session() {
    let payload = MessagePayload::Heartbeat(HeartbeatPayload { sequence_number: 42 });

    let message = ProtocolMessage::new(MessageType::Heartbeat, payload).with_session("session-123".to_string());

    assert_eq!(message.session_id(), Some(&"session-123".to_string()));
}

#[test]
fn test_protocol_manager_creation() {
    let manager = ProtocolManager::default();
    assert_eq!(manager.config().version, PROTOCOL_VERSION);
    assert_eq!(manager.active_sessions(), 0);
}

#[test]
fn test_protocol_config_default() {
    let config = ProtocolConfig::default();
    assert_eq!(config.version, PROTOCOL_VERSION);
    assert!(config.compression_enabled);
    assert_eq!(config.heartbeat_interval, 30);
}

#[test]
fn test_session_creation() {
    let config = ProtocolConfig::default();
    let session = ProtocolSession::new("test-session".to_string(), test_peer(), config);

    assert_eq!(session.session_id(), "test-session");
    assert!(!session.is_authenticated());
    assert!(!session.is_active());
}

#[test]
fn test_session_state_management() {
    let config = ProtocolConfig::default();
    let mut session = ProtocolSession::new("test-session".to_string(), test_peer(), config);

    assert_eq!(session.state(), SessionState::Connecting);

    session.set_state(SessionState::Active);
    assert_eq!(session.state(), SessionState::Active);
    assert!(session.is_active());
}

#[test]
fn test_session_authentication() {
    let config = ProtocolConfig::default();
    let mut session = ProtocolSession::new("test-session".to_string(), test_peer(), config);

    assert!(!session.is_authenticated());

    session.set_authenticated(true);
    assert!(session.is_authenticated());
}

#[test]
fn test_transport_config_default() {
    let config = TransportConfig::default();
    assert_eq!(config.max_connections, 100);
    assert_eq!(config.read_timeout, 30);
    assert_eq!(config.write_timeout, 30);
    assert_eq!(config.buffer_size, 64 * 1024);
    assert!(config.compression);
}
