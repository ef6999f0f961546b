use soft_kvm::client::config::ClientConfigFile;
use soft_kvm::client::handler::{ClientAction, ClientMessageHandler};
use soft_kvm::client::{ClientConfig, ClientError};
use soft_kvm::client_program::{choose_server_address, listing_lines, parse_server_argument, ClientConfig as ProgramConfig, KvmClient as ProgramClient};
use soft_kvm::discovery::service::{ServiceCapabilities, ServiceInfo, ServiceType};
use soft_kvm::kvm_common::types::{IpAddress, NetworkAddress};
use soft_kvm::kvm_core::types::Timestamp;
use soft_kvm::protocol::manager::ProtocolManager;
use soft_kvm::protocol::messages::{
    AuthRequestPayload, AuthResponsePayload, ClientInfo, GoodbyePayload, HeartbeatPayload, HelloPayload,
    InputEventPayload, MessagePayload, MessageType, ProtocolMessage,
};
use soft_kvm::server::config::ServerConfigFile;
use soft_kvm::server::handler::{HandlerAction, InputKind, ServerMessageHandler};
use soft_kvm::server::{ServerConfig, ServerError};

fn hello() -> HelloPayload {
    HelloPayload {
        protocol_version: "1.0.0".to_string(),
        client_info: ClientInfo {
            client_id: "c1".to_string(),
            client_name: "Laptop".to_string(),
            platform: "linux".to_string(),
            version: "0.1.0".to_string(),
        },
        capabilities: vec!["video".to_string()],
    }
}

#[test]
fn server_config_file_round_trip_scenario() {
    let file = ServerConfigFile::default();
    let config = file.to_server_config().unwrap();
    assert_eq!(config.server_name, "Soft KVM Server");
    assert_eq!(config.bind_address.ip, "0.0.0.0");
    assert_eq!(config.bind_address.port, 8080);
    let back = ServerConfigFile::from(config);
    assert_eq!(back.server.name, file.server.name);
    assert_eq!(back.server.bind_address, file.server.bind_address);
    assert_eq!(back.server.video.quality, file.server.video.quality);
    assert_eq!(back.server.input.mouse_sensitivity_bits, file.server.input.mouse_sensitivity_bits);
}

#[test]
fn server_config_rejects_unknown_quality() {
    let mut file = ServerConfigFile::default();
    file.server.video.quality = "ultra".to_string();
    assert!(matches!(file.to_server_config(), Err(ServerError::Config(_))));
}

#[test]
fn client_config_file_round_trip_scenario() {
    let mut config = ClientConfig::default();
    config.client_name = "Desk".to_string();
    config.reconnect_attempts = 9;
    let file = ClientConfigFile::from(config.clone());
    assert_eq!(file.client.name, "Desk");
    let back = file.to_client_config().unwrap();
    assert_eq!(back.client_name, "Desk");
    assert_eq!(back.reconnect_attempts, 9);
    assert_eq!(back.server_address.port, config.server_address.port);
}

#[test]
fn client_default_name_names_the_user() {
    let config = ClientConfig::default();
    assert!(config.client_name.starts_with("Soft KVM Client ("));
    assert!(config.client_name.ends_with(')'));
}

#[test]
fn server_welcomes_a_hello() {
    let mut handler = ServerMessageHandler::new(ServerConfig::default(), false);
    let mut protocol = ProtocolManager::default();
    let action = handler.handle_hello(&mut protocol, hello()).unwrap();
    match action {
        HandlerAction::SendWelcome(m) => {
            assert_eq!(m.message_type(), &MessageType::Welcome);
            let sid = m.session_id().unwrap().clone();
            assert!(sid.starts_with("server-session-"));
            match &m.payload {
                MessagePayload::Welcome(w) => {
                    assert_eq!(w.session_id, sid);
                    assert_eq!(w.server_info.server_name, "Soft KVM Server");
                    assert_eq!(w.negotiated_capabilities, vec!["video".to_string(), "input".to_string()]);
                }
                _ => panic!("not a welcome"),
            }
            assert!(protocol.get_session(&sid).is_some());
        }
        _ => panic!("no welcome"),
    }
    assert_eq!(handler.session_count(), 1);
    assert_eq!(protocol.active_sessions(), 1);
    assert_eq!(handler.get_active_sessions()[0].client_info.client_name, "Laptop");
}

#[test]
fn server_grants_auth_and_ends_sessions() {
    let mut handler = ServerMessageHandler::new(ServerConfig::default(), true);
    let mut protocol = ProtocolManager::default();
    let sid = match handler.handle_hello(&mut protocol, hello()).unwrap() {
        HandlerAction::SendWelcome(m) => m.session_id().unwrap().clone(),
        _ => panic!(),
    };
    let req = ProtocolMessage::new(
        MessageType::AuthRequest,
        MessagePayload::AuthRequest(AuthRequestPayload { auth_method: "password".to_string(), credentials: "{}".to_string() }),
    )
    .with_session(sid.clone());
    match handler.handle_message(&mut protocol, req).unwrap() {
        HandlerAction::SendAuthResponse { response, session_id } => {
            assert_eq!(session_id, Some(sid.clone()));
            match response.payload {
                MessagePayload::AuthResponse(a) => {
                    assert!(a.success);
                    assert_eq!(a.session_token, Some("dummy-token".to_string()));
                }
                _ => panic!(),
            }
        }
        _ => panic!(),
    }
    let input = ProtocolMessage::new(
        MessageType::InputEvent,
        MessagePayload::InputEvent(InputEventPayload { event_type: "mouse".to_string(), data: "{}".to_string() }),
    )
    .with_session(sid.clone());
    match handler.handle_message(&mut protocol, input).unwrap() {
        HandlerAction::ForwardInput { kind, .. } => assert_eq!(kind, InputKind::Mouse),
        _ => panic!(),
    }
    let bye = ProtocolMessage::new(
        MessageType::Goodbye,
        MessagePayload::Goodbye(GoodbyePayload { reason: "done".to_string(), code: 0 }),
    )
    .with_session(sid.clone());
    handler.handle_message(&mut protocol, bye).unwrap();
    assert_eq!(handler.session_count(), 0);
    assert_eq!(protocol.active_sessions(), 0);
}

#[test]
fn server_reports_failed_replies() {
    let mut handler = ServerMessageHandler::new(ServerConfig::default(), false);
    let action = HandlerAction::SendAuthResponse {
        response: ProtocolMessage::new(MessageType::Pong, MessagePayload::Pong),
        session_id: None,
    };
    match handler.reply_sent(&action, Err("closed".to_string())) {
        Err(ServerError::Generic(m)) => assert_eq!(m, "Failed to send auth response: closed"),
        _ => panic!(),
    }
}

#[test]
fn client_answers_server_messages() {
    let handler = ClientMessageHandler::new(ClientConfig::default(), true);
    let hb = ProtocolMessage::new(MessageType::Heartbeat, MessagePayload::Heartbeat(HeartbeatPayload { sequence_number: 3 }))
        .with_session("s-1".to_string());
    match handler.handle_message(hb).unwrap() {
        ClientAction::Send(p) => {
            assert_eq!(p.message_type(), &MessageType::Pong);
            assert_eq!(p.session_id(), Some(&"s-1".to_string()));
        }
        _ => panic!(),
    }
    let refused = ProtocolMessage::new(
        MessageType::AuthResponse,
        MessagePayload::AuthResponse(AuthResponsePayload { success: false, session_token: None, error_message: None }),
    );
    match handler.handle_message(refused) {
        Err(ClientError::Authentication(m)) => assert_eq!(m, "Unknown authentication error"),
        _ => panic!(),
    }
    let granted = ProtocolMessage::new(
        MessageType::AuthResponse,
        MessagePayload::AuthResponse(AuthResponsePayload { success: true, session_token: None, error_message: None }),
    );
    assert!(matches!(handler.handle_message(granted), Ok(ClientAction::StartInputCapture)));
}

fn seen(name: &str, t: ServiceType, last: u8) -> ServiceInfo {
    let mut s = ServiceInfo::new(
        t,
        name.to_string(),
        NetworkAddress::new(IpAddress::V4(10, 0, 0, last), 8443),
        ServiceCapabilities::default(),
    );
    s.last_seen = Timestamp { secs: 1, nanos: 0 };
    s
}

#[test]
fn client_program_picks_its_server() {
    let mut config = ProgramConfig::named("me".to_string());
    let services = vec![seen("a", ServiceType::Client, 1), seen("a", ServiceType::Server, 2), seen("a", ServiceType::Server, 3)];
    assert!(matches!(choose_server_address(&config, Some(&services)).ip, IpAddress::V4(127, 0, 0, 1)));
    config.server_name = Some("a".to_string());
    assert!(matches!(choose_server_address(&config, Some(&services)).ip, IpAddress::V4(10, 0, 0, 2)));
    assert_eq!(choose_server_address(&config, None).port, 8080);
    config.server_address = parse_server_argument("192.168.5.5:7000");
    assert!(matches!(choose_server_address(&config, Some(&services)).ip, IpAddress::V4(192, 168, 5, 5)));
    assert!(parse_server_argument("192.168.5.5").is_none());
    assert!(parse_server_argument("host:7000").is_none());
}

#[test]
fn client_program_lists_servers() {
    let services = vec![seen("a", ServiceType::Server, 2), seen("b", ServiceType::Client, 3)];
    assert_eq!(
        listing_lines(&services, Timestamp { secs: 2, nanos: 0 }),
        vec!["Available servers:".to_string(), "  - a at 10.0.0.2:8443 (active)".to_string()]
    );
    assert_eq!(
        listing_lines(&services, Timestamp { secs: 400, nanos: 0 })[1],
        "  - a at 10.0.0.2:8443 (expired)".to_string()
    );
    assert_eq!(listing_lines(&vec![], Timestamp { secs: 0, nanos: 0 }), vec!["Available servers:".to_string(), "  No servers found".to_string()]);
    let mut config = ProgramConfig::named("me".to_string());
    config.auto_discovery = false;
    let client = ProgramClient::new(config);
    assert_eq!(client.list_servers(), vec!["mDNS discovery not enabled".to_string()]);
    assert!(client.browse_name().is_none());
}

#[test]
fn client_auth_request_names_the_user() {
    let handler = ClientMessageHandler::new(ClientConfig::default(), false);
    let m = handler.auth_request("s-9".to_string());
    assert_eq!(m.message_type(), &MessageType::AuthRequest);
    assert_eq!(m.session_id(), Some(&"s-9".to_string()));
    match m.payload {
        MessagePayload::AuthRequest(a) => {
            assert_eq!(a.auth_method, "password");
            assert!(a.credentials.starts_with("{\"password_hash\":\"dummy_password_hash\",\"username\":\""));
            let v: serde_json::Value = serde_json::from_str(&a.credentials).unwrap();
            assert_eq!(v["username"], serde_json::Value::String(whoami::username()));
        }
        _ => panic!(),
    }
}

#[test]
fn goodbye_after_hello_restores_the_sessions() {
    let mut handler = ServerMessageHandler::new(ServerConfig::default(), false);
    let mut protocol = ProtocolManager::default();
    let first = match handler.handle_hello(&mut protocol, hello()).unwrap() {
        HandlerAction::SendWelcome(m) => m.session_id().unwrap().clone(),
        _ => panic!(),
    };
    let second = match handler.handle_hello(&mut protocol, hello()).unwrap() {
        HandlerAction::SendWelcome(m) => m.session_id().unwrap().clone(),
        _ => panic!(),
    };
    assert_ne!(first, second);
    assert_eq!(handler.session_count(), 2);
    let bye = ProtocolMessage::new(
        MessageType::Goodbye,
        MessagePayload::Goodbye(GoodbyePayload { reason: "done".to_string(), code: 0 }),
    )
    .with_session(second);
    handler.handle_message(&mut protocol, bye).unwrap();
    assert_eq!(handler.session_count(), 1);
    assert_eq!(protocol.active_sessions(), 1);
    let left = handler.get_active_sessions();
    assert_eq!(left[0].session_id, first);
    assert!(protocol.get_session(&first).is_some());
}
