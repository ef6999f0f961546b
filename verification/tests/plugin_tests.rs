use soft_kvm::plugins::service::{control_reply, ControlReply, ServiceControlEvent};
use soft_kvm::plugins::input::{inject_keyboard_event, inject_mouse_event, InputCaptureState, KeyboardEvent, MouseEvent};
use soft_kvm::plugins::video::CapturePlatform;
use soft_kvm::kvm_core::error::KvmError;
use soft_kvm::plugins::tls::{TlsConfig, TlsManager};
use soft_kvm::kvm_core::types::{NetworkAddress as CoreAddress, ServiceType as CoreType};
use soft_kvm::plugins::discovery::{DiscoveryConfig, DiscoveryState};
use soft_kvm::plugins::input::{
    calculate_relative_movement, create_test_keyboard_event, create_test_mouse_event, validate_config,
    validate_keyboard_event, validate_mouse_event, InputConfig,
};
use soft_kvm::plugins::protocol::{plugin_message, ProtocolPluginConfig, ProtocolPluginState};
use soft_kvm::plugins::security::{certificate_fingerprint, parse_bool, SecurityConfigLoader, SecurityEnv};
use soft_kvm::plugins::service::{
    plist_content, ConfigLoader, ServiceEnv, ServiceManager, ServiceManagerBuilder, ServiceState,
};
use soft_kvm::plugins::video::{dummy_frame, filled_bytes, frame_interval_millis, get_video_frame, parse_resolution};
use soft_kvm::protocol::messages::{MessagePayload, MessageType};

#[test]
fn input_validation() {
    assert!(validate_config(&InputConfig { keyboard_enabled: false, mouse_enabled: true }).is_ok());
    assert_eq!(
        validate_config(&InputConfig { keyboard_enabled: false, mouse_enabled: false }),
        Err("At least keyboard or mouse input must be enabled".to_string())
    );
    assert!(validate_keyboard_event(&create_test_keyboard_event(255, true)).is_ok());
    assert_eq!(validate_keyboard_event(&create_test_keyboard_event(256, true)), Err("Invalid key code".to_string()));
    assert!(validate_mouse_event(&create_test_mouse_event(1, 2, Some(15), Some(true))).is_ok());
    assert_eq!(
        validate_mouse_event(&create_test_mouse_event(1, 2, Some(16), None)),
        Err("Invalid mouse button".to_string())
    );
    assert_eq!(calculate_relative_movement(10, 20, 4, 30), (-6, 10));
}

#[test]
fn security_settings_from_environment() {
    assert_eq!(parse_bool(&"true".to_string()), Some(true));
    assert_eq!(parse_bool(&"TRUE".to_string()), None);
    let base = SecurityConfigLoader::create_default();
    let env = SecurityEnv {
        tls_enabled: Some("maybe".to_string()),
        require_client_cert: Some("true".to_string()),
        handshake_timeout: Some("soon".to_string()),
    };
    let c = SecurityConfigLoader::override_from_env(base, &env);
    assert!(c.tls.enabled);
    assert!(c.tls.require_client_cert);
    assert_eq!(c.handshake.timeout_seconds, 30);
    let env = SecurityEnv { tls_enabled: Some("false".to_string()), require_client_cert: None, handshake_timeout: Some("12".to_string()) };
    let c = SecurityConfigLoader::override_from_env(c, &env);
    assert!(!c.tls.enabled);
    assert!(c.tls.require_client_cert);
    assert_eq!(c.handshake.timeout_seconds, 12);
}

#[test]
fn certificate_fingerprints_are_sha256_hex() {
    assert_eq!(certificate_fingerprint(&vec![]), None);
    assert_eq!(
        certificate_fingerprint(&vec![b"abc".to_vec(), b"ignored".to_vec()]),
        Some("ba7816bf8f01cfea414140de5dae2223b00361a396177a9cb410ff61f20015ad".to_string())
    );
}

#[test]
fn service_settings_from_environment() {
    let env = ServiceEnv {
        control_port: Some("9000".to_string()),
        video_port: Some("70000".to_string()),
        log_level: Some("debug".to_string()),
    };
    let c = ConfigLoader::override_from_env(ConfigLoader::create_default(), &env);
    assert_eq!(c.network.control_port, 9000);
    assert_eq!(c.network.video_port, 8081);
    assert_eq!(c.logging.level, "debug");
}

#[test]
fn service_lifecycle_scenario() {
    let mut m = ServiceManager::new(ConfigLoader::create_default());
    assert_eq!(m.get_state(), ServiceState::Stopped);
    assert!(m.begin_stop().is_err());
    m.begin_start().unwrap();
    assert_eq!(m.get_state(), ServiceState::Starting);
    assert!(m.begin_start().is_err());
    m.finish_start(Ok(())).unwrap();
    assert_eq!(m.get_state(), ServiceState::Running);
    m.begin_stop().unwrap();
    m.finish_stop(Ok(())).unwrap();
    assert_eq!(m.get_state(), ServiceState::Stopped);
    m.begin_start().unwrap();
    assert!(m.finish_start(Err(soft_kvm::kvm_core::error::KvmError::Timeout)).is_err());
    assert_eq!(m.get_state(), ServiceState::Error);
    assert!(m.begin_start().is_err());
    assert!(m.begin_stop().is_err());
}

#[test]
fn service_builder() {
    let m = ServiceManagerBuilder::new().with_name("kvm2").with_control_port(7000).with_video_port(7001).build();
    assert_eq!(m.get_config().service.name, "kvm2");
    assert_eq!(m.get_config().network.control_port, 7000);
    assert_eq!(m.get_config().network.video_port, 7001);
    assert_eq!(m.get_state(), ServiceState::Stopped);
}

#[test]
fn launchd_plist() {
    let p = plist_content(None);
    assert!(p.starts_with("<?xml version=\"1.0\" encoding=\"UTF-8\"?>"));
    assert!(p.contains("<string>com.soft-kvm.server</string>"));
    assert!(p.contains("<key>KeepAlive</key>"));
}

#[test]
fn video_helpers() {
    assert_eq!(frame_interval_millis(30), 33);
    assert_eq!(filled_bytes(7, 3), vec![7, 7, 7]);
    assert_eq!(parse_resolution("640x480"), Ok((640, 480)));
    assert_eq!(parse_resolution("640"), Err("Invalid resolution format: 640".to_string()));
    assert_eq!(parse_resolution("ax480"), Err("Invalid width".to_string()));
    assert_eq!(parse_resolution("640xb"), Err("Invalid height".to_string()));
    let f = dummy_frame(3, 99);
    assert_eq!(f.sequence_number, 3);
    assert_eq!(f.timestamp, 99);
}

#[test]
fn protocol_plugin_commands() {
    let mut state = ProtocolPluginState::new();
    assert_eq!(state.connect_to_protocol_server(Ok(("10.0.0.9".to_string(), 8080))), Err("Protocol not initialized".to_string()));
    assert_eq!(state.init_protocol(ProtocolPluginConfig::default()), Ok("Protocol initialized successfully".to_string()));
    assert_eq!(state.start_protocol_server(Ok("0.0.0.0:8080".to_string())), Ok("Protocol server started on 0.0.0.0:8080".to_string()));
    assert_eq!(state.start_protocol_server(Err("bad".to_string())), Err("Invalid address: bad".to_string()));
    assert_eq!(
        state.connect_to_protocol_server(Ok(("10.0.0.9".to_string(), 8080))),
        Ok("Connected to server, session: session-1".to_string())
    );
    assert_eq!(
        state.connect_to_protocol_server(Ok(("10.0.0.9".to_string(), 8081))),
        Ok("Connected to server, session: session-2".to_string())
    );
    let status = state.get_protocol_status();
    assert!(status.is_initialized);
    assert_eq!(status.active_sessions, 2);
    assert_eq!(status.total_sessions, 2);
    assert_eq!(
        state.send_protocol_message("session-1".to_string(), "hello"),
        Ok("Message sent to session session-1".to_string())
    );
    assert_eq!(
        state.send_protocol_message("session-1".to_string(), "heartbeat"),
        Err("Failed to send message: Authentication error: Session not authenticated".to_string())
    );
    assert_eq!(
        state.send_protocol_message("nope".to_string(), "hello"),
        Err("Failed to send message: Session error: Session not found: nope".to_string())
    );
    assert_eq!(state.send_protocol_message("session-1".to_string(), "video_start"), Err("Unsupported message type for sending: video_start".to_string()));
    assert_eq!(state.send_protocol_message("session-1".to_string(), "bogus"), Err("Unknown message type: bogus".to_string()));
    assert_eq!(state.shutdown_protocol(), Ok("Protocol shutdown successfully".to_string()));
    assert_eq!(state.shutdown_protocol(), Ok("Protocol was not running".to_string()));
}

#[test]
fn protocol_plugin_messages() {
    let m = plugin_message("heartbeat", "s".to_string()).unwrap();
    assert_eq!(m.message_type(), &MessageType::Heartbeat);
    assert!(matches!(m.payload, MessagePayload::Heartbeat(h) if h.sequence_number == 1));
    let m = plugin_message("hello", "s".to_string()).unwrap();
    match m.payload {
        MessagePayload::Hello(h) => {
            assert_eq!(h.client_info.client_name, "Soft KVM Client");
            assert_eq!(h.capabilities, vec!["video".to_string(), "input".to_string()]);
        }
        _ => panic!(),
    }
}

#[test]
fn discovery_plugin_commands() {
    let mut state = DiscoveryState::new();
    assert_eq!(state.start_discovery().0, Err("Discovery not initialized".to_string()));
    assert_eq!(state.unregister_service(), Err("No service registered".to_string()));
    let (reply, browse) = state.init_discovery(DiscoveryConfig { service_type: CoreType::Server, auto_discovery: true, discovery_interval: 30 });
    assert_eq!(reply, Ok("Discovery initialized successfully".to_string()));
    assert_eq!(browse, Some("_soft-kvm-server._tcp.local.".to_string()));
    assert_eq!(state.start_discovery(), (Ok("Service discovery started".to_string()), None));
    let (reply, advertise) = state.register_service("desk".to_string(), CoreType::Client, CoreAddress::localhost(9000));
    assert_eq!(reply, Ok("Service registered: desk (Client) at 127.0.0.1:9000".to_string()));
    assert_eq!(advertise, Some("desk._soft-kvm-client._tcp".to_string()));
    let status = state.get_discovery_status();
    assert!(status.is_discovering);
    assert!(status.is_registered);
    assert_eq!(status.available_services.len(), 1);
    assert_eq!(state.unregister_service(), Ok("Service unregistered".to_string()));
    assert_eq!(state.get_available_services().unwrap().len(), 0);
    assert_eq!(state.stop_discovery(), Ok("Service discovery stopped".to_string()));
}

#[test]
fn tls_setup() {
    match TlsConfig::server(vec![vec![1, 2, 3]], vec![4, 5, 6]) {
        Err(KvmError::Security(m)) => assert!(m.starts_with("Failed to add CA certificate: ")),
        _ => panic!("a bad certificate was accepted"),
    }
    let client = TlsConfig::client(rustls::RootCertStore::empty());
    assert_eq!(client.alpn_protocols, vec![b"soft-kvm/1".to_vec()]);
    let connection = client.build().unwrap();
    assert!(connection.connector().is_ok());
    assert!(matches!(connection.acceptor(), Err(KvmError::Security(m)) if m == "Cannot accept on client connection"));
    let manager = TlsManager::from_config(TlsConfig::client(rustls::RootCertStore::empty())).unwrap();
    assert_eq!(manager.get_certificate_fingerprint(), None);
    assert_eq!(manager.get_stats().total_connections, 0);
    let mut server_side = TlsConfig::client(rustls::RootCertStore::empty());
    server_side.connection_type = soft_kvm::plugins::security::TlsConnectionType::Server;
    assert!(matches!(server_side.build(), Err(KvmError::Security(m)) if m == "Private key required for server"));
    server_side.private_key = Some(vec![0u8; 4]);
    server_side.cert_chain = vec![b"abc".to_vec()];
    assert!(matches!(server_side.build(), Err(KvmError::Security(m)) if m.starts_with("Failed to create server config: ")));
    let m = TlsManager::new(server_side);
    assert_eq!(
        m.get_certificate_fingerprint(),
        Some("ba7816bf8f01cfea414140de5dae2223b00361a396177a9cb410ff61f20015ad".to_string())
    );
}

#[test]
fn shell_frame_is_stamped_with_the_clock() {
    let frame = get_video_frame().unwrap();
    assert_eq!((frame.width, frame.height), (1920, 1080));
    assert_eq!(frame.data.len(), 1920 * 1080 * 4);
    assert!(frame.data.iter().all(|b| *b == 0));
    // Milliseconds since the epoch: well past 2020.
    assert!(frame.timestamp > 1_577_836_800_000);
}

#[test]
fn injection_is_refused_on_unsupported_platforms() {
    let key = KeyboardEvent { key_code: 65, pressed: true, modifiers: 0 };
    let mouse = MouseEvent { x: 1, y: 2, button: None, pressed: None, wheel_delta: None };
    assert_eq!(inject_keyboard_event(CapturePlatform::Linux, &key), Ok(()));
    assert_eq!(inject_mouse_event(CapturePlatform::MacOs, &mouse), Ok(()));
    assert_eq!(inject_keyboard_event(CapturePlatform::Unsupported, &key), Err("Unsupported platform".to_string()));
    assert_eq!(inject_mouse_event(CapturePlatform::Unsupported, &mouse), Err("Unsupported platform".to_string()));
    let config = InputConfig { keyboard_enabled: true, mouse_enabled: false };
    let mut other = InputCaptureState::new(CapturePlatform::Unsupported);
    assert_eq!(other.initialize_input_capture(&config), Err("Unsupported platform".to_string()));
    let mut linux = InputCaptureState::new(CapturePlatform::Windows);
    assert_eq!(linux.initialize_input_capture(&config), Ok(()));
    assert_eq!(linux.initialize_input_capture(&config), Err("Input capture already initialized".to_string()));
}

#[test]
fn error_state_absorbs_every_request() {
    let mut m = ServiceManager::new(ConfigLoader::create_default());
    m.begin_start().unwrap();
    assert!(m.finish_start(Err(KvmError::Timeout)).is_err());
    for i in 0..6 {
        let refused = if i % 2 == 0 { m.begin_start() } else { m.begin_stop() };
        assert!(matches!(refused, Err(KvmError::Config(_))));
        assert_eq!(m.get_state(), ServiceState::Error);
    }
}

#[test]
fn windows_control_requests() {
    assert_eq!(control_reply(ServiceControlEvent::Stop), ControlReply::NoError);
    assert_eq!(control_reply(ServiceControlEvent::Interrogate), ControlReply::NoError);
    assert_eq!(control_reply(ServiceControlEvent::Other), ControlReply::NotImplemented);
}

#[test]
fn tls_counters_keep_active_below_total() {
    let mut s = soft_kvm::plugins::security::TlsStats::new();
    s.record_connection(Some("TLSv1_3".to_string()), None);
    s.record_connection(None, Some("TLS13_AES_256_GCM_SHA384".to_string()));
    s.record_handshake_failure();
    s.record_connection_closed();
    s.record_connection_closed();
    s.record_connection_closed();
    assert_eq!((s.total_connections, s.active_connections, s.handshake_failures), (2, 0, 1));
    assert!(s.active_connections <= s.total_connections);
    assert_eq!(s.protocol_version, Some("TLSv1_3".to_string()));
}
