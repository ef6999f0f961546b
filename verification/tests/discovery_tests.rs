use soft_kvm::discovery::registry::{ServiceInfo as RegistryInfo, ServiceResolver as Registry};
use soft_kvm::discovery::resolver::{
    parse_address_text, parse_capabilities, parse_quality, parse_resolution, parse_service_info, ServiceResolver,
};
use soft_kvm::discovery::service::{
    MdnsServiceName, ServiceCapabilities, ServiceInfo, ServiceType, TxtRecordParser, PACKAGE_VERSION,
};
use soft_kvm::kvm_common::types::{IpAddress, NetworkAddress, Resolution, VideoQuality};
use soft_kvm::kvm_core::error::KvmError;
use soft_kvm::kvm_core::types::{NetworkAddress as CoreAddress, ServiceId, ServiceType as CoreType, Timestamp};

fn sample_service(name: &str, service_type: ServiceType) -> ServiceInfo {
    let caps = ServiceCapabilities {
        supported_resolutions: vec![Resolution::new(1920, 1080)],
        supported_qualities: vec![VideoQuality { fps: 60, bitrate_mbps: 50, compression_quality_permille: 800 }],
        max_clients: 4,
        features: vec!["tls_1_3".to_string()],
    };
    ServiceInfo::new(service_type, name.to_string(), NetworkAddress::new(IpAddress::V4(192, 168, 1, 7), 8443), caps)
}

#[test]
fn txt_record_serialization() {
    let mut info = sample_service("office", ServiceType::Server);
    info.id = ServiceId(0x0123_4567_89ab_cdef_0123_4567_89ab_cdef);
    let bytes = TxtRecordParser::serialize(&info);
    let text = String::from_utf8(bytes).unwrap();
    let entries: Vec<&str> = text.split('\0').collect();
    assert_eq!(
        entries,
        vec![
            "id=01234567-89ab-cdef-0123-456789abcdef",
            "name=office",
            "version=0.1.0",
            "type=Server",
            "address=192.168.1.7:8443",
            "res=1920x1080",
            "quality=fps60Mbps50",
            "max_clients=4",
            "feature=tls_1_3",
        ]
    );
}

#[test]
fn txt_record_parsing() {
    let pairs = TxtRecordParser::parse(b"a=1\0b=x=y\0junk\0a=2").unwrap();
    assert_eq!(pairs.len(), 2);
    assert_eq!(pairs.get("a").unwrap(), "2");
    assert_eq!(pairs.get("b").unwrap(), "x=y");
    assert!(pairs.get("junk").is_none());
    assert!(matches!(TxtRecordParser::parse(&[0xff, 0xfe]), Err(KvmError::Protocol(m)) if m == "Invalid TXT record encoding"));
}

#[test]
fn txt_record_round_trip_scenario() {
    let info = sample_service("den", ServiceType::Client);
    let pairs = TxtRecordParser::parse(&TxtRecordParser::serialize(&info)).unwrap();
    let back = parse_service_info(&pairs).unwrap();
    assert_eq!(back.name, "den");
    assert_eq!(back.service_type, ServiceType::Client);
    assert!(matches!(back.address.ip, IpAddress::V4(192, 168, 1, 7)));
    assert_eq!(back.address.port, 8443);
    assert_eq!(back.capabilities.max_clients, 4);
    assert_eq!(back.version, PACKAGE_VERSION);
    assert!(back.capabilities.supported_resolutions.is_empty());
    assert!(back.capabilities.supported_qualities.is_empty());
    assert!(back.capabilities.features.is_empty());
}

#[test]
fn service_info_errors() {
    let pairs = TxtRecordParser::parse(b"name=x").unwrap();
    assert!(matches!(parse_service_info(&pairs), Err(KvmError::Protocol(m)) if m == "Missing address"));
    let pairs = TxtRecordParser::parse(b"address=1.2.3.4").unwrap();
    assert!(matches!(parse_service_info(&pairs), Err(KvmError::Protocol(m)) if m == "Invalid address format"));
    let pairs = TxtRecordParser::parse(b"address=1.2.3:80").unwrap();
    assert!(matches!(parse_service_info(&pairs), Err(KvmError::Protocol(m)) if m == "Invalid IP address"));
    let pairs = TxtRecordParser::parse(b"address=1.2.3.4:99999").unwrap();
    assert!(matches!(parse_service_info(&pairs), Err(KvmError::Protocol(m)) if m == "Invalid port"));
    let pairs = TxtRecordParser::parse(b"address=1.2.3.4:80").unwrap();
    let info = parse_service_info(&pairs).unwrap();
    assert_eq!(info.name, "unknown");
    assert_eq!(info.service_type, ServiceType::Server);
    assert_eq!(info.capabilities.max_clients, 1);
}

#[test]
fn resolutions_and_qualities_from_text() {
    let r = parse_resolution("1280x720").unwrap();
    assert_eq!((r.width, r.height), (1280, 720));
    assert!(parse_resolution("1280x").is_none());
    assert!(parse_resolution("1280x720x1").is_none());
    let q = parse_quality("fps30Mbps25").unwrap();
    assert_eq!((q.fps, q.bitrate_mbps, q.compression_quality_permille), (30, 25, 800));
    assert!(parse_quality("fpsxMbps25").is_none());
    assert!(parse_quality("30Mbps").is_none());
    assert!(parse_address_text("10.0.0.1:5000").is_ok());
}

#[test]
fn capabilities_from_metadata() {
    let pairs = TxtRecordParser::parse(b"max_clients=7\0res=1x1").unwrap();
    let caps = parse_capabilities(&pairs);
    assert_eq!(caps.max_clients, 7);
    assert!(caps.supported_resolutions.is_empty());
    let pairs = TxtRecordParser::parse(b"max_clients=lots").unwrap();
    assert_eq!(parse_capabilities(&pairs).max_clients, 1);
}

#[test]
fn resolver_caches_what_it_discovers() {
    let mut resolver = ServiceResolver::new(ServiceType::Server);
    assert_eq!(resolver.start_discovery(), MdnsServiceName::KVM_SERVER);
    let info = sample_service("rack", ServiceType::Server);
    assert!(resolver.record_discovered(&TxtRecordParser::serialize(&info)));
    assert!(!resolver.record_discovered(b"name=bad"));
    let now = Timestamp::now();
    let available = resolver.get_available_services_at(now);
    assert_eq!(available.len(), 1);
    assert_eq!(available[0].name, "rack");
    let later = Timestamp { secs: now.secs + 301, nanos: now.nanos };
    assert!(resolver.get_available_services_at(later).is_empty());
    resolver.cleanup_expired_services_at(later);
    assert!(resolver.get_available_services_at(now).is_empty());
}

#[test]
fn expiry_of_services() {
    let mut info = sample_service("x", ServiceType::Server);
    info.last_seen = Timestamp { secs: 1, nanos: 0 };
    assert!(!info.is_expired_at(Timestamp { secs: 301, nanos: 0 }));
    assert!(info.is_expired_at(Timestamp { secs: 301, nanos: 1 }));
    assert!(info.is_expired_at(Timestamp { secs: 0, nanos: 999_999_999 }));
    info.refresh();
    assert!(!info.is_expired());
}

#[test]
fn registry_by_id() {
    let mut reg = Registry::new(CoreType::Server);
    assert_eq!(reg.start_discovery().unwrap().unwrap(), "_soft-kvm-server._tcp.local.");
    assert!(reg.start_discovery().unwrap().is_none());
    let info = RegistryInfo {
        id: ServiceId(7),
        name: "desk".to_string(),
        service_type: CoreType::Server,
        address: CoreAddress::localhost(9000),
        last_seen: Timestamp { secs: 10, nanos: 500_000_000 },
    };
    assert_eq!(reg.register_service(info).unwrap().unwrap(), "desk._soft-kvm-server._tcp");
    assert!(reg.is_registered(&ServiceId(7)));
    assert_eq!(reg.get_available_services_at(Timestamp { secs: 310, nanos: 500_000_000 }).len(), 1);
    assert!(reg.get_available_services_at(Timestamp { secs: 310, nanos: 500_000_001 }).is_empty());
    reg.unregister_service(&ServiceId(7)).unwrap();
    assert!(!reg.is_registered(&ServiceId(7)));
}

#[test]
fn txt_entries_read_back_for_ipv6() {
    let caps = ServiceCapabilities { supported_resolutions: vec![], supported_qualities: vec![], max_clients: 2, features: vec![] };
    let mut info = ServiceInfo::new(
        ServiceType::Server,
        "lab".to_string(),
        NetworkAddress::new(IpAddress::V6([0xfe80, 0, 0, 0, 0, 0, 0, 1]), 9000),
        caps,
    );
    info.id = ServiceId(1);
    let pairs = TxtRecordParser::parse(&TxtRecordParser::serialize(&info)).unwrap();
    assert_eq!(pairs.get("id").unwrap(), "00000000-0000-0000-0000-000000000001");
    assert_eq!(pairs.get("name").unwrap(), "lab");
    assert_eq!(pairs.get("version").unwrap(), PACKAGE_VERSION);
    assert_eq!(pairs.get("type").unwrap(), "Server");
    assert_eq!(pairs.get("address").unwrap(), "fe80::1:9000");
    assert_eq!(pairs.get("max_clients").unwrap(), "2");
}

#[test]
fn discovered_record_needs_a_good_address() {
    let mut resolver = soft_kvm::discovery::resolver::ServiceResolver::new(ServiceType::Client);
    assert!(!resolver.record_discovered(b"name=x"));
    assert!(!resolver.record_discovered(&[0xff]));
    assert!(resolver.record_discovered(b"name=desk\0type=Client\0address=10.0.0.2:7000"));
    let found = resolver.get_available_services();
    assert_eq!(found.len(), 1);
    assert_eq!(found[0].name, "desk");
    assert_eq!(found[0].service_type, ServiceType::Client);
    assert_eq!(found[0].address.port, 7000);
}
