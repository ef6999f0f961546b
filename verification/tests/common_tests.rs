use soft_kvm::kvm_common::utils::{after_bind, first_port, no_free_port, PortScan};
use soft_kvm::kvm_common::buffer::RingBuffer;
use soft_kvm::kvm_common::network::{is_lan_address, parse_ipv4, parse_ipv4_octet, push_ip};
use soft_kvm::kvm_common::string::{normalize_service_name, validate_version};
use soft_kvm::kvm_common::types::{IpAddress, NetworkAddress, Resolution, VideoQuality};
use soft_kvm::kvm_core::error::KvmError;
use soft_kvm::kvm_core::utils::{format_duration, format_duration_secs, parse_address, validate_resolution};
use soft_kvm::text::{decimal_string, find_str, join_strings, parse_unsigned_exec, split_char, split_once_char};

fn ip_string(ip: IpAddress) -> String {
    let mut s = String::new();
    push_ip(&mut s, &ip);
    s
}

#[test]
fn ring_buffer_keeps_the_latest_items_in_order() {
    let mut b: RingBuffer<u32> = RingBuffer::new(3);
    assert_eq!(b.len(), 0);
    for i in 1..=5u32 {
        b.push(i);
    }
    assert_eq!(b.len(), 3);
    let items: Vec<u32> = b.iter().into_iter().map(|x| *x).collect();
    assert_eq!(items, vec![3, 4, 5]);
    assert_eq!(*b.get(0), 3);
    assert_eq!(*b.get(2), 5);
}

#[test]
fn ring_buffer_below_capacity_holds_everything() {
    let mut b: RingBuffer<&str> = RingBuffer::new(4);
    b.push("a");
    b.push("b");
    let items: Vec<&str> = b.iter().into_iter().map(|x| *x).collect();
    assert_eq!(items, vec!["a", "b"]);
}

#[test]
fn lan_addresses() {
    assert!(is_lan_address(&NetworkAddress::new(IpAddress::V4(10, 1, 2, 3), 80)));
    assert!(is_lan_address(&NetworkAddress::new(IpAddress::V4(172, 16, 0, 1), 80)));
    assert!(is_lan_address(&NetworkAddress::new(IpAddress::V4(172, 31, 255, 255), 80)));
    assert!(!is_lan_address(&NetworkAddress::new(IpAddress::V4(172, 32, 0, 1), 80)));
    assert!(is_lan_address(&NetworkAddress::new(IpAddress::V4(192, 168, 1, 10), 80)));
    assert!(is_lan_address(&NetworkAddress::localhost(8080)));
    assert!(!is_lan_address(&NetworkAddress::new(IpAddress::V4(127, 0, 0, 2), 80)));
    assert!(!is_lan_address(&NetworkAddress::new(IpAddress::V4(8, 8, 8, 8), 53)));
    assert!(!is_lan_address(&NetworkAddress::new(IpAddress::V6([0, 0, 0, 0, 0, 0, 0, 1]), 80)));
}

#[test]
fn ipv4_parsing() {
    assert!(matches!(parse_ipv4("192.168.1.20"), Some(IpAddress::V4(192, 168, 1, 20))));
    assert!(parse_ipv4("192.168.1").is_none());
    assert!(parse_ipv4("256.1.1.1").is_none());
    assert!(parse_ipv4("01.1.1.1").is_none());
    assert!(parse_ipv4("1..1.1").is_none());
    assert_eq!(parse_ipv4_octet("0"), Some(0));
    assert_eq!(parse_ipv4_octet("255"), Some(255));
    assert_eq!(parse_ipv4_octet("+1"), None);
}

#[test]
fn ip_text_matches_std_display() {
    let cases: Vec<(IpAddress, &str)> = vec![
        (IpAddress::V4(10, 0, 0, 1), "10.0.0.1"),
        (IpAddress::V6([0, 0, 0, 0, 0, 0, 0, 0]), "::"),
        (IpAddress::V6([0xfe80, 0, 0, 0, 0x1, 0x2, 0x3, 0x4]), "fe80::1:2:3:4"),
        (IpAddress::V6([1, 0, 0, 2, 0, 0, 0, 3]), "1:0:0:2::3"),
        (IpAddress::V6([1, 0, 2, 0, 3, 0, 4, 0]), "1:0:2:0:3:0:4:0"),
        (IpAddress::V6([0x2001, 0xdb8, 0, 0, 0, 0, 0, 0x1]), "2001:db8::1"),
        (IpAddress::V6([0, 0, 1, 0, 0, 0, 0, 0]), "0:0:1::"),
    ];
    for (ip, expected) in cases {
        assert_eq!(ip_string(ip), expected);
    }
    assert_eq!(ip_string(IpAddress::V6([0, 0, 0, 0, 0, 0, 0, 1])), "::1");
    assert_eq!(ip_string(IpAddress::V6([0, 0, 0, 0, 0, 0xffff, 0xc0a8, 0x0101])), "::ffff:192.168.1.1");
}

#[test]
fn service_names_and_versions() {
    assert_eq!(normalize_service_name("My KVM_Server-1!"), "mykvm_server-1");
    assert!(validate_version("1.2.3").is_ok());
    assert!(matches!(validate_version("1.2"), Err(KvmError::Config(m)) if m == "Invalid version format"));
    assert!(matches!(validate_version("1.x.3"), Err(KvmError::Config(m)) if m == "Invalid version number"));
}

#[test]
fn core_address_parsing() {
    let a = parse_address("192.168.0.5:9000").unwrap();
    assert_eq!(a.ip, "192.168.0.5");
    assert_eq!(a.port, 9000);
    assert!(matches!(parse_address("nope"), Err(KvmError::GenericError(m)) if m == "Invalid address format"));
    assert!(matches!(parse_address("a:70000"), Err(KvmError::GenericError(m)) if m == "Invalid port number"));
}

#[test]
fn durations_and_resolutions() {
    assert_eq!(format_duration_secs(42), "42s");
    assert_eq!(format_duration_secs(125), "2m 5s");
    assert_eq!(format_duration_secs(3725), "1h 2m");
    assert_eq!(format_duration(std::time::Duration::from_millis(61_500)), "1m 1s");
    assert!(validate_resolution("1920x1080"));
    assert!(!validate_resolution("1920x"));
    assert!(!validate_resolution("1920*1080"));
}

#[test]
fn resolutions_and_qualities() {
    let r = Resolution::qhd();
    assert_eq!((r.width, r.height), (2560, 1440));
    let q = VideoQuality::low_latency();
    assert_eq!((q.fps, q.bitrate_mbps), (60, 50));
}

#[test]
fn text_helpers() {
    assert_eq!(split_char("a:b::c", ':'), vec!["a", "b", "", "c"]);
    assert_eq!(split_char("", ':'), vec![""]);
    assert_eq!(decimal_string(0), "0");
    assert_eq!(decimal_string(1234567), "1234567");
    assert_eq!(parse_unsigned_exec("+42", 100), Some(42));
    assert_eq!(parse_unsigned_exec("101", 100), None);
    assert_eq!(parse_unsigned_exec("", 100), None);
    assert_eq!(parse_unsigned_exec("4a", 100), None);
    assert_eq!(split_once_char("k=v=w", '='), Some(("k".to_string(), "v=w".to_string())));
    assert_eq!(split_once_char("kv", '='), None);
    assert_eq!(join_strings(&vec!["a".to_string(), "b".to_string()], ','), "a,b");
    assert_eq!(find_str("hello world", "o w"), Some(4));
    assert_eq!(find_str("hello", "z"), None);
}

#[test]
fn normalizing_twice_changes_nothing() {
    for name in ["My Server #1", "Soft-KVM_01", "  ", "ABC.def"] {
        let once = normalize_service_name(name);
        assert_eq!(normalize_service_name(&once), once);
    }
    assert_eq!(normalize_service_name("My Server #1"), "myserver1");
    assert_eq!(normalize_service_name("Soft-KVM_01"), "soft-kvm_01");
}

#[test]
fn port_scan_steps() {
    assert_eq!(first_port(8000), PortScan::Try(8000));
    assert_eq!(first_port(65535), PortScan::Exhausted);
    assert_eq!(after_bind(8000, true), PortScan::Found(8000));
    assert_eq!(after_bind(8000, false), PortScan::Try(8001));
    assert_eq!(after_bind(65534, false), PortScan::Exhausted);
    assert!(matches!(no_free_port(), KvmError::Network(m) if m == "No available ports found"));
}
