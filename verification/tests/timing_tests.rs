use soft_kvm::bridge::unix_time_millis;
use soft_kvm::kvm_common::utils::Timer;
use soft_kvm::kvm_core::types::{NetworkAddress, Resolution, ServiceId, ServiceType, Timestamp};
use soft_kvm::kvm_core::utils::{generate_service_id, is_resolution_expired_at};
use soft_kvm::monitoring::{Measurement, MetricsCollector, PerformanceMonitor};
use soft_kvm::plugins::video::parse_resolution;
use soft_kvm::protocol::session::{PeerInfo, ProtocolSession};
use soft_kvm::protocol::ProtocolConfig;

fn has_v4_marks(v: u128) -> bool {
    (v >> 76) & 0xf == 4 && (v >> 60) & 0xf >= 8 && (v >> 60) & 0xf <= 11
}

#[test]
fn service_id_new_carries_uuid_v4_marks() {
    for _ in 0..16 {
        let id = ServiceId::new();
        assert!(has_v4_marks(id.0));
    }
}

#[test]
fn generated_service_ids_carry_uuid_v4_marks_and_differ() {
    let a = generate_service_id();
    let b = generate_service_id();
    assert!(has_v4_marks(a.0));
    assert!(has_v4_marks(b.0));
    assert_ne!(a.0, b.0);
}

#[test]
fn timer_elapsed_does_not_go_back() {
    let timer = Timer::new();
    let first = timer.elapsed();
    let second = timer.elapsed();
    assert!(second >= first);
}

#[test]
fn timer_reset_restarts_the_count() {
    let mut timer = Timer::new();
    let mut spin: u64 = 0;
    while timer.elapsed() < std::time::Duration::from_millis(20) {
        spin += 1;
    }
    assert!(spin > 0);
    timer.reset();
    assert!(timer.elapsed() < std::time::Duration::from_millis(20));
}

#[test]
fn uptime_and_measurements_grow_from_their_start() {
    let collector = MetricsCollector::new();
    let a = collector.uptime();
    let b = collector.uptime();
    assert!(b >= a);
    let mut monitor = PerformanceMonitor::new();
    let m = monitor.start_measurement();
    assert_eq!(m.operation(), "unknown");
    let video = m.record_video_operation();
    let (_c, took) = video.finish();
    assert!(took < std::time::Duration::from_secs(60));
    let input = Measurement::new(collector).with_operation("key").record_input_operation();
    let (_c, took) = input.finish();
    assert!(took < std::time::Duration::from_secs(60));
}

#[test]
fn unix_time_millis_is_after_2020() {
    let now = unix_time_millis();
    assert!(now > 1_577_836_800_000);
}

#[test]
fn resolution_text_reads_back() {
    for (w, h) in [(0u32, 0u32), (1920, 1080), (3840, 2160), (u32::MAX, 1)] {
        assert_eq!(parse_resolution(&format!("{}x{}", w, h)), Ok((w, h)));
    }
}

fn moment(secs: i64, nanos: u32) -> Timestamp {
    Timestamp { secs, nanos }
}

#[test]
fn timestamps_count_nanoseconds() {
    assert_eq!(moment(2, 5).nanos_since(&moment(1, 10)), 999_999_995);
    assert_eq!(moment(1, 10).nanos_since(&moment(2, 5)), -999_999_995);
    let now = Timestamp::now();
    assert!(now.secs > 1_577_836_800);
    assert!(now.nanos < 1_000_000_000);
}

#[test]
fn resolution_expires_a_nanosecond_after_its_timeout() {
    let resolution = Resolution {
        service_type: ServiceType::Server,
        address: NetworkAddress::localhost(8443),
        quality: None,
        last_seen: moment(100, 250),
    };
    assert!(!is_resolution_expired_at(&resolution, 30, moment(130, 250)));
    assert!(is_resolution_expired_at(&resolution, 30, moment(130, 251)));
    assert!(!is_resolution_expired_at(&resolution, 30, moment(99, 0)));
}

#[test]
fn session_times_out_a_nanosecond_after_its_timeout() {
    let peer = PeerInfo {
        peer_id: "p".to_string(),
        peer_name: "P".to_string(),
        address: NetworkAddress::localhost(1),
        capabilities: vec![],
        authenticated: false,
        last_seen: moment(0, 0),
    };
    let session = ProtocolSession::new("s".to_string(), peer, ProtocolConfig::default());
    let t = session.last_activity();
    assert!(!session.is_timed_out_at(moment(t.secs + 300, t.nanos)));
    assert!(!session.is_timed_out());
    let (secs, nanos) = if t.nanos == 999_999_999 { (t.secs + 301, 0) } else { (t.secs + 300, t.nanos + 1) };
    assert!(session.is_timed_out_at(moment(secs, nanos)));
}
