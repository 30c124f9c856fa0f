use netguard::config::{Config, DdosConfig, DetectionConfig, PortScanConfig};
use netguard::decoder::{ParsedPacket, Protocol};
use netguard::detection::{get_port_description, AlertType, DetectionEngine, Severity};

const SECOND: i64 = 1_000_000;
const T0: i64 = 1_700_000_000 * SECOND;

fn config(scan: Option<(usize, u64)>, ddos: Option<(usize, u64)>, suspicious: Vec<u16>) -> DetectionConfig {
    DetectionConfig {
        port_scan: PortScanConfig {
            enabled: scan.is_some(),
            threshold: scan.map_or(10, |s| s.0),
            window_seconds: scan.map_or(5, |s| s.1),
        },
        ddos: DdosConfig {
            enabled: ddos.is_some(),
            threshold: ddos.map_or(1000, |d| d.0),
            window_seconds: ddos.map_or(1, |d| d.1),
        },
        suspicious_ports: suspicious,
    }
}

fn tcp(src: &str, dst_port: u16) -> ParsedPacket {
    ParsedPacket {
        source_ip: src.to_string(),
        destination_ip: "10.0.0.1".to_string(),
        source_port: Some(40000),
        destination_port: Some(dst_port),
        protocol: Protocol::Tcp,
        size: 60,
    }
}

fn icmp(src: &str) -> ParsedPacket {
    ParsedPacket {
        source_ip: src.to_string(),
        destination_ip: "10.0.0.1".to_string(),
        source_port: None,
        destination_port: None,
        protocol: Protocol::Icmp,
        size: 42,
    }
}

#[test]
fn port_scan_fires_on_tenth_distinct_port() {
    let mut e = DetectionEngine::new(config(Some((10, 5)), None, vec![]));
    let mut alerts = Vec::new();
    for i in 0..10u16 {
        let a = e.check_packet_at(&tcp("192.168.1.50", 1000 - i * 100), T0 + i as i64 * 400_000);
        alerts.push(a);
    }
    assert!(alerts[..9].iter().all(|a| a.is_none()));
    let a = alerts[9].as_ref().expect("tenth port raises an alert");
    assert_eq!(a.alert_type, AlertType::PortScan);
    assert_eq!(a.alert_type.as_str(), "Port Scan");
    assert_eq!(a.severity, Severity::High);
    assert_eq!(a.severity.as_str(), "high");
    assert_eq!(a.source_ip, "192.168.1.50");
    assert_eq!(a.destination_ip.as_deref(), Some("10.0.0.1"));
    assert_eq!(a.timestamp, T0 + 9 * 400_000);
    assert_eq!(
        a.details,
        "Scanned 10 unique ports in 5 seconds: 100, 200, 300, 400, 500, 600, 700, 800, 900, 1000"
    );
}

#[test]
fn nine_distinct_ports_raise_nothing() {
    let mut e = DetectionEngine::new(config(Some((10, 5)), None, vec![]));
    for i in 0..9u16 {
        assert!(e.check_packet_at(&tcp("192.168.1.50", 2000 + i), T0 + i as i64 * SECOND / 2).is_none());
    }
    for i in 0..20u16 {
        assert!(e.check_packet_at(&tcp("192.168.1.50", 2000 + i % 9), T0 + 4 * SECOND).is_none());
    }
}

#[test]
fn port_scan_spread_over_time_never_fires() {
    let mut e = DetectionEngine::new(config(Some((5, 2)), None, vec![]));
    for i in 0..5u16 {
        assert!(e.check_packet_at(&tcp("172.16.0.9", 100 + i), T0 + i as i64 * 3 * SECOND).is_none());
    }
}

#[test]
fn port_scan_refires_while_condition_holds() {
    let mut e = DetectionEngine::new(config(Some((2, 5)), None, vec![]));
    assert!(e.check_packet_at(&tcp("1.1.1.1", 80), T0).is_none());
    assert!(e.check_packet_at(&tcp("1.1.1.1", 81), T0 + 1).is_some());
    let a = e.check_packet_at(&tcp("1.1.1.1", 80), T0 + 2).unwrap();
    assert_eq!(a.details, "Scanned 2 unique ports in 5 seconds: 80, 81");
}

#[test]
fn port_scan_window_is_inclusive_and_sources_are_separate() {
    let mut e = DetectionEngine::new(config(Some((2, 5)), None, vec![]));
    assert!(e.check_packet_at(&tcp("1.1.1.1", 80), T0).is_none());
    assert!(e.check_packet_at(&tcp("2.2.2.2", 81), T0 + SECOND).is_none());
    assert!(e.check_packet_at(&tcp("1.1.1.1", 81), T0 + 5 * SECOND).is_some());
    assert!(e.check_packet_at(&tcp("2.2.2.2", 82), T0 + 6 * SECOND + 1).is_none());
}

#[test]
fn packets_without_port_skip_port_scan() {
    let mut e = DetectionEngine::new(config(Some((1, 5)), None, vec![]));
    assert!(e.check_packet_at(&icmp("3.3.3.3"), T0).is_none());
    assert!(e.check_packet_at(&tcp("3.3.3.3", 9), T0).is_some());
}

#[test]
fn rate_fires_on_thousandth_packet() {
    let mut e = DetectionEngine::new(config(None, Some((1000, 1)), vec![]));
    for i in 0..999i64 {
        assert!(e.check_packet_at(&icmp("203.0.113.7"), T0 + i * 1000).is_none());
    }
    let a = e.check_packet_at(&icmp("203.0.113.7"), T0 + 999 * 1000).expect("alert on 1000th");
    assert_eq!(a.alert_type, AlertType::PossibleDdos);
    assert_eq!(a.alert_type.as_str(), "Possible DDoS");
    assert_eq!(a.severity, Severity::Critical);
    assert_eq!(
        a.details,
        "High packet rate detected: 1000.0 packets/second (threshold: 1000)"
    );
}

#[test]
fn rate_has_one_decimal_place() {
    let mut e = DetectionEngine::new(config(None, Some((3, 2)), vec![]));
    assert!(e.check_packet_at(&icmp("9.9.9.9"), T0).is_none());
    assert!(e.check_packet_at(&icmp("9.9.9.9"), T0 + 1).is_none());
    let a = e.check_packet_at(&icmp("9.9.9.9"), T0 + 2).unwrap();
    assert_eq!(a.details, "High packet rate detected: 1.5 packets/second (threshold: 3)");
    let mut e = DetectionEngine::new(config(None, Some((1, 3)), vec![]));
    let a = e.check_packet_at(&icmp("9.9.9.9"), T0).unwrap();
    assert_eq!(a.details, "High packet rate detected: 0.3 packets/second (threshold: 1)");
}

#[test]
fn old_packets_leave_the_rate_window() {
    let mut e = DetectionEngine::new(config(None, Some((3, 1)), vec![]));
    assert!(e.check_packet_at(&icmp("8.8.4.4"), T0).is_none());
    assert!(e.check_packet_at(&icmp("8.8.4.4"), T0 + 1).is_none());
    assert!(e.check_packet_at(&icmp("8.8.4.4"), T0 + SECOND + 2).is_none());
    assert!(e.check_packet_at(&icmp("8.8.4.4"), T0 + SECOND + 3).is_none());
    assert!(e.check_packet_at(&icmp("8.8.4.4"), T0 + SECOND + 4).is_some());
}

#[test]
fn rdp_port_is_suspicious() {
    let mut e = DetectionEngine::new(config(None, None, vec![23, 135, 445, 3389]));
    let a = e.check_packet_at(&tcp("192.168.1.77", 3389), T0).expect("one alert");
    assert_eq!(a.alert_type, AlertType::SuspiciousPort);
    assert_eq!(a.alert_type.as_str(), "Suspicious Port");
    assert_eq!(a.severity, Severity::Medium);
    assert_eq!(a.severity.as_str(), "medium");
    assert!(a.details.contains("RDP"));
    assert_eq!(a.details, "Connection to suspicious port 3389 (RDP - Brute force target)");
    assert!(e.check_packet_at(&tcp("192.168.1.77", 3390), T0).is_none());
}

#[test]
fn unlisted_description_is_generic() {
    let mut e = DetectionEngine::new(config(None, None, vec![6667]));
    let a = e.check_packet_at(&tcp("5.5.5.5", 6667), T0).unwrap();
    assert_eq!(a.details, "Connection to suspicious port 6667 (Unknown service)");
}

#[test]
fn port_scan_takes_priority_over_suspicious_port() {
    let mut e = DetectionEngine::new(config(Some((2, 5)), Some((2, 1)), vec![3389]));
    assert_eq!(
        e.check_packet_at(&tcp("6.6.6.6", 3389), T0).unwrap().alert_type,
        AlertType::SuspiciousPort
    );
    let a = e.check_packet_at(&tcp("6.6.6.6", 445), T0 + 1);
    assert!(a.is_none() || a.as_ref().unwrap().alert_type != AlertType::SuspiciousPort);
    let a = e.check_packet_at(&tcp("6.6.6.6", 3389), T0 + 2).unwrap();
    assert_eq!(a.alert_type, AlertType::PortScan);
}

#[test]
fn scan_and_suspicious_port_report_scan_only() {
    let mut e = DetectionEngine::new(config(Some((2, 5)), None, vec![3389]));
    assert!(e.check_packet_at(&tcp("7.7.7.7", 22), T0).is_none());
    let a = e.check_packet_at(&tcp("7.7.7.7", 3389), T0 + 1).unwrap();
    assert_eq!(a.alert_type, AlertType::PortScan);
    assert_eq!(a.details, "Scanned 2 unique ports in 5 seconds: 22, 3389");
}

#[test]
fn clock_driven_check_stamps_current_time() {
    let mut e = DetectionEngine::new(config(None, None, vec![23]));
    let a = e.check_packet(&tcp("4.4.4.4", 23)).unwrap();
    assert_eq!(a.alert_type, AlertType::SuspiciousPort);
    assert!(a.timestamp > T0);
    assert!(a.details.contains("Telnet"));
}

#[test]
fn port_descriptions() {
    assert_eq!(get_port_description(23), "Telnet - Insecure protocol");
    assert_eq!(get_port_description(135), "RPC - Often targeted");
    assert_eq!(get_port_description(445), "SMB - Ransomware vector");
    assert_eq!(get_port_description(3389), "RDP - Brute force target");
    assert_eq!(get_port_description(80), "Unknown service");
}

#[test]
fn severities_are_ordered() {
    assert!(Severity::Low < Severity::Medium);
    assert!(Severity::Medium < Severity::High);
    assert!(Severity::High < Severity::Critical);
}

#[test]
fn default_config() {
    let c = Config::default();
    assert!(c.interfaces.is_empty());
    assert!(c.detection.port_scan.enabled);
    assert_eq!(c.detection.port_scan.threshold, 10);
    assert_eq!(c.detection.port_scan.window_seconds, 5);
    assert!(c.detection.ddos.enabled);
    assert_eq!(c.detection.ddos.threshold, 1000);
    assert_eq!(c.detection.ddos.window_seconds, 1);
    assert_eq!(c.detection.suspicious_ports, vec![23, 135, 445, 3389]);
    assert!(c.detection.is_suspicious(445));
    assert!(!c.detection.is_suspicious(80));
    assert_eq!(c.firewall.default_policy, "allow");
    assert_eq!(c.logging.level, "info");
    assert_eq!(c.logging.file, "netguard.log");
    assert_eq!(c.database.path, "alerts.db");
    assert_eq!(c.database.retention_days, 30);
}
