use netguard::capture::{select_interface, InterfaceStatus};
use netguard::cli::RulesCommands;
use netguard::error::NetGuardError;
use netguard::stats::{count_alert_types, StatsMonitor, TrafficCounters};
use netguard::storage::alerts_query;

fn iface(name: &str, has_addresses: bool, is_up: bool) -> InterfaceStatus {
    InterfaceStatus { name: name.to_string(), has_addresses, is_up }
}

#[test]
fn selects_named_interface() {
    let c = vec![iface("lo", true, true), iface("eth0", false, false), iface("eth0", true, true)];
    assert_eq!(select_interface(&c, Some("eth0".to_string())), Ok(1));
    assert_eq!(
        select_interface(&c, Some("wlan0".to_string())),
        Err(NetGuardError::InterfaceNotFound("wlan0".to_string()))
    );
}

#[test]
fn selects_first_usable_interface() {
    let c = vec![iface("docker0", true, false), iface("eth1", false, true), iface("eth0", true, true)];
    assert_eq!(select_interface(&c, None), Ok(2));
    let none = vec![iface("docker0", true, false)];
    assert_eq!(select_interface(&none, None), Err(NetGuardError::NoInterfaceFound));
    assert_eq!(select_interface(&vec![], None), Err(NetGuardError::NoInterfaceFound));
}

#[test]
fn error_messages() {
    assert_eq!(NetGuardError::NoInterfaceFound.message(), "No network interface found");
    assert_eq!(
        NetGuardError::InterfaceNotFound("eth9".to_string()).message(),
        "Interface not found: eth9"
    );
    assert_eq!(NetGuardError::CaptureError("closed".to_string()).message(), "Packet capture error: closed");
    assert_eq!(NetGuardError::ConfigError("bad".to_string()).message(), "Configuration error: bad");
    assert_eq!(NetGuardError::IoError("denied".to_string()).message(), "IO error: denied");
}

#[test]
fn alert_queries() {
    assert_eq!(
        alerts_query(false, 100),
        "SELECT alert_type, severity, source_ip, destination_ip, details, timestamp FROM alerts ORDER BY timestamp DESC LIMIT 100"
    );
    assert_eq!(
        alerts_query(true, 5),
        "SELECT alert_type, severity, source_ip, destination_ip, details, timestamp FROM alerts WHERE severity = ?1 ORDER BY timestamp DESC LIMIT 5"
    );
}

#[test]
fn stats_monitor_keeps_interface() {
    let m = StatsMonitor::new(Some("eth0".to_string())).unwrap();
    assert_eq!(m.interface_name().as_deref(), Some("eth0"));
    let m = StatsMonitor::new(None).unwrap();
    assert!(m.interface_name().is_none());
}

#[test]
fn traffic_counters() {
    let mut c = TrafficCounters::new();
    assert_eq!(c.average_packet_size(), 0);
    c.add(4, 1000);
    c.add(0, 10);
    assert_eq!(c.packet_count, 4);
    assert_eq!(c.byte_count, 1010);
    assert_eq!(c.average_packet_size(), 252);
    c.add(u64::MAX, 0);
    assert_eq!(c.packet_count, u64::MAX);
}

#[test]
fn rule_actions() {
    assert_eq!(RulesCommands::rule_action(true), "BLOCK");
    assert_eq!(RulesCommands::rule_action(false), "ALLOW");
}

#[test]
fn alert_types_by_count() {
    let names = ["Suspicious Port", "Port Scan", "Possible DDoS", "Port Scan", "Suspicious Port", "Port Scan"];
    let types: Vec<String> = names.iter().map(|s| s.to_string()).collect();
    let r = count_alert_types(&types);
    assert_eq!(
        r,
        vec![
            ("Port Scan".to_string(), 3),
            ("Suspicious Port".to_string(), 2),
            ("Possible DDoS".to_string(), 1)
        ]
    );
    assert!(count_alert_types(&vec![]).is_empty());
    let many: Vec<String> = (0..15).map(|i| format!("t{}", i % 12)).collect();
    let r = count_alert_types(&many);
    assert_eq!(r.len(), 10);
    assert_eq!(r[0], ("t0".to_string(), 2));
    assert_eq!(r[1], ("t1".to_string(), 2));
    assert_eq!(r[2], ("t2".to_string(), 2));
    assert_eq!(r[3], ("t3".to_string(), 1));
    assert_eq!(r[9], ("t9".to_string(), 1));
}
