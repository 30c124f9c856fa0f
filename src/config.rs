//! Configuration of the monitor and of its detectors.
use vstd::string::*;
use vstd::prelude::*;

verus! {

/// Settings of the port-scan detector.
#[derive(Clone, Debug)]
pub struct PortScanConfig {
    pub enabled: bool,
    /// Distinct destination ports in the window at which an alert is raised.
    pub threshold: usize,
    pub window_seconds: u64,
}

/// Settings of the packet-rate detector.
#[derive(Clone, Debug)]
pub struct DdosConfig {
    pub enabled: bool,
    /// Packets in the window at which an alert is raised.
    pub threshold: usize,
    pub window_seconds: u64,
}

/// Settings of the detection engine; fixed once the engine is built.
#[derive(Clone, Debug)]
pub struct DetectionConfig {
    pub port_scan: PortScanConfig,
    pub ddos: DdosConfig,
    pub suspicious_ports: Vec<u16>,
}

impl DetectionConfig {
    /// Whether `port` is one of the suspicious ports.
    pub fn is_suspicious(&self, port: u16) -> (r: bool)
        ensures
            r == self.suspicious_ports@.contains(port),
    {
        let mut i: usize = 0;
        while i < self.suspicious_ports.len()
            invariant
                i <= self.suspicious_ports.len(),
                forall|j: int| 0 <= j < i ==> self.suspicious_ports@[j] != port,
            decreases self.suspicious_ports.len() - i,
        {
            if self.suspicious_ports[i] == port {
                return true;
            }
            i = i + 1;
        }
        false
    }
}

#[derive(Clone, Debug)]
pub struct FirewallRule {
    pub action: String,
    pub source_ip: Option<String>,
    pub destination_port: Option<u16>,
    pub description: String,
}

#[derive(Clone, Debug)]
pub struct FirewallConfig {
    pub default_policy: String,
    pub rules: Vec<FirewallRule>,
}

#[derive(Clone, Debug)]
pub struct LoggingConfig {
    pub level: String,
    pub file: String,
}

#[derive(Clone, Debug)]
pub struct DatabaseConfig {
    pub path: String,
    pub retention_days: u32,
}

/// The whole configuration file.
#[derive(Clone, Debug)]
pub struct Config {
    pub interfaces: Vec<String>,
    pub detection: DetectionConfig,
    pub firewall: FirewallConfig,
    pub logging: LoggingConfig,
    pub database: DatabaseConfig,
}

impl Default for Config {
    /// Both detectors on: ten distinct ports in five seconds, a thousand
    /// packets in one second; Telnet, RPC, SMB and RDP flagged.
    fn default() -> (r: Config)
        ensures
            r.interfaces@.len() == 0,
            r.detection.port_scan.enabled,
            r.detection.port_scan.threshold == 10,
            r.detection.port_scan.window_seconds == 5,
            r.detection.ddos.enabled,
            r.detection.ddos.threshold == 1000,
            r.detection.ddos.window_seconds == 1,
            r.detection.suspicious_ports@ == seq![23u16, 135u16, 445u16, 3389u16],
            r.firewall.default_policy@ == "allow"@,
            r.firewall.rules@.len() == 0,
            r.logging.level@ == "info"@,
            r.logging.file@ == "netguard.log"@,
            r.database.path@ == "alerts.db"@,
            r.database.retention_days == 30,
    {
        let mut suspicious_ports: Vec<u16> = Vec::new();
        suspicious_ports.push(23);
        suspicious_ports.push(135);
        suspicious_ports.push(445);
        suspicious_ports.push(3389);
        assert(suspicious_ports@ =~= seq![23u16, 135u16, 445u16, 3389u16]);
        Config {
            interfaces: Vec::new(),
            detection: DetectionConfig {
                port_scan: PortScanConfig { enabled: true, threshold: 10, window_seconds: 5 },
                ddos: DdosConfig { enabled: true, threshold: 1000, window_seconds: 1 },
                suspicious_ports,
            },
            firewall: FirewallConfig { default_policy: String::from_str("allow"), rules: Vec::new() },
            logging: LoggingConfig {
                level: String::from_str("info"),
                file: String::from_str("netguard.log"),
            },
            database: DatabaseConfig { path: String::from_str("alerts.db"), retention_days: 30 },
        }
    }
}

} // verus!
