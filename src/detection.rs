//! The detection engine: port-scan, packet-rate and suspicious-port
//! detectors, evaluated in that order, at most one alert per packet.
use vstd::prelude::*;
use vstd::string::*;
use crate::config::DetectionConfig;
use crate::decoder::{PacketView, ParsedPacket};
use crate::text::{decimal, joined_ports, push_decimal, push_joined_ports};
use crate::tracker::{distinct_ports, prune, WindowTracker};

verus! {

/// Kind of an alert.
#[derive(Clone, Copy, Debug, PartialEq, Eq, Structural)]
pub enum AlertType {
    PortScan,
    PossibleDdos,
    SuspiciousPort,
}

impl AlertType {
    pub open spec fn name(&self) -> Seq<char> {
        match self {
            AlertType::PortScan => "Port Scan"@,
            AlertType::PossibleDdos => "Possible DDoS"@,
            AlertType::SuspiciousPort => "Suspicious Port"@,
        }
    }

    /// "Port Scan", "Possible DDoS" or "Suspicious Port".
    pub fn as_str(&self) -> (r: &'static str)
        ensures
            r@ == self.name(),
    {
        match self {
            AlertType::PortScan => "Port Scan",
            AlertType::PossibleDdos => "Possible DDoS",
            AlertType::SuspiciousPort => "Suspicious Port",
        }
    }
}

/// Severity of an alert, from lowest to highest.
#[derive(Clone, Copy, Debug, PartialEq, Eq, Structural, PartialOrd, Ord, Hash)]
pub enum Severity {
    Low,
    Medium,
    High,
    Critical,
}

impl Severity {
    pub open spec fn name(&self) -> Seq<char> {
        match self {
            Severity::Low => "low"@,
            Severity::Medium => "medium"@,
            Severity::High => "high"@,
            Severity::Critical => "critical"@,
        }
    }

    /// "low", "medium", "high" or "critical".
    pub fn as_str(&self) -> (r: &'static str)
        ensures
            r@ == self.name(),
    {
        match self {
            Severity::Low => "low",
            Severity::Medium => "medium",
            Severity::High => "high",
            Severity::Critical => "critical",
        }
    }
}

/// An alert raised on one packet.
#[derive(Clone, Debug, PartialEq, Eq)]
pub struct Alert {
    pub alert_type: AlertType,
    pub severity: Severity,
    pub source_ip: String,
    pub destination_ip: Option<String>,
    pub details: String,
    /// Microseconds since the Unix epoch, UTC.
    pub timestamp: i64,
}

/// The mathematical value of an [`Alert`].
pub struct AlertView {
    pub alert_type: AlertType,
    pub severity: Severity,
    pub source_ip: Seq<char>,
    pub destination_ip: Option<Seq<char>>,
    pub details: Seq<char>,
    pub timestamp: i64,
}

impl View for Alert {
    type V = AlertView;

    open spec fn view(&self) -> AlertView {
        AlertView {
            alert_type: self.alert_type,
            severity: self.severity,
            source_ip: self.source_ip@,
            destination_ip: match self.destination_ip {
                Some(d) => Some(d@),
                None => None,
            },
            details: self.details@,
            timestamp: self.timestamp,
        }
    }
}

pub open spec fn alert_option_view(a: Option<Alert>) -> Option<AlertView> {
    match a {
        Some(x) => Some(x@),
        None => None,
    }
}

/// Description of a well-known port.
pub open spec fn port_description(port: u16) -> Seq<char> {
    if port == 23 {
        "Telnet - Insecure protocol"@
    } else if port == 135 {
        "RPC - Often targeted"@
    } else if port == 445 {
        "SMB - Ransomware vector"@
    } else if port == 3389 {
        "RDP - Brute force target"@
    } else {
        "Unknown service"@
    }
}

/// Text shown for a destination port: a canned description of Telnet, RPC,
/// SMB and RDP, a generic one otherwise.
pub fn get_port_description(port: u16) -> (r: &'static str)
    ensures
        r@ == port_description(port),
{
    match port {
        23 => "Telnet - Insecure protocol",
        135 => "RPC - Often targeted",
        445 => "SMB - Ransomware vector",
        3389 => "RDP - Brute force target",
        _ => "Unknown service",
    }
}

/// Details of a port-scan alert.
pub open spec fn scan_details(ports: Seq<u16>, window_seconds: u64) -> Seq<char> {
    "Scanned "@ + decimal(ports.len()) + " unique ports in "@ + decimal(window_seconds as nat)
        + " seconds: "@ + joined_ports(ports)
}

/// `count / window_seconds` in tenths, rounded half up.
pub open spec fn rate_tenths(count: nat, window_seconds: nat) -> nat
    recommends
        window_seconds > 0,
{
    (count * 20 + window_seconds) / (2 * window_seconds)
}

/// Details of a packet-rate alert: the rate with one decimal place.
pub open spec fn rate_details(count: nat, window_seconds: nat, threshold: nat) -> Seq<char> {
    let t = rate_tenths(count, window_seconds);
    "High packet rate detected: "@ + decimal(t / 10) + "."@ + decimal(t % 10)
        + " packets/second (threshold: "@ + decimal(threshold) + ")"@
}

/// Details of a suspicious-port alert.
pub open spec fn suspicious_details(port: u16) -> Seq<char> {
    "Connection to suspicious port "@ + decimal(port as nat) + " ("@ + port_description(port)
        + ")"@
}

pub open spec fn make_alert(
    alert_type: AlertType,
    severity: Severity,
    p: PacketView,
    details: Seq<char>,
    now: i64,
) -> AlertView {
    AlertView {
        alert_type,
        severity,
        source_ip: p.source_ip,
        destination_ip: Some(p.destination_ip),
        details,
        timestamp: now,
    }
}

/// Relies on chrono's `Utc::now` and `DateTime::timestamp_micros`: the
/// current UTC time as microseconds since the Unix epoch. It depends on the
/// clock, so nothing is stated of it. (`Utc::now` panics where the system
/// clock reads before the Unix epoch.)
#[verifier::external_body]
fn utc_now_micros() -> i64 {
    chrono::Utc::now().timestamp_micros()
}

/// Evaluates each packet against the configured detectors, keeping one
/// window of destination ports and one of packet times per source address.
pub struct DetectionEngine {
    config: DetectionConfig,
    port_scan_tracker: WindowTracker<u16>,
    packet_rate_tracker: WindowTracker<()>,
}

impl DetectionEngine {
    pub closed spec fn config(&self) -> DetectionConfig {
        self.config
    }

    /// Destination ports seen from each source, with their times.
    pub closed spec fn scan_histories(&self) -> Map<Seq<char>, Seq<(u16, i64)>> {
        self.port_scan_tracker.histories()
    }

    /// Packet times seen from each source.
    pub closed spec fn rate_histories(&self) -> Map<Seq<char>, Seq<((), i64)>> {
        self.packet_rate_tracker.histories()
    }

    pub closed spec fn wf(&self) -> bool {
        &&& self.port_scan_tracker.wf()
        &&& self.packet_rate_tracker.wf()
        &&& self.port_scan_tracker.window() == self.config.port_scan.window_seconds
        &&& self.packet_rate_tracker.window() == self.config.ddos.window_seconds
        &&& self.config.ddos.window_seconds >= 1
    }

    pub open spec fn scan_history(&self, k: Seq<char>) -> Seq<(u16, i64)> {
        if self.scan_histories().contains_key(k) {
            self.scan_histories()[k]
        } else {
            Seq::empty()
        }
    }

    pub open spec fn rate_history(&self, k: Seq<char>) -> Seq<((), i64)> {
        if self.rate_histories().contains_key(k) {
            self.rate_histories()[k]
        } else {
            Seq::empty()
        }
    }

    /// The port-scan detector runs on `p`.
    pub open spec fn scan_runs(&self, p: PacketView) -> bool {
        self.config().port_scan.enabled && p.destination_port is Some
    }

    /// The source's port history once `p` is recorded at `now`.
    pub open spec fn scan_recorded(&self, p: PacketView, now: i64) -> Seq<(u16, i64)> {
        prune(
            self.scan_history(p.source_ip),
            now,
            self.config().port_scan.window_seconds,
        ).push((p.destination_port.unwrap(), now))
    }

    /// The port-scan detector raises an alert on `p`.
    pub open spec fn scan_fires(&self, p: PacketView, now: i64) -> bool {
        self.scan_runs(p) && distinct_ports(self.scan_recorded(p, now)).len()
            >= self.config().port_scan.threshold
    }

    /// The rate detector runs on `p`.
    pub open spec fn rate_runs(&self, p: PacketView, now: i64) -> bool {
        !self.scan_fires(p, now) && self.config().ddos.enabled
    }

    /// The source's packet times once `p` is recorded at `now`.
    pub open spec fn rate_recorded(&self, p: PacketView, now: i64) -> Seq<((), i64)> {
        prune(self.rate_history(p.source_ip), now, self.config().ddos.window_seconds).push(
            ((), now),
        )
    }

    /// The rate detector raises an alert on `p`.
    pub open spec fn rate_fires(&self, p: PacketView, now: i64) -> bool {
        self.rate_runs(p, now) && self.rate_recorded(p, now).len() >= self.config().ddos.threshold
    }

    /// The suspicious-port detector raises an alert on `p`.
    pub open spec fn suspicious_fires(&self, p: PacketView) -> bool {
        p.destination_port is Some && self.config().suspicious_ports@.contains(
            p.destination_port.unwrap(),
        )
    }

    /// The alert that `p` raises at `now`: that of the first detector that
    /// fires, in the order port scan, packet rate, suspicious port.
    pub open spec fn expected_alert(&self, p: PacketView, now: i64) -> Option<AlertView> {
        if self.scan_fires(p, now) {
            Some(
                make_alert(
                    AlertType::PortScan,
                    Severity::High,
                    p,
                    scan_details(
                        distinct_ports(self.scan_recorded(p, now)),
                        self.config().port_scan.window_seconds,
                    ),
                    now,
                ),
            )
        } else if self.rate_fires(p, now) {
            Some(
                make_alert(
                    AlertType::PossibleDdos,
                    Severity::Critical,
                    p,
                    rate_details(
                        self.rate_recorded(p, now).len(),
                        self.config().ddos.window_seconds as nat,
                        self.config().ddos.threshold as nat,
                    ),
                    now,
                ),
            )
        } else if self.suspicious_fires(p) {
            Some(
                make_alert(
                    AlertType::SuspiciousPort,
                    Severity::Medium,
                    p,
                    suspicious_details(p.destination_port.unwrap()),
                    now,
                ),
            )
        } else {
            None
        }
    }

    /// `after` is the engine `self` once it has evaluated `p` at `now`, and
    /// `r` the alert returned.
    pub open spec fn step(&self, p: PacketView, now: i64, after: &Self, r: Option<AlertView>) -> bool {
        &&& after.wf()
        &&& after.config() == self.config()
        &&& after.scan_histories() == if self.scan_runs(p) {
            self.scan_histories().insert(p.source_ip, self.scan_recorded(p, now))
        } else {
            self.scan_histories()
        }
        &&& after.rate_histories() == if self.rate_runs(p, now) {
            self.rate_histories().insert(p.source_ip, self.rate_recorded(p, now))
        } else {
            self.rate_histories()
        }
        &&& r == self.expected_alert(p, now)
    }

    /// An engine with empty histories.
    pub fn new(config: DetectionConfig) -> (r: Self)
        requires
            config.ddos.window_seconds >= 1,
        ensures
            r.wf(),
            r.config() == config,
            r.scan_histories() == Map::<Seq<char>, Seq<(u16, i64)>>::empty(),
            r.rate_histories() == Map::<Seq<char>, Seq<((), i64)>>::empty(),
    {
        let port_scan_tracker = WindowTracker::new(config.port_scan.window_seconds);
        let packet_rate_tracker = WindowTracker::new(config.ddos.window_seconds);
        DetectionEngine { config, port_scan_tracker, packet_rate_tracker }
    }

    fn check_port_scan(&mut self, packet: &ParsedPacket, now: i64) -> (r: Option<Alert>)
        requires
            old(self).wf(),
            old(self).config().port_scan.enabled,
        ensures
            final(self).wf(),
            final(self).config() == old(self).config(),
            final(self).rate_histories() == old(self).rate_histories(),
            final(self).scan_histories() == if old(self).scan_runs(packet@) {
                old(self).scan_histories().insert(
                    packet@.source_ip,
                    old(self).scan_recorded(packet@, now),
                )
            } else {
                old(self).scan_histories()
            },
            r is Some <==> old(self).scan_fires(packet@, now),
            old(self).scan_fires(packet@, now) ==> alert_option_view(r) == old(
                self,
            ).expected_alert(packet@, now),
    {
        match packet.destination_port {
            None => None,
            Some(dest_port) => {
                self.port_scan_tracker.record(&packet.source_ip, dest_port, now);
                let ports = self.port_scan_tracker.distinct_ports(&packet.source_ip);
                if ports.len() >= self.config.port_scan.threshold {
                    let mut details = String::new();
                    details.append("Scanned ");
                    push_decimal(&mut details, ports.len() as u128);
                    details.append(" unique ports in ");
                    push_decimal(&mut details, self.config.port_scan.window_seconds as u128);
                    details.append(" seconds: ");
                    push_joined_ports(&mut details, &ports);
                    assert(details@ =~= scan_details(
                        ports@,
                        self.config.port_scan.window_seconds,
                    ));
                    Some(
                        Alert {
                            alert_type: AlertType::PortScan,
                            severity: Severity::High,
                            source_ip: packet.source_ip.clone(),
                            destination_ip: Some(packet.destination_ip.clone()),
                            details,
                            timestamp: now,
                        },
                    )
                } else {
                    None
                }
            },
        }
    }

    fn check_ddos(&mut self, packet: &ParsedPacket, now: i64) -> (r: Option<Alert>)
        requires
            old(self).wf(),
        ensures
            final(self).wf(),
            final(self).config() == old(self).config(),
            final(self).scan_histories() == old(self).scan_histories(),
            final(self).rate_histories() == old(self).rate_histories().insert(
                packet@.source_ip,
                old(self).rate_recorded(packet@, now),
            ),
            r is Some <==> old(self).rate_recorded(packet@, now).len()
                >= old(self).config().ddos.threshold,
            r is Some ==> r->0@ == make_alert(
                AlertType::PossibleDdos,
                Severity::Critical,
                packet@,
                rate_details(
                    old(self).rate_recorded(packet@, now).len(),
                    old(self).config().ddos.window_seconds as nat,
                    old(self).config().ddos.threshold as nat,
                ),
                now,
            ),
    {
        self.packet_rate_tracker.record(&packet.source_ip, (), now);
        let count = self.packet_rate_tracker.count(&packet.source_ip);
        if count >= self.config.ddos.threshold {
            let w = self.config.ddos.window_seconds as u128;
            let tenths: u128 = (count as u128 * 20 + w) / (2 * w);
            let mut details = String::new();
            details.append("High packet rate detected: ");
            push_decimal(&mut details, tenths / 10);
            details.append(".");
            push_decimal(&mut details, tenths % 10);
            details.append(" packets/second (threshold: ");
            push_decimal(&mut details, self.config.ddos.threshold as u128);
            details.append(")");
            assert(details@ =~= rate_details(
                count as nat,
                self.config.ddos.window_seconds as nat,
                self.config.ddos.threshold as nat,
            ));
            Some(
                Alert {
                    alert_type: AlertType::PossibleDdos,
                    severity: Severity::Critical,
                    source_ip: packet.source_ip.clone(),
                    destination_ip: Some(packet.destination_ip.clone()),
                    details,
                    timestamp: now,
                },
            )
        } else {
            None
        }
    }

    fn check_suspicious_port(&self, packet: &ParsedPacket, now: i64) -> (r: Option<Alert>)
        ensures
            r is Some <==> self.suspicious_fires(packet@),
            r is Some ==> r->0@ == make_alert(
                AlertType::SuspiciousPort,
                Severity::Medium,
                packet@,
                suspicious_details(packet@.destination_port.unwrap()),
                now,
            ),
    {
        match packet.destination_port {
            Some(dest_port) => {
                if self.config.is_suspicious(dest_port) {
                    let mut details = String::new();
                    details.append("Connection to suspicious port ");
                    push_decimal(&mut details, dest_port as u128);
                    details.append(" (");
                    details.append(get_port_description(dest_port));
                    details.append(")");
                    assert(details@ =~= suspicious_details(dest_port));
                    Some(
                        Alert {
                            alert_type: AlertType::SuspiciousPort,
                            severity: Severity::Medium,
                            source_ip: packet.source_ip.clone(),
                            destination_ip: Some(packet.destination_ip.clone()),
                            details,
                            timestamp: now,
                        },
                    )
                } else {
                    None
                }
            },
            None => None,
        }
    }

    /// Evaluates `packet` at the current UTC time, as
    /// [`check_packet_at`](Self::check_packet_at) does for a given time.
    pub fn check_packet(&mut self, packet: &ParsedPacket) -> (r: Option<Alert>)
        requires
            old(self).wf(),
        ensures
            exists|now: i64| old(self).step(packet@, now, final(self), alert_option_view(r)),
    {
        let now = utc_now_micros();
        self.check_packet_at(packet, now)
    }

    /// Evaluates `packet` observed at `now` (microseconds since the Unix
    /// epoch): the port-scan detector if enabled, then the rate detector if
    /// enabled, then the suspicious-port detector; returns the alert of the
    /// first that fires and skips the rest.
    pub fn check_packet_at(&mut self, packet: &ParsedPacket, now: i64) -> (r: Option<Alert>)
        requires
            old(self).wf(),
        ensures
            old(self).step(packet@, now, final(self), alert_option_view(r)),
    {
        if self.config.port_scan.enabled {
            let found = self.check_port_scan(packet, now);
            if found.is_some() {
                return found;
            }
        }
        if self.config.ddos.enabled {
            let found = self.check_ddos(packet, now);
            if found.is_some() {
                return found;
            }
        }
        self.check_suspicious_port(packet, now)
    }
}

/// A packet on which both the port-scan and the suspicious-port detectors
/// would fire raises the port-scan alert alone.
pub proof fn lemma_scan_takes_priority(e: &DetectionEngine, p: PacketView, now: i64)
    requires
        e.scan_fires(p, now),
        e.suspicious_fires(p),
    ensures
        e.expected_alert(p, now) is Some,
        e.expected_alert(p, now)->0.alert_type == AlertType::PortScan,
        e.expected_alert(p, now)->0.severity == Severity::High,
{
}

} // verus!
