//! Errors of the monitor.
use vstd::prelude::*;
use vstd::string::*;

verus! {

#[derive(Clone, Debug, PartialEq, Eq)]
pub enum NetGuardError {
    NoInterfaceFound,
    InterfaceNotFound(String),
    InterfaceOpenError(String),
    CaptureError(String),
    InvalidPacket(String),
    DatabaseError(String),
    ConfigError(String),
    RuleError(String),
    IoError(String),
    ParseError(String),
}

impl NetGuardError {
    /// The message shown for the error.
    pub open spec fn spec_message(&self) -> Seq<char> {
        match self {
            NetGuardError::NoInterfaceFound => "No network interface found"@,
            NetGuardError::InterfaceNotFound(s) => "Interface not found: "@ + s@,
            NetGuardError::InterfaceOpenError(s) => "Failed to open interface: "@ + s@,
            NetGuardError::CaptureError(s) => "Packet capture error: "@ + s@,
            NetGuardError::InvalidPacket(s) => "Invalid packet format: "@ + s@,
            NetGuardError::DatabaseError(s) => "Database error: "@ + s@,
            NetGuardError::ConfigError(s) => "Configuration error: "@ + s@,
            NetGuardError::RuleError(s) => "Rule error: "@ + s@,
            NetGuardError::IoError(s) => "IO error: "@ + s@,
            NetGuardError::ParseError(s) => "Parse error: "@ + s@,
        }
    }

    pub fn message(&self) -> (r: String)
        ensures
            r@ == self.spec_message(),
    {
        let (prefix, detail): (&str, Option<&String>) = match self {
            NetGuardError::NoInterfaceFound => ("No network interface found", None),
            NetGuardError::InterfaceNotFound(s) => ("Interface not found: ", Some(s)),
            NetGuardError::InterfaceOpenError(s) => ("Failed to open interface: ", Some(s)),
            NetGuardError::CaptureError(s) => ("Packet capture error: ", Some(s)),
            NetGuardError::InvalidPacket(s) => ("Invalid packet format: ", Some(s)),
            NetGuardError::DatabaseError(s) => ("Database error: ", Some(s)),
            NetGuardError::ConfigError(s) => ("Configuration error: ", Some(s)),
            NetGuardError::RuleError(s) => ("Rule error: ", Some(s)),
            NetGuardError::IoError(s) => ("IO error: ", Some(s)),
            NetGuardError::ParseError(s) => ("Parse error: ", Some(s)),
        };
        let mut out = String::from_str(prefix);
        if let Some(s) = detail {
            out.append(s.as_str());
        }
        out
    }
}

} // verus!
