//! The command line, as parsed values.
use vstd::prelude::*;

verus! {

#[derive(Clone, Debug)]
pub struct Cli {
    pub command: Commands,
}

#[derive(Clone, Debug)]
pub enum Commands {
    /// List available network interfaces.
    ListInterfaces,
    /// Monitor network traffic.
    Monitor {
        interface: Option<String>,
        db_path: Option<String>,
        config_file: Option<String>,
        verbose: bool,
    },
    /// Display traffic statistics.
    Stats { interface: Option<String>, db_path: Option<String>, history: bool },
    /// Manage firewall rules.
    Rules { subcommand: RulesCommands },
    /// View security alerts.
    Alerts { db_path: String, severity: Option<String>, export: Option<String>, limit: usize },
}

#[derive(Clone, Debug)]
pub enum RulesCommands {
    /// List all firewall rules.
    List,
    /// Add a firewall rule; `block` blocks, otherwise the rule allows.
    Add { block: bool, ip: Option<String>, port: Option<u16>, protocol: Option<String> },
    /// Remove a firewall rule.
    Remove { id: usize },
    /// Load rules from a YAML file.
    Load { file: String },
}

impl RulesCommands {
    /// The action word of a rule that blocks or allows.
    pub fn rule_action(block: bool) -> (r: &'static str)
        ensures
            r@ == if block {
                "BLOCK"@
            } else {
                "ALLOW"@
            },
    {
        if block {
            "BLOCK"
        } else {
            "ALLOW"
        }
    }
}

} // verus!
