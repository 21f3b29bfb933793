//! Dashboard configuration and agent status records.

use vstd::prelude::*;
use vstd::string::StringExecFns;

verus! {

/// Agent status for the dashboard.
#[derive(Debug, Clone)]
pub struct AgentStatus {
    pub id: String,
    pub role: String,
    pub status: String,
    pub messages_processed: usize,
    pub events_processed: usize,
    pub last_activity: Option<i64>,
}

/// Dashboard server configuration.
#[derive(Debug, Clone)]
pub struct DashboardConfig {
    pub host: String,
    pub port: u16,
}

impl Default for DashboardConfig {
    /// Every interface, port 8080.
    fn default() -> (r: Self)
        ensures
            r.host@ == "0.0.0.0"@,
            r.port == 8080,
    {
        DashboardConfig { host: String::from_str("0.0.0.0"), port: 8080 }
    }
}

impl DashboardConfig {
    /// The address the server listens on: `host:port`.
    pub fn address(&self) -> (r: String)
        ensures
            r@ == self.host@ + ":"@ + crate::text::decimal(self.port as nat),
    {
        let port = crate::text::chars_to_string(&crate::text::u64_decimal(self.port as u64));
        self.host.clone().concat(":").concat(port.as_str())
    }
}

} // verus!
