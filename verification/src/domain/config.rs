//! Process-wide configuration.

use vstd::prelude::*;
use vstd::string::StringExecFns;

verus! {

/// Exchange connection configuration.
#[derive(Debug, Clone)]
pub struct ExchangeConfig {
    pub name: String,
    pub api_key: String,
    pub api_secret: String,
    pub passphrase: Option<String>,
    pub testnet: bool,
}

/// Global Ferrum configuration.
#[derive(Debug, Clone)]
pub struct FerrumConfig {
    pub database_path: String,
    pub log_level: String,
    pub api_port: u16,
    pub exchanges: Vec<ExchangeConfig>,
}

impl Default for FerrumConfig {
    /// `ferrum.db`, log level `info`, port 8080 and no exchanges.
    fn default() -> (r: Self)
        ensures
            r.database_path@ == "ferrum.db"@,
            r.log_level@ == "info"@,
            r.api_port == 8080,
            r.exchanges@.len() == 0,
    {
        FerrumConfig {
            database_path: String::from_str("ferrum.db"),
            log_level: String::from_str("info"),
            api_port: 8080,
            exchanges: Vec::new(),
        }
    }
}

} // verus!
