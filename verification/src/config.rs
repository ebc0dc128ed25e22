//! Application-level settings handed to the crawler at startup.

use vstd::prelude::*;

verus! {

/// Settings read from the configuration file by the surrounding program.
#[derive(Debug, Clone)]
pub struct AppConfig {
    pub db_dsn: String,
    pub api_key: String,
}

/// Builds the settings record from the two values the surrounding program
/// read out of its configuration file.
pub fn load(db_dsn: String, api_key: String) -> (cfg: AppConfig)
    ensures
        cfg.db_dsn == db_dsn,
        cfg.api_key == api_key,
{
    AppConfig { db_dsn, api_key }
}

} // verus!
