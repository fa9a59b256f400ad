//! Gateway settings and their defaults.

use vstd::prelude::*;

verus! {

/// Whole gateway configuration; every section falls back to its default.
pub struct AppConfig {
    pub server: ServerConfig,
    pub database: DatabaseConfig,
    pub distillation: DistillationConfig,
}

/// Address the gateway listens on.
pub struct ServerConfig {
    pub host: String,
    pub port: u16,
}

/// Location of the SQLite database file.
pub struct DatabaseConfig {
    pub path: String,
}

/// Distillation data collection configuration
pub struct DistillationConfig {
    /// Enable automatic collection of training samples from cloud responses
    pub collect_training_data: bool,
    /// Maximum number of training samples to keep (oldest are pruned)
    pub max_samples: i64,
    /// Only collect samples from successful responses (status 200)
    pub only_successful: bool,
}

/// The port the gateway listens on unless configured otherwise.
pub open spec fn spec_default_port() -> u16 {
    6188
}

/// The sample cap unless configured otherwise.
pub open spec fn spec_default_max_samples() -> i64 {
    100_000
}

/// Default listening host: the loopback address.
pub fn default_host() -> (r: String)
    ensures
        r@ == "127.0.0.1"@,
{
    String::from_str("127.0.0.1")
}

/// Default listening port.
pub fn default_port() -> (r: u16)
    ensures
        r == spec_default_port(),
{
    6188
}

/// Default database file, relative to the working directory.
pub fn default_db_path() -> (r: String)
    ensures
        r@ == "louter.db"@,
{
    String::from_str("louter.db")
}

/// Default for the boolean switches that are on unless turned off.
pub fn default_true() -> (r: bool)
    ensures
        r,
{
    true
}

/// Default cap on stored training samples.
pub fn default_max_samples() -> (r: i64)
    ensures
        r == spec_default_max_samples(),
{
    100_000
}

impl ServerConfig {
    /// Whether this is the server section a missing `[server]` table gives.
    pub open spec fn is_default(&self) -> bool {
        &&& self.host@ == "127.0.0.1"@
        &&& self.port == spec_default_port()
    }
}

impl DatabaseConfig {
    /// Whether this is the database section a missing `[database]` table gives.
    pub open spec fn is_default(&self) -> bool {
        self.path@ == "louter.db"@
    }
}

impl DistillationConfig {
    /// Whether this is the section a missing `[distillation]` table gives.
    pub open spec fn is_default(&self) -> bool {
        &&& self.collect_training_data
        &&& self.max_samples == spec_default_max_samples()
        &&& self.only_successful
    }
}

impl Default for ServerConfig {
    fn default() -> (r: Self)
        ensures
            r.is_default(),
    {
        ServerConfig { host: default_host(), port: default_port() }
    }
}

impl Default for DatabaseConfig {
    fn default() -> (r: Self)
        ensures
            r.is_default(),
    {
        DatabaseConfig { path: default_db_path() }
    }
}

impl Default for DistillationConfig {
    fn default() -> (r: Self)
        ensures
            r.is_default(),
    {
        DistillationConfig { collect_training_data: true, max_samples: 100_000, only_successful: true }
    }
}

} // verus!
