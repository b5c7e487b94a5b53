//! The settings that the service is started with.

use vstd::prelude::*;

verus! {

/// Where the service listens, where its database is, and what it does at
/// startup.
#[derive(Debug)]
pub struct AppConfig {
    pub database_url: String,
    pub rust_log: String,
    pub service_url: String,
    pub service_port: u32,
    pub run_migrations: bool,
    pub seed: bool,
}

} // verus!
