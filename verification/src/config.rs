//! Startup configuration, loaded once by the caller and immutable for the
//! process lifetime.

use vstd::prelude::*;

verus! {

/// The agent's configuration. The core reads only `db_name` (for the
/// locks-path lookup), `poll_cadence_secs` (the reporting interval) and
/// `plugin_guid`; the host, URL and license key belong to the transport
/// collaborators around the core.
#[derive(Debug, Clone)]
pub struct Config {
    pub db_host: String,
    pub db_name: String,
    pub poll_cadence_secs: i64,
    pub newrelic_api_url: String,
    pub newrelic_license_key: String,
    pub plugin_guid: String,
}

} // verus!
