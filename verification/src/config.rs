//! The server configuration and its defaults.

use vstd::prelude::*;
use crate::text::{decimal, push_decimal};

verus! {

/// Where the server listens.
#[derive(Debug, Clone, PartialEq, Eq)]
pub struct ServerConfig {
    pub host: String,
    pub port: u16,
}

/// The service limits.
#[derive(Debug, Clone, Copy, PartialEq, Eq)]
pub struct LimitsConfig {
    pub max_endpoints: usize,
    pub max_requests_per_minute: usize,
    pub max_response_size_bytes: usize,
}

/// The whole configuration.
#[derive(Debug, Clone, PartialEq, Eq)]
pub struct AppConfig {
    pub server: ServerConfig,
    pub limits: LimitsConfig,
}

/// The default configuration: all interfaces on port 3000, at most 1000
/// endpoints, 100 requests a minute and 10 MiB responses.
pub open spec fn is_default_config(c: AppConfig) -> bool {
    &&& c.server.host@ == "0.0.0.0"@
    &&& c.server.port == 3000
    &&& c.limits.max_endpoints == 1000
    &&& c.limits.max_requests_per_minute == 100
    &&& c.limits.max_response_size_bytes == 10 * 1024 * 1024
}

impl Default for AppConfig {
    fn default() -> (c: AppConfig)
        ensures
            is_default_config(c),
    {
        AppConfig {
            server: ServerConfig { host: String::from_str("0.0.0.0"), port: 3000 },
            limits: LimitsConfig {
                max_endpoints: 1000,
                max_requests_per_minute: 100,
                max_response_size_bytes: 10 * 1024 * 1024,
            },
        }
    }
}

impl AppConfig {
    /// The configuration read from the file when it could be read and parsed,
    /// the default configuration otherwise.
    pub fn from_file_or_default(loaded: Option<AppConfig>) -> (c: AppConfig)
        ensures
            loaded is Some ==> c == loaded->Some_0,
            loaded is None ==> is_default_config(c),
    {
        match loaded {
            Some(c) => c,
            None => AppConfig::default(),
        }
    }
}

/// The server refuses to start when it defines more endpoints than the
/// configuration allows.
pub fn check_endpoint_capacity(limits: &LimitsConfig, endpoint_count: usize) -> (r: Result<(), String>)
    ensures
        r is Ok <==> endpoint_count <= limits.max_endpoints,
        r is Err ==> r->Err_0@ == "Configured max_endpoints="@ + decimal(limits.max_endpoints as nat)
            + " but server defines "@ + decimal(endpoint_count as nat) + " endpoints"@,
{
    if endpoint_count > limits.max_endpoints {
        let mut m = String::from_str("Configured max_endpoints=");
        push_decimal(&mut m, limits.max_endpoints as u64);
        m.append(" but server defines ");
        push_decimal(&mut m, endpoint_count as u64);
        m.append(" endpoints");
        Err(m)
    } else {
        Ok(())
    }
}

} // verus!
