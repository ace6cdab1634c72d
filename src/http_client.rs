//! Settings of the outbound HTTP clients that widgets use: timeouts (in
//! whole seconds), certificate checks and connection pooling.

use vstd::prelude::*;

verus! {

/// Settings of an outbound HTTP client. Start from `new` and change what
/// differs.
#[derive(Clone, Copy, Debug, PartialEq, Eq, Structural)]
pub struct HttpClientBuilder {
    /// Seconds a whole request may take.
    pub timeout_secs: u64,
    /// Seconds that connecting may take.
    pub connect_timeout_secs: u64,
    pub accept_invalid_certs: bool,
    /// Seconds an idle pooled connection is kept.
    pub pool_idle_timeout_secs: u64,
    pub pool_max_idle_per_host: usize,
}

impl HttpClientBuilder {
    /// Lenient settings for services on the local network: thirty seconds
    /// per request, ten to connect, self-signed certificates accepted, idle
    /// connections kept thirty seconds, at most ten per host.
    pub fn new() -> (r: Self)
        ensures
            r == (HttpClientBuilder {
                timeout_secs: 30,
                connect_timeout_secs: 10,
                accept_invalid_certs: true,
                pool_idle_timeout_secs: 30,
                pool_max_idle_per_host: 10,
            }),
    {
        HttpClientBuilder {
            timeout_secs: 30,
            connect_timeout_secs: 10,
            accept_invalid_certs: true,
            pool_idle_timeout_secs: 30,
            pool_max_idle_per_host: 10,
        }
    }

    pub fn timeout(self, secs: u64) -> (r: Self)
        ensures
            r == (HttpClientBuilder { timeout_secs: secs, ..self }),
    {
        HttpClientBuilder { timeout_secs: secs, ..self }
    }

    pub fn connect_timeout(self, secs: u64) -> (r: Self)
        ensures
            r == (HttpClientBuilder { connect_timeout_secs: secs, ..self }),
    {
        HttpClientBuilder { connect_timeout_secs: secs, ..self }
    }

    pub fn accept_invalid_certs(self, accept: bool) -> (r: Self)
        ensures
            r == (HttpClientBuilder { accept_invalid_certs: accept, ..self }),
    {
        HttpClientBuilder { accept_invalid_certs: accept, ..self }
    }

    pub fn pool_idle_timeout(self, secs: u64) -> (r: Self)
        ensures
            r == (HttpClientBuilder { pool_idle_timeout_secs: secs, ..self }),
    {
        HttpClientBuilder { pool_idle_timeout_secs: secs, ..self }
    }

    pub fn pool_max_idle_per_host(self, max: usize) -> (r: Self)
        ensures
            r == (HttpClientBuilder { pool_max_idle_per_host: max, ..self }),
    {
        HttpClientBuilder { pool_max_idle_per_host: max, ..self }
    }
}

/// Settings for third-party APIs: a minute per request, fifteen seconds to
/// connect, certificates checked.
pub fn api_client_settings() -> (r: HttpClientBuilder)
    ensures
        r == (HttpClientBuilder {
            timeout_secs: 60,
            connect_timeout_secs: 15,
            accept_invalid_certs: false,
            pool_idle_timeout_secs: 30,
            pool_max_idle_per_host: 10,
        }),
{
    HttpClientBuilder::new().timeout(60).connect_timeout(15).accept_invalid_certs(false)
}

/// Settings for liveness checks: five seconds per request, three to
/// connect, self-signed certificates accepted, five idle connections per host.
pub fn ping_client_settings() -> (r: HttpClientBuilder)
    ensures
        r == (HttpClientBuilder {
            timeout_secs: 5,
            connect_timeout_secs: 3,
            accept_invalid_certs: true,
            pool_idle_timeout_secs: 30,
            pool_max_idle_per_host: 5,
        }),
{
    HttpClientBuilder::new().timeout(5).connect_timeout(3).accept_invalid_certs(true).pool_max_idle_per_host(5)
}

} // verus!
