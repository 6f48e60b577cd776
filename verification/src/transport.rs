//! The shared HTTP transport: assembled once at construction from an
//! `HttpConfig` and handed to whichever backend is selected. Its internal
//! behavior is outside this library; only its assembly is wrapped here.

use vstd::prelude::*;

use crate::domain::HttpConfig;

verus! {

/// The transport handle a backend performs its requests with: a pooled
/// `reqwest` client. Opaque to the facade's logic, which only assembles it
/// and passes it along.
#[verifier::external_body]
pub struct HttpTransport {
    client: reqwest::Client,
}

impl HttpTransport {
    /// Relies on reqwest::ClientBuilder::build: assembles an HTTP client
    /// with the given connection and read timeouts, idle-pool limits and a
    /// bounded redirect policy; on failure the builder error's display text
    /// is returned.
    #[verifier::external_body]
    pub(crate) fn build(cfg: &HttpConfig) -> Result<HttpTransport, String> {
        reqwest::Client::builder()
            .connect_timeout(std::time::Duration::from_secs(cfg.connect_timeout))
            .read_timeout(std::time::Duration::from_secs(cfg.read_timeout))
            .pool_idle_timeout(std::time::Duration::from_secs(cfg.pool_idle_timeout))
            .pool_max_idle_per_host(cfg.pool_max_idle_per_host)
            .redirect(reqwest::redirect::Policy::limited(cfg.max_redirects))
            .build()
            .map(|client| HttpTransport { client })
            .map_err(|e| e.to_string())
    }
}

} // verus!
