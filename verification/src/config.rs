use crate::text::{decimal, join3, u64_to_decimal};
use vstd::prelude::*;

verus! {

/// Runtime configuration for the shortener server.
#[derive(Clone, Debug)]
pub struct Config {
    /// Whether authentication is required for creating short URLs.
    pub auth: bool,
    /// TCP port the HTTP server listens on.
    pub listen_port: u16,
    /// URL prefix prepended to short codes, e.g. `https://example.com/`.
    pub url_prefix: String,
    /// Optional URL to redirect the root path (`/`) to.
    pub main_page: Option<String>,
    /// Number of random characters in a generated short code.
    pub code_length: usize,
    /// Filesystem path to the SQLite database file.
    pub database: String,
    /// Filesystem path to the access log file.
    pub log_file: String,
    /// Whether to trust `X-Forwarded-For` headers from a reverse proxy.
    pub trust_proxy: bool,
}

/// The URL prefix used when none is configured: the local host, with the
/// port spelled out unless it is 80.
pub open spec fn default_prefix(listen_port: u16) -> Seq<char> {
    if listen_port == 80 {
        "http://localhost/"@
    } else {
        "http://localhost:"@ + decimal(listen_port as nat) + "/"@
    }
}

/// The URL prefix used when none is configured: `http://localhost/` on
/// port 80 and `http://localhost:<port>/` otherwise.
pub fn default_url_prefix(listen_port: u16) -> (res: String)
    ensures
        res@ == default_prefix(listen_port),
{
    if listen_port == 80 {
        String::from_str("http://localhost/")
    } else {
        let port = u64_to_decimal(listen_port as u64);
        join3("http://localhost:", port.as_str(), "/")
    }
}

} // verus!
