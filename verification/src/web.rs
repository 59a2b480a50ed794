//! Settings of the web dashboard server.
//!
//! The HTTP server itself is presentation and lives with the process entry
//! point; the library fixes its settings.

use vstd::prelude::*;

verus! {

/// Where and how the web dashboard listens.
#[derive(Debug, Clone, PartialEq)]
pub struct WebServerConfig {
    /// Host address to bind to.
    pub host: String,
    /// Port to listen on.
    pub port: u16,
    /// Static assets directory, when serving one.
    pub static_dir: Option<String>,
    /// Allow cross-origin requests.
    pub enable_cors: bool,
}

impl Default for WebServerConfig {
    /// The loopback address on port 8080, no assets directory, cross-origin
    /// requests allowed.
    fn default() -> (r: WebServerConfig)
        ensures
            r.host@ == "127.0.0.1"@,
            r.port == 8080,
            r.static_dir is None,
            r.enable_cors,
    {
        WebServerConfig {
            host: String::from_str("127.0.0.1"),
            port: 8080,
            static_dir: None,
            enable_cors: true,
        }
    }
}

} // verus!
