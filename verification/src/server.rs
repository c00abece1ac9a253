//! Configuration of the HTTP server. The server itself — sockets, routing,
//! request parsing — is transport wiring around the library and lives with
//! the binary that runs it.

use vstd::prelude::*;

verus! {

/// Configuration for the HTTP server.
#[derive(Debug, Clone, PartialEq, Eq)]
pub struct HttpServerConfig<'a> {
    pub port: &'a str,
}

} // verus!
