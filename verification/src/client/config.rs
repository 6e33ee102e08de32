//! The client's configuration: where the server is.

use std::path::PathBuf;
use vstd::prelude::*;

verus! {

/// The command line of the client.
#[derive(Debug)]
pub struct Cli {
    /// Path to the configuration file.
    pub config: PathBuf,
}

/// The client's configuration file.
#[derive(Debug, Clone)]
pub struct ClientConfig {
    pub server: ServerAddr,
}

/// The address of the server's WebSocket listener.
#[derive(Debug, Clone)]
pub struct ServerAddr {
    pub url: String,
}

} // verus!
