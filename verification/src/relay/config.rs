//! The relay's configuration: the two addresses it listens on.

use vstd::prelude::*;

verus! {

/// The relay's configuration file.
#[derive(Debug)]
pub struct RelayConfig {
    pub relay: ListenConfig,
}

/// The address for the server and the address for the agent.
#[derive(Debug)]
pub struct ListenConfig {
    pub server_listen: String,
    pub agent_listen: String,
}

} // verus!
