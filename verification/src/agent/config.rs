//! The agent's configuration.

use vstd::prelude::*;

verus! {

/// The agent's configuration file.
#[derive(Debug)]
pub struct AgentConfig {
    pub agent: AgentSettings,
}

/// Where the agent connects, who it is, and how it retries.
#[derive(Debug)]
pub struct AgentSettings {
    pub relay_url: String,
    pub gateway_url: String,
    pub agent_id: String,
    pub reconnect_base_ms: u64,
    pub reconnect_max_ms: u64,
}

} // verus!
