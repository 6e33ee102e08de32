//! The relay process: it pairs the link from the agent with the link from the
//! server and passes text between them.

pub mod agent_side;
pub mod bridge;
pub mod config;
pub mod server_side;
