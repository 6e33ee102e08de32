//! The agent process: it dials the relay, introduces itself, dials the local
//! gateway and passes text between the two links until either one ends.

pub mod config;
pub mod tunnel;
