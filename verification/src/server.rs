//! The broker process: many clients on one side, one gateway on the other.

pub mod client;
pub mod config;
pub mod gateway;
pub mod router;
