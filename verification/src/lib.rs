//! Session correlation and connection lifecycle for a chat relay.
//!
//! Many interactive clients talk to one broker, the broker talks to exactly one
//! upstream gateway, and a remote agent is tunnelled back to a local gateway
//! through a relay. This crate holds the decisions of those processes as plain
//! state machines: every operation takes the current state and one event and
//! yields the next state and the action to perform. Sockets, timers and task
//! scheduling stay with the caller.
//!
//! - [`protocol`]: the frames of the four protocols.
//! - [`server`]: the router, the gateway connection supervisor and the client
//!   links of the broker.
//! - [`relay`]: the bridge that pairs the relay's two sides.
//! - [`agent`]: the tunnel between the relay and the local gateway.
//! - [`client`]: the client's link and its chat screen.
//! - [`backoff`], [`handshake`], [`registry`], [`lines`], [`fresh`],
//!   [`error`]: what the processes share.

pub mod agent;
pub mod backoff;
pub mod client;
pub mod error;
pub mod fresh;
pub mod handshake;
pub mod lines;
pub mod protocol;
pub mod registry;
pub mod relay;
pub mod server;
