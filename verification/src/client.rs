//! The interactive client: a link to the server and a chat log on screen.

pub mod config;
pub mod tui;
pub mod ws;
