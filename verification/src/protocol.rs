//! The frame model: four closed message sets, one per protocol.
//!
//! On the wire every message is one JSON object in one text frame, with its
//! variant named by the field `type`. This module holds the values; encoding
//! and decoding belong to the transport.

use crate::fresh::{random_id, unix_seconds, ID_LEN};
use vstd::prelude::*;

verus! {

/// Client to server.
#[derive(Debug, Clone, PartialEq, Eq)]
pub enum ClientMessage {
    Chat { id: String, content: String },
    Ping,
}

/// Server to client.
#[derive(Debug, Clone, PartialEq, Eq)]
pub enum ServerMessage {
    ChatReply { id: String, request_id: String, content: String, done: bool },
    Error { message: String },
    Pong,
    Status { gateway_connected: bool },
}

/// Frames exchanged between the server and the gateway.
#[derive(Debug, Clone, PartialEq, Eq)]
pub enum GatewayFrame {
    /// Handshake: the node introduces itself.
    Connect { role: String, node_id: String },
    /// Handshake: the gateway acknowledges and assigns a session.
    Connected { session_id: String },
    /// A chat message for an agent.
    ChatRequest { request_id: String, session_id: String, content: String },
    /// One chunk of an agent's reply; `done` marks the last one.
    ChatResponse { request_id: String, session_id: String, content: String, done: bool },
    /// Heartbeat.
    Ping { timestamp: i64 },
    Pong { timestamp: i64 },
    /// An error reported by the gateway.
    Error { message: String },
}

/// Handshake frames between the relay and the agent. Everything after the
/// handshake on that link is opaque text.
#[derive(Debug, Clone, PartialEq, Eq)]
pub enum RelayFrame {
    AgentHello { agent_id: String },
    AgentWelcome { agent_id: String },
}

/// What a [`ClientMessage`] says.
pub enum ClientMessageView {
    Chat { id: Seq<char>, content: Seq<char> },
    Ping,
}

/// What a [`ServerMessage`] says.
pub enum ServerMessageView {
    ChatReply { id: Seq<char>, request_id: Seq<char>, content: Seq<char>, done: bool },
    Error { message: Seq<char> },
    Pong,
    Status { gateway_connected: bool },
}

/// What a [`GatewayFrame`] says.
pub enum GatewayFrameView {
    Connect { role: Seq<char>, node_id: Seq<char> },
    Connected { session_id: Seq<char> },
    ChatRequest { request_id: Seq<char>, session_id: Seq<char>, content: Seq<char> },
    ChatResponse { request_id: Seq<char>, session_id: Seq<char>, content: Seq<char>, done: bool },
    Ping { timestamp: i64 },
    Pong { timestamp: i64 },
    Error { message: Seq<char> },
}

/// What a [`RelayFrame`] says.
pub enum RelayFrameView {
    AgentHello { agent_id: Seq<char> },
    AgentWelcome { agent_id: Seq<char> },
}

impl View for ClientMessage {
    type V = ClientMessageView;

    open spec fn view(&self) -> ClientMessageView {
        match *self {
            ClientMessage::Chat { id, content } => ClientMessageView::Chat {
                id: id@,
                content: content@,
            },
            ClientMessage::Ping => ClientMessageView::Ping,
        }
    }
}

impl View for ServerMessage {
    type V = ServerMessageView;

    open spec fn view(&self) -> ServerMessageView {
        match *self {
            ServerMessage::ChatReply { id, request_id, content, done } => {
                ServerMessageView::ChatReply {
                    id: id@,
                    request_id: request_id@,
                    content: content@,
                    done,
                }
            },
            ServerMessage::Error { message } => ServerMessageView::Error { message: message@ },
            ServerMessage::Pong => ServerMessageView::Pong,
            ServerMessage::Status { gateway_connected } => ServerMessageView::Status {
                gateway_connected,
            },
        }
    }
}

impl View for GatewayFrame {
    type V = GatewayFrameView;

    open spec fn view(&self) -> GatewayFrameView {
        match *self {
            GatewayFrame::Connect { role, node_id } => GatewayFrameView::Connect {
                role: role@,
                node_id: node_id@,
            },
            GatewayFrame::Connected { session_id } => GatewayFrameView::Connected {
                session_id: session_id@,
            },
            GatewayFrame::ChatRequest { request_id, session_id, content } => {
                GatewayFrameView::ChatRequest {
                    request_id: request_id@,
                    session_id: session_id@,
                    content: content@,
                }
            },
            GatewayFrame::ChatResponse { request_id, session_id, content, done } => {
                GatewayFrameView::ChatResponse {
                    request_id: request_id@,
                    session_id: session_id@,
                    content: content@,
                    done,
                }
            },
            GatewayFrame::Ping { timestamp } => GatewayFrameView::Ping { timestamp },
            GatewayFrame::Pong { timestamp } => GatewayFrameView::Pong { timestamp },
            GatewayFrame::Error { message } => GatewayFrameView::Error { message: message@ },
        }
    }
}

impl View for RelayFrame {
    type V = RelayFrameView;

    open spec fn view(&self) -> RelayFrameView {
        match *self {
            RelayFrame::AgentHello { agent_id } => RelayFrameView::AgentHello {
                agent_id: agent_id@,
            },
            RelayFrame::AgentWelcome { agent_id } => RelayFrameView::AgentWelcome {
                agent_id: agent_id@,
            },
        }
    }
}

impl ClientMessage {
    /// A chat message with the given identifier.
    pub fn chat(id: String, content: &str) -> (message: ClientMessage)
        ensures
            message@ == (ClientMessageView::Chat { id: id@, content: content@ }),
    {
        ClientMessage::Chat { id, content: content.to_owned() }
    }

    /// A chat message with a fresh random identifier.
    pub fn new_chat(content: &str) -> (message: ClientMessage)
        ensures
            message@ matches ClientMessageView::Chat { id, content: text }
                && id.len() == ID_LEN
                && text == content@,
    {
        ClientMessage::chat(random_id(), content)
    }
}

impl ServerMessage {
    /// One chunk of the reply to the request `request_id`.
    pub fn chat_reply(id: String, request_id: &str, content: &str, done: bool) -> (message:
        ServerMessage)
        ensures
            message@ == (ServerMessageView::ChatReply {
                id: id@,
                request_id: request_id@,
                content: content@,
                done,
            }),
    {
        ServerMessage::ChatReply {
            id,
            request_id: request_id.to_owned(),
            content: content.to_owned(),
            done,
        }
    }
}

impl GatewayFrame {
    /// The handshake frame of a node with the given identifier.
    pub fn connect(node_id: &str) -> (frame: GatewayFrame)
        ensures
            frame@ == (GatewayFrameView::Connect { role: "node"@, node_id: node_id@ }),
    {
        GatewayFrame::Connect { role: "node".to_owned(), node_id: node_id.to_owned() }
    }

    /// A heartbeat stamped with the given time.
    pub fn ping_at(timestamp: i64) -> (frame: GatewayFrame)
        ensures
            frame@ == (GatewayFrameView::Ping { timestamp }),
    {
        GatewayFrame::Ping { timestamp }
    }

    /// A heartbeat stamped with the current time of the system clock.
    pub fn ping_now() -> (frame: GatewayFrame)
        ensures
            frame@ is Ping,
    {
        GatewayFrame::ping_at(unix_seconds())
    }

    /// A chat request on the given gateway session.
    pub fn chat_request(request_id: &str, session_id: &str, content: &str) -> (frame: GatewayFrame)
        ensures
            frame@ == (GatewayFrameView::ChatRequest {
                request_id: request_id@,
                session_id: session_id@,
                content: content@,
            }),
    {
        GatewayFrame::ChatRequest {
            request_id: request_id.to_owned(),
            session_id: session_id.to_owned(),
            content: content.to_owned(),
        }
    }
}

} // verus!
