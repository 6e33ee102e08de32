//! The handshake between the agent and the relay: the agent says hello with
//! its identifier, the relay welcomes it under the same identifier. Each side
//! reads exactly one frame and accepts nothing but the frame it expects.

use crate::protocol::{RelayFrame, RelayFrameView};
use vstd::prelude::*;

verus! {

/// What the one read of a handshake yielded.
#[derive(Debug)]
pub enum FirstRead {
    /// A text frame: its text, and the frame it decodes to where it decodes.
    Text { raw: String, frame: Option<RelayFrame> },
    /// A frame that is not text.
    NotText,
    /// Reading the link failed; the transport's words.
    Failed(String),
    /// The link ended.
    Ended,
}

/// Why a handshake was not completed.
#[derive(Debug, Clone, PartialEq, Eq)]
pub enum HandshakeError {
    /// A text frame arrived that is not the expected frame; its text.
    Unexpected(String),
    /// No text frame arrived: the link failed, ended, or carried something
    /// else.
    NoAnswer,
}

/// What a [`HandshakeError`] says.
pub enum HandshakeErrorView {
    Unexpected(Seq<char>),
    NoAnswer,
}

impl View for HandshakeError {
    type V = HandshakeErrorView;

    open spec fn view(&self) -> HandshakeErrorView {
        match *self {
            HandshakeError::Unexpected(raw) => HandshakeErrorView::Unexpected(raw@),
            HandshakeError::NoAnswer => HandshakeErrorView::NoAnswer,
        }
    }
}

/// The agent identifier that the read carries in a frame of the wanted kind
/// (`hello`: an `AgentHello`; otherwise an `AgentWelcome`), or why it carries
/// none.
pub open spec fn handshake_answer(first: FirstRead, hello: bool) -> Result<
    Seq<char>,
    HandshakeErrorView,
> {
    match first {
        FirstRead::Text { raw, frame: Some(RelayFrame::AgentHello { agent_id }) } => if hello {
            Ok(agent_id@)
        } else {
            Err(HandshakeErrorView::Unexpected(raw@))
        },
        FirstRead::Text { raw, frame: Some(RelayFrame::AgentWelcome { agent_id }) } => if hello {
            Err(HandshakeErrorView::Unexpected(raw@))
        } else {
            Ok(agent_id@)
        },
        FirstRead::Text { raw, frame: None } => Err(HandshakeErrorView::Unexpected(raw@)),
        _ => Err(HandshakeErrorView::NoAnswer),
    }
}

/// The result of [`expect_hello`] and [`expect_welcome`] as a value of
/// [`handshake_answer`]'s type.
pub open spec fn answer_view(answer: Result<String, HandshakeError>) -> Result<
    Seq<char>,
    HandshakeErrorView,
> {
    match answer {
        Ok(agent_id) => Ok(agent_id@),
        Err(error) => Err(error@),
    }
}

/// The relay's side: the first frame must be an `AgentHello`. Returns the
/// identifier of the agent.
pub fn expect_hello(first: FirstRead) -> (answer: Result<String, HandshakeError>)
    ensures
        answer_view(answer) == handshake_answer(first, true),
{
    match first {
        FirstRead::Text { raw: _, frame: Some(RelayFrame::AgentHello { agent_id }) } => Ok(agent_id),
        FirstRead::Text { raw, frame: _ } => Err(HandshakeError::Unexpected(raw)),
        _ => Err(HandshakeError::NoAnswer),
    }
}

/// The agent's side: the first frame must be an `AgentWelcome`. Returns the
/// identifier under which the relay welcomed the agent.
pub fn expect_welcome(first: FirstRead) -> (answer: Result<String, HandshakeError>)
    ensures
        answer_view(answer) == handshake_answer(first, false),
{
    match first {
        FirstRead::Text { raw: _, frame: Some(RelayFrame::AgentWelcome { agent_id }) } => Ok(
            agent_id,
        ),
        FirstRead::Text { raw, frame: _ } => Err(HandshakeError::Unexpected(raw)),
        _ => Err(HandshakeError::NoAnswer),
    }
}

/// The frame with which an agent introduces itself.
pub fn hello(agent_id: &str) -> (frame: RelayFrame)
    ensures
        frame@ == (RelayFrameView::AgentHello { agent_id: agent_id@ }),
{
    RelayFrame::AgentHello { agent_id: agent_id.to_owned() }
}

/// The frame with which the relay welcomes the agent `agent_id`.
pub fn welcome(agent_id: &str) -> (frame: RelayFrame)
    ensures
        frame@ == (RelayFrameView::AgentWelcome { agent_id: agent_id@ }),
{
    RelayFrame::AgentWelcome { agent_id: agent_id.to_owned() }
}

} // verus!
