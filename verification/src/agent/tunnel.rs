//! One run of the tunnel: relay handshake first, then the local gateway, then
//! text in both directions until either link ends.
//!
//! The agent's reconnect loop runs one [`Tunnel`] per attempt and waits
//! between attempts as its [`Backoff`] says.

use crate::agent::config::AgentSettings;
use crate::backoff::{Backoff, BackoffView};
use crate::handshake::{expect_welcome, handshake_answer, hello, FirstRead, HandshakeErrorView};
use crate::protocol::{RelayFrame, RelayFrameView};
use vstd::prelude::*;

verus! {

/// One of the tunnel's two links.
#[derive(Clone, Copy, Debug, PartialEq, Eq, Structural)]
pub enum Link {
    Relay,
    Gateway,
}

impl Link {
    /// The other link.
    pub open spec fn peer(self) -> Link {
        match self {
            Link::Relay => Link::Gateway,
            Link::Gateway => Link::Relay,
        }
    }

    /// The other link.
    pub fn other(self) -> (link: Link)
        ensures
            link == self.peer(),
    {
        match self {
            Link::Relay => Link::Gateway,
            Link::Gateway => Link::Relay,
        }
    }
}

/// Where a run of the tunnel stands.
#[derive(Clone, Copy, Debug, PartialEq, Eq, Structural)]
pub enum TunnelPhase {
    /// The link to the relay is being opened.
    ConnectingRelay,
    /// The hello is out; exactly one frame is awaited.
    AwaitingWelcome,
    /// The relay welcomed the agent; the link to the gateway is being opened.
    ConnectingGateway,
    /// Both links are up; text passes through.
    Forwarding,
    /// One of the links ended; the run is over.
    Closed,
    /// The run failed before both links were up.
    Failed,
}

/// Why a run of the tunnel failed.
#[derive(Debug, Clone, PartialEq, Eq)]
pub enum TunnelError {
    /// The relay could not be reached, or the hello could not be sent.
    Relay(String),
    /// The relay answered the hello with this text, which is no welcome.
    UnexpectedResponse(String),
    /// The relay did not answer the hello with a text frame.
    HandshakeFailed,
    /// The local gateway could not be reached.
    Gateway(String),
}

/// What a [`TunnelError`] says.
pub enum TunnelErrorView {
    Relay(Seq<char>),
    UnexpectedResponse(Seq<char>),
    HandshakeFailed,
    Gateway(Seq<char>),
}

impl View for TunnelError {
    type V = TunnelErrorView;

    open spec fn view(&self) -> TunnelErrorView {
        match *self {
            TunnelError::Relay(text) => TunnelErrorView::Relay(text@),
            TunnelError::UnexpectedResponse(raw) => TunnelErrorView::UnexpectedResponse(raw@),
            TunnelError::HandshakeFailed => TunnelErrorView::HandshakeFailed,
            TunnelError::Gateway(text) => TunnelErrorView::Gateway(text@),
        }
    }
}

impl TunnelErrorView {
    /// The error as one line of text.
    pub open spec fn message(self) -> Seq<char> {
        match self {
            TunnelErrorView::Relay(text) => text,
            TunnelErrorView::UnexpectedResponse(raw) => "unexpected relay response: "@ + raw,
            TunnelErrorView::HandshakeFailed => "relay handshake failed"@,
            TunnelErrorView::Gateway(text) => text,
        }
    }

    /// What a refused handshake means for the run.
    pub open spec fn from_handshake(error: HandshakeErrorView) -> TunnelErrorView {
        match error {
            HandshakeErrorView::Unexpected(raw) => TunnelErrorView::UnexpectedResponse(raw),
            HandshakeErrorView::NoAnswer => TunnelErrorView::HandshakeFailed,
        }
    }
}

impl TunnelError {
    /// The error as one line of text.
    pub fn message(&self) -> (text: String)
        ensures
            text@ == self@.message(),
    {
        match self {
            TunnelError::Relay(text) => text.clone(),
            TunnelError::UnexpectedResponse(raw) => {
                let mut text = "unexpected relay response: ".to_owned();
                text.append(raw.as_str());
                text
            },
            TunnelError::HandshakeFailed => "relay handshake failed".to_owned(),
            TunnelError::Gateway(text) => text.clone(),
        }
    }
}

/// What one read on a link yielded while text passes through.
#[derive(Debug)]
pub enum Read {
    /// A text frame.
    Text(String),
    /// A close frame.
    Close,
    /// Some other frame.
    Other,
    /// Reading failed.
    Failed(String),
    /// The link ended.
    End,
}

/// One event of a run of the tunnel.
#[derive(Debug)]
pub enum TunnelEvent {
    /// The link is open.
    Opened(Link),
    /// The link could not be opened.
    ConnectFailed(Link, String),
    /// The relay's answer to the hello.
    Answer(FirstRead),
    /// One read on the link.
    Incoming(Link, Read),
    /// Writing the link failed.
    WriteFailed(Link, String),
}

/// What the caller does next.
#[derive(Debug, PartialEq, Eq)]
pub enum TunnelCommand {
    /// Nothing; wait for the next event.
    Nothing,
    /// Encode the frame, send it to the relay and read the answer.
    SendHello(RelayFrame),
    /// Open the link to the gateway at this address.
    ConnectGateway(String),
    /// Both links are up: read both.
    StartForwarding,
    /// Send the text on the link.
    SendText(Link, String),
    /// The run is over; see [`Tunnel::outcome`].
    Finish,
}

/// What a [`TunnelCommand`] says.
pub enum TunnelCommandView {
    Nothing,
    SendHello(RelayFrameView),
    ConnectGateway(Seq<char>),
    StartForwarding,
    SendText(Link, Seq<char>),
    Finish,
}

impl View for TunnelCommand {
    type V = TunnelCommandView;

    open spec fn view(&self) -> TunnelCommandView {
        match *self {
            TunnelCommand::Nothing => TunnelCommandView::Nothing,
            TunnelCommand::SendHello(frame) => TunnelCommandView::SendHello(frame@),
            TunnelCommand::ConnectGateway(url) => TunnelCommandView::ConnectGateway(url@),
            TunnelCommand::StartForwarding => TunnelCommandView::StartForwarding,
            TunnelCommand::SendText(link, text) => TunnelCommandView::SendText(link, text@),
            TunnelCommand::Finish => TunnelCommandView::Finish,
        }
    }
}

/// The mathematical content of a [`Tunnel`].
pub struct TunnelView {
    pub phase: TunnelPhase,
    /// The identifier that the agent presents to the relay.
    pub agent_id: Seq<char>,
    /// The address of the local gateway.
    pub gateway_url: Seq<char>,
    /// Why the run failed, once it has.
    pub failure: Option<TunnelErrorView>,
}

impl TunnelView {
    /// A run that has not opened a link yet.
    pub open spec fn start(agent_id: Seq<char>, gateway_url: Seq<char>) -> TunnelView {
        TunnelView { phase: TunnelPhase::ConnectingRelay, agent_id, gateway_url, failure: None }
    }

    /// This run in another phase.
    pub open spec fn moved_to(self, phase: TunnelPhase) -> TunnelView {
        TunnelView { phase, ..self }
    }

    /// This run, failed for the given reason.
    pub open spec fn failed(self, error: TunnelErrorView) -> TunnelView {
        TunnelView { phase: TunnelPhase::Failed, failure: Some(error), ..self }
    }

    /// Whether the run is over.
    pub open spec fn finished(self) -> bool {
        self.phase == TunnelPhase::Closed || self.phase == TunnelPhase::Failed
    }
}

/// The event is not meant for the phase: nothing changes and nothing is done.
pub open spec fn ignored(pre: TunnelView, post: TunnelView, command: TunnelCommandView) -> bool {
    post == pre && command == TunnelCommandView::Nothing
}

/// The run ends in failure.
pub open spec fn fails_with(
    error: TunnelErrorView,
    pre: TunnelView,
    post: TunnelView,
    command: TunnelCommandView,
) -> bool {
    post == pre.failed(error) && command == TunnelCommandView::Finish
}

/// The run ends because a link ended.
pub open spec fn closes(pre: TunnelView, post: TunnelView, command: TunnelCommandView) -> bool {
    post == pre.moved_to(TunnelPhase::Closed) && command == TunnelCommandView::Finish
}

/// The transition relation of a run: whether the event leads from `pre` to
/// `post`, with `command` for the caller.
pub open spec fn transition(
    pre: TunnelView,
    event: TunnelEvent,
    post: TunnelView,
    command: TunnelCommandView,
) -> bool {
    match pre.phase {
        TunnelPhase::ConnectingRelay => match event {
            TunnelEvent::Opened(Link::Relay) => {
                &&& post == pre.moved_to(TunnelPhase::AwaitingWelcome)
                &&& command == TunnelCommandView::SendHello(
                    RelayFrameView::AgentHello { agent_id: pre.agent_id },
                )
            },
            TunnelEvent::ConnectFailed(Link::Relay, text) => fails_with(
                TunnelErrorView::Relay(text@),
                pre,
                post,
                command,
            ),
            _ => ignored(pre, post, command),
        },
        TunnelPhase::AwaitingWelcome => match event {
            TunnelEvent::Answer(first) => match handshake_answer(first, false) {
                Ok(_) => {
                    &&& post == pre.moved_to(TunnelPhase::ConnectingGateway)
                    &&& command == TunnelCommandView::ConnectGateway(pre.gateway_url)
                },
                Err(error) => fails_with(
                    TunnelErrorView::from_handshake(error),
                    pre,
                    post,
                    command,
                ),
            },
            TunnelEvent::WriteFailed(Link::Relay, text) => fails_with(
                TunnelErrorView::Relay(text@),
                pre,
                post,
                command,
            ),
            _ => ignored(pre, post, command),
        },
        TunnelPhase::ConnectingGateway => match event {
            TunnelEvent::Opened(Link::Gateway) => {
                &&& post == pre.moved_to(TunnelPhase::Forwarding)
                &&& command == TunnelCommandView::StartForwarding
            },
            TunnelEvent::ConnectFailed(Link::Gateway, text) => fails_with(
                TunnelErrorView::Gateway(text@),
                pre,
                post,
                command,
            ),
            _ => ignored(pre, post, command),
        },
        TunnelPhase::Forwarding => match event {
            TunnelEvent::Incoming(from, Read::Text(text)) => {
                &&& post == pre
                &&& command == TunnelCommandView::SendText(from.peer(), text@)
            },
            TunnelEvent::Incoming(_, Read::Other) => ignored(pre, post, command),
            TunnelEvent::Incoming(_, _) => closes(pre, post, command),
            TunnelEvent::WriteFailed(_, _) => closes(pre, post, command),
            _ => ignored(pre, post, command),
        },
        TunnelPhase::Closed | TunnelPhase::Failed => ignored(pre, post, command),
    }
}

/// One run of the tunnel.
pub struct Tunnel {
    phase: TunnelPhase,
    agent_id: String,
    gateway_url: String,
    failure: Option<TunnelError>,
}

impl View for Tunnel {
    type V = TunnelView;

    closed spec fn view(&self) -> TunnelView {
        TunnelView {
            phase: self.phase,
            agent_id: self.agent_id@,
            gateway_url: self.gateway_url@,
            failure: match self.failure {
                Some(error) => Some(error@),
                None => None,
            },
        }
    }
}

impl Tunnel {
    #[verifier::type_invariant]
    spec fn failure_is_recorded(self) -> bool {
        self.phase == TunnelPhase::Failed ==> self.failure is Some
    }

    /// A new run with the configured identifier and gateway address.
    pub fn new(settings: &AgentSettings) -> (tunnel: Tunnel)
        ensures
            tunnel@ == TunnelView::start(settings.agent_id@, settings.gateway_url@),
    {
        Tunnel {
            phase: TunnelPhase::ConnectingRelay,
            agent_id: settings.agent_id.clone(),
            gateway_url: settings.gateway_url.clone(),
            failure: None,
        }
    }

    /// Where the run stands.
    pub fn phase(&self) -> (phase: TunnelPhase)
        ensures
            phase == self@.phase,
    {
        self.phase
    }

    /// How the run ended: `Ok` when a link ended after both were up, the
    /// error after a failure, `None` while the run goes on.
    pub fn outcome(&self) -> (outcome: Option<Result<(), &TunnelError>>)
        ensures
            match outcome {
                None => !self@.finished(),
                Some(Ok(())) => self@.phase == TunnelPhase::Closed,
                Some(Err(error)) => self@.phase == TunnelPhase::Failed && self@.failure == Some(
                    error@,
                ),
            },
    {
        proof {
            use_type_invariant(self);
        }
        match self.phase {
            TunnelPhase::Closed => Some(Ok(())),
            TunnelPhase::Failed => match &self.failure {
                Some(error) => Some(Err(error)),
                None => None,
            },
            _ => None,
        }
    }

    fn fail(&mut self, error: TunnelError) -> (command: TunnelCommand)
        ensures
            final(self)@ == old(self)@.failed(error@),
            command@ == TunnelCommandView::Finish,
    {
        self.failure = Some(error);
        self.phase = TunnelPhase::Failed;
        TunnelCommand::Finish
    }

    fn close(&mut self) -> (command: TunnelCommand)
        ensures
            final(self)@ == old(self)@.moved_to(TunnelPhase::Closed),
            command@ == TunnelCommandView::Finish,
    {
        self.phase = TunnelPhase::Closed;
        TunnelCommand::Finish
    }

    /// Takes one event and says what to do next.
    pub fn step(&mut self, event: TunnelEvent) -> (command: TunnelCommand)
        ensures
            transition(old(self)@, event, final(self)@, command@),
    {
        match self.phase {
            TunnelPhase::ConnectingRelay => match event {
                TunnelEvent::Opened(Link::Relay) => {
                    self.phase = TunnelPhase::AwaitingWelcome;
                    TunnelCommand::SendHello(hello(self.agent_id.as_str()))
                },
                TunnelEvent::ConnectFailed(Link::Relay, text) => self.fail(
                    TunnelError::Relay(text),
                ),
                _ => TunnelCommand::Nothing,
            },
            TunnelPhase::AwaitingWelcome => match event {
                TunnelEvent::Answer(first) => match expect_welcome(first) {
                    Ok(_) => {
                        self.phase = TunnelPhase::ConnectingGateway;
                        TunnelCommand::ConnectGateway(self.gateway_url.clone())
                    },
                    Err(crate::handshake::HandshakeError::Unexpected(raw)) => self.fail(
                        TunnelError::UnexpectedResponse(raw),
                    ),
                    Err(crate::handshake::HandshakeError::NoAnswer) => self.fail(
                        TunnelError::HandshakeFailed,
                    ),
                },
                TunnelEvent::WriteFailed(Link::Relay, text) => self.fail(TunnelError::Relay(text)),
                _ => TunnelCommand::Nothing,
            },
            TunnelPhase::ConnectingGateway => match event {
                TunnelEvent::Opened(Link::Gateway) => {
                    self.phase = TunnelPhase::Forwarding;
                    TunnelCommand::StartForwarding
                },
                TunnelEvent::ConnectFailed(Link::Gateway, text) => self.fail(
                    TunnelError::Gateway(text),
                ),
                _ => TunnelCommand::Nothing,
            },
            TunnelPhase::Forwarding => match event {
                TunnelEvent::Incoming(from, Read::Text(text)) => TunnelCommand::SendText(
                    from.other(),
                    text,
                ),
                TunnelEvent::Incoming(_, Read::Other) => TunnelCommand::Nothing,
                TunnelEvent::Incoming(_, _) => self.close(),
                TunnelEvent::WriteFailed(_, _) => self.close(),
                _ => TunnelCommand::Nothing,
            },
            TunnelPhase::Closed | TunnelPhase::Failed => TunnelCommand::Nothing,
        }
    }
}

/// The reconnect schedule that the settings ask for.
pub fn reconnect_schedule(settings: &AgentSettings) -> (backoff: Backoff)
    ensures
        backoff@ == BackoffView::start(
            settings.reconnect_base_ms as int,
            settings.reconnect_max_ms as int,
        ),
{
    Backoff::new(settings.reconnect_base_ms, settings.reconnect_max_ms)
}

/// Pass-through: once both links are up, every text frame goes out on the
/// other link exactly as it came in, and the run stays up.
pub proof fn lemma_text_passes_through(
    pre: TunnelView,
    from: Link,
    text: String,
    post: TunnelView,
    command: TunnelCommandView,
)
    requires
        pre.phase == TunnelPhase::Forwarding,
        transition(pre, TunnelEvent::Incoming(from, Read::Text(text)), post, command),
    ensures
        command == TunnelCommandView::SendText(from.peer(), text@),
        post == pre,
{
}

} // verus!
