//! The gateway connection supervisor: one outbound link to the gateway, kept
//! alive by handshake, heartbeat and reconnect with backoff.
//!
//! A [`GatewaySession`] is one connection attempt. The caller opens the link,
//! feeds every event of the link into [`GatewaySession::step`] and performs
//! the command that comes back. A [`Supervisor`] decides how long to wait
//! between attempts.

use crate::backoff::{Backoff, BackoffView};
use crate::protocol::{GatewayFrame, GatewayFrameView};
use crate::registry::ChannelId;
use crate::server::config::GatewayConfig;
use crate::server::router::{Delivery, DeliveryView, RouterHandle, RouterView};
use vstd::prelude::*;

verus! {

/// Where a connection attempt stands.
#[derive(Clone, Copy, Debug, PartialEq, Eq, Structural)]
pub enum Phase {
    /// The link is being opened.
    Connecting,
    /// The handshake frame is out; exactly one frame is awaited.
    AwaitingHandshakeAck,
    /// The gateway acknowledged; traffic flows.
    Connected,
    /// The link was closed in an orderly way.
    Closed,
    /// The attempt failed.
    Errored,
}

/// Why a connection attempt failed.
#[derive(Debug, Clone, PartialEq, Eq)]
pub enum GatewayError {
    /// The gateway answered the handshake with an error.
    Rejected(String),
    /// The gateway answered the handshake with some other frame.
    UnexpectedFrame,
    /// The answer to the handshake was not a text frame.
    NonTextFrame,
    /// The link ended before the handshake was answered.
    ClosedDuringHandshake,
    /// The answer to the handshake could not be decoded; the decoder's words.
    Malformed(String),
    /// Opening, reading or writing the link failed; the transport's words.
    Transport(String),
}

/// What a [`GatewayError`] says.
pub enum GatewayErrorView {
    Rejected(Seq<char>),
    UnexpectedFrame,
    NonTextFrame,
    ClosedDuringHandshake,
    Malformed(Seq<char>),
    Transport(Seq<char>),
}

impl View for GatewayError {
    type V = GatewayErrorView;

    open spec fn view(&self) -> GatewayErrorView {
        match *self {
            GatewayError::Rejected(message) => GatewayErrorView::Rejected(message@),
            GatewayError::UnexpectedFrame => GatewayErrorView::UnexpectedFrame,
            GatewayError::NonTextFrame => GatewayErrorView::NonTextFrame,
            GatewayError::ClosedDuringHandshake => GatewayErrorView::ClosedDuringHandshake,
            GatewayError::Malformed(text) => GatewayErrorView::Malformed(text@),
            GatewayError::Transport(text) => GatewayErrorView::Transport(text@),
        }
    }
}

impl GatewayErrorView {
    /// The error as one line of text.
    pub open spec fn message(self) -> Seq<char> {
        match self {
            GatewayErrorView::Rejected(message) => "Gateway rejected: "@ + message,
            GatewayErrorView::UnexpectedFrame => "Unexpected frame during handshake"@,
            GatewayErrorView::NonTextFrame => "Non-text frame during handshake"@,
            GatewayErrorView::ClosedDuringHandshake => "Connection closed during handshake"@,
            GatewayErrorView::Malformed(text) => text,
            GatewayErrorView::Transport(text) => text,
        }
    }
}

impl GatewayError {
    /// The error as one line of text.
    pub fn message(&self) -> (text: String)
        ensures
            text@ == self@.message(),
    {
        match self {
            GatewayError::Rejected(message) => {
                let mut text = "Gateway rejected: ".to_owned();
                text.append(message.as_str());
                text
            },
            GatewayError::UnexpectedFrame => "Unexpected frame during handshake".to_owned(),
            GatewayError::NonTextFrame => "Non-text frame during handshake".to_owned(),
            GatewayError::ClosedDuringHandshake => "Connection closed during handshake".to_owned(),
            GatewayError::Malformed(text) => text.clone(),
            GatewayError::Transport(text) => text.clone(),
        }
    }
}

/// One event on the gateway link.
#[derive(Debug)]
pub enum GatewayEvent {
    /// The link is open.
    Opened,
    /// The link could not be opened.
    ConnectFailed(String),
    /// A text frame arrived and decoded to this frame.
    Frame(GatewayFrame),
    /// A text frame arrived that does not decode.
    Malformed(String),
    /// A transport-level ping arrived with this payload.
    Ping(Vec<u8>),
    /// A close frame arrived.
    Close,
    /// Some other frame arrived: binary, or a transport-level pong.
    Other,
    /// Reading the link failed.
    ReadFailed(String),
    /// The link ended.
    End,
    /// The router enqueued this encoded frame for the gateway.
    Outbound(String),
    /// The link has been idle for the heartbeat interval.
    HeartbeatDue,
    /// Writing the link failed.
    WriteFailed(String),
}

/// What the caller does next.
#[derive(Debug, PartialEq, Eq)]
pub enum GatewayCommand {
    /// Nothing; wait for the next event.
    Nothing,
    /// Encode this frame and send it as text.
    SendFrame(GatewayFrame),
    /// Send this text as it is.
    SendText(String),
    /// Answer a ping with a transport-level pong of this payload.
    SendPong(Vec<u8>),
    /// The handshake is done. From now on what is enqueued on this channel
    /// comes back as [`GatewayEvent::Outbound`], and the idle timer runs.
    StartDraining(ChannelId),
    /// Enqueue this message on a client's channel.
    Deliver(Delivery),
    /// The attempt is over; see [`GatewaySession::outcome`].
    Finish,
}

/// What a [`GatewayCommand`] says.
pub enum GatewayCommandView {
    Nothing,
    SendFrame(GatewayFrameView),
    SendText(Seq<char>),
    SendPong(Seq<u8>),
    StartDraining(ChannelId),
    Deliver(DeliveryView),
    Finish,
}

impl View for GatewayCommand {
    type V = GatewayCommandView;

    open spec fn view(&self) -> GatewayCommandView {
        match *self {
            GatewayCommand::Nothing => GatewayCommandView::Nothing,
            GatewayCommand::SendFrame(frame) => GatewayCommandView::SendFrame(frame@),
            GatewayCommand::SendText(text) => GatewayCommandView::SendText(text@),
            GatewayCommand::SendPong(data) => GatewayCommandView::SendPong(data@),
            GatewayCommand::StartDraining(channel) => GatewayCommandView::StartDraining(channel),
            GatewayCommand::Deliver(delivery) => GatewayCommandView::Deliver(delivery@),
            GatewayCommand::Finish => GatewayCommandView::Finish,
        }
    }
}

/// The mathematical content of a [`GatewaySession`].
pub struct SessionView {
    pub phase: Phase,
    /// The identifier that this node presents at the handshake.
    pub node_id: Seq<char>,
    /// The outbound channel that belongs to this attempt.
    pub channel: ChannelId,
    /// The heartbeat interval in seconds.
    pub heartbeat_secs: u64,
    /// Why the attempt failed, once it has.
    pub failure: Option<GatewayErrorView>,
}

impl SessionView {
    /// An attempt that has not opened its link yet.
    pub open spec fn start(node_id: Seq<char>, heartbeat_secs: u64, channel: ChannelId) -> SessionView {
        SessionView { phase: Phase::Connecting, node_id, channel, heartbeat_secs, failure: None }
    }

    /// This attempt, failed for the given reason.
    pub open spec fn failed(self, error: GatewayErrorView) -> SessionView {
        SessionView { phase: Phase::Errored, failure: Some(error), ..self }
    }

    /// This attempt in another phase.
    pub open spec fn moved_to(self, phase: Phase) -> SessionView {
        SessionView { phase, ..self }
    }

    /// How long the link may stay idle before a heartbeat is due: the
    /// configured interval while connected, no limit otherwise.
    pub open spec fn idle_limit(self) -> Option<u64> {
        if self.phase == Phase::Connected {
            Some(self.heartbeat_secs)
        } else {
            None
        }
    }

    /// Whether the attempt is over.
    pub open spec fn finished(self) -> bool {
        self.phase == Phase::Closed || self.phase == Phase::Errored
    }
}

/// Whether a frame from the gateway, received while connected, leads from
/// `router` to `after` and to `delivery`: a chat response is routed to the
/// client that waits for it, every other frame is ignored.
pub open spec fn gateway_frame_handled(
    frame: GatewayFrameView,
    router: RouterView,
    after: RouterView,
    delivery: Option<DeliveryView>,
) -> bool {
    match frame {
        GatewayFrameView::ChatResponse { request_id, session_id, content, done } => {
            router.routes_reply(request_id, content, done, after, delivery)
        },
        _ => after == router && delivery is None,
    }
}

/// The event is not meant for the phase: nothing changes and nothing is done.
pub open spec fn ignored(
    pre: SessionView,
    router: RouterView,
    post: SessionView,
    after: RouterView,
    command: GatewayCommandView,
) -> bool {
    post == pre && after == router && command == GatewayCommandView::Nothing
}

/// The attempt ends in failure without touching the router.
pub open spec fn fails_with(
    error: GatewayErrorView,
    pre: SessionView,
    router: RouterView,
    post: SessionView,
    after: RouterView,
    command: GatewayCommandView,
) -> bool {
    post == pre.failed(error) && after == router && command == GatewayCommandView::Finish
}

/// The transition relation of a connection attempt: whether the event leads
/// from `pre` and `router` to `post` and `after`, with `command` for the
/// caller.
pub open spec fn transition(
    pre: SessionView,
    router: RouterView,
    event: GatewayEvent,
    post: SessionView,
    after: RouterView,
    command: GatewayCommandView,
) -> bool {
    match pre.phase {
        Phase::Connecting => match event {
            GatewayEvent::Opened => {
                &&& post == pre.moved_to(Phase::AwaitingHandshakeAck)
                &&& after == router
                &&& command == GatewayCommandView::SendFrame(
                    GatewayFrameView::Connect { role: "node"@, node_id: pre.node_id },
                )
            },
            GatewayEvent::ConnectFailed(text) => fails_with(
                GatewayErrorView::Transport(text@),
                pre,
                router,
                post,
                after,
                command,
            ),
            _ => ignored(pre, router, post, after, command),
        },
        Phase::AwaitingHandshakeAck => match event {
            GatewayEvent::Frame(GatewayFrame::Connected { session_id }) => {
                &&& post == pre.moved_to(Phase::Connected)
                &&& after == router.connected(pre.channel, session_id@)
                &&& command == GatewayCommandView::StartDraining(pre.channel)
            },
            GatewayEvent::Frame(GatewayFrame::Error { message }) => fails_with(
                GatewayErrorView::Rejected(message@),
                pre,
                router,
                post,
                after,
                command,
            ),
            GatewayEvent::Frame(_) => fails_with(
                GatewayErrorView::UnexpectedFrame,
                pre,
                router,
                post,
                after,
                command,
            ),
            GatewayEvent::Malformed(text) => fails_with(
                GatewayErrorView::Malformed(text@),
                pre,
                router,
                post,
                after,
                command,
            ),
            GatewayEvent::Ping(_) | GatewayEvent::Close | GatewayEvent::Other => fails_with(
                GatewayErrorView::NonTextFrame,
                pre,
                router,
                post,
                after,
                command,
            ),
            GatewayEvent::End => fails_with(
                GatewayErrorView::ClosedDuringHandshake,
                pre,
                router,
                post,
                after,
                command,
            ),
            GatewayEvent::ReadFailed(text) | GatewayEvent::WriteFailed(text) => fails_with(
                GatewayErrorView::Transport(text@),
                pre,
                router,
                post,
                after,
                command,
            ),
            _ => ignored(pre, router, post, after, command),
        },
        Phase::Connected => match event {
            GatewayEvent::Frame(frame) => {
                &&& post == pre
                &&& match command {
                    GatewayCommandView::Deliver(delivery) => gateway_frame_handled(
                        frame@,
                        router,
                        after,
                        Some(delivery),
                    ),
                    GatewayCommandView::Nothing => gateway_frame_handled(
                        frame@,
                        router,
                        after,
                        None,
                    ),
                    _ => false,
                }
            },
            GatewayEvent::Ping(data) => {
                &&& post == pre
                &&& after == router
                &&& command == GatewayCommandView::SendPong(data@)
            },
            GatewayEvent::Outbound(text) => {
                &&& post == pre
                &&& after == router
                &&& command == GatewayCommandView::SendText(text@)
            },
            GatewayEvent::HeartbeatDue => {
                &&& post == pre
                &&& after == router
                &&& command matches GatewayCommandView::SendFrame(frame)
                &&& frame is Ping
            },
            GatewayEvent::Close | GatewayEvent::End => {
                &&& post == pre.moved_to(Phase::Closed)
                &&& after == router.disconnected()
                &&& command == GatewayCommandView::Finish
            },
            GatewayEvent::ReadFailed(text) | GatewayEvent::WriteFailed(text) => {
                &&& post == pre.failed(GatewayErrorView::Transport(text@))
                &&& after == router.disconnected()
                &&& command == GatewayCommandView::Finish
            },
            _ => ignored(pre, router, post, after, command),
        },
        Phase::Closed | Phase::Errored => ignored(pre, router, post, after, command),
    }
}

/// Handles one frame that the gateway sent while connected: a chat response
/// is routed to the client that waits for it; a pong, an error and any other
/// frame are ignored.
pub fn handle_gateway_msg(frame: GatewayFrame, router: &mut RouterHandle) -> (delivery: Option<
    Delivery,
>)
    ensures
        gateway_frame_handled(
            frame@,
            old(router)@,
            final(router)@,
            match delivery {
                Some(d) => Some(d@),
                None => None,
            },
        ),
{
    match frame {
        GatewayFrame::ChatResponse { request_id, session_id: _, content, done } => {
            router.dispatch_reply(request_id.as_str(), content.as_str(), done)
        },
        _ => None,
    }
}

/// One connection attempt to the gateway.
pub struct GatewaySession {
    phase: Phase,
    node_id: String,
    channel: ChannelId,
    heartbeat_secs: u64,
    failure: Option<GatewayError>,
}

impl View for GatewaySession {
    type V = SessionView;

    closed spec fn view(&self) -> SessionView {
        SessionView {
            phase: self.phase,
            node_id: self.node_id@,
            channel: self.channel,
            heartbeat_secs: self.heartbeat_secs,
            failure: match self.failure {
                Some(error) => Some(error@),
                None => None,
            },
        }
    }
}

impl GatewaySession {
    #[verifier::type_invariant]
    spec fn failure_is_recorded(self) -> bool {
        self.phase == Phase::Errored ==> self.failure is Some
    }

    /// A new attempt for the configured node. `channel` names the outbound
    /// channel that the router will use once the handshake is done.
    pub fn new(config: &GatewayConfig, channel: ChannelId) -> (session: GatewaySession)
        ensures
            session@ == SessionView::start(
                config.node_id@,
                config.heartbeat_interval_secs,
                channel,
            ),
    {
        GatewaySession {
            phase: Phase::Connecting,
            node_id: config.node_id.clone(),
            channel,
            heartbeat_secs: config.heartbeat_interval_secs,
            failure: None,
        }
    }

    /// Where the attempt stands.
    pub fn phase(&self) -> (phase: Phase)
        ensures
            phase == self@.phase,
    {
        self.phase
    }

    /// How many seconds the link may stay idle before
    /// [`GatewayEvent::HeartbeatDue`] is to be raised; `None` while the
    /// heartbeat does not run.
    pub fn idle_limit(&self) -> (limit: Option<u64>)
        ensures
            limit == self@.idle_limit(),
    {
        match self.phase {
            Phase::Connected => Some(self.heartbeat_secs),
            _ => None,
        }
    }

    /// How the attempt ended: `Ok` after an orderly close, the error after a
    /// failure, `None` while it is still running.
    pub fn outcome(&self) -> (outcome: Option<Result<(), &GatewayError>>)
        ensures
            match outcome {
                None => !self@.finished(),
                Some(Ok(())) => self@.phase == Phase::Closed,
                Some(Err(error)) => self@.phase == Phase::Errored && self@.failure == Some(error@),
            },
    {
        proof {
            use_type_invariant(self);
        }
        match self.phase {
            Phase::Closed => Some(Ok(())),
            Phase::Errored => match &self.failure {
                Some(error) => Some(Err(error)),
                None => None,
            },
            _ => None,
        }
    }

    fn fail(&mut self, error: GatewayError) -> (command: GatewayCommand)
        ensures
            final(self)@ == old(self)@.failed(error@),
            command@ == GatewayCommandView::Finish,
    {
        self.failure = Some(error);
        self.phase = Phase::Errored;
        GatewayCommand::Finish
    }

    /// Takes one event of the link and says what to do next.
    pub fn step(&mut self, router: &mut RouterHandle, event: GatewayEvent) -> (command:
        GatewayCommand)
        ensures
            transition(old(self)@, old(router)@, event, final(self)@, final(router)@, command@),
    {
        match self.phase {
            Phase::Connecting => match event {
                GatewayEvent::Opened => {
                    self.phase = Phase::AwaitingHandshakeAck;
                    GatewayCommand::SendFrame(GatewayFrame::connect(self.node_id.as_str()))
                },
                GatewayEvent::ConnectFailed(text) => self.fail(GatewayError::Transport(text)),
                _ => GatewayCommand::Nothing,
            },
            Phase::AwaitingHandshakeAck => match event {
                GatewayEvent::Frame(GatewayFrame::Connected { session_id }) => {
                    router.gateway_up(self.channel, session_id);
                    self.phase = Phase::Connected;
                    GatewayCommand::StartDraining(self.channel)
                },
                GatewayEvent::Frame(GatewayFrame::Error { message }) => self.fail(
                    GatewayError::Rejected(message),
                ),
                GatewayEvent::Frame(_) => self.fail(GatewayError::UnexpectedFrame),
                GatewayEvent::Malformed(text) => self.fail(GatewayError::Malformed(text)),
                GatewayEvent::Ping(_) | GatewayEvent::Close | GatewayEvent::Other => self.fail(
                    GatewayError::NonTextFrame,
                ),
                GatewayEvent::End => self.fail(GatewayError::ClosedDuringHandshake),
                GatewayEvent::ReadFailed(text) => self.fail(GatewayError::Transport(text)),
                GatewayEvent::WriteFailed(text) => self.fail(GatewayError::Transport(text)),
                _ => GatewayCommand::Nothing,
            },
            Phase::Connected => match event {
                GatewayEvent::Frame(frame) => match handle_gateway_msg(frame, router) {
                    Some(delivery) => GatewayCommand::Deliver(delivery),
                    None => GatewayCommand::Nothing,
                },
                GatewayEvent::Ping(data) => GatewayCommand::SendPong(data),
                GatewayEvent::Outbound(text) => GatewayCommand::SendText(text),
                GatewayEvent::HeartbeatDue => GatewayCommand::SendFrame(GatewayFrame::ping_now()),
                GatewayEvent::Close | GatewayEvent::End => {
                    router.gateway_down();
                    self.phase = Phase::Closed;
                    GatewayCommand::Finish
                },
                GatewayEvent::ReadFailed(text) => {
                    router.gateway_down();
                    self.fail(GatewayError::Transport(text))
                },
                GatewayEvent::WriteFailed(text) => {
                    router.gateway_down();
                    self.fail(GatewayError::Transport(text))
                },
                _ => GatewayCommand::Nothing,
            },
            Phase::Closed | Phase::Errored => GatewayCommand::Nothing,
        }
    }
}

/// The loop around the attempts: after each one it marks the gateway as
/// disconnected and says how long to wait before the next.
pub struct Supervisor {
    backoff: Backoff,
}

impl View for Supervisor {
    type V = BackoffView;

    closed spec fn view(&self) -> BackoffView {
        self.backoff@
    }
}

impl Supervisor {
    /// A supervisor with the configured base and maximum delay.
    pub fn new(config: &GatewayConfig) -> (supervisor: Supervisor)
        ensures
            supervisor@ == BackoffView::start(
                config.reconnect_base_ms as int,
                config.reconnect_max_ms as int,
            ),
    {
        Supervisor { backoff: Backoff::new(config.reconnect_base_ms, config.reconnect_max_ms) }
    }

    /// Records the end of an attempt: the router learns that the gateway is
    /// not connected, and the result is the number of milliseconds to wait
    /// before the next attempt. An attempt that ended in an orderly close
    /// (`clean`) resets the delay to the base.
    pub fn attempt_finished(&mut self, router: &mut RouterHandle, clean: bool) -> (delay_ms: u64)
        ensures
            delay_ms == old(self)@.wait(clean),
            final(self)@ == old(self)@.after(clean),
            final(router)@ == (RouterView { gateway_connected: false, ..old(router)@ }),
    {
        router.set_gateway_connected(false);
        self.backoff.next_delay(clean)
    }
}

/// Whether the router's record of the gateway agrees with the attempt: the
/// attempt's channel, a session and the connected flag are published while
/// the attempt is connected, and no channel and no flag otherwise.
pub open spec fn published(session: SessionView, router: RouterView) -> bool {
    if session.phase == Phase::Connected {
        &&& router.gateway_tx == Some(session.channel)
        &&& router.gateway_session is Some
        &&& router.gateway_connected
    } else {
        &&& router.gateway_tx is None
        &&& !router.gateway_connected
    }
}

/// The router's record of the gateway changes together with the attempt: it
/// agrees with a new attempt beside a new router, and every transition keeps
/// the agreement. So chat requests are accepted exactly while the attempt is
/// connected.
pub proof fn lemma_published_with_the_phase(
    pre: SessionView,
    router: RouterView,
    event: GatewayEvent,
    post: SessionView,
    after: RouterView,
    command: GatewayCommandView,
    request_id: Seq<char>,
    content: Seq<char>,
)
    requires
        published(pre, router),
        transition(pre, router, event, post, after, command),
    ensures
        published(post, after),
        after.request(request_id, content) is Ok <==> post.phase == Phase::Connected,
        published(SessionView::start(pre.node_id, pre.heartbeat_secs, pre.channel), RouterView::fresh()),
{
}

/// Heartbeat: while connected, an idle link is given exactly the configured
/// interval, and when that interval has passed a ping goes out and the session
/// stays connected, so the next interval starts.
pub proof fn lemma_heartbeat(
    pre: SessionView,
    router: RouterView,
    post: SessionView,
    after: RouterView,
    command: GatewayCommandView,
)
    requires
        pre.phase == Phase::Connected,
        transition(pre, router, GatewayEvent::HeartbeatDue, post, after, command),
    ensures
        pre.idle_limit() == Some(pre.heartbeat_secs),
        command matches GatewayCommandView::SendFrame(frame) && frame is Ping,
        post.phase == Phase::Connected,
        post.idle_limit() == Some(pre.heartbeat_secs),
        after == router,
{
}

/// Whatever ends a connected session, the router is told: afterwards no
/// outbound channel is published and the gateway counts as disconnected, so
/// every request fails until the next handshake.
pub proof fn lemma_leaving_connected_disconnects(
    pre: SessionView,
    router: RouterView,
    event: GatewayEvent,
    post: SessionView,
    after: RouterView,
    command: GatewayCommandView,
)
    requires
        pre.phase == Phase::Connected,
        transition(pre, router, event, post, after, command),
        post.phase != Phase::Connected,
    ensures
        post.finished(),
        command == GatewayCommandView::Finish,
        after.gateway_tx is None,
        !after.gateway_connected,
        after.pending == router.pending,
        after.clients == router.clients,
{
}

} // verus!
