//! The router: the registry of client sessions, the registry of requests in
//! flight, and what is currently known about the gateway link.
//!
//! Every operation is one transition of the shared state. None of them waits
//! for anything: where a message has to go out, the operation returns the
//! message and the channel to put it on.

use crate::fresh::{random_id, ID_LEN};
use crate::lines::Lines;
use crate::protocol::{GatewayFrame, GatewayFrameView, ServerMessage, ServerMessageView};
use crate::registry::{without_channels, ChannelId, Registry};
use tokio::sync::mpsc::Sender;
use vstd::prelude::*;

verus! {

/// Why a chat request could not be handed to the gateway.
#[derive(Clone, Copy, Debug, PartialEq, Eq, Structural)]
pub enum GatewayUnavailable {
    /// No outbound channel to the gateway is published.
    NotConnected,
    /// The gateway has not assigned a session.
    NoSession,
    /// The outbound channel no longer takes messages.
    ChannelClosed,
}

impl GatewayUnavailable {
    /// The text shown to the client whose request failed.
    pub open spec fn text(self) -> Seq<char> {
        match self {
            GatewayUnavailable::NotConnected => "Gateway not connected"@,
            GatewayUnavailable::NoSession => "No gateway session"@,
            GatewayUnavailable::ChannelClosed => "channel closed"@,
        }
    }

    /// The text shown to the client whose request failed.
    pub fn message(&self) -> (text: String)
        ensures
            text@ == self.text(),
    {
        match self {
            GatewayUnavailable::NotConnected => "Gateway not connected".to_owned(),
            GatewayUnavailable::NoSession => "No gateway session".to_owned(),
            GatewayUnavailable::ChannelClosed => "channel closed".to_owned(),
        }
    }
}

/// A frame to enqueue on the gateway's outbound channel.
#[derive(Debug, PartialEq, Eq)]
pub struct GatewayRequest {
    pub channel: ChannelId,
    pub frame: GatewayFrame,
}

/// A message to enqueue on a client's channel.
#[derive(Debug, PartialEq, Eq)]
pub struct Delivery {
    pub channel: ChannelId,
    pub message: ServerMessage,
}

/// What a [`GatewayRequest`] says.
pub struct GatewayRequestView {
    pub channel: ChannelId,
    pub frame: GatewayFrameView,
}

/// What a [`Delivery`] says.
pub struct DeliveryView {
    pub channel: ChannelId,
    pub message: ServerMessageView,
}

impl View for GatewayRequest {
    type V = GatewayRequestView;

    open spec fn view(&self) -> GatewayRequestView {
        GatewayRequestView { channel: self.channel, frame: self.frame@ }
    }
}

impl View for Delivery {
    type V = DeliveryView;

    open spec fn view(&self) -> DeliveryView {
        DeliveryView { channel: self.channel, message: self.message@ }
    }
}

/// The mathematical content of the router's state.
pub struct RouterView {
    /// The outbound channel to the gateway, while one is published.
    pub gateway_tx: Option<ChannelId>,
    /// The session that the gateway assigned at the handshake.
    pub gateway_session: Option<Seq<char>>,
    /// Whether the gateway link is up.
    pub gateway_connected: bool,
    /// Request id to the channel of the client that waits for the reply.
    pub pending: Map<Seq<char>, ChannelId>,
    /// Client session id to that client's channel.
    pub clients: Map<Seq<char>, ChannelId>,
}

impl RouterView {
    /// The state of a router that has seen nothing yet.
    pub open spec fn fresh() -> RouterView {
        RouterView {
            gateway_tx: None,
            gateway_session: None,
            gateway_connected: false,
            pending: Map::empty(),
            clients: Map::empty(),
        }
    }

    /// The request to enqueue for a chat message, or why there is none.
    pub open spec fn request(self, request_id: Seq<char>, content: Seq<char>) -> Result<
        GatewayRequestView,
        GatewayUnavailable,
    > {
        match (self.gateway_tx, self.gateway_session) {
            (None, _) => Err(GatewayUnavailable::NotConnected),
            (Some(_), None) => Err(GatewayUnavailable::NoSession),
            (Some(channel), Some(session_id)) => Ok(
                GatewayRequestView {
                    channel,
                    frame: GatewayFrameView::ChatRequest { request_id, session_id, content },
                },
            ),
        }
    }

    /// The state once the request `request_id` of the client on `client` is in
    /// flight. An entry that was pending under the same id is overwritten.
    pub open spec fn with_pending(self, request_id: Seq<char>, client: ChannelId) -> RouterView {
        RouterView { pending: self.pending.insert(request_id, client), ..self }
    }

    /// The state after the attempt to enqueue a request.
    pub open spec fn after_enqueue(
        self,
        request_id: Seq<char>,
        client: ChannelId,
        enqueued: bool,
    ) -> RouterView {
        if enqueued {
            self.with_pending(request_id, client)
        } else {
            self
        }
    }

    /// The delivery that a reply chunk from the gateway causes, if any.
    pub open spec fn reply(
        self,
        reply_id: Seq<char>,
        request_id: Seq<char>,
        content: Seq<char>,
        done: bool,
    ) -> Option<DeliveryView> {
        if self.pending.contains_key(request_id) {
            Some(
                DeliveryView {
                    channel: self.pending[request_id],
                    message: ServerMessageView::ChatReply {
                        id: reply_id,
                        request_id,
                        content,
                        done,
                    },
                },
            )
        } else {
            None
        }
    }

    /// The state after a reply chunk: the last chunk ends the request.
    pub open spec fn after_reply(self, request_id: Seq<char>, done: bool) -> RouterView {
        if done {
            RouterView { pending: self.pending.remove(request_id), ..self }
        } else {
            self
        }
    }

    /// Whether `after` and `delivery` are what one reply chunk from the
    /// gateway leads to. The identifier of the reply is drawn at random, so only
    /// its length is fixed.
    pub open spec fn routes_reply(
        self,
        request_id: Seq<char>,
        content: Seq<char>,
        done: bool,
        after: RouterView,
        delivery: Option<DeliveryView>,
    ) -> bool {
        &&& after == self.after_reply(request_id, done)
        &&& match delivery {
            Some(d) => exists|reply_id: Seq<char>|
                reply_id.len() == ID_LEN && #[trigger] self.reply(
                    reply_id,
                    request_id,
                    content,
                    done,
                ) == Some(d),
            None => !self.pending.contains_key(request_id),
        }
    }

    /// The state once the gateway link is up on `channel` with the session
    /// that the gateway assigned.
    pub open spec fn connected(self, channel: ChannelId, session_id: Seq<char>) -> RouterView {
        RouterView {
            gateway_tx: Some(channel),
            gateway_session: Some(session_id),
            gateway_connected: true,
            ..self
        }
    }

    /// The state once the gateway link is gone: no outbound channel, not
    /// connected. The last session id stays on record.
    pub open spec fn disconnected(self) -> RouterView {
        RouterView { gateway_tx: None, gateway_connected: false, ..self }
    }

    /// The state once the client session `session_id` is registered.
    pub open spec fn with_client(self, session_id: Seq<char>, channel: ChannelId) -> RouterView {
        RouterView { clients: self.clients.insert(session_id, channel), ..self }
    }

    /// The channel of the client session `session_id`, if it is registered.
    pub open spec fn client_channel(self, session_id: Seq<char>) -> Option<ChannelId> {
        if self.clients.contains_key(session_id) {
            Some(self.clients[session_id])
        } else {
            None
        }
    }

    /// The state once the client session `session_id` is gone: its requests in
    /// flight go with it, and so do those of the channels found `closed`.
    pub open spec fn without_client(self, session_id: Seq<char>, closed: Seq<ChannelId>) -> RouterView {
        RouterView {
            clients: self.clients.remove(session_id),
            pending: without_channels(self.pending, self.client_channel(session_id), closed),
            ..self
        }
    }
}

/// Marks the place where the router is created.
#[derive(Debug)]
pub struct Router;

/// The router's state. Whoever shares it between tasks guards it with one
/// lock and holds that lock for exactly one operation at a time.
pub struct RouterHandle {
    gateway_tx: Option<ChannelId>,
    gateway_session: Option<String>,
    gateway_connected: bool,
    pending: Registry,
    clients: Registry,
}

impl View for RouterHandle {
    type V = RouterView;

    closed spec fn view(&self) -> RouterView {
        RouterView {
            gateway_tx: self.gateway_tx,
            gateway_session: match self.gateway_session {
                Some(session) => Some(session@),
                None => None,
            },
            gateway_connected: self.gateway_connected,
            pending: self.pending@,
            clients: self.clients@,
        }
    }
}

impl Router {
    /// A router with no client, no request in flight and no gateway.
    pub fn new() -> (created: (RouterHandle, Router))
        ensures
            created.0@ == RouterView::fresh(),
    {
        let state = RouterHandle {
            gateway_tx: None,
            gateway_session: None,
            gateway_connected: false,
            pending: Registry::new(),
            clients: Registry::new(),
        };
        (state, Router)
    }
}

impl RouterHandle {
    /// Publishes whether the gateway link is up.
    pub fn set_gateway_connected(&mut self, connected: bool)
        ensures
            final(self)@ == (RouterView { gateway_connected: connected, ..old(self)@ }),
    {
        self.gateway_connected = connected;
    }

    /// Publishes the session that the gateway assigned.
    pub fn set_gateway_session(&mut self, session: String)
        ensures
            final(self)@ == (RouterView { gateway_session: Some(session@), ..old(self)@ }),
    {
        self.gateway_session = Some(session);
    }

    /// Publishes the outbound channel to the gateway, or withdraws it.
    pub fn set_gateway_sender(&mut self, tx: Option<ChannelId>)
        ensures
            final(self)@ == (RouterView { gateway_tx: tx, ..old(self)@ }),
    {
        self.gateway_tx = tx;
    }

    /// Whether the gateway link is up.
    pub fn is_gateway_connected(&self) -> (connected: bool)
        ensures
            connected == self@.gateway_connected,
    {
        self.gateway_connected
    }

    /// Registers the client session `session_id` with its channel.
    pub fn register_client(&mut self, session_id: String, tx: ChannelId)
        ensures
            final(self)@ == old(self)@.with_client(session_id@, tx),
    {
        self.clients.insert(session_id.as_str(), tx);
    }

    /// Removes the client session `session_id`. Requests in flight that wait
    /// on that session's channel, or on a channel listed in `closed`, are
    /// dropped with it.
    pub fn unregister_client_with(&mut self, session_id: &str, closed: &Vec<ChannelId>)
        ensures
            final(self)@ == old(self)@.without_client(session_id@, closed@),
    {
        let owner = self.clients.get(session_id);
        self.clients.remove(session_id);
        self.pending.drop_channels(owner, closed);
    }

    /// Removes the client session `session_id`. Requests in flight that wait
    /// on that session's channel are dropped with it, and so are those that
    /// wait on a channel of `lines` whose receiving half turns out to be gone.
    pub fn unregister_client(&mut self, session_id: &str, lines: &Lines<Sender<ServerMessage>>)
        ensures
            exists|closed: Seq<ChannelId>|
                {
                    &&& forall|k: int|
                        0 <= k < closed.len() ==> lines@.contains_key(#[trigger] closed[k])
                    &&& final(self)@ == #[trigger] old(self)@.without_client(session_id@, closed)
                },
    {
        let closed = lines.abandoned();
        self.unregister_client_with(session_id, &closed);
    }

    /// First half of forwarding a chat message: the frame to enqueue on the
    /// gateway's channel. Fails while no channel or no session is published.
    /// The state does not change; [`RouterHandle::request_enqueued`] records
    /// the outcome of the enqueue.
    pub fn send_to_gateway(&self, request_id: &str, content: &str) -> (outcome: Result<
        GatewayRequest,
        GatewayUnavailable,
    >)
        ensures
            match outcome {
                Ok(request) => self@.request(request_id@, content@) == Ok::<
                    GatewayRequestView,
                    GatewayUnavailable,
                >(request@),
                Err(error) => self@.request(request_id@, content@) == Err::<
                    GatewayRequestView,
                    GatewayUnavailable,
                >(error),
            },
    {
        let channel = match self.gateway_tx {
            Some(channel) => channel,
            None => {
                return Err(GatewayUnavailable::NotConnected);
            },
        };
        match &self.gateway_session {
            Some(session) => Ok(
                GatewayRequest {
                    channel,
                    frame: GatewayFrame::chat_request(request_id, session.as_str(), content),
                },
            ),
            None => Err(GatewayUnavailable::NoSession),
        }
    }

    /// Second half of forwarding a chat message. If the frame was enqueued, the
    /// request is now in flight for the client on `client_tx`; a request that
    /// was in flight under the same id is overwritten, so that at most one is
    /// in flight per id. If the gateway's channel refused the frame, nothing
    /// is recorded and the request fails.
    pub fn request_enqueued(&mut self, request_id: &str, client_tx: ChannelId, enqueued: bool) -> (outcome:
        Result<(), GatewayUnavailable>)
        ensures
            final(self)@ == old(self)@.after_enqueue(request_id@, client_tx, enqueued),
            outcome == (if enqueued {
                Ok::<(), GatewayUnavailable>(())
            } else {
                Err::<(), GatewayUnavailable>(GatewayUnavailable::ChannelClosed)
            }),
    {
        if enqueued {
            self.pending.insert(request_id, client_tx);
            Ok(())
        } else {
            Err(GatewayUnavailable::ChannelClosed)
        }
    }

    /// Routes one reply chunk, carried to the client under the identifier
    /// `reply_id`. A chunk for a request that is not in flight is dropped. The
    /// last chunk (`done`) ends the request whether or not the delivery
    /// succeeds later.
    pub fn dispatch_reply_as(
        &mut self,
        reply_id: String,
        request_id: &str,
        content: &str,
        done: bool,
    ) -> (delivery: Option<Delivery>)
        ensures
            final(self)@ == old(self)@.after_reply(request_id@, done),
            match delivery {
                Some(d) => old(self)@.reply(reply_id@, request_id@, content@, done) == Some(d@),
                None => old(self)@.reply(reply_id@, request_id@, content@, done) is None,
            },
    {
        let target = self.pending.get(request_id);
        if done {
            self.pending.remove(request_id);
        }
        match target {
            Some(channel) => Some(
                Delivery {
                    channel,
                    message: ServerMessage::chat_reply(reply_id, request_id, content, done),
                },
            ),
            None => None,
        }
    }

    /// Routes one reply chunk from the gateway to the client that waits for
    /// it, under a fresh random reply identifier.
    pub fn dispatch_reply(&mut self, request_id: &str, content: &str, done: bool) -> (delivery:
        Option<Delivery>)
        ensures
            old(self)@.routes_reply(
                request_id@,
                content@,
                done,
                final(self)@,
                match delivery {
                    Some(d) => Some(d@),
                    None => None,
                },
            ),
    {
        if self.pending.contains_key(request_id) {
            let reply_id = random_id();
            self.dispatch_reply_as(reply_id, request_id, content, done)
        } else {
            if done {
                self.pending.remove(request_id);
                assert(self@.pending =~= old(self)@.pending);
            }
            None
        }
    }

    /// Publishes that the gateway link is up: its outbound channel, the
    /// session that the gateway assigned, and the connected flag, in one
    /// transition.
    pub fn gateway_up(&mut self, channel: ChannelId, session: String)
        ensures
            final(self)@ == old(self)@.connected(channel, session@),
    {
        self.set_gateway_session(session);
        self.set_gateway_connected(true);
        self.set_gateway_sender(Some(channel));
    }

    /// Publishes that the gateway link is gone and withdraws its outbound
    /// channel.
    pub fn gateway_down(&mut self)
        ensures
            final(self)@ == old(self)@.disconnected(),
    {
        self.set_gateway_connected(false);
        self.set_gateway_sender(None);
    }

    /// The number of requests in flight.
    pub fn pending_len(&self) -> (n: usize)
        ensures
            n == self@.pending.len(),
    {
        self.pending.len()
    }

    /// Whether the request `request_id` is in flight.
    pub fn is_pending(&self, request_id: &str) -> (pending: bool)
        ensures
            pending == self@.pending.contains_key(request_id@),
    {
        self.pending.contains_key(request_id)
    }

    /// The channel of the client session `session_id`, if it is registered.
    pub fn client_channel(&self, session_id: &str) -> (channel: Option<ChannelId>)
        ensures
            channel == self@.client_channel(session_id@),
    {
        self.clients.get(session_id)
    }
}

/// At most one request is in flight under one id: sending again under an id
/// that is still pending overwrites the entry, so the reply goes to the later
/// sender and nothing else changes.
pub proof fn lemma_resend_overwrites(
    router: RouterView,
    request_id: Seq<char>,
    first: ChannelId,
    second: ChannelId,
)
    ensures
        router.with_pending(request_id, first).with_pending(request_id, second)
            == router.with_pending(request_id, second),
        router.with_pending(request_id, first).with_pending(request_id, second).pending[request_id]
            == second,
        router.with_pending(request_id, first).with_pending(request_id, second).pending.remove(
            request_id,
        ) == router.pending.remove(request_id),
{
    let once = router.with_pending(request_id, second);
    let twice = router.with_pending(request_id, first).with_pending(request_id, second);
    assert(twice.pending =~= once.pending);
    assert(twice.pending.remove(request_id) =~= router.pending.remove(request_id));
}

/// Reply correlation: while a request is in flight, every chunk of its reply
/// goes to the channel of the client that sent it, with the request's id, the
/// chunk's content and its `done` flag. A chunk that is not the last leaves it
/// in flight; the last one ends it, and any chunk after that is dropped.
pub proof fn lemma_reply_correlation(
    router: RouterView,
    request_id: Seq<char>,
    client: ChannelId,
    reply_id: Seq<char>,
    content: Seq<char>,
    done: bool,
)
    ensures
        ({
            let waiting = router.with_pending(request_id, client);
            &&& waiting.reply(reply_id, request_id, content, done) == Some(
                DeliveryView {
                    channel: client,
                    message: ServerMessageView::ChatReply {
                        id: reply_id,
                        request_id,
                        content,
                        done,
                    },
                },
            )
            &&& waiting.after_reply(request_id, false) == waiting
            &&& !waiting.after_reply(request_id, true).pending.contains_key(request_id)
            &&& waiting.after_reply(request_id, true).reply(reply_id, request_id, content, done)
                is None
        }),
{
}

/// A reply for a request that is not in flight changes nothing unless it is
/// the last chunk, and is never delivered.
pub proof fn lemma_unknown_reply_dropped(
    router: RouterView,
    reply_id: Seq<char>,
    request_id: Seq<char>,
    content: Seq<char>,
    done: bool,
)
    requires
        !router.pending.contains_key(request_id),
    ensures
        router.reply(reply_id, request_id, content, done) is None,
        router.after_reply(request_id, done) == router,
{
    assert(router.pending.remove(request_id) =~= router.pending);
}

/// Unregistering a client drops what it was waiting for: a request sent for a
/// registered client is no longer in flight once that client is unregistered,
/// so a later reply to it is not delivered.
pub proof fn lemma_unregister_drops_pending(
    router: RouterView,
    session_id: Seq<char>,
    client: ChannelId,
    request_id: Seq<char>,
    closed: Seq<ChannelId>,
    reply_id: Seq<char>,
    content: Seq<char>,
    done: bool,
)
    ensures
        ({
            let gone = router.with_client(session_id, client).with_pending(
                request_id,
                client,
            ).without_client(session_id, closed);
            &&& !gone.clients.contains_key(session_id)
            &&& !gone.pending.contains_key(request_id)
            &&& gone.reply(reply_id, request_id, content, done) is None
        }),
{
}

/// While no gateway channel or no gateway session is published, every request
/// fails and nothing becomes pending. A router that has seen nothing yet is in
/// that state.
pub proof fn lemma_gateway_unavailable(router: RouterView, request_id: Seq<char>, content: Seq<char>)
    ensures
        router.gateway_tx is None ==> router.request(request_id, content) == Err::<
            GatewayRequestView,
            GatewayUnavailable,
        >(GatewayUnavailable::NotConnected),
        router.gateway_tx is Some && router.gateway_session is None ==> router.request(
            request_id,
            content,
        ) == Err::<GatewayRequestView, GatewayUnavailable>(GatewayUnavailable::NoSession),
        router.request(request_id, content) is Ok <==> router.gateway_tx is Some
            && router.gateway_session is Some,
        RouterView::fresh().request(request_id, content) is Err,
        RouterView::fresh().pending.dom() == Set::<Seq<char>>::empty(),
{
}

} // verus!
