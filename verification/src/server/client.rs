//! One client link of the server: a session is registered when the link is
//! accepted, chat messages are forwarded to the gateway, and the session is
//! unregistered when the link ends.
//!
//! Whatever the server has to tell the client about its own request (an
//! error, a pong) is enqueued on the client's channel like a reply from the
//! gateway, so that the link has a single writer.

use crate::fresh::{random_id, ID_LEN};
use crate::lines::Lines;
use crate::protocol::{ClientMessage, ServerMessage, ServerMessageView};
use crate::registry::ChannelId;
use crate::server::router::{
    Delivery, DeliveryView, GatewayRequest, GatewayRequestView, GatewayUnavailable, RouterHandle,
    RouterView,
};
use tokio::sync::mpsc::Sender;
use vstd::prelude::*;

verus! {

/// One event on a client link.
#[derive(Debug)]
pub enum ClientEvent {
    /// A text frame arrived: the message it decodes to, or the decoder's
    /// words where it does not decode.
    Text(Result<ClientMessage, String>),
    /// The attempt to enqueue a forwarded request on the gateway's channel
    /// has ended.
    Forwarded { request_id: String, enqueued: bool },
    /// A transport-level ping arrived with this payload.
    Ping(Vec<u8>),
    /// A close frame arrived.
    Close,
    /// Some other frame arrived.
    Other,
    /// Reading the link failed.
    ReadFailed(String),
    /// The link ended.
    End,
    /// This message was taken from the client's channel.
    Outbound(ServerMessage),
    /// Writing the link failed.
    WriteFailed(String),
}

/// What the caller does next.
#[derive(Debug, PartialEq, Eq)]
pub enum ClientCommand {
    /// Nothing; wait for the next event.
    Nothing,
    /// Enqueue the frame on the gateway's channel, then report the result as
    /// [`ClientEvent::Forwarded`] with this request id.
    Forward { request: GatewayRequest, request_id: String },
    /// Enqueue the message on the channel named in the delivery.
    Enqueue(Delivery),
    /// Encode the message and send it on the link.
    SendMessage(ServerMessage),
    /// Answer a ping with a transport-level pong of this payload.
    SendPong(Vec<u8>),
    /// The link is over: stop, then call [`ClientSession::close`].
    Finish,
}

/// What a [`ClientCommand`] says.
pub enum ClientCommandView {
    Nothing,
    Forward { request: GatewayRequestView, request_id: Seq<char> },
    Enqueue(DeliveryView),
    SendMessage(ServerMessageView),
    SendPong(Seq<u8>),
    Finish,
}

impl View for ClientCommand {
    type V = ClientCommandView;

    open spec fn view(&self) -> ClientCommandView {
        match *self {
            ClientCommand::Nothing => ClientCommandView::Nothing,
            ClientCommand::Forward { request, request_id } => ClientCommandView::Forward {
                request: request@,
                request_id: request_id@,
            },
            ClientCommand::Enqueue(delivery) => ClientCommandView::Enqueue(delivery@),
            ClientCommand::SendMessage(message) => ClientCommandView::SendMessage(message@),
            ClientCommand::SendPong(data) => ClientCommandView::SendPong(data@),
            ClientCommand::Finish => ClientCommandView::Finish,
        }
    }
}

/// An error message for the client on `channel`.
pub open spec fn error_for(channel: ChannelId, message: Seq<char>) -> ClientCommandView {
    ClientCommandView::Enqueue(
        DeliveryView { channel, message: ServerMessageView::Error { message } },
    )
}

/// What the server does with one text frame of the client on `client_tx`.
///
/// A chat message is forwarded to the gateway, or answered with the reason
/// why it cannot be; a ping is answered with a pong; text that does not
/// decode is answered with an error that quotes the decoder.
pub open spec fn client_msg_handled(
    decoded: Result<ClientMessage, String>,
    router: RouterView,
    client_tx: ChannelId,
) -> ClientCommandView {
    match decoded {
        Ok(ClientMessage::Chat { id, content }) => match router.request(id@, content@) {
            Ok(request) => ClientCommandView::Forward { request, request_id: id@ },
            Err(error) => error_for(client_tx, error.text()),
        },
        Ok(ClientMessage::Ping) => ClientCommandView::Enqueue(
            DeliveryView { channel: client_tx, message: ServerMessageView::Pong },
        ),
        Err(reason) => error_for(client_tx, "Invalid message: "@ + reason@),
    }
}

/// What the server does once the attempt to enqueue a request has ended: a
/// request that the gateway's channel refused is answered with an error.
pub open spec fn forward_settled(client_tx: ChannelId, enqueued: bool) -> ClientCommandView {
    if enqueued {
        ClientCommandView::Nothing
    } else {
        error_for(client_tx, GatewayUnavailable::ChannelClosed.text())
    }
}

fn error_reply(channel: ChannelId, message: String) -> (command: ClientCommand)
    ensures
        command@ == error_for(channel, message@),
{
    ClientCommand::Enqueue(Delivery { channel, message: ServerMessage::Error { message } })
}

/// Handles one text frame of a client: see [`client_msg_handled`].
pub fn handle_client_msg(
    decoded: Result<ClientMessage, String>,
    router: &RouterHandle,
    client_tx: ChannelId,
) -> (command: ClientCommand)
    ensures
        command@ == client_msg_handled(decoded, router@, client_tx),
{
    match decoded {
        Ok(ClientMessage::Chat { id, content }) => {
            match router.send_to_gateway(id.as_str(), content.as_str()) {
                Ok(request) => ClientCommand::Forward { request, request_id: id },
                Err(error) => error_reply(client_tx, error.message()),
            }
        },
        Ok(ClientMessage::Ping) => ClientCommand::Enqueue(
            Delivery { channel: client_tx, message: ServerMessage::Pong },
        ),
        Err(reason) => {
            let mut message = "Invalid message: ".to_owned();
            message.append(reason.as_str());
            error_reply(client_tx, message)
        },
    }
}

/// The mathematical content of a [`ClientSession`].
pub struct ClientSessionView {
    /// The session's identifier in the router's registry.
    pub session_id: Seq<char>,
    /// The session's outbound channel.
    pub channel: ChannelId,
    /// Whether the link is still served.
    pub open: bool,
}

/// The transition relation of a client link: whether the event leads from
/// `pre` and `router` to `post` and `after`, with `command` for the caller.
pub open spec fn transition(
    pre: ClientSessionView,
    router: RouterView,
    event: ClientEvent,
    post: ClientSessionView,
    after: RouterView,
    command: ClientCommandView,
) -> bool {
    if !pre.open {
        post == pre && after == router && command == ClientCommandView::Nothing
    } else {
        match event {
            ClientEvent::Text(decoded) => {
                &&& post == pre
                &&& after == router
                &&& command == client_msg_handled(decoded, router, pre.channel)
            },
            ClientEvent::Forwarded { request_id, enqueued } => {
                &&& post == pre
                &&& after == router.after_enqueue(request_id@, pre.channel, enqueued)
                &&& command == forward_settled(pre.channel, enqueued)
            },
            ClientEvent::Ping(data) => {
                &&& post == pre
                &&& after == router
                &&& command == ClientCommandView::SendPong(data@)
            },
            ClientEvent::Outbound(message) => {
                &&& post == pre
                &&& after == router
                &&& command == ClientCommandView::SendMessage(message@)
            },
            ClientEvent::Other => {
                post == pre && after == router && command == ClientCommandView::Nothing
            },
            ClientEvent::Close
            | ClientEvent::End
            | ClientEvent::ReadFailed(_)
            | ClientEvent::WriteFailed(_) => {
                &&& post == (ClientSessionView { open: false, ..pre })
                &&& after == router
                &&& command == ClientCommandView::Finish
            },
        }
    }
}

/// One accepted client link.
pub struct ClientSession {
    session_id: String,
    channel: ChannelId,
    open: bool,
}

impl View for ClientSession {
    type V = ClientSessionView;

    closed spec fn view(&self) -> ClientSessionView {
        ClientSessionView { session_id: self.session_id@, channel: self.channel, open: self.open }
    }
}

impl ClientSession {
    /// Registers a new session under the given identifier, with `channel` as
    /// its outbound channel. The message that comes back is the first to send
    /// on the link: whether the gateway is connected.
    pub fn accept_as(session_id: String, router: &mut RouterHandle, channel: ChannelId) -> (accepted: (
        ClientSession,
        ServerMessage,
    ))
        ensures
            accepted.0@ == (ClientSessionView { session_id: session_id@, channel, open: true }),
            accepted.1@ == (ServerMessageView::Status {
                gateway_connected: old(router)@.gateway_connected,
            }),
            final(router)@ == old(router)@.with_client(session_id@, channel),
    {
        router.register_client(session_id.clone(), channel);
        let status = ServerMessage::Status { gateway_connected: router.is_gateway_connected() };
        (ClientSession { session_id, channel, open: true }, status)
    }

    /// Registers a new session under a fresh random identifier.
    pub fn accept(router: &mut RouterHandle, channel: ChannelId) -> (accepted: (
        ClientSession,
        ServerMessage,
    ))
        ensures
            accepted.0@.session_id.len() == ID_LEN,
            accepted.0@.channel == channel,
            accepted.0@.open,
            accepted.1@ == (ServerMessageView::Status {
                gateway_connected: old(router)@.gateway_connected,
            }),
            final(router)@ == old(router)@.with_client(accepted.0@.session_id, channel),
    {
        ClientSession::accept_as(random_id(), router, channel)
    }

    /// The session's identifier.
    pub fn session_id(&self) -> (id: &str)
        ensures
            id@ == self@.session_id,
    {
        self.session_id.as_str()
    }

    /// The session's outbound channel.
    pub fn channel(&self) -> (channel: ChannelId)
        ensures
            channel == self@.channel,
    {
        self.channel
    }

    /// Whether the link is still served.
    pub fn is_open(&self) -> (open: bool)
        ensures
            open == self@.open,
    {
        self.open
    }

    /// Takes one event of the link and says what to do next.
    pub fn step(&mut self, router: &mut RouterHandle, event: ClientEvent) -> (command: ClientCommand)
        ensures
            transition(old(self)@, old(router)@, event, final(self)@, final(router)@, command@),
    {
        if !self.open {
            return ClientCommand::Nothing;
        }
        match event {
            ClientEvent::Text(decoded) => handle_client_msg(decoded, router, self.channel),
            ClientEvent::Forwarded { request_id, enqueued } => {
                match router.request_enqueued(request_id.as_str(), self.channel, enqueued) {
                    Ok(()) => ClientCommand::Nothing,
                    Err(error) => error_reply(self.channel, error.message()),
                }
            },
            ClientEvent::Ping(data) => ClientCommand::SendPong(data),
            ClientEvent::Outbound(message) => ClientCommand::SendMessage(message),
            ClientEvent::Other => ClientCommand::Nothing,
            ClientEvent::Close
            | ClientEvent::End
            | ClientEvent::ReadFailed(_)
            | ClientEvent::WriteFailed(_) => {
                self.open = false;
                ClientCommand::Finish
            },
        }
    }

    /// Ends the session: it is unregistered, and the requests that wait on its
    /// channel, or on a channel listed in `closed`, are dropped.
    pub fn close_with(self, router: &mut RouterHandle, closed: &Vec<ChannelId>)
        ensures
            final(router)@ == old(router)@.without_client(self@.session_id, closed@),
    {
        router.unregister_client_with(self.session_id.as_str(), closed);
    }

    /// Ends the session: its channel is closed and the session is
    /// unregistered. The requests that wait on its channel are dropped, and
    /// so are those that wait on another channel of `lines` whose receiving
    /// half turns out to be gone.
    pub fn close(self, router: &mut RouterHandle, lines: &mut Lines<Sender<ServerMessage>>)
        ensures
            final(lines)@ == old(lines)@.remove(self@.channel),
            final(lines).issued() == old(lines).issued(),
            exists|closed: Seq<ChannelId>|
                {
                    &&& forall|k: int|
                        0 <= k < closed.len() ==> final(lines)@.contains_key(#[trigger] closed[k])
                    &&& final(router)@ == #[trigger] old(router)@.without_client(
                        self@.session_id,
                        closed,
                    )
                },
    {
        lines.close(self.channel);
        router.unregister_client(self.session_id.as_str(), lines);
        proof {
            let before = old(router)@;
            let found = choose|closed: Seq<ChannelId>|
                {
                    &&& forall|k: int|
                        0 <= k < closed.len() ==> lines@.contains_key(#[trigger] closed[k])
                    &&& router@ == #[trigger] before.without_client(self.session_id@, closed)
                };
            assert(router@ == before.without_client(self@.session_id, found));
        }
    }
}

} // verus!
