//! The client's link to the server: what arrives and decodes goes to the
//! screen, what the user sends goes out, and the link ends with the first
//! close, failure, or loss of the screen.

use crate::protocol::{ClientMessage, ClientMessageView, ServerMessage, ServerMessageView};
use vstd::prelude::*;

verus! {

/// One event on the client's link.
#[derive(Debug)]
pub enum WsEvent {
    /// A text frame arrived: the message it decodes to, or the decoder's
    /// words where it does not decode.
    Text(Result<ServerMessage, String>),
    /// Whether the screen took the message handed to it last.
    Delivered(bool),
    /// A transport-level ping arrived with this payload.
    Ping(Vec<u8>),
    /// A close frame arrived.
    Close,
    /// Some other frame arrived.
    Other,
    /// Reading the link failed.
    ReadFailed(String),
    /// The link ended.
    End,
    /// The user sent this message.
    Outbound(ClientMessage),
    /// Writing the link failed.
    WriteFailed(String),
}

/// What the caller does next.
#[derive(Debug, PartialEq, Eq)]
pub enum WsCommand {
    /// Nothing; wait for the next event.
    Nothing,
    /// Hand the message to the screen, then report as
    /// [`WsEvent::Delivered`] whether it was taken.
    Deliver(ServerMessage),
    /// Answer a ping with a transport-level pong of this payload.
    SendPong(Vec<u8>),
    /// Encode the message and send it on the link.
    SendMessage(ClientMessage),
    /// The link is over.
    Finish,
}

/// What a [`WsCommand`] says.
pub enum WsCommandView {
    Nothing,
    Deliver(ServerMessageView),
    SendPong(Seq<u8>),
    SendMessage(ClientMessageView),
    Finish,
}

impl View for WsCommand {
    type V = WsCommandView;

    open spec fn view(&self) -> WsCommandView {
        match *self {
            WsCommand::Nothing => WsCommandView::Nothing,
            WsCommand::Deliver(message) => WsCommandView::Deliver(message@),
            WsCommand::SendPong(data) => WsCommandView::SendPong(data@),
            WsCommand::SendMessage(message) => WsCommandView::SendMessage(message@),
            WsCommand::Finish => WsCommandView::Finish,
        }
    }
}

/// The client's link to the server, once it is open.
#[derive(Clone, Copy, Debug)]
pub struct WsLink {
    /// Whether the link is still served.
    pub open: bool,
}

/// What the link does with one event while it is served: the command, and
/// whether it is still served afterwards.
pub open spec fn reaction(event: WsEvent) -> (WsCommandView, bool) {
    match event {
        WsEvent::Text(Ok(message)) => (WsCommandView::Deliver(message@), true),
        WsEvent::Text(Err(_)) => (WsCommandView::Nothing, true),
        WsEvent::Delivered(taken) => if taken {
            (WsCommandView::Nothing, true)
        } else {
            (WsCommandView::Finish, false)
        },
        WsEvent::Ping(data) => (WsCommandView::SendPong(data@), true),
        WsEvent::Other => (WsCommandView::Nothing, true),
        WsEvent::Outbound(message) => (WsCommandView::SendMessage(message@), true),
        WsEvent::Close | WsEvent::End | WsEvent::ReadFailed(_) | WsEvent::WriteFailed(_) => (
            WsCommandView::Finish,
            false,
        ),
    }
}

impl WsLink {
    /// The link right after it was opened.
    pub fn new() -> (link: WsLink)
        ensures
            link.open,
    {
        WsLink { open: true }
    }

    /// Takes one event of the link and says what to do next. Once the link is
    /// over, every event is ignored.
    pub fn step(&mut self, event: WsEvent) -> (command: WsCommand)
        ensures
            old(self).open ==> (command@, final(self).open) == reaction(event),
            !old(self).open ==> command@ == WsCommandView::Nothing && !final(self).open,
    {
        if !self.open {
            return WsCommand::Nothing;
        }
        match event {
            WsEvent::Text(Ok(message)) => WsCommand::Deliver(message),
            WsEvent::Text(Err(_)) => WsCommand::Nothing,
            WsEvent::Delivered(taken) => {
                if taken {
                    WsCommand::Nothing
                } else {
                    self.open = false;
                    WsCommand::Finish
                }
            },
            WsEvent::Ping(data) => WsCommand::SendPong(data),
            WsEvent::Other => WsCommand::Nothing,
            WsEvent::Outbound(message) => WsCommand::SendMessage(message),
            WsEvent::Close | WsEvent::End | WsEvent::ReadFailed(_) | WsEvent::WriteFailed(_) => {
                self.open = false;
                WsCommand::Finish
            },
        }
    }
}

} // verus!
