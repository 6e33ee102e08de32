//! The bridge: the one slot that pairs the relay's two sides.
//!
//! Each side installs the outbound channel of its current connection and
//! clears it when that connection ends. Text that arrives on one side goes to
//! the channel that the other side has installed, or nowhere if there is none.
//! A new connection on a side takes that side's slot over from the previous
//! one.

use crate::registry::ChannelId;
use vstd::prelude::*;

verus! {

/// One of the relay's two sides.
#[derive(Clone, Copy, Debug, PartialEq, Eq, Structural)]
pub enum Side {
    /// The side that the agent connects to.
    Agent,
    /// The side that the server connects to.
    Server,
}

impl Side {
    /// The other side.
    pub open spec fn peer(self) -> Side {
        match self {
            Side::Agent => Side::Server,
            Side::Server => Side::Agent,
        }
    }

    /// The other side.
    pub fn other(self) -> (side: Side)
        ensures
            side == self.peer(),
    {
        match self {
            Side::Agent => Side::Server,
            Side::Server => Side::Agent,
        }
    }
}

/// The state shared by the two sides of the relay.
#[derive(Debug, PartialEq, Eq, Structural)]
pub struct BridgeHandle {
    /// The outbound channel of the current server connection.
    pub server_tx: Option<ChannelId>,
    /// The outbound channel of the current agent connection.
    pub agent_tx: Option<ChannelId>,
}

impl BridgeHandle {
    /// The bridge with neither side connected.
    pub open spec fn empty() -> BridgeHandle {
        BridgeHandle { server_tx: None, agent_tx: None }
    }

    /// The channel installed by `side`.
    pub open spec fn slot(self, side: Side) -> Option<ChannelId> {
        match side {
            Side::Agent => self.agent_tx,
            Side::Server => self.server_tx,
        }
    }

    /// The bridge with the slot of `side` set to `tx`.
    pub open spec fn with_slot(self, side: Side, tx: Option<ChannelId>) -> BridgeHandle {
        match side {
            Side::Agent => BridgeHandle { agent_tx: tx, ..self },
            Side::Server => BridgeHandle { server_tx: tx, ..self },
        }
    }

    /// Where text that arrives on `from` goes: the channel of the other side.
    pub open spec fn route(self, from: Side) -> Option<ChannelId> {
        self.slot(from.peer())
    }

    /// The bridge with neither side connected.
    pub fn new() -> (bridge: BridgeHandle)
        ensures
            bridge == BridgeHandle::empty(),
    {
        BridgeHandle { server_tx: None, agent_tx: None }
    }

    /// Installs `tx` as the outbound channel of `side`. Whatever was installed
    /// there before is superseded.
    pub fn install(&mut self, side: Side, tx: ChannelId)
        ensures
            *final(self) == old(self).with_slot(side, Some(tx)),
    {
        match side {
            Side::Agent => {
                self.agent_tx = Some(tx);
            },
            Side::Server => {
                self.server_tx = Some(tx);
            },
        }
    }

    /// Clears the slot of `side`, whoever installed what is in it.
    pub fn clear(&mut self, side: Side)
        ensures
            *final(self) == old(self).with_slot(side, None),
    {
        match side {
            Side::Agent => {
                self.agent_tx = None;
            },
            Side::Server => {
                self.server_tx = None;
            },
        }
    }

    /// Where text that arrives on `from` goes, if anywhere.
    pub fn target(&self, from: Side) -> (tx: Option<ChannelId>)
        ensures
            tx == self.route(from),
    {
        match from {
            Side::Agent => self.server_tx,
            Side::Server => self.agent_tx,
        }
    }
}

/// One event on a bridged link.
#[derive(Debug)]
pub enum RelayEvent {
    /// A text frame arrived.
    Text(String),
    /// A close frame arrived.
    Close,
    /// Some other frame arrived.
    Other,
    /// Reading the link failed.
    ReadFailed(String),
    /// The link ended.
    End,
    /// This text was taken from the link's own outbound channel.
    Outbound(String),
    /// Writing the link failed.
    WriteFailed(String),
}

/// What the caller does next.
#[derive(Debug, PartialEq, Eq)]
pub enum RelayCommand {
    /// Nothing; wait for the next event.
    Nothing,
    /// Enqueue the text on this channel of the other side. If that fails the
    /// text is lost; the link goes on.
    Forward { channel: ChannelId, text: String },
    /// The other side is not connected: the text is dropped.
    Drop(String),
    /// Send the text on the link.
    SendText(String),
    /// Stop feeding [`RelayEvent::Outbound`]; keep reading.
    StopDraining,
    /// The link is over: stop reading and draining.
    Finish,
}

/// What a [`RelayCommand`] says.
pub enum RelayCommandView {
    Nothing,
    Forward { channel: ChannelId, text: Seq<char> },
    Drop(Seq<char>),
    SendText(Seq<char>),
    StopDraining,
    Finish,
}

impl View for RelayCommand {
    type V = RelayCommandView;

    open spec fn view(&self) -> RelayCommandView {
        match *self {
            RelayCommand::Nothing => RelayCommandView::Nothing,
            RelayCommand::Forward { channel, text } => RelayCommandView::Forward {
                channel,
                text: text@,
            },
            RelayCommand::Drop(text) => RelayCommandView::Drop(text@),
            RelayCommand::SendText(text) => RelayCommandView::SendText(text@),
            RelayCommand::StopDraining => RelayCommandView::StopDraining,
            RelayCommand::Finish => RelayCommandView::Finish,
        }
    }
}

/// One connection on one side of the relay, from the moment its channel is
/// installed in the bridge.
#[derive(Clone, Copy, Debug, PartialEq, Eq, Structural)]
pub struct BridgeLink {
    /// The side that accepted the connection.
    pub side: Side,
    /// The connection's outbound channel.
    pub channel: ChannelId,
    /// Whether the connection is still served.
    pub open: bool,
}

/// What becomes of text that arrives on `from`.
pub open spec fn forwarded(bridge: BridgeHandle, from: Side, text: Seq<char>) -> RelayCommandView {
    match bridge.route(from) {
        Some(channel) => RelayCommandView::Forward { channel, text },
        None => RelayCommandView::Drop(text),
    }
}

/// The transition relation of a bridged link: whether the event leads from
/// `pre` and `bridge` to `post` and `after`, with `command` for the caller.
pub open spec fn transition(
    pre: BridgeLink,
    bridge: BridgeHandle,
    event: RelayEvent,
    post: BridgeLink,
    after: BridgeHandle,
    command: RelayCommandView,
) -> bool {
    if !pre.open {
        post == pre && after == bridge && command == RelayCommandView::Nothing
    } else {
        match event {
            RelayEvent::Text(text) => {
                &&& post == pre
                &&& after == bridge
                &&& command == forwarded(bridge, pre.side, text@)
            },
            RelayEvent::Other => {
                post == pre && after == bridge && command == RelayCommandView::Nothing
            },
            RelayEvent::Outbound(text) => {
                &&& post == pre
                &&& after == bridge
                &&& command == RelayCommandView::SendText(text@)
            },
            RelayEvent::WriteFailed(_) => {
                &&& post == pre
                &&& after == bridge
                &&& command == RelayCommandView::StopDraining
            },
            RelayEvent::Close | RelayEvent::End | RelayEvent::ReadFailed(_) => {
                &&& post == (BridgeLink { open: false, ..pre })
                &&& after == bridge.with_slot(pre.side, None)
                &&& command == RelayCommandView::Finish
            },
        }
    }
}

impl BridgeLink {
    /// Installs the connection's channel in the bridge and starts serving it.
    pub fn attach(bridge: &mut BridgeHandle, side: Side, channel: ChannelId) -> (link: BridgeLink)
        ensures
            link == (BridgeLink { side, channel, open: true }),
            *final(bridge) == old(bridge).with_slot(side, Some(channel)),
    {
        bridge.install(side, channel);
        BridgeLink { side, channel, open: true }
    }

    /// Takes one event of the link and says what to do next.
    pub fn step(&mut self, bridge: &mut BridgeHandle, event: RelayEvent) -> (command: RelayCommand)
        ensures
            transition(*old(self), *old(bridge), event, *final(self), *final(bridge), command@),
    {
        if !self.open {
            return RelayCommand::Nothing;
        }
        match event {
            RelayEvent::Text(text) => match bridge.target(self.side) {
                Some(channel) => RelayCommand::Forward { channel, text },
                None => RelayCommand::Drop(text),
            },
            RelayEvent::Other => RelayCommand::Nothing,
            RelayEvent::Outbound(text) => RelayCommand::SendText(text),
            RelayEvent::WriteFailed(_) => RelayCommand::StopDraining,
            RelayEvent::Close | RelayEvent::End | RelayEvent::ReadFailed(_) => {
                bridge.clear(self.side);
                self.open = false;
                RelayCommand::Finish
            },
        }
    }
}

/// Supersession: when two connections on one side are attached one after the
/// other, text that arrives on the other side goes to the channel of the
/// second, and to no other.
pub proof fn lemma_supersession(
    bridge: BridgeHandle,
    side: Side,
    first: ChannelId,
    second: ChannelId,
    text: Seq<char>,
)
    ensures
        ({
            let after = bridge.with_slot(side, Some(first)).with_slot(side, Some(second));
            &&& after.route(side.peer()) == Some(second)
            &&& forwarded(after, side.peer(), text) == (RelayCommandView::Forward {
                channel: second,
                text,
            })
            &&& first != second ==> forwarded(after, side.peer(), text) != (
            RelayCommandView::Forward { channel: first, text })
            &&& after.slot(side.peer()) == bridge.slot(side.peer())
        }),
{
}

/// While a side has nothing installed, whatever arrives for it is dropped;
/// that is the state of a new bridge and of a side whose connection ended.
pub proof fn lemma_unpaired_text_dropped(bridge: BridgeHandle, side: Side, text: Seq<char>)
    ensures
        bridge.slot(side.peer()) is None ==> forwarded(bridge, side, text)
            == RelayCommandView::Drop(text),
        forwarded(BridgeHandle::empty(), side, text) == RelayCommandView::Drop(text),
        forwarded(bridge.with_slot(side.peer(), None), side, text) == RelayCommandView::Drop(text),
{
}

} // verus!
