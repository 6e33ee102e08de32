//! The relay's agent side: a connection is bridged once the agent has said
//! hello and the welcome has gone out.

use crate::handshake::{
    expect_hello, handshake_answer, welcome, FirstRead, HandshakeError, HandshakeErrorView,
};
use crate::protocol::{RelayFrame, RelayFrameView};
use crate::registry::ChannelId;
use crate::relay::bridge::{BridgeHandle, BridgeLink, Side};
use vstd::prelude::*;

verus! {

/// An agent that has said hello and is owed a welcome.
#[derive(Debug, PartialEq, Eq)]
pub struct Greeting {
    /// The identifier that the agent gave.
    pub agent_id: String,
    /// The frame to send back.
    pub welcome: RelayFrame,
}

/// Reads the agent's first frame. Anything but an `AgentHello` ends the
/// connection; the bridge is not involved yet.
pub fn greet(first: FirstRead) -> (greeting: Result<Greeting, HandshakeError>)
    ensures
        match greeting {
            Ok(g) => handshake_answer(first, true) == Ok::<Seq<char>, HandshakeErrorView>(g.agent_id@) && g.welcome@
                == (RelayFrameView::AgentWelcome { agent_id: g.agent_id@ }),
            Err(error) => handshake_answer(first, true) == Err::<Seq<char>, HandshakeErrorView>(error@),
        },
{
    match expect_hello(first) {
        Ok(agent_id) => {
            let welcome = welcome(agent_id.as_str());
            Ok(Greeting { agent_id, welcome })
        },
        Err(error) => Err(error),
    }
}

/// Completes the handshake. If the welcome went out, the connection's channel
/// is installed as the agent's and the connection is bridged; if not, the
/// connection is given up and the bridge stays as it is.
pub fn bridge_connection(bridge: &mut BridgeHandle, channel: ChannelId, welcome_sent: bool) -> (link: Option<
    BridgeLink,
>)
    ensures
        welcome_sent ==> link == Some(BridgeLink { side: Side::Agent, channel, open: true })
            && *final(bridge) == old(bridge).with_slot(Side::Agent, Some(channel)),
        !welcome_sent ==> link is None && *final(bridge) == *old(bridge),
{
    if welcome_sent {
        Some(BridgeLink::attach(bridge, Side::Agent, channel))
    } else {
        None
    }
}

} // verus!
