//! The relay's server side: the server needs no handshake, so its connection is
//! bridged as soon as it is accepted.

use crate::registry::ChannelId;
use crate::relay::bridge::{BridgeHandle, BridgeLink, Side};
use vstd::prelude::*;

verus! {

/// Installs the connection's channel as the server's and bridges the
/// connection.
pub fn bridge_connection(bridge: &mut BridgeHandle, channel: ChannelId) -> (link: BridgeLink)
    ensures
        link == (BridgeLink { side: Side::Server, channel, open: true }),
        *final(bridge) == old(bridge).with_slot(Side::Server, Some(channel)),
{
    BridgeLink::attach(bridge, Side::Server, channel)
}

} // verus!
