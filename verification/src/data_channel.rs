//! Data-channel construction values and the inbound-message decision.
//!
//! Channels are negotiated out of band: both sides construct their local
//! endpoint independently with the same fixed label, options and id, so
//! the accepter must mirror the offerer's configuration exactly. The two
//! profiles of a channel pair use two distinct fixed ids. The platform
//! calls that create the endpoint and attach its handlers live outside
//! the library; this module pins the values they must use and decides
//! what an incoming message becomes.

use vstd::prelude::*;

use crate::messages::{Channel, Packet, PeerId};
use crate::{RELIABLE_DATA_CHANNEL_ID, UNRELIABLE_DATA_CHANNEL_ID};

verus! {

/// How a channel delivers its binary payloads.
#[derive(Clone, Copy, PartialEq, Eq, Structural, Debug)]
pub enum BinaryType {
    ArrayBuffer,
    Blob,
}

/// The options a data channel is created with.
#[derive(Clone, PartialEq, Eq, Debug)]
pub struct DataChannelConfig {
    pub label: String,
    pub ordered: bool,
    pub max_retransmits: u16,
    pub negotiated: bool,
    pub id: u16,
    pub binary_type: BinaryType,
}

/// The negotiated id of a channel of this profile: one fixed id per
/// profile, distinct between the two.
pub open spec fn spec_channel_id(channel: Channel) -> u16 {
    match channel {
        Channel::Unreliable => UNRELIABLE_DATA_CHANNEL_ID,
        Channel::Reliable => RELIABLE_DATA_CHANNEL_ID,
    }
}

/// The fixed configuration of a data channel of the given profile:
/// unordered, zero retransmits, negotiated with the profile's well-known
/// id, array-buffer payloads, under the fixed label. Offerer and
/// accepter create the endpoint of a profile with this same
/// configuration.
pub fn data_channel_config(channel: Channel) -> (c: DataChannelConfig)
    ensures
        c.label@ == "webudp"@,
        !c.ordered,
        c.max_retransmits == 0,
        c.negotiated,
        c.id == spec_channel_id(channel),
        c.binary_type == BinaryType::ArrayBuffer,
{
    let id: u16 = match channel {
        Channel::Unreliable => UNRELIABLE_DATA_CHANNEL_ID,
        Channel::Reliable => RELIABLE_DATA_CHANNEL_ID,
    };
    DataChannelConfig {
        label: "webudp".to_owned(),
        ordered: false,
        max_retransmits: 0,
        negotiated: true,
        id,
        binary_type: BinaryType::ArrayBuffer,
    }
}

/// The two profiles of a channel pair are created with distinct
/// negotiated ids: both endpoints of one connection can exist side by
/// side.
pub proof fn lemma_channel_pair_ids_distinct()
    ensures
        spec_channel_id(Channel::Unreliable) != spec_channel_id(Channel::Reliable),
{
}

/// What an inbound message delivered as exactly these bytes becomes.
pub open spec fn spec_inbound_packet(
    peer: PeerId,
    channel: Channel,
    payload: Option<Vec<u8>>,
) -> Option<(PeerId, Channel, Packet)> {
    match payload {
        Some(bytes) => Some((peer, channel, bytes)),
        None => None,
    }
}

/// Decision of the message handler of a data channel: a binary payload,
/// already copied to an owned byte sequence, is surfaced to the
/// application as one inbound message tagged with the peer and profile
/// it arrived on; a non-binary message (`payload` absent) is dropped.
pub fn inbound_packet(
    peer: PeerId,
    channel: Channel,
    payload: Option<Vec<u8>>,
) -> (r: Option<(PeerId, Channel, Packet)>)
    ensures
        r == spec_inbound_packet(peer, channel, payload),
{
    match payload {
        Some(bytes) => Some((peer, channel, bytes)),
        None => None,
    }
}

} // verus!
