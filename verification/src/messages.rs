//! Wire-level vocabulary shared with the signalling service and the
//! application: peer identities, payloads, and the two tagged message
//! families that flow over the signalling connection.

use vstd::prelude::*;

verus! {

/// Opaque stable identifier of a remote peer, assigned by the signalling
/// server. Equality and hashability are all the core relies on.
#[derive(Clone, Copy, PartialEq, Eq, Structural, Hash, Debug)]
pub struct PeerId {
    pub value: u64,
}

/// An application payload: an owned byte sequence, produced by the
/// application or received from a data channel, consumed once.
pub type Packet = Vec<u8>;

/// Quality-of-service profile of a data channel.
#[derive(Clone, Copy, PartialEq, Eq, Structural, Hash, Debug)]
pub enum Channel {
    Unreliable,
    Reliable,
}

/// A signal exchanged between two peers through the signalling relay:
/// the two SDP bodies of the session negotiation, or a single textual
/// ICE candidate line.
#[derive(Clone, PartialEq, Eq, Debug)]
pub enum PeerSignal {
    Offer(String),
    Answer(String),
    IceCandidate(String),
}

/// An event delivered by the signalling service. `NewPeer` marks this
/// socket as the offerer for the new peer; `Signal` relays a peer's signal.
#[derive(Clone, PartialEq, Eq, Debug)]
pub enum PeerEvent {
    NewPeer(PeerId),
    Signal { sender: PeerId, data: PeerSignal },
}

/// A request sent to the signalling service. `Uuid` is the first message
/// after connecting and binds this socket to its identifier; `KeepAlive`
/// is a periodic no-op; `Signal` is relayed verbatim to peer `to`.
#[derive(Clone, PartialEq, Eq, Debug)]
pub enum PeerRequest {
    Uuid(PeerId),
    KeepAlive,
    Signal { to: PeerId, data: PeerSignal },
}

/// Why a handshake failed. The peer is never published after a failure.
#[derive(Clone, PartialEq, Eq, Debug)]
pub enum HandshakeError {
    /// The handshake inbox closed before the expected SDP arrived.
    SignallingClosedMidHandshake,
    /// The platform rejected a WebRTC operation; carries the platform's
    /// opaque diagnostic rendered as text.
    PlatformRejection(String),
    /// An Offer or Answer object had a missing or non-string `sdp` field.
    MalformedSdp,
}

} // verus!
