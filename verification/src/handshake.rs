//! Vocabulary shared by the two handshake state machines.
//!
//! Each step of a handshake returns the sequence of actions the driver
//! must perform, in order: platform calls on the peer connection and
//! requests to enqueue for the signalling writer. If the platform rejects
//! a call, the driver reports `platform_rejected` to the machine and
//! discards the remainder of the sequence.

use vstd::prelude::*;

use crate::connection::{IceCandidateInit, SessionDescription};
use crate::messages::{PeerRequest, PeerSignal};
use crate::signal_peer::SignalPeer;
use crate::trickle::spec_candidate_request;

verus! {

/// One action a handshake step asks its driver to perform.
#[derive(Clone, PartialEq, Eq, Debug)]
pub enum HandshakeAction {
    /// Install this description as the connection's local description.
    SetLocalDescription(SessionDescription),
    /// Install this description as the connection's remote description.
    SetRemoteDescription(SessionDescription),
    /// Apply this remote candidate to the connection.
    AddIceCandidate(IceCandidateInit),
    /// Enqueue this request for the signalling writer.
    Send(PeerRequest),
}

/// Whether an action ships a local ICE candidate to the remote peer.
pub open spec fn is_candidate_request(a: HandshakeAction) -> bool {
    match a {
        HandshakeAction::Send(
            PeerRequest::Signal { to: _, data: PeerSignal::IceCandidate(_) },
        ) => true,
        _ => false,
    }
}

/// Whether an action applies a remote ICE candidate to the connection.
pub open spec fn is_apply_candidate(a: HandshakeAction) -> bool {
    a is AddIceCandidate
}

/// The actions that ship these local candidate lines to the peer, in order.
pub open spec fn candidate_requests(peer: SignalPeer, candidates: Seq<String>) -> Seq<
    HandshakeAction,
> {
    candidates.map_values(|c: String| HandshakeAction::Send(spec_candidate_request(peer, c)))
}

/// The actions that apply these remote candidate lines, in order, each
/// wrapped with media-line index 0.
pub open spec fn candidate_applications(candidates: Seq<String>) -> Seq<HandshakeAction> {
    candidates.map_values(
        |c: String|
            HandshakeAction::AddIceCandidate(
                IceCandidateInit { candidate: c, sdp_m_line_index: 0 },
            ),
    )
}

/// The candidate records these lines become when applied.
pub open spec fn applied_inits(candidates: Seq<String>) -> Seq<IceCandidateInit> {
    candidates.map_values(|c: String| IceCandidateInit { candidate: c, sdp_m_line_index: 0 })
}

} // verus!
