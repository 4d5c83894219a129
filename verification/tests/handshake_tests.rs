use matchbox_socket::accepter::{AccepterHandshake, AccepterPhase};
use matchbox_socket::connection::SdpType;
use matchbox_socket::handshake::HandshakeAction;
use matchbox_socket::messages::{HandshakeError, PeerId, PeerRequest, PeerSignal};
use matchbox_socket::offerer::{OffererHandshake, OffererPhase};
use matchbox_socket::signal_peer::SignalPeer;

fn peer(v: u64) -> PeerId {
    PeerId { value: v }
}

#[test]
fn offerer_emits_offer_then_completes_on_answer() {
    // Two-peer offer/answer, offerer side: after NewPeer(B) the offerer
    // ships its offer, and the answer plus channel opening complete the
    // handshake.
    let mut hs = OffererHandshake::new(SignalPeer::new(peer(2)));
    let actions = hs.offer_created(Some("sdpA".to_owned()));
    assert_eq!(hs.phase, OffererPhase::OfferSent);
    assert_eq!(
        actions[0],
        HandshakeAction::SetLocalDescription(matchbox_socket::connection::SessionDescription {
            kind: SdpType::Offer,
            sdp: "sdpA".to_owned(),
        })
    );
    assert_eq!(
        actions[1],
        HandshakeAction::Send(PeerRequest::Signal {
            to: peer(2),
            data: PeerSignal::Offer("sdpA".to_owned()),
        })
    );
    assert_eq!(actions.len(), 2);

    let actions = hs.on_signal(PeerSignal::Answer("sdpB".to_owned()));
    assert_eq!(hs.phase, OffererPhase::Trickling);
    assert_eq!(
        actions,
        vec![HandshakeAction::SetRemoteDescription(
            matchbox_socket::connection::SessionDescription {
                kind: SdpType::Answer,
                sdp: "sdpB".to_owned(),
            }
        )]
    );

    hs.channel_open();
    assert_eq!(hs.phase, OffererPhase::ChannelOpen);
    assert!(hs.conn.channels_open);
}

#[test]
fn accepter_answers_unsolicited_offer() {
    // Accepter path: a Signal{from=C, data=Offer} with no prior NewPeer
    // makes this side the accepter; it must emit an Answer and complete
    // after the channel opens.
    let mut hs = AccepterHandshake::new(SignalPeer::new(peer(9)));
    let actions = hs.on_signal(PeerSignal::Offer("sdpC".to_owned()));
    assert_eq!(hs.phase, AccepterPhase::RemoteDescSet);
    assert_eq!(
        actions,
        vec![HandshakeAction::SetRemoteDescription(
            matchbox_socket::connection::SessionDescription {
                kind: SdpType::Offer,
                sdp: "sdpC".to_owned(),
            }
        )]
    );

    let actions = hs.answer_created(Some("sdpD".to_owned()));
    assert_eq!(hs.phase, AccepterPhase::Trickling);
    assert_eq!(
        actions[0],
        HandshakeAction::SetLocalDescription(matchbox_socket::connection::SessionDescription {
            kind: SdpType::Answer,
            sdp: "sdpD".to_owned(),
        })
    );
    assert_eq!(
        actions[1],
        HandshakeAction::Send(PeerRequest::Signal {
            to: peer(9),
            data: PeerSignal::Answer("sdpD".to_owned()),
        })
    );
    assert_eq!(actions.len(), 2);

    hs.channel_open();
    assert_eq!(hs.phase, AccepterPhase::ChannelOpen);
    assert!(hs.conn.channels_open);
}

#[test]
fn local_candidate_held_until_answer_applied() {
    // Candidate before remote description: a candidate gathered while the
    // offerer awaits the answer is not shipped; after the answer is
    // applied it goes out exactly once, and later candidates go out
    // immediately.
    let mut hs = OffererHandshake::new(SignalPeer::new(peer(2)));
    hs.offer_created(Some("sdpA".to_owned()));

    let actions = hs.on_local_candidate(Some("X".to_owned()));
    assert!(actions.is_empty());
    assert_eq!(hs.trickle.pending, vec!["X".to_owned()]);

    let actions = hs.on_signal(PeerSignal::Answer("sdpB".to_owned()));
    let shipped: Vec<&HandshakeAction> = actions
        .iter()
        .filter(|a| {
            matches!(
                a,
                HandshakeAction::Send(PeerRequest::Signal {
                    data: PeerSignal::IceCandidate(_),
                    ..
                })
            )
        })
        .collect();
    assert_eq!(shipped.len(), 1);
    assert_eq!(
        *shipped[0],
        HandshakeAction::Send(PeerRequest::Signal {
            to: peer(2),
            data: PeerSignal::IceCandidate("X".to_owned()),
        })
    );
    // the install of the remote description comes before the shipped candidate
    assert!(matches!(
        actions[0],
        HandshakeAction::SetRemoteDescription(_)
    ));
    assert!(hs.trickle.pending.is_empty());

    let actions = hs.on_local_candidate(Some("Y".to_owned()));
    assert_eq!(
        actions,
        vec![HandshakeAction::Send(PeerRequest::Signal {
            to: peer(2),
            data: PeerSignal::IceCandidate("Y".to_owned()),
        })]
    );
}

#[test]
fn remote_candidate_buffered_until_answer_applied() {
    // Remote candidate before remote description: a candidate delivered
    // while the offerer awaits the answer is buffered, and applied only
    // after the remote description is installed.
    let mut hs = OffererHandshake::new(SignalPeer::new(peer(2)));
    hs.offer_created(Some("sdpA".to_owned()));

    let actions = hs.on_signal(PeerSignal::IceCandidate("Y".to_owned()));
    assert!(actions.is_empty());
    assert!(hs.conn.applied_candidates.is_empty());
    assert_eq!(hs.buffered_remote, vec!["Y".to_owned()]);

    let actions = hs.on_signal(PeerSignal::Answer("sdpB".to_owned()));
    assert!(matches!(
        actions[0],
        HandshakeAction::SetRemoteDescription(_)
    ));
    assert_eq!(
        actions[1],
        HandshakeAction::AddIceCandidate(matchbox_socket::connection::IceCandidateInit {
            candidate: "Y".to_owned(),
            sdp_m_line_index: 0,
        })
    );
    assert_eq!(actions.len(), 2);
    assert_eq!(hs.conn.applied_candidates.len(), 1);
    assert!(hs.buffered_remote.is_empty());
}

#[test]
fn accepter_buffers_candidate_before_offer() {
    let mut hs = AccepterHandshake::new(SignalPeer::new(peer(9)));
    let actions = hs.on_signal(PeerSignal::IceCandidate("Z".to_owned()));
    assert!(actions.is_empty());
    assert_eq!(hs.phase, AccepterPhase::Init);
    assert!(hs.conn.applied_candidates.is_empty());

    hs.on_signal(PeerSignal::Offer("sdpC".to_owned()));
    let actions = hs.answer_created(Some("sdpD".to_owned()));
    assert_eq!(
        actions[2],
        HandshakeAction::AddIceCandidate(matchbox_socket::connection::IceCandidateInit {
            candidate: "Z".to_owned(),
            sdp_m_line_index: 0,
        })
    );
    assert_eq!(actions.len(), 3);
    assert_eq!(hs.conn.applied_candidates.len(), 1);
}

#[test]
fn offerer_ignores_stray_offer_and_accepter_ignores_stray_answer() {
    let mut offerer = OffererHandshake::new(SignalPeer::new(peer(2)));
    offerer.offer_created(Some("sdpA".to_owned()));
    let actions = offerer.on_signal(PeerSignal::Offer("stray".to_owned()));
    assert!(actions.is_empty());
    assert_eq!(offerer.phase, OffererPhase::OfferSent);

    let mut accepter = AccepterHandshake::new(SignalPeer::new(peer(9)));
    let actions = accepter.on_signal(PeerSignal::Answer("stray".to_owned()));
    assert!(actions.is_empty());
    assert_eq!(accepter.phase, AccepterPhase::Init);
}

#[test]
fn inbox_closed_fails_offer_handshake() {
    // Signalling disconnect mid-handshake: the inbox closes before the
    // answer arrives, the handshake fails, the channel never opens.
    let mut hs = OffererHandshake::new(SignalPeer::new(peer(2)));
    hs.offer_created(Some("sdpA".to_owned()));
    hs.inbox_closed();
    assert_eq!(
        hs.phase,
        OffererPhase::Failed(HandshakeError::SignallingClosedMidHandshake)
    );
    assert!(!hs.conn.channels_open);
}

#[test]
fn inbox_closed_fails_accept_handshake() {
    let mut hs = AccepterHandshake::new(SignalPeer::new(peer(9)));
    hs.inbox_closed();
    assert_eq!(
        hs.phase,
        AccepterPhase::Failed(HandshakeError::SignallingClosedMidHandshake)
    );
}

#[test]
fn missing_sdp_fails_handshake_as_malformed() {
    let mut offerer = OffererHandshake::new(SignalPeer::new(peer(2)));
    let actions = offerer.offer_created(None);
    assert!(actions.is_empty());
    assert_eq!(offerer.phase, OffererPhase::Failed(HandshakeError::MalformedSdp));
    // nothing was installed or sent
    assert_eq!(offerer.conn.local_description, None);
    assert_eq!(offerer.conn.remote_description, None);

    let mut accepter = AccepterHandshake::new(SignalPeer::new(peer(9)));
    accepter.on_signal(PeerSignal::Offer("sdpC".to_owned()));
    let actions = accepter.answer_created(None);
    assert!(actions.is_empty());
    assert_eq!(accepter.phase, AccepterPhase::Failed(HandshakeError::MalformedSdp));
    assert_eq!(accepter.conn.local_description, None);
}

#[test]
fn platform_rejection_fails_handshake_with_diagnostic() {
    let mut hs = OffererHandshake::new(SignalPeer::new(peer(2)));
    hs.platform_rejected("setLocalDescription: invalid state".to_owned());
    assert_eq!(
        hs.phase,
        OffererPhase::Failed(HandshakeError::PlatformRejection(
            "setLocalDescription: invalid state".to_owned()
        ))
    );

    let mut hs = AccepterHandshake::new(SignalPeer::new(peer(9)));
    hs.platform_rejected("createAnswer failed".to_owned());
    assert_eq!(
        hs.phase,
        AccepterPhase::Failed(HandshakeError::PlatformRejection(
            "createAnswer failed".to_owned()
        ))
    );
}

#[test]
fn trickling_applies_remote_candidates_and_ignores_rest() {
    let mut hs = OffererHandshake::new(SignalPeer::new(peer(2)));
    hs.offer_created(Some("sdpA".to_owned()));
    hs.on_signal(PeerSignal::Answer("sdpB".to_owned()));

    let actions = hs.on_remote_signal(PeerSignal::IceCandidate("W".to_owned()));
    assert_eq!(
        actions,
        vec![HandshakeAction::AddIceCandidate(
            matchbox_socket::connection::IceCandidateInit {
                candidate: "W".to_owned(),
                sdp_m_line_index: 0,
            }
        )]
    );
    let actions = hs.on_remote_signal(PeerSignal::Offer("stray".to_owned()));
    assert!(actions.is_empty());
    assert_eq!(hs.conn.applied_candidates.len(), 1);
}

fn sends_to(actions: &[HandshakeAction], to: PeerId) -> Vec<PeerSignal> {
    actions
        .iter()
        .filter_map(|a| match a {
            HandshakeAction::Send(PeerRequest::Signal { to: t, data }) if *t == to => {
                Some(data.clone())
            }
            _ => None,
        })
        .collect()
}

#[test]
fn two_machines_negotiate_against_each_other() {
    // Offerer on A and accepter on B, with A's outbound signals relayed
    // into B's inbox and back: both sides converge and candidates cross.
    let a_id = peer(1);
    let b_id = peer(2);
    let mut a = OffererHandshake::new(SignalPeer::new(b_id));
    let mut b = AccepterHandshake::new(SignalPeer::new(a_id));

    let actions = a.offer_created(Some("sdpA".to_owned()));
    for signal in sends_to(&actions, b_id) {
        b.on_signal(signal);
    }
    assert_eq!(b.phase, AccepterPhase::RemoteDescSet);

    let actions = b.answer_created(Some("sdpB".to_owned()));
    for signal in sends_to(&actions, a_id) {
        a.on_signal(signal);
    }
    assert_eq!(a.phase, OffererPhase::Trickling);

    // a candidate gathered on A crosses over and is applied on B
    let actions = a.on_local_candidate(Some("candA".to_owned()));
    for signal in sends_to(&actions, b_id) {
        b.on_remote_signal(signal);
    }
    assert_eq!(b.conn.applied_candidates.len(), 1);
    assert_eq!(b.conn.applied_candidates[0].candidate, "candA".to_owned());

    b.channel_open();
    a.channel_open();
    assert!(a.conn.channels_open);
    assert!(b.conn.channels_open);
}

#[test]
fn end_of_gathering_marker_is_ignored() {
    let mut hs = OffererHandshake::new(SignalPeer::new(peer(2)));
    hs.offer_created(Some("sdpA".to_owned()));
    let actions = hs.on_local_candidate(None);
    assert!(actions.is_empty());
    assert!(hs.trickle.pending.is_empty());
}
