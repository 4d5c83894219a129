use matchbox_socket::data_channel::inbound_packet;
use matchbox_socket::messages::{Channel, PeerEvent, PeerId, PeerRequest, PeerSignal};
use matchbox_socket::socket::{
    select_data_channel, ExitReason, LoopAction, PeerSlot, SocketState,
};

fn peer(v: u64) -> PeerId {
    PeerId { value: v }
}

fn slot_of(s: &SocketState, p: PeerId) -> Option<PeerSlot> {
    s.peers.iter().find(|e| e.0 == p).map(|e| e.1)
}

#[test]
fn startup_and_keep_alive_requests() {
    assert_eq!(
        SocketState::startup_request(peer(1)),
        PeerRequest::Uuid(peer(1))
    );
    assert_eq!(SocketState::keep_alive_request(), PeerRequest::KeepAlive);
}

#[test]
fn new_peer_spawns_offerer() {
    let mut s = SocketState::new();
    let actions = s.on_peer_event(Some(PeerEvent::NewPeer(peer(3))));
    assert_eq!(actions, vec![LoopAction::SpawnOfferer(peer(3))]);
    assert_eq!(slot_of(&s, peer(3)), Some(PeerSlot::Offering));
}

#[test]
fn signal_from_unknown_peer_spawns_accepter_and_forwards() {
    let mut s = SocketState::new();
    let actions = s.on_peer_event(Some(PeerEvent::Signal {
        sender: peer(5),
        data: PeerSignal::Offer("sdpC".to_owned()),
    }));
    assert_eq!(
        actions,
        vec![
            LoopAction::SpawnAccepter(peer(5)),
            LoopAction::Forward {
                to: peer(5),
                signal: PeerSignal::Offer("sdpC".to_owned()),
            },
        ]
    );
    assert_eq!(slot_of(&s, peer(5)), Some(PeerSlot::Accepting));
}

#[test]
fn signal_for_handshake_in_flight_is_forwarded() {
    let mut s = SocketState::new();
    s.on_peer_event(Some(PeerEvent::NewPeer(peer(3))));
    let actions = s.on_peer_event(Some(PeerEvent::Signal {
        sender: peer(3),
        data: PeerSignal::Answer("sdpB".to_owned()),
    }));
    assert_eq!(
        actions,
        vec![LoopAction::Forward {
            to: peer(3),
            signal: PeerSignal::Answer("sdpB".to_owned()),
        }]
    );
    assert_eq!(slot_of(&s, peer(3)), Some(PeerSlot::Offering));
}

#[test]
fn successful_handshake_publishes_peer_once_connected() {
    // A peer appears on the connected stream exactly when its handshake
    // completes, and its slot then records the established channel.
    let mut s = SocketState::new();
    s.on_peer_event(Some(PeerEvent::NewPeer(peer(3))));
    let actions = s.on_handshake_result(peer(3), true);
    assert_eq!(actions, vec![LoopAction::Publish(peer(3))]);
    assert_eq!(slot_of(&s, peer(3)), Some(PeerSlot::Connected));
}

#[test]
fn failed_handshake_is_dropped_and_not_published() {
    // Signalling disconnect mid-handshake: the entry is dropped, nothing
    // is published, and other peers' channels stay live.
    let mut s = SocketState::new();
    s.on_peer_event(Some(PeerEvent::NewPeer(peer(3))));
    s.on_handshake_result(peer(3), true);
    s.on_peer_event(Some(PeerEvent::NewPeer(peer(4))));
    let actions = s.on_handshake_result(peer(4), false);
    assert!(actions.is_empty());
    assert_eq!(slot_of(&s, peer(4)), None);
    assert_eq!(slot_of(&s, peer(3)), Some(PeerSlot::Connected));
}

#[test]
fn signal_after_handshake_completed_is_ignored() {
    let mut s = SocketState::new();
    s.on_peer_event(Some(PeerEvent::NewPeer(peer(3))));
    s.on_handshake_result(peer(3), true);
    let actions = s.on_peer_event(Some(PeerEvent::Signal {
        sender: peer(3),
        data: PeerSignal::IceCandidate("late".to_owned()),
    }));
    assert!(actions.is_empty());
    assert_eq!(slot_of(&s, peer(3)), Some(PeerSlot::Connected));
}

#[test]
fn one_entry_per_peer() {
    // At most one of "handshake in flight" / "channel established" holds
    // per peer at any time: one entry per peer, holding a single slot.
    let mut s = SocketState::new();
    s.on_peer_event(Some(PeerEvent::NewPeer(peer(3))));
    s.on_peer_event(Some(PeerEvent::NewPeer(peer(3))));
    s.on_handshake_result(peer(3), true);
    s.on_peer_event(Some(PeerEvent::NewPeer(peer(4))));
    let entries = s.peers.iter().filter(|e| e.0 == peer(3)).count();
    assert_eq!(entries, 1);
}

#[test]
fn outbound_message_sends_exactly_once() {
    // Sending half of the packet round trip: one outbound message becomes
    // exactly one send on the addressed peer's channel.
    let mut s = SocketState::new();
    s.on_peer_event(Some(PeerEvent::NewPeer(peer(3))));
    s.on_handshake_result(peer(3), true);
    let actions = s.on_outbound_message(Some((peer(3), Channel::Reliable, vec![1, 2, 3])));
    assert_eq!(
        actions,
        vec![LoopAction::SendPacket {
            peer: peer(3),
            channel: Channel::Reliable,
            packet: vec![1, 2, 3],
        }]
    );
}

#[test]
fn packet_round_trip_appears_exactly_once() {
    // A packet enqueued on A's outbound sink for B becomes one send; the
    // delivered bytes surface on B's inbound stream exactly once.
    let mut a = SocketState::new();
    a.on_peer_event(Some(PeerEvent::NewPeer(peer(2))));
    a.on_handshake_result(peer(2), true);
    let actions = a.on_outbound_message(Some((peer(2), Channel::Unreliable, vec![42, 7])));
    assert_eq!(actions.len(), 1);
    let LoopAction::SendPacket { channel, packet, .. } = &actions[0] else {
        panic!("expected a send");
    };
    // B receives the bytes from A over the channel of the same profile
    let delivered = inbound_packet(peer(1), *channel, Some(packet.clone()));
    assert_eq!(delivered, Some((peer(1), Channel::Unreliable, vec![42, 7])));
}

#[test]
fn application_shutdown_exits_cleanly() {
    // The application dropped the outbound sink: the loop exits cleanly.
    let s = SocketState::new();
    let actions = s.on_outbound_message(None);
    assert_eq!(
        actions,
        vec![LoopAction::Exit(ExitReason::ApplicationClosed)]
    );
}

#[test]
fn failed_publish_exits_cleanly() {
    // The application dropped the connected-peers consumer: the loop
    // detects the failed publish and shuts down cleanly.
    let s = SocketState::new();
    let actions = s.on_publish_failed();
    assert_eq!(
        actions,
        vec![LoopAction::Exit(ExitReason::ApplicationClosed)]
    );
}

#[test]
fn signalling_stream_end_exits_loop() {
    let mut s = SocketState::new();
    let actions = s.on_peer_event(None);
    assert_eq!(actions, vec![LoopAction::Exit(ExitReason::SignallingGone)]);
}

#[test]
fn trickle_ended_exits_loop() {
    let s = SocketState::new();
    let actions = s.on_trickle_ended();
    assert_eq!(actions, vec![LoopAction::Exit(ExitReason::TrickleEnded)]);
}

#[test]
fn channel_profile_selects_endpoint() {
    let unreliable = "u";
    let reliable = "r";
    assert_eq!(
        *select_data_channel(&unreliable, &reliable, Channel::Reliable),
        "r"
    );
    assert_eq!(
        *select_data_channel(&unreliable, &reliable, Channel::Unreliable),
        "u"
    );
}
