use matchbox_socket::config::{
    ice_server_entry, RtcIceServerConfig, WebRtcSocketConfig,
};
use matchbox_socket::connection::{candidate_init, Connection, SessionDescription, SdpType};
use matchbox_socket::data_channel::{data_channel_config, inbound_packet, BinaryType};
use matchbox_socket::messages::{Channel, PeerId, PeerRequest, PeerSignal};
use matchbox_socket::signal_peer::SignalPeer;
use matchbox_socket::trickle::CandidateTrickle;
use matchbox_socket::{
    KEEP_ALIVE_INTERVAL, RELIABLE_DATA_CHANNEL_ID, UNRELIABLE_DATA_CHANNEL_ID,
};

fn peer(v: u64) -> PeerId {
    PeerId { value: v }
}

fn candidate_request(to: PeerId, c: &str) -> PeerRequest {
    PeerRequest::Signal {
        to,
        data: PeerSignal::IceCandidate(c.to_owned()),
    }
}

#[test]
fn signal_peer_wraps_signal_with_destination() {
    let sp = SignalPeer::new(peer(8));
    assert_eq!(
        sp.request(PeerSignal::Offer("sdp".to_owned())),
        PeerRequest::Signal {
            to: peer(8),
            data: PeerSignal::Offer("sdp".to_owned()),
        }
    );
}

#[test]
fn local_candidate_buffered_without_remote_description() {
    let mut trickle = CandidateTrickle::new(SignalPeer::new(peer(8)));
    let conn = Connection::new();
    let out = trickle.on_local_candidate(&conn, "A".to_owned());
    assert_eq!(out, None);
    assert_eq!(trickle.pending, vec!["A".to_owned()]);
}

#[test]
fn local_candidate_forwarded_with_remote_description() {
    let mut trickle = CandidateTrickle::new(SignalPeer::new(peer(8)));
    let mut conn = Connection::new();
    conn.set_local_description(SessionDescription {
        kind: SdpType::Offer,
        sdp: "o".to_owned(),
    });
    conn.set_remote_description(SessionDescription {
        kind: SdpType::Answer,
        sdp: "a".to_owned(),
    });
    let out = trickle.on_local_candidate(&conn, "B".to_owned());
    assert_eq!(out, Some(candidate_request(peer(8), "B")));
    assert!(trickle.pending.is_empty());
}

#[test]
fn pending_candidates_drain_in_order() {
    let mut trickle = CandidateTrickle::new(SignalPeer::new(peer(8)));
    let conn = Connection::new();
    trickle.on_local_candidate(&conn, "one".to_owned());
    trickle.on_local_candidate(&conn, "two".to_owned());
    trickle.on_local_candidate(&conn, "three".to_owned());
    let requests = trickle.send_pending_candidates();
    assert_eq!(
        requests,
        vec![
            candidate_request(peer(8), "one"),
            candidate_request(peer(8), "two"),
            candidate_request(peer(8), "three"),
        ]
    );
    assert!(trickle.pending.is_empty());
    assert!(trickle.send_pending_candidates().is_empty());
}

#[test]
fn remote_candidate_applied_with_line_index_zero() {
    let mut conn = Connection::new();
    conn.set_remote_description(SessionDescription {
        kind: SdpType::Offer,
        sdp: "o".to_owned(),
    });
    let applied =
        CandidateTrickle::apply_remote_signal(&mut conn, PeerSignal::IceCandidate("C".to_owned()));
    let init = applied.expect("candidate should be applied");
    assert_eq!(init.candidate, "C".to_owned());
    assert_eq!(init.sdp_m_line_index, 0);
    assert_eq!(conn.applied_candidates, vec![init]);
}

#[test]
fn stray_sdp_on_trickle_stream_is_ignored() {
    let mut conn = Connection::new();
    conn.set_remote_description(SessionDescription {
        kind: SdpType::Offer,
        sdp: "o".to_owned(),
    });
    let applied =
        CandidateTrickle::apply_remote_signal(&mut conn, PeerSignal::Offer("again".to_owned()));
    assert_eq!(applied, None);
    let applied =
        CandidateTrickle::apply_remote_signal(&mut conn, PeerSignal::Answer("late".to_owned()));
    assert_eq!(applied, None);
    assert!(conn.applied_candidates.is_empty());
}

#[test]
fn candidate_init_pins_media_line_index() {
    let init = candidate_init("candidate:0 1 UDP 1 10.0.0.1 9 typ host".to_owned());
    assert_eq!(init.sdp_m_line_index, 0);
    assert_eq!(init.candidate, "candidate:0 1 UDP 1 10.0.0.1 9 typ host".to_owned());
}

#[test]
fn ice_server_entry_defaults_missing_credentials_to_empty() {
    let config = WebRtcSocketConfig {
        ice_server: RtcIceServerConfig {
            urls: vec!["stun:stun.example.org:3478".to_owned()],
            username: None,
            credential: None,
        },
    };
    let entry = ice_server_entry(&config);
    assert_eq!(entry.urls, vec!["stun:stun.example.org:3478".to_owned()]);
    assert_eq!(entry.username, "".to_owned());
    assert_eq!(entry.credential, "".to_owned());
}

#[test]
fn ice_server_entry_keeps_given_credentials() {
    let config = WebRtcSocketConfig {
        ice_server: RtcIceServerConfig {
            urls: vec!["turn:turn.example.org".to_owned()],
            username: Some("user".to_owned()),
            credential: Some("pass".to_owned()),
        },
    };
    let entry = ice_server_entry(&config);
    assert_eq!(entry.username, "user".to_owned());
    assert_eq!(entry.credential, "pass".to_owned());
}

#[test]
fn data_channel_configuration_is_fixed() {
    for channel in [Channel::Unreliable, Channel::Reliable] {
        let c = data_channel_config(channel);
        assert_eq!(c.label, "webudp".to_owned());
        assert!(!c.ordered);
        assert_eq!(c.max_retransmits, 0);
        assert!(c.negotiated);
        assert_eq!(c.binary_type, BinaryType::ArrayBuffer);
    }
    assert_eq!(
        data_channel_config(Channel::Unreliable).id,
        UNRELIABLE_DATA_CHANNEL_ID
    );
    assert_eq!(
        data_channel_config(Channel::Reliable).id,
        RELIABLE_DATA_CHANNEL_ID
    );
}

#[test]
fn channel_pair_uses_two_distinct_ids() {
    // negotiated channels are constructed independently on both sides, so
    // the two profiles of one connection need two distinct fixed ids
    let unreliable = data_channel_config(Channel::Unreliable);
    let reliable = data_channel_config(Channel::Reliable);
    assert_ne!(unreliable.id, reliable.id);
}

#[test]
fn keep_alive_interval_is_ten_seconds() {
    assert_eq!(KEEP_ALIVE_INTERVAL, 10_000);
}

#[test]
fn binary_message_surfaces_exactly_once_and_nonbinary_is_dropped() {
    // Receiving half of the packet round trip: a delivered binary payload
    // becomes exactly one inbound message with the same bytes.
    let delivered = inbound_packet(peer(4), Channel::Unreliable, Some(vec![9, 8, 7]));
    assert_eq!(delivered, Some((peer(4), Channel::Unreliable, vec![9, 8, 7])));
    let dropped = inbound_packet(peer(4), Channel::Unreliable, None);
    assert_eq!(dropped, None);
}
