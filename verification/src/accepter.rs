//! The accepter's handshake: a signal arrived from a peer this socket
//! had not offered to, so the peer is the offerer and this side answers.
//! The machine awaits the offer on its inbox, installs it as the remote
//! description, has the platform create the answer, installs and ships
//! it, drains buffered candidates, and terminates when the data channels
//! open.
//!
//! The accepter mirrors the offerer's channel configuration exactly:
//! with negotiated channels both sides construct their endpoints
//! independently, so label, options and id must agree.

use vstd::prelude::*;

use crate::connection::{candidate_init, Connection, IceCandidateInit, SdpType, SessionDescription};
use crate::handshake::{
    applied_inits, candidate_applications, candidate_requests, is_apply_candidate,
    is_candidate_request, HandshakeAction,
};
use crate::messages::{HandshakeError, PeerRequest, PeerSignal};
use crate::signal_peer::SignalPeer;
use crate::trickle::{spec_candidate_request, CandidateTrickle};

verus! {

/// Progress of the accepter's handshake. `Init` covers the wait for the
/// offer; `RemoteDescSet` covers the wait for the platform to create the
/// answer; `Trickling` covers the wait for the channels to open while
/// candidates flow.
#[derive(Clone, PartialEq, Eq, Debug)]
pub enum AccepterPhase {
    Init,
    RemoteDescSet,
    Trickling,
    ChannelOpen,
    Failed(HandshakeError),
}

/// The accepter's handshake state machine for one remote peer.
#[derive(Clone, PartialEq, Eq, Debug)]
pub struct AccepterHandshake {
    pub signal_peer: SignalPeer,
    pub conn: Connection,
    pub trickle: CandidateTrickle,
    /// Remote candidates received before the offer: they cannot be
    /// applied before the remote description is installed.
    pub buffered_remote: Vec<String>,
    pub phase: AccepterPhase,
}

impl AccepterHandshake {
    /// Well-formedness: what each phase guarantees of the connection and
    /// the buffers.
    pub open spec fn wf(self) -> bool {
        &&& self.trickle.signal_peer == self.signal_peer
        &&& match self.phase {
            AccepterPhase::Init => {
                &&& self.conn.local_description is None
                &&& self.conn.remote_description is None
                &&& self.conn.applied_candidates@.len() == 0
                &&& self.trickle.pending@.len() == 0
            },
            AccepterPhase::RemoteDescSet => {
                &&& self.conn.local_description is None
                &&& self.conn.remote_description matches Some(d) && d.kind == SdpType::Offer
                &&& self.conn.applied_candidates@.len() == 0
                &&& self.trickle.pending@.len() == 0
            },
            AccepterPhase::Trickling | AccepterPhase::ChannelOpen => {
                &&& self.conn.local_description matches Some(d) && d.kind == SdpType::Answer
                &&& self.conn.remote_description matches Some(d) && d.kind == SdpType::Offer
                &&& self.trickle.pending@.len() == 0
                &&& self.buffered_remote@.len() == 0
            },
            AccepterPhase::Failed(_) => true,
        }
        &&& (self.phase is ChannelOpen ==> self.conn.channels_open)
    }

    /// A fresh handshake for the given peer: no descriptions, nothing
    /// buffered, channels closed.
    pub fn new(signal_peer: SignalPeer) -> (r: AccepterHandshake)
        ensures
            r.wf(),
            r.signal_peer == signal_peer,
            r.phase is Init,
            r.conn.local_description is None,
            r.conn.remote_description is None,
            r.conn.applied_candidates@.len() == 0,
            !r.conn.channels_open,
            r.trickle.pending@.len() == 0,
            r.buffered_remote@.len() == 0,
    {
        AccepterHandshake {
            signal_peer,
            conn: Connection::new(),
            trickle: CandidateTrickle::new(signal_peer),
            buffered_remote: Vec::new(),
            phase: AccepterPhase::Init,
        }
    }

    /// A signal arrived on the handshake inbox while awaiting the offer.
    /// The offer is installed as the remote description; a candidate
    /// arriving before it is buffered; a stray answer is ignored.
    pub fn on_signal(&mut self, signal: PeerSignal) -> (actions: Vec<HandshakeAction>)
        requires
            old(self).wf(),
            old(self).phase is Init,
        ensures
            final(self).wf(),
            final(self).signal_peer == old(self).signal_peer,
            match signal {
                PeerSignal::Offer(sdp) => {
                    &&& final(self).phase is RemoteDescSet
                    &&& final(self).conn.local_description is None
                    &&& final(self).conn.remote_description == Some(
                        SessionDescription { kind: SdpType::Offer, sdp: sdp },
                    )
                    &&& final(self).conn.applied_candidates == old(self).conn.applied_candidates
                    &&& final(self).conn.channels_open == old(self).conn.channels_open
                    &&& final(self).trickle == old(self).trickle
                    &&& final(self).buffered_remote == old(self).buffered_remote
                    &&& actions@ == seq![
                        HandshakeAction::SetRemoteDescription(
                            SessionDescription { kind: SdpType::Offer, sdp: sdp },
                        ),
                    ]
                },
                PeerSignal::IceCandidate(c) => {
                    &&& final(self).phase is Init
                    &&& final(self).conn == old(self).conn
                    &&& final(self).trickle == old(self).trickle
                    &&& final(self).buffered_remote@ == old(self).buffered_remote@.push(c)
                    &&& actions@.len() == 0
                },
                PeerSignal::Answer(_) => {
                    &&& *final(self) == *old(self)
                    &&& actions@.len() == 0
                },
            },
    {
        match signal {
            PeerSignal::Offer(sdp) => {
                let installed = SessionDescription { kind: SdpType::Offer, sdp: sdp.clone() };
                let announced = SessionDescription { kind: SdpType::Offer, sdp: sdp };
                self.conn.set_remote_description(installed);
                self.phase = AccepterPhase::RemoteDescSet;
                let mut actions: Vec<HandshakeAction> = Vec::new();
                actions.push(HandshakeAction::SetRemoteDescription(announced));
                actions
            },
            PeerSignal::IceCandidate(c) => {
                self.buffered_remote.push(c);
                Vec::new()
            },
            PeerSignal::Answer(_) => Vec::new(),
        }
    }

    /// The platform produced the answer. A present SDP is installed as
    /// the local description and shipped to the peer, and then, in
    /// order, the buffered local candidates go to the peer and the
    /// buffered remote candidates are applied to the connection; a
    /// missing or non-string `sdp` field fails the handshake as
    /// malformed. A candidate is shipped or applied only after both
    /// descriptions are installed.
    pub fn answer_created(&mut self, sdp: Option<String>) -> (actions: Vec<HandshakeAction>)
        requires
            old(self).wf(),
            old(self).phase is RemoteDescSet,
        ensures
            final(self).wf(),
            final(self).signal_peer == old(self).signal_peer,
            match sdp {
                Some(s) => {
                    &&& final(self).phase is Trickling
                    &&& final(self).conn.local_description == Some(
                        SessionDescription { kind: SdpType::Answer, sdp: s },
                    )
                    &&& final(self).conn.remote_description == old(self).conn.remote_description
                    &&& final(self).conn.channels_open == old(self).conn.channels_open
                    &&& final(self).conn.applied_candidates@ == applied_inits(
                        old(self).buffered_remote@,
                    )
                    &&& final(self).trickle.pending@.len() == 0
                    &&& final(self).buffered_remote@.len() == 0
                    &&& actions@ == seq![
                        HandshakeAction::SetLocalDescription(
                            SessionDescription { kind: SdpType::Answer, sdp: s },
                        ),
                        HandshakeAction::Send(
                            PeerRequest::Signal {
                                to: old(self).signal_peer.id,
                                data: PeerSignal::Answer(s),
                            },
                        ),
                    ] + candidate_requests(old(self).signal_peer, old(self).trickle.pending@)
                        + candidate_applications(old(self).buffered_remote@)
                },
                None => {
                    &&& final(self).phase == AccepterPhase::Failed(HandshakeError::MalformedSdp)
                    &&& final(self).conn == old(self).conn
                    &&& final(self).trickle == old(self).trickle
                    &&& final(self).buffered_remote == old(self).buffered_remote
                    &&& actions@.len() == 0
                },
            },
            forall|i: int|
                0 <= i < actions@.len() && is_candidate_request(actions@[i]) ==> {
                    &&& final(self).conn.local_description is Some
                    &&& final(self).conn.remote_description is Some
                    &&& 1 < i
                },
            forall|i: int|
                0 <= i < actions@.len() && is_apply_candidate(actions@[i]) ==> {
                    &&& final(self).conn.remote_description is Some
                    &&& 1 < i
                },
    {
        match sdp {
            Some(s) => {
                let ghost pending0 = self.trickle.pending@;
                let ghost buffered0 = self.buffered_remote@;
                let installed = SessionDescription { kind: SdpType::Answer, sdp: s.clone() };
                let announced = SessionDescription { kind: SdpType::Answer, sdp: s.clone() };
                let ghost d0 = announced;
                self.conn.set_local_description(installed);
                self.phase = AccepterPhase::Trickling;

                let mut actions: Vec<HandshakeAction> = Vec::new();
                actions.push(HandshakeAction::SetLocalDescription(announced));
                actions.push(
                    HandshakeAction::Send(self.signal_peer.request(PeerSignal::Answer(s))),
                );

                let mut reqs = self.trickle.send_pending_candidates();
                let ghost reqs0 = reqs@;
                let total: usize = reqs.len();
                let mut k: usize = 0;
                while reqs.len() > 0
                    invariant
                        total == reqs0.len(),
                        old(self).wf(),
                        old(self).phase is RemoteDescSet,
                        self.signal_peer == old(self).signal_peer,
                        self.trickle.signal_peer == old(self).signal_peer,
                        self.trickle.pending@.len() == 0,
                        self.buffered_remote@ == buffered0,
                        self.conn.local_description == Some(d0),
                        self.conn.remote_description == old(self).conn.remote_description,
                        self.conn.applied_candidates@ == old(self).conn.applied_candidates@,
                        self.conn.channels_open == old(self).conn.channels_open,
                        self.phase is Trickling,
                        k + reqs@.len() == reqs0.len(),
                        reqs@ == reqs0.subrange(k as int, reqs0.len() as int),
                        reqs0.len() == pending0.len(),
                        forall|j: int|
                            0 <= j < reqs0.len() ==> reqs0[j] == spec_candidate_request(
                                old(self).signal_peer,
                                pending0[j],
                            ),
                        actions@.len() == 2 + k,
                        actions@[0] == HandshakeAction::SetLocalDescription(d0),
                        actions@[1] == HandshakeAction::Send(
                            PeerRequest::Signal {
                                to: old(self).signal_peer.id,
                                data: PeerSignal::Answer(d0.sdp),
                            },
                        ),
                        forall|j: int|
                            0 <= j < k ==> actions@[2 + j] == HandshakeAction::Send(reqs0[j]),
                    decreases reqs@.len(),
                {
                    let r = reqs.remove(0);
                    actions.push(HandshakeAction::Send(r));
                    k = k + 1;
                    proof {
                        assert(reqs@ =~= reqs0.subrange(k as int, reqs0.len() as int));
                    }
                }

                let ghost actions1 = actions@;
                let btotal: usize = self.buffered_remote.len();
                let mut m: usize = 0;
                while self.buffered_remote.len() > 0
                    invariant
                        btotal == buffered0.len(),
                        reqs0.len() == pending0.len(),
                        forall|j: int|
                            0 <= j < reqs0.len() ==> reqs0[j] == spec_candidate_request(
                                old(self).signal_peer,
                                pending0[j],
                            ),
                        actions1.len() == 2 + reqs0.len(),
                        actions1[0] == HandshakeAction::SetLocalDescription(d0),
                        actions1[1] == HandshakeAction::Send(
                            PeerRequest::Signal {
                                to: old(self).signal_peer.id,
                                data: PeerSignal::Answer(d0.sdp),
                            },
                        ),
                        forall|j: int|
                            0 <= j < reqs0.len() ==> actions1[2 + j] == HandshakeAction::Send(
                                reqs0[j],
                            ),
                        old(self).wf(),
                        old(self).phase is RemoteDescSet,
                        self.signal_peer == old(self).signal_peer,
                        self.trickle.signal_peer == old(self).signal_peer,
                        self.trickle.pending@.len() == 0,
                        self.conn.local_description == Some(d0),
                        self.conn.remote_description == old(self).conn.remote_description,
                        self.conn.channels_open == old(self).conn.channels_open,
                        self.phase is Trickling,
                        m + self.buffered_remote@.len() == buffered0.len(),
                        self.buffered_remote@ == buffered0.subrange(
                            m as int,
                            buffered0.len() as int,
                        ),
                        self.conn.applied_candidates@.len() == m,
                        forall|j: int|
                            0 <= j < m ==> self.conn.applied_candidates@[j] == (IceCandidateInit {
                                candidate: buffered0[j],
                                sdp_m_line_index: 0,
                            }),
                        actions@.len() == actions1.len() + m,
                        forall|j: int| 0 <= j < actions1.len() ==> actions@[j] == actions1[j],
                        forall|j: int|
                            0 <= j < m ==> actions@[actions1.len() + j]
                                == HandshakeAction::AddIceCandidate(
                                IceCandidateInit { candidate: buffered0[j], sdp_m_line_index: 0 },
                            ),
                    decreases self.buffered_remote@.len(),
                {
                    let c = self.buffered_remote.remove(0);
                    let init = candidate_init(c);
                    let announced_init = IceCandidateInit {
                        candidate: init.candidate.clone(),
                        sdp_m_line_index: init.sdp_m_line_index,
                    };
                    self.conn.apply_remote_candidate(init);
                    actions.push(HandshakeAction::AddIceCandidate(announced_init));
                    m = m + 1;
                    proof {
                        assert(self.buffered_remote@ =~= buffered0.subrange(
                            m as int,
                            buffered0.len() as int,
                        ));
                    }
                }

                proof {
                    let rhs = seq![
                        HandshakeAction::SetLocalDescription(d0),
                        HandshakeAction::Send(
                            PeerRequest::Signal {
                                to: old(self).signal_peer.id,
                                data: PeerSignal::Answer(d0.sdp),
                            },
                        ),
                    ] + candidate_requests(old(self).signal_peer, pending0)
                        + candidate_applications(buffered0);
                    assert(candidate_requests(old(self).signal_peer, pending0).len()
                        == pending0.len());
                    assert(candidate_applications(buffered0).len() == buffered0.len());
                    assert forall|i: int| 0 <= i < actions@.len() implies actions@[i] == rhs[i] by {
                        if i <= 1 {
                        } else if i <= 1 + reqs0.len() {
                            assert(actions1[2 + (i - 2)] == HandshakeAction::Send(reqs0[i - 2]));
                            assert(actions@[i] == actions1[i]);
                        } else {
                            let j = i - 2 - reqs0.len();
                            assert(actions@[actions1.len() + j]
                                == HandshakeAction::AddIceCandidate(
                                IceCandidateInit { candidate: buffered0[j], sdp_m_line_index: 0 },
                            ));
                        }
                    }
                    assert(actions@ =~= rhs);
                    assert(self.conn.applied_candidates@ =~= applied_inits(buffered0));
                }
                actions
            },
            None => {
                self.phase = AccepterPhase::Failed(HandshakeError::MalformedSdp);
                Vec::new()
            },
        }
    }

    /// The platform gathered a local candidate (`None` marks the end of
    /// gathering and is ignored). Candidates exist only once the local
    /// description is installed, and for the accepter the remote
    /// description precedes the local one, so the candidate is always
    /// forwarded at once.
    pub fn on_local_candidate(&mut self, candidate: Option<String>) -> (actions: Vec<
        HandshakeAction,
    >)
        requires
            old(self).wf(),
            old(self).phase is Trickling || old(self).phase is ChannelOpen,
        ensures
            final(self).wf(),
            final(self).signal_peer == old(self).signal_peer,
            final(self).phase == old(self).phase,
            final(self).conn == old(self).conn,
            final(self).buffered_remote == old(self).buffered_remote,
            final(self).trickle == old(self).trickle,
            match candidate {
                Some(c) => actions@ == seq![
                    HandshakeAction::Send(spec_candidate_request(old(self).signal_peer, c)),
                ],
                None => actions@.len() == 0,
            },
            forall|i: int|
                0 <= i < actions@.len() && is_candidate_request(actions@[i]) ==> {
                    &&& old(self).conn.local_description is Some
                    &&& old(self).conn.remote_description is Some
                },
    {
        match candidate {
            Some(c) => {
                let req = self.trickle.on_local_candidate(&self.conn, c);
                match req {
                    Some(r) => {
                        let mut actions: Vec<HandshakeAction> = Vec::new();
                        actions.push(HandshakeAction::Send(r));
                        actions
                    },
                    None => Vec::new(),
                }
            },
            None => Vec::new(),
        }
    }

    /// A signal arrived on the inbox after the SDP exchange: the
    /// remote-candidate listener applies candidates and ignores stray
    /// offers and answers. The remote description is installed in these
    /// phases, so no candidate is applied before it.
    pub fn on_remote_signal(&mut self, signal: PeerSignal) -> (actions: Vec<HandshakeAction>)
        requires
            old(self).wf(),
            old(self).phase is Trickling || old(self).phase is ChannelOpen,
        ensures
            final(self).wf(),
            final(self).signal_peer == old(self).signal_peer,
            final(self).phase == old(self).phase,
            final(self).trickle == old(self).trickle,
            final(self).buffered_remote == old(self).buffered_remote,
            final(self).conn.local_description == old(self).conn.local_description,
            final(self).conn.remote_description == old(self).conn.remote_description,
            final(self).conn.channels_open == old(self).conn.channels_open,
            match signal {
                PeerSignal::IceCandidate(c) => {
                    &&& actions@ == seq![
                        HandshakeAction::AddIceCandidate(
                            IceCandidateInit { candidate: c, sdp_m_line_index: 0 },
                        ),
                    ]
                    &&& final(self).conn.applied_candidates@ == old(
                        self,
                    ).conn.applied_candidates@.push(
                        IceCandidateInit { candidate: c, sdp_m_line_index: 0 },
                    )
                },
                _ => {
                    &&& actions@.len() == 0
                    &&& final(self).conn == old(self).conn
                },
            },
            forall|i: int|
                0 <= i < actions@.len() && is_apply_candidate(actions@[i])
                    ==> final(self).conn.remote_description is Some,
    {
        let applied = CandidateTrickle::apply_remote_signal(&mut self.conn, signal);
        match applied {
            Some(init) => {
                let mut actions: Vec<HandshakeAction> = Vec::new();
                actions.push(HandshakeAction::AddIceCandidate(init));
                actions
            },
            None => Vec::new(),
        }
    }

    /// The channel-ready notifier fired: the data channels are open and
    /// the handshake succeeds. The peer may be published from here on.
    pub fn channel_open(&mut self)
        requires
            old(self).wf(),
            old(self).phase is Trickling,
        ensures
            final(self).wf(),
            final(self).signal_peer == old(self).signal_peer,
            final(self).phase is ChannelOpen,
            final(self).conn.channels_open,
            final(self).conn.local_description == old(self).conn.local_description,
            final(self).conn.remote_description == old(self).conn.remote_description,
            final(self).conn.applied_candidates == old(self).conn.applied_candidates,
            final(self).trickle == old(self).trickle,
    {
        self.conn.mark_channels_open();
        self.phase = AccepterPhase::ChannelOpen;
    }

    /// The handshake inbox closed before the handshake finished: the
    /// signalling connection was lost mid-handshake and the handshake
    /// fails. The peer is never published.
    pub fn inbox_closed(&mut self)
        requires
            old(self).wf(),
            old(self).phase is Init || old(self).phase is Trickling,
        ensures
            final(self).wf(),
            final(self).phase == AccepterPhase::Failed(
                HandshakeError::SignallingClosedMidHandshake,
            ),
            final(self).signal_peer == old(self).signal_peer,
            final(self).conn == old(self).conn,
    {
        self.phase = AccepterPhase::Failed(HandshakeError::SignallingClosedMidHandshake);
    }

    /// The platform rejected one of this handshake's operations: the
    /// handshake fails with the platform's diagnostic. The peer is never
    /// published.
    pub fn platform_rejected(&mut self, diagnostic: String)
        requires
            old(self).wf(),
            !(old(self).phase is ChannelOpen),
            !(old(self).phase is Failed),
        ensures
            final(self).wf(),
            final(self).phase == AccepterPhase::Failed(HandshakeError::PlatformRejection(
                diagnostic,
            )),
            final(self).signal_peer == old(self).signal_peer,
            final(self).conn == old(self).conn,
    {
        self.phase = AccepterPhase::Failed(HandshakeError::PlatformRejection(diagnostic));
    }
}

/// A handshake that has reached `ChannelOpen` has its data channels in
/// the `open` state: publishing the peer at that point publishes a live
/// connection.
pub proof fn lemma_channel_open_phase_has_open_channels(hs: AccepterHandshake)
    requires
        hs.wf(),
        hs.phase is ChannelOpen,
    ensures
        hs.conn.channels_open,
{
}

} // verus!
