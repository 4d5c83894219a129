//! The offerer's handshake: this socket learned of a new peer from the
//! signalling service and opens the session. The machine creates the
//! offer, awaits the answer on its inbox, installs descriptions, drains
//! buffered candidates, and terminates when the data channels open.
//!
//! Each step takes one input (a platform result, an inbox signal, a
//! gathered local candidate) and returns the actions the driver performs
//! in order. On success the machine stays alive in `ChannelOpen`: late
//! candidates keep flowing through it for the life of the connection.

use vstd::prelude::*;

use crate::connection::{candidate_init, Connection, IceCandidateInit, SdpType, SessionDescription};
use crate::handshake::{
    applied_inits, candidate_applications, candidate_requests, is_apply_candidate,
    is_candidate_request, HandshakeAction,
};
use crate::messages::{HandshakeError, PeerRequest, PeerSignal};
use crate::signal_peer::SignalPeer;
use crate::trickle::{spec_candidate_request, CandidateTrickle};

verus! {

/// Progress of the offerer's handshake. `OfferSent` covers the wait for
/// the answer; `Trickling` covers the wait for the channels to open while
/// candidates flow; the two last phases are terminal success and failure.
#[derive(Clone, PartialEq, Eq, Debug)]
pub enum OffererPhase {
    Init,
    OfferSent,
    Trickling,
    ChannelOpen,
    Failed(HandshakeError),
}

/// The offerer's handshake state machine for one remote peer.
#[derive(Clone, PartialEq, Eq, Debug)]
pub struct OffererHandshake {
    pub signal_peer: SignalPeer,
    pub conn: Connection,
    pub trickle: CandidateTrickle,
    /// Remote candidates received while awaiting the answer: they cannot
    /// be applied before the remote description is installed.
    pub buffered_remote: Vec<String>,
    pub phase: OffererPhase,
}

impl OffererHandshake {
    /// Well-formedness: what each phase guarantees of the connection and
    /// the buffers.
    pub open spec fn wf(self) -> bool {
        &&& self.trickle.signal_peer == self.signal_peer
        &&& match self.phase {
            OffererPhase::Init => {
                &&& self.conn.local_description is None
                &&& self.conn.remote_description is None
                &&& self.conn.applied_candidates@.len() == 0
                &&& self.trickle.pending@.len() == 0
                &&& self.buffered_remote@.len() == 0
            },
            OffererPhase::OfferSent => {
                &&& self.conn.local_description matches Some(d) && d.kind == SdpType::Offer
                &&& self.conn.remote_description is None
                &&& self.conn.applied_candidates@.len() == 0
            },
            OffererPhase::Trickling | OffererPhase::ChannelOpen => {
                &&& self.conn.local_description matches Some(d) && d.kind == SdpType::Offer
                &&& self.conn.remote_description matches Some(d) && d.kind == SdpType::Answer
                &&& self.trickle.pending@.len() == 0
                &&& self.buffered_remote@.len() == 0
            },
            OffererPhase::Failed(_) => true,
        }
        &&& (self.phase is ChannelOpen ==> self.conn.channels_open)
    }

    /// A fresh handshake for the given peer: no descriptions, nothing
    /// buffered, channels closed.
    pub fn new(signal_peer: SignalPeer) -> (r: OffererHandshake)
        ensures
            r.wf(),
            r.signal_peer == signal_peer,
            r.phase is Init,
            r.conn.local_description is None,
            r.conn.remote_description is None,
            r.conn.applied_candidates@.len() == 0,
            !r.conn.channels_open,
            r.trickle.pending@.len() == 0,
            r.buffered_remote@.len() == 0,
    {
        OffererHandshake {
            signal_peer,
            conn: Connection::new(),
            trickle: CandidateTrickle::new(signal_peer),
            buffered_remote: Vec::new(),
            phase: OffererPhase::Init,
        }
    }

    /// The platform produced the offer. A present SDP is installed as
    /// the local description and shipped to the peer; a missing or
    /// non-string `sdp` field fails the handshake as malformed.
    pub fn offer_created(&mut self, sdp: Option<String>) -> (actions: Vec<HandshakeAction>)
        requires
            old(self).wf(),
            old(self).phase is Init,
        ensures
            final(self).wf(),
            final(self).signal_peer == old(self).signal_peer,
            match sdp {
                Some(s) => {
                    &&& final(self).phase is OfferSent
                    &&& final(self).conn.local_description == Some(
                        SessionDescription { kind: SdpType::Offer, sdp: s },
                    )
                    &&& final(self).conn.remote_description is None
                    &&& final(self).conn.channels_open == old(self).conn.channels_open
                    &&& final(self).trickle == old(self).trickle
                    &&& final(self).buffered_remote == old(self).buffered_remote
                    &&& actions@ == seq![
                        HandshakeAction::SetLocalDescription(
                            SessionDescription { kind: SdpType::Offer, sdp: s },
                        ),
                        HandshakeAction::Send(
                            PeerRequest::Signal {
                                to: old(self).signal_peer.id,
                                data: PeerSignal::Offer(s),
                            },
                        ),
                    ]
                },
                None => {
                    &&& final(self).phase == OffererPhase::Failed(HandshakeError::MalformedSdp)
                    &&& final(self).conn == old(self).conn
                    &&& final(self).trickle == old(self).trickle
                    &&& final(self).buffered_remote == old(self).buffered_remote
                    &&& actions@.len() == 0
                },
            },
    {
        match sdp {
            Some(s) => {
                let desc = SessionDescription { kind: SdpType::Offer, sdp: s.clone() };
                let installed = SessionDescription { kind: SdpType::Offer, sdp: s.clone() };
                self.conn.set_local_description(installed);
                self.phase = OffererPhase::OfferSent;
                let mut actions: Vec<HandshakeAction> = Vec::new();
                actions.push(HandshakeAction::SetLocalDescription(desc));
                actions.push(HandshakeAction::Send(self.signal_peer.request(PeerSignal::Offer(s))));
                actions
            },
            None => {
                self.phase = OffererPhase::Failed(HandshakeError::MalformedSdp);
                Vec::new()
            },
        }
    }

    /// A signal arrived on the handshake inbox while awaiting the answer.
    /// The answer installs the remote description and releases, in order:
    /// the buffered local candidates to the peer, then the buffered
    /// remote candidates to the connection. A candidate arriving early is
    /// buffered; a stray offer is ignored. A candidate is shipped or
    /// applied only after both descriptions are installed, and only at
    /// positions after the install of the remote description.
    pub fn on_signal(&mut self, signal: PeerSignal) -> (actions: Vec<HandshakeAction>)
        requires
            old(self).wf(),
            old(self).phase is OfferSent,
        ensures
            final(self).wf(),
            final(self).signal_peer == old(self).signal_peer,
            match signal {
                PeerSignal::Answer(sdp) => {
                    &&& final(self).phase is Trickling
                    &&& final(self).conn.local_description == old(self).conn.local_description
                    &&& final(self).conn.remote_description == Some(
                        SessionDescription { kind: SdpType::Answer, sdp: sdp },
                    )
                    &&& final(self).conn.channels_open == old(self).conn.channels_open
                    &&& final(self).conn.applied_candidates@ == applied_inits(
                        old(self).buffered_remote@,
                    )
                    &&& final(self).trickle.pending@.len() == 0
                    &&& final(self).buffered_remote@.len() == 0
                    &&& actions@ == seq![
                        HandshakeAction::SetRemoteDescription(
                            SessionDescription { kind: SdpType::Answer, sdp: sdp },
                        ),
                    ] + candidate_requests(old(self).signal_peer, old(self).trickle.pending@)
                        + candidate_applications(old(self).buffered_remote@)
                },
                PeerSignal::IceCandidate(c) => {
                    &&& final(self).phase is OfferSent
                    &&& final(self).conn == old(self).conn
                    &&& final(self).trickle == old(self).trickle
                    &&& final(self).buffered_remote@ == old(self).buffered_remote@.push(c)
                    &&& actions@.len() == 0
                },
                PeerSignal::Offer(_) => {
                    &&& *final(self) == *old(self)
                    &&& actions@.len() == 0
                },
            },
            forall|i: int|
                0 <= i < actions@.len() && is_candidate_request(actions@[i]) ==> {
                    &&& final(self).conn.local_description is Some
                    &&& final(self).conn.remote_description is Some
                    &&& 0 < i
                },
            forall|i: int|
                0 <= i < actions@.len() && is_apply_candidate(actions@[i]) ==> {
                    &&& final(self).conn.remote_description is Some
                    &&& 0 < i
                },
    {
        match signal {
            PeerSignal::Answer(sdp) => {
                let ghost pending0 = self.trickle.pending@;
                let ghost buffered0 = self.buffered_remote@;
                let installed = SessionDescription { kind: SdpType::Answer, sdp: sdp.clone() };
                let announced = SessionDescription { kind: SdpType::Answer, sdp: sdp };
                let ghost d0 = announced;
                self.conn.set_remote_description(installed);
                self.phase = OffererPhase::Trickling;

                let mut actions: Vec<HandshakeAction> = Vec::new();
                actions.push(HandshakeAction::SetRemoteDescription(announced));

                let mut reqs = self.trickle.send_pending_candidates();
                let ghost reqs0 = reqs@;
                let total: usize = reqs.len();
                let mut k: usize = 0;
                while reqs.len() > 0
                    invariant
                        total == reqs0.len(),
                        old(self).wf(),
                        old(self).phase is OfferSent,
                        self.signal_peer == old(self).signal_peer,
                        self.trickle.signal_peer == old(self).signal_peer,
                        self.trickle.pending@.len() == 0,
                        self.buffered_remote@ == buffered0,
                        self.conn.local_description == old(self).conn.local_description,
                        self.conn.remote_description == Some(d0),
                        self.conn.applied_candidates@ == old(self).conn.applied_candidates@,
                        self.conn.channels_open == old(self).conn.channels_open,
                        self.phase is Trickling,
                        k + reqs@.len() == reqs0.len(),
                        reqs@ == reqs0.subrange(k as int, reqs0.len() as int),
                        reqs0.len() == pending0.len(),
                        forall|j: int|
                            0 <= j < reqs0.len() ==> reqs0[j] == spec_candidate_request(
                                old(self).signal_peer,
                                pending0[j],
                            ),
                        actions@.len() == 1 + k,
                        actions@[0] == HandshakeAction::SetRemoteDescription(d0),
                        forall|j: int|
                            0 <= j < k ==> actions@[1 + j] == HandshakeAction::Send(reqs0[j]),
                    decreases reqs@.len(),
                {
                    let r = reqs.remove(0);
                    actions.push(HandshakeAction::Send(r));
                    k = k + 1;
                    proof {
                        assert(reqs@ =~= reqs0.subrange(k as int, reqs0.len() as int));
                    }
                }

                let ghost actions1 = actions@;
                let btotal: usize = self.buffered_remote.len();
                let mut m: usize = 0;
                while self.buffered_remote.len() > 0
                    invariant
                        btotal == buffered0.len(),
                        reqs0.len() == pending0.len(),
                        forall|j: int|
                            0 <= j < reqs0.len() ==> reqs0[j] == spec_candidate_request(
                                old(self).signal_peer,
                                pending0[j],
                            ),
                        actions1.len() == 1 + reqs0.len(),
                        actions1[0] == HandshakeAction::SetRemoteDescription(d0),
                        forall|j: int|
                            0 <= j < reqs0.len() ==> actions1[1 + j] == HandshakeAction::Send(
                                reqs0[j],
                            ),
                        old(self).wf(),
                        old(self).phase is OfferSent,
                        self.signal_peer == old(self).signal_peer,
                        self.trickle.signal_peer == old(self).signal_peer,
                        self.trickle.pending@.len() == 0,
                        self.conn.local_description == old(self).conn.local_description,
                        self.conn.remote_description == Some(d0),
                        self.conn.channels_open == old(self).conn.channels_open,
                        self.phase is Trickling,
                        m + self.buffered_remote@.len() == buffered0.len(),
                        self.buffered_remote@ == buffered0.subrange(
                            m as int,
                            buffered0.len() as int,
                        ),
                        self.conn.applied_candidates@.len() == m,
                        forall|j: int|
                            0 <= j < m ==> self.conn.applied_candidates@[j] == (IceCandidateInit {
                                candidate: buffered0[j],
                                sdp_m_line_index: 0,
                            }),
                        actions@.len() == actions1.len() + m,
                        forall|j: int| 0 <= j < actions1.len() ==> actions@[j] == actions1[j],
                        forall|j: int|
                            0 <= j < m ==> actions@[actions1.len() + j]
                                == HandshakeAction::AddIceCandidate(
                                IceCandidateInit { candidate: buffered0[j], sdp_m_line_index: 0 },
                            ),
                    decreases self.buffered_remote@.len(),
                {
                    let c = self.buffered_remote.remove(0);
                    let init = candidate_init(c);
                    let announced_init = IceCandidateInit {
                        candidate: init.candidate.clone(),
                        sdp_m_line_index: init.sdp_m_line_index,
                    };
                    self.conn.apply_remote_candidate(init);
                    actions.push(HandshakeAction::AddIceCandidate(announced_init));
                    m = m + 1;
                    proof {
                        assert(self.buffered_remote@ =~= buffered0.subrange(
                            m as int,
                            buffered0.len() as int,
                        ));
                    }
                }

                proof {
                    let rhs = seq![HandshakeAction::SetRemoteDescription(d0)]
                        + candidate_requests(old(self).signal_peer, pending0)
                        + candidate_applications(buffered0);
                    assert(candidate_requests(old(self).signal_peer, pending0).len()
                        == pending0.len());
                    assert(candidate_applications(buffered0).len() == buffered0.len());
                    assert forall|i: int| 0 <= i < actions@.len() implies actions@[i] == rhs[i] by {
                        if i == 0 {
                        } else if i <= reqs0.len() {
                            assert(actions1[1 + (i - 1)] == HandshakeAction::Send(reqs0[i - 1]));
                            assert(actions@[i] == actions1[i]);
                        } else {
                            let j = i - 1 - reqs0.len();
                            assert(actions@[actions1.len() + j]
                                == HandshakeAction::AddIceCandidate(
                                IceCandidateInit { candidate: buffered0[j], sdp_m_line_index: 0 },
                            ));
                        }
                    }
                    assert(actions@ =~= rhs);
                    assert(self.conn.applied_candidates@ =~= applied_inits(buffered0));
                }
                actions
            },
            PeerSignal::IceCandidate(c) => {
                self.buffered_remote.push(c);
                Vec::new()
            },
            PeerSignal::Offer(_) => Vec::new(),
        }
    }

    /// The platform gathered a local candidate (`None` marks the end of
    /// gathering and is ignored). Candidates exist only once the local
    /// description is installed; the trickle forwards the candidate at
    /// once if the remote description is installed too, and buffers it
    /// otherwise. A request is thus emitted only with both descriptions
    /// installed.
    pub fn on_local_candidate(&mut self, candidate: Option<String>) -> (actions: Vec<
        HandshakeAction,
    >)
        requires
            old(self).wf(),
            old(self).phase is OfferSent || old(self).phase is Trickling || old(
                self,
            ).phase is ChannelOpen,
        ensures
            final(self).wf(),
            final(self).signal_peer == old(self).signal_peer,
            final(self).phase == old(self).phase,
            final(self).conn == old(self).conn,
            final(self).buffered_remote == old(self).buffered_remote,
            match candidate {
                Some(c) => {
                    &&& old(self).conn.remote_description is Some ==> {
                        &&& actions@ == seq![
                            HandshakeAction::Send(
                                spec_candidate_request(old(self).signal_peer, c),
                            ),
                        ]
                        &&& final(self).trickle == old(self).trickle
                    }
                    &&& old(self).conn.remote_description is None ==> {
                        &&& actions@.len() == 0
                        &&& final(self).trickle.pending@ == old(self).trickle.pending@.push(c)
                    }
                },
                None => {
                    &&& actions@.len() == 0
                    &&& final(self).trickle == old(self).trickle
                },
            },
            forall|i: int|
                0 <= i < actions@.len() && is_candidate_request(actions@[i]) ==> {
                    &&& old(self).conn.local_description is Some
                    &&& old(self).conn.remote_description is Some
                },
    {
        match candidate {
            Some(c) => {
                let req = self.trickle.on_local_candidate(&self.conn, c);
                match req {
                    Some(r) => {
                        let mut actions: Vec<HandshakeAction> = Vec::new();
                        actions.push(HandshakeAction::Send(r));
                        actions
                    },
                    None => Vec::new(),
                }
            },
            None => Vec::new(),
        }
    }

    /// A signal arrived on the inbox after the SDP exchange: the
    /// remote-candidate listener applies candidates and ignores stray
    /// offers and answers. The remote description is installed in these
    /// phases, so no candidate is applied before it.
    pub fn on_remote_signal(&mut self, signal: PeerSignal) -> (actions: Vec<HandshakeAction>)
        requires
            old(self).wf(),
            old(self).phase is Trickling || old(self).phase is ChannelOpen,
        ensures
            final(self).wf(),
            final(self).signal_peer == old(self).signal_peer,
            final(self).phase == old(self).phase,
            final(self).trickle == old(self).trickle,
            final(self).buffered_remote == old(self).buffered_remote,
            final(self).conn.local_description == old(self).conn.local_description,
            final(self).conn.remote_description == old(self).conn.remote_description,
            final(self).conn.channels_open == old(self).conn.channels_open,
            match signal {
                PeerSignal::IceCandidate(c) => {
                    &&& actions@ == seq![
                        HandshakeAction::AddIceCandidate(
                            IceCandidateInit { candidate: c, sdp_m_line_index: 0 },
                        ),
                    ]
                    &&& final(self).conn.applied_candidates@ == old(
                        self,
                    ).conn.applied_candidates@.push(
                        IceCandidateInit { candidate: c, sdp_m_line_index: 0 },
                    )
                },
                _ => {
                    &&& actions@.len() == 0
                    &&& final(self).conn == old(self).conn
                },
            },
            forall|i: int|
                0 <= i < actions@.len() && is_apply_candidate(actions@[i])
                    ==> final(self).conn.remote_description is Some,
    {
        let applied = CandidateTrickle::apply_remote_signal(&mut self.conn, signal);
        match applied {
            Some(init) => {
                let mut actions: Vec<HandshakeAction> = Vec::new();
                actions.push(HandshakeAction::AddIceCandidate(init));
                actions
            },
            None => Vec::new(),
        }
    }

    /// The channel-ready notifier fired: the data channels are open and
    /// the handshake succeeds. The peer may be published from here on.
    pub fn channel_open(&mut self)
        requires
            old(self).wf(),
            old(self).phase is Trickling,
        ensures
            final(self).wf(),
            final(self).signal_peer == old(self).signal_peer,
            final(self).phase is ChannelOpen,
            final(self).conn.channels_open,
            final(self).conn.local_description == old(self).conn.local_description,
            final(self).conn.remote_description == old(self).conn.remote_description,
            final(self).conn.applied_candidates == old(self).conn.applied_candidates,
            final(self).trickle == old(self).trickle,
    {
        self.conn.mark_channels_open();
        self.phase = OffererPhase::ChannelOpen;
    }

    /// The handshake inbox closed before the handshake finished: the
    /// signalling connection was lost mid-handshake and the handshake
    /// fails. The peer is never published.
    pub fn inbox_closed(&mut self)
        requires
            old(self).wf(),
            old(self).phase is OfferSent || old(self).phase is Trickling,
        ensures
            final(self).wf(),
            final(self).phase == OffererPhase::Failed(
                HandshakeError::SignallingClosedMidHandshake,
            ),
            final(self).signal_peer == old(self).signal_peer,
            final(self).conn == old(self).conn,
    {
        self.phase = OffererPhase::Failed(HandshakeError::SignallingClosedMidHandshake);
    }

    /// The platform rejected one of this handshake's operations: the
    /// handshake fails with the platform's diagnostic. The peer is never
    /// published.
    pub fn platform_rejected(&mut self, diagnostic: String)
        requires
            old(self).wf(),
            !(old(self).phase is ChannelOpen),
            !(old(self).phase is Failed),
        ensures
            final(self).wf(),
            final(self).phase == OffererPhase::Failed(HandshakeError::PlatformRejection(
                diagnostic,
            )),
            final(self).signal_peer == old(self).signal_peer,
            final(self).conn == old(self).conn,
    {
        self.phase = OffererPhase::Failed(HandshakeError::PlatformRejection(diagnostic));
    }
}

/// A handshake that has reached `ChannelOpen` has its data channels in
/// the `open` state: publishing the peer at that point publishes a live
/// connection.
pub proof fn lemma_channel_open_phase_has_open_channels(hs: OffererHandshake)
    requires
        hs.wf(),
        hs.phase is ChannelOpen,
    ensures
        hs.conn.channels_open,
{
}

} // verus!
