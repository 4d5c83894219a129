//! Per-connection candidate trickle: reconciles locally gathered ICE
//! candidates, which the platform can produce before the remote
//! description exists, with the protocol rule that a local candidate is
//! only transmitted once the remote description has been installed. Also
//! applies remote candidates drained from the signalling side.
//!
//! Candidates are produced as side effects of installing the local
//! description, but the local stack does not know when the remote SDP
//! arrives; the `pending` buffer absorbs that skew.

use vstd::prelude::*;

use crate::connection::{candidate_init, Connection, IceCandidateInit};
use crate::messages::{PeerRequest, PeerSignal};
use crate::signal_peer::SignalPeer;

verus! {

/// Buffer and forwarder of one connection's local candidates.
#[derive(Clone, PartialEq, Eq, Debug)]
pub struct CandidateTrickle {
    pub signal_peer: SignalPeer,
    /// Local candidate lines gathered before the remote description was
    /// installed, in gathering order.
    pub pending: Vec<String>,
}

/// The request that ships one local candidate line to the remote peer.
pub open spec fn spec_candidate_request(peer: SignalPeer, candidate: String) -> PeerRequest {
    PeerRequest::Signal { to: peer.id, data: PeerSignal::IceCandidate(candidate) }
}

impl CandidateTrickle {
    pub fn new(signal_peer: SignalPeer) -> (r: CandidateTrickle)
        ensures
            r.signal_peer == signal_peer,
            r.pending@ == Seq::<String>::empty(),
    {
        CandidateTrickle { signal_peer, pending: Vec::new() }
    }

    /// A local candidate was gathered. If the remote description of the
    /// connection is already installed the candidate is forwarded at once
    /// as the request to enqueue; otherwise it is buffered until
    /// `send_pending_candidates` drains the buffer.
    pub fn on_local_candidate(&mut self, conn: &Connection, candidate: String) -> (r: Option<
        PeerRequest,
    >)
        ensures
            final(self).signal_peer == old(self).signal_peer,
            conn.remote_description is Some ==> {
                &&& r == Some(spec_candidate_request(old(self).signal_peer, candidate))
                &&& final(self).pending == old(self).pending
            },
            conn.remote_description is None ==> {
                &&& r is None
                &&& final(self).pending@ == old(self).pending@.push(candidate)
            },
    {
        if conn.remote_description.is_some() {
            Some(self.signal_peer.request(PeerSignal::IceCandidate(candidate)))
        } else {
            self.pending.push(candidate);
            None
        }
    }

    /// Atomically drains the buffer and emits each buffered candidate in
    /// drain order. Called exactly once, immediately after both
    /// descriptions of the connection have been installed.
    pub fn send_pending_candidates(&mut self) -> (r: Vec<PeerRequest>)
        ensures
            final(self).signal_peer == old(self).signal_peer,
            final(self).pending@ == Seq::<String>::empty(),
            r@.len() == old(self).pending@.len(),
            forall|i: int|
                0 <= i < r@.len() ==> r@[i] == spec_candidate_request(
                    old(self).signal_peer,
                    old(self).pending@[i],
                ),
    {
        let mut out: Vec<PeerRequest> = Vec::new();
        let n = self.pending.len();
        let mut i: usize = 0;
        while i < n
            invariant
                self == old(self),
                n == self.pending@.len(),
                i <= n,
                out@.len() == i as int,
                forall|j: int|
                    0 <= j < i as int ==> out@[j] == spec_candidate_request(
                        self.signal_peer,
                        self.pending@[j],
                    ),
            decreases n - i,
        {
            let candidate = self.pending[i].clone();
            let req = self.signal_peer.request(PeerSignal::IceCandidate(candidate));
            out.push(req);
            i += 1;
        }
        self.pending = Vec::new();
        assert(self.pending@ =~= Seq::<String>::empty());
        out
    }

    /// One step of the remote-candidate listener that consumes the
    /// handshake inbox after the SDP exchange: a candidate signal is
    /// wrapped with media-line index 0 and applied to the connection;
    /// a stray Offer or Answer is ignored. The remote description is
    /// already installed when this listener runs, so a candidate is
    /// never applied before it.
    pub fn apply_remote_signal(conn: &mut Connection, signal: PeerSignal) -> (applied: Option<
        IceCandidateInit,
    >)
        requires
            old(conn).remote_description is Some,
        ensures
            final(conn).local_description == old(conn).local_description,
            final(conn).remote_description == old(conn).remote_description,
            final(conn).channels_open == old(conn).channels_open,
            match signal {
                PeerSignal::IceCandidate(c) => {
                    &&& applied == Some(IceCandidateInit { candidate: c, sdp_m_line_index: 0 })
                    &&& final(conn).applied_candidates@ == old(conn).applied_candidates@.push(
                        applied.unwrap(),
                    )
                },
                _ => {
                    &&& applied is None
                    &&& final(conn).applied_candidates == old(conn).applied_candidates
                },
            },
    {
        match signal {
            PeerSignal::IceCandidate(c) => {
                let init = candidate_init(c);
                let returned = IceCandidateInit {
                    candidate: init.candidate.clone(),
                    sdp_m_line_index: init.sdp_m_line_index,
                };
                conn.apply_remote_candidate(init);
                Some(returned)
            },
            _ => None,
        }
    }
}

} // verus!
