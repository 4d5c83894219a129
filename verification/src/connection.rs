//! Model of one platform WebRTC session, holding exactly what the core
//! reads of it: which session descriptions have been installed, which
//! remote candidates have been applied, and whether the data channels
//! have reached the `open` state. The platform object itself lives
//! outside the library; the loop that drives a handshake keeps this
//! model in step with the platform calls it performs.

use vstd::prelude::*;

verus! {

/// The role of a session description in the Offer/Answer exchange.
#[derive(Clone, Copy, PartialEq, Eq, Structural, Debug)]
pub enum SdpType {
    Offer,
    Answer,
}

/// A session description: its role and the raw SDP body, exchanged
/// exactly as the platform produced it.
#[derive(Clone, PartialEq, Eq, Debug)]
pub struct SessionDescription {
    pub kind: SdpType,
    pub sdp: String,
}

/// A remote ICE candidate prepared for application: the textual
/// `candidate:` line wrapped with the media-line index. Only the line
/// itself travels over signalling; the receiving side always applies it
/// to the first (and only) media section.
#[derive(Clone, PartialEq, Eq, Debug)]
pub struct IceCandidateInit {
    pub candidate: String,
    pub sdp_m_line_index: u16,
}

/// Wraps a received candidate line for application to a connection,
/// with the media-line index pinned to 0. `sdpMid` and
/// `usernameFragment` are not propagated.
pub fn candidate_init(candidate: String) -> (r: IceCandidateInit)
    ensures
        r.candidate == candidate,
        r.sdp_m_line_index == 0,
{
    IceCandidateInit { candidate, sdp_m_line_index: 0 }
}

/// What the core knows of one peer connection.
#[derive(Clone, PartialEq, Eq, Debug)]
pub struct Connection {
    pub local_description: Option<SessionDescription>,
    pub remote_description: Option<SessionDescription>,
    /// Remote candidates applied to this connection, in application order.
    pub applied_candidates: Vec<IceCandidateInit>,
    /// Whether the channel-ready notifier has fired: the data channel(s)
    /// of this connection have reached the `open` state.
    pub channels_open: bool,
}

impl Connection {
    /// A fresh connection: no descriptions, no applied candidates,
    /// channels not yet open.
    pub fn new() -> (r: Connection)
        ensures
            r.local_description is None,
            r.remote_description is None,
            r.applied_candidates@ == Seq::<IceCandidateInit>::empty(),
            !r.channels_open,
    {
        Connection {
            local_description: None,
            remote_description: None,
            applied_candidates: Vec::new(),
            channels_open: false,
        }
    }

    /// Records that the local description has been installed. Done once
    /// per handshake, with the SDP the platform produced.
    pub fn set_local_description(&mut self, desc: SessionDescription)
        requires
            old(self).local_description is None,
        ensures
            final(self).local_description == Some(desc),
            final(self).remote_description == old(self).remote_description,
            final(self).applied_candidates == old(self).applied_candidates,
            final(self).channels_open == old(self).channels_open,
    {
        self.local_description = Some(desc);
    }

    /// Records that the remote description has been installed. Done once
    /// per handshake, with the SDP the peer sent.
    pub fn set_remote_description(&mut self, desc: SessionDescription)
        requires
            old(self).remote_description is None,
        ensures
            final(self).remote_description == Some(desc),
            final(self).local_description == old(self).local_description,
            final(self).applied_candidates == old(self).applied_candidates,
            final(self).channels_open == old(self).channels_open,
    {
        self.remote_description = Some(desc);
    }

    /// Records the application of a remote candidate. A remote candidate
    /// is never applied before the remote description is set.
    pub fn apply_remote_candidate(&mut self, init: IceCandidateInit)
        requires
            old(self).remote_description is Some,
        ensures
            final(self).applied_candidates@ == old(self).applied_candidates@.push(init),
            final(self).local_description == old(self).local_description,
            final(self).remote_description == old(self).remote_description,
            final(self).channels_open == old(self).channels_open,
    {
        self.applied_candidates.push(init);
    }

    /// Records that the channel-ready notifier fired: the data channel(s)
    /// are open.
    pub fn mark_channels_open(&mut self)
        ensures
            final(self).channels_open,
            final(self).local_description == old(self).local_description,
            final(self).remote_description == old(self).remote_description,
            final(self).applied_candidates == old(self).applied_candidates,
    {
        self.channels_open = true;
    }
}

} // verus!
