//! A thin addressed sender: a remote peer identity whose signals are wrapped
//! into requests for the shared outbound queue of the signalling writer.
//! The queue itself is an I/O edge and lives outside the library; every
//! step function of the core returns the requests to enqueue as values.

use vstd::prelude::*;

use crate::messages::{PeerId, PeerRequest, PeerSignal};

verus! {

/// The addressed half of the signalling writer for one remote peer.
#[derive(Clone, Copy, PartialEq, Eq, Structural, Debug)]
pub struct SignalPeer {
    pub id: PeerId,
}

impl SignalPeer {
    pub fn new(id: PeerId) -> (r: SignalPeer)
        ensures
            r.id == id,
    {
        SignalPeer { id }
    }

    /// Wraps a signal destined for this peer into the request that the
    /// signalling writer relays verbatim. Enqueueing the result is the
    /// caller's single obligation; failure to enqueue is a fatal
    /// signalling-layer error.
    pub fn request(&self, signal: PeerSignal) -> (r: PeerRequest)
        ensures
            r == (PeerRequest::Signal { to: self.id, data: signal }),
    {
        PeerRequest::Signal { to: self.id, data: signal }
    }
}

} // verus!
