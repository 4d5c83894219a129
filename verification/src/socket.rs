//! The message loop's decision core: the owning coordinator of one
//! socket. It tracks, per peer, whether a handshake is in flight or a
//! channel is established, and turns each of the loop's inputs — the
//! keep-alive timer, a handshake completion, the end of a trickle
//! listener, a signalling event, an outbound application message — into
//! the actions the loop performs: requests to the signalling writer,
//! handshakes to spawn, signals to forward into handshake inboxes, peers
//! to publish, packets to send, or the exit of the loop.
//!
//! Within the loop no two steps run concurrently: each event is applied
//! in full before the next.

use vstd::prelude::*;

use crate::data_channel::spec_inbound_packet;
use crate::messages::{Channel, Packet, PeerEvent, PeerId, PeerRequest, PeerSignal};

verus! {

/// What the socket holds of one peer: exactly one of a handshake in
/// flight (as offerer or accepter) or an established channel.
#[derive(Clone, Copy, PartialEq, Eq, Structural, Debug)]
pub enum PeerSlot {
    Offering,
    Accepting,
    Connected,
}

/// Why the message loop exits.
#[derive(Clone, Copy, PartialEq, Eq, Structural, Debug)]
pub enum ExitReason {
    /// The inbound signalling event stream ended: signalling is lost and
    /// the whole socket terminates.
    SignallingGone,
    /// A remote-candidate listener returned while its session was live:
    /// fatal to the socket.
    TrickleEnded,
    /// The application dropped its outbound sink: the socket shuts down
    /// cleanly.
    ApplicationClosed,
}

/// One action the loop must perform after a step.
#[derive(Clone, PartialEq, Eq, Debug)]
pub enum LoopAction {
    /// Enqueue this request for the signalling writer.
    Send(PeerRequest),
    /// Create an inbox and spawn an offerer handshake for this peer.
    SpawnOfferer(PeerId),
    /// Create an inbox and spawn an accepter handshake for this peer.
    SpawnAccepter(PeerId),
    /// Forward this signal into the peer's handshake inbox.
    Forward { to: PeerId, signal: PeerSignal },
    /// Publish this peer on the connected-peers stream.
    Publish(PeerId),
    /// Send this packet on the peer's data channel of this profile.
    SendPacket { peer: PeerId, channel: Channel, packet: Packet },
    /// Leave the message loop.
    Exit(ExitReason),
}

/// The per-peer bookkeeping of the message loop.
#[derive(Clone, PartialEq, Eq, Debug)]
pub struct SocketState {
    /// One entry per known peer, with its single slot.
    pub peers: Vec<(PeerId, PeerSlot)>,
}

/// The actions of one outbound application message: exactly one send,
/// to exactly the addressed peer, with exactly the given payload.
pub open spec fn spec_outbound_actions(peer: PeerId, channel: Channel, packet: Packet) -> Seq<
    LoopAction,
> {
    seq![LoopAction::SendPacket { peer, channel, packet }]
}

impl SocketState {
    /// Whether the socket knows this peer (handshake in flight or
    /// channel established).
    pub open spec fn contains_peer(self, p: PeerId) -> bool {
        exists|i: int| 0 <= i < self.peers@.len() && self.peers@[i].0 == p
    }

    /// The index of this peer's entry; meaningful when the peer is known
    /// and the state is well formed.
    pub open spec fn index_of(self, p: PeerId) -> int {
        choose|i: int| 0 <= i < self.peers@.len() && self.peers@[i].0 == p
    }

    /// This peer's slot; meaningful when the peer is known.
    pub open spec fn slot_of(self, p: PeerId) -> PeerSlot {
        self.peers@[self.index_of(p)].1
    }

    /// Well-formedness: one entry per peer.
    pub open spec fn wf(self) -> bool {
        forall|i: int, j: int|
            0 <= i < j < self.peers@.len() ==> self.peers@[i].0 != self.peers@[j].0
    }

    /// A fresh socket: no peers known.
    pub fn new() -> (r: SocketState)
        ensures
            r.wf(),
            r.peers@.len() == 0,
    {
        SocketState { peers: Vec::new() }
    }

    /// The first request after connecting: binds this socket to its
    /// identifier at the signalling server.
    pub fn startup_request(id: PeerId) -> (r: PeerRequest)
        ensures
            r == PeerRequest::Uuid(id),
    {
        PeerRequest::Uuid(id)
    }

    /// The request emitted each time the keep-alive timer fires.
    pub fn keep_alive_request() -> (r: PeerRequest)
        ensures
            r == PeerRequest::KeepAlive,
    {
        PeerRequest::KeepAlive
    }

    fn find_peer(&self, p: PeerId) -> (r: Option<usize>)
        ensures
            match r {
                Some(i) => 0 <= i < self.peers@.len() && self.peers@[i as int].0 == p,
                None => !self.contains_peer(p),
            },
    {
        let mut i: usize = 0;
        while i < self.peers.len()
            invariant
                i <= self.peers@.len(),
                forall|j: int| 0 <= j < i ==> self.peers@[j].0 != p,
            decreases self.peers@.len() - i,
        {
            if self.peers[i].0 == p {
                return Some(i);
            }
            i = i + 1;
        }
        None
    }

    /// An event arrived from the signalling service, or the event stream
    /// ended (`None`).
    ///
    /// `NewPeer` marks this socket as the offerer: the peer gets an
    /// offerer slot and an offerer handshake is spawned. A `Signal` from
    /// an unknown peer means the peer offered first: an accepter slot and
    /// handshake are created and the signal is forwarded; a signal for a
    /// handshake in flight is forwarded to its inbox; a signal for an
    /// already connected peer is ignored (the handshake is done and its
    /// inbox is gone). The end of the stream exits the socket.
    pub fn on_peer_event(&mut self, event: Option<PeerEvent>) -> (actions: Vec<LoopAction>)
        requires
            old(self).wf(),
        ensures
            final(self).wf(),
            match event {
                None => {
                    &&& *final(self) == *old(self)
                    &&& actions@ == seq![LoopAction::Exit(ExitReason::SignallingGone)]
                },
                Some(PeerEvent::NewPeer(p)) => {
                    &&& final(self).contains_peer(p)
                    &&& final(self).slot_of(p) == PeerSlot::Offering
                    &&& forall|q: PeerId|
                        q != p ==> (final(self).contains_peer(q) <==> old(self).contains_peer(q))
                    &&& forall|q: PeerId|
                        q != p && old(self).contains_peer(q) ==> final(self).slot_of(q) == old(
                            self,
                        ).slot_of(q)
                    &&& actions@ == seq![LoopAction::SpawnOfferer(p)]
                },
                Some(PeerEvent::Signal { sender, data }) => {
                    &&& !old(self).contains_peer(sender) ==> {
                        &&& final(self).contains_peer(sender)
                        &&& final(self).slot_of(sender) == PeerSlot::Accepting
                        &&& forall|q: PeerId|
                            q != sender ==> (final(self).contains_peer(q) <==> old(
                                self,
                            ).contains_peer(q))
                        &&& forall|q: PeerId|
                            q != sender && old(self).contains_peer(q) ==> final(self).slot_of(q)
                                == old(self).slot_of(q)
                        &&& actions@ == seq![
                            LoopAction::SpawnAccepter(sender),
                            LoopAction::Forward { to: sender, signal: data },
                        ]
                    }
                    &&& (old(self).contains_peer(sender) && old(self).slot_of(sender)
                        != PeerSlot::Connected) ==> {
                        &&& *final(self) == *old(self)
                        &&& actions@ == seq![LoopAction::Forward { to: sender, signal: data }]
                    }
                    &&& (old(self).contains_peer(sender) && old(self).slot_of(sender)
                        == PeerSlot::Connected) ==> {
                        &&& *final(self) == *old(self)
                        &&& actions@.len() == 0
                    }
                },
            },
    {
        match event {
            None => {
                let mut actions: Vec<LoopAction> = Vec::new();
                actions.push(LoopAction::Exit(ExitReason::SignallingGone));
                actions
            },
            Some(PeerEvent::NewPeer(p)) => {
                self.set_slot(p, PeerSlot::Offering);
                let mut actions: Vec<LoopAction> = Vec::new();
                actions.push(LoopAction::SpawnOfferer(p));
                actions
            },
            Some(PeerEvent::Signal { sender, data }) => {
                match self.find_peer(sender) {
                    None => {
                        self.set_slot(sender, PeerSlot::Accepting);
                        let mut actions: Vec<LoopAction> = Vec::new();
                        actions.push(LoopAction::SpawnAccepter(sender));
                        actions.push(LoopAction::Forward { to: sender, signal: data });
                        actions
                    },
                    Some(i) => {
                        proof {
                            lemma_found_index_is_index_of(*self, sender, i as int);
                        }
                        let slot = self.peers[i].1;
                        if slot == PeerSlot::Connected {
                            Vec::new()
                        } else {
                            let mut actions: Vec<LoopAction> = Vec::new();
                            actions.push(LoopAction::Forward { to: sender, signal: data });
                            actions
                        }
                    },
                }
            },
        }
    }

    /// Gives the peer this slot: updates its entry, or appends one if
    /// the peer is unknown.
    fn set_slot(&mut self, p: PeerId, slot: PeerSlot)
        requires
            old(self).wf(),
        ensures
            final(self).wf(),
            final(self).contains_peer(p),
            final(self).slot_of(p) == slot,
            forall|q: PeerId|
                q != p ==> (final(self).contains_peer(q) <==> old(self).contains_peer(q)),
            forall|q: PeerId|
                q != p && old(self).contains_peer(q) ==> final(self).slot_of(q) == old(
                    self,
                ).slot_of(q),
    {
        match self.find_peer(p) {
            Some(i) => {
                self.peers[i] = (p, slot);
                proof {
                    lemma_slot_agreement_after_update(*old(self), *self, p, slot, i as int);
                }
            },
            None => {
                self.peers.push((p, slot));
                proof {
                    lemma_slot_agreement_after_push(*old(self), *self, p, slot);
                }
            },
        }
    }

    /// A spawned handshake finished. On success the peer's slot becomes
    /// `Connected` and the peer is published — exactly then, so a
    /// published peer always has an established channel. On failure the
    /// entry is dropped and nothing is published; other peers are
    /// untouched either way.
    pub fn on_handshake_result(&mut self, peer: PeerId, success: bool) -> (actions: Vec<
        LoopAction,
    >)
        requires
            old(self).wf(),
            old(self).contains_peer(peer),
            old(self).slot_of(peer) == PeerSlot::Offering || old(self).slot_of(peer)
                == PeerSlot::Accepting,
        ensures
            final(self).wf(),
            success ==> {
                &&& final(self).contains_peer(peer)
                &&& final(self).slot_of(peer) == PeerSlot::Connected
                &&& actions@ == seq![LoopAction::Publish(peer)]
            },
            !success ==> {
                &&& !final(self).contains_peer(peer)
                &&& actions@.len() == 0
            },
            forall|q: PeerId|
                q != peer ==> (final(self).contains_peer(q) <==> old(self).contains_peer(q)),
            forall|q: PeerId|
                q != peer && old(self).contains_peer(q) ==> final(self).slot_of(q) == old(
                    self,
                ).slot_of(q),
    {
        if success {
            self.set_slot(peer, PeerSlot::Connected);
            let mut actions: Vec<LoopAction> = Vec::new();
            actions.push(LoopAction::Publish(peer));
            actions
        } else {
            match self.find_peer(peer) {
                Some(i) => {
                    self.peers.remove(i);
                    proof {
                        lemma_slot_agreement_after_remove(*old(self), *self, peer, i as int);
                    }
                    Vec::new()
                },
                None => Vec::new(),
            }
        }
    }

    /// An outbound application message, or the end of the application's
    /// outbound stream (`None`). A message is turned into exactly one
    /// send on the addressed peer's channel of the requested profile;
    /// the addressed peer must be connected. The end of the stream exits
    /// the socket cleanly.
    pub fn on_outbound_message(&self, message: Option<(PeerId, Channel, Packet)>) -> (actions: Vec<
        LoopAction,
    >)
        requires
            self.wf(),
            match message {
                Some((p, _, _)) => self.contains_peer(p) && self.slot_of(p) == PeerSlot::Connected,
                None => true,
            },
        ensures
            match message {
                Some((p, c, b)) => actions@ == spec_outbound_actions(p, c, b),
                None => actions@ == seq![LoopAction::Exit(ExitReason::ApplicationClosed)],
            },
    {
        match message {
            Some((p, c, b)) => {
                let mut actions: Vec<LoopAction> = Vec::new();
                actions.push(LoopAction::SendPacket { peer: p, channel: c, packet: b });
                actions
            },
            None => {
                let mut actions: Vec<LoopAction> = Vec::new();
                actions.push(LoopAction::Exit(ExitReason::ApplicationClosed));
                actions
            },
        }
    }

    /// Publishing a newly connected peer failed: the application dropped
    /// the consumer of the connected-peers stream, which signals
    /// shutdown; the loop exits cleanly.
    pub fn on_publish_failed(&self) -> (actions: Vec<LoopAction>)
        ensures
            actions@ == seq![LoopAction::Exit(ExitReason::ApplicationClosed)],
    {
        let mut actions: Vec<LoopAction> = Vec::new();
        actions.push(LoopAction::Exit(ExitReason::ApplicationClosed));
        actions
    }

    /// A remote-candidate listener completed while its session was live:
    /// treated as signalling failure, fatal to the socket.
    pub fn on_trickle_ended(&self) -> (actions: Vec<LoopAction>)
        ensures
            actions@ == seq![LoopAction::Exit(ExitReason::TrickleEnded)],
    {
        let mut actions: Vec<LoopAction> = Vec::new();
        actions.push(LoopAction::Exit(ExitReason::TrickleEnded));
        actions
    }
}

/// Picks the endpoint of a channel pair for the requested profile.
pub fn select_data_channel<'a, T>(unreliable: &'a T, reliable: &'a T, channel: Channel) -> (r:
    &'a T)
    ensures
        channel is Reliable ==> r == reliable,
        channel is Unreliable ==> r == unreliable,
{
    if channel == Channel::Reliable {
        reliable
    } else {
        unreliable
    }
}

/// In a well-formed socket a peer has at most one entry: at most one of
/// "handshake in flight" and "channel established" holds per peer at any
/// time.
pub proof fn lemma_at_most_one_slot_per_peer(s: SocketState, p: PeerId, i: int, j: int)
    requires
        s.wf(),
        0 <= i < s.peers@.len(),
        0 <= j < s.peers@.len(),
        s.peers@[i].0 == p,
        s.peers@[j].0 == p,
    ensures
        i == j,
{
}

/// Round trip of one packet, transport fidelity assumed: the sending
/// loop emits exactly one send of the packet to the addressed peer, and
/// a payload the transport delivers intact surfaces on the receiving
/// side as exactly one inbound message carrying the same bytes. Loss by
/// the unreliable profile happens in the transport, outside this model.
pub proof fn lemma_packet_round_trip(
    from: PeerId,
    to: PeerId,
    channel: Channel,
    packet: Packet,
    delivered: Vec<u8>,
)
    requires
        delivered@ == packet@,
    ensures
        spec_outbound_actions(to, channel, packet).len() == 1,
        spec_outbound_actions(to, channel, packet)[0] == (LoopAction::SendPacket {
            peer: to,
            channel,
            packet,
        }),
        spec_inbound_packet(from, channel, Some(delivered)) matches Some((p, c, b)) && p == from
            && c == channel && b@ == packet@,
{
}

proof fn lemma_found_index_is_index_of(s: SocketState, p: PeerId, i: int)
    requires
        s.wf(),
        0 <= i < s.peers@.len(),
        s.peers@[i].0 == p,
    ensures
        s.contains_peer(p),
        s.index_of(p) == i,
        s.slot_of(p) == s.peers@[i].1,
{
    assert(s.contains_peer(p));
    let j = s.index_of(p);
    lemma_at_most_one_slot_per_peer(s, p, i, j);
}

proof fn lemma_slot_agreement_after_update(
    pre: SocketState,
    post: SocketState,
    p: PeerId,
    slot: PeerSlot,
    i: int,
)
    requires
        pre.wf(),
        0 <= i < pre.peers@.len(),
        pre.peers@[i].0 == p,
        post.peers@ == pre.peers@.update(i, (p, slot)),
    ensures
        post.wf(),
        post.contains_peer(p),
        post.slot_of(p) == slot,
        forall|q: PeerId| q != p ==> (post.contains_peer(q) <==> pre.contains_peer(q)),
        forall|q: PeerId|
            q != p && pre.contains_peer(q) ==> post.slot_of(q) == pre.slot_of(q),
{
    assert(post.wf());
    lemma_found_index_is_index_of(post, p, i);
    assert forall|q: PeerId| q != p implies (post.contains_peer(q) <==> pre.contains_peer(
        q,
    )) by {
        if pre.contains_peer(q) {
            let j = pre.index_of(q);
            assert(post.peers@[j].0 == q);
        }
        if post.contains_peer(q) {
            let j = post.index_of(q);
            assert(pre.peers@[j].0 == q);
        }
    }
    assert forall|q: PeerId| q != p && pre.contains_peer(q) implies post.slot_of(q)
        == pre.slot_of(q) by {
        let j = pre.index_of(q);
        assert(pre.peers@[j].0 == q);
        assert(j != i);
        assert(post.peers@[j] == pre.peers@[j]);
        lemma_found_index_is_index_of(post, q, j);
        lemma_found_index_is_index_of(pre, q, j);
    }
}

proof fn lemma_slot_agreement_after_push(
    pre: SocketState,
    post: SocketState,
    p: PeerId,
    slot: PeerSlot,
)
    requires
        pre.wf(),
        !pre.contains_peer(p),
        post.peers@ == pre.peers@.push((p, slot)),
    ensures
        post.wf(),
        post.contains_peer(p),
        post.slot_of(p) == slot,
        forall|q: PeerId| q != p ==> (post.contains_peer(q) <==> pre.contains_peer(q)),
        forall|q: PeerId|
            q != p && pre.contains_peer(q) ==> post.slot_of(q) == pre.slot_of(q),
{
    let n = pre.peers@.len() as int;
    assert forall|i: int, j: int|
        0 <= i < j < post.peers@.len() implies post.peers@[i].0 != post.peers@[j].0 by {
        if j < n {
        } else {
            assert(post.peers@[j].0 == p);
            assert(post.peers@[i] == pre.peers@[i]);
            assert(pre.peers@[i].0 != p) by {
                if pre.peers@[i].0 == p {
                    assert(pre.contains_peer(p));
                }
            }
        }
    }
    assert(post.peers@[n].0 == p);
    lemma_found_index_is_index_of(post, p, n);
    assert forall|q: PeerId| q != p implies (post.contains_peer(q) <==> pre.contains_peer(
        q,
    )) by {
        if pre.contains_peer(q) {
            let j = pre.index_of(q);
            assert(post.peers@[j].0 == q);
        }
        if post.contains_peer(q) {
            let j = post.index_of(q);
            assert(j < n);
            assert(pre.peers@[j].0 == q);
        }
    }
    assert forall|q: PeerId| q != p && pre.contains_peer(q) implies post.slot_of(q)
        == pre.slot_of(q) by {
        let j = pre.index_of(q);
        assert(pre.peers@[j].0 == q);
        assert(post.peers@[j] == pre.peers@[j]);
        lemma_found_index_is_index_of(post, q, j);
        lemma_found_index_is_index_of(pre, q, j);
    }
}

proof fn lemma_slot_agreement_after_remove(
    pre: SocketState,
    post: SocketState,
    p: PeerId,
    i: int,
)
    requires
        pre.wf(),
        0 <= i < pre.peers@.len(),
        pre.peers@[i].0 == p,
        post.peers@ == pre.peers@.remove(i),
    ensures
        post.wf(),
        !post.contains_peer(p),
        forall|q: PeerId| q != p ==> (post.contains_peer(q) <==> pre.contains_peer(q)),
        forall|q: PeerId|
            q != p && pre.contains_peer(q) ==> post.slot_of(q) == pre.slot_of(q),
{
    let n = pre.peers@.len() as int;
    assert forall|j: int, k: int|
        0 <= j < k < post.peers@.len() implies post.peers@[j].0 != post.peers@[k].0 by {
        assert(post.peers@[j] == if j < i {
            pre.peers@[j]
        } else {
            pre.peers@[j + 1]
        });
        assert(post.peers@[k] == if k < i {
            pre.peers@[k]
        } else {
            pre.peers@[k + 1]
        });
    }
    assert(!post.contains_peer(p)) by {
        if post.contains_peer(p) {
            let j = post.index_of(p);
            assert(post.peers@[j] == if j < i {
                pre.peers@[j]
            } else {
                pre.peers@[j + 1]
            });
            if j < i {
                lemma_at_most_one_slot_per_peer(pre, p, j, i);
            } else {
                lemma_at_most_one_slot_per_peer(pre, p, j + 1, i);
            }
        }
    }
    assert forall|q: PeerId| q != p implies (post.contains_peer(q) <==> pre.contains_peer(
        q,
    )) by {
        if pre.contains_peer(q) {
            let j = pre.index_of(q);
            assert(j != i);
            if j < i {
                assert(post.peers@[j].0 == q);
            } else {
                assert(post.peers@[j - 1] == pre.peers@[j]);
            }
        }
        if post.contains_peer(q) {
            let j = post.index_of(q);
            assert(post.peers@[j] == if j < i {
                pre.peers@[j]
            } else {
                pre.peers@[j + 1]
            });
        }
    }
    assert forall|q: PeerId| q != p && pre.contains_peer(q) implies post.slot_of(q)
        == pre.slot_of(q) by {
        let j = pre.index_of(q);
        assert(pre.peers@[j].0 == q);
        assert(j != i);
        if j < i {
            assert(post.peers@[j] == pre.peers@[j]);
            lemma_found_index_is_index_of(post, q, j);
        } else {
            assert(post.peers@[j - 1] == pre.peers@[j]);
            lemma_found_index_is_index_of(post, q, j - 1);
        }
        lemma_found_index_is_index_of(pre, q, j);
    }
}

} // verus!
