//! The peer registry and router: the host side of a mesh of connections.
//!
//! The registry assigns peer ids from a wrapping counter that never hands
//! out an id below `2` — `1` names the host itself, `0` and negative
//! values are routing sentinels — keeps the set of live peers, merges
//! every peer's inbound packets into one first-in-first-out queue, and
//! resolves an outbound packet's target id to the peers that receive it.
//!
//! The registry never blocks: connecting, accepting and all stream work
//! happen elsewhere, and report back through the small state transitions
//! here — a completed handshake registers a peer, a packet arrival is
//! pushed, a dead connection is evicted.

use std::collections::VecDeque;
use vstd::prelude::*;

use crate::ConnectionStatus;
use crate::TransferMode;

verus! {

broadcast use vstd::std_specs::vecdeque::group_vec_dequeue_axioms;

/// The peer id that names the host itself.
pub const HOST_PEER_ID: i32 = 1;

/// One packet delivered to the registry's caller: what arrived, from
/// whom, and how it was sent.
pub struct ReceivedPacket {
    /// The peer the packet came from.
    pub peer: i32,
    /// The logical channel the packet was sent on.
    pub channel: i32,
    /// The delivery guarantee it was sent under.
    pub mode: TransferMode,
    /// The payload bytes, exactly as sent.
    pub payload: Vec<u8>,
}

/// The id assigned after `last`: one more, wrapping below the signed
/// 32-bit maximum, and skipping everything below `2`.
pub open spec fn spec_next_peer_id(last: int) -> int {
    let n = (last + 1) % 0x7fffffff;
    if n < 2 {
        2
    } else {
        n
    }
}

/// The id counter's value after `n` assignments starting from `last`.
pub open spec fn peer_id_after(last: int, n: nat) -> int
    decreases n,
{
    if n == 0 {
        last
    } else {
        spec_next_peer_id(peer_id_after(last, (n - 1) as nat))
    }
}

/// Whether a live peer with the given id receives a packet aimed at the
/// given target: target `0` is a broadcast to every peer, a negative
/// target excludes exactly the peer whose id equals it — which no
/// assigned id ever does — and a positive target names one peer.
pub open spec fn route_matches(target: i32, peer: i32) -> bool {
    if target == 0 {
        true
    } else if target < 0 {
        peer != target
    } else {
        peer == target
    }
}

/// The peers, in registry order, that a packet aimed at the target
/// reaches.
pub open spec fn routed_targets(peers: Seq<i32>, target: i32) -> Seq<i32>
    decreases peers.len(),
{
    if peers.len() == 0 {
        Seq::empty()
    } else {
        (if route_matches(target, peers[0]) {
            seq![peers[0]]
        } else {
            Seq::empty()
        }) + routed_targets(peers.subrange(1, peers.len() as int), target)
    }
}

/// The host side of a mesh: id assignment, the live peer set, the merged
/// inbound queue, and the caller's current send settings.
pub struct PeerRegistry {
    /// The most recently assigned peer id; `1` before any assignment.
    pub last_peer_id: i32,
    /// The live peers, in registration order, each registered once.
    pub peers: Vec<i32>,
    /// Packets from every live peer, in arrival order.
    pub received: VecDeque<ReceivedPacket>,
    /// The target id the next outbound packet is aimed at.
    pub target_peer: i32,
    /// The channel the next outbound packet is sent on.
    pub transfer_channel: i32,
    /// The delivery guarantee the next outbound packet is sent under.
    pub transfer_mode: TransferMode,
    /// Whether the caller asked to turn new connections away.
    pub refuse_new_connections: bool,
    /// Whether the listener has been closed.
    pub closed: bool,
}

impl PeerRegistry {
    /// The registry's invariant: the id counter sits in its wrapping
    /// range, and every live peer id was assigned — at least `2`, below
    /// the counter's wrap bound — and registered only once.
    pub open spec fn wf(self) -> bool {
        &&& 1 <= self.last_peer_id < i32::MAX
        &&& forall|i: int, j: int|
            0 <= i < j < self.peers@.len() ==> self.peers@[i] != self.peers@[j]
        &&& forall|i: int| 0 <= i < self.peers@.len() ==> 2 <= #[trigger] self.peers@[i] < i32::MAX
    }

    /// A registry with no peers, nothing received, and the caller's
    /// settings at their defaults: broadcast target, channel `0`,
    /// reliable mode.
    pub fn new() -> (r: PeerRegistry)
        ensures
            r.wf(),
            r.last_peer_id == 1,
            r.peers@ == Seq::<i32>::empty(),
            r.received@ == Seq::<ReceivedPacket>::empty(),
            r.target_peer == 0,
            r.transfer_channel == 0,
            r.transfer_mode is Reliable,
            !r.refuse_new_connections,
            !r.closed,
    {
        let r = PeerRegistry {
            last_peer_id: 1,
            peers: Vec::new(),
            received: VecDeque::new(),
            target_peer: 0,
            transfer_channel: 0,
            transfer_mode: TransferMode::Reliable,
            refuse_new_connections: false,
            closed: false,
        };
        proof {
            assert(r.peers@ =~= Seq::<i32>::empty());
            assert(r.received@ =~= Seq::<ReceivedPacket>::empty());
        }
        r
    }

    /// Assigns the next peer id — for an accepted inbound connection or
    /// an eagerly numbered outbound one — and records it as the newest.
    pub fn allocate_peer_id(&mut self) -> (id: i32)
        requires
            old(self).wf(),
        ensures
            final(self).wf(),
            id == spec_next_peer_id(old(self).last_peer_id as int),
            2 <= id < i32::MAX,
            *final(self) == (PeerRegistry { last_peer_id: id, ..*old(self) }),
    {
        let mut next = (self.last_peer_id + 1) % i32::MAX;
        if next < 2 {
            next = 2;
        }
        self.last_peer_id = next;
        next
    }

    /// Registers a peer whose handshake completed. A peer already live
    /// under the same id stays as it is; the result says whether the id
    /// was newly registered.
    pub fn register_peer(&mut self, id: i32) -> (added: bool)
        requires
            old(self).wf(),
            2 <= id < i32::MAX,
        ensures
            final(self).wf(),
            added == !old(self).peers@.contains(id),
            added ==> final(self).peers@ == old(self).peers@.push(id),
            !added ==> final(self).peers@ == old(self).peers@,
            *final(self) == (PeerRegistry { peers: final(self).peers, ..*old(self) }),
    {
        if self.has_peer(id) {
            false
        } else {
            self.peers.push(id);
            proof {
                broadcast use vstd::seq_lib::lemma_seq_contains_after_push;

            }
            true
        }
    }

    /// Whether a peer is live under the given id.
    pub fn has_peer(&self, id: i32) -> (r: bool)
        ensures
            r == self.peers@.contains(id),
    {
        let mut i: usize = 0;
        while i < self.peers.len()
            invariant
                i <= self.peers@.len(),
                forall|j: int| 0 <= j < i ==> self.peers@[j] != id,
            decreases self.peers@.len() - i,
        {
            if self.peers[i] == id {
                proof {
                    assert(self.peers@.contains(id));
                }
                return true;
            }
            i = i + 1;
        }
        proof {
            assert(!self.peers@.contains(id));
        }
        false
    }

    /// Queues one packet that arrived from a live peer, behind
    /// everything already queued.
    pub fn on_packet(&mut self, peer: i32, channel: i32, mode: TransferMode, payload: Vec<u8>)
        requires
            old(self).wf(),
            old(self).received@.len() < usize::MAX,
        ensures
            final(self).wf(),
            final(self).received@ == old(self).received@.push(
                ReceivedPacket { peer, channel, mode, payload },
            ),
            *final(self) == (PeerRegistry { received: final(self).received, ..*old(self) }),
    {
        self.received.push_back(ReceivedPacket { peer, channel, mode, payload });
    }

    /// Removes a peer whose connection is gone; the result says whether
    /// it was live. The registration order of the others is kept.
    pub fn evict_peer(&mut self, id: i32) -> (found: bool)
        requires
            old(self).wf(),
        ensures
            final(self).wf(),
            found == old(self).peers@.contains(id),
            final(self).peers@ == old(self).peers@.remove_value(id),
            !final(self).peers@.contains(id),
            *final(self) == (PeerRegistry { peers: final(self).peers, ..*old(self) }),
    {
        let ghost p0 = old(self).peers@;
        let mut i: usize = 0;
        while i < self.peers.len()
            invariant
                old(self).wf(),
                *self == *old(self),
                i <= self.peers@.len(),
                self.peers@ == p0,
                forall|j: int| 0 <= j < i ==> self.peers@[j] != id,
            decreases self.peers@.len() - i,
        {
            if self.peers[i] == id {
                self.peers.remove(i);
                proof {
                    p0.index_of_first_ensures(id);
                    assert(p0.contains(id));
                    assert(p0.index_of_first(id) == Some(i as int));
                    assert(self.peers@ == p0.remove_value(id));
                    assert forall|j: int|
                        0 <= j < self.peers@.len() implies self.peers@[j] != id by {
                        if j < i {
                            assert(self.peers@[j] == p0[j]);
                        } else {
                            assert(self.peers@[j] == p0[j + 1]);
                        }
                    }
                    assert forall|a: int, b: int|
                        0 <= a < b < self.peers@.len() implies self.peers@[a] != self.peers@[b] by {
                        let pa: int = if a < i {
                            a
                        } else {
                            a + 1
                        };
                        let pb: int = if b < i {
                            b
                        } else {
                            b + 1
                        };
                        assert(self.peers@[a] == p0[pa]);
                        assert(self.peers@[b] == p0[pb]);
                    }
                    assert forall|a: int|
                        0 <= a < self.peers@.len() implies 2 <= #[trigger] self.peers@[a]
                        < i32::MAX by {
                        let pa: int = if a < i {
                            a
                        } else {
                            a + 1
                        };
                        assert(self.peers@[a] == p0[pa]);
                    }
                }
                return true;
            }
            i = i + 1;
        }
        proof {
            assert(!p0.contains(id));
            p0.index_of_first_ensures(id);
            assert(p0.remove_value(id) == p0);
        }
        false
    }

    /// Removes and closes a peer at the caller's request. The first
    /// result says whether a live connection must be closed; the second
    /// whether the caller's collaborator is told — a forced disconnect
    /// assumes the caller already knows.
    pub fn disconnect_peer(&mut self, id: i32, force: bool) -> (r: (bool, bool))
        requires
            old(self).wf(),
        ensures
            final(self).wf(),
            r.0 == old(self).peers@.contains(id),
            r.1 == (old(self).peers@.contains(id) && !force),
            final(self).peers@ == old(self).peers@.remove_value(id),
            !final(self).peers@.contains(id),
            *final(self) == (PeerRegistry { peers: final(self).peers, ..*old(self) }),
    {
        let found = self.evict_peer(id);
        (found, found && !force)
    }

    /// The peers, in registration order, that the next outbound packet
    /// reaches under the current target setting.
    pub fn route_targets(&self) -> (r: Vec<i32>)
        ensures
            r@ == routed_targets(self.peers@, self.target_peer),
    {
        let mut out: Vec<i32> = Vec::new();
        let mut i: usize = 0;
        while i < self.peers.len()
            invariant
                i <= self.peers@.len(),
                out@ == routed_targets(self.peers@.subrange(0, i as int), self.target_peer),
            decreases self.peers@.len() - i,
        {
            let p = self.peers[i];
            let target = self.target_peer;
            let matched = if target == 0 {
                true
            } else if target < 0 {
                p != target
            } else {
                p == target
            };
            if matched {
                out.push(p);
            }
            proof {
                lemma_routed_targets_snoc(self.peers@.subrange(0, i + 1), self.target_peer);
                assert(self.peers@.subrange(0, i + 1).drop_last() =~= self.peers@.subrange(
                    0,
                    i as int,
                ));
            }
            i = i + 1;
        }
        proof {
            assert(self.peers@.subrange(0, self.peers@.len() as int) =~= self.peers@);
        }
        out
    }

    /// How many packets wait in the merged inbound queue.
    pub fn get_available_packet_count(&self) -> (r: i32)
        requires
            self.received@.len() <= i32::MAX,
        ensures
            r == self.received@.len(),
    {
        self.received.len() as i32
    }

    /// The channel of the next packet to be popped, `0` with nothing
    /// queued.
    pub fn get_packet_channel(&self) -> (r: i32)
        ensures
            r == if self.received@.len() > 0 {
                self.received@[0].channel
            } else {
                0
            },
    {
        if self.received.len() > 0 {
            self.received[0].channel
        } else {
            0
        }
    }

    /// The delivery mode of the next packet to be popped, `Reliable`
    /// with nothing queued.
    pub fn get_packet_mode(&self) -> (r: TransferMode)
        ensures
            r == if self.received@.len() > 0 {
                self.received@[0].mode
            } else {
                TransferMode::Reliable
            },
    {
        if self.received.len() > 0 {
            self.received[0].mode
        } else {
            TransferMode::Reliable
        }
    }

    /// The sender of the next packet to be popped, `-1` with nothing
    /// queued.
    pub fn get_packet_peer(&self) -> (r: i32)
        ensures
            r == if self.received@.len() > 0 {
                self.received@[0].peer
            } else {
                -1i32
            },
    {
        if self.received.len() > 0 {
            self.received[0].peer
        } else {
            -1
        }
    }

    /// Pops the next packet's payload, an empty payload with nothing
    /// queued.
    pub fn pop_packet(&mut self) -> (r: Vec<u8>)
        requires
            old(self).wf(),
        ensures
            final(self).wf(),
            old(self).received@.len() > 0 ==> r == old(self).received@[0].payload
                && final(self).received@ == old(self).received@.subrange(
                1,
                old(self).received@.len() as int,
            ),
            old(self).received@.len() == 0 ==> r@ == Seq::<u8>::empty() && final(self).received@
                == old(self).received@,
            *final(self) == (PeerRegistry { received: final(self).received, ..*old(self) }),
    {
        match self.received.pop_front() {
            Some(packet) => packet.payload,
            None => Vec::new(),
        }
    }

    /// The host's own unique id: always `1`.
    pub fn get_unique_id(&self) -> (r: i32)
        ensures
            r == HOST_PEER_ID,
    {
        HOST_PEER_ID
    }

    /// The largest payload the caller may hand to one send under the
    /// current mode: the 16-bit frame bound when reliable, the datagram
    /// bound otherwise.
    pub fn get_max_packet_size(&self) -> (r: i32)
        ensures
            r == if self.transfer_mode is Reliable {
                65535int
            } else {
                1024int
            },
    {
        if self.transfer_mode == TransferMode::Reliable {
            65535
        } else {
            1024
        }
    }

    /// Connected while the listener stands, disconnected once it is
    /// closed.
    pub fn get_connection_status(&self) -> (r: ConnectionStatus)
        ensures
            r == if self.closed {
                ConnectionStatus::Disconnected
            } else {
                ConnectionStatus::Connected
            },
    {
        if self.closed {
            ConnectionStatus::Disconnected
        } else {
            ConnectionStatus::Connected
        }
    }

    /// Marks the listener closed.
    pub fn close(&mut self)
        requires
            old(self).wf(),
        ensures
            final(self).wf(),
            *final(self) == (PeerRegistry { closed: true, ..*old(self) }),
    {
        self.closed = true;
    }

    /// Aims the next outbound packet: `0` at every peer, a positive id
    /// at that peer, a negative id at every peer not equal to it.
    pub fn set_target_peer(&mut self, id: i32)
        requires
            old(self).wf(),
        ensures
            final(self).wf(),
            *final(self) == (PeerRegistry { target_peer: id, ..*old(self) }),
    {
        self.target_peer = id;
    }

    /// The target the next outbound packet is aimed at.
    pub fn get_target_peer(&self) -> (r: i32)
        ensures
            r == self.target_peer,
    {
        self.target_peer
    }

    /// Sets the channel for the next outbound packet.
    pub fn set_transfer_channel(&mut self, channel: i32)
        requires
            old(self).wf(),
        ensures
            final(self).wf(),
            *final(self) == (PeerRegistry { transfer_channel: channel, ..*old(self) }),
    {
        self.transfer_channel = channel;
    }

    /// The channel the next outbound packet is sent on.
    pub fn get_transfer_channel(&self) -> (r: i32)
        ensures
            r == self.transfer_channel,
    {
        self.transfer_channel
    }

    /// Sets the delivery guarantee for the next outbound packet.
    pub fn set_transfer_mode(&mut self, mode: TransferMode)
        requires
            old(self).wf(),
        ensures
            final(self).wf(),
            *final(self) == (PeerRegistry { transfer_mode: mode, ..*old(self) }),
    {
        self.transfer_mode = mode;
    }

    /// The delivery guarantee the next outbound packet is sent under.
    pub fn get_transfer_mode(&self) -> (r: TransferMode)
        ensures
            r == self.transfer_mode,
    {
        self.transfer_mode
    }

    /// Records whether new connections are turned away.
    pub fn set_refuse_new_connections(&mut self, enable: bool)
        requires
            old(self).wf(),
        ensures
            final(self).wf(),
            *final(self) == (PeerRegistry { refuse_new_connections: enable, ..*old(self) }),
    {
        self.refuse_new_connections = enable;
    }

    /// Whether new connections are turned away.
    pub fn is_refusing_new_connections(&self) -> (r: bool)
        ensures
            r == self.refuse_new_connections,
    {
        self.refuse_new_connections
    }
}

/// Splitting off the last peer splits the routing result at the same
/// place.
proof fn lemma_routed_targets_snoc(peers: Seq<i32>, target: i32)
    requires
        peers.len() > 0,
    ensures
        routed_targets(peers, target) == routed_targets(peers.drop_last(), target) + (if
        route_matches(target, peers.last()) {
            seq![peers.last()]
        } else {
            Seq::<i32>::empty()
        }),
    decreases peers.len(),
{
    if peers.len() == 1 {
        assert(peers.drop_last() =~= Seq::<i32>::empty());
        assert(routed_targets(peers.subrange(1, 1), target) == Seq::<i32>::empty());
        assert(routed_targets(peers, target) =~= routed_targets(peers.drop_last(), target) + (if
        route_matches(target, peers.last()) {
            seq![peers.last()]
        } else {
            Seq::<i32>::empty()
        }));
    } else {
        let tail = peers.subrange(1, peers.len() as int);
        lemma_routed_targets_snoc(tail, target);
        assert(tail.drop_last() =~= peers.drop_last().subrange(
            1,
            peers.drop_last().len() as int,
        ));
        assert(tail.last() == peers.last());
        assert(routed_targets(peers, target) =~= routed_targets(peers.drop_last(), target) + (if
        route_matches(target, peers.last()) {
            seq![peers.last()]
        } else {
            Seq::<i32>::empty()
        }));
    }
}

/// Starting from the host's fresh counter, the first assigned ids are
/// `2, 3, 4, …`: distinct, at least `2`, and strictly increasing until
/// the counter wraps.
pub proof fn lemma_peer_ids_sequential(n: nat)
    requires
        1 <= n <= 0x7ffffffd,
    ensures
        peer_id_after(1, n) == n + 1,
    decreases n,
{
    if n == 1 {
        assert(peer_id_after(1, 0) == 1);
        assert(peer_id_after(1, 1) == spec_next_peer_id(peer_id_after(1, 0)));
    } else {
        lemma_peer_ids_sequential((n - 1) as nat);
    }
}

/// An assigned id is never a routing sentinel: each lies between `2`
/// and the wrap bound, and the assignment after the one just below the
/// wrap bound resumes at `2`.
pub proof fn lemma_peer_id_range(last: int)
    requires
        1 <= last < 0x7fffffff,
    ensures
        2 <= spec_next_peer_id(last) < 0x7fffffff,
        last < 0x7ffffffe ==> spec_next_peer_id(last) == last + 1,
        last == 0x7ffffffe ==> spec_next_peer_id(last) == 2,
{
}

/// A broadcast — target `0` — reaches every live peer, in order.
pub proof fn lemma_broadcast_reaches_all(peers: Seq<i32>)
    ensures
        routed_targets(peers, 0) == peers,
    decreases peers.len(),
{
    if peers.len() == 0 {
        assert(routed_targets(peers, 0) =~= peers);
    } else {
        lemma_broadcast_reaches_all(peers.subrange(1, peers.len() as int));
        assert(routed_targets(peers, 0) =~= peers);
    }
}

/// A unicast to an id that no live peer holds reaches nobody: a silent
/// no-op.
pub proof fn lemma_unicast_absent_is_noop(peers: Seq<i32>, target: i32)
    requires
        target > 0,
        !peers.contains(target),
    ensures
        routed_targets(peers, target) == Seq::<i32>::empty(),
    decreases peers.len(),
{
    if peers.len() > 0 {
        let tail = peers.subrange(1, peers.len() as int);
        assert(peers[0] != target);
        assert(forall|i: int| 0 <= i < tail.len() ==> tail[i] == peers[i + 1]);
        assert(!tail.contains(target));
        lemma_unicast_absent_is_noop(tail, target);
        assert(routed_targets(peers, target) =~= Seq::<i32>::empty());
    } else {
        assert(routed_targets(peers, target) =~= Seq::<i32>::empty());
    }
}

/// A unicast to a live peer reaches exactly that peer.
pub proof fn lemma_unicast_present_is_exact(peers: Seq<i32>, target: i32)
    requires
        target > 0,
        peers.contains(target),
        forall|i: int, j: int| 0 <= i < j < peers.len() ==> peers[i] != peers[j],
    ensures
        routed_targets(peers, target) == seq![target],
    decreases peers.len(),
{
    let tail = peers.subrange(1, peers.len() as int);
    assert(forall|i: int| 0 <= i < tail.len() ==> tail[i] == peers[i + 1]);
    if peers[0] == target {
        assert(!tail.contains(target)) by {
            if tail.contains(target) {
                let i = choose|i: int| 0 <= i < tail.len() && tail[i] == target;
                assert(peers[i + 1] == target && peers[0] == target);
            }
        }
        lemma_unicast_absent_is_noop(tail, target);
        assert(routed_targets(peers, target) =~= seq![target]);
    } else {
        assert(tail.contains(target)) by {
            let i = choose|i: int| 0 <= i < peers.len() && peers[i] == target;
            assert(i > 0);
            assert(tail[i - 1] == target);
        }
        assert(forall|i: int, j: int| 0 <= i < j < tail.len() ==> tail[i] != tail[j]);
        lemma_unicast_present_is_exact(tail, target);
        assert(routed_targets(peers, target) =~= seq![target]);
    }
}

/// Once a peer is evicted, a unicast aimed at its id reaches nobody:
/// sends to a disconnected peer are silent no-ops.
pub proof fn lemma_evicted_peer_unroutable(peers: Seq<i32>, id: i32)
    requires
        id > 0,
        forall|i: int, j: int| 0 <= i < j < peers.len() ==> peers[i] != peers[j],
    ensures
        routed_targets(peers.remove_value(id), id) == Seq::<i32>::empty(),
{
    peers.index_of_first_ensures(id);
    let removed = peers.remove_value(id);
    assert(!removed.contains(id)) by {
        if removed.contains(id) {
            let j = choose|j: int| 0 <= j < removed.len() && removed[j] == id;
            if peers.contains(id) {
                let i = peers.index_of_first(id).unwrap();
                assert(removed == peers.remove(i));
                if j < i {
                    assert(peers[j] == id);
                } else {
                    assert(peers[j + 1] == id);
                }
            } else {
                assert(removed == peers);
            }
        }
    }
    lemma_unicast_absent_is_noop(removed, id);
}

} // verus!
