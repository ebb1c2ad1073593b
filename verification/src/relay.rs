use vstd::prelude::*;
use crate::addr::PeerAddr;

verus! {

/// The two peers that a relay port serves: the first two distinct sources of
/// packets, locked in the order they were seen.
pub struct RelayPeers {
    pub peer1: Option<PeerAddr>,
    pub peer2: Option<PeerAddr>,
}

/// What the relay does with one received packet.
#[derive(Debug, Clone, Copy, PartialEq, Eq, Structural)]
pub enum RelayAction {
    /// Send the packet on to this peer.
    Forward(PeerAddr),
    /// The sender is a locked peer whose partner has not been seen yet.
    AwaitPartner,
    /// The sender is neither locked peer: the packet is dropped.
    DropUnknown,
}

/// Locking: the first source becomes peer 1, the next different one peer 2.
pub open spec fn relay_lock(r: RelayPeers, src: PeerAddr) -> RelayPeers {
    if r.peer1 is None {
        RelayPeers { peer1: Some(src), peer2: r.peer2 }
    } else if r.peer1 != Some(src) && r.peer2 is None {
        RelayPeers { peer1: r.peer1, peer2: Some(src) }
    } else {
        r
    }
}

/// Forwarding after locking: each locked peer's packets go to the other one.
pub open spec fn relay_action(r: RelayPeers, src: PeerAddr) -> RelayAction {
    if Some(src) == r.peer1 {
        match r.peer2 {
            Some(p2) => RelayAction::Forward(p2),
            None => RelayAction::AwaitPartner,
        }
    } else if Some(src) == r.peer2 {
        match r.peer1 {
            Some(p1) => RelayAction::Forward(p1),
            None => RelayAction::AwaitPartner,
        }
    } else {
        RelayAction::DropUnknown
    }
}

impl RelayPeers {
    /// The two peers are distinct, and peer 2 is only known once peer 1 is.
    pub open spec fn wf(&self) -> bool {
        &&& self.peer2 is Some ==> self.peer1 is Some
        &&& self.peer2 is Some ==> self.peer1 != self.peer2
    }

    /// A relay that has not seen any packet yet.
    pub fn new() -> (r: Self)
        ensures
            r.peer1 is None,
            r.peer2 is None,
            r.wf(),
    {
        RelayPeers { peer1: None, peer2: None }
    }

    /// Handles a packet received from `src`: locks `src` as a peer if a slot is
    /// free, then says where the packet goes.
    pub fn on_packet(&mut self, src: PeerAddr) -> (action: RelayAction)
        requires
            old(self).wf(),
        ensures
            *final(self) == relay_lock(*old(self), src),
            action == relay_action(*final(self), src),
            final(self).wf(),
    {
        if self.peer1.is_none() {
            self.peer1 = Some(src);
        } else if self.peer1 != Some(src) && self.peer2.is_none() {
            self.peer2 = Some(src);
        }
        if Some(src) == self.peer1 {
            match self.peer2 {
                Some(p2) => RelayAction::Forward(p2),
                None => RelayAction::AwaitPartner,
            }
        } else if Some(src) == self.peer2 {
            match self.peer1 {
                Some(p1) => RelayAction::Forward(p1),
                None => RelayAction::AwaitPartner,
            }
        } else {
            RelayAction::DropUnknown
        }
    }
}

/// Once locked, a peer never changes: a relay serves the same two peers for
/// its whole life.
pub proof fn lemma_relay_locks_are_permanent(r: RelayPeers, src: PeerAddr)
    requires
        r.wf(),
    ensures
        r.peer1 is Some ==> relay_lock(r, src).peer1 == r.peer1,
        r.peer2 is Some ==> relay_lock(r, src).peer2 == r.peer2,
        relay_lock(r, src).wf(),
{
}

/// A packet is only ever forwarded to the other locked peer, never back to its
/// sender, and a third sender's packets are dropped without touching the locks.
pub proof fn lemma_relay_forwards_between_peers(r: RelayPeers, src: PeerAddr)
    requires
        r.wf(),
    ensures
        relay_action(relay_lock(r, src), src) matches RelayAction::Forward(dst) ==> {
            &&& dst != src
            &&& (relay_lock(r, src).peer1 == Some(dst) || relay_lock(r, src).peer2 == Some(dst))
        },
        (r.peer1 is Some && r.peer2 is Some && r.peer1 != Some(src) && r.peer2 != Some(src)) ==> {
            &&& relay_lock(r, src) == r
            &&& relay_action(r, src) == RelayAction::DropUnknown
        },
{
}

/// The peers of a relay port after packets from `srcs`, in arrival order.
pub open spec fn relay_run(srcs: Seq<PeerAddr>) -> RelayPeers
    decreases srcs.len(),
{
    if srcs.len() == 0 {
        RelayPeers { peer1: None, peer2: None }
    } else {
        relay_lock(relay_run(srcs.drop_last()), srcs.last())
    }
}

/// The peers of a relay port are the first two distinct senders: peer 1 is
/// the first sender, peer 2 the first sender that differs from it (none while
/// every packet came from peer 1).
pub proof fn lemma_relay_peers_are_first_two_senders(srcs: Seq<PeerAddr>)
    ensures
        relay_run(srcs).wf(),
        srcs.len() == 0 ==> relay_run(srcs).peer1 is None,
        srcs.len() > 0 ==> relay_run(srcs).peer1 == Some(srcs[0]),
        relay_run(srcs).peer2 is None ==> forall|i: int| 0 <= i < srcs.len() ==> #[trigger] srcs[i] == srcs[0],
        relay_run(srcs).peer2 matches Some(b) ==> exists|j: int|
            0 <= j < srcs.len() && #[trigger] srcs[j] == b && b != srcs[0] && (forall|i: int| 0 <= i < j ==> #[trigger] srcs[i] == srcs[0]),
    decreases srcs.len(),
{
    if srcs.len() > 0 {
        let prev = srcs.drop_last();
        lemma_relay_peers_are_first_two_senders(prev);
        let src = srcs.last();
        if prev.len() > 0 {
            assert(prev[0] == srcs[0]);
        }
        assert forall|i: int| 0 <= i < prev.len() implies #[trigger] prev[i] == srcs[i] by {}
        let r = relay_run(prev);
        if r.peer2 is Some {
            let b = r.peer2->0;
            let j = choose|j: int|
                0 <= j < prev.len() && #[trigger] prev[j] == b && b != prev[0] && (forall|i: int| 0 <= i < j ==> #[trigger] prev[i] == prev[0]);
            assert(srcs[j] == b);
            assert forall|i: int| 0 <= i < j implies #[trigger] srcs[i] == srcs[0] by {
                assert(prev[i] == srcs[i]);
                assert(prev[i] == prev[0]);
            }
        }
        if relay_run(srcs).peer2 is None {
            assert forall|i: int| 0 <= i < srcs.len() implies #[trigger] srcs[i] == srcs[0] by {
                if i < prev.len() {
                    assert(prev[i] == srcs[i]);
                    assert(prev[i] == prev[0]);
                }
            }
        }
        if r.peer2 is None && prev.len() > 0 && src != srcs[0] {
            let j = srcs.len() - 1;
            assert(srcs[j] == src);
            assert forall|i: int| 0 <= i < j implies #[trigger] srcs[i] == srcs[0] by {
                assert(prev[i] == srcs[i]);
                assert(prev[i] == prev[0]);
            }
        }
    }
}

/// Once both peers are locked, a packet from any third sender is dropped and
/// changes nothing.
pub proof fn lemma_relay_third_sender_dropped(srcs: Seq<PeerAddr>, src: PeerAddr)
    requires
        relay_run(srcs).peer2 is Some,
        Some(src) != relay_run(srcs).peer1,
        Some(src) != relay_run(srcs).peer2,
    ensures
        relay_run(srcs.push(src)) == relay_run(srcs),
        relay_action(relay_run(srcs.push(src)), src) == RelayAction::DropUnknown,
{
    lemma_relay_peers_are_first_two_senders(srcs);
    assert(srcs.push(src).drop_last() == srcs);
}

} // verus!
