//! The registry of connected peers: who is connected, under which key, and
//! the queue that reaches each one.

use bytes::Bytes;
use tokio::sync::mpsc::Sender;
use vstd::pervasive::VecAdditionalExecFns;
use vstd::prelude::*;

use crate::protocols::address::SocketAddress;
use crate::protocols::common::ConnectionInfo;

verus! {

/// What the registry keeps for one peer.
pub struct TcpClientInfo {
    /// The peer's address.
    pub addr: SocketAddress,
    /// The sending end of the peer's outbound queue.
    pub tx: Sender<Bytes>,
}

/// One peer as the registry lists it.
pub struct PeerView {
    pub id: Seq<char>,
    pub addr: SocketAddress,
}

struct Peer {
    id: String,
    info: TcpClientInfo,
}

/// The connected peers, in the order in which they were first registered.
/// No key occurs twice.
pub struct ClientRegistry {
    peers: Vec<Peer>,
}

/// Whether a listing holds a peer with the given key.
pub open spec fn has_peer(peers: Seq<PeerView>, id: Seq<char>) -> bool {
    exists|i: int| 0 <= i < peers.len() && #[trigger] peers[i].id == id
}

/// Where in a listing the peer with the given key stands.
pub open spec fn peer_index(peers: Seq<PeerView>, id: Seq<char>) -> int {
    choose|i: int| 0 <= i < peers.len() && #[trigger] peers[i].id == id
}

/// Whether every key of a listing occurs once only.
pub open spec fn distinct_ids(peers: Seq<PeerView>) -> bool {
    forall|i: int, j: int|
        0 <= i < peers.len() && 0 <= j < peers.len() && i != j ==> #[trigger] peers[i].id
            != #[trigger] peers[j].id
}

/// A listing after registering a peer: a new key goes to the end, a known
/// key keeps its place and takes the new entry.
pub open spec fn with_peer(peers: Seq<PeerView>, peer: PeerView) -> Seq<PeerView> {
    if has_peer(peers, peer.id) {
        peers.update(peer_index(peers, peer.id), peer)
    } else {
        peers.push(peer)
    }
}

/// A listing after removing the peer with the given key, if there is one.
pub open spec fn without_peer(peers: Seq<PeerView>, id: Seq<char>) -> Seq<PeerView> {
    if has_peer(peers, id) {
        peers.remove(peer_index(peers, id))
    } else {
        peers
    }
}

/// Registering keeps the keys of a listing distinct.
pub proof fn lemma_with_peer_distinct(peers: Seq<PeerView>, peer: PeerView)
    requires
        distinct_ids(peers),
    ensures
        distinct_ids(with_peer(peers, peer)),
        has_peer(with_peer(peers, peer), peer.id),
        with_peer(peers, peer).len() == if has_peer(peers, peer.id) {
            peers.len()
        } else {
            peers.len() + 1
        },
{
    let after = with_peer(peers, peer);
    if has_peer(peers, peer.id) {
        let k = peer_index(peers, peer.id);
        assert(after[k].id == peer.id);
        assert forall|i: int, j: int|
            0 <= i < after.len() && 0 <= j < after.len() && i != j implies #[trigger] after[i].id
            != #[trigger] after[j].id by {
            assert(after[i].id == peers[i].id);
            assert(after[j].id == peers[j].id);
        }
    } else {
        assert(after[peers.len() as int].id == peer.id);
        assert forall|i: int, j: int|
            0 <= i < after.len() && 0 <= j < after.len() && i != j implies #[trigger] after[i].id
            != #[trigger] after[j].id by {
            if i < peers.len() {
                assert(after[i].id == peers[i].id);
            }
            if j < peers.len() {
                assert(after[j].id == peers[j].id);
            }
        }
    }
}

/// Removing keeps the keys of a listing distinct, and the key removed is
/// gone.
pub proof fn lemma_without_peer_distinct(peers: Seq<PeerView>, id: Seq<char>)
    requires
        distinct_ids(peers),
    ensures
        distinct_ids(without_peer(peers, id)),
        !has_peer(without_peer(peers, id), id),
        without_peer(peers, id).len() == if has_peer(peers, id) {
            peers.len() - 1
        } else {
            peers.len() as int
        },
{
    let after = without_peer(peers, id);
    if has_peer(peers, id) {
        let k = peer_index(peers, id);
        assert forall|i: int| 0 <= i < after.len() implies #[trigger] after[i].id != id by {
            if i < k {
                assert(after[i].id == peers[i].id);
            } else {
                assert(after[i].id == peers[i + 1].id);
            }
        }
        assert forall|i: int, j: int|
            0 <= i < after.len() && 0 <= j < after.len() && i != j implies #[trigger] after[i].id
            != #[trigger] after[j].id by {
            let oi = if i < k { i } else { i + 1 };
            let oj = if j < k { j } else { j + 1 };
            assert(after[i].id == peers[oi].id);
            assert(after[j].id == peers[oj].id);
        }
    }
}

impl View for ClientRegistry {
    type V = Seq<PeerView>;

    closed spec fn view(&self) -> Seq<PeerView> {
        Seq::new(
            self.peers@.len(),
            |i: int| PeerView { id: self.peers@[i].id@, addr: self.peers@[i].info.addr },
        )
    }
}

impl ClientRegistry {
    #[verifier::type_invariant]
    spec fn keys_are_distinct(self) -> bool {
        distinct_ids(self@)
    }

    /// The queue of the peer with the given key, as the registry holds it.
    pub closed spec fn queue_of(&self, id: Seq<char>) -> Sender<Bytes> {
        self.peers@[peer_index(self@, id)].info.tx
    }

    /// The queue of every connected peer, by key.
    pub open spec fn queues(&self) -> Map<Seq<char>, Sender<Bytes>> {
        Map::new(|id: Seq<char>| has_peer(self@, id), |id: Seq<char>| self.queue_of(id))
    }

    /// A registry with nobody in it.
    pub fn new() -> (registry: ClientRegistry)
        ensures
            registry@ == Seq::<PeerView>::empty(),
    {
        let registry = ClientRegistry { peers: Vec::new() };
        assert(registry@ =~= Seq::<PeerView>::empty());
        registry
    }

    /// How many peers are connected.
    pub fn len(&self) -> (n: usize)
        ensures
            n == self@.len(),
            distinct_ids(self@),
    {
        proof {
            use_type_invariant(self);
        }
        self.peers.len()
    }

    fn position(&self, id: &str) -> (r: Option<usize>)
        ensures
            distinct_ids(self@),
            match r {
                Some(i) => has_peer(self@, id@) && i == peer_index(self@, id@) && i
                    < self.peers@.len(),
                None => !has_peer(self@, id@),
            },
    {
        proof {
            use_type_invariant(self);
        }
        let wanted = id.to_owned();
        let mut i: usize = 0;
        while i < self.peers.len()
            invariant
                i <= self.peers@.len(),
                self@.len() == self.peers@.len(),
                distinct_ids(self@),
                wanted@ == id@,
                forall|j: int| 0 <= j < i ==> #[trigger] self@[j].id != id@,
            decreases self.peers.len() - i,
        {
            if self.peers[i].id == wanted {
                assert(self@[i as int].id == id@);
                return Some(i);
            }
            i += 1;
        }
        None
    }

    /// Whether a peer with the given key is connected.
    pub fn contains(&self, id: &str) -> (r: bool)
        ensures
            r == has_peer(self@, id@),
    {
        self.position(id).is_some()
    }

    /// The entry of the peer with the given key.
    pub fn get(&self, id: &str) -> (r: Option<&TcpClientInfo>)
        ensures
            r is Some == has_peer(self@, id@),
            r matches Some(info) ==> info.addr == self@[peer_index(self@, id@)].addr && info.tx
                == self.queue_of(id@),
    {
        match self.position(id) {
            Some(i) => Some(&self.peers[i].info),
            None => None,
        }
    }

    /// The key and entry of the peer that stands first in the listing.
    pub fn first(&self) -> (r: Option<(String, &TcpClientInfo)>)
        ensures
            r is Some == (self@.len() > 0),
            r matches Some(found) ==> found.0@ == self@[0].id && found.1.addr == self@[0].addr
                && found.1.tx == self.queue_of(self@[0].id),
    {
        proof {
            use_type_invariant(self);
        }
        if self.peers.len() > 0 {
            assert(self@[0].id == self.peers@[0].id@);
            assert(has_peer(self@, self@[0].id));
            Some((self.peers[0].id.clone(), &self.peers[0].info))
        } else {
            None
        }
    }

    /// Registers a peer under a key. A key that is already in use keeps its
    /// place in the listing; its old entry is handed back.
    pub fn insert(&mut self, id: String, info: TcpClientInfo) -> (replaced: Option<TcpClientInfo>)
        ensures
            final(self)@ == with_peer(old(self)@, PeerView { id: id@, addr: info.addr }),
            replaced is Some == has_peer(old(self)@, id@),
            replaced matches Some(had) ==> had.addr == old(self)@[peer_index(old(self)@, id@)].addr
                && had.tx == old(self).queue_of(id@),
            final(self).queues() == old(self).queues().insert(id@, info.tx),
            has_peer(final(self)@, id@),
            final(self).queue_of(id@) == info.tx,
            distinct_ids(final(self)@),
    {
        let ghost peer = PeerView { id: id@, addr: info.addr };
        proof {
            use_type_invariant(&*self);
            lemma_with_peer_distinct(self@, peer);
        }
        let position = self.position(id.as_str());
        let mut peers: Vec<Peer> = Vec::new();
        core::mem::swap(&mut self.peers, &mut peers);
        let mut entry = Peer { id, info };
        let replaced = match position {
            Some(i) => {
                peers.set_and_swap(i, &mut entry);
                Some(entry.info)
            },
            None => {
                peers.push(entry);
                None
            },
        };
        proof {
            let after = Seq::new(
                peers@.len(),
                |i: int| PeerView { id: peers@[i].id@, addr: peers@[i].info.addr },
            );
            assert(after =~= with_peer(old(self)@, peer));
        }
        self.peers = peers;
        proof {
            assert forall|other: Seq<char>|
                other != id@ && has_peer(old(self)@, other) implies #[trigger] self.queue_of(other)
                == old(self).queue_of(other) by {
                let j = peer_index(old(self)@, other);
                assert(self@[j].id == other);
                let k = peer_index(self@, other);
                assert(self@[k].id == other);
                assert(k == j);
            }
            assert forall|other: Seq<char>| has_peer(self@, other) <==> (other == id@ || has_peer(
                old(self)@,
                other,
            )) by {
                if has_peer(self@, other) {
                    let k = peer_index(self@, other);
                    if other != id@ {
                        if k < old(self)@.len() {
                            assert(old(self)@[k].id == other);
                        }
                    }
                }
                if has_peer(old(self)@, other) {
                    let j = peer_index(old(self)@, other);
                    if other != id@ {
                        assert(self@[j].id == other);
                    }
                }
            }
            assert(self.queues() =~= old(self).queues().insert(id@, info.tx));
        }
        replaced
    }

    /// Removes the peer with the given key and hands back its entry. The
    /// peers that remain keep their order.
    pub fn remove(&mut self, id: &str) -> (removed: Option<TcpClientInfo>)
        ensures
            final(self)@ == without_peer(old(self)@, id@),
            removed is Some == has_peer(old(self)@, id@),
            removed matches Some(info) ==> info.addr == old(self)@[peer_index(old(self)@, id@)].addr
                && info.tx == old(self).queue_of(id@),
            final(self).queues() == old(self).queues().remove(id@),
            distinct_ids(final(self)@),
    {
        proof {
            use_type_invariant(&*self);
            lemma_without_peer_distinct(self@, id@);
        }
        match self.position(id) {
            Some(i) => {
                let mut peers: Vec<Peer> = Vec::new();
                core::mem::swap(&mut self.peers, &mut peers);
                let entry = peers.remove(i);
                proof {
                    let after = Seq::new(
                        peers@.len(),
                        |i: int| PeerView { id: peers@[i].id@, addr: peers@[i].info.addr },
                    );
                    assert(after =~= without_peer(old(self)@, id@));
                }
                self.peers = peers;
                proof {
                    assert forall|other: Seq<char>|
                        other != id@ && has_peer(old(self)@, other) implies #[trigger] self.queue_of(
                        other,
                    ) == old(self).queue_of(other) by {
                        let j = peer_index(old(self)@, other);
                        let moved = if j < i {
                            j
                        } else {
                            j - 1
                        };
                        assert(self@[moved].id == other);
                        let k = peer_index(self@, other);
                        assert(self@[k].id == other);
                        assert(k == moved);
                    }
                    assert forall|other: Seq<char>| has_peer(self@, other) <==> (other != id@
                        && has_peer(old(self)@, other)) by {
                        if has_peer(self@, other) {
                            let k = peer_index(self@, other);
                            let from = if k < i {
                                k
                            } else {
                                k + 1
                            };
                            assert(old(self)@[from].id == other);
                        }
                        if other != id@ && has_peer(old(self)@, other) {
                            let j = peer_index(old(self)@, other);
                            let moved = if j < i {
                                j
                            } else {
                                j - 1
                            };
                            assert(self@[moved].id == other);
                        }
                    }
                    assert(self.queues() =~= old(self).queues().remove(id@));
                }
                Some(entry.info)
            },
            None => {
                assert(self.queues() =~= old(self).queues().remove(id@));
                None
            },
        }
    }

    /// The connected peers, in the order of the listing.
    pub fn connections(&self) -> (list: Vec<ConnectionInfo>)
        ensures
            list@.len() == self@.len(),
            forall|i: int|
                0 <= i < list@.len() ==> (#[trigger] list@[i]).connection_id@ == self@[i].id
                    && list@[i].remote_addr == self@[i].addr,
            distinct_ids(self@),
    {
        proof {
            use_type_invariant(self);
        }
        let mut list: Vec<ConnectionInfo> = Vec::new();
        let mut i: usize = 0;
        while i < self.peers.len()
            invariant
                i <= self.peers@.len(),
                self@.len() == self.peers@.len(),
                list@.len() == i,
                forall|j: int|
                    0 <= j < i ==> (#[trigger] list@[j]).connection_id@ == self@[j].id
                        && list@[j].remote_addr == self@[j].addr,
            decreases self.peers.len() - i,
        {
            let peer = &self.peers[i];
            list.push(
                ConnectionInfo { remote_addr: peer.info.addr, connection_id: peer.id.clone() },
            );
            i += 1;
        }
        list
    }
}

} // verus!
