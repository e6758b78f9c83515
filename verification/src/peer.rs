//! The connection registry and the peer runtime.
//!
//! `Connections` maps peer addresses to their bounded outbound queues and
//! supports race-free snapshotting: the caller serializes access, and every
//! operation here either leaves an entry whole or does not touch it, so a
//! snapshot can never observe a half-inserted entry.

use crate::queue::{PeerQueue, SendError, QUEUE_CAPACITY};
use crate::value::{avg, midpoint, VALUE_BOUND};
use vstd::prelude::*;

verus! {

use vstd::string::{StrSliceExecFns, StringExecFns};

/// One registered peer: its address and its outbound queue.
pub struct PeerEntry {
    pub address: String,
    pub queue: PeerQueue,
}

/// The connection registry: one entry per peer with an active outbound
/// session, keyed by peer address.
pub struct Connections {
    /// Registered peers in registration order, addresses unique.
    pub peers: Vec<PeerEntry>,
}

/// What one send through the registry did: entry `i` alone changed, by one
/// `try_enqueue` of `value`, and `r` reports that queue's answer.
pub open spec fn enqueue_outcome(
    pre: Connections,
    post: Connections,
    i: int,
    value: i64,
    r: Result<(), SendError>,
) -> bool {
    let q = pre.peers@[i].queue;
    &&& post.peers@.len() == pre.peers@.len()
    &&& (forall|j: int|
        0 <= j < pre.peers@.len() && j != i ==> post.peers@[j] == pre.peers@[j])
    &&& post.peers@[i].address == pre.peers@[i].address
    &&& post.peers@[i].queue.is_closed() == q.is_closed()
    &&& (r is Ok <==> q.can_accept())
    &&& (q.can_accept() ==> post.peers@[i].queue.contents() == q.contents().push(value))
    &&& (!q.can_accept() ==> post.peers@[i].queue.contents() == q.contents())
    &&& (q.is_closed() ==> r == Err::<(), SendError>(SendError::QueueClosed))
    &&& ((!q.is_closed() && q.contents().len() >= QUEUE_CAPACITY) ==> r == Err::<
        (),
        SendError,
    >(SendError::QueueFull))
}

/// What one drain through the registry did: entry `i` alone changed, by one
/// `dequeue`, and `r` is the value that came out, if any.
pub open spec fn dequeue_outcome(
    pre: Connections,
    post: Connections,
    i: int,
    r: Option<i64>,
) -> bool {
    let q = pre.peers@[i].queue;
    &&& post.peers@.len() == pre.peers@.len()
    &&& (forall|j: int|
        0 <= j < pre.peers@.len() && j != i ==> post.peers@[j] == pre.peers@[j])
    &&& post.peers@[i].address == pre.peers@[i].address
    &&& post.peers@[i].queue.is_closed() == q.is_closed()
    &&& (q.contents().len() == 0 ==> r is None && post.peers@[i].queue.contents()
        == q.contents())
    &&& (q.contents().len() > 0 ==> r == Some(q.contents()[0]) && post.peers@[
        i
    ].queue.contents() == q.contents().drop_first())
}

impl Connections {
    /// Addresses are unique and every queue is within its capacity.
    pub open spec fn wf(self) -> bool {
        &&& (forall|i: int, j: int|
            0 <= i < j < self.peers@.len() ==> self.peers@[i].address@ != self.peers@[
                j
            ].address@)
        &&& (forall|i: int| 0 <= i < self.peers@.len() ==> self.peers@[i].queue.wf())
    }

    /// Whether some entry is registered under this address.
    pub open spec fn has_peer(self, address: Seq<char>) -> bool {
        exists|i: int| 0 <= i < self.peers@.len() && self.peers@[i].address@ == address
    }

    /// The addresses a snapshot reports, in registration order.
    pub open spec fn addresses(self) -> Seq<Seq<char>> {
        Seq::new(self.peers@.len(), |i: int| self.peers@[i].address@)
    }

    /// Creates an empty registry.
    pub fn new() -> (c: Connections)
        ensures
            c.wf(),
            c.peers@.len() == 0,
    {
        Connections { peers: Vec::new() }
    }

    /// Finds the entry registered under the address, if any.
    pub fn index_of(&self, address: &String) -> (r: Option<usize>)
        ensures
            match r {
                Some(i) => i < self.peers@.len() && self.peers@[i as int].address@
                    == address@,
                None => !self.has_peer(address@),
            },
    {
        let n = self.peers.len();
        let mut k: usize = 0;
        while k < n
            invariant
                n == self.peers@.len(),
                k <= n,
                forall|j: int| 0 <= j < k ==> self.peers@[j].address@ != address@,
            decreases n - k,
        {
            if self.peers[k].address == *address {
                return Some(k);
            }
            k += 1;
        }
        None
    }

    /// Inserts a queue under the address, overwriting any prior entry for
    /// it; returns the index of the entry written.
    pub fn register(&mut self, address: String, queue: PeerQueue) -> (i: usize)
        requires
            old(self).wf(),
            queue.wf(),
        ensures
            final(self).wf(),
            final(self).has_peer(address@),
            i < final(self).peers@.len(),
            final(self).peers@[i as int].address@ == address@,
            final(self).peers@[i as int].queue == queue,
            forall|j: int|
                0 <= j < final(self).peers@.len() && j != i ==> j < old(self).peers@.len()
                    && final(self).peers@[j] == old(self).peers@[j],
            old(self).has_peer(address@) ==> final(self).peers@.len() == old(
                self,
            ).peers@.len(),
            !old(self).has_peer(address@) ==> final(self).peers@.len() == old(
                self,
            ).peers@.len() + 1 && i == old(self).peers@.len(),
    {
        match self.index_of(&address) {
            Some(i) => {
                self.peers[i] = PeerEntry { address, queue };
                proof {
                    assert(self.peers@[i as int].address@ == address@);
                }
                i
            },
            None => {
                let i = self.peers.len();
                self.peers.push(PeerEntry { address, queue });
                proof {
                    assert(self.peers@[i as int].address@ == address@);
                }
                i
            },
        }
    }

    /// Returns the queue registered under the address, if any.
    pub fn lookup(&self, address: &String) -> (r: Option<&PeerQueue>)
        ensures
            match r {
                Some(q) => exists|i: int|
                    0 <= i < self.peers@.len() && self.peers@[i].address@ == address@
                        && self.peers@[i].queue == *q,
                None => !self.has_peer(address@),
            },
    {
        match self.index_of(address) {
            Some(i) => Some(&self.peers[i].queue),
            None => None,
        }
    }

    /// Copies the registered addresses, in order, for random sampling.
    ///
    /// The copy reflects `addresses()` exactly: every entry of the registry
    /// appears whole, and nothing else appears.
    pub fn snapshot(&self) -> (r: Vec<String>)
        ensures
            r@.len() == self.peers@.len(),
            forall|i: int| 0 <= i < r@.len() ==> r@[i]@ == self.peers@[i].address@,
    {
        let n = self.peers.len();
        let mut out: Vec<String> = Vec::new();
        let mut k: usize = 0;
        while k < n
            invariant
                n == self.peers@.len(),
                k <= n,
                out@.len() == k,
                forall|j: int| 0 <= j < k ==> out@[j]@ == self.peers@[j].address@,
            decreases n - k,
        {
            out.push(self.peers[k].address.clone());
            k += 1;
        }
        out
    }

    /// Offers a value to the queue registered under the address.
    ///
    /// Fails with `UnknownPeer` when no entry exists; otherwise that one
    /// queue answers and nothing else changes.
    pub fn send_value_to(&mut self, value: i64, address: &String) -> (r: Result<
        (),
        SendError,
    >)
        requires
            old(self).wf(),
        ensures
            final(self).wf(),
            !old(self).has_peer(address@) ==> r == Err::<(), SendError>(
                SendError::UnknownPeer,
            ) && *final(self) == *old(self),
            old(self).has_peer(address@) ==> exists|i: int|
                0 <= i < old(self).peers@.len() && old(self).peers@[i].address@ == address@
                    && enqueue_outcome(*old(self), *final(self), i, value, r),
    {
        match self.index_of(address) {
            Some(i) => {
                let r = self.peers[i].queue.try_enqueue(value);
                proof {
                    assert(old(self).peers@[i as int].address@ == address@);
                    assert(enqueue_outcome(*old(self), *self, i as int, value, r));
                }
                r
            },
            None => Err(SendError::UnknownPeer),
        }
    }

    /// Takes the oldest value queued for the addressed peer, if any; an
    /// unknown address yields nothing and changes nothing.
    pub fn take_from(&mut self, address: &String) -> (r: Option<i64>)
        requires
            old(self).wf(),
        ensures
            final(self).wf(),
            !old(self).has_peer(address@) ==> r is None && *final(self) == *old(self),
            old(self).has_peer(address@) ==> exists|i: int|
                0 <= i < old(self).peers@.len() && old(self).peers@[i].address@ == address@
                    && dequeue_outcome(*old(self), *final(self), i, r),
    {
        match self.index_of(address) {
            Some(i) => {
                let r = self.peers[i].queue.dequeue();
                proof {
                    assert(old(self).peers@[i as int].address@ == address@);
                    assert(dequeue_outcome(*old(self), *self, i as int, r));
                }
                r
            },
            None => None,
        }
    }

    /// Marks the addressed peer's queue closed: its worker has terminated.
    /// The entry itself stays registered, so later sends to it fail loudly
    /// with `QueueClosed` instead of piling values up.
    pub fn close_peer(&mut self, address: &String)
        requires
            old(self).wf(),
        ensures
            final(self).wf(),
            final(self).peers@.len() == old(self).peers@.len(),
            !old(self).has_peer(address@) ==> *final(self) == *old(self),
            old(self).has_peer(address@) ==> exists|i: int|
                0 <= i < old(self).peers@.len() && old(self).peers@[i].address@ == address@
                    && final(self).peers@[i].queue.is_closed()
                    && final(self).peers@[i].queue.contents()
                        == old(self).peers@[i].queue.contents()
                    && final(self).peers@[i].address == old(self).peers@[i].address
                    && (forall|j: int|
                    0 <= j < old(self).peers@.len() && j != i ==> final(self).peers@[j]
                        == old(self).peers@[j]),
    {
        match self.index_of(address) {
            Some(i) => {
                self.peers[i].queue.close();
                proof {
                    assert(old(self).peers@[i as int].address@ == address@);
                }
            },
            None => {},
        }
    }
}

/// Law: a snapshot shows whole entries only. An address appears among the
/// snapshot's addresses exactly when the registry holds a complete entry —
/// address and queue together — for it; since every registry operation
/// either leaves an entry whole or does not create it at all, no snapshot
/// can observe a partially constructed entry.
pub proof fn lemma_snapshot_whole_entries(c: Connections, address: Seq<char>)
    ensures
        c.addresses().contains(address) <==> c.has_peer(address),
{
    if c.addresses().contains(address) {
        let i = choose|i: int|
            0 <= i < c.addresses().len() && c.addresses()[i] == address;
        assert(c.peers@[i].address@ == address);
    }
    if c.has_peer(address) {
        let i = choose|i: int|
            0 <= i < c.peers@.len() && c.peers@[i].address@ == address;
        assert(c.addresses()[i] == address);
    }
}

/// Whether the address already names a scheme, i.e. starts with `http`.
pub open spec fn has_http_prefix(s: Seq<char>) -> bool {
    &&& s.len() >= 4
    &&& s[0] == 'h'
    &&& s[1] == 't'
    &&& s[2] == 't'
    &&& s[3] == 'p'
}

/// Fills in the default scheme on a peer address that lacks one.
pub fn normalize_address(address: &str) -> (r: String)
    ensures
        has_http_prefix(address@) ==> r@ == address@,
        !has_http_prefix(address@) ==> r@ == "http://"@ + address@,
{
    let n = address.unicode_len();
    if n >= 4 && address.get_char(0) == 'h' && address.get_char(1) == 't'
        && address.get_char(2) == 't' && address.get_char(3) == 'p' {
        String::from_str(address)
    } else {
        let r = String::from_str("http://").concat(address);
        r
    }
}

/// One peer's runtime: its own address, its current value, and its
/// connection registry. The embedding program owns exactly one of these and
/// serializes every access, so each operation below is one uninterrupted
/// read-compute-write and no update can be lost.
pub struct PeerState {
    /// The address this peer listens on.
    pub address: String,
    /// This peer's current estimate, in value units.
    pub value: i64,
    /// The peers this process has an active outbound session with.
    pub connections: Connections,
}

impl PeerState {
    /// The value stays in range and the registry stays well formed.
    pub open spec fn wf(self) -> bool {
        &&& -VALUE_BOUND <= self.value <= VALUE_BOUND
        &&& self.connections.wf()
    }

    /// Creates a peer with the configured initial value and no connections.
    pub fn new(own_value: i64, own_address: &str) -> (s: PeerState)
        requires
            -VALUE_BOUND <= own_value <= VALUE_BOUND,
        ensures
            s.wf(),
            s.value == own_value,
            s.address@ == own_address@,
            s.connections.peers@.len() == 0,
    {
        PeerState {
            address: String::from_str(own_address),
            value: own_value,
            connections: Connections::new(),
        }
    }

    /// Answers an inbound exchange: merges the caller's value into the
    /// local value and returns the local value from before the merge, so
    /// that the caller can move to the same midpoint.
    pub fn send_value_request(&mut self, peer_value: i64) -> (prior: i64)
        requires
            old(self).wf(),
            -VALUE_BOUND <= peer_value <= VALUE_BOUND,
        ensures
            final(self).wf(),
            prior == old(self).value,
            final(self).value == avg(old(self).value as int, peer_value as int),
            final(self).connections == old(self).connections,
            final(self).address == old(self).address,
    {
        let prior = self.value;
        self.value = midpoint(self.value, peer_value);
        prior
    }

    /// Merges the pre-update value a remote peer answered an outbound
    /// exchange with.
    pub fn merge_response(&mut self, peer_value: i64)
        requires
            old(self).wf(),
            -VALUE_BOUND <= peer_value <= VALUE_BOUND,
        ensures
            final(self).wf(),
            final(self).value == avg(old(self).value as int, peer_value as int),
            final(self).connections == old(self).connections,
            final(self).address == old(self).address,
    {
        self.value = midpoint(self.value, peer_value);
    }
}

} // verus!
