//! Bounded per-peer outbound queues.
//!
//! Each registered peer owns one queue of capacity one. The gossip scheduler
//! places the local value on it and the peer's outbound worker drains it.
//! A full or closed queue rejects the value instead of dropping anything.

use vstd::prelude::*;

verus! {

use vstd::string::StringExecFns;

/// How many values a per-peer outbound queue can hold at once.
pub const QUEUE_CAPACITY: usize = 1;

/// Why a value could not be handed to a peer.
#[derive(Debug, Clone, Copy, PartialEq, Eq, Structural)]
pub enum SendError {
    /// No registry entry exists for the addressed peer.
    UnknownPeer,
    /// The peer's queue already holds an undrained value.
    QueueFull,
    /// The peer's worker has stopped draining the queue.
    QueueClosed,
}

impl SendError {
    /// A human-readable description of the failure.
    pub fn describe(&self) -> (m: String)
        ensures
            *self == SendError::UnknownPeer ==> m@
                == "Couldn't find the peer with the address given"@,
            *self == SendError::QueueFull ==> m@ == "The peer's queue is full"@,
            *self == SendError::QueueClosed ==> m@ == "The peer's queue is closed"@,
    {
        match self {
            SendError::UnknownPeer => String::from_str(
                "Couldn't find the peer with the address given",
            ),
            SendError::QueueFull => String::from_str("The peer's queue is full"),
            SendError::QueueClosed => String::from_str("The peer's queue is closed"),
        }
    }
}

/// A bounded queue of values awaiting one peer's outbound worker.
///
/// Values leave in the order they entered; a send to a full or closed queue
/// fails without touching the queued values.
pub struct PeerQueue {
    /// Queued values, oldest first.
    pub items: Vec<i64>,
    /// Set once the draining worker has terminated.
    pub closed: bool,
}

impl PeerQueue {
    /// The queued values, oldest first.
    pub open spec fn contents(self) -> Seq<i64> {
        self.items@
    }

    /// Whether the draining worker has terminated.
    pub open spec fn is_closed(self) -> bool {
        self.closed
    }

    /// The queue never holds more than its capacity.
    pub open spec fn wf(self) -> bool {
        self.items@.len() <= QUEUE_CAPACITY
    }

    /// Whether a send would succeed: the worker is still draining and a
    /// slot is free.
    pub open spec fn can_accept(self) -> bool {
        &&& !self.closed
        &&& self.items@.len() < QUEUE_CAPACITY
    }

    /// Creates an empty open queue.
    pub fn new() -> (q: PeerQueue)
        ensures
            q.wf(),
            q.contents() == Seq::<i64>::empty(),
            !q.is_closed(),
    {
        PeerQueue { items: Vec::new(), closed: false }
    }

    /// Offers a value to the queue.
    ///
    /// Succeeds exactly when the queue can accept; on failure the error
    /// names the reason and the queued values are untouched, so no value is
    /// ever silently dropped.
    pub fn try_enqueue(&mut self, value: i64) -> (r: Result<(), SendError>)
        requires
            old(self).wf(),
        ensures
            final(self).wf(),
            final(self).is_closed() == old(self).is_closed(),
            r is Ok <==> old(self).can_accept(),
            old(self).can_accept() ==> final(self).contents() == old(self).contents().push(
                value,
            ),
            !old(self).can_accept() ==> final(self).contents() == old(self).contents(),
            old(self).is_closed() ==> r == Err::<(), SendError>(SendError::QueueClosed),
            (!old(self).is_closed() && old(self).contents().len() >= QUEUE_CAPACITY) ==> r
                == Err::<(), SendError>(SendError::QueueFull),
    {
        if self.closed {
            Err(SendError::QueueClosed)
        } else if self.items.len() >= QUEUE_CAPACITY {
            Err(SendError::QueueFull)
        } else {
            self.items.push(value);
            Ok(())
        }
    }

    /// Takes the oldest queued value, if any.
    pub fn dequeue(&mut self) -> (r: Option<i64>)
        requires
            old(self).wf(),
        ensures
            final(self).wf(),
            final(self).is_closed() == old(self).is_closed(),
            old(self).contents().len() == 0 ==> r is None
                && final(self).contents() == old(self).contents(),
            old(self).contents().len() > 0 ==> r == Some(old(self).contents()[0])
                && final(self).contents() == old(self).contents().drop_first(),
    {
        if self.items.len() == 0 {
            None
        } else {
            let v = self.items.remove(0);
            Some(v)
        }
    }

    /// Marks the queue closed: its worker has terminated and will drain
    /// nothing further.
    pub fn close(&mut self)
        requires
            old(self).wf(),
        ensures
            final(self).wf(),
            final(self).is_closed(),
            final(self).contents() == old(self).contents(),
    {
        self.closed = true;
    }

    /// How many values are waiting.
    pub fn len(&self) -> (n: usize)
        ensures
            n == self.contents().len(),
    {
        self.items.len()
    }
}

} // verus!
