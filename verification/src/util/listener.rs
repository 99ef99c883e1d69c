//! Queues of connections shared by the two halves of a split listener.
//!
//! When a listener is split into a read listener and a write listener,
//! each accepted connection is split too: the half that the accepting
//! listener asked for is handed out at once, and the other half waits in
//! the other listener's queue, whose waker (if any) is woken. A queue holds
//! at most a fixed number of connections; when it is full, the oldest one
//! makes room for the new one.

use vstd::prelude::*;
use std::collections::VecDeque;
use crate::util::SocketAddr;

verus! {

/// Error of uniting a read listener and a write listener.
#[derive(Debug)]
pub enum UnsplitError {
    /// Failed to take the listener out of its shared reference.
    TryUnwrap,
    /// The two halves do not share the same listener.
    ArcPtrUnequal,
}

/// The number of connections a listener's queues hold at most.
pub const QUEUE_CAPACITY: usize = 1024;

/// Connections waiting for a listener, oldest first, with the waker of the
/// task waiting for them.
#[derive(Debug)]
pub struct ConnQueue<T, W> {
    queue: VecDeque<(T, SocketAddr)>,
    waker: Option<W>,
}

/// `s` with `x` added at the back, after dropping the front when `s`
/// already holds `capacity` elements.
pub open spec fn bounded_push<T>(s: Seq<T>, x: T, capacity: nat) -> Seq<T> {
    if s.len() >= capacity && s.len() > 0 {
        s.drop_first().push(x)
    } else {
        s.push(x)
    }
}

/// A bounded queue keeps the newest: the pushed element comes last, the
/// queue grows by one until it holds `capacity` elements, and from then on
/// the oldest is dropped; the elements kept stay in their order.
pub proof fn lemma_bounded_push<T>(s: Seq<T>, x: T, capacity: nat)
    requires
        s.len() <= capacity,
    ensures
        bounded_push(s, x, capacity).last() == x,
        s.len() < capacity ==> bounded_push(s, x, capacity) == s.push(x),
        s.len() == capacity && capacity > 0 ==> bounded_push(s, x, capacity).len() == capacity
            && bounded_push(s, x, capacity) == s.push(x).skip(1),
{
    if s.len() == capacity && capacity > 0 {
        assert(s.drop_first().push(x) =~= s.push(x).skip(1));
    }
}

impl<T, W> ConnQueue<T, W> {
    /// The waiting connections, oldest first.
    pub closed spec fn entries(self) -> Seq<(T, SocketAddr)> {
        self.queue@
    }

    /// The waker of the task waiting for a connection, if any.
    pub closed spec fn spec_waker(self) -> Option<W> {
        self.waker
    }

    /// An empty queue with no waker.
    pub fn new(capacity: usize) -> (q: Self)
        ensures
            q.entries().len() == 0,
            q.spec_waker() is None,
    {
        ConnQueue { queue: VecDeque::with_capacity(capacity / 8), waker: None }
    }

    /// The number of waiting connections.
    pub fn len(&self) -> (n: usize)
        ensures
            n == self.entries().len(),
    {
        self.queue.len()
    }

    /// Whether no connection is waiting.
    pub fn is_empty(&self) -> (b: bool)
        ensures
            b == (self.entries().len() == 0),
    {
        self.queue.len() == 0
    }

    /// Takes the oldest waiting connection, if any.
    pub fn pop_front(&mut self) -> (r: Option<(T, SocketAddr)>)
        ensures
            old(self).entries().len() == 0 ==> r is None && final(self).entries() == old(self).entries(),
            old(self).entries().len() > 0 ==> r == Some(old(self).entries()[0]) && final(self).entries() == old(self).entries().drop_first(),
            final(self).spec_waker() == old(self).spec_waker(),
    {
        self.queue.pop_front()
    }

    /// Queues a connection; when `capacity` connections already wait, the
    /// oldest one is dropped first.
    pub fn push_back(&mut self, conn: T, addr: SocketAddr, capacity: usize)
        ensures
            final(self).entries() == bounded_push(old(self).entries(), (conn, addr), capacity as nat),
            final(self).spec_waker() == old(self).spec_waker(),
    {
        // if the queue is at capacity, pop the oldest connection.
        if self.queue.len() >= capacity {
            let _ = self.queue.pop_front();
        }
        // queue the new connection.
        self.queue.push_back((conn, addr));
    }

    /// Keeps `waker` as the waker of the task waiting for a connection,
    /// in place of any other.
    pub fn set_waker(&mut self, waker: W)
        ensures
            final(self).entries() == old(self).entries(),
            final(self).spec_waker() == Some(waker),
    {
        self.waker = Some(waker);
    }

    /// Takes the waker of the task waiting for a connection, if any.
    pub fn take_waker(&mut self) -> (w: Option<W>)
        ensures
            final(self).entries() == old(self).entries(),
            w == old(self).spec_waker(),
            final(self).spec_waker() is None,
    {
        self.waker.take()
    }
}

/// A bounded queue never holds more than its capacity, once it holds no
/// more than that.
pub proof fn lemma_bounded_push_len<T>(s: Seq<T>, x: T, capacity: nat)
    requires
        s.len() <= capacity,
        capacity > 0,
    ensures
        bounded_push(s, x, capacity).len() <= capacity,
        bounded_push(s, x, capacity).last() == x,
{
}

} // verus!
