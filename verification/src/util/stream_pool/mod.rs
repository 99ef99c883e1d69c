//! A pool of framed connections, each with the address of its peer.
//!
//! A pool is either an "array" pool, whose size is limited by the const
//! generic `N`, or a "vec" pool, limited or not. Connections are added at
//! the end; a failed connection is removed by moving the last connection
//! into its place.
//!
//! The polling of the connections is done by the caller, connection by
//! connection; the pool decides which connection comes next, removes the
//! ones that fail and collects their errors.

pub mod errors;

use vstd::prelude::*;
use bytes::BytesMut;
use crate::codec::length_delimited::Error as CodecError;
use crate::util::SocketAddr;
use crate::util::split::Split;
use errors::{PollError, SinkErrors, StreamPoolError, SinkStep, UnsplitError, sink_error, make_sink_error};

verus! {

/// The connections of a pool.
#[derive(Debug)]
enum Pool<S> {
    /// An array pool; its size is limited by the pool's const generic.
    Array { streams: Vec<(S, SocketAddr)> },
    /// A vec pool, with an optional limit.
    Vec { streams: Vec<(S, SocketAddr)>, limit: Option<usize> },
}

/// A pool of framed connections.
#[derive(Debug)]
pub struct StreamPool<S, const N: usize> {
    pool: Pool<S>,
    // Used for keeping track of current polling stream/sink stream index.
    // Since stream/sink never happens at the same time, it's safe to use the same field for both.
    index: usize,
    sink_errors: Vec<PollError>,
}

/// `s` with its element at `i` replaced by its last element, and the last
/// element dropped: what `Vec::swap_remove` leaves.
pub open spec fn swap_removed<T>(s: Seq<T>, i: int) -> Seq<T> {
    s.update(i, s.last()).drop_last()
}

/// Removing by swapping takes out exactly the element at `i`: one element
/// fewer, the others all kept (the last one moved into its place), and
/// those before `i` unchanged.
pub proof fn lemma_swap_removed<T>(s: Seq<T>, i: int)
    requires
        0 <= i < s.len(),
    ensures
        swap_removed(s, i).len() == s.len() - 1,
        swap_removed(s, i).to_multiset() == s.to_multiset().remove(s[i]),
        forall|j: int| 0 <= j < s.len() - 1 && j != i ==> #[trigger] swap_removed(s, i)[j] == s[j],
        i < s.len() - 1 ==> swap_removed(s, i)[i] == s.last(),
{
    broadcast use vstd::seq_lib::group_to_multiset_ensures;
    let t = swap_removed(s, i);
    if i == s.len() - 1 {
        assert(t =~= s.remove(i));
    } else {
        let n = s.len() - 1;
        // s without its last element, then with that element put back at i
        assert(s =~= s.drop_last().push(s.last()));
        assert(t =~= s.drop_last().update(i, s.last()));
        assert(s.drop_last().update(i, s.last()) =~= s.drop_last().remove(i).insert(i, s.last()));
        assert(s.drop_last().remove(i) =~= s.remove(i).drop_last());
        assert(s.remove(i).drop_last().push(s.last()) =~= s.remove(i));
        vstd::seq_lib::to_multiset_insert(s.drop_last().remove(i), i, s.last());
        vstd::seq_lib::to_multiset_build(s.drop_last().remove(i), s.last());
        vstd::seq_lib::to_multiset_remove(s, i);
        assert(s.remove(i).to_multiset() == s.drop_last().remove(i).push(s.last()).to_multiset());
    }
}

/// The indices in `s` increase, and all are below `len`.
pub open spec fn increasing_below(s: Seq<usize>, len: nat) -> bool {
    &&& forall|i: int, j: int| 0 <= i < j < s.len() ==> s[i] < s[j]
    &&& forall|i: int| 0 <= i < s.len() ==> s[i] < len
}

impl<S, const N: usize> StreamPool<S, N> {
    /// The connections, in order, each with its peer's address.
    pub closed spec fn entries(self) -> Seq<(S, SocketAddr)> {
        match self.pool {
            Pool::Array { streams } => streams@,
            Pool::Vec { streams, .. } => streams@,
        }
    }

    /// Whether this is an array pool.
    pub closed spec fn spec_is_array(self) -> bool {
        self.pool is Array
    }

    /// The limit on the number of connections, if any.
    pub closed spec fn spec_limit(self) -> Option<usize> {
        match self.pool {
            Pool::Array { .. } => Some(N),
            Pool::Vec { limit, .. } => limit,
        }
    }

    /// The polling cursor.
    pub closed spec fn cursor(self) -> usize {
        self.index
    }

    /// The errors collected since they were last drained.
    pub closed spec fn errors(self) -> Seq<PollError> {
        self.sink_errors@
    }

    /// The peers' addresses, in order.
    pub open spec fn addr_seq(self) -> Seq<SocketAddr> {
        self.entries().map_values(|e: (S, SocketAddr)| e.1)
    }

    /// The pool holds as many connections as its limit allows.
    pub open spec fn is_full(self) -> bool {
        self.spec_limit() matches Some(l) && self.entries().len() == l
    }

    /// The pool holds no more connections than its limit.
    pub open spec fn wf(self) -> bool {
        self.spec_limit() matches Some(l) ==> self.entries().len() <= l
    }

    /// Whether this is an array pool.
    pub fn is_array(&self) -> (b: bool)
        ensures
            b == self.spec_is_array(),
    {
        matches!(self.pool, Pool::Array { .. })
    }

    /// Whether this is a vec pool.
    pub fn is_vec(&self) -> (b: bool)
        ensures
            b == !self.spec_is_array(),
    {
        !self.is_array()
    }

    /// An empty array pool, limited to `M` connections.
    pub fn array<const M: usize>() -> (p: StreamPool<S, M>)
        ensures
            p.wf(),
            p.entries().len() == 0,
            p.spec_is_array(),
            p.spec_limit() == Some(M),
            p.cursor() == 0,
            p.errors().len() == 0,
    {
        StreamPool { pool: Pool::Array { streams: Vec::new() }, index: 0, sink_errors: Vec::new() }
    }

    /// An empty vec pool, without limit.
    pub fn vec() -> (p: Self)
        ensures
            p.wf(),
            p.entries().len() == 0,
            !p.spec_is_array(),
            p.spec_limit() is None,
            p.cursor() == 0,
            p.errors().len() == 0,
    {
        StreamPool {
            pool: Pool::Vec { streams: Vec::new(), limit: None },
            index: 0,
            sink_errors: Vec::new(),
        }
    }

    /// An empty vec pool, without limit, with room for `capacity` connections.
    pub fn with_capacity(capacity: usize) -> (p: Self)
        ensures
            p.wf(),
            p.entries().len() == 0,
            !p.spec_is_array(),
            p.spec_limit() is None,
            p.cursor() == 0,
            p.errors().len() == 0,
    {
        StreamPool {
            pool: Pool::Vec { streams: Vec::with_capacity(capacity), limit: None },
            index: 0,
            sink_errors: Vec::new(),
        }
    }

    /// An empty vec pool, limited to `capacity` connections.
    pub fn with_limit(capacity: usize) -> (p: Self)
        ensures
            p.wf(),
            p.entries().len() == 0,
            !p.spec_is_array(),
            p.spec_limit() == Some(capacity),
            p.cursor() == 0,
            p.errors().len() == 0,
    {
        StreamPool {
            pool: Pool::Vec { streams: Vec::with_capacity(capacity), limit: Some(capacity) },
            index: 0,
            sink_errors: Vec::new(),
        }
    }

    /// The number of connections.
    pub fn len(&self) -> (n: usize)
        ensures
            n == self.entries().len(),
    {
        match &self.pool {
            Pool::Array { streams } => streams.len(),
            Pool::Vec { streams, .. } => streams.len(),
        }
    }

    /// The limit on the number of connections, if any.
    pub fn limit(&self) -> (l: Option<usize>)
        ensures
            l == self.spec_limit(),
    {
        match &self.pool {
            Pool::Array { .. } => Some(N),
            Pool::Vec { limit, .. } => *limit,
        }
    }

    /// The peers' addresses, in order.
    pub fn addrs(&self) -> (addrs: Vec<SocketAddr>)
        ensures
            addrs@ == self.addr_seq(),
    {
        let len = self.len();
        let mut addrs: Vec<SocketAddr> = Vec::with_capacity(len);
        let mut i: usize = 0;
        while i < len
            invariant
                len == self.entries().len(),
                i <= len,
                addrs@ == self.addr_seq().take(i as int),
            decreases len - i,
        {
            let a = self.get(i).unwrap().1;
            addrs.push(a);
            i += 1;
            proof {
                assert(addrs@ =~= self.addr_seq().take(i as int));
            }
        }
        proof {
            assert(self.addr_seq().take(len as int) =~= self.addr_seq());
        }
        addrs
    }


    /// Adds a connection at the end. Fails, dropping the connection, when
    /// the pool is at its limit.
    pub fn push(&mut self, stream: S, addr: SocketAddr) -> (r: Result<(), StreamPoolError>)
        ensures
            old(self).wf() ==> final(self).wf(),
            final(self).spec_is_array() == old(self).spec_is_array(),
            final(self).spec_limit() == old(self).spec_limit(),
            final(self).cursor() == old(self).cursor(),
            final(self).errors() == old(self).errors(),
            old(self).is_full() ==> {
                &&& r matches Err(StreamPoolError::AddStreamLimitReached { limit })
                &&& r->Err_0->limit == old(self).spec_limit().unwrap()
                &&& final(self).entries() == old(self).entries()
            },
            !old(self).is_full() ==> {
                &&& r is Ok
                &&& final(self).entries() == old(self).entries().push((stream, addr))
            },
    {
        match &mut self.pool {
            Pool::Array { streams } => {
                if streams.len() == N {
                    return Err(StreamPoolError::AddStreamLimitReached { limit: N });
                }
                streams.push((stream, addr));
            },
            Pool::Vec { streams, limit } => {
                if let Some(limit) = limit {
                    if streams.len() == *limit {
                        return Err(StreamPoolError::AddStreamLimitReached { limit: *limit });
                    }
                }
                streams.push((stream, addr));
            },
        }
        Ok(())
    }

    /// Removes the last connection, if any.
    pub fn pop(&mut self) -> (r: Option<(S, SocketAddr)>)
        ensures
            old(self).wf() ==> final(self).wf(),
            final(self).spec_is_array() == old(self).spec_is_array(),
            final(self).spec_limit() == old(self).spec_limit(),
            final(self).cursor() == old(self).cursor(),
            final(self).errors() == old(self).errors(),
            old(self).entries().len() == 0 ==> r is None && final(self).entries() == old(self).entries(),
            old(self).entries().len() > 0 ==> r == Some(old(self).entries().last())
                && final(self).entries() == old(self).entries().drop_last(),
    {
        match &mut self.pool {
            Pool::Array { streams } => streams.pop(),
            Pool::Vec { streams, .. } => streams.pop(),
        }
    }

    /// Removes the connection at `index` by moving the last connection into
    /// its place. An array pool hands out the removed connection; a vec
    /// pool hands it out unless it was the last one.
    pub fn swap_remove(&mut self, index: usize) -> (r: Option<(S, SocketAddr)>)
        ensures
            old(self).wf() ==> final(self).wf(),
            final(self).spec_is_array() == old(self).spec_is_array(),
            final(self).spec_limit() == old(self).spec_limit(),
            final(self).cursor() == old(self).cursor(),
            final(self).errors() == old(self).errors(),
            index >= old(self).entries().len() ==> r is None && final(self).entries()
                == old(self).entries(),
            index < old(self).entries().len() ==> {
                &&& final(self).entries() == swap_removed(old(self).entries(), index as int)
                &&& if !old(self).spec_is_array() && index == old(self).entries().len() - 1 {
                    r is None
                } else {
                    r == Some(old(self).entries()[index as int])
                }
            },
    {
        match &mut self.pool {
            Pool::Array { streams } => {
                // if there are no elements, no action required.
                if streams.len() == 0 {
                    return None;
                }
                // if index is greater or equal to number of elements, no action required.
                if index >= streams.len() {
                    return None;
                }
                // if index is the last index, then pop last element.
                if index == streams.len() - 1 {
                    let r = streams.pop();
                    proof {
                        assert(swap_removed(old(self).entries(), index as int) =~= old(self).entries().drop_last());
                    }
                    return r;
                }
                // swap element at index with last element, and pop it.
                Some(streams.swap_remove(index))
            },
            Pool::Vec { streams, .. } => {
                let streams_len = streams.len();
                // if there are no streams, no action required.
                if streams_len == 0 {
                    return None;
                }
                // if index is greater or equal to number of streams, no action required.
                if index >= streams_len {
                    return None;
                }
                // if index is the last index, then pop last element.
                if index == streams_len - 1 {
                    streams.pop();
                    proof {
                        assert(swap_removed(old(self).entries(), index as int) =~= old(self).entries().drop_last());
                    }
                    return None;
                }
                // swap remove element at index.
                Some(streams.swap_remove(index))
            },
        }
    }

    /// Hands out the collected errors, if any, and forgets them.
    pub fn drain_sink_res(&mut self) -> (r: Result<(), SinkErrors>)
        ensures
            final(self).entries() == old(self).entries(),
            final(self).spec_is_array() == old(self).spec_is_array(),
            final(self).spec_limit() == old(self).spec_limit(),
            final(self).cursor() == old(self).cursor(),
            final(self).errors().len() == 0,
            old(self).errors().len() == 0 ==> r is Ok,
            old(self).errors().len() > 0 ==> (r matches Err(e) && e.spec_errors() == old(
                self,
            ).errors()),
    {
        let mut errors: Vec<PollError> = Vec::new();
        std::mem::swap(&mut errors, &mut self.sink_errors);

        // have first error as source
        if errors.len() != 0 {
            Err(SinkErrors::new(errors))
        } else {
            Ok(())
        }
    }

    /// Removes the connection at `index`, which failed at the sending step
    /// `step`, and collects its error.
    pub fn remove_failed(&mut self, index: usize, step: SinkStep, source: CodecError)
        requires
            old(self).wf(),
            index < old(self).entries().len(),
        ensures
            final(self).wf(),
            final(self).spec_is_array() == old(self).spec_is_array(),
            final(self).spec_limit() == old(self).spec_limit(),
            final(self).cursor() == old(self).cursor(),
            final(self).entries() == swap_removed(old(self).entries(), index as int),
            final(self).errors() == old(self).errors().push(
                sink_error(step, old(self).entries()[index as int].1, source),
            ),
    {
        let addr = self.get(index).unwrap().1;
        let _ = self.swap_remove(index);
        self.sink_errors.push(make_sink_error(step, addr, source));
    }


    /// The order in which the next `poll_next` visits the connections: all
    /// of them, round robin, from the cursor on.
    pub fn poll_next_order(&self) -> (order: Vec<usize>)
        ensures
            order@.len() == self.entries().len(),
            forall|k: int|
                0 <= k < order@.len() ==> #[trigger] order@[k] == ((self.cursor() as int) % (
                    self.entries().len() as int) + k) % (self.entries().len() as int),
    {
        let len = self.len();
        let mut order: Vec<usize> = Vec::with_capacity(len);
        if len == 0 {
            return order;
        }
        let start = self.index % len;
        let mut index = start;
        let mut k: usize = 0;
        proof {
            assert((start + 0) % (len as int) == start) by (nonlinear_arith)
                requires
                    start < len,
            ;
        }
        while k < len
            invariant
                len == self.entries().len(),
                len > 0,
                start == (self.cursor() as int) % (len as int),
                k <= len,
                order@.len() == k,
                index == (start + k) % (len as int),
                forall|j: int| 0 <= j < k ==> #[trigger] order@[j] == (start + j) % (len as int),
            decreases len - k,
        {
            order.push(index);
            proof {
                assert((start + k + 1) % (len as int) == ((start + k) % (len as int) + 1) % (len as int))
                    by (nonlinear_arith)
                    requires
                        len > 0,
                ;
            }
            index = (index + 1) % len;
            k += 1;
        }
        order
    }

    /// The connection at `index` gave an item in `poll_next`: a frame, or
    /// an error, in which case it is removed. The next `poll_next` starts
    /// at the following connection.
    pub fn poll_next_ready(&mut self, index: usize, item: Result<BytesMut, CodecError>) -> (r: (
        Result<BytesMut, PollError>,
        SocketAddr,
    ))
        requires
            old(self).wf(),
            index < old(self).entries().len(),
        ensures
            final(self).wf(),
            final(self).spec_is_array() == old(self).spec_is_array(),
            final(self).spec_limit() == old(self).spec_limit(),
            final(self).errors() == old(self).errors(),
            r.1 == old(self).entries()[index as int].1,
            item is Ok ==> {
                &&& r.0 == Ok::<BytesMut, PollError>(item->Ok_0)
                &&& final(self).entries() == old(self).entries()
                &&& final(self).cursor() == (index + 1) % (old(self).entries().len() as int)
            },
            item is Err ==> {
                &&& r.0 == Err::<BytesMut, PollError>(
                    PollError::PollNext { addr: r.1, source: item->Err_0 },
                )
                &&& final(self).entries() == swap_removed(old(self).entries(), index as int)
                &&& final(self).cursor() == index
            },
    {
        let len = self.len();
        let addr = self.get(index).unwrap().1;
        match item {
            Ok(frame) => {
                // start poll at the next index for next poll
                self.index = (index + 1) % len;
                (Ok(frame), addr)
            },
            Err(source) => {
                let _ = self.swap_remove(index);
                // since stream at this index is removed, start at the same index next poll
                self.index = index;
                (Err(PollError::PollNext { addr, source }), addr)
            },
        }
    }

    /// No connection gave an item in `poll_next`; the next one starts where
    /// this one started.
    pub fn poll_next_pending(&mut self)
        requires
            old(self).entries().len() > 0,
        ensures
            final(self).entries() == old(self).entries(),
            final(self).spec_is_array() == old(self).spec_is_array(),
            final(self).spec_limit() == old(self).spec_limit(),
            final(self).errors() == old(self).errors(),
            final(self).cursor() == (old(self).cursor() as int) % (old(self).entries().len() as int),
    {
        let len = self.len();
        self.index = self.index % len;
    }


    /// Starts a round of polling every connection (`poll_ready`,
    /// `poll_flush` or `poll_close`). With no connection, the round is over
    /// at once, with the collected errors. Otherwise a finished round starts
    /// over from the last connection, and an interrupted one goes on where
    /// it stopped.
    pub fn poll_all_start(&mut self) -> (r: Option<Result<(), SinkErrors>>)
        ensures
            final(self).entries() == old(self).entries(),
            final(self).spec_is_array() == old(self).spec_is_array(),
            final(self).spec_limit() == old(self).spec_limit(),
            old(self).entries().len() == 0 ==> {
                &&& final(self).cursor() == 0
                &&& final(self).errors().len() == 0
                &&& old(self).errors().len() == 0 ==> (r matches Some(Ok(_)))
                &&& old(self).errors().len() > 0 ==> (r matches Some(Err(e)) && e.spec_errors()
                    == old(self).errors())
            },
            old(self).entries().len() > 0 ==> {
                &&& r is None
                &&& final(self).errors() == old(self).errors()
                &&& final(self).cursor() == if old(self).cursor() == 0 {
                    old(self).entries().len() as usize
                } else {
                    old(self).cursor()
                }
            },
    {
        let len = self.len();
        if len == 0 {
            // if there are no streams, reset index and return
            self.index = 0;
            return Some(self.drain_sink_res());
        }
        // if we were finished, then start over!
        if self.index == 0 {
            // start from last index and move down
            self.index = len;
        }
        None
    }

    /// The connection that the round of polling visits next, if any: the
    /// one before the cursor.
    pub fn poll_all_next(&self) -> (r: Option<usize>)
        ensures
            self.cursor() == 0 ==> r is None,
            self.cursor() > 0 ==> r == Some((self.cursor() - 1) as usize),
    {
        if self.index > 0 {
            Some(self.index - 1)
        } else {
            None
        }
    }

    /// The connection before the cursor became ready at the sending step
    /// `step`, or failed, in which case it is removed and its error
    /// collected. The cursor moves down.
    pub fn poll_all_ready(&mut self, result: Result<(), CodecError>, step: SinkStep)
        requires
            old(self).wf(),
            0 < old(self).cursor() <= old(self).entries().len(),
        ensures
            final(self).wf(),
            final(self).spec_is_array() == old(self).spec_is_array(),
            final(self).spec_limit() == old(self).spec_limit(),
            final(self).cursor() == old(self).cursor() - 1,
            final(self).cursor() <= final(self).entries().len(),
            result is Ok ==> final(self).entries() == old(self).entries() && final(self).errors()
                == old(self).errors(),
            result is Err ==> {
                let i = old(self).cursor() - 1;
                &&& final(self).entries() == swap_removed(old(self).entries(), i)
                &&& final(self).errors() == old(self).errors().push(
                    sink_error(step, old(self).entries()[i].1, result->Err_0),
                )
            },
    {
        let i = self.index - 1;
        if let Err(error) = result {
            self.remove_failed(i, step, error);
        }
        self.index = i;
    }

    /// Ends a round of polling or sending that visited every connection: it
    /// fails with the collected errors when no connection is left.
    pub fn finish_round(&mut self) -> (r: Result<(), SinkErrors>)
        ensures
            final(self).entries() == old(self).entries(),
            final(self).spec_is_array() == old(self).spec_is_array(),
            final(self).spec_limit() == old(self).spec_limit(),
            final(self).cursor() == old(self).cursor(),
            old(self).entries().len() > 0 ==> r is Ok && final(self).errors() == old(self).errors(),
            old(self).entries().len() == 0 ==> {
                &&& final(self).errors().len() == 0
                &&& old(self).errors().len() == 0 ==> r is Ok
                &&& old(self).errors().len() > 0 ==> (r matches Err(e) && e.spec_errors() == old(
                    self,
                ).errors())
            },
    {
        if self.len() == 0 {
            self.drain_sink_res()
        } else {
            Ok(())
        }
    }

    /// The indices of all connections, in increasing order.
    pub fn all_indices(&self) -> (r: Vec<usize>)
        ensures
            r@.len() == self.entries().len(),
            forall|k: int| 0 <= k < r@.len() ==> r@[k] == k,
    {
        let len = self.len();
        let mut r: Vec<usize> = Vec::with_capacity(len);
        let mut i: usize = 0;
        while i < len
            invariant
                i <= len,
                r@.len() == i,
                forall|k: int| 0 <= k < i ==> r@[k] == k,
            decreases len - i,
        {
            r.push(i);
            i += 1;
        }
        r
    }

    /// The indices, in increasing order, of the connections whose peer's
    /// address passes `filter`.
    pub fn get_indices<F: Fn(SocketAddr) -> bool>(&self, filter: &F) -> (r: Vec<usize>)
        requires
            forall|a: SocketAddr| filter.requires((a,)),
        ensures
            increasing_below(r@, self.entries().len()),
            forall|k: int|
                0 <= k < r@.len() ==> filter.ensures((self.entries()[r@[k] as int].1,), true),
            forall|i: int|
                0 <= i < self.entries().len() && !r@.contains(i as usize) ==> filter.ensures(
                    (self.entries()[i].1,),
                    false,
                ),
    {
        let len = self.len();
        let mut r: Vec<usize> = Vec::new();
        let mut i: usize = 0;
        while i < len
            invariant
                len == self.entries().len(),
                i <= len,
                forall|a: SocketAddr| filter.requires((a,)),
                increasing_below(r@, i as nat),
                forall|k: int|
                    0 <= k < r@.len() ==> filter.ensures((self.entries()[r@[k] as int].1,), true),
                forall|j: int|
                    0 <= j < i && !r@.contains(j as usize) ==> filter.ensures(
                        (self.entries()[j].1,),
                        false,
                    ),
            decreases len - i,
        {
            let addr = self.get(i).unwrap().1;
            let keep = filter(addr);
            if keep {
                let ghost r_old = r@;
                r.push(i);
                proof {
                    assert forall|j: int|
                        0 <= j < i + 1 && !r@.contains(j as usize) implies filter.ensures(
                        (self.entries()[j].1,),
                        false,
                    ) by {
                        if j < i {
                            if r_old.contains(j as usize) {
                                let k = choose|k: int|
                                    0 <= k < r_old.len() && r_old[k] == j as usize;
                                assert(r@[k] == j as usize);
                            }
                        } else {
                            assert(r@[r@.len() - 1] == i);
                        }
                    }
                }
            } else {
                proof {
                    assert forall|j: int|
                        0 <= j < i + 1 && !r@.contains(j as usize) implies filter.ensures(
                        (self.entries()[j].1,),
                        false,
                    ) by {
                        if j == i {
                        }
                    }
                }
            }
            i += 1;
        }
        r
    }

    /// The indices, in increasing order, of the connections whose entry in
    /// `passes` is true: `passes` holds, for each connection in order,
    /// whether its peer's address passed a filter.
    pub fn indices_where(&self, passes: &Vec<bool>) -> (r: Vec<usize>)
        requires
            passes@.len() == self.entries().len(),
        ensures
            increasing_below(r@, self.entries().len()),
            forall|i: int| 0 <= i < passes@.len() ==> (r@.contains(i as usize) <==> passes@[i]),
    {
        let len = passes.len();
        let mut r: Vec<usize> = Vec::new();
        let mut i: usize = 0;
        while i < len
            invariant
                len == passes@.len(),
                i <= len,
                increasing_below(r@, i as nat),
                forall|j: int| 0 <= j < i ==> (r@.contains(j as usize) <==> passes@[j]),
            decreases len - i,
        {
            let ghost r_old = r@;
            if passes[i] {
                r.push(i);
            }
            proof {
                assert forall|j: int| 0 <= j < i + 1 implies (r@.contains(j as usize) <==> passes@[j]) by {
                    if j < i {
                        if r_old.contains(j as usize) {
                            let k = choose|k: int| 0 <= k < r_old.len() && r_old[k] == j as usize;
                            assert(r@[k] == j as usize);
                        }
                        if r@.contains(j as usize) {
                            let k = choose|k: int| 0 <= k < r@.len() && r@[k] == j as usize;
                            if k < r_old.len() {
                                assert(r_old[k] == j as usize);
                            }
                        }
                    } else {
                        if passes@[j] {
                            assert(r@[r@.len() - 1] == i);
                        }
                    }
                }
            }
            i += 1;
        }
        r
    }

    /// Settles the connection at the last of `indices`, which became ready
    /// at the sending step `step` or failed, in which case it is removed and
    /// its error collected; drops that index. The other indices, all
    /// smaller, stay valid.
    pub fn settle_last(
        &mut self,
        indices: &mut Vec<usize>,
        result: Result<(), CodecError>,
        step: SinkStep,
    )
        requires
            old(self).wf(),
            old(indices)@.len() > 0,
            increasing_below(old(indices)@, old(self).entries().len()),
        ensures
            final(self).wf(),
            final(self).spec_is_array() == old(self).spec_is_array(),
            final(self).spec_limit() == old(self).spec_limit(),
            final(self).cursor() == old(self).cursor(),
            final(indices)@ == old(indices)@.drop_last(),
            increasing_below(final(indices)@, final(self).entries().len()),
            result is Ok ==> final(self).entries() == old(self).entries() && final(self).errors()
                == old(self).errors(),
            result is Err ==> {
                let i = old(indices)@.last() as int;
                &&& final(self).entries() == swap_removed(old(self).entries(), i)
                &&& final(self).errors() == old(self).errors().push(
                    sink_error(step, old(self).entries()[i].1, result->Err_0),
                )
            },
    {
        let i = indices[indices.len() - 1];
        if let Err(error) = result {
            self.remove_failed(i, step, error);
        }
        // Ready or not, this index is not pending anymore.
        indices.pop();
        proof {
            let s = old(indices)@;
            assert forall|k: int| 0 <= k < indices@.len() implies indices@[k] < i by {
                assert(s[k] < s[s.len() - 1]);
            }
        }
    }

    /// The connection at `index`, if there is one.
    pub fn get(&self, index: usize) -> (r: Option<&(S, SocketAddr)>)
        ensures
            index < self.entries().len() ==> r == Some(&self.entries()[index as int]),
            index >= self.entries().len() ==> r is None,
    {
        let streams = match &self.pool {
            Pool::Array { streams } => streams,
            Pool::Vec { streams, .. } => streams,
        };
        if index < streams.len() {
            Some(&streams[index])
        } else {
            None
        }
    }

    /// The connection at `index`, if there is one, to change in place.
    pub fn get_mut(&mut self, index: usize) -> (r: Option<&mut (S, SocketAddr)>)
        ensures
            index < old(self).entries().len() ==> (r matches Some(e) && *e == old(self).entries()[index as int]
                && final(self).entries() == old(self).entries().update(index as int, *final(e))),
            index >= old(self).entries().len() ==> r is None && *final(self) == *old(self),
            final(self).spec_is_array() == old(self).spec_is_array(),
            final(self).spec_limit() == old(self).spec_limit(),
            final(self).cursor() == old(self).cursor(),
            final(self).errors() == old(self).errors(),
    {
        let streams = match &mut self.pool {
            Pool::Array { streams } => streams,
            Pool::Vec { streams, .. } => streams,
        };
        if index < streams.len() {
            Some(&mut streams[index])
        } else {
            None
        }
    }
}



/// The cursor of a pool of `len` connections after `j` receives from cursor
/// `c`, each served by the first connection that `poll_next_order` visits
/// and settled by `poll_next_ready` with a frame.
pub open spec fn round_robin_cursor(c: int, len: int, j: nat) -> int
    decreases j,
{
    if j == 0 {
        c
    } else {
        ((round_robin_cursor(c, len, (j - 1) as nat) % len) + 1) % len
    }
}

/// Receiving is fair: while every connection has a frame ready, receive
/// number `j` (from zero) is served by connection `(c + j) % len`, where
/// `c` is the cursor before the first, so any `len` successive receives are
/// served by `len` different connections, each once.
pub proof fn lemma_round_robin(c: int, len: int, j: nat)
    requires
        len > 0,
    ensures
        round_robin_cursor(c, len, j) % len == (c + j) % len,
        forall|a: int, b: int| 0 <= a < b < len ==> #[trigger] ((c + a) % len) != #[trigger] ((c + b) % len),
    decreases j,
{
    if j > 0 {
        lemma_round_robin(c, len, (j - 1) as nat);
        let x = c + j - 1;
        vstd::arithmetic::div_mod::lemma_add_mod_noop_right(1, x, len);
        vstd::arithmetic::div_mod::lemma_mod_twice(x + 1, len);
        assert(1 + x == c + j);
    }
    assert forall|a: int, b: int| 0 <= a < b < len implies #[trigger] ((c + a) % len) != #[trigger] ((c + b) % len) by {
        vstd::arithmetic::div_mod::lemma_fundamental_div_mod(c + a, len);
        vstd::arithmetic::div_mod::lemma_fundamental_div_mod(c + b, len);
        let qa = (c + a) / len;
        let qb = (c + b) / len;
        if (c + a) % len == (c + b) % len {
            assert(b - a == len * (qb - qa)) by (nonlinear_arith)
                requires
                    c + a == len * qa + (c + a) % len,
                    c + b == len * qb + (c + b) % len,
                    (c + a) % len == (c + b) % len,
            ;
            assert(false) by (nonlinear_arith)
                requires
                    b - a == len * (qb - qa),
                    0 < b - a < len,
            ;
        }
    }
}

/// The index of the first entry of `m` with the key `addr`, if any.
fn assoc_find<T>(m: &Vec<(SocketAddr, T)>, addr: SocketAddr) -> (r: Option<usize>)
    ensures
        r matches Some(i) ==> i < m@.len() && m@[i as int].0 == addr,
        r is None ==> forall|i: int| 0 <= i < m@.len() ==> m@[i].0 != addr,
{
    let mut i: usize = 0;
    while i < m.len()
        invariant
            i <= m@.len(),
            forall|j: int| 0 <= j < i ==> m@[j].0 != addr,
        decreases m@.len() - i,
    {
        if m[i].0 == addr {
            return Some(i);
        }
        i += 1;
    }
    None
}

/// The addresses of a list of halves keyed by address.
pub open spec fn keys<T>(m: Seq<(SocketAddr, T)>) -> Seq<SocketAddr> {
    m.map_values(|e: (SocketAddr, T)| e.0)
}

/// The read half and the write half of a pair that unite, with its address.
pub open spec fn pair_addrs<L, R>(m: Seq<(L, R, SocketAddr)>) -> Seq<SocketAddr> {
    m.map_values(|e: (L, R, SocketAddr)| e.2)
}

/// Every connection of `united` is what uniting a read half of `left` with a
/// write half of `right` gave, both halves of the same peer as it.
pub open spec fn reunited<S: Split>(
    left: Seq<(S::Left, SocketAddr)>,
    right: Seq<(S::Right, SocketAddr)>,
    united: Seq<(S, SocketAddr)>,
) -> bool {
    forall|j: int|
        #![trigger united[j]]
        0 <= j < united.len() ==> exists|i: int, k: int|
            #![trigger left[i], right[k]]
            0 <= i < left.len() && 0 <= k < right.len() && left[i].1 == united[j].1 && right[k].1
                == united[j].1 && call_ensures(S::unsplit, (left[i].0, right[k].0), Ok::<S, S::Error>(united[j].0))
}

/// A read pool and a write pool that cannot be united at all: they differ
/// in kind, length or limit, or do not hold the same peers (counted with
/// repetition).
pub open spec fn halves_unequal<L, R, const N: usize>(left: StreamPool<L, N>, right: StreamPool<R, N>) -> bool {
    ||| left.spec_is_array() != right.spec_is_array()
    ||| left.entries().len() != right.entries().len()
    ||| left.spec_limit() != right.spec_limit()
    ||| left.addr_seq().to_multiset() != right.addr_seq().to_multiset()
}

/// What uniting the read pool `left` with the write pool `right` gives:
/// `RWUnequal` exactly when the halves are unequal; `Unsplit` only with the
/// error of a read half and a write half of one peer that failed to unite;
/// otherwise a pool of the same kind and limit, made of what the pairs gave,
/// holding the peers of the read pool in the reverse order.
pub open spec fn unsplit_outcome<S: Split, const N: usize>(
    left: StreamPool<S::Left, N>,
    right: StreamPool<S::Right, N>,
    r: Result<StreamPool<S, N>, UnsplitError<S::Error>>,
) -> bool {
    &&& halves_unequal(left, right) <==> (r matches Err(UnsplitError::RWUnequal))
    &&& r matches Err(UnsplitError::Unsplit { source }) ==> exists|i: int, k: int|
        0 <= i < left.entries().len() && 0 <= k < right.entries().len()
            && #[trigger] left.entries()[i].1 == #[trigger] right.entries()[k].1 && call_ensures(
            S::unsplit,
            (left.entries()[i].0, right.entries()[k].0),
            Err::<S, S::Error>(source),
        )
    &&& r matches Ok(p) ==> {
        &&& left.wf() ==> p.wf()
        &&& p.spec_is_array() == left.spec_is_array()
        &&& p.spec_limit() == left.spec_limit()
        &&& p.cursor() == 0
        &&& p.errors().len() == 0
        &&& left.wf() ==> p.addr_seq() == left.addr_seq().reverse()
        &&& reunited::<S>(left.entries(), right.entries(), p.entries())
    }
}

/// The read halves `left` and the write halves `right` are, connection by
/// connection, what splitting the connections of `pool` gave, in the
/// reverse order.
pub open spec fn split_halves<S: Split>(
    pool: Seq<(S, SocketAddr)>,
    left: Seq<(S::Left, SocketAddr)>,
    right: Seq<(S::Right, SocketAddr)>,
) -> bool {
    &&& left.len() == pool.len()
    &&& right.len() == pool.len()
    &&& forall|k: int|
        0 <= k < pool.len() ==> call_ensures(
            S::split,
            (#[trigger] pool[pool.len() - 1 - k].0,),
            (left[k].0, right[k].0),
        )
}

/// Nothing united yet is trivially what some pairs gave.
proof fn lemma_reunited_empty<S: Split>(
    left: Seq<(S::Left, SocketAddr)>,
    right: Seq<(S::Right, SocketAddr)>,
)
    ensures
        reunited::<S>(left, right, Seq::empty()),
{
}

/// One more connection, made from a read half and a write half of its peer,
/// keeps `reunited`.
proof fn lemma_reunited_push<S: Split>(
    left: Seq<(S::Left, SocketAddr)>,
    right: Seq<(S::Right, SocketAddr)>,
    united: Seq<(S, SocketAddr)>,
    i: int,
    k: int,
    s: S,
    addr: SocketAddr,
)
    requires
        reunited::<S>(left, right, united),
        0 <= i < left.len(),
        0 <= k < right.len(),
        left[i].1 == addr,
        right[k].1 == addr,
        call_ensures(S::unsplit, (left[i].0, right[k].0), Ok::<S, S::Error>(s)),
    ensures
        reunited::<S>(left, right, united.push((s, addr))),
{
    let u = united.push((s, addr));
    assert forall|j: int| #![trigger u[j]] 0 <= j < u.len() implies exists|i2: int, k2: int|
        #![trigger left[i2], right[k2]]
        0 <= i2 < left.len() && 0 <= k2 < right.len() && left[i2].1 == u[j].1 && right[k2].1
            == u[j].1 && call_ensures(S::unsplit, (left[i2].0, right[k2].0), Ok::<S, S::Error>(u[j].0)) by {
        if j < united.len() {
            assert(u[j] == united[j]);
        } else {
            assert(u[j] == (s, addr));
            assert(left[i].1 == u[j].1);
        }
    }
}

/// Splitting a pool and uniting its halves gives the pool back: the halves
/// that `split` makes are never refused as unequal; when the peers are
/// distinct and the connections unite again whenever they are the halves of
/// one split, uniting succeeds; and the united pool has the kind, the limit
/// and the peers, in their order, of the pool that was split.
pub proof fn lemma_split_unsplit<S: Split, const N: usize>(
    pool: StreamPool<S, N>,
    left: StreamPool<S::Left, N>,
    right: StreamPool<S::Right, N>,
    united: Result<StreamPool<S, N>, UnsplitError<S::Error>>,
)
    requires
        pool.wf(),
        left.wf() && right.wf(),
        left.addr_seq() == pool.addr_seq().reverse(),
        right.addr_seq() == pool.addr_seq().reverse(),
        left.spec_is_array() == pool.spec_is_array(),
        right.spec_is_array() == pool.spec_is_array(),
        left.spec_limit() == pool.spec_limit(),
        right.spec_limit() == pool.spec_limit(),
        split_halves::<S>(pool.entries(), left.entries(), right.entries()),
        unsplit_outcome::<S, N>(left, right, united),
    ensures
        !halves_unequal(left, right),
        !(united matches Err(UnsplitError::RWUnequal)),
        (pool.addr_seq().no_duplicates() && forall|x: S, l: S::Left, r: S::Right, res: Result<S, S::Error>|
            #![trigger call_ensures(S::split, (x,), (l, r)), call_ensures(S::unsplit, (l, r), res)]
            call_ensures(S::split, (x,), (l, r)) && call_ensures(S::unsplit, (l, r), res) ==> res is Ok)
            ==> united is Ok,
        united matches Ok(q) ==> {
            &&& q.wf()
            &&& q.spec_is_array() == pool.spec_is_array()
            &&& q.spec_limit() == pool.spec_limit()
            &&& q.addr_seq() == pool.addr_seq()
        },
{
    assert(left.entries().len() == left.addr_seq().len());
    assert(right.entries().len() == right.addr_seq().len());
    assert(pool.addr_seq().reverse().reverse() =~= pool.addr_seq());
    if pool.addr_seq().no_duplicates() && (forall|x: S, l: S::Left, r: S::Right, res: Result<S, S::Error>|
        #![trigger call_ensures(S::split, (x,), (l, r)), call_ensures(S::unsplit, (l, r), res)]
        call_ensures(S::split, (x,), (l, r)) && call_ensures(S::unsplit, (l, r), res) ==> res is Ok) {
        if let Err(UnsplitError::Unsplit { source }) = united {
            let (i, k) = choose|i: int, k: int|
                0 <= i < left.entries().len() && 0 <= k < right.entries().len()
                    && #[trigger] left.entries()[i].1 == #[trigger] right.entries()[k].1 && call_ensures(
                    S::unsplit,
                    (left.entries()[i].0, right.entries()[k].0),
                    Err::<S, S::Error>(source),
                );
            let n = pool.entries().len();
            let addrs = pool.addr_seq();
            assert(left.addr_seq()[i] == left.entries()[i].1);
            assert(right.addr_seq()[k] == right.entries()[k].1);
            assert(addrs[n - 1 - i] == addrs[n - 1 - k]);
            assert(i == k);
            assert(call_ensures(S::split, (pool.entries()[n - 1 - i].0,), (left.entries()[i].0, right.entries()[i].0)));
        }
    }
}

impl<S: Split, const N: usize> Split for StreamPool<S, N> {
    type Left = StreamPool<S::Left, N>;
    type Right = StreamPool<S::Right, N>;
    type Error = UnsplitError<S::Error>;

    /// Splits every connection; the two halves hold the connections in the
    /// reverse order, with the same kind of pool and the same limit.
    fn split(self) -> (r: (Self::Left, Self::Right))
        ensures
            self.wf() ==> {
                &&& r.0.wf() && r.1.wf()
                &&& r.0.addr_seq() == self.addr_seq().reverse()
                &&& r.1.addr_seq() == self.addr_seq().reverse()
                &&& r.0.spec_is_array() == self.spec_is_array()
                &&& r.1.spec_is_array() == self.spec_is_array()
                &&& r.0.spec_limit() == self.spec_limit()
                &&& r.1.spec_limit() == self.spec_limit()
                &&& r.0.cursor() == 0 && r.1.cursor() == 0
                &&& r.0.errors().len() == 0 && r.1.errors().len() == 0
                &&& split_halves::<S>(self.entries(), r.0.entries(), r.1.entries())
            },
    {
        let mut this = self;
        let is_array = this.is_array();
        let limit = this.limit();
        let len = this.len();

        let (mut left, mut right) = if is_array {
            (StreamPool::<S::Left, N>::array::<N>(), StreamPool::<S::Right, N>::array::<N>())
        } else if let Some(limit) = limit {
            (StreamPool::with_limit(limit), StreamPool::with_limit(limit))
        } else {
            (StreamPool::with_capacity(len), StreamPool::with_capacity(len))
        };
        let ghost addrs = this.addr_seq();
        let ghost entries = this.entries();
        let ghost wf = this.wf();

        let mut k: usize = 0;
        while k < len
            invariant
                k <= len,
                len == addrs.len(),
                wf ==> this.wf(),
                wf ==> (limit matches Some(l) ==> len <= l),
                this.entries().len() == len - k,
                this.addr_seq() == addrs.take(len - k),
                this.entries() == entries.take(len - k),
                entries.len() == len,
                this.spec_is_array() == is_array,
                this.spec_limit() == limit,
                left.wf() && right.wf(),
                left.spec_is_array() == is_array && right.spec_is_array() == is_array,
                is_array ==> limit == Some(N),
                left.spec_limit() == limit && right.spec_limit() == limit,
                left.cursor() == 0 && right.cursor() == 0,
                left.errors().len() == 0 && right.errors().len() == 0,
                wf ==> left.addr_seq() == addrs.subrange(len - k, len as int).reverse(),
                wf ==> right.addr_seq() == addrs.subrange(len - k, len as int).reverse(),
                wf ==> left.entries().len() == k && right.entries().len() == k,
                wf ==> forall|j: int|
                    0 <= j < k ==> call_ensures(
                        S::split,
                        (#[trigger] entries[len - 1 - j].0,),
                        (left.entries()[j].0, right.entries()[j].0),
                    ),
            decreases len - k,
        {
            let ghost prev = this.addr_seq();
            let ghost prev_entries = this.entries();
            let (rw, addr) = this.pop().unwrap();
            proof {
                assert(prev[len - k - 1] == prev_entries[len - k - 1].1);
                assert(addr == addrs[len - k - 1]);
                assert(rw == entries[len - 1 - k].0);
            }
            let (r, w) = rw.split();
            let ghost left_prev = left.addr_seq();
            let ghost right_prev = right.addr_seq();
            let ghost left_entries = left.entries();
            let ghost right_entries = right.entries();
            proof {
                if wf {
                    assert(!left.is_full());
                    assert(!right.is_full());
                }
            }
            let _ = left.push(r, addr);
            let _ = right.push(w, addr);
            k += 1;
            proof {
                if wf {
                    assert(left.addr_seq() =~= left_prev.push(addr));
                    assert(right.addr_seq() =~= right_prev.push(addr));
                    assert(addrs.subrange(len - k, len as int).reverse() =~= addrs.subrange(
                        len - k + 1,
                        len as int,
                    ).reverse().push(addr));
                    assert(left.addr_seq() =~= addrs.subrange(len - k, len as int).reverse());
                    assert(right.addr_seq() =~= addrs.subrange(len - k, len as int).reverse());
                    assert forall|j: int| 0 <= j < k implies call_ensures(
                        S::split,
                        (#[trigger] entries[len - 1 - j].0,),
                        (left.entries()[j].0, right.entries()[j].0),
                    ) by {
                        if j < k - 1 {
                            assert(left.entries()[j] == left_entries[j]);
                            assert(right.entries()[j] == right_entries[j]);
                        } else {
                            assert(left.entries()[j] == (r, addr));
                            assert(right.entries()[j] == (w, addr));
                        }
                    }
                }
                assert(this.entries() =~= entries.take(len - k));
                assert(this.addr_seq() =~= addrs.take(len - k));
            }
        }
        proof {
            if wf {
                assert(addrs.subrange(0, len as int) =~= addrs);
            }
        }
        (left, right)
    }

    /// Unites a read pool and a write pool, pairing each read half with a
    /// write half of the same peer. Fails with `RWUnequal` exactly when the
    /// pools differ in kind, length or limit, or do not hold the same peers
    /// (counted with repetition); otherwise with `Unsplit` when a pair fails
    /// to unite. The united pool holds the peers of the read pool in the
    /// reverse order.
    fn unsplit(left: Self::Left, right: Self::Right) -> (r: Result<Self, Self::Error>)
        ensures
            unsplit_outcome::<S, N>(left, right, r),
    {
        broadcast use vstd::seq_lib::group_to_multiset_ensures;

        let ghost left0 = left;
        let ghost right0 = right;
        let mut r_half = left;
        let mut w_half = right;
        let is_array = r_half.is_array();
        if is_array != w_half.is_array() {
            return Err(UnsplitError::RWUnequal);
        }
        let len = r_half.len();
        if len != w_half.len() {
            return Err(UnsplitError::RWUnequal);
        }
        let limit = r_half.limit();
        if limit != w_half.limit() {
            return Err(UnsplitError::RWUnequal);
        }

        let ghost raddrs = left0.addr_seq();
        let ghost waddrs = right0.addr_seq();

        // The write halves, keyed by their peer's address, each with its
        // place in the write pool.
        let mut ws: Vec<(SocketAddr, S::Right)> = Vec::new();
        let ghost mut wi: Seq<int> = Seq::empty();
        let mut k: usize = 0;
        while k < len
            invariant
                k <= len,
                len == right0.entries().len(),
                w_half.entries() == right0.entries().take(len - k),
                ws@.len() == k,
                wi.len() == k,
                forall|j: int| 0 <= j < k ==> #[trigger] wi[j] == len - 1 - j,
                forall|j: int|
                    0 <= j < k ==> (#[trigger] ws@[j]).0 == right0.entries()[wi[j]].1 && ws@[j].1
                        == right0.entries()[wi[j]].0,
            decreases len - k,
        {
            let ghost prev = w_half.entries();
            let (w, addr) = w_half.pop().unwrap();
            proof {
                assert(right0.entries().take(len - k - 1) =~= prev.drop_last());
            }
            ws.push((addr, w));
            proof {
                wi = wi.push(len - 1 - k);
            }
            k += 1;
        }
        proof {
            assert(keys(ws@) =~= waddrs.reverse()) by {
                assert forall|j: int| 0 <= j < len implies keys(ws@)[j] == waddrs.reverse()[j] by {
                    assert(wi[j] == len - 1 - j);
                }
            }
            waddrs.lemma_reverse_to_multiset();
        }

        // Pair every read half with a write half of its peer.
        let mut pairs: Vec<(S::Left, S::Right, SocketAddr)> = Vec::new();
        let ghost mut pi: Seq<(int, int)> = Seq::empty();
        proof {
            assert(raddrs.take(len as int) =~= raddrs);
            assert(pair_addrs(pairs@) =~= Seq::<SocketAddr>::empty());
            assert(raddrs.to_multiset().add(vstd::multiset::Multiset::empty()) =~= raddrs.to_multiset());
            assert(waddrs.to_multiset().add(vstd::multiset::Multiset::empty()) =~= waddrs.to_multiset());
        }
        let mut k: usize = 0;
        while k < len
            invariant
                k <= len,
                len == left0.entries().len(),
                len == right0.entries().len(),
                left0 == left,
                right0 == right,
                raddrs == left0.addr_seq(),
                waddrs == right0.addr_seq(),
                r_half.entries() == left0.entries().take(len - k),
                ws@.len() == len - k,
                wi.len() == ws@.len(),
                pairs@.len() == k,
                pi.len() == k,
                forall|j: int|
                    0 <= j < ws@.len() ==> 0 <= #[trigger] wi[j] < len && ws@[j].0
                        == right0.entries()[wi[j]].1 && ws@[j].1 == right0.entries()[wi[j]].0,
                forall|j: int|
                    0 <= j < k ==> {
                        &&& (#[trigger] pi[j]).0 == len - 1 - j
                        &&& 0 <= pi[j].1 < len
                        &&& pairs@[j].0 == left0.entries()[pi[j].0].0
                        &&& pairs@[j].2 == left0.entries()[pi[j].0].1
                        &&& pairs@[j].1 == right0.entries()[pi[j].1].0
                        &&& pairs@[j].2 == right0.entries()[pi[j].1].1
                    },
                raddrs.take(len - k).to_multiset().add(pair_addrs(pairs@).to_multiset())
                    == raddrs.to_multiset(),
                keys(ws@).to_multiset().add(pair_addrs(pairs@).to_multiset()) == waddrs.to_multiset(),
            decreases len - k,
        {
            let ghost r_prev = r_half.entries();
            let ghost ws_prev = ws@;
            let ghost pairs_prev = pairs@;
            let (r, addr) = r_half.pop().unwrap();
            let ghost m = (len - k - 1) as int;
            proof {
                assert(left0.entries().take(m) =~= r_prev.drop_last());
                assert(raddrs.take(m + 1) =~= raddrs.take(m).push(addr));
                assert(addr == left0.entries()[m].1);
            }
            match assoc_find(&ws, addr) {
                None => {
                    proof {
                        assert(!keys(ws@).contains(addr)) by {
                            if keys(ws@).contains(addr) {
                                let t = choose|t: int| 0 <= t < keys(ws@).len() && keys(ws@)[t] == addr;
                                assert(ws@[t].0 == addr);
                            }
                        }
                        assert(raddrs.take(m + 1).contains(addr)) by {
                            assert(raddrs.take(m + 1)[m] == addr);
                        }
                        let pm = pair_addrs(pairs@).to_multiset();
                        assert(raddrs.take(m + 1) == raddrs.take(len - k));
                        assert(raddrs.to_multiset().count(addr) == raddrs.take(m + 1).to_multiset().count(addr) + pm.count(addr));
                        assert(waddrs.to_multiset().count(addr) == keys(ws@).to_multiset().count(addr) + pm.count(addr));
                        vstd::seq_lib::to_multiset_contains(raddrs.take(m + 1), addr);
                        vstd::seq_lib::to_multiset_contains(keys(ws@), addr);
                        assert(raddrs.take(m + 1).to_multiset().count(addr) > 0);
                        assert(keys(ws@).to_multiset().count(addr) == 0);
                        assert(raddrs.to_multiset().count(addr) != waddrs.to_multiset().count(addr));
                    }
                    return Err(UnsplitError::RWUnequal);
                },
                Some(i) => {
                    let (_, w) = ws.remove(i);
                    proof {
                        let wk = wi[i as int];
                        assert(keys(ws@) =~= keys(ws_prev).remove(i as int));
                        wi = wi.remove(i as int);
                        pi = pi.push((m, wk));
                    }
                    pairs.push((r, w, addr));
                    proof {
                        assert(pair_addrs(pairs@) =~= pair_addrs(pairs_prev).push(addr));
                        assert forall|j: int| 0 <= j < ws@.len() implies 0 <= #[trigger] wi[j] < len
                            && ws@[j].0 == right0.entries()[wi[j]].1 && ws@[j].1
                            == right0.entries()[wi[j]].0 by {
                            if j < i {
                                assert(ws@[j] == ws_prev[j]);
                            } else {
                                assert(ws@[j] == ws_prev[j + 1]);
                            }
                        }
                        vstd::seq_lib::to_multiset_build(raddrs.take(m), addr);
                        vstd::seq_lib::to_multiset_build(pair_addrs(pairs_prev), addr);
                        vstd::seq_lib::to_multiset_remove(keys(ws_prev), i as int);
                        assert(raddrs.take(m + 1) == raddrs.take(len - k));
                        assert(keys(ws_prev)[i as int] == addr);
                        assert(keys(ws_prev).to_multiset().count(addr) > 0) by {
                            vstd::seq_lib::to_multiset_contains(keys(ws_prev), addr);
                            assert(keys(ws_prev).contains(addr));
                        }
                        assert(raddrs.take(m).to_multiset().add(pair_addrs(pairs@).to_multiset())
                            =~= raddrs.take(m + 1).to_multiset().add(pair_addrs(pairs_prev).to_multiset()));
                        assert(keys(ws@).to_multiset().add(pair_addrs(pairs@).to_multiset())
                            =~= keys(ws_prev).to_multiset().add(pair_addrs(pairs_prev).to_multiset()));
                    }
                },
            }
            k += 1;
        }
        proof {
            assert(raddrs.take(0) =~= Seq::<SocketAddr>::empty());
            assert(keys(ws@) =~= Seq::<SocketAddr>::empty());
            assert(raddrs.to_multiset() =~= waddrs.to_multiset());
        }

        // Unite the pairs, in the order they were made.
        let mut rw: StreamPool<S, N> = if is_array {
            Self::array::<N>()
        } else if let Some(limit) = limit {
            Self::with_limit(limit)
        } else {
            Self::with_capacity(len)
        };
        let ghost wf = left0.wf();
        let ghost all_pairs = pairs@;
        proof {
            lemma_reunited_empty::<S>(left0.entries(), right0.entries());
        }
        let mut k: usize = 0;
        while k < len
            invariant
                k <= len,
                len == left0.entries().len(),
                len == right0.entries().len(),
                left0 == left,
                right0 == right,
                raddrs == left0.addr_seq(),
                all_pairs.len() == len,
                pi.len() == len,
                pairs@ == all_pairs.skip(k as int),
                forall|j: int|
                    0 <= j < len ==> {
                        &&& (#[trigger] pi[j]).0 == len - 1 - j
                        &&& 0 <= pi[j].1 < len
                        &&& all_pairs[j].0 == left0.entries()[pi[j].0].0
                        &&& all_pairs[j].2 == left0.entries()[pi[j].0].1
                        &&& all_pairs[j].1 == right0.entries()[pi[j].1].0
                        &&& all_pairs[j].2 == right0.entries()[pi[j].1].1
                    },
                !halves_unequal(left0, right0),
                rw.spec_is_array() == is_array,
                rw.spec_limit() == limit,
                rw.cursor() == 0,
                rw.errors().len() == 0,
                is_array ==> limit == Some(N),
                left0.spec_limit() == limit,
                wf ==> (limit matches Some(l) ==> len <= l),
                wf ==> rw.wf(),
                wf ==> rw.entries().len() == k,
                wf ==> rw.addr_seq() == raddrs.subrange(len - k, len as int).reverse(),
                reunited::<S>(left0.entries(), right0.entries(), rw.entries()),
            decreases len - k,
        {
            let ghost rw_prev = rw.entries();
            let ghost rwa_prev = rw.addr_seq();
            let (r, w, addr) = pairs.remove(0);
            proof {
                assert(all_pairs.skip(k as int)[0] == all_pairs[k as int]);
                assert(pairs@ =~= all_pairs.skip(k + 1));
                if wf {
                    assert(!rw.is_full());
                }
            }
            let ghost pk = pi[k as int];
            let united = match S::unsplit(r, w) {
                Ok(u) => u,
                Err(e) => {
                    proof {
                        let i = pk.0;
                        let t = pk.1;
                        assert(left0.entries()[i].1 == right0.entries()[t].1);
                        assert(r == left0.entries()[i].0);
                        assert(w == right0.entries()[t].0);
                    }
                    return Err(UnsplitError::Unsplit { source: e });
                },
            };
            let _ = rw.push(united, addr);
            proof {
                if rw_prev.len() < rw.entries().len() {
                    lemma_reunited_push::<S>(left0.entries(), right0.entries(), rw_prev, pk.0, pk.1, united, addr);
                }
                if wf {
                    assert(raddrs[len - k - 1] == addr);
                    assert(rw.addr_seq() =~= rwa_prev.push(addr));
                    assert(raddrs.subrange(len - k - 1, len as int).reverse() =~= raddrs.subrange(
                        len - k,
                        len as int,
                    ).reverse().push(addr));
                }
            }
            k += 1;
        }
        proof {
            if wf {
                assert(raddrs.subrange(0, len as int) =~= raddrs);
            }
        }
        Ok(rw)
    }
}

} // verus!
