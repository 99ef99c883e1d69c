//! How many connections the accepting futures of a channel take.
//!
//! An accepting future polls the channel's listener until it has taken the
//! number of connections it was asked for; connections refused by its
//! filter do not count. The numbers are decided here, from the channel's
//! number of connections and its limit; the listener is polled by the
//! caller. The methods that start accepting on a channel, or alongside one
//! of its receiving or sending futures, while keeping every peer stand
//! here, beside the futures whose settings their contracts give.

use vstd::prelude::*;
use std::marker::PhantomData;
use super::Channel;
use super::errors::AcceptError;
use crate::util::SocketAddr;
use super::recv::{RecvFuture, WithAddrFuture, AsBytesFuture, AsBytesWithAddrFuture};
use super::send::{SendFuture, SendFilteredFuture};

verus! {

/// The room left in a channel of `len` connections with limit `limit`.
pub open spec fn room(len: usize, limit: usize) -> int {
    limit - len
}

/// A channel of `len` connections with limit `limit` is full.
pub open spec fn spec_is_full(len: usize, limit: Option<usize>) -> bool {
    match limit {
        Some(l) => len >= l,
        None => false,
    }
}

/// Whether a channel of `len` connections with limit `limit` is full.
pub fn is_full(len: usize, limit: Option<usize>) -> (b: bool)
    ensures
        b == spec_is_full(len, limit),
{
    match limit {
        Some(lim) => len >= lim,
        None => false,
    }
}

/// How many connections an `accept()` future chained to another future
/// takes, on a channel of `len` connections with limit `limit`, from its
/// count `num`, and whether that number was asked for (`num_set`) or the
/// future takes connections up to the limit (`to_limit`): with a limit, the
/// number asked for within the room left, else all the room; without a
/// limit, the count when it was asked for or set up to the (absent) limit,
/// else as many as arrive while the other future runs.
pub open spec fn with_future_num(num: usize, num_set: bool, to_limit: bool, len: usize, limit: Option<usize>) -> usize {
    match limit {
        Some(l) => if num_set && num <= l - len {
            num
        } else {
            (l - len) as usize
        },
        None => if num_set || to_limit {
            num
        } else {
            usize::MAX
        },
    }
}

/// A channel is full exactly when it holds as many connections as its
/// limit or more; a channel without a limit is never full.
pub proof fn lemma_full_iff_at_limit(len: usize, limit: Option<usize>)
    ensures
        limit matches Some(l) ==> (len < l ==> !spec_is_full(len, limit)),
        limit matches Some(l) ==> (len >= l ==> spec_is_full(len, limit)),
        limit is None ==> !spec_is_full(len, limit),
{
}

/// An `accept()` chained to another future takes what it is told:
/// - with a limit and a number `n` asked for that fits the room left, it
///   takes exactly `n`, whatever `n` is;
/// - with a limit and a number asked for beyond the room left, or none
///   asked for, it takes all the room left;
/// - without a limit, the number asked for, or one when taking up to the
///   (absent) limit; else it never stops on its own.
pub proof fn lemma_with_future_num(num: usize, num_set: bool, to_limit: bool, len: usize, limit: Option<usize>)
    ensures
        limit matches Some(l) ==> (len <= l && num_set && num <= l - len ==> with_future_num(
            num,
            num_set,
            to_limit,
            len,
            limit,
        ) == num),
        limit matches Some(l) ==> (len <= l && (!num_set || num > l - len) ==> with_future_num(
            num,
            num_set,
            to_limit,
            len,
            limit,
        ) == l - len),
        limit is None ==> ((num_set || to_limit) ==> with_future_num(num, num_set, to_limit, len, limit)
            == num),
        limit is None ==> (!num_set && !to_limit ==> with_future_num(num, num_set, to_limit, len, limit)
            == usize::MAX),
{
}

/// The count of an `accept()` future: how many connections to take, how
/// many it took, whether that number was asked for, and whether it takes
/// connections up to the limit.
#[derive(Debug, Clone, Copy)]
pub struct AcceptCount {
    num: usize,
    accepted: usize,
    num_set: bool,
    to_limit: bool,
}

impl AcceptCount {
    /// How many connections to take.
    pub closed spec fn spec_num(self) -> usize {
        self.num
    }

    /// How many connections were taken.
    pub closed spec fn spec_accepted(self) -> usize {
        self.accepted
    }

    /// Whether connections are taken up to the limit.
    pub closed spec fn spec_to_limit(self) -> bool {
        self.to_limit
    }

    /// Whether the number of connections to take was asked for.
    pub closed spec fn spec_num_set(self) -> bool {
        self.num_set
    }

    /// The count of a new `accept()` future on a channel of `len`
    /// connections with limit `limit`: one connection, none when full.
    pub fn new(len: usize, limit: Option<usize>) -> (c: Self)
        ensures
            c.spec_num() == if spec_is_full(len, limit) { 0usize } else { 1usize },
            c.spec_accepted() == 0,
            !c.spec_num_set(),
            !c.spec_to_limit(),
    {
        let num = if is_full(len, limit) { 0 } else { 1 };
        AcceptCount { num, accepted: 0, num_set: false, to_limit: false }
    }

    /// Take `num` connections, or as many as there is room for.
    pub fn num(self, num: usize, len: usize, limit: Option<usize>) -> (c: Self)
        requires
            limit matches Some(l) ==> len <= l,
        ensures
            c.spec_num() == match limit {
                Some(l) => if num <= l - len { num } else { (l - len) as usize },
                None => num,
            },
            c.spec_accepted() == self.spec_accepted(),
            c.spec_num_set(),
            !c.spec_to_limit(),
    {
        let n = match limit {
            Some(lim) => {
                let room = lim - len;
                if num <= room { num } else { room }
            },
            None => num,
        };
        AcceptCount { num: n, accepted: self.accepted, num_set: true, to_limit: false }
    }

    /// Take connections up to the limit; without a limit, a single one.
    pub fn to_limit(self, len: usize, limit: Option<usize>) -> (c: Self)
        requires
            limit matches Some(l) ==> len <= l,
        ensures
            c.spec_num() == match limit {
                Some(l) => (l - len) as usize,
                None => 1usize,
            },
            c.spec_accepted() == self.spec_accepted(),
            !c.spec_num_set(),
            c.spec_to_limit(),
    {
        let n = match limit {
            Some(lim) => lim - len,
            None => 1,
        };
        AcceptCount { num: n, accepted: self.accepted, num_set: false, to_limit: true }
    }

    /// The count of an `accept()` future chained to another future (see
    /// `with_future_num`).
    pub fn with_future(self, len: usize, limit: Option<usize>) -> (c: Self)
        requires
            limit matches Some(l) ==> len <= l,
        ensures
            c.spec_num() == with_future_num(self.spec_num(), self.spec_num_set(), self.spec_to_limit(), len, limit),
            c.spec_accepted() == self.spec_accepted(),
            c.spec_num_set() == self.spec_num_set(),
            c.spec_to_limit() == self.spec_to_limit(),
    {
        let n = match limit {
            Some(lim) => {
                let room = lim - len;
                if self.num_set && self.num <= room { self.num } else { room }
            },
            None => if self.num_set || self.to_limit {
                self.num
            } else {
                // as many as arrive while the other future runs
                usize::MAX
            },
        };
        AcceptCount { num: n, accepted: self.accepted, num_set: self.num_set, to_limit: self.to_limit }
    }

    /// Whether more connections are to be taken.
    pub fn should_accept(&self) -> (b: bool)
        ensures
            b == (self.spec_accepted() < self.spec_num()),
    {
        self.accepted < self.num
    }

    /// A connection was accepted; it counts when it passed the filter.
    pub fn record(&mut self, passed: bool)
        requires
            old(self).spec_accepted() < old(self).spec_num(),
        ensures
            final(self).spec_num() == old(self).spec_num(),
            final(self).spec_num_set() == old(self).spec_num_set(),
            final(self).spec_to_limit() == old(self).spec_to_limit(),
            final(self).spec_accepted() == old(self).spec_accepted() + if passed { 1int } else { 0int },
            final(self).spec_accepted() <= final(self).spec_num(),
    {
        if passed {
            self.accepted = self.accepted + 1;
        }
    }

    /// How many connections were taken.
    pub fn accepted(&self) -> (n: usize)
        ensures
            n == self.spec_accepted(),
    {
        self.accepted
    }
}

/// An `accept()` future never takes more connections than its channel has
/// room for: whichever way its count was set, the count fits the room.
pub proof fn lemma_accept_count_fits_room(len: usize, l: usize, num: usize, num_set: bool, to_limit: bool)
    requires
        len <= l,
    ensures
        (if spec_is_full(len, Some(l)) { 0usize } else { 1usize }) <= l - len,
        (if num <= l - len { num } else { (l - len) as usize }) <= l - len,
        with_future_num(num, num_set, to_limit, len, Some(l)) <= l - len,
{
}

/// The count of an `accept()` chained to a send or receive future: it takes
/// connections until it has taken its number (without a number, as long as
/// the other future runs) or the listener fails.
#[derive(Debug)]
pub struct ChainedAcceptCount<AErr> {
    num: Option<usize>,
    accepted: usize,
    err: Option<AErr>,
}

impl<AErr> ChainedAcceptCount<AErr> {
    /// How many connections to take, if bounded.
    pub closed spec fn spec_num(self) -> Option<usize> {
        self.num
    }

    /// How many connections were taken.
    pub closed spec fn spec_accepted(self) -> usize {
        self.accepted
    }

    /// The error of the listener, if it failed.
    pub closed spec fn spec_err(self) -> Option<AErr> {
        self.err
    }

    /// The count of a chained `accept()` on a channel of `len` connections
    /// with limit `limit`: up to the limit, or unbounded.
    pub fn new(len: usize, limit: Option<usize>) -> (c: Self)
        requires
            limit matches Some(l) ==> len <= l,
        ensures
            c.spec_num() == match limit {
                Some(l) => Some((l - len) as usize),
                None => None::<usize>,
            },
            c.spec_accepted() == 0,
            c.spec_err() is None,
    {
        let num = match limit {
            Some(lim) => Some(lim - len),
            None => None,
        };
        ChainedAcceptCount { num, accepted: 0, err: None }
    }

    /// Take at most `num` connections.
    pub fn num(self, num: usize) -> (c: Self)
        ensures
            c.spec_num() == Some(
                match self.spec_num() {
                    Some(n) => if n <= num { n } else { num },
                    None => num,
                },
            ),
            c.spec_accepted() == self.spec_accepted(),
            c.spec_err() == self.spec_err(),
    {
        let n = match self.num {
            Some(n) => if n <= num { n } else { num },
            None => num,
        };
        ChainedAcceptCount { num: Some(n), accepted: self.accepted, err: self.err }
    }

    /// Whether more connections are to be taken: the listener has not
    /// failed and the number is not reached.
    pub fn should_accept(&self) -> (b: bool)
        ensures
            b == (self.spec_err() is None && match self.spec_num() {
                Some(n) => self.spec_accepted() < n,
                None => true,
            }),
    {
        self.err.is_none() && match self.num {
            Some(n) => self.accepted < n,
            None => true,
        }
    }

    /// A connection was accepted; it counts when it passed the filter.
    pub fn record(&mut self, passed: bool)
        requires
            old(self).spec_accepted() < usize::MAX,
        ensures
            final(self).spec_num() == old(self).spec_num(),
            final(self).spec_err() == old(self).spec_err(),
            final(self).spec_accepted() == old(self).spec_accepted() + if passed { 1int } else { 0int },
            old(self).spec_num() matches Some(n) ==> (old(self).spec_accepted() < n ==> final(self).spec_accepted() <= n),
    {
        if passed {
            self.accepted = self.accepted + 1;
        }
    }

    /// The listener failed; no more connections are taken.
    pub fn fail(&mut self, err: AErr)
        ensures
            final(self).spec_num() == old(self).spec_num(),
            final(self).spec_accepted() == old(self).spec_accepted(),
            final(self).spec_err() == Some(err),
    {
        self.err = Some(err);
    }

    /// The outcome of the accepting: the number taken, or the listener's
    /// error.
    pub fn finish(&mut self) -> (r: Result<usize, AErr>)
        ensures
            old(self).spec_err() is None ==> r == Ok::<usize, AErr>(old(self).spec_accepted()),
            old(self).spec_err() matches Some(e) ==> r == Err::<usize, AErr>(e),
            final(self).spec_err() is None,
            final(self).spec_accepted() == old(self).spec_accepted(),
            final(self).spec_num() == old(self).spec_num(),
    {
        match self.err.take() {
            None => Ok(self.accepted),
            Some(e) => Err(e),
        }
    }
}

/// The future that accepts connections on a channel. The caller polls the
/// channel's listener while `should_accept` holds, calls the filter and
/// the handler, and hands each connection that passed the filter to `add`.
#[derive(Debug)]
pub struct AcceptFuture<'pin, T, E, const N: usize, L, S, H, F> {
    channel: &'pin mut Channel<T, E, N, L, S>,
    count: AcceptCount,
    handle: H,
    filter: F,
}

impl<'pin, T, E, const N: usize, L, S, H, F> AcceptFuture<'pin, T, E, N, L, S, H, F> {
    /// The channel accepted on.
    pub closed spec fn spec_channel(self) -> Channel<T, E, N, L, S> {
        *self.channel
    }

    /// How many connections to take, and how many were taken.
    pub closed spec fn spec_count(self) -> AcceptCount {
        self.count
    }

    /// What is called with the address of each connection taken.
    pub closed spec fn spec_handle(self) -> H {
        self.handle
    }

    /// What decides whether to take an accepted connection.
    pub closed spec fn spec_filter(self) -> F {
        self.filter
    }

    /// The channel's pool keeps to its limit, and has room for the
    /// connections still to be taken.
    pub open spec fn wf(self) -> bool {
        &&& self.spec_channel().wf()
        &&& self.spec_channel().spec_pool().spec_limit() matches Some(l) ==> self.spec_channel().spec_pool().entries().len()
            + self.spec_count().spec_num() - self.spec_count().spec_accepted() <= l
    }

    /// Accepts one connection on `channel`, none when it is full.
    pub fn new(channel: &'pin mut Channel<T, E, N, L, S>, handle: H, filter: F) -> (f: Self)
        requires
            old(channel).wf(),
        ensures
            f.wf(),
            f.spec_channel() == *old(channel),
            f.spec_count().spec_num() == if spec_is_full(
                old(channel).spec_pool().entries().len() as usize,
                old(channel).spec_pool().spec_limit(),
            ) {
                0usize
            } else {
                1usize
            },
            f.spec_count().spec_accepted() == 0,
            !f.spec_count().spec_num_set(),
            !f.spec_count().spec_to_limit(),
            f.spec_handle() == handle,
            f.spec_filter() == filter,
    {
        let count = AcceptCount::new(channel.len(), channel.limit());
        AcceptFuture { channel, count, handle, filter }
    }

    /// Accept `num` connections, or as many as there is room for.
    pub fn num(self, num: usize) -> (f: Self)
        requires
            self.wf(),
        ensures
            f.wf(),
            f.spec_channel() == self.spec_channel(),
            f.spec_count().spec_num() == match self.spec_channel().spec_pool().spec_limit() {
                Some(l) => if num <= l - self.spec_channel().spec_pool().entries().len() {
                    num
                } else {
                    (l - self.spec_channel().spec_pool().entries().len()) as usize
                },
                None => num,
            },
            f.spec_count().spec_accepted() == self.spec_count().spec_accepted(),
            f.spec_count().spec_num_set(),
            !f.spec_count().spec_to_limit(),
            f.spec_handle() == self.spec_handle(),
            f.spec_filter() == self.spec_filter(),
    {
        let len = self.channel.len();
        let limit = self.channel.limit();
        let AcceptFuture { channel, count, handle, filter } = self;
        let count = count.num(num, len, limit);
        AcceptFuture { channel, count, handle, filter }
    }

    /// Accept connections up to the channel's limit; without a limit, a
    /// single one.
    pub fn to_limit(self) -> (f: Self)
        requires
            self.wf(),
        ensures
            f.wf(),
            f.spec_channel() == self.spec_channel(),
            f.spec_count().spec_num() == match self.spec_channel().spec_pool().spec_limit() {
                Some(l) => (l - self.spec_channel().spec_pool().entries().len()) as usize,
                None => 1usize,
            },
            f.spec_count().spec_accepted() == self.spec_count().spec_accepted(),
            !f.spec_count().spec_num_set(),
            f.spec_count().spec_to_limit(),
            f.spec_handle() == self.spec_handle(),
            f.spec_filter() == self.spec_filter(),
    {
        let len = self.channel.len();
        let limit = self.channel.limit();
        let AcceptFuture { channel, count, handle, filter } = self;
        let count = count.to_limit(len, limit);
        AcceptFuture { channel, count, handle, filter }
    }

    /// Call `handle` with the address of each connection taken.
    pub fn handle<H2>(self, handle: H2) -> (f: AcceptFuture<'pin, T, E, N, L, S, H2, F>)
        ensures
            f.spec_handle() == handle,
            f.spec_channel() == self.spec_channel(),
            f.spec_count() == self.spec_count(),
            f.spec_filter() == self.spec_filter(),
    {
        let AcceptFuture { channel, count, filter, .. } = self;
        AcceptFuture { channel, count, handle, filter }
    }

    /// Take only the connections whose peer's address passes `filter`.
    pub fn filter<F2>(self, filter: F2) -> (f: AcceptFuture<'pin, T, E, N, L, S, H, F2>)
        ensures
            f.spec_filter() == filter,
            f.spec_channel() == self.spec_channel(),
            f.spec_count() == self.spec_count(),
            f.spec_handle() == self.spec_handle(),
    {
        let AcceptFuture { channel, count, handle, .. } = self;
        AcceptFuture { channel, count, handle, filter }
    }

    /// Accept connections while `until` runs: with a limit, as many as
    /// asked for within the room left (all of it when no number was asked
    /// for); without a limit, the number asked for, a single one when taking
    /// up to the (absent) limit, else as many as arrive while `until` runs.
    pub fn with_future<U, LE>(self, until: U) -> (f: WithAcceptFuture<Self, U, LE>)
        requires
            self.wf(),
        ensures
            f.spec_accept().wf(),
            f.spec_accept().spec_channel() == self.spec_channel(),
            f.spec_accept().spec_count().spec_num() == with_future_num(
                self.spec_count().spec_num(),
                self.spec_count().spec_num_set(),
                self.spec_count().spec_to_limit(),
                self.spec_channel().spec_pool().entries().len() as usize,
                self.spec_channel().spec_pool().spec_limit(),
            ),
            f.spec_accept().spec_count().spec_accepted() == self.spec_count().spec_accepted(),
            f.spec_accept().spec_handle() == self.spec_handle(),
            f.spec_accept().spec_filter() == self.spec_filter(),
            f.spec_fut() == until,
            f.spec_accept_res() is None,
    {
        let len = self.channel.len();
        let limit = self.channel.limit();
        let AcceptFuture { channel, count, handle, filter } = self;
        let count = count.with_future(len, limit);
        let accept = AcceptFuture { channel, count, handle, filter };
        WithAcceptFuture { accept, accept_res: None, fut: until, _phantom: PhantomData }
    }

    /// Whether more connections are to be taken.
    pub fn should_accept(&self) -> (b: bool)
        ensures
            b == (self.spec_count().spec_accepted() < self.spec_count().spec_num()),
    {
        self.count.should_accept()
    }

    /// How many connections were taken.
    pub fn accepted(&self) -> (n: usize)
        ensures
            n == self.spec_count().spec_accepted(),
    {
        self.count.accepted()
    }

    /// The channel, to poll its listener.
    pub fn channel(&self) -> (c: &Channel<T, E, N, L, S>)
        ensures
            *c == self.spec_channel(),
    {
        &*self.channel
    }

    /// The handler, to call.
    pub fn handle_mut(&mut self) -> (h: &mut H)
        ensures
            *h == old(self).spec_handle(),
            final(self).spec_handle() == *final(h),
            final(self).spec_channel() == old(self).spec_channel(),
            final(self).spec_count() == old(self).spec_count(),
            final(self).spec_filter() == old(self).spec_filter(),
    {
        &mut self.handle
    }

    /// The filter, to call.
    pub fn filter_mut(&mut self) -> (f: &mut F)
        ensures
            *f == old(self).spec_filter(),
            final(self).spec_filter() == *final(f),
            final(self).spec_channel() == old(self).spec_channel(),
            final(self).spec_count() == old(self).spec_count(),
            final(self).spec_handle() == old(self).spec_handle(),
    {
        &mut self.filter
    }

    /// Takes a connection from `addr` that passed the filter: it joins the
    /// channel's pool, which has room for it.
    pub fn add(&mut self, stream: S, addr: SocketAddr)
        requires
            old(self).wf(),
            old(self).spec_count().spec_accepted() < old(self).spec_count().spec_num(),
        ensures
            final(self).wf(),
            final(self).spec_channel().spec_pool().entries() == old(self).spec_channel().spec_pool().entries().push(
                (stream, addr),
            ),
            final(self).spec_channel().spec_local_addr() == old(self).spec_channel().spec_local_addr(),
            final(self).spec_channel().spec_listener() == old(self).spec_channel().spec_listener(),
            final(self).spec_channel().spec_stream_config() == old(self).spec_channel().spec_stream_config(),
            final(self).spec_channel().spec_pool().spec_limit() == old(self).spec_channel().spec_pool().spec_limit(),
            final(self).spec_count().spec_num() == old(self).spec_count().spec_num(),
            final(self).spec_count().spec_to_limit() == old(self).spec_count().spec_to_limit(),
            final(self).spec_count().spec_accepted() == old(self).spec_count().spec_accepted() + 1,
            final(self).spec_handle() == old(self).spec_handle(),
            final(self).spec_filter() == old(self).spec_filter(),
    {
        let pool = self.channel.stream_pool_mut();
        let _ = pool.push(stream, addr);
        self.count.record(true);
    }
}

/// An accepting future never overfills its channel: while it still has
/// connections to take, the channel's pool has room for one more.
pub proof fn lemma_accept_has_room<'pin, T, E, const N: usize, L, S, H, F>(
    f: AcceptFuture<'pin, T, E, N, L, S, H, F>,
)
    requires
        f.wf(),
        f.spec_count().spec_accepted() < f.spec_count().spec_num(),
    ensures
        !f.spec_channel().spec_pool().is_full(),
{
}

/// An accepting future run beside another future `Fut`, until that one is
/// done. `LE` is the error of the listener.
#[derive(Debug)]
pub struct WithAcceptFuture<AFut, Fut, LE> {
    accept: AFut,
    accept_res: Option<Result<usize, AcceptError<LE>>>,
    fut: Fut,
    _phantom: PhantomData<LE>,
}

impl<AFut, Fut, LE> WithAcceptFuture<AFut, Fut, LE> {
    /// The accepting future.
    pub closed spec fn spec_accept(self) -> AFut {
        self.accept
    }

    /// The result of the accepting future, once it is done.
    pub closed spec fn spec_accept_res(self) -> Option<Result<usize, AcceptError<LE>>> {
        self.accept_res
    }

    /// The future run beside.
    pub closed spec fn spec_fut(self) -> Fut {
        self.fut
    }

    /// The accepting future, to poll while it is not done.
    pub fn accept_mut(&mut self) -> (a: &mut AFut)
        ensures
            *a == old(self).spec_accept(),
            final(self).spec_accept() == *final(a),
            final(self).spec_accept_res() == old(self).spec_accept_res(),
            final(self).spec_fut() == old(self).spec_fut(),
    {
        &mut self.accept
    }

    /// The future run beside, to poll.
    pub fn fut_mut(&mut self) -> (f: &mut Fut)
        ensures
            *f == old(self).spec_fut(),
            final(self).spec_fut() == *final(f),
            final(self).spec_accept() == old(self).spec_accept(),
            final(self).spec_accept_res() == old(self).spec_accept_res(),
    {
        &mut self.fut
    }

    /// Whether the accepting future is done.
    pub fn is_accept_done(&self) -> (b: bool)
        ensures
            b == self.spec_accept_res() is Some,
    {
        self.accept_res.is_some()
    }

    /// The accepting future is done with `res`.
    pub fn accept_done(&mut self, res: Result<usize, AcceptError<LE>>)
        ensures
            final(self).spec_accept_res() == Some(res),
            final(self).spec_accept() == old(self).spec_accept(),
            final(self).spec_fut() == old(self).spec_fut(),
    {
        self.accept_res = Some(res);
    }

    /// The result of accepting once the future beside is done: the
    /// accepting future's own result when it finished, else the number of
    /// connections it took so far, `accepted`.
    pub fn finish(&mut self, accepted: usize) -> (r: Result<usize, AcceptError<LE>>)
        ensures
            old(self).spec_accept_res() matches Some(res) ==> r == res,
            old(self).spec_accept_res() is None ==> r == Ok::<usize, AcceptError<LE>>(accepted),
            final(self).spec_accept_res() is None,
            final(self).spec_accept() == old(self).spec_accept(),
            final(self).spec_fut() == old(self).spec_fut(),
    {
        match self.accept_res.take() {
            Some(res) => res,
            None => Ok(accepted),
        }
    }
}

/// An accepting future chained to a send or receive future `Fut` on the
/// same channel: it takes connections while `Fut` runs. `LE` is the error
/// of the listener.
#[derive(Debug)]
pub struct ChainedAcceptFuture<'pin, T, E, const N: usize, L, S, Fut, H, F, LE = ()> {
    fut: Fut,
    count: ChainedAcceptCount<AcceptError<LE>>,
    handle: H,
    filter: F,
    _phantom: PhantomData<(&'pin (), T, E, L, S)>,
}

impl<'pin, T, E, const N: usize, L, S, Fut, H, F, LE> ChainedAcceptFuture<'pin, T, E, N, L, S, Fut, H, F, LE> {
    /// The chained future.
    pub closed spec fn spec_fut(self) -> Fut {
        self.fut
    }

    /// How many connections to take, how many were taken, and the error of
    /// the listener, if any.
    pub closed spec fn spec_count(self) -> ChainedAcceptCount<AcceptError<LE>> {
        self.count
    }

    /// What is called with the address of each connection taken.
    pub closed spec fn spec_handle(self) -> H {
        self.handle
    }

    /// What decides whether to take an accepted connection.
    pub closed spec fn spec_filter(self) -> F {
        self.filter
    }

    /// Takes connections while `fut` runs on a channel of `len` connections
    /// with limit `limit`: as many as there is room for.
    pub fn new(fut: Fut, len: usize, limit: Option<usize>, handle: H, filter: F) -> (c: Self)
        requires
            limit matches Some(l) ==> len <= l,
        ensures
            c.spec_fut() == fut,
            c.spec_count().spec_num() == match limit {
                Some(l) => Some((l - len) as usize),
                None => None::<usize>,
            },
            c.spec_count().spec_accepted() == 0,
            c.spec_count().spec_err() is None,
            c.spec_handle() == handle,
            c.spec_filter() == filter,
    {
        ChainedAcceptFuture {
            fut,
            count: ChainedAcceptCount::new(len, limit),
            handle,
            filter,
            _phantom: PhantomData,
        }
    }

    /// Take at most `num` connections.
    pub fn num(self, num: usize) -> (c: Self)
        ensures
            c.spec_count().spec_num() == Some(
                match self.spec_count().spec_num() {
                    Some(n) => if n <= num { n } else { num },
                    None => num,
                },
            ),
            c.spec_count().spec_accepted() == self.spec_count().spec_accepted(),
            c.spec_count().spec_err() == self.spec_count().spec_err(),
            c.spec_fut() == self.spec_fut(),
            c.spec_handle() == self.spec_handle(),
            c.spec_filter() == self.spec_filter(),
    {
        let ChainedAcceptFuture { fut, count, handle, filter, .. } = self;
        ChainedAcceptFuture { fut, count: count.num(num), handle, filter, _phantom: PhantomData }
    }

    /// Call `handle` with the address of each connection taken.
    pub fn handle<H2>(self, handle: H2) -> (c: ChainedAcceptFuture<'pin, T, E, N, L, S, Fut, H2, F, LE>)
        ensures
            c.spec_handle() == handle,
            c.spec_count() == self.spec_count(),
            c.spec_fut() == self.spec_fut(),
            c.spec_filter() == self.spec_filter(),
    {
        let ChainedAcceptFuture { fut, count, filter, .. } = self;
        ChainedAcceptFuture { fut, count, handle, filter, _phantom: PhantomData }
    }

    /// Take only the connections whose peer's address passes `filter`.
    pub fn filter<F2>(self, filter: F2) -> (c: ChainedAcceptFuture<'pin, T, E, N, L, S, Fut, H, F2, LE>)
        ensures
            c.spec_filter() == filter,
            c.spec_count() == self.spec_count(),
            c.spec_fut() == self.spec_fut(),
            c.spec_handle() == self.spec_handle(),
    {
        let ChainedAcceptFuture { fut, count, handle, .. } = self;
        ChainedAcceptFuture { fut, count, handle, filter, _phantom: PhantomData }
    }

    /// The count, to decide whether to accept and to record the outcome.
    pub fn count_mut(&mut self) -> (c: &mut ChainedAcceptCount<AcceptError<LE>>)
        ensures
            *c == old(self).spec_count(),
            final(self).spec_count() == *final(c),
            final(self).spec_fut() == old(self).spec_fut(),
            final(self).spec_handle() == old(self).spec_handle(),
            final(self).spec_filter() == old(self).spec_filter(),
    {
        &mut self.count
    }

    /// The chained future, to poll and to reach its channel.
    pub fn fut_mut(&mut self) -> (f: &mut Fut)
        ensures
            *f == old(self).spec_fut(),
            final(self).spec_fut() == *final(f),
            final(self).spec_count() == old(self).spec_count(),
            final(self).spec_handle() == old(self).spec_handle(),
            final(self).spec_filter() == old(self).spec_filter(),
    {
        &mut self.fut
    }

    /// The handler, to call.
    pub fn handle_mut(&mut self) -> (h: &mut H)
        ensures
            *h == old(self).spec_handle(),
            final(self).spec_handle() == *final(h),
            final(self).spec_fut() == old(self).spec_fut(),
            final(self).spec_count() == old(self).spec_count(),
            final(self).spec_filter() == old(self).spec_filter(),
    {
        &mut self.handle
    }

    /// The filter, to call.
    pub fn filter_mut(&mut self) -> (f: &mut F)
        ensures
            *f == old(self).spec_filter(),
            final(self).spec_filter() == *final(f),
            final(self).spec_fut() == old(self).spec_fut(),
            final(self).spec_count() == old(self).spec_count(),
            final(self).spec_handle() == old(self).spec_handle(),
    {
        &mut self.filter
    }
}

/// `handle` can be called on any address, and `filter` can be called on
/// any address and keeps every peer.
pub open spec fn takes_every_peer<H: FnMut(SocketAddr), F: FnMut(SocketAddr) -> bool>(handle: H, filter: F) -> bool {
    &&& forall|a: SocketAddr| #[trigger] call_requires(handle, (a,))
    &&& forall|a: SocketAddr| #[trigger] call_requires(filter, (a,))
    &&& forall|a: SocketAddr, r: bool| #[trigger] call_ensures(filter, (a,), r) ==> r
}

/// The count of a chained accept on `channel`: up to its limit, or
/// unbounded, with nothing taken yet.
pub open spec fn fresh_chained_count<T, E, const N: usize, L, S, LE>(
    count: ChainedAcceptCount<LE>,
    channel: Channel<T, E, N, L, S>,
) -> bool {
    &&& count.spec_num() == match channel.spec_pool().spec_limit() {
        Some(l) => Some((l - channel.spec_pool().entries().len()) as usize),
        None => None::<usize>,
    }
    &&& count.spec_accepted() == 0
    &&& count.spec_err() is None
}

impl<T, E, const N: usize, L, S> Channel<T, E, N, L, S> {
    /// Accept a connection, none when the channel is full; see
    /// [AcceptFuture] for taking more.
    pub fn accept(&mut self) -> (f: AcceptFuture<'_, T, E, N, L, S, impl FnMut(SocketAddr), impl FnMut(SocketAddr) -> bool>)
        requires
            old(self).wf(),
        ensures
            f.wf(),
            f.spec_channel() == *old(self),
            f.spec_count().spec_num() == if spec_is_full(
                old(self).spec_pool().entries().len() as usize,
                old(self).spec_pool().spec_limit(),
            ) {
                0usize
            } else {
                1usize
            },
            f.spec_count().spec_accepted() == 0,
            !f.spec_count().spec_num_set(),
            !f.spec_count().spec_to_limit(),
            takes_every_peer(f.spec_handle(), f.spec_filter()),
    {
        let any_peer = |_a: SocketAddr| -> (r: bool)
            ensures
                r,
            {
                true
            };
        AcceptFuture::new(self, |_a: SocketAddr| {}, any_peer)
    }
}

impl<'pin, T, E, const N: usize, L, S> RecvFuture<'pin, T, E, N, L, S> {
    /// Also accept connections while receiving, as many as there is room
    /// for.
    pub fn accepting(self) -> (f: ChainedAcceptFuture<'pin, T, E, N, L, S, Self, impl FnMut(SocketAddr), impl FnMut(SocketAddr) -> bool>)
        requires
            self.spec_channel().wf(),
        ensures
            f.spec_fut() == self,
            fresh_chained_count(f.spec_count(), self.spec_channel()),
            takes_every_peer(f.spec_handle(), f.spec_filter()),
    {
        let any_peer = |_a: SocketAddr| -> (r: bool)
            ensures
                r,
            {
                true
            };
        self.accepting_with(|_a: SocketAddr| {}, any_peer)
    }
}

impl<'pin, T, E, const N: usize, L, S> WithAddrFuture<'pin, T, E, N, L, S> {
    /// Also accept connections while receiving, as many as there is room
    /// for.
    pub fn accepting(self) -> (f: ChainedAcceptFuture<'pin, T, E, N, L, S, Self, impl FnMut(SocketAddr), impl FnMut(SocketAddr) -> bool>)
        requires
            self.spec_channel().wf(),
        ensures
            f.spec_fut() == self,
            fresh_chained_count(f.spec_count(), self.spec_channel()),
            takes_every_peer(f.spec_handle(), f.spec_filter()),
    {
        let any_peer = |_a: SocketAddr| -> (r: bool)
            ensures
                r,
            {
                true
            };
        self.accepting_with(|_a: SocketAddr| {}, any_peer)
    }
}

impl<'pin, T, E, const N: usize, L, S> AsBytesFuture<'pin, T, E, N, L, S> {
    /// Also accept connections while receiving, as many as there is room
    /// for.
    pub fn accepting(self) -> (f: ChainedAcceptFuture<'pin, T, E, N, L, S, Self, impl FnMut(SocketAddr), impl FnMut(SocketAddr) -> bool>)
        requires
            self.spec_channel().wf(),
        ensures
            f.spec_fut() == self,
            fresh_chained_count(f.spec_count(), self.spec_channel()),
            takes_every_peer(f.spec_handle(), f.spec_filter()),
    {
        let any_peer = |_a: SocketAddr| -> (r: bool)
            ensures
                r,
            {
                true
            };
        self.accepting_with(|_a: SocketAddr| {}, any_peer)
    }
}

impl<'pin, T, E, const N: usize, L, S> AsBytesWithAddrFuture<'pin, T, E, N, L, S> {
    /// Also accept connections while receiving, as many as there is room
    /// for.
    pub fn accepting(self) -> (f: ChainedAcceptFuture<'pin, T, E, N, L, S, Self, impl FnMut(SocketAddr), impl FnMut(SocketAddr) -> bool>)
        requires
            self.spec_channel().wf(),
        ensures
            f.spec_fut() == self,
            fresh_chained_count(f.spec_count(), self.spec_channel()),
            takes_every_peer(f.spec_handle(), f.spec_filter()),
    {
        let any_peer = |_a: SocketAddr| -> (r: bool)
            ensures
                r,
            {
                true
            };
        self.accepting_with(|_a: SocketAddr| {}, any_peer)
    }
}

impl<'pin, T, E, const N: usize, L, S> SendFuture<'pin, T, E, N, L, S> {
    /// Also accept connections while sending, as many as there is room for.
    pub fn accepting(self) -> (f: ChainedAcceptFuture<'pin, T, E, N, L, S, Self, impl FnMut(SocketAddr), impl FnMut(SocketAddr) -> bool>)
        requires
            self.spec_channel().wf(),
        ensures
            f.spec_fut() == self,
            fresh_chained_count(f.spec_count(), self.spec_channel()),
            takes_every_peer(f.spec_handle(), f.spec_filter()),
    {
        let any_peer = |_a: SocketAddr| -> (r: bool)
            ensures
                r,
            {
                true
            };
        self.accepting_with(|_a: SocketAddr| {}, any_peer)
    }
}

impl<'pin, T, E, const N: usize, L, S, F> SendFilteredFuture<'pin, T, E, N, L, S, F> {
    /// Also accept connections while sending, as many as there is room for.
    pub fn accepting(self) -> (f: ChainedAcceptFuture<'pin, T, E, N, L, S, Self, impl FnMut(SocketAddr), impl FnMut(SocketAddr) -> bool>)
        requires
            self.spec_channel().wf(),
        ensures
            f.spec_fut() == self,
            fresh_chained_count(f.spec_count(), self.spec_channel()),
            takes_every_peer(f.spec_handle(), f.spec_filter()),
    {
        let any_peer = |_a: SocketAddr| -> (r: bool)
            ensures
                r,
            {
                true
            };
        self.accepting_with(|_a: SocketAddr| {}, any_peer)
    }
}

} // verus!
