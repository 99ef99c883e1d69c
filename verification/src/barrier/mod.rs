//! Barrier that accepts waiters and releases them all at once, and the
//! waiters that wait for it.

pub mod builder;

use vstd::prelude::*;
pub use crate::channel::builder::waiter_to;
use crate::channel::Channel;
use crate::channel::recv::RecvFuture;
use crate::util::SocketAddr;
use crate::util::codec::EmptyCodec;
use crate::broadcast::Sender;
use crate::multi_channel::Channel as MultiChannel;
use crate::multi_channel::accept::spec_is_full;
use crate::multi_channel::builder::{BuilderFuture, TcpSettings};

verus! {

/// Single-connection waiter that waits for the barrier to release.
#[derive(Debug)]
pub struct Waiter<S>(Channel<(), EmptyCodec, S>);

impl<S> Waiter<S> {
    /// The waiter's channel.
    pub closed spec fn spec_channel(self) -> Channel<(), EmptyCodec, S> {
        self.0
    }

    /// A waiter over `channel`.
    pub fn new(channel: Channel<(), EmptyCodec, S>) -> (w: Self)
        ensures
            w.spec_channel() == channel,
    {
        Waiter(channel)
    }

    /// Returns local address.
    pub fn local_addr(&self) -> (a: &SocketAddr)
        ensures
            *a == self.spec_channel().spec_local_addr(),
    {
        self.0.local_addr()
    }

    /// Returns peer address.
    pub fn peer_addr(&self) -> (a: &SocketAddr)
        ensures
            *a == self.spec_channel().spec_peer_addr(),
    {
        self.0.peer_addr()
    }

    /// Wait for the barrier to release: receives the release message on the
    /// waiter's connection.
    pub fn wait(&mut self) -> (f: RecvFuture<'_, (), EmptyCodec, S>)
        ensures
            f.spec_channel() == old(self).spec_channel(),
    {
        RecvFuture::new(&mut self.0)
    }
}

/// A builder of a barrier listening on `local_addr`.
pub fn barrier_on<A>(local_addr: A) -> (b: builder::BarrierBuilderFuture<A, 0>)
    ensures
        b.spec_inner().spec_local_addr() == local_addr,
        b.spec_inner().spec_limit() is None,
        b.spec_inner().spec_tcp_settings() == TcpSettings::spec_new(),
{
    builder::BarrierBuilderFuture::new(BuilderFuture::new(local_addr))
}


/// Multi-connection barrier that releases all its waiters at once.
#[derive(Debug)]
pub struct Barrier<const N: usize, L, S>(Sender<(), EmptyCodec, N, L, S>);

impl<const N: usize, L, S> Barrier<N, L, S> {
    /// The underlying channel.
    pub closed spec fn spec_channel(self) -> MultiChannel<(), EmptyCodec, N, L, S> {
        self.0.spec_channel()
    }

    /// A barrier over `sender`.
    pub fn new(sender: Sender<(), EmptyCodec, N, L, S>) -> (b: Self)
        ensures
            b.spec_channel() == sender.spec_channel(),
    {
        Barrier(sender)
    }

    /// Returns the number of waiters.
    pub fn len(&self) -> (n: usize)
        ensures
            n == self.spec_channel().spec_pool().entries().len(),
    {
        self.0.len()
    }

    /// Returns the limit on the number of waiters, if any.
    pub fn limit(&self) -> (l: Option<usize>)
        ensures
            l == self.spec_channel().spec_pool().spec_limit(),
    {
        self.0.limit()
    }

    /// Returns whether the number of waiters reached the limit.
    pub fn is_full(&self) -> (b: bool)
        ensures
            b == spec_is_full(
                self.spec_channel().spec_pool().entries().len() as usize,
                self.spec_channel().spec_pool().spec_limit(),
            ),
    {
        self.0.is_full()
    }

    /// Returns local address.
    pub fn local_addr(&self) -> (a: &SocketAddr)
        ensures
            *a == self.spec_channel().spec_local_addr(),
    {
        self.0.local_addr()
    }

    /// Returns the waiters' addresses.
    pub fn peer_addrs(&self) -> (v: Vec<SocketAddr>)
        ensures
            v@ == self.spec_channel().spec_pool().addr_seq(),
    {
        self.0.peer_addrs()
    }

    /// The underlying channel, to accept waiters and release them on.
    pub fn channel_mut(&mut self) -> (c: &mut MultiChannel<(), EmptyCodec, N, L, S>)
        ensures
            *c == old(self).spec_channel(),
            final(self).spec_channel() == *final(c),
    {
        self.0.channel_mut()
    }
}

} // verus!
