//! Broadcast channel: receivers connect to the sender, which listens,
//! accepts them, and sends each item to all of them.
pub mod builder;

use vstd::prelude::*;
pub use crate::channel::builder::receiver_to;
use crate::channel::Channel;
use crate::multi_channel::Channel as MultiChannel;
use crate::multi_channel::accept::spec_is_full;
use crate::multi_channel::builder::{BuilderFuture, TcpSettings};
use crate::util::SocketAddr;

verus! {

/// A builder of the sender of a broadcast channel listening on
/// `local_addr`.
pub fn sender_on<A, T, E>(local_addr: A) -> (b: builder::SenderBuilderFuture<A, T, E, 0>)
    ensures
        b.spec_inner().spec_local_addr() == local_addr,
        b.spec_inner().spec_limit() is None,
        b.spec_inner().spec_tcp_settings() == TcpSettings::spec_new(),
{
    builder::SenderBuilderFuture::new(BuilderFuture::new(local_addr))
}


/// Single-connection receiver that receives items from the sender.
#[derive(Debug)]
pub struct Receiver<T, E, S>(Channel<T, E, S>);

impl<T, E, S> Receiver<T, E, S> {
    /// The underlying channel.
    pub closed spec fn spec_channel(self) -> Channel<T, E, S> {
        self.0
    }

    /// Returns local address.
    pub fn local_addr(&self) -> (a: &SocketAddr)
        ensures
            *a == self.spec_channel().spec_local_addr(),
    {
        self.0.local_addr()
    }

    /// Returns peer address.
    pub fn peer_addr(&self) -> (a: &SocketAddr)
        ensures
            *a == self.spec_channel().spec_peer_addr(),
    {
        self.0.peer_addr()
    }

    /// The underlying channel, to receive on.
    pub fn channel_mut(&mut self) -> (c: &mut Channel<T, E, S>)
        ensures
            *c == old(self).spec_channel(),
            final(self).spec_channel() == *final(c),
    {
        &mut self.0
    }
}

impl<T, E, S> std::convert::From<Channel<T, E, S>> for Receiver<T, E, S> {
    fn from(c: Channel<T, E, S>) -> (r: Self)
        ensures
            r.spec_channel() == c,
    {
        Receiver(c)
    }
}

impl<T, E, S> vstd::std_specs::convert::FromSpecImpl<Channel<T, E, S>> for Receiver<T, E, S> {
    open spec fn obeys_from_spec() -> bool {
        true
    }

    closed spec fn from_spec(c: Channel<T, E, S>) -> Self {
        Receiver(c)
    }
}

impl<T, E, S> std::convert::From<Receiver<T, E, S>> for Channel<T, E, S> {
    fn from(c: Receiver<T, E, S>) -> (r: Self) {
        c.0
    }
}

impl<T, E, S> vstd::std_specs::convert::FromSpecImpl<Receiver<T, E, S>> for Channel<T, E, S> {
    open spec fn obeys_from_spec() -> bool {
        true
    }

    open spec fn from_spec(c: Receiver<T, E, S>) -> Self {
        c.spec_channel()
    }
}

/// Multi-connection sender that sends items to all its receivers.
#[derive(Debug)]
pub struct Sender<T, E, const N: usize, L, S>(MultiChannel<T, E, N, L, S>);

impl<T, E, const N: usize, L, S> Sender<T, E, N, L, S> {
    /// The underlying channel.
    pub closed spec fn spec_channel(self) -> MultiChannel<T, E, N, L, S> {
        self.0
    }

    /// Returns the number of connections.
    pub fn len(&self) -> (n: usize)
        ensures
            n == self.spec_channel().spec_pool().entries().len(),
    {
        self.0.len()
    }

    /// Returns the limit on the number of connections, if any.
    pub fn limit(&self) -> (l: Option<usize>)
        ensures
            l == self.spec_channel().spec_pool().spec_limit(),
    {
        self.0.limit()
    }

    /// Returns whether the number of connections reached the limit.
    pub fn is_full(&self) -> (b: bool)
        ensures
            b == spec_is_full(
                self.spec_channel().spec_pool().entries().len() as usize,
                self.spec_channel().spec_pool().spec_limit(),
            ),
    {
        self.0.is_full()
    }

    /// Returns local address.
    pub fn local_addr(&self) -> (a: &SocketAddr)
        ensures
            *a == self.spec_channel().spec_local_addr(),
    {
        self.0.local_addr()
    }

    /// Returns the peers' addresses.
    pub fn peer_addrs(&self) -> (v: Vec<SocketAddr>)
        ensures
            v@ == self.spec_channel().spec_pool().addr_seq(),
    {
        self.0.peer_addrs()
    }

    /// The underlying channel, to accept connections and send on.
    pub fn channel_mut(&mut self) -> (c: &mut MultiChannel<T, E, N, L, S>)
        ensures
            *c == old(self).spec_channel(),
            final(self).spec_channel() == *final(c),
    {
        &mut self.0
    }
}

impl<T, E, const N: usize, L, S> std::convert::From<MultiChannel<T, E, N, L, S>> for Sender<T, E, N, L, S> {
    fn from(c: MultiChannel<T, E, N, L, S>) -> (r: Self)
        ensures
            r.spec_channel() == c,
    {
        Sender(c)
    }
}

impl<T, E, const N: usize, L, S> vstd::std_specs::convert::FromSpecImpl<MultiChannel<T, E, N, L, S>> for Sender<T, E, N, L, S> {
    open spec fn obeys_from_spec() -> bool {
        true
    }

    closed spec fn from_spec(c: MultiChannel<T, E, N, L, S>) -> Self {
        Sender(c)
    }
}

impl<T, E, const N: usize, L, S> std::convert::From<Sender<T, E, N, L, S>> for MultiChannel<T, E, N, L, S> {
    fn from(c: Sender<T, E, N, L, S>) -> (r: Self) {
        c.0
    }
}

impl<T, E, const N: usize, L, S> vstd::std_specs::convert::FromSpecImpl<Sender<T, E, N, L, S>> for MultiChannel<T, E, N, L, S> {
    open spec fn obeys_from_spec() -> bool {
        true
    }

    open spec fn from_spec(c: Sender<T, E, N, L, S>) -> Self {
        c.spec_channel()
    }
}

} // verus!
