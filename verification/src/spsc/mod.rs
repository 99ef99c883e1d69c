//! Single-producer/single-consumer channel.

pub mod builder;

use vstd::prelude::*;
pub use crate::channel::builder::{send_to, send_on, recv_to, recv_on};
use crate::channel::Channel;
use crate::util::SocketAddr;

verus! {





/// Single-connection sender that sends items to the receiver.
#[derive(Debug)]
pub struct Sender<T, E, S>(Channel<T, E, S>);

impl<T, E, S> Sender<T, E, S> {
    /// The underlying channel.
    pub closed spec fn spec_channel(self) -> Channel<T, E, S> {
        self.0
    }

    /// Returns local address.
    pub fn local_addr(&self) -> (a: &SocketAddr)
        ensures
            *a == self.spec_channel().spec_local_addr(),
    {
        self.0.local_addr()
    }

    /// Returns peer address.
    pub fn peer_addr(&self) -> (a: &SocketAddr)
        ensures
            *a == self.spec_channel().spec_peer_addr(),
    {
        self.0.peer_addr()
    }

    /// The underlying channel, to send on.
    pub fn channel_mut(&mut self) -> (c: &mut Channel<T, E, S>)
        ensures
            *c == old(self).spec_channel(),
            final(self).spec_channel() == *final(c),
    {
        &mut self.0
    }
}

impl<T, E, S> std::convert::From<Channel<T, E, S>> for Sender<T, E, S> {
    fn from(c: Channel<T, E, S>) -> (r: Self)
        ensures
            r.spec_channel() == c,
    {
        Sender(c)
    }
}

impl<T, E, S> vstd::std_specs::convert::FromSpecImpl<Channel<T, E, S>> for Sender<T, E, S> {
    open spec fn obeys_from_spec() -> bool {
        true
    }

    closed spec fn from_spec(c: Channel<T, E, S>) -> Self {
        Sender(c)
    }
}

impl<T, E, S> std::convert::From<Sender<T, E, S>> for Channel<T, E, S> {
    fn from(c: Sender<T, E, S>) -> (r: Self) {
        c.0
    }
}

impl<T, E, S> vstd::std_specs::convert::FromSpecImpl<Sender<T, E, S>> for Channel<T, E, S> {
    open spec fn obeys_from_spec() -> bool {
        true
    }

    open spec fn from_spec(c: Sender<T, E, S>) -> Self {
        c.spec_channel()
    }
}

/// Single-connection receiver that receives items from the sender.
#[derive(Debug)]
pub struct Receiver<T, E, S>(Channel<T, E, S>);

impl<T, E, S> Receiver<T, E, S> {
    /// The underlying channel.
    pub closed spec fn spec_channel(self) -> Channel<T, E, S> {
        self.0
    }

    /// Returns local address.
    pub fn local_addr(&self) -> (a: &SocketAddr)
        ensures
            *a == self.spec_channel().spec_local_addr(),
    {
        self.0.local_addr()
    }

    /// Returns peer address.
    pub fn peer_addr(&self) -> (a: &SocketAddr)
        ensures
            *a == self.spec_channel().spec_peer_addr(),
    {
        self.0.peer_addr()
    }

    /// The underlying channel, to receive on.
    pub fn channel_mut(&mut self) -> (c: &mut Channel<T, E, S>)
        ensures
            *c == old(self).spec_channel(),
            final(self).spec_channel() == *final(c),
    {
        &mut self.0
    }
}

impl<T, E, S> std::convert::From<Channel<T, E, S>> for Receiver<T, E, S> {
    fn from(c: Channel<T, E, S>) -> (r: Self)
        ensures
            r.spec_channel() == c,
    {
        Receiver(c)
    }
}

impl<T, E, S> vstd::std_specs::convert::FromSpecImpl<Channel<T, E, S>> for Receiver<T, E, S> {
    open spec fn obeys_from_spec() -> bool {
        true
    }

    closed spec fn from_spec(c: Channel<T, E, S>) -> Self {
        Receiver(c)
    }
}

impl<T, E, S> std::convert::From<Receiver<T, E, S>> for Channel<T, E, S> {
    fn from(c: Receiver<T, E, S>) -> (r: Self) {
        c.0
    }
}

impl<T, E, S> vstd::std_specs::convert::FromSpecImpl<Receiver<T, E, S>> for Channel<T, E, S> {
    open spec fn obeys_from_spec() -> bool {
        true
    }

    open spec fn from_spec(c: Receiver<T, E, S>) -> Self {
        c.spec_channel()
    }
}

} // verus!
