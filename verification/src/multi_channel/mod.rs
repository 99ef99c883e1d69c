//! Generic multi-connection channel: the decisions of its accepting and
//! sending futures, and its errors.

pub mod accept;
pub mod builder;
pub mod errors;
pub mod recv;
pub mod send;

use vstd::prelude::*;
use std::marker::PhantomData;
use crate::util::{SocketAddr, TcpStreamSettings};
use crate::util::split::Split;
use crate::util::listener::UnsplitError as ListenerUnsplitError;
use crate::util::stream_pool::{StreamPool, unsplit_outcome, split_halves};
use accept::{is_full, spec_is_full};
use recv::RecvFuture;
use send::{SendFuture, State};
use builder::{new_pool, BuilderFuture};
use errors::UnsplitError;

verus! {

/// A builder of a channel listening on `local_addr`.
pub fn channel_on<A, T, E>(local_addr: A) -> (b: BuilderFuture<A, T, E, 0>)
    ensures
        b.spec_local_addr() == local_addr,
        b.spec_limit() is None,
        b.spec_tcp_settings() == builder::TcpSettings::spec_new(),
{
    BuilderFuture::new(local_addr)
}

/// A multi-connection channel: a listener `L` that accepts connections, the
/// local address it listens on, the pool of accepted framed connections
/// `S`, and the settings of the accepted streams. Items `T` are encoded and
/// decoded by `E`.
#[derive(Debug)]
pub struct Channel<T, E, const N: usize, L, S> {
    listener: L,
    local_addr: SocketAddr,
    stream_pool: StreamPool<S, N>,
    stream_config: TcpStreamSettings,
    _phantom: PhantomData<(T, E)>,
}

impl<T, E, const N: usize, L, S> Channel<T, E, N, L, S> {
    /// The listener.
    pub closed spec fn spec_listener(self) -> L {
        self.listener
    }

    /// The local address.
    pub closed spec fn spec_local_addr(self) -> SocketAddr {
        self.local_addr
    }

    /// The pool of connections.
    pub closed spec fn spec_pool(self) -> StreamPool<S, N> {
        self.stream_pool
    }

    /// The settings of the accepted streams.
    pub closed spec fn spec_stream_config(self) -> TcpStreamSettings {
        self.stream_config
    }

    /// The pool holds no more connections than its limit.
    pub open spec fn wf(self) -> bool {
        self.spec_pool().wf()
    }

    /// A channel with no connection yet, listening with `listener` on
    /// `local_addr`: its pool is an array pool of size `N` when `N` is
    /// positive, else a vec pool limited by `limit`.
    pub fn new(
        listener: L,
        local_addr: SocketAddr,
        limit: Option<usize>,
        stream_config: TcpStreamSettings,
    ) -> (c: Self)
        ensures
            c.wf(),
            c.spec_listener() == listener,
            c.spec_local_addr() == local_addr,
            c.spec_stream_config() == stream_config,
            c.spec_pool().entries().len() == 0,
            c.spec_pool().spec_is_array() == (N > 0),
            N > 0 ==> c.spec_pool().spec_limit() == Some(N),
            N == 0 ==> c.spec_pool().spec_limit() == limit,
            c.spec_pool().cursor() == 0,
            c.spec_pool().errors().len() == 0,
    {
        Channel {
            listener,
            local_addr,
            stream_pool: new_pool::<S, N>(limit),
            stream_config,
            _phantom: PhantomData,
        }
    }

    /// Returns the number of connections.
    pub fn len(&self) -> (n: usize)
        ensures
            n == self.spec_pool().entries().len(),
    {
        self.stream_pool.len()
    }

    /// Returns the limit on the number of connections, if any.
    pub fn limit(&self) -> (l: Option<usize>)
        ensures
            l == self.spec_pool().spec_limit(),
    {
        self.stream_pool.limit()
    }

    /// Returns whether the channel holds as many connections as its limit.
    pub fn is_full(&self) -> (b: bool)
        ensures
            b == spec_is_full(
                self.spec_pool().entries().len() as usize,
                self.spec_pool().spec_limit(),
            ),
    {
        is_full(self.len(), self.limit())
    }

    /// Returns local address.
    pub fn local_addr(&self) -> (a: &SocketAddr)
        ensures
            *a == self.spec_local_addr(),
    {
        &self.local_addr
    }

    /// Returns the peers' addresses, in the order of the connections.
    pub fn peer_addrs(&self) -> (v: Vec<SocketAddr>)
        ensures
            v@ == self.spec_pool().addr_seq(),
    {
        self.stream_pool.addrs()
    }

    /// Returns the settings of the accepted streams.
    pub fn stream_config(&self) -> (c: &TcpStreamSettings)
        ensures
            *c == self.spec_stream_config(),
    {
        &self.stream_config
    }

    /// Returns the listener, to accept connections with.
    pub fn listener(&self) -> (l: &L)
        ensures
            *l == self.spec_listener(),
    {
        &self.listener
    }

    /// The pool of connections, to read or write frames on.
    pub fn stream_pool_mut(&mut self) -> (p: &mut StreamPool<S, N>)
        ensures
            *p == old(self).spec_pool(),
            final(self).spec_pool() == *final(p),
            final(self).spec_listener() == old(self).spec_listener(),
            final(self).spec_local_addr() == old(self).spec_local_addr(),
            final(self).spec_stream_config() == old(self).spec_stream_config(),
    {
        &mut self.stream_pool
    }
}

impl<T, E, const N: usize, L, S> Channel<T, E, N, L, S> {

    /// Receive an item from any connection.
    pub fn recv(&mut self) -> (f: RecvFuture<'_, T, E, N, L, S>)
        ensures
            f.spec_channel() == *old(self),
    {
        RecvFuture::new(self)
    }

    /// Send `item` to every connection.
    pub fn send(&mut self, item: T) -> (f: SendFuture<'_, T, E, N, L, S>)
        ensures
            f.spec_channel() == *old(self),
            f.spec_item() == Some(item),
            f.spec_state() == State::Ready,
    {
        SendFuture::new(self, item)
    }
}

impl<T, E, const N: usize, L, S> Split for Channel<T, E, N, L, S> where
    L: Split<Error = ListenerUnsplitError>,
    S: Split,
 {
    type Left = crate::mpsc::Receiver<T, E, N, L::Left, S::Left>;
    type Right = crate::broadcast::Sender<T, E, N, L::Right, S::Right>;
    type Error = UnsplitError<S::Error>;

    /// Splits the listener and every connection into a receiving half and a
    /// sending half; both keep the local address and the stream settings,
    /// and hold the connections in the reverse order.
    fn split(self) -> (r: (Self::Left, Self::Right))
        ensures
            r.0.spec_channel().spec_local_addr() == self.spec_local_addr(),
            r.1.spec_channel().spec_local_addr() == self.spec_local_addr(),
            r.0.spec_channel().spec_stream_config() == self.spec_stream_config(),
            r.1.spec_channel().spec_stream_config() == self.spec_stream_config(),
            call_ensures(
                L::split,
                (self.spec_listener(),),
                (r.0.spec_channel().spec_listener(), r.1.spec_channel().spec_listener()),
            ),
            self.wf() ==> {
                &&& r.0.spec_channel().wf() && r.1.spec_channel().wf()
                &&& split_halves::<S>(
                    self.spec_pool().entries(),
                    r.0.spec_channel().spec_pool().entries(),
                    r.1.spec_channel().spec_pool().entries(),
                )
                &&& r.0.spec_channel().spec_pool().addr_seq() == self.spec_pool().addr_seq().reverse()
                &&& r.1.spec_channel().spec_pool().addr_seq() == self.spec_pool().addr_seq().reverse()
                &&& r.0.spec_channel().spec_pool().spec_is_array() == self.spec_pool().spec_is_array()
                &&& r.1.spec_channel().spec_pool().spec_is_array() == self.spec_pool().spec_is_array()
                &&& r.0.spec_channel().spec_pool().spec_limit() == self.spec_pool().spec_limit()
                &&& r.1.spec_channel().spec_pool().spec_limit() == self.spec_pool().spec_limit()
            },
    {
        let Channel { listener, local_addr, stream_pool, stream_config, .. } = self;
        let (r_listener, w_listener) = listener.split();
        let (r_pool, w_pool) = stream_pool.split();
        let receiver = Channel {
            listener: r_listener,
            local_addr,
            stream_pool: r_pool,
            stream_config,
            _phantom: PhantomData,
        };
        let sender = Channel {
            listener: w_listener,
            local_addr,
            stream_pool: w_pool,
            stream_config,
            _phantom: PhantomData,
        };
        (crate::mpsc::Receiver::from(receiver), crate::broadcast::Sender::from(sender))
    }

    /// Unites a receiving half and a sending half: they must have the same
    /// local address, then the same stream settings; then their listeners
    /// must unite, then their pools (see `unsplit_outcome`).
    fn unsplit(left: Self::Left, right: Self::Right) -> (r: Result<Self, Self::Error>)
        ensures
            left.spec_channel().spec_local_addr() != right.spec_channel().spec_local_addr() ==> r == Err::<Self, Self::Error>(
                UnsplitError::UnequalLocalAddr {
                    l_local_addr: left.spec_channel().spec_local_addr(),
                    r_local_addr: right.spec_channel().spec_local_addr(),
                },
            ),
            left.spec_channel().spec_local_addr() == right.spec_channel().spec_local_addr() && left.spec_channel().spec_stream_config()
                != right.spec_channel().spec_stream_config() ==> r == Err::<Self, Self::Error>(
                UnsplitError::UnequalStreamConfig,
            ),
            !(r matches Err(UnsplitError::UnequalLocalAddr { .. })) && !(r matches Err(
                UnsplitError::UnequalStreamConfig,
            )) ==> left.spec_channel().spec_local_addr() == right.spec_channel().spec_local_addr() && left.spec_channel().spec_stream_config()
                == right.spec_channel().spec_stream_config(),
            left.spec_channel().spec_local_addr() == right.spec_channel().spec_local_addr() && left.spec_channel().spec_stream_config()
                == right.spec_channel().spec_stream_config() ==> {
                ||| r is Ok
                ||| r matches Err(UnsplitError::ListenerUnsplitError { .. })
                ||| r matches Err(UnsplitError::StreamPoolUnsplitError { .. })
            },
            r matches Err(UnsplitError::ListenerUnsplitError { source }) ==> call_ensures(
                L::unsplit,
                (left.spec_channel().spec_listener(), right.spec_channel().spec_listener()),
                Err::<L, ListenerUnsplitError>(source),
            ),
            r matches Err(UnsplitError::StreamPoolUnsplitError { source }) ==> unsplit_outcome::<S, N>(
                left.spec_channel().spec_pool(),
                right.spec_channel().spec_pool(),
                Err(source),
            ),
            r matches Ok(c) ==> {
                &&& c.spec_local_addr() == left.spec_channel().spec_local_addr()
                &&& c.spec_stream_config() == left.spec_channel().spec_stream_config()
                &&& call_ensures(
                    L::unsplit,
                    (left.spec_channel().spec_listener(), right.spec_channel().spec_listener()),
                    Ok::<L, ListenerUnsplitError>(c.spec_listener()),
                )
                &&& unsplit_outcome::<S, N>(
                    left.spec_channel().spec_pool(),
                    right.spec_channel().spec_pool(),
                    Ok(c.spec_pool()),
                )
                &&& left.spec_channel().wf() ==> c.wf()
            },
    {
        let left = Channel::from(left);
        let right = Channel::from(right);
        let Channel {
            listener: l_listener,
            local_addr: l_local_addr,
            stream_pool: l_stream_pool,
            stream_config: l_stream_config,
            ..
        } = left;
        let Channel {
            listener: r_listener,
            local_addr: r_local_addr,
            stream_pool: r_stream_pool,
            stream_config: r_stream_config,
            ..
        } = right;

        let same_config = l_stream_config == r_stream_config;
        if let Err(e) = check_unsplit::<S::Error>(l_local_addr, r_local_addr, same_config) {
            return Err(e);
        }
        let listener = match L::unsplit(l_listener, r_listener) {
            Ok(listener) => listener,
            Err(source) => {
                return Err(UnsplitError::ListenerUnsplitError { source });
            },
        };
        let stream_pool = match StreamPool::<S, N>::unsplit(l_stream_pool, r_stream_pool) {
            Ok(pool) => pool,
            Err(source) => {
                return Err(UnsplitError::StreamPoolUnsplitError { source });
            },
        };
        Ok(Channel {
            listener,
            local_addr: l_local_addr,
            stream_pool,
            stream_config: l_stream_config,
            _phantom: PhantomData,
        })
    }
}

/// Whether a receiver and a sender can be united into a channel: they must
/// have the same local address, then the same stream configuration.
pub fn check_unsplit<E>(
    l_local_addr: SocketAddr,
    r_local_addr: SocketAddr,
    same_stream_config: bool,
) -> (r: Result<(), UnsplitError<E>>)
    ensures
        l_local_addr != r_local_addr ==> r == Err::<(), UnsplitError<E>>(
            UnsplitError::UnequalLocalAddr { l_local_addr, r_local_addr },
        ),
        l_local_addr == r_local_addr && !same_stream_config ==> r == Err::<(), UnsplitError<E>>(
            UnsplitError::UnequalStreamConfig,
        ),
        l_local_addr == r_local_addr && same_stream_config ==> r is Ok,
{
    if l_local_addr != r_local_addr {
        return Err(UnsplitError::UnequalLocalAddr { l_local_addr, r_local_addr });
    }
    if !same_stream_config {
        return Err(UnsplitError::UnequalStreamConfig);
    }
    Ok(())
}

} // verus!
