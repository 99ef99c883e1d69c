//! The configuration that builds a multi-connection channel, and the
//! accepting future chained to its building. The `accept` of every builder
//! of a multi-connection channel (the barrier's and the broadcast sender's
//! too) stands here, beside the future whose settings its contract gives.

use vstd::prelude::*;
use std::marker::PhantomData;
use std::time::Duration;
use crate::util::TcpStreamSettings;
use crate::util::stream_pool::StreamPool;
use crate::util::SocketAddr;
use super::Channel;
use super::accept::takes_every_peer;
use crate::barrier::builder::BarrierBuilderFuture;
use crate::broadcast::builder::SenderBuilderFuture;
use crate::util::codec::EmptyCodec;

verus! {

/// TCP settings of the listening socket and of the accepted streams.
#[derive(Debug, Default, Clone, Copy)]
pub struct TcpSettings {
    /// `SO_REUSEADDR` of the socket.
    pub reuseaddr: Option<bool>,
    /// `SO_REUSEPORT` of the socket.
    pub reuseport: Option<bool>,
    /// `SO_LINGER` of the socket.
    pub linger: Option<Option<Duration>>,
    /// Receive buffer size of the socket.
    pub recv_buffer_size: Option<u32>,
    /// Send buffer size of the socket.
    pub send_buffer_size: Option<u32>,
    /// Settings of the accepted streams.
    pub stream_settings: TcpStreamSettings,
}

impl TcpSettings {
    /// No setting given.
    pub open spec fn spec_new() -> Self {
        TcpSettings {
            reuseaddr: None,
            reuseport: None,
            linger: None,
            recv_buffer_size: None,
            send_buffer_size: None,
            stream_settings: TcpStreamSettings { nodelay: None, ttl: None },
        }
    }

    /// Without any setting given, every setting is left to the system.
    pub proof fn lemma_new_is_empty()
        ensures
            Self::spec_new().reuseaddr is None,
            Self::spec_new().reuseport is None,
            Self::spec_new().linger is None,
            Self::spec_new().recv_buffer_size is None,
            Self::spec_new().send_buffer_size is None,
            Self::spec_new().stream_settings.nodelay is None,
            Self::spec_new().stream_settings.ttl is None,
    {
    }

    /// No setting given.
    pub fn new() -> (t: Self)
        ensures
            t == Self::spec_new(),
    {
        TcpSettings {
            reuseaddr: None,
            reuseport: None,
            linger: None,
            recv_buffer_size: None,
            send_buffer_size: None,
            stream_settings: TcpStreamSettings { nodelay: None, ttl: None },
        }
    }
}

/// The empty pool of a channel being built: an array pool when the const
/// limit `N` is set, else a vec pool, limited when a limit is given.
pub fn new_pool<S, const N: usize>(limit: Option<usize>) -> (p: StreamPool<S, N>)
    ensures
        p.wf(),
        p.entries().len() == 0,
        p.spec_is_array() == (N > 0),
        N > 0 ==> p.spec_limit() == Some(N),
        N == 0 ==> p.spec_limit() == limit,
        p.cursor() == 0,
        p.errors().len() == 0,
{
    if N > 0 {
        StreamPool::<S, N>::array::<N>()
    } else if let Some(limit) = limit {
        StreamPool::with_limit(limit)
    } else {
        StreamPool::vec()
    }
}

/// Configures and builds a multi-connection channel: the local address to
/// listen on, the limit on connections and the TCP settings. The const `N`,
/// when positive, is the size of the channel's array pool.
#[derive(Debug)]
pub struct BuilderFuture<A, T, E, const N: usize> {
    local_addr: A,
    limit: Option<usize>,
    tcp_settings: TcpSettings,
    _phantom: PhantomData<(T, E)>,
}

impl<A, T, E, const N: usize> BuilderFuture<A, T, E, N> {
    /// The address to listen on.
    pub closed spec fn spec_local_addr(self) -> A {
        self.local_addr
    }

    /// The limit on connections of a vec pool, if any.
    pub closed spec fn spec_limit(self) -> Option<usize> {
        self.limit
    }

    /// The TCP settings.
    pub closed spec fn spec_tcp_settings(self) -> TcpSettings {
        self.tcp_settings
    }

    /// A builder for `local_addr`, without limit or settings.
    pub fn new(local_addr: A) -> (b: Self)
        ensures
            b.spec_local_addr() == local_addr,
            b.spec_limit() is None,
            b.spec_tcp_settings() == TcpSettings::spec_new(),
    {
        BuilderFuture { local_addr, limit: None, tcp_settings: TcpSettings::new(), _phantom: PhantomData }
    }

    /// The parts of the configuration: address, limit and TCP settings.
    pub fn into_parts(self) -> (p: (A, Option<usize>, TcpSettings))
        ensures
            p == (self.spec_local_addr(), self.spec_limit(), self.spec_tcp_settings()),
    {
        (self.local_addr, self.limit, self.tcp_settings)
    }

    /// Accept a connection on the built channel before handing it out.
    pub fn accept<L, S>(self) -> (a: AcceptBuilderFuture<Self, Channel<T, E, N, L, S>, T, E, N, L, impl FnMut(SocketAddr), impl FnMut(SocketAddr) -> bool>)
        ensures
            a.spec_fut() == self,
            fresh_accept(a),
    {
        let any_peer = |_a: SocketAddr| -> (r: bool)
            ensures
                r,
            {
                true
            };
        AcceptBuilderFuture::new(self, |_a: SocketAddr| {}, any_peer)
    }

    /// Limit the number of connections the channel holds to `limit`.
    pub fn limit(self, limit: usize) -> (b: Self)
        ensures
            b.spec_limit() == Some(limit),
            b.spec_local_addr() == self.spec_local_addr(),
            b.spec_tcp_settings() == self.spec_tcp_settings(),
    {
        let mut this = self;
        this.limit = Some(limit);
        this
    }

    /// Hold the connections in an array pool of size `M`.
    pub fn limit_const<const M: usize>(self) -> (b: BuilderFuture<A, T, E, M>)
        ensures
            b.spec_limit() == self.spec_limit(),
            b.spec_local_addr() == self.spec_local_addr(),
            b.spec_tcp_settings() == self.spec_tcp_settings(),
    {
        let BuilderFuture { local_addr, limit, tcp_settings, .. } = self;
        BuilderFuture { local_addr, limit, tcp_settings, _phantom: PhantomData }
    }

    /// Changing the TCP settings sets exactly them, keeping the local
    /// address and the limit.
    pub proof fn lemma_with_tcp_settings(self, t: TcpSettings)
        ensures
            self.with_tcp_settings(t).spec_tcp_settings() == t,
            self.with_tcp_settings(t).spec_local_addr() == self.spec_local_addr(),
            self.with_tcp_settings(t).spec_limit() == self.spec_limit(),
    {
    }

    /// This builder with the TCP settings `t`.
    pub closed spec fn with_tcp_settings(self, t: TcpSettings) -> Self {
        BuilderFuture { tcp_settings: t, ..self }
    }

    /// Changes the TCP settings to `tcp_settings`, keeping the rest.
    fn set_settings(self, tcp_settings: TcpSettings) -> (b: Self)
        ensures
            b == self.with_tcp_settings(tcp_settings),
    {
        let mut this = self;
        this.tcp_settings = tcp_settings;
        this
    }

    /// Set tcp reuseaddr.
    pub fn set_tcp_reuseaddr(self, reuseaddr: bool) -> (b: Self)
        ensures
            b == self.with_tcp_settings((TcpSettings { reuseaddr: Some(reuseaddr), ..self.spec_tcp_settings() })),
    {
        let t = TcpSettings { reuseaddr: Some(reuseaddr), ..self.tcp_settings };
        self.set_settings(t)
    }

    /// Set tcp reuseport.
    pub fn set_tcp_reuseport(self, reuseport: bool) -> (b: Self)
        ensures
            b == self.with_tcp_settings((TcpSettings { reuseport: Some(reuseport), ..self.spec_tcp_settings() })),
    {
        let t = TcpSettings { reuseport: Some(reuseport), ..self.tcp_settings };
        self.set_settings(t)
    }

    /// Set tcp linger.
    pub fn set_tcp_linger(self, dur: Option<Duration>) -> (b: Self)
        ensures
            b == self.with_tcp_settings((TcpSettings { linger: Some(dur), ..self.spec_tcp_settings() })),
    {
        let t = TcpSettings { linger: Some(dur), ..self.tcp_settings };
        self.set_settings(t)
    }

    /// Set tcp nodelay of the accepted streams.
    pub fn set_tcp_nodelay(self, nodelay: bool) -> (b: Self)
        ensures
            b == self.with_tcp_settings(
                (TcpSettings {
                    stream_settings: TcpStreamSettings {
                        nodelay: Some(nodelay),
                        ..self.spec_tcp_settings().stream_settings
                    },
                    ..self.spec_tcp_settings()
                }),
            ),
    {
        let s = TcpStreamSettings { nodelay: Some(nodelay), ..self.tcp_settings.stream_settings };
        let t = TcpSettings { stream_settings: s, ..self.tcp_settings };
        self.set_settings(t)
    }

    /// Set tcp ttl of the accepted streams.
    pub fn set_tcp_ttl(self, ttl: u32) -> (b: Self)
        ensures
            b == self.with_tcp_settings(
                (TcpSettings {
                    stream_settings: TcpStreamSettings {
                        ttl: Some(ttl),
                        ..self.spec_tcp_settings().stream_settings
                    },
                    ..self.spec_tcp_settings()
                }),
            ),
    {
        let s = TcpStreamSettings { ttl: Some(ttl), ..self.tcp_settings.stream_settings };
        let t = TcpSettings { stream_settings: s, ..self.tcp_settings };
        self.set_settings(t)
    }

    /// Set tcp recv_buffer_size.
    pub fn set_tcp_recv_buffer_size(self, size: u32) -> (b: Self)
        ensures
            b == self.with_tcp_settings((TcpSettings { recv_buffer_size: Some(size), ..self.spec_tcp_settings() })),
    {
        let t = TcpSettings { recv_buffer_size: Some(size), ..self.tcp_settings };
        self.set_settings(t)
    }

    /// Set tcp send_buffer_size.
    pub fn set_tcp_send_buffer_size(self, size: u32) -> (b: Self)
        ensures
            b == self.with_tcp_settings((TcpSettings { send_buffer_size: Some(size), ..self.spec_tcp_settings() })),
    {
        let t = TcpSettings { send_buffer_size: Some(size), ..self.tcp_settings };
        self.set_settings(t)
    }
}

/// The future that builds a channel and then accepts connections on it
/// before handing it out.
#[derive(Debug)]
pub struct AcceptBuilderFuture<Fut, C, T, E, const N: usize, L, H, F> {
    fut: Fut,
    num: usize,
    to_limit: bool,
    handle: H,
    filter: F,
    channel: Option<C>,
    _phantom: PhantomData<(T, E, L)>,
}

impl<T, C, E, Fut, const N: usize, L, H, F> AcceptBuilderFuture<Fut, C, T, E, N, L, H, F> {
    /// The future that builds the channel.
    pub closed spec fn spec_fut(self) -> Fut {
        self.fut
    }

    /// How many connections to accept, when not up to the limit.
    pub closed spec fn spec_num(self) -> usize {
        self.num
    }

    /// Whether to accept connections up to the limit.
    pub closed spec fn spec_to_limit(self) -> bool {
        self.to_limit
    }

    /// What is called with the address of each accepted connection.
    pub closed spec fn spec_handle(self) -> H {
        self.handle
    }

    /// What decides whether to keep an accepted connection.
    pub closed spec fn spec_filter(self) -> F {
        self.filter
    }

    /// The channel, once built.
    pub closed spec fn spec_channel(self) -> Option<C> {
        self.channel
    }

    /// Accepts one connection on the channel that `fut` builds.
    pub fn new(fut: Fut, handle: H, filter: F) -> (a: Self)
        ensures
            a.spec_fut() == fut,
            a.spec_num() == 1,
            !a.spec_to_limit(),
            a.spec_handle() == handle,
            a.spec_filter() == filter,
            a.spec_channel() is None,
    {
        Self { fut, num: 1, to_limit: false, handle, filter, channel: None, _phantom: PhantomData }
    }

    /// Accept `num` connections.
    pub fn num(self, num: usize) -> (a: Self)
        ensures
            a.spec_num() == num,
            !a.spec_to_limit(),
            a.spec_fut() == self.spec_fut(),
            a.spec_handle() == self.spec_handle(),
            a.spec_filter() == self.spec_filter(),
            a.spec_channel() == self.spec_channel(),
    {
        let mut this = self;
        this.num = num;
        this.to_limit = false;
        this
    }

    /// Accept connections up to the channel's limit.
    pub fn to_limit(self) -> (a: Self)
        ensures
            a.spec_num() == self.spec_num(),
            a.spec_to_limit(),
            a.spec_fut() == self.spec_fut(),
            a.spec_handle() == self.spec_handle(),
            a.spec_filter() == self.spec_filter(),
            a.spec_channel() == self.spec_channel(),
    {
        let mut this = self;
        this.to_limit = true;
        this
    }

    /// Call `handle` with the address of each accepted connection.
    pub fn handle<H2>(self, handle: H2) -> (a: AcceptBuilderFuture<Fut, C, T, E, N, L, H2, F>)
        ensures
            a.spec_handle() == handle,
            a.spec_num() == self.spec_num(),
            a.spec_to_limit() == self.spec_to_limit(),
            a.spec_fut() == self.spec_fut(),
            a.spec_filter() == self.spec_filter(),
            a.spec_channel() == self.spec_channel(),
    {
        let Self { fut, num, to_limit, filter, channel, .. } = self;
        AcceptBuilderFuture { fut, num, to_limit, handle, filter, channel, _phantom: PhantomData }
    }

    /// Keep only the accepted connections whose address passes `filter`.
    pub fn filter<F2>(self, filter: F2) -> (a: AcceptBuilderFuture<Fut, C, T, E, N, L, H, F2>)
        ensures
            a.spec_filter() == filter,
            a.spec_num() == self.spec_num(),
            a.spec_to_limit() == self.spec_to_limit(),
            a.spec_fut() == self.spec_fut(),
            a.spec_handle() == self.spec_handle(),
            a.spec_channel() == self.spec_channel(),
    {
        let Self { fut, num, to_limit, handle, channel, .. } = self;
        AcceptBuilderFuture { fut, num, to_limit, handle, filter, channel, _phantom: PhantomData }
    }

    /// How many connections the built channel must hold before it is handed
    /// out, given its limit: when accepting up to the limit, the limit, or a
    /// single connection when there is none; else the number asked for.
    pub fn target(&self, limit: Option<usize>) -> (n: usize)
        ensures
            n == if self.spec_to_limit() {
                match limit {
                    Some(l) => l,
                    None => 1usize,
                }
            } else {
                self.spec_num()
            },
    {
        if self.to_limit {
            match limit {
                Some(l) => l,
                None => 1,
            }
        } else {
            self.num
        }
    }

    /// The future that builds the channel, taken out; the rest stays, to
    /// accept connections on the channel once built.
    pub fn take_fut(self) -> (r: (Fut, AcceptBuilderFuture<(), C, T, E, N, L, H, F>))
        ensures
            r.0 == self.spec_fut(),
            r.1.spec_num() == self.spec_num(),
            r.1.spec_to_limit() == self.spec_to_limit(),
            r.1.spec_handle() == self.spec_handle(),
            r.1.spec_filter() == self.spec_filter(),
            r.1.spec_channel() == self.spec_channel(),
    {
        let AcceptBuilderFuture { fut, num, to_limit, handle, filter, channel, .. } = self;
        (fut, AcceptBuilderFuture { fut: (), num, to_limit, handle, filter, channel, _phantom: PhantomData })
    }

    /// The future that builds the channel, to poll.
    pub fn fut_mut(&mut self) -> (f: &mut Fut)
        ensures
            *f == old(self).spec_fut(),
            final(self).spec_fut() == *final(f),
            final(self).spec_num() == old(self).spec_num(),
            final(self).spec_to_limit() == old(self).spec_to_limit(),
            final(self).spec_handle() == old(self).spec_handle(),
            final(self).spec_filter() == old(self).spec_filter(),
            final(self).spec_channel() == old(self).spec_channel(),
    {
        &mut self.fut
    }

    /// The built channel, if any, to accept connections on or to hand out.
    pub fn channel_mut(&mut self) -> (c: &mut Option<C>)
        ensures
            *c == old(self).spec_channel(),
            final(self).spec_channel() == *final(c),
            final(self).spec_fut() == old(self).spec_fut(),
            final(self).spec_num() == old(self).spec_num(),
            final(self).spec_to_limit() == old(self).spec_to_limit(),
            final(self).spec_handle() == old(self).spec_handle(),
            final(self).spec_filter() == old(self).spec_filter(),
    {
        &mut self.channel
    }

    /// The handler, to call.
    pub fn handle_mut(&mut self) -> (h: &mut H)
        ensures
            *h == old(self).spec_handle(),
            final(self).spec_handle() == *final(h),
            final(self).spec_fut() == old(self).spec_fut(),
            final(self).spec_num() == old(self).spec_num(),
            final(self).spec_to_limit() == old(self).spec_to_limit(),
            final(self).spec_filter() == old(self).spec_filter(),
            final(self).spec_channel() == old(self).spec_channel(),
    {
        &mut self.handle
    }

    /// The filter, to call.
    pub fn filter_mut(&mut self) -> (f: &mut F)
        ensures
            *f == old(self).spec_filter(),
            final(self).spec_filter() == *final(f),
            final(self).spec_fut() == old(self).spec_fut(),
            final(self).spec_num() == old(self).spec_num(),
            final(self).spec_to_limit() == old(self).spec_to_limit(),
            final(self).spec_handle() == old(self).spec_handle(),
            final(self).spec_channel() == old(self).spec_channel(),
    {
        &mut self.filter
    }
}

/// `a` accepts one connection on the channel once built, which it does not
/// hold yet, keeping every peer.
pub open spec fn fresh_accept<Fut, C, T, E, const N: usize, L, H: FnMut(SocketAddr), F: FnMut(SocketAddr) -> bool>(
    a: AcceptBuilderFuture<Fut, C, T, E, N, L, H, F>,
) -> bool {
    &&& a.spec_num() == 1
    &&& !a.spec_to_limit()
    &&& a.spec_channel() is None
    &&& takes_every_peer(a.spec_handle(), a.spec_filter())
}

impl<A, const N: usize> BarrierBuilderFuture<A, N> {
    /// Accept a connection on the built channel before handing it out.
    pub fn accept<L, S>(self) -> (a: AcceptBuilderFuture<Self, Channel<(), EmptyCodec, N, L, S>, (), EmptyCodec, N, L, impl FnMut(SocketAddr), impl FnMut(SocketAddr) -> bool>)
        ensures
            a.spec_fut() == self,
            fresh_accept(a),
    {
        let any_peer = |_a: SocketAddr| -> (r: bool)
            ensures
                r,
            {
                true
            };
        AcceptBuilderFuture::new(self, |_a: SocketAddr| {}, any_peer)
    }
}

impl<A, T, E, const N: usize> SenderBuilderFuture<A, T, E, N> {
    /// Accept a connection on the built channel before handing it out.
    pub fn accept<L, S>(self) -> (a: AcceptBuilderFuture<Self, Channel<T, E, N, L, S>, T, E, N, L, impl FnMut(SocketAddr), impl FnMut(SocketAddr) -> bool>)
        ensures
            a.spec_fut() == self,
            fresh_accept(a),
    {
        let any_peer = |_a: SocketAddr| -> (r: bool)
            ensures
                r,
            {
                true
            };
        AcceptBuilderFuture::new(self, |_a: SocketAddr| {}, any_peer)
    }
}

} // verus!
