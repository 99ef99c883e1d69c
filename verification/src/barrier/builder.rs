//! Builders of barriers: the barrier listens and accepts the waiters,
//! which connect to it.

use vstd::prelude::*;
use std::time::Duration;
use crate::channel::builder::{ChannelBuilderFuture, TcpSettings as ChannelTcpSettings};
use crate::multi_channel::builder::{BuilderFuture, TcpSettings};
use crate::util::TcpStreamSettings;
use crate::util::codec::EmptyCodec;

verus! {

/// Builds a waiter, connecting to the barrier.
#[derive(Debug)]
pub struct WaiterBuilderFuture<A, RW, Filter> {
    /// The configuration of the channel.
    pub fut: ChannelBuilderFuture<A, (), EmptyCodec, RW, Filter>,
}

impl<A, RW, Filter> WaiterBuilderFuture<A, RW, Filter> {
    /// The configuration of the channel.
    pub open spec fn spec_inner(self) -> ChannelBuilderFuture<A, (), EmptyCodec, RW, Filter> {
        self.fut
    }

    /// A builder of the channel that `fut` configures.
    pub fn new(fut: ChannelBuilderFuture<A, (), EmptyCodec, RW, Filter>) -> (b: Self)
        ensures
            b.spec_inner() == fut,
    {
        Self { fut }
    }

    /// The configuration of the channel, to build it.
    pub fn into_inner(self) -> (f: ChannelBuilderFuture<A, (), EmptyCodec, RW, Filter>)
        ensures
            f == self.spec_inner(),
    {
        self.fut
    }

    /// Retry connecting `max_retries` times, waiting `retry_sleep_duration`
    /// between attempts.
    pub fn retry(self, retry_sleep_duration: Duration, max_retries: usize) -> (b: Self)
        ensures
            b.spec_inner() == self.spec_inner().with_retry(retry_sleep_duration, max_retries),
    {
        WaiterBuilderFuture { fut: self.fut.retry(retry_sleep_duration, max_retries) }
    }

    /// Set tcp reuseaddr.
    pub fn set_tcp_reuseaddr(self, reuseaddr: bool) -> (b: Self)
        ensures
            b.spec_inner() == self.spec_inner().with_tcp_settings(
                (ChannelTcpSettings { reuseaddr: Some(reuseaddr), ..self.spec_inner().spec_tcp_settings() }),
            ),
    {
        WaiterBuilderFuture { fut: self.fut.set_tcp_reuseaddr(reuseaddr) }
    }

    /// Set tcp reuseport.
    pub fn set_tcp_reuseport(self, reuseport: bool) -> (b: Self)
        ensures
            b.spec_inner() == self.spec_inner().with_tcp_settings(
                (ChannelTcpSettings { reuseport: Some(reuseport), ..self.spec_inner().spec_tcp_settings() }),
            ),
    {
        WaiterBuilderFuture { fut: self.fut.set_tcp_reuseport(reuseport) }
    }

    /// Set tcp linger.
    pub fn set_tcp_linger(self, dur: Option<Duration>) -> (b: Self)
        ensures
            b.spec_inner() == self.spec_inner().with_tcp_settings(
                (ChannelTcpSettings { linger: Some(dur), ..self.spec_inner().spec_tcp_settings() }),
            ),
    {
        WaiterBuilderFuture { fut: self.fut.set_tcp_linger(dur) }
    }

    /// Set tcp nodelay.
    pub fn set_tcp_nodelay(self, nodelay: bool) -> (b: Self)
        ensures
            b.spec_inner() == self.spec_inner().with_tcp_settings(
                (ChannelTcpSettings { nodelay: Some(nodelay), ..self.spec_inner().spec_tcp_settings() }),
            ),
    {
        WaiterBuilderFuture { fut: self.fut.set_tcp_nodelay(nodelay) }
    }

    /// Set tcp ttl.
    pub fn set_tcp_ttl(self, ttl: u32) -> (b: Self)
        ensures
            b.spec_inner() == self.spec_inner().with_tcp_settings(
                (ChannelTcpSettings { ttl: Some(ttl), ..self.spec_inner().spec_tcp_settings() }),
            ),
    {
        WaiterBuilderFuture { fut: self.fut.set_tcp_ttl(ttl) }
    }

    /// Set tcp recv_buffer_size.
    pub fn set_tcp_recv_buffer_size(self, size: u32) -> (b: Self)
        ensures
            b.spec_inner() == self.spec_inner().with_tcp_settings(
                (ChannelTcpSettings { recv_buffer_size: Some(size), ..self.spec_inner().spec_tcp_settings() }),
            ),
    {
        WaiterBuilderFuture { fut: self.fut.set_tcp_recv_buffer_size(size) }
    }

    /// Set tcp send_buffer_size.
    pub fn set_tcp_send_buffer_size(self, size: u32) -> (b: Self)
        ensures
            b.spec_inner() == self.spec_inner().with_tcp_settings(
                (ChannelTcpSettings { send_buffer_size: Some(size), ..self.spec_inner().spec_tcp_settings() }),
            ),
    {
        WaiterBuilderFuture { fut: self.fut.set_tcp_send_buffer_size(size) }
    }
}

/// Builds a barrier, listening for waiters.
#[derive(Debug)]
pub struct BarrierBuilderFuture<A, const N: usize> {
    fut: BuilderFuture<A, (), EmptyCodec, N>,
}

impl<A, const N: usize> BarrierBuilderFuture<A, N> {
    /// The configuration of the channel.
    pub closed spec fn spec_inner(self) -> BuilderFuture<A, (), EmptyCodec, N> {
        self.fut
    }

    /// A builder of the channel that `fut` configures.
    pub fn new(fut: BuilderFuture<A, (), EmptyCodec, N>) -> (b: Self)
        ensures
            b.spec_inner() == fut,
    {
        Self { fut }
    }

    /// The configuration of the channel, to build it.
    pub fn into_inner(self) -> (f: BuilderFuture<A, (), EmptyCodec, N>)
        ensures
            f == self.spec_inner(),
    {
        self.fut
    }


    /// Limit the number of connections to `limit`.
    pub fn limit(self, limit: usize) -> (b: Self)
        ensures
            b.spec_inner().spec_limit() == Some(limit),
            b.spec_inner().spec_local_addr() == self.spec_inner().spec_local_addr(),
            b.spec_inner().spec_tcp_settings() == self.spec_inner().spec_tcp_settings(),
    {
        BarrierBuilderFuture { fut: self.fut.limit(limit) }
    }

    /// Hold the connections in an array pool of size `M`.
    pub fn limit_const<const M: usize>(self) -> (b: BarrierBuilderFuture<A, M>)
        ensures
            b.spec_inner().spec_limit() == self.spec_inner().spec_limit(),
            b.spec_inner().spec_local_addr() == self.spec_inner().spec_local_addr(),
            b.spec_inner().spec_tcp_settings() == self.spec_inner().spec_tcp_settings(),
    {
        BarrierBuilderFuture { fut: self.fut.limit_const::<M>() }
    }

    /// Set tcp reuseaddr.
    pub fn set_tcp_reuseaddr(self, reuseaddr: bool) -> (b: Self)
        ensures
            b.spec_inner() == self.spec_inner().with_tcp_settings(
                (TcpSettings { reuseaddr: Some(reuseaddr), ..self.spec_inner().spec_tcp_settings() }),
            ),
    {
        BarrierBuilderFuture { fut: self.fut.set_tcp_reuseaddr(reuseaddr) }
    }

    /// Set tcp reuseport.
    pub fn set_tcp_reuseport(self, reuseport: bool) -> (b: Self)
        ensures
            b.spec_inner() == self.spec_inner().with_tcp_settings(
                (TcpSettings { reuseport: Some(reuseport), ..self.spec_inner().spec_tcp_settings() }),
            ),
    {
        BarrierBuilderFuture { fut: self.fut.set_tcp_reuseport(reuseport) }
    }

    /// Set tcp linger.
    pub fn set_tcp_linger(self, dur: Option<Duration>) -> (b: Self)
        ensures
            b.spec_inner() == self.spec_inner().with_tcp_settings(
                (TcpSettings { linger: Some(dur), ..self.spec_inner().spec_tcp_settings() }),
            ),
    {
        BarrierBuilderFuture { fut: self.fut.set_tcp_linger(dur) }
    }

    /// Set tcp nodelay.
    pub fn set_tcp_nodelay(self, nodelay: bool) -> (b: Self)
        ensures
            b.spec_inner() == self.spec_inner().with_tcp_settings(
                (TcpSettings { stream_settings: TcpStreamSettings { nodelay: Some(nodelay), ..self.spec_inner().spec_tcp_settings().stream_settings }, ..self.spec_inner().spec_tcp_settings() }),
            ),
    {
        BarrierBuilderFuture { fut: self.fut.set_tcp_nodelay(nodelay) }
    }

    /// Set tcp ttl.
    pub fn set_tcp_ttl(self, ttl: u32) -> (b: Self)
        ensures
            b.spec_inner() == self.spec_inner().with_tcp_settings(
                (TcpSettings { stream_settings: TcpStreamSettings { ttl: Some(ttl), ..self.spec_inner().spec_tcp_settings().stream_settings }, ..self.spec_inner().spec_tcp_settings() }),
            ),
    {
        BarrierBuilderFuture { fut: self.fut.set_tcp_ttl(ttl) }
    }

    /// Set tcp recv_buffer_size.
    pub fn set_tcp_recv_buffer_size(self, size: u32) -> (b: Self)
        ensures
            b.spec_inner() == self.spec_inner().with_tcp_settings(
                (TcpSettings { recv_buffer_size: Some(size), ..self.spec_inner().spec_tcp_settings() }),
            ),
    {
        BarrierBuilderFuture { fut: self.fut.set_tcp_recv_buffer_size(size) }
    }

    /// Set tcp send_buffer_size.
    pub fn set_tcp_send_buffer_size(self, size: u32) -> (b: Self)
        ensures
            b.spec_inner() == self.spec_inner().with_tcp_settings(
                (TcpSettings { send_buffer_size: Some(size), ..self.spec_inner().spec_tcp_settings() }),
            ),
    {
        BarrierBuilderFuture { fut: self.fut.set_tcp_send_buffer_size(size) }
    }
}

} // verus!
