//! Builders of broadcast channels: the sender listens and accepts the
//! receivers, which connect to it.

use vstd::prelude::*;
use std::time::Duration;
use crate::channel::builder::{ChannelBuilderFuture, TcpSettings as ChannelTcpSettings};
use crate::multi_channel::builder::{BuilderFuture, TcpSettings};
use crate::util::TcpStreamSettings;

verus! {

/// Builds a receiver, connecting to the sender.
#[derive(Debug)]
pub struct ReceiverBuilderFuture<A, T, E, RW, Filter> {
    /// The configuration of the channel.
    pub fut: ChannelBuilderFuture<A, T, E, RW, Filter>,
}

impl<A, T, E, RW, Filter> ReceiverBuilderFuture<A, T, E, RW, Filter> {
    /// The configuration of the channel.
    pub open spec fn spec_inner(self) -> ChannelBuilderFuture<A, T, E, RW, Filter> {
        self.fut
    }

    /// A builder of the channel that `fut` configures.
    pub fn new(fut: ChannelBuilderFuture<A, T, E, RW, Filter>) -> (b: Self)
        ensures
            b.spec_inner() == fut,
    {
        Self { fut }
    }

    /// The configuration of the channel, to build it.
    pub fn into_inner(self) -> (f: ChannelBuilderFuture<A, T, E, RW, Filter>)
        ensures
            f == self.spec_inner(),
    {
        self.fut
    }

    /// Retry connecting `max_retries` times, waiting `retry_sleep_duration`
    /// between attempts.
    pub fn retry(self, retry_sleep_duration: Duration, max_retries: usize) -> (b: Self)
        ensures
            b.spec_inner() == self.spec_inner().with_retry(retry_sleep_duration, max_retries),
    {
        ReceiverBuilderFuture { fut: self.fut.retry(retry_sleep_duration, max_retries) }
    }

    /// Set tcp reuseaddr.
    pub fn set_tcp_reuseaddr(self, reuseaddr: bool) -> (b: Self)
        ensures
            b.spec_inner() == self.spec_inner().with_tcp_settings(
                (ChannelTcpSettings { reuseaddr: Some(reuseaddr), ..self.spec_inner().spec_tcp_settings() }),
            ),
    {
        ReceiverBuilderFuture { fut: self.fut.set_tcp_reuseaddr(reuseaddr) }
    }

    /// Set tcp reuseport.
    pub fn set_tcp_reuseport(self, reuseport: bool) -> (b: Self)
        ensures
            b.spec_inner() == self.spec_inner().with_tcp_settings(
                (ChannelTcpSettings { reuseport: Some(reuseport), ..self.spec_inner().spec_tcp_settings() }),
            ),
    {
        ReceiverBuilderFuture { fut: self.fut.set_tcp_reuseport(reuseport) }
    }

    /// Set tcp linger.
    pub fn set_tcp_linger(self, dur: Option<Duration>) -> (b: Self)
        ensures
            b.spec_inner() == self.spec_inner().with_tcp_settings(
                (ChannelTcpSettings { linger: Some(dur), ..self.spec_inner().spec_tcp_settings() }),
            ),
    {
        ReceiverBuilderFuture { fut: self.fut.set_tcp_linger(dur) }
    }

    /// Set tcp nodelay.
    pub fn set_tcp_nodelay(self, nodelay: bool) -> (b: Self)
        ensures
            b.spec_inner() == self.spec_inner().with_tcp_settings(
                (ChannelTcpSettings { nodelay: Some(nodelay), ..self.spec_inner().spec_tcp_settings() }),
            ),
    {
        ReceiverBuilderFuture { fut: self.fut.set_tcp_nodelay(nodelay) }
    }

    /// Set tcp ttl.
    pub fn set_tcp_ttl(self, ttl: u32) -> (b: Self)
        ensures
            b.spec_inner() == self.spec_inner().with_tcp_settings(
                (ChannelTcpSettings { ttl: Some(ttl), ..self.spec_inner().spec_tcp_settings() }),
            ),
    {
        ReceiverBuilderFuture { fut: self.fut.set_tcp_ttl(ttl) }
    }

    /// Set tcp recv_buffer_size.
    pub fn set_tcp_recv_buffer_size(self, size: u32) -> (b: Self)
        ensures
            b.spec_inner() == self.spec_inner().with_tcp_settings(
                (ChannelTcpSettings { recv_buffer_size: Some(size), ..self.spec_inner().spec_tcp_settings() }),
            ),
    {
        ReceiverBuilderFuture { fut: self.fut.set_tcp_recv_buffer_size(size) }
    }

    /// Set tcp send_buffer_size.
    pub fn set_tcp_send_buffer_size(self, size: u32) -> (b: Self)
        ensures
            b.spec_inner() == self.spec_inner().with_tcp_settings(
                (ChannelTcpSettings { send_buffer_size: Some(size), ..self.spec_inner().spec_tcp_settings() }),
            ),
    {
        ReceiverBuilderFuture { fut: self.fut.set_tcp_send_buffer_size(size) }
    }
}

/// Builds a sender, listening for receivers.
#[derive(Debug)]
pub struct SenderBuilderFuture<A, T, E, const N: usize> {
    fut: BuilderFuture<A, T, E, N>,
}

impl<A, T, E, const N: usize> SenderBuilderFuture<A, T, E, N> {
    /// The configuration of the channel.
    pub closed spec fn spec_inner(self) -> BuilderFuture<A, T, E, N> {
        self.fut
    }

    /// A builder of the channel that `fut` configures.
    pub fn new(fut: BuilderFuture<A, T, E, N>) -> (b: Self)
        ensures
            b.spec_inner() == fut,
    {
        Self { fut }
    }

    /// The configuration of the channel, to build it.
    pub fn into_inner(self) -> (f: BuilderFuture<A, T, E, N>)
        ensures
            f == self.spec_inner(),
    {
        self.fut
    }


    /// Limit the number of connections to `limit`.
    pub fn limit(self, limit: usize) -> (b: Self)
        ensures
            b.spec_inner().spec_limit() == Some(limit),
            b.spec_inner().spec_local_addr() == self.spec_inner().spec_local_addr(),
            b.spec_inner().spec_tcp_settings() == self.spec_inner().spec_tcp_settings(),
    {
        SenderBuilderFuture { fut: self.fut.limit(limit) }
    }

    /// Hold the connections in an array pool of size `M`.
    pub fn limit_const<const M: usize>(self) -> (b: SenderBuilderFuture<A, T, E, M>)
        ensures
            b.spec_inner().spec_limit() == self.spec_inner().spec_limit(),
            b.spec_inner().spec_local_addr() == self.spec_inner().spec_local_addr(),
            b.spec_inner().spec_tcp_settings() == self.spec_inner().spec_tcp_settings(),
    {
        SenderBuilderFuture { fut: self.fut.limit_const::<M>() }
    }

    /// Set tcp reuseaddr.
    pub fn set_tcp_reuseaddr(self, reuseaddr: bool) -> (b: Self)
        ensures
            b.spec_inner() == self.spec_inner().with_tcp_settings(
                (TcpSettings { reuseaddr: Some(reuseaddr), ..self.spec_inner().spec_tcp_settings() }),
            ),
    {
        SenderBuilderFuture { fut: self.fut.set_tcp_reuseaddr(reuseaddr) }
    }

    /// Set tcp reuseport.
    pub fn set_tcp_reuseport(self, reuseport: bool) -> (b: Self)
        ensures
            b.spec_inner() == self.spec_inner().with_tcp_settings(
                (TcpSettings { reuseport: Some(reuseport), ..self.spec_inner().spec_tcp_settings() }),
            ),
    {
        SenderBuilderFuture { fut: self.fut.set_tcp_reuseport(reuseport) }
    }

    /// Set tcp linger.
    pub fn set_tcp_linger(self, dur: Option<Duration>) -> (b: Self)
        ensures
            b.spec_inner() == self.spec_inner().with_tcp_settings(
                (TcpSettings { linger: Some(dur), ..self.spec_inner().spec_tcp_settings() }),
            ),
    {
        SenderBuilderFuture { fut: self.fut.set_tcp_linger(dur) }
    }

    /// Set tcp nodelay.
    pub fn set_tcp_nodelay(self, nodelay: bool) -> (b: Self)
        ensures
            b.spec_inner() == self.spec_inner().with_tcp_settings(
                (TcpSettings { stream_settings: TcpStreamSettings { nodelay: Some(nodelay), ..self.spec_inner().spec_tcp_settings().stream_settings }, ..self.spec_inner().spec_tcp_settings() }),
            ),
    {
        SenderBuilderFuture { fut: self.fut.set_tcp_nodelay(nodelay) }
    }

    /// Set tcp ttl.
    pub fn set_tcp_ttl(self, ttl: u32) -> (b: Self)
        ensures
            b.spec_inner() == self.spec_inner().with_tcp_settings(
                (TcpSettings { stream_settings: TcpStreamSettings { ttl: Some(ttl), ..self.spec_inner().spec_tcp_settings().stream_settings }, ..self.spec_inner().spec_tcp_settings() }),
            ),
    {
        SenderBuilderFuture { fut: self.fut.set_tcp_ttl(ttl) }
    }

    /// Set tcp recv_buffer_size.
    pub fn set_tcp_recv_buffer_size(self, size: u32) -> (b: Self)
        ensures
            b.spec_inner() == self.spec_inner().with_tcp_settings(
                (TcpSettings { recv_buffer_size: Some(size), ..self.spec_inner().spec_tcp_settings() }),
            ),
    {
        SenderBuilderFuture { fut: self.fut.set_tcp_recv_buffer_size(size) }
    }

    /// Set tcp send_buffer_size.
    pub fn set_tcp_send_buffer_size(self, size: u32) -> (b: Self)
        ensures
            b.spec_inner() == self.spec_inner().with_tcp_settings(
                (TcpSettings { send_buffer_size: Some(size), ..self.spec_inner().spec_tcp_settings() }),
            ),
    {
        SenderBuilderFuture { fut: self.fut.set_tcp_send_buffer_size(size) }
    }
}

} // verus!
