//! Builders of single-producer/single-consumer channels.
//!
//! Each builder wraps the configuration of the channel it builds: a sender
//! or a receiver, connecting to a remote address (`To`) or listening on a
//! local one (`On`).

use vstd::prelude::*;
use std::time::Duration;
use crate::channel::builder::{ChannelBuilderFuture, TcpSettings};

verus! {

/// Builds a sender, connecting to a remote address.
#[derive(Debug)]
pub struct SenderToBuilderFuture<A, T, E, RW, Filter> {
    /// The configuration of the channel.
    pub fut: ChannelBuilderFuture<A, T, E, RW, Filter>,
}

impl<A, T, E, RW, Filter> SenderToBuilderFuture<A, T, E, RW, Filter> {
    /// The configuration of the channel.
    pub open spec fn spec_inner(self) -> ChannelBuilderFuture<A, T, E, RW, Filter> {
        self.fut
    }

    /// A builder of the channel that `fut` configures.
    pub fn new(fut: ChannelBuilderFuture<A, T, E, RW, Filter>) -> (b: Self)
        ensures
            b.spec_inner() == fut,
    {
        Self { fut }
    }

    /// The configuration of the channel, to build it.
    pub fn into_inner(self) -> (f: ChannelBuilderFuture<A, T, E, RW, Filter>)
        ensures
            f == self.spec_inner(),
    {
        self.fut
    }

    /// Encode and decode items with the codec `C`.
    pub fn with_codec<C>(self) -> (b: SenderToBuilderFuture<A, T, C, RW, Filter>)
        ensures
            b.spec_inner().spec_addr() == self.spec_inner().spec_addr(),
            b.spec_inner().spec_listening() == self.spec_inner().spec_listening(),
            b.spec_inner().spec_max_retries() == self.spec_inner().spec_max_retries(),
            b.spec_inner().spec_retry_sleep() == self.spec_inner().spec_retry_sleep(),
            b.spec_inner().spec_tcp_settings() == self.spec_inner().spec_tcp_settings(),
            b.spec_inner().spec_filter() == self.spec_inner().spec_filter(),
    {
        SenderToBuilderFuture { fut: self.fut.with_codec() }
    }

    /// Retry connecting `max_retries` times, waiting `retry_sleep_duration`
    /// between attempts.
    pub fn retry(self, retry_sleep_duration: Duration, max_retries: usize) -> (b: Self)
        ensures
            b.spec_inner() == self.spec_inner().with_retry(retry_sleep_duration, max_retries),
    {
        SenderToBuilderFuture { fut: self.fut.retry(retry_sleep_duration, max_retries) }
    }

    /// Set tcp reuseaddr.
    pub fn set_tcp_reuseaddr(self, reuseaddr: bool) -> (b: Self)
        ensures
            b.spec_inner() == self.spec_inner().with_tcp_settings(
                (TcpSettings { reuseaddr: Some(reuseaddr), ..self.spec_inner().spec_tcp_settings() }),
            ),
    {
        SenderToBuilderFuture { fut: self.fut.set_tcp_reuseaddr(reuseaddr) }
    }

    /// Set tcp reuseport.
    pub fn set_tcp_reuseport(self, reuseport: bool) -> (b: Self)
        ensures
            b.spec_inner() == self.spec_inner().with_tcp_settings(
                (TcpSettings { reuseport: Some(reuseport), ..self.spec_inner().spec_tcp_settings() }),
            ),
    {
        SenderToBuilderFuture { fut: self.fut.set_tcp_reuseport(reuseport) }
    }

    /// Set tcp linger.
    pub fn set_tcp_linger(self, dur: Option<Duration>) -> (b: Self)
        ensures
            b.spec_inner() == self.spec_inner().with_tcp_settings(
                (TcpSettings { linger: Some(dur), ..self.spec_inner().spec_tcp_settings() }),
            ),
    {
        SenderToBuilderFuture { fut: self.fut.set_tcp_linger(dur) }
    }

    /// Set tcp nodelay.
    pub fn set_tcp_nodelay(self, nodelay: bool) -> (b: Self)
        ensures
            b.spec_inner() == self.spec_inner().with_tcp_settings(
                (TcpSettings { nodelay: Some(nodelay), ..self.spec_inner().spec_tcp_settings() }),
            ),
    {
        SenderToBuilderFuture { fut: self.fut.set_tcp_nodelay(nodelay) }
    }

    /// Set tcp ttl.
    pub fn set_tcp_ttl(self, ttl: u32) -> (b: Self)
        ensures
            b.spec_inner() == self.spec_inner().with_tcp_settings(
                (TcpSettings { ttl: Some(ttl), ..self.spec_inner().spec_tcp_settings() }),
            ),
    {
        SenderToBuilderFuture { fut: self.fut.set_tcp_ttl(ttl) }
    }

    /// Set tcp recv_buffer_size.
    pub fn set_tcp_recv_buffer_size(self, size: u32) -> (b: Self)
        ensures
            b.spec_inner() == self.spec_inner().with_tcp_settings(
                (TcpSettings { recv_buffer_size: Some(size), ..self.spec_inner().spec_tcp_settings() }),
            ),
    {
        SenderToBuilderFuture { fut: self.fut.set_tcp_recv_buffer_size(size) }
    }

    /// Set tcp send_buffer_size.
    pub fn set_tcp_send_buffer_size(self, size: u32) -> (b: Self)
        ensures
            b.spec_inner() == self.spec_inner().with_tcp_settings(
                (TcpSettings { send_buffer_size: Some(size), ..self.spec_inner().spec_tcp_settings() }),
            ),
    {
        SenderToBuilderFuture { fut: self.fut.set_tcp_send_buffer_size(size) }
    }
}

/// Builds a sender, listening on a local address.
#[derive(Debug)]
pub struct SenderOnBuilderFuture<A, T, E, RW, Filter> {
    /// The configuration of the channel.
    pub fut: ChannelBuilderFuture<A, T, E, RW, Filter>,
}

impl<A, T, E, RW, Filter> SenderOnBuilderFuture<A, T, E, RW, Filter> {
    /// The configuration of the channel.
    pub open spec fn spec_inner(self) -> ChannelBuilderFuture<A, T, E, RW, Filter> {
        self.fut
    }

    /// A builder of the channel that `fut` configures.
    pub fn new(fut: ChannelBuilderFuture<A, T, E, RW, Filter>) -> (b: Self)
        ensures
            b.spec_inner() == fut,
    {
        Self { fut }
    }

    /// The configuration of the channel, to build it.
    pub fn into_inner(self) -> (f: ChannelBuilderFuture<A, T, E, RW, Filter>)
        ensures
            f == self.spec_inner(),
    {
        self.fut
    }

    /// Encode and decode items with the codec `C`.
    pub fn with_codec<C>(self) -> (b: SenderOnBuilderFuture<A, T, C, RW, Filter>)
        ensures
            b.spec_inner().spec_addr() == self.spec_inner().spec_addr(),
            b.spec_inner().spec_listening() == self.spec_inner().spec_listening(),
            b.spec_inner().spec_max_retries() == self.spec_inner().spec_max_retries(),
            b.spec_inner().spec_retry_sleep() == self.spec_inner().spec_retry_sleep(),
            b.spec_inner().spec_tcp_settings() == self.spec_inner().spec_tcp_settings(),
            b.spec_inner().spec_filter() == self.spec_inner().spec_filter(),
    {
        SenderOnBuilderFuture { fut: self.fut.with_codec() }
    }

    /// Keep only the accepted peer whose address passes `filter`.
    pub fn filter<Filter2>(self, filter: Filter2) -> (b: SenderOnBuilderFuture<A, T, E, RW, Filter2>)
        ensures
            b.spec_inner().spec_filter() == filter,
            b.spec_inner().spec_addr() == self.spec_inner().spec_addr(),
            b.spec_inner().spec_listening() == self.spec_inner().spec_listening(),
            b.spec_inner().spec_max_retries() == self.spec_inner().spec_max_retries(),
            b.spec_inner().spec_retry_sleep() == self.spec_inner().spec_retry_sleep(),
            b.spec_inner().spec_tcp_settings() == self.spec_inner().spec_tcp_settings(),
    {
        SenderOnBuilderFuture { fut: self.fut.filter(filter) }
    }

    /// Set tcp reuseaddr.
    pub fn set_tcp_reuseaddr(self, reuseaddr: bool) -> (b: Self)
        ensures
            b.spec_inner() == self.spec_inner().with_tcp_settings(
                (TcpSettings { reuseaddr: Some(reuseaddr), ..self.spec_inner().spec_tcp_settings() }),
            ),
    {
        SenderOnBuilderFuture { fut: self.fut.set_tcp_reuseaddr(reuseaddr) }
    }

    /// Set tcp reuseport.
    pub fn set_tcp_reuseport(self, reuseport: bool) -> (b: Self)
        ensures
            b.spec_inner() == self.spec_inner().with_tcp_settings(
                (TcpSettings { reuseport: Some(reuseport), ..self.spec_inner().spec_tcp_settings() }),
            ),
    {
        SenderOnBuilderFuture { fut: self.fut.set_tcp_reuseport(reuseport) }
    }

    /// Set tcp linger.
    pub fn set_tcp_linger(self, dur: Option<Duration>) -> (b: Self)
        ensures
            b.spec_inner() == self.spec_inner().with_tcp_settings(
                (TcpSettings { linger: Some(dur), ..self.spec_inner().spec_tcp_settings() }),
            ),
    {
        SenderOnBuilderFuture { fut: self.fut.set_tcp_linger(dur) }
    }

    /// Set tcp nodelay.
    pub fn set_tcp_nodelay(self, nodelay: bool) -> (b: Self)
        ensures
            b.spec_inner() == self.spec_inner().with_tcp_settings(
                (TcpSettings { nodelay: Some(nodelay), ..self.spec_inner().spec_tcp_settings() }),
            ),
    {
        SenderOnBuilderFuture { fut: self.fut.set_tcp_nodelay(nodelay) }
    }

    /// Set tcp ttl.
    pub fn set_tcp_ttl(self, ttl: u32) -> (b: Self)
        ensures
            b.spec_inner() == self.spec_inner().with_tcp_settings(
                (TcpSettings { ttl: Some(ttl), ..self.spec_inner().spec_tcp_settings() }),
            ),
    {
        SenderOnBuilderFuture { fut: self.fut.set_tcp_ttl(ttl) }
    }

    /// Set tcp recv_buffer_size.
    pub fn set_tcp_recv_buffer_size(self, size: u32) -> (b: Self)
        ensures
            b.spec_inner() == self.spec_inner().with_tcp_settings(
                (TcpSettings { recv_buffer_size: Some(size), ..self.spec_inner().spec_tcp_settings() }),
            ),
    {
        SenderOnBuilderFuture { fut: self.fut.set_tcp_recv_buffer_size(size) }
    }

    /// Set tcp send_buffer_size.
    pub fn set_tcp_send_buffer_size(self, size: u32) -> (b: Self)
        ensures
            b.spec_inner() == self.spec_inner().with_tcp_settings(
                (TcpSettings { send_buffer_size: Some(size), ..self.spec_inner().spec_tcp_settings() }),
            ),
    {
        SenderOnBuilderFuture { fut: self.fut.set_tcp_send_buffer_size(size) }
    }
}

/// Builds a receiver, connecting to a remote address.
#[derive(Debug)]
pub struct ReceiverToBuilderFuture<A, T, E, RW, Filter> {
    /// The configuration of the channel.
    pub fut: ChannelBuilderFuture<A, T, E, RW, Filter>,
}

impl<A, T, E, RW, Filter> ReceiverToBuilderFuture<A, T, E, RW, Filter> {
    /// The configuration of the channel.
    pub open spec fn spec_inner(self) -> ChannelBuilderFuture<A, T, E, RW, Filter> {
        self.fut
    }

    /// A builder of the channel that `fut` configures.
    pub fn new(fut: ChannelBuilderFuture<A, T, E, RW, Filter>) -> (b: Self)
        ensures
            b.spec_inner() == fut,
    {
        Self { fut }
    }

    /// The configuration of the channel, to build it.
    pub fn into_inner(self) -> (f: ChannelBuilderFuture<A, T, E, RW, Filter>)
        ensures
            f == self.spec_inner(),
    {
        self.fut
    }

    /// Encode and decode items with the codec `C`.
    pub fn with_codec<C>(self) -> (b: ReceiverToBuilderFuture<A, T, C, RW, Filter>)
        ensures
            b.spec_inner().spec_addr() == self.spec_inner().spec_addr(),
            b.spec_inner().spec_listening() == self.spec_inner().spec_listening(),
            b.spec_inner().spec_max_retries() == self.spec_inner().spec_max_retries(),
            b.spec_inner().spec_retry_sleep() == self.spec_inner().spec_retry_sleep(),
            b.spec_inner().spec_tcp_settings() == self.spec_inner().spec_tcp_settings(),
            b.spec_inner().spec_filter() == self.spec_inner().spec_filter(),
    {
        ReceiverToBuilderFuture { fut: self.fut.with_codec() }
    }

    /// Retry connecting `max_retries` times, waiting `retry_sleep_duration`
    /// between attempts.
    pub fn retry(self, retry_sleep_duration: Duration, max_retries: usize) -> (b: Self)
        ensures
            b.spec_inner() == self.spec_inner().with_retry(retry_sleep_duration, max_retries),
    {
        ReceiverToBuilderFuture { fut: self.fut.retry(retry_sleep_duration, max_retries) }
    }

    /// Set tcp reuseaddr.
    pub fn set_tcp_reuseaddr(self, reuseaddr: bool) -> (b: Self)
        ensures
            b.spec_inner() == self.spec_inner().with_tcp_settings(
                (TcpSettings { reuseaddr: Some(reuseaddr), ..self.spec_inner().spec_tcp_settings() }),
            ),
    {
        ReceiverToBuilderFuture { fut: self.fut.set_tcp_reuseaddr(reuseaddr) }
    }

    /// Set tcp reuseport.
    pub fn set_tcp_reuseport(self, reuseport: bool) -> (b: Self)
        ensures
            b.spec_inner() == self.spec_inner().with_tcp_settings(
                (TcpSettings { reuseport: Some(reuseport), ..self.spec_inner().spec_tcp_settings() }),
            ),
    {
        ReceiverToBuilderFuture { fut: self.fut.set_tcp_reuseport(reuseport) }
    }

    /// Set tcp linger.
    pub fn set_tcp_linger(self, dur: Option<Duration>) -> (b: Self)
        ensures
            b.spec_inner() == self.spec_inner().with_tcp_settings(
                (TcpSettings { linger: Some(dur), ..self.spec_inner().spec_tcp_settings() }),
            ),
    {
        ReceiverToBuilderFuture { fut: self.fut.set_tcp_linger(dur) }
    }

    /// Set tcp nodelay.
    pub fn set_tcp_nodelay(self, nodelay: bool) -> (b: Self)
        ensures
            b.spec_inner() == self.spec_inner().with_tcp_settings(
                (TcpSettings { nodelay: Some(nodelay), ..self.spec_inner().spec_tcp_settings() }),
            ),
    {
        ReceiverToBuilderFuture { fut: self.fut.set_tcp_nodelay(nodelay) }
    }

    /// Set tcp ttl.
    pub fn set_tcp_ttl(self, ttl: u32) -> (b: Self)
        ensures
            b.spec_inner() == self.spec_inner().with_tcp_settings(
                (TcpSettings { ttl: Some(ttl), ..self.spec_inner().spec_tcp_settings() }),
            ),
    {
        ReceiverToBuilderFuture { fut: self.fut.set_tcp_ttl(ttl) }
    }

    /// Set tcp recv_buffer_size.
    pub fn set_tcp_recv_buffer_size(self, size: u32) -> (b: Self)
        ensures
            b.spec_inner() == self.spec_inner().with_tcp_settings(
                (TcpSettings { recv_buffer_size: Some(size), ..self.spec_inner().spec_tcp_settings() }),
            ),
    {
        ReceiverToBuilderFuture { fut: self.fut.set_tcp_recv_buffer_size(size) }
    }

    /// Set tcp send_buffer_size.
    pub fn set_tcp_send_buffer_size(self, size: u32) -> (b: Self)
        ensures
            b.spec_inner() == self.spec_inner().with_tcp_settings(
                (TcpSettings { send_buffer_size: Some(size), ..self.spec_inner().spec_tcp_settings() }),
            ),
    {
        ReceiverToBuilderFuture { fut: self.fut.set_tcp_send_buffer_size(size) }
    }
}

/// Builds a receiver, listening on a local address.
#[derive(Debug)]
pub struct ReceiverOnBuilderFuture<A, T, E, RW, Filter> {
    /// The configuration of the channel.
    pub fut: ChannelBuilderFuture<A, T, E, RW, Filter>,
}

impl<A, T, E, RW, Filter> ReceiverOnBuilderFuture<A, T, E, RW, Filter> {
    /// The configuration of the channel.
    pub open spec fn spec_inner(self) -> ChannelBuilderFuture<A, T, E, RW, Filter> {
        self.fut
    }

    /// A builder of the channel that `fut` configures.
    pub fn new(fut: ChannelBuilderFuture<A, T, E, RW, Filter>) -> (b: Self)
        ensures
            b.spec_inner() == fut,
    {
        Self { fut }
    }

    /// The configuration of the channel, to build it.
    pub fn into_inner(self) -> (f: ChannelBuilderFuture<A, T, E, RW, Filter>)
        ensures
            f == self.spec_inner(),
    {
        self.fut
    }

    /// Encode and decode items with the codec `C`.
    pub fn with_codec<C>(self) -> (b: ReceiverOnBuilderFuture<A, T, C, RW, Filter>)
        ensures
            b.spec_inner().spec_addr() == self.spec_inner().spec_addr(),
            b.spec_inner().spec_listening() == self.spec_inner().spec_listening(),
            b.spec_inner().spec_max_retries() == self.spec_inner().spec_max_retries(),
            b.spec_inner().spec_retry_sleep() == self.spec_inner().spec_retry_sleep(),
            b.spec_inner().spec_tcp_settings() == self.spec_inner().spec_tcp_settings(),
            b.spec_inner().spec_filter() == self.spec_inner().spec_filter(),
    {
        ReceiverOnBuilderFuture { fut: self.fut.with_codec() }
    }

    /// Keep only the accepted peer whose address passes `filter`.
    pub fn filter<Filter2>(self, filter: Filter2) -> (b: ReceiverOnBuilderFuture<A, T, E, RW, Filter2>)
        ensures
            b.spec_inner().spec_filter() == filter,
            b.spec_inner().spec_addr() == self.spec_inner().spec_addr(),
            b.spec_inner().spec_listening() == self.spec_inner().spec_listening(),
            b.spec_inner().spec_max_retries() == self.spec_inner().spec_max_retries(),
            b.spec_inner().spec_retry_sleep() == self.spec_inner().spec_retry_sleep(),
            b.spec_inner().spec_tcp_settings() == self.spec_inner().spec_tcp_settings(),
    {
        ReceiverOnBuilderFuture { fut: self.fut.filter(filter) }
    }

    /// Set tcp reuseaddr.
    pub fn set_tcp_reuseaddr(self, reuseaddr: bool) -> (b: Self)
        ensures
            b.spec_inner() == self.spec_inner().with_tcp_settings(
                (TcpSettings { reuseaddr: Some(reuseaddr), ..self.spec_inner().spec_tcp_settings() }),
            ),
    {
        ReceiverOnBuilderFuture { fut: self.fut.set_tcp_reuseaddr(reuseaddr) }
    }

    /// Set tcp reuseport.
    pub fn set_tcp_reuseport(self, reuseport: bool) -> (b: Self)
        ensures
            b.spec_inner() == self.spec_inner().with_tcp_settings(
                (TcpSettings { reuseport: Some(reuseport), ..self.spec_inner().spec_tcp_settings() }),
            ),
    {
        ReceiverOnBuilderFuture { fut: self.fut.set_tcp_reuseport(reuseport) }
    }

    /// Set tcp linger.
    pub fn set_tcp_linger(self, dur: Option<Duration>) -> (b: Self)
        ensures
            b.spec_inner() == self.spec_inner().with_tcp_settings(
                (TcpSettings { linger: Some(dur), ..self.spec_inner().spec_tcp_settings() }),
            ),
    {
        ReceiverOnBuilderFuture { fut: self.fut.set_tcp_linger(dur) }
    }

    /// Set tcp nodelay.
    pub fn set_tcp_nodelay(self, nodelay: bool) -> (b: Self)
        ensures
            b.spec_inner() == self.spec_inner().with_tcp_settings(
                (TcpSettings { nodelay: Some(nodelay), ..self.spec_inner().spec_tcp_settings() }),
            ),
    {
        ReceiverOnBuilderFuture { fut: self.fut.set_tcp_nodelay(nodelay) }
    }

    /// Set tcp ttl.
    pub fn set_tcp_ttl(self, ttl: u32) -> (b: Self)
        ensures
            b.spec_inner() == self.spec_inner().with_tcp_settings(
                (TcpSettings { ttl: Some(ttl), ..self.spec_inner().spec_tcp_settings() }),
            ),
    {
        ReceiverOnBuilderFuture { fut: self.fut.set_tcp_ttl(ttl) }
    }

    /// Set tcp recv_buffer_size.
    pub fn set_tcp_recv_buffer_size(self, size: u32) -> (b: Self)
        ensures
            b.spec_inner() == self.spec_inner().with_tcp_settings(
                (TcpSettings { recv_buffer_size: Some(size), ..self.spec_inner().spec_tcp_settings() }),
            ),
    {
        ReceiverOnBuilderFuture { fut: self.fut.set_tcp_recv_buffer_size(size) }
    }

    /// Set tcp send_buffer_size.
    pub fn set_tcp_send_buffer_size(self, size: u32) -> (b: Self)
        ensures
            b.spec_inner() == self.spec_inner().with_tcp_settings(
                (TcpSettings { send_buffer_size: Some(size), ..self.spec_inner().spec_tcp_settings() }),
            ),
    {
        ReceiverOnBuilderFuture { fut: self.fut.set_tcp_send_buffer_size(size) }
    }
}

} // verus!
