//! The configuration that builds a single-connection channel.
//!
//! A channel is built by connecting to a remote address, retrying as
//! configured, or by listening on a local address and accepting the first
//! connection whose peer passes the filter. The connecting, listening and
//! waiting are done by the caller; whether to try connecting again is
//! decided here.
//!
//! The entry points that make a builder which takes any peer, for this
//! channel and for the spsc, mpsc, broadcast and barrier channels built on
//! it, stand here, beside the builder whose settings their contracts give;
//! their own modules re-export them.

use vstd::prelude::*;
use crate::spsc::builder::{SenderToBuilderFuture, SenderOnBuilderFuture, ReceiverToBuilderFuture, ReceiverOnBuilderFuture};
use crate::broadcast::builder::ReceiverBuilderFuture;
use crate::barrier::builder::WaiterBuilderFuture;
use crate::util::codec::EmptyCodec;
use std::marker::PhantomData;
use std::time::Duration;
use crate::util::SocketAddr;

verus! {

/// TCP settings of the socket and of the stream.
#[derive(Debug, Default, Clone, Copy)]
pub struct TcpSettings {
    /// `SO_REUSEADDR` of the socket.
    pub reuseaddr: Option<bool>,
    /// `SO_REUSEPORT` of the socket.
    pub reuseport: Option<bool>,
    /// `SO_LINGER` of the socket.
    pub linger: Option<Option<Duration>>,
    /// Receive buffer size of the socket.
    pub recv_buffer_size: Option<u32>,
    /// Send buffer size of the socket.
    pub send_buffer_size: Option<u32>,
    /// `TCP_NODELAY` of the stream.
    pub nodelay: Option<bool>,
    /// Time to live of the stream.
    pub ttl: Option<u32>,
}

impl TcpSettings {
    /// No setting changed from what the system gives.
    pub open spec fn spec_default() -> TcpSettings {
        TcpSettings {
            reuseaddr: None,
            reuseport: None,
            linger: None,
            recv_buffer_size: None,
            send_buffer_size: None,
            nodelay: None,
            ttl: None,
        }
    }
}

/// The default settings change nothing: every setting is left to the
/// system.
pub proof fn lemma_default_settings()
    ensures
        TcpSettings::spec_default().reuseaddr is None,
        TcpSettings::spec_default().reuseport is None,
        TcpSettings::spec_default().linger is None,
        TcpSettings::spec_default().recv_buffer_size is None,
        TcpSettings::spec_default().send_buffer_size is None,
        TcpSettings::spec_default().nodelay is None,
        TcpSettings::spec_default().ttl is None,
{
}

/// The milliseconds waited between two connection attempts, by default.
pub const RETRY_SLEEP_MILLIS: u64 = 1000;

/// The span of `ms` milliseconds, as `Duration::from_millis` makes it.
pub uninterp spec fn millis_span(ms: u64) -> Duration;

/// `Duration::from_millis`: the span of `ms` milliseconds, which depends on
/// `ms` alone.
#[verifier::external_body]
fn duration_from_millis(ms: u64) -> (d: Duration)
    ensures
        d == millis_span(ms),
{
    Duration::from_millis(ms)
}

/// After failed connection attempt number `attempt` (from zero), whether
/// to try again: only when retries are allowed and fewer than allowed
/// were made.
pub open spec fn spec_should_retry(attempt: nat, max_retries: Option<usize>) -> bool {
    match max_retries {
        Some(m) => attempt < m,
        None => false,
    }
}

/// The number of connection attempts made from attempt number `attempt`
/// on, when every attempt fails.
pub open spec fn attempts_from(attempt: nat, max_retries: Option<usize>) -> nat
    decreases
            (match max_retries {
                Some(m) => m - attempt,
                None => 0,
            }),
    when attempt <= (match max_retries {
        Some(m) => m as nat,
        None => attempt,
    })
{
    if spec_should_retry(attempt, max_retries) {
        1 + attempts_from(attempt + 1, max_retries)
    } else {
        1
    }
}

/// A channel builder that connects gives up after `max_retries` retries:
/// when every attempt fails, it makes `max_retries + 1` attempts, and one
/// when retrying is not configured.
pub proof fn lemma_attempts(max_retries: Option<usize>)
    ensures
        attempts_from(0, max_retries) == match max_retries {
            Some(m) => m + 1,
            None => 1,
        },
{
    match max_retries {
        Some(m) => lemma_attempts_from(0, m),
        None => {},
    }
}

proof fn lemma_attempts_from(attempt: nat, m: usize)
    requires
        attempt <= m,
    ensures
        attempts_from(attempt, Some(m)) == m - attempt + 1,
    decreases m - attempt,
{
    if attempt < m {
        lemma_attempts_from(attempt + 1, m);
    }
}

/// After failed connection attempt number `attempt`, whether to try again.
pub fn should_retry(attempt: usize, max_retries: Option<usize>) -> (b: bool)
    ensures
        b == spec_should_retry(attempt as nat, max_retries),
{
    match max_retries {
        Some(max_retries) => attempt < max_retries,
        None => false,
    }
}

/// Configures and builds a channel: the address, whether to listen on it
/// or connect to it, the retries, the TCP settings and the filter of the
/// accepted peer.
#[derive(Debug)]
pub struct ChannelBuilderFuture<A, T, E, RW, Filter> {
    addr: A,
    listening: bool,
    max_retries: Option<usize>,
    retry_sleep_duration: Duration,
    tcp_settings: TcpSettings,
    filter: Filter,
    _phantom: PhantomData<(T, E, RW)>,
}

impl<A, T, E, RW, Filter> ChannelBuilderFuture<A, T, E, RW, Filter> {
    /// The address to listen on or to connect to.
    pub closed spec fn spec_addr(self) -> A {
        self.addr
    }

    /// Whether to listen on the address, rather than connect to it.
    pub closed spec fn spec_listening(self) -> bool {
        self.listening
    }

    /// How many times to retry connecting, if at all.
    pub closed spec fn spec_max_retries(self) -> Option<usize> {
        self.max_retries
    }

    /// How long to wait between connection attempts.
    pub closed spec fn spec_retry_sleep(self) -> Duration {
        self.retry_sleep_duration
    }

    /// The TCP settings.
    pub closed spec fn spec_tcp_settings(self) -> TcpSettings {
        self.tcp_settings
    }

    /// What decides whether to keep an accepted peer.
    pub closed spec fn spec_filter(self) -> Filter {
        self.filter
    }

    /// A builder for `addr`, without retries or settings.
    pub fn new(addr: A, listening: bool, filter: Filter) -> (b: Self)
        ensures
            b.spec_addr() == addr,
            b.spec_listening() == listening,
            b.spec_max_retries() is None,
            b.spec_retry_sleep() == millis_span(RETRY_SLEEP_MILLIS),
            b.spec_filter() == filter,
            b.spec_tcp_settings() == TcpSettings::spec_default(),
    {
        ChannelBuilderFuture {
            addr,
            listening,
            max_retries: None,
            retry_sleep_duration: duration_from_millis(RETRY_SLEEP_MILLIS),
            tcp_settings: TcpSettings {
                reuseaddr: None,
                reuseport: None,
                linger: None,
                recv_buffer_size: None,
                send_buffer_size: None,
                nodelay: None,
                ttl: None,
            },
            filter,
            _phantom: PhantomData,
        }
    }

    /// This builder, retrying `max_retries` times every `retry_sleep_duration`.
    pub closed spec fn with_retry(self, retry_sleep_duration: Duration, max_retries: usize) -> Self {
        ChannelBuilderFuture {
            max_retries: Some(max_retries),
            retry_sleep_duration: retry_sleep_duration,
            ..self
        }
    }

    /// Retrying keeps the numbers it is given: the builder retries
    /// `max_retries` times, waiting `retry_sleep_duration` between attempts,
    /// and keeps its address, listening flag, TCP settings and filter.
    pub proof fn lemma_with_retry(self, retry_sleep_duration: Duration, max_retries: usize)
        ensures
            self.with_retry(retry_sleep_duration, max_retries).spec_max_retries() == Some(max_retries),
            self.with_retry(retry_sleep_duration, max_retries).spec_retry_sleep() == retry_sleep_duration,
            self.with_retry(retry_sleep_duration, max_retries).spec_addr() == self.spec_addr(),
            self.with_retry(retry_sleep_duration, max_retries).spec_listening() == self.spec_listening(),
            self.with_retry(retry_sleep_duration, max_retries).spec_tcp_settings() == self.spec_tcp_settings(),
            self.with_retry(retry_sleep_duration, max_retries).spec_filter() == self.spec_filter(),
    {
    }

    /// Changing the TCP settings sets exactly them: the builder then has the
    /// settings `t`, and keeps its address, listening flag, retries, wait
    /// and filter.
    pub proof fn lemma_with_tcp_settings(self, t: TcpSettings)
        ensures
            self.with_tcp_settings(t).spec_tcp_settings() == t,
            self.with_tcp_settings(t).spec_addr() == self.spec_addr(),
            self.with_tcp_settings(t).spec_listening() == self.spec_listening(),
            self.with_tcp_settings(t).spec_max_retries() == self.spec_max_retries(),
            self.with_tcp_settings(t).spec_retry_sleep() == self.spec_retry_sleep(),
            self.with_tcp_settings(t).spec_filter() == self.spec_filter(),
    {
    }

    /// The parts of the configuration: address, listening, retries, wait
    /// between attempts, TCP settings and filter.
    pub fn into_parts(self) -> (p: (A, bool, Option<usize>, Duration, TcpSettings, Filter))
        ensures
            p == (
                self.spec_addr(),
                self.spec_listening(),
                self.spec_max_retries(),
                self.spec_retry_sleep(),
                self.spec_tcp_settings(),
                self.spec_filter(),
            ),
    {
        (self.addr, self.listening, self.max_retries, self.retry_sleep_duration, self.tcp_settings,
            self.filter)
    }

    /// Retry connecting `max_retries` times, waiting `retry_sleep_duration`
    /// between attempts.
    pub fn retry(self, retry_sleep_duration: Duration, max_retries: usize) -> (b: Self)
        ensures
            b == self.with_retry(retry_sleep_duration, max_retries),
            b.spec_max_retries() == Some(max_retries),
            b.spec_retry_sleep() == retry_sleep_duration,
            b.spec_addr() == self.spec_addr(),
            b.spec_listening() == self.spec_listening(),
            b.spec_tcp_settings() == self.spec_tcp_settings(),
            b.spec_filter() == self.spec_filter(),
    {
        let mut this = self;
        this.max_retries = Some(max_retries);
        this.retry_sleep_duration = retry_sleep_duration;
        this
    }

    /// Keep only the accepted peer whose address passes `filter`.
    pub fn filter<Filter2>(self, filter: Filter2) -> (b: ChannelBuilderFuture<A, T, E, RW, Filter2>)
        ensures
            b.spec_filter() == filter,
            b.spec_addr() == self.spec_addr(),
            b.spec_listening() == self.spec_listening(),
            b.spec_max_retries() == self.spec_max_retries(),
            b.spec_retry_sleep() == self.spec_retry_sleep(),
            b.spec_tcp_settings() == self.spec_tcp_settings(),
    {
        let ChannelBuilderFuture { addr, listening, max_retries, retry_sleep_duration, tcp_settings, .. } =
            self;
        ChannelBuilderFuture {
            addr,
            listening,
            max_retries,
            retry_sleep_duration,
            tcp_settings,
            filter,
            _phantom: PhantomData,
        }
    }

    /// Encode and decode items with the codec `C`.
    pub fn with_codec<C>(self) -> (b: ChannelBuilderFuture<A, T, C, RW, Filter>)
        ensures
            b.spec_filter() == self.spec_filter(),
            b.spec_addr() == self.spec_addr(),
            b.spec_listening() == self.spec_listening(),
            b.spec_max_retries() == self.spec_max_retries(),
            b.spec_retry_sleep() == self.spec_retry_sleep(),
            b.spec_tcp_settings() == self.spec_tcp_settings(),
    {
        let ChannelBuilderFuture {
            addr,
            listening,
            max_retries,
            retry_sleep_duration,
            tcp_settings,
            filter,
            ..
        } = self;
        ChannelBuilderFuture {
            addr,
            listening,
            max_retries,
            retry_sleep_duration,
            tcp_settings,
            filter,
            _phantom: PhantomData,
        }
    }

    /// This builder with the TCP settings `t`.
    pub closed spec fn with_tcp_settings(self, t: TcpSettings) -> Self {
        ChannelBuilderFuture { tcp_settings: t, ..self }
    }

    /// Changes the TCP settings to `tcp_settings`, keeping the rest.
    fn set_settings(self, tcp_settings: TcpSettings) -> (b: Self)
        ensures
            b == self.with_tcp_settings(tcp_settings),
    {
        let mut this = self;
        this.tcp_settings = tcp_settings;
        this
    }

    /// Set tcp reuseaddr.
    pub fn set_tcp_reuseaddr(self, reuseaddr: bool) -> (b: Self)
        ensures
            b == self.with_tcp_settings((TcpSettings { reuseaddr: Some(reuseaddr), ..self.spec_tcp_settings() })),
    {
        let t = TcpSettings { reuseaddr: Some(reuseaddr), ..self.tcp_settings };
        self.set_settings(t)
    }

    /// Set tcp reuseport.
    pub fn set_tcp_reuseport(self, reuseport: bool) -> (b: Self)
        ensures
            b == self.with_tcp_settings((TcpSettings { reuseport: Some(reuseport), ..self.spec_tcp_settings() })),
    {
        let t = TcpSettings { reuseport: Some(reuseport), ..self.tcp_settings };
        self.set_settings(t)
    }

    /// Set tcp linger.
    pub fn set_tcp_linger(self, dur: Option<Duration>) -> (b: Self)
        ensures
            b == self.with_tcp_settings((TcpSettings { linger: Some(dur), ..self.spec_tcp_settings() })),
    {
        let t = TcpSettings { linger: Some(dur), ..self.tcp_settings };
        self.set_settings(t)
    }

    /// Set tcp nodelay.
    pub fn set_tcp_nodelay(self, nodelay: bool) -> (b: Self)
        ensures
            b == self.with_tcp_settings((TcpSettings { nodelay: Some(nodelay), ..self.spec_tcp_settings() })),
    {
        let t = TcpSettings { nodelay: Some(nodelay), ..self.tcp_settings };
        self.set_settings(t)
    }

    /// Set tcp ttl.
    pub fn set_tcp_ttl(self, ttl: u32) -> (b: Self)
        ensures
            b == self.with_tcp_settings((TcpSettings { ttl: Some(ttl), ..self.spec_tcp_settings() })),
    {
        let t = TcpSettings { ttl: Some(ttl), ..self.tcp_settings };
        self.set_settings(t)
    }

    /// Set tcp recv_buffer_size.
    pub fn set_tcp_recv_buffer_size(self, size: u32) -> (b: Self)
        ensures
            b == self.with_tcp_settings((TcpSettings { recv_buffer_size: Some(size), ..self.spec_tcp_settings() })),
    {
        let t = TcpSettings { recv_buffer_size: Some(size), ..self.tcp_settings };
        self.set_settings(t)
    }

    /// Set tcp send_buffer_size.
    pub fn set_tcp_send_buffer_size(self, size: u32) -> (b: Self)
        ensures
            b == self.with_tcp_settings((TcpSettings { send_buffer_size: Some(size), ..self.spec_tcp_settings() })),
    {
        let t = TcpSettings { send_buffer_size: Some(size), ..self.tcp_settings };
        self.set_settings(t)
    }
}

/// `filter` can be called on any address and keeps every peer.
pub open spec fn takes_any_peer<F: Fn(SocketAddr) -> bool>(filter: F) -> bool {
    &&& forall|a: SocketAddr| #[trigger] call_requires(filter, (a,))
    &&& forall|a: SocketAddr, r: bool| #[trigger] call_ensures(filter, (a,), r) ==> r
}

/// `b` is a fresh builder for `addr` that listens on it or connects to it
/// as `listening` says: no retries, the default wait between attempts, no
/// TCP setting changed, and any peer taken.
pub open spec fn fresh_builder<A, T, E, RW, F: Fn(SocketAddr) -> bool>(
    b: ChannelBuilderFuture<A, T, E, RW, F>,
    addr: A,
    listening: bool,
) -> bool {
    &&& b.spec_addr() == addr
    &&& b.spec_listening() == listening
    &&& b.spec_max_retries() is None
    &&& b.spec_retry_sleep() == millis_span(RETRY_SLEEP_MILLIS)
    &&& b.spec_tcp_settings() == TcpSettings::spec_default()
    &&& takes_any_peer(b.spec_filter())
}

/// A builder that takes any peer, for `addr`.
fn any_peer_builder<A, T, E, RW>(addr: A, listening: bool) -> (b: ChannelBuilderFuture<A, T, E, RW, impl Clone + Fn(SocketAddr) -> bool>)
    ensures
        fresh_builder(b, addr, listening),
{
    let any_peer = |_a: SocketAddr| -> (r: bool)
        ensures
            r,
        {
            true
        };
    ChannelBuilderFuture::new(addr, listening, any_peer)
}

/// A builder of a channel connecting to `dest`.
pub fn channel_to<A, T, E, RW>(dest: A) -> (b: ChannelBuilderFuture<A, T, E, RW, impl Clone + Fn(SocketAddr) -> bool>)
    ensures
        fresh_builder(b, dest, false),
{
    any_peer_builder(dest, false)
}


/// A builder of a channel listening on `local_addr` for one connection.
pub fn channel_on<A, T, E, RW>(local_addr: A) -> (b: ChannelBuilderFuture<A, T, E, RW, impl Clone + Fn(SocketAddr) -> bool>)
    ensures
        fresh_builder(b, local_addr, true),
{
    any_peer_builder(local_addr, true)
}

/// A builder of a sender of a multi-producer/single-consumer channel,
/// connecting to `dest`.
pub fn sender_to<A, T, E, RW>(dest: A) -> (b: ChannelBuilderFuture<A, T, E, RW, impl Clone + Fn(SocketAddr) -> bool>)
    ensures
        fresh_builder(b, dest, false),
{
    any_peer_builder(dest, false)
}

/// A builder of a receiver of a broadcast channel, connecting to `dest`.
pub fn receiver_to<A, T, E, RW>(dest: A) -> (b: ReceiverBuilderFuture<A, T, E, RW, impl Clone + Fn(SocketAddr) -> bool>)
    ensures
        fresh_builder(b.spec_inner(), dest, false),
{
    ReceiverBuilderFuture::new(any_peer_builder(dest, false))
}

/// A builder of a waiter, connecting to the barrier at `dest`.
pub fn waiter_to<A, RW>(dest: A) -> (b: WaiterBuilderFuture<A, RW, impl Clone + Fn(SocketAddr) -> bool>)
    ensures
        fresh_builder(b.spec_inner(), dest, false),
{
    WaiterBuilderFuture::new(any_peer_builder::<A, (), EmptyCodec, RW>(dest, false))
}

/// A builder of a single-producer/single-consumer sender connecting to
/// `dest`.
pub fn send_to<A, T, E, RW>(dest: A) -> (b: SenderToBuilderFuture<A, T, E, RW, impl Clone + Fn(SocketAddr) -> bool>)
    ensures
        fresh_builder(b.spec_inner(), dest, false),
{
    SenderToBuilderFuture::new(any_peer_builder(dest, false))
}

/// A builder of a single-producer/single-consumer sender listening on
/// `local_addr` for the receiver.
pub fn send_on<A, T, E, RW>(local_addr: A) -> (b: SenderOnBuilderFuture<A, T, E, RW, impl Clone + Fn(SocketAddr) -> bool>)
    ensures
        fresh_builder(b.spec_inner(), local_addr, true),
{
    SenderOnBuilderFuture::new(any_peer_builder(local_addr, true))
}

/// A builder of a single-producer/single-consumer receiver connecting to
/// `dest`.
pub fn recv_to<A, T, E, RW>(dest: A) -> (b: ReceiverToBuilderFuture<A, T, E, RW, impl Clone + Fn(SocketAddr) -> bool>)
    ensures
        fresh_builder(b.spec_inner(), dest, false),
{
    ReceiverToBuilderFuture::new(any_peer_builder(dest, false))
}

/// A builder of a single-producer/single-consumer receiver listening on
/// `local_addr` for the sender.
pub fn recv_on<A, T, E, RW>(local_addr: A) -> (b: ReceiverOnBuilderFuture<A, T, E, RW, impl Clone + Fn(SocketAddr) -> bool>)
    ensures
        fresh_builder(b.spec_inner(), local_addr, true),
{
    ReceiverOnBuilderFuture::new(any_peer_builder(local_addr, true))
}

} // verus!
