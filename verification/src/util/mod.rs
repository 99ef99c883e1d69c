//! Utility types shared by the primitives: byte buffers, codecs, the pool
//! of framed connections, the queues of split listeners, and splitting.

pub mod buf;
pub mod codec;
pub mod io_error;
pub mod listener;
pub mod split;
pub mod stream_pool;

pub use split::Split;

use vstd::prelude::*;

verus! {

/// A socket address held as plain values.
///
/// An IPv4 address is held in the low 32 bits of `ip`, with `is_ipv6`
/// false and `flowinfo` and `scope_id` zero; an IPv6 address fills `ip`.
#[derive(Debug, Clone, Copy, PartialEq, Eq, Hash, Structural)]
pub struct SocketAddr {
    /// Whether this is an IPv6 address.
    pub is_ipv6: bool,
    /// The IP address, big-endian in the low bits.
    pub ip: u128,
    /// The port number.
    pub port: u16,
    /// IPv6 flow information.
    pub flowinfo: u32,
    /// IPv6 scope id.
    pub scope_id: u32,
}

impl SocketAddr {
    /// The port number.
    pub fn port(&self) -> (p: u16)
        ensures
            p == self.port,
    {
        self.port
    }
}

/// Settings used for TCP streams as `nodelay` and `ttl`.
#[derive(Debug, Default, Clone, Copy, PartialEq, Structural)]
pub struct TcpStreamSettings {
    /// TCP setting `nodelay`.
    pub nodelay: Option<bool>,
    /// TCP setting `ttl`.
    pub ttl: Option<u32>,
}

} // verus!
