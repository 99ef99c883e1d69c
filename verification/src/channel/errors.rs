//! Errors of single-connection channels.

use vstd::prelude::*;
use crate::util::SocketAddr;
use crate::util::io_error::{IoErrorKind, kind_of, is_kind, is_lost_connection};
use crate::codec::length_delimited::Error as CodecError;
use crate::util::stream_pool::errors::SinkStep;

verus! {

/// Error of uniting a read half and a write half into a channel.
#[derive(Debug)]
pub enum UnsplitError<E> {
    /// The halves' local addresses are different.
    UnequalLocalAddr { l_local_addr: SocketAddr, r_local_addr: SocketAddr },
    /// The halves' peer addresses are different.
    UnequalPeerAddr { l_peer_addr: SocketAddr, r_peer_addr: SocketAddr },
    /// The halves' connections failed to unite.
    FramedUnsplit { source: E },
}

/// Error of sending an item on a channel.
#[derive(Debug)]
pub enum SinkError<E> {
    /// Failed to encode item on `addr` to `peer_addr`.
    ItemEncode { addr: SocketAddr, peer_addr: SocketAddr, source: E },
    /// Failed `start_send` on `addr` to `peer_addr`.
    StartSend { addr: SocketAddr, peer_addr: SocketAddr, source: CodecError },
    /// Failed `poll_ready` on `addr` to `peer_addr`.
    PollReady { addr: SocketAddr, peer_addr: SocketAddr, source: CodecError },
    /// Failed `poll_flush` on `addr` to `peer_addr`.
    PollFlush { addr: SocketAddr, peer_addr: SocketAddr, source: CodecError },
    /// Failed `poll_close` on `addr` to `peer_addr`.
    PollClose { addr: SocketAddr, peer_addr: SocketAddr, source: CodecError },
}

/// The error of a channel at `addr` connected to `peer_addr`, whose
/// connection failed at the sending step `step`.
pub open spec fn channel_sink_error<E>(
    step: SinkStep,
    addr: SocketAddr,
    peer_addr: SocketAddr,
    source: CodecError,
) -> SinkError<E> {
    match step {
        SinkStep::StartSend => SinkError::StartSend { addr, peer_addr, source },
        SinkStep::PollReady => SinkError::PollReady { addr, peer_addr, source },
        SinkStep::PollFlush => SinkError::PollFlush { addr, peer_addr, source },
        SinkStep::PollClose => SinkError::PollClose { addr, peer_addr, source },
    }
}

impl<E> SinkError<E> {
    /// The local address.
    pub open spec fn spec_local_addr(self) -> SocketAddr {
        match self {
            SinkError::ItemEncode { addr, .. } => addr,
            SinkError::StartSend { addr, .. } => addr,
            SinkError::PollReady { addr, .. } => addr,
            SinkError::PollFlush { addr, .. } => addr,
            SinkError::PollClose { addr, .. } => addr,
        }
    }

    /// The peer's address.
    pub open spec fn spec_peer_addr(self) -> SocketAddr {
        match self {
            SinkError::ItemEncode { peer_addr, .. } => peer_addr,
            SinkError::StartSend { peer_addr, .. } => peer_addr,
            SinkError::PollReady { peer_addr, .. } => peer_addr,
            SinkError::PollFlush { peer_addr, .. } => peer_addr,
            SinkError::PollClose { peer_addr, .. } => peer_addr,
        }
    }

    /// The IO error under this error, if it is one.
    pub open spec fn spec_io(self) -> Option<std::io::Error> {
        match self {
            SinkError::ItemEncode { .. } => None,
            SinkError::StartSend { source, .. } => source.io_source(),
            SinkError::PollReady { source, .. } => source.io_source(),
            SinkError::PollFlush { source, .. } => source.io_source(),
            SinkError::PollClose { source, .. } => source.io_source(),
        }
    }

    /// Returns the local address.
    pub fn local_addr(&self) -> (a: &SocketAddr)
        ensures
            *a == self.spec_local_addr(),
    {
        match self {
            Self::StartSend { addr, .. } => addr,
            Self::PollReady { addr, .. } => addr,
            Self::PollFlush { addr, .. } => addr,
            Self::PollClose { addr, .. } => addr,
            Self::ItemEncode { addr, .. } => addr,
        }
    }

    /// Returns the peer's address.
    pub fn peer_addr(&self) -> (a: &SocketAddr)
        ensures
            *a == self.spec_peer_addr(),
    {
        match self {
            Self::StartSend { peer_addr, .. } => peer_addr,
            Self::PollReady { peer_addr, .. } => peer_addr,
            Self::PollFlush { peer_addr, .. } => peer_addr,
            Self::PollClose { peer_addr, .. } => peer_addr,
            Self::ItemEncode { peer_addr, .. } => peer_addr,
        }
    }

    /// Whether the item failed to encode.
    pub fn is_encode_error(&self) -> (b: bool)
        ensures
            b == self is ItemEncode,
    {
        matches!(self, Self::ItemEncode { .. })
    }

    /// Whether the connection failed to send the item.
    pub fn is_sink_error(&self) -> (b: bool)
        ensures
            b == !(self is ItemEncode),
    {
        !self.is_encode_error()
    }

    /// The IO error under this error, if it is one.
    pub fn as_io(&self) -> (r: Option<&std::io::Error>)
        ensures
            r is Some <==> self.spec_io() is Some,
            r matches Some(e) ==> self.spec_io() == Some(*e),
    {
        match self {
            Self::StartSend { source, .. } => source.as_io(),
            Self::PollReady { source, .. } => source.as_io(),
            Self::PollFlush { source, .. } => source.as_io(),
            Self::PollClose { source, .. } => source.as_io(),
            _ => None,
        }
    }

    /// Whether the connection was lost: reset, refused, aborted, not
    /// connected, or its pipe broken.
    pub fn is_connection_error(&self) -> (b: bool)
        ensures
            b == (kind_of(self.spec_io()) matches Some(k) && is_lost_connection(k)),
    {
        self.is_connection_reset() || self.is_connection_refused() || self.is_connection_aborted()
            || self.is_not_connected() || self.is_broken_pipe()
    }

    /// Whether the connection was reset.
    pub fn is_connection_reset(&self) -> (b: bool)
        ensures
            b == (kind_of(self.spec_io()) == Some(IoErrorKind::ConnectionReset)),
    {
        is_kind(self.as_io(), IoErrorKind::ConnectionReset)
    }

    /// Whether the connection was refused.
    pub fn is_connection_refused(&self) -> (b: bool)
        ensures
            b == (kind_of(self.spec_io()) == Some(IoErrorKind::ConnectionRefused)),
    {
        is_kind(self.as_io(), IoErrorKind::ConnectionRefused)
    }

    /// Whether the connection was aborted.
    pub fn is_connection_aborted(&self) -> (b: bool)
        ensures
            b == (kind_of(self.spec_io()) == Some(IoErrorKind::ConnectionAborted)),
    {
        is_kind(self.as_io(), IoErrorKind::ConnectionAborted)
    }

    /// Whether the connection was not connected.
    pub fn is_not_connected(&self) -> (b: bool)
        ensures
            b == (kind_of(self.spec_io()) == Some(IoErrorKind::NotConnected)),
    {
        is_kind(self.as_io(), IoErrorKind::NotConnected)
    }

    /// Whether the connection's pipe was broken.
    pub fn is_broken_pipe(&self) -> (b: bool)
        ensures
            b == (kind_of(self.spec_io()) == Some(IoErrorKind::BrokenPipe)),
    {
        is_kind(self.as_io(), IoErrorKind::BrokenPipe)
    }
}

/// Error of receiving an item on a channel.
#[derive(Debug)]
pub enum StreamError<E> {
    /// Failed to decode frame of data on `addr` to `peer_addr`.
    ItemDecode { addr: SocketAddr, peer_addr: SocketAddr, source: E },
    /// Failed to call `poll_next` on `addr` to `peer_addr`.
    PollNext { addr: SocketAddr, peer_addr: SocketAddr, source: CodecError },
}

impl<E> StreamError<E> {
    /// The local address.
    pub open spec fn spec_local_addr(self) -> SocketAddr {
        match self {
            StreamError::ItemDecode { addr, .. } => addr,
            StreamError::PollNext { addr, .. } => addr,
        }
    }

    /// The peer's address.
    pub open spec fn spec_peer_addr(self) -> SocketAddr {
        match self {
            StreamError::ItemDecode { peer_addr, .. } => peer_addr,
            StreamError::PollNext { peer_addr, .. } => peer_addr,
        }
    }

    /// The IO error under this error, if it is one.
    pub open spec fn spec_io(self) -> Option<std::io::Error> {
        match self {
            StreamError::ItemDecode { .. } => None,
            StreamError::PollNext { source, .. } => source.io_source(),
        }
    }

    /// Returns the local address.
    pub fn local_addr(&self) -> (a: &SocketAddr)
        ensures
            *a == self.spec_local_addr(),
    {
        match self {
            Self::PollNext { addr, .. } => addr,
            Self::ItemDecode { addr, .. } => addr,
        }
    }

    /// Returns the peer's address.
    pub fn peer_addr(&self) -> (a: &SocketAddr)
        ensures
            *a == self.spec_peer_addr(),
    {
        match self {
            Self::ItemDecode { peer_addr, .. } => peer_addr,
            Self::PollNext { peer_addr, .. } => peer_addr,
        }
    }

    /// Whether the frame failed to decode.
    pub fn is_decode_error(&self) -> (b: bool)
        ensures
            b == self is ItemDecode,
    {
        matches!(self, Self::ItemDecode { .. })
    }

    /// Whether the connection failed to receive.
    pub fn is_recv_error(&self) -> (b: bool)
        ensures
            b == self is PollNext,
    {
        !self.is_decode_error()
    }

    /// The IO error under this error, if it is one.
    pub fn as_io(&self) -> (r: Option<&std::io::Error>)
        ensures
            r is Some <==> self.spec_io() is Some,
            r matches Some(e) ==> self.spec_io() == Some(*e),
    {
        match self {
            Self::PollNext { source, .. } => source.as_io(),
            _ => None,
        }
    }

    /// Whether the connection was lost: reset, refused, aborted, not
    /// connected, or its pipe broken.
    pub fn is_connection_error(&self) -> (b: bool)
        ensures
            b == (kind_of(self.spec_io()) matches Some(k) && is_lost_connection(k)),
    {
        self.is_connection_reset() || self.is_connection_refused() || self.is_connection_aborted()
            || self.is_not_connected() || self.is_broken_pipe()
    }

    /// Whether the connection was reset.
    pub fn is_connection_reset(&self) -> (b: bool)
        ensures
            b == (kind_of(self.spec_io()) == Some(IoErrorKind::ConnectionReset)),
    {
        is_kind(self.as_io(), IoErrorKind::ConnectionReset)
    }

    /// Whether the connection was refused.
    pub fn is_connection_refused(&self) -> (b: bool)
        ensures
            b == (kind_of(self.spec_io()) == Some(IoErrorKind::ConnectionRefused)),
    {
        is_kind(self.as_io(), IoErrorKind::ConnectionRefused)
    }

    /// Whether the connection was aborted.
    pub fn is_connection_aborted(&self) -> (b: bool)
        ensures
            b == (kind_of(self.spec_io()) == Some(IoErrorKind::ConnectionAborted)),
    {
        is_kind(self.as_io(), IoErrorKind::ConnectionAborted)
    }

    /// Whether the connection was not connected.
    pub fn is_not_connected(&self) -> (b: bool)
        ensures
            b == (kind_of(self.spec_io()) == Some(IoErrorKind::NotConnected)),
    {
        is_kind(self.as_io(), IoErrorKind::NotConnected)
    }

    /// Whether the connection's pipe was broken.
    pub fn is_broken_pipe(&self) -> (b: bool)
        ensures
            b == (kind_of(self.spec_io()) == Some(IoErrorKind::BrokenPipe)),
    {
        is_kind(self.as_io(), IoErrorKind::BrokenPipe)
    }
}

} // verus!
