//! Errors of multi-connection channels.

use vstd::prelude::*;
use std::collections::VecDeque;
use crate::util::SocketAddr;
use crate::util::io_error::{IoErrorKind, kind_of, is_kind, is_lost_connection};
use crate::util::listener::UnsplitError as ListenerUnsplitError;
use crate::util::stream_pool::errors::{PollError, SinkErrors, StreamPoolError, UnsplitError as PoolUnsplitError, io_errors};

verus! {

/// Error of sending an item on a channel.
#[derive(Debug)]
pub enum SinkError<E> {
    /// Failed to encode item on `addr`.
    ItemEncode { addr: SocketAddr, source: E },
    /// Failed to send item on `addr`.
    SinkErrors { addr: SocketAddr, source: SinkErrors },
}

/// The errors of the connections of a failed send, one at a time.
#[derive(Debug)]
pub struct SinkErrorIterator<'a> {
    errors: Option<&'a [PollError]>,
    pos: usize,
}

/// The errors of the connections of a failed send, owned, one at a time.
#[derive(Debug)]
pub struct SinkErrorIntoIterator {
    errors: Option<VecDeque<PollError>>,
}

impl<'a> SinkErrorIterator<'a> {
    /// The position is within the errors.
    pub closed spec fn wf(self) -> bool {
        match self.errors {
            Some(e) => self.pos <= e@.len(),
            None => true,
        }
    }

    /// The errors not handed out yet.
    pub closed spec fn remaining(self) -> Seq<PollError> {
        match self.errors {
            Some(e) => e@.skip(self.pos as int),
            None => Seq::empty(),
        }
    }

    /// The next error, if any.
    pub fn next(&mut self) -> (r: Option<&'a PollError>)
        requires
            old(self).wf(),
        ensures
            final(self).wf(),
            old(self).remaining().len() == 0 ==> r is None && final(self).remaining().len() == 0,
            old(self).remaining().len() > 0 ==> r == Some(&old(self).remaining()[0])
                && final(self).remaining() == old(self).remaining().drop_first(),
    {
        match self.errors {
            Some(errors) => {
                if self.pos < errors.len() {
                    let e = &errors[self.pos];
                    self.pos = self.pos + 1;
                    proof {
                        assert(errors@.skip(self.pos as int) =~= errors@.skip(self.pos - 1).drop_first());
                    }
                    Some(e)
                } else {
                    None
                }
            },
            None => None,
        }
    }
}

impl SinkErrorIntoIterator {
    /// The errors not handed out yet.
    pub closed spec fn remaining(self) -> Seq<PollError> {
        match self.errors {
            Some(e) => e@,
            None => Seq::empty(),
        }
    }

    /// The next error, if any.
    pub fn next(&mut self) -> (r: Option<PollError>)
        ensures
            old(self).remaining().len() == 0 ==> r is None && final(self).remaining().len() == 0,
            old(self).remaining().len() > 0 ==> r == Some(old(self).remaining()[0])
                && final(self).remaining() == old(self).remaining().drop_first(),
    {
        match &mut self.errors {
            Some(errors) => errors.pop_front(),
            None => None,
        }
    }
}

impl<E> SinkError<E> {
    /// The local address of the channel.
    pub open spec fn spec_local_addr(self) -> SocketAddr {
        match self {
            SinkError::ItemEncode { addr, .. } => addr,
            SinkError::SinkErrors { addr, .. } => addr,
        }
    }

    /// The errors of the connections, empty for an encoding error.
    pub open spec fn spec_sink_errors(self) -> Seq<PollError> {
        match self {
            SinkError::ItemEncode { .. } => Seq::empty(),
            SinkError::SinkErrors { source, .. } => source.spec_errors(),
        }
    }

    /// The local address of the channel.
    pub fn local_addr(&self) -> (a: &SocketAddr)
        ensures
            *a == self.spec_local_addr(),
    {
        match self {
            Self::SinkErrors { addr, .. } => addr,
            Self::ItemEncode { addr, .. } => addr,
        }
    }

    /// The addresses of the peers whose connections failed.
    pub fn peer_addrs(&self) -> (v: Vec<SocketAddr>)
        ensures
            v@ == self.spec_sink_errors().map_values(|e: PollError| e.addr_of()),
    {
        match self {
            Self::SinkErrors { source, .. } => source.peer_addrs(),
            Self::ItemEncode { .. } => {
                let v: Vec<SocketAddr> = Vec::new();
                proof {
                    assert(v@ =~= Seq::<PollError>::empty().map_values(|e: PollError| e.addr_of()));
                }
                v
            },
        }
    }

    /// Whether the item failed to encode.
    pub fn is_encode_error(&self) -> (b: bool)
        ensures
            b == self is ItemEncode,
    {
        matches!(self, Self::ItemEncode { .. })
    }

    /// Whether connections failed to send the item.
    pub fn is_sink_error(&self) -> (b: bool)
        ensures
            b == self is SinkErrors,
    {
        !self.is_encode_error()
    }

    /// The errors of the connections that failed, one at a time.
    pub fn as_sink_errors(&self) -> (it: SinkErrorIterator<'_>)
        ensures
            it.wf(),
            it.remaining() == self.spec_sink_errors(),
    {
        let errors = if let Self::SinkErrors { source, .. } = self {
            Some(source.errors())
        } else {
            None
        };
        let it = SinkErrorIterator { errors, pos: 0 };
        proof {
            if let Some(e) = errors {
                assert(e@.skip(0) =~= e@);
            }
        }
        it
    }

    /// The errors of the connections that failed, owned, one at a time.
    pub fn into_sink_errors(self) -> (it: SinkErrorIntoIterator)
        ensures
            it.remaining() == self.spec_sink_errors(),
    {
        let errors = if let Self::SinkErrors { source, .. } = self {
            let v = source.into_errors();
            let mut q: VecDeque<PollError> = VecDeque::new();
            let mut v = v;
            let ghost all = v@;
            // Move the errors over in order.
            let mut rev: Vec<PollError> = Vec::new();
            while v.len() > 0
                invariant
                    v@ + rev@.reverse() == all,
                decreases v@.len(),
            {
                let e = v.pop().unwrap();
                proof {
                    assert(v@.push(e) =~= v@.push(e));
                }
                let ghost r0 = rev@;
                rev.push(e);
                proof {
                    assert(rev@.reverse() =~= seq![e] + r0.reverse());
                    assert(v@ + rev@.reverse() =~= all);
                }
            }
            while rev.len() > 0
                invariant
                    q@ + rev@.reverse() == all,
                decreases rev@.len(),
            {
                let e = rev.pop().unwrap();
                let ghost r0 = rev@;
                q.push_back(e);
                proof {
                    assert(r0.push(e).reverse() =~= seq![e] + r0.reverse());
                    assert(q@ + rev@.reverse() =~= all);
                }
            }
            proof {
                assert(q@ =~= all);
            }
            Some(q)
        } else {
            None
        };
        SinkErrorIntoIterator { errors }
    }

    /// The IO errors under the errors of the connections that failed, in
    /// order.
    pub fn as_io_errors(&self) -> (v: Vec<&std::io::Error>)
        ensures
            v@.map_values(|e: &std::io::Error| *e) == io_errors(self.spec_sink_errors()),
    {
        match self {
            Self::SinkErrors { source, .. } => source.as_io_errors(),
            Self::ItemEncode { .. } => {
                let v: Vec<&std::io::Error> = Vec::new();
                proof {
                    assert(v@.map_values(|e: &std::io::Error| *e) =~= Seq::<std::io::Error>::empty());
                }
                v
            },
        }
    }

    /// The IO errors under the errors of the connections that failed, owned,
    /// in order.
    pub fn into_io_errors(self) -> (v: Vec<std::io::Error>)
        ensures
            v@ == io_errors(self.spec_sink_errors()),
    {
        match self {
            Self::SinkErrors { source, .. } => source.into_io_errors(),
            Self::ItemEncode { .. } => Vec::new(),
        }
    }
}

/// Error of receiving an item on a channel.
#[derive(Debug)]
pub enum StreamError<E> {
    /// Failed to decode frame of item on `addr`.
    ItemDecode { addr: SocketAddr, source: E },
    /// Failed receive item on `addr`.
    StreamError { addr: SocketAddr, source: PollError },
}

impl<E> StreamError<E> {
    /// The local address of the channel.
    pub fn local_addr(&self) -> (a: &SocketAddr)
        ensures
            *a == match self {
                StreamError::ItemDecode { addr, .. } => addr,
                StreamError::StreamError { addr, .. } => addr,
            },
    {
        match self {
            Self::StreamError { addr, .. } => addr,
            Self::ItemDecode { addr, .. } => addr,
        }
    }

    /// The address of the peer whose connection failed, if one did.
    pub fn peer_addr(&self) -> (a: Option<SocketAddr>)
        ensures
            a == match self {
                StreamError::ItemDecode { .. } => None,
                StreamError::StreamError { source, .. } => Some(source.addr_of()),
            },
    {
        match self {
            Self::ItemDecode { .. } => None,
            Self::StreamError { source, .. } => Some(*source.peer_addr()),
        }
    }

    /// Whether the frame failed to decode.
    pub fn is_decode_error(&self) -> (b: bool)
        ensures
            b == self is ItemDecode,
    {
        matches!(self, Self::ItemDecode { .. })
    }

    /// Whether the connection failed to receive.
    pub fn is_recv_error(&self) -> (b: bool)
        ensures
            b == self is StreamError,
    {
        !self.is_decode_error()
    }

    /// The IO error under this error, if it is one.
    pub open spec fn spec_io(self) -> Option<std::io::Error> {
        match self {
            StreamError::StreamError { source, .. } => source.source_of().io_source(),
            StreamError::ItemDecode { .. } => None,
        }
    }

    /// The IO error under this error, if it is one.
    pub fn as_io(&self) -> (r: Option<&std::io::Error>)
        ensures
            r is Some <==> self.spec_io() is Some,
            r matches Some(e) ==> self.spec_io() == Some(*e),
    {
        match self {
            Self::StreamError { source, .. } => source.as_io(),
            _ => None,
        }
    }

    /// Whether the connection was lost: reset, refused, aborted, not
    /// connected, or its pipe broken.
    pub fn is_connection_error(&self) -> (b: bool)
        ensures
            b == (kind_of(self.spec_io()) matches Some(k) && is_lost_connection(k)),
    {
        self.is_connection_reset() || self.is_connection_refused() || self.is_connection_aborted()
            || self.is_not_connected() || self.is_broken_pipe()
    }

    /// Whether the connection was reset.
    pub fn is_connection_reset(&self) -> (b: bool)
        ensures
            b == (kind_of(self.spec_io()) == Some(IoErrorKind::ConnectionReset)),
    {
        is_kind(self.as_io(), IoErrorKind::ConnectionReset)
    }

    /// Whether the connection was refused.
    pub fn is_connection_refused(&self) -> (b: bool)
        ensures
            b == (kind_of(self.spec_io()) == Some(IoErrorKind::ConnectionRefused)),
    {
        is_kind(self.as_io(), IoErrorKind::ConnectionRefused)
    }

    /// Whether the connection was aborted.
    pub fn is_connection_aborted(&self) -> (b: bool)
        ensures
            b == (kind_of(self.spec_io()) == Some(IoErrorKind::ConnectionAborted)),
    {
        is_kind(self.as_io(), IoErrorKind::ConnectionAborted)
    }

    /// Whether the connection was not connected.
    pub fn is_not_connected(&self) -> (b: bool)
        ensures
            b == (kind_of(self.spec_io()) == Some(IoErrorKind::NotConnected)),
    {
        is_kind(self.as_io(), IoErrorKind::NotConnected)
    }

    /// Whether the connection's pipe was broken.
    pub fn is_broken_pipe(&self) -> (b: bool)
        ensures
            b == (kind_of(self.spec_io()) == Some(IoErrorKind::BrokenPipe)),
    {
        is_kind(self.as_io(), IoErrorKind::BrokenPipe)
    }
}

/// Error of uniting a receiver and a sender into a channel.
#[derive(Debug)]
pub enum UnsplitError<E> {
    /// The halves' local addresses are different.
    UnequalLocalAddr { l_local_addr: SocketAddr, r_local_addr: SocketAddr },
    /// The halves' stream configs are different.
    UnequalStreamConfig,
    /// Failed to unite the listeners.
    ListenerUnsplitError { source: ListenerUnsplitError },
    /// Failed to unite the pools.
    StreamPoolUnsplitError { source: PoolUnsplitError<E> },
}

/// Error of accepting connections on a channel.
#[derive(Debug)]
pub enum AcceptError<E> {
    /// Underlying listener failed to accept.
    StreamPoolAcceptError { source: E },
    /// Failed to push accepted stream to stream pool.
    PushStream { source: StreamPoolError },
}

} // verus!
