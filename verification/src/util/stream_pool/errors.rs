//! Errors of the pool of framed connections.

use vstd::prelude::*;
use crate::codec::length_delimited::Error as CodecError;
use crate::util::SocketAddr;
use crate::util::io_error::{IoErrorKind, kind_of, is_kind, is_lost_connection};

verus! {

/// Error of adding a connection to the pool.
#[derive(Debug)]
pub enum StreamPoolError {
    /// Cannot add stream to pool as limit is already reached.
    AddStreamLimitReached {
        /// the limit of the pool
        limit: usize,
    },
}

/// Error of uniting a read pool and a write pool.
#[derive(Debug)]
pub enum UnsplitError<E> {
    /// The read half and the write half were not equal.
    RWUnequal,
    /// Failed to unsplit an underlying stream.
    Unsplit {
        /// the error of the stream
        source: E,
    },
}

/// Error of one connection of the pool.
#[derive(Debug)]
pub enum PollError {
    /// Error start sending to `addr`.
    StartSend { addr: SocketAddr, source: CodecError },
    /// Error polling ready for `addr`.
    PollReady { addr: SocketAddr, source: CodecError },
    /// Error flushing buffer to `addr`.
    PollFlush { addr: SocketAddr, source: CodecError },
    /// Error closing connection to `addr`.
    PollClose { addr: SocketAddr, source: CodecError },
    /// Failed poll_next in stream_pool.
    PollNext { addr: SocketAddr, source: CodecError },
}

/// The step of sending at which a connection failed.
#[derive(Debug, Clone, Copy, PartialEq, Eq, Structural)]
pub enum SinkStep {
    /// `start_send`
    StartSend,
    /// `poll_ready`
    PollReady,
    /// `poll_flush`
    PollFlush,
    /// `poll_close`
    PollClose,
}

/// The error that a connection at `addr` gives at the sending step `step`.
pub open spec fn sink_error(step: SinkStep, addr: SocketAddr, source: CodecError) -> PollError {
    match step {
        SinkStep::StartSend => PollError::StartSend { addr, source },
        SinkStep::PollReady => PollError::PollReady { addr, source },
        SinkStep::PollFlush => PollError::PollFlush { addr, source },
        SinkStep::PollClose => PollError::PollClose { addr, source },
    }
}

/// The error of a connection that failed while sending names its peer and
/// keeps its codec error, and tells the steps apart: errors at two
/// different steps are different.
pub proof fn lemma_sink_error(step: SinkStep, addr: SocketAddr, source: CodecError, step2: SinkStep)
    ensures
        sink_error(step, addr, source).addr_of() == addr,
        sink_error(step, addr, source).source_of() == source,
        step != step2 ==> sink_error(step, addr, source) != sink_error(step2, addr, source),
        !(sink_error(step, addr, source) is PollNext),
{
}

/// Builds the error of a connection at `addr` failing at `step`.
pub fn make_sink_error(step: SinkStep, addr: SocketAddr, source: CodecError) -> (e: PollError)
    ensures
        e == sink_error(step, addr, source),
{
    match step {
        SinkStep::StartSend => PollError::StartSend { addr, source },
        SinkStep::PollReady => PollError::PollReady { addr, source },
        SinkStep::PollFlush => PollError::PollFlush { addr, source },
        SinkStep::PollClose => PollError::PollClose { addr, source },
    }
}

impl PollError {
    /// The address of the connection that failed.
    pub open spec fn addr_of(self) -> SocketAddr {
        match self {
            PollError::StartSend { addr, .. } => addr,
            PollError::PollReady { addr, .. } => addr,
            PollError::PollFlush { addr, .. } => addr,
            PollError::PollClose { addr, .. } => addr,
            PollError::PollNext { addr, .. } => addr,
        }
    }

    /// The codec error of the connection that failed.
    pub open spec fn source_of(self) -> CodecError {
        match self {
            PollError::StartSend { source, .. } => source,
            PollError::PollReady { source, .. } => source,
            PollError::PollFlush { source, .. } => source,
            PollError::PollClose { source, .. } => source,
            PollError::PollNext { source, .. } => source,
        }
    }

    /// Address of the peer whose connection failed.
    pub fn peer_addr(&self) -> (a: &SocketAddr)
        ensures
            *a == self.addr_of(),
    {
        match self {
            Self::StartSend { addr, .. } => addr,
            Self::PollReady { addr, .. } => addr,
            Self::PollFlush { addr, .. } => addr,
            Self::PollClose { addr, .. } => addr,
            Self::PollNext { addr, .. } => addr,
        }
    }

    /// The IO error under this error, if it is one.
    pub fn as_io(&self) -> (r: Option<&std::io::Error>)
        ensures
            r is Some <==> self.source_of().io_source() is Some,
            r matches Some(e) ==> self.source_of().io_source() == Some(*e),
    {
        match self {
            Self::StartSend { source, .. } => source.as_io(),
            Self::PollReady { source, .. } => source.as_io(),
            Self::PollFlush { source, .. } => source.as_io(),
            Self::PollClose { source, .. } => source.as_io(),
            Self::PollNext { source, .. } => source.as_io(),
        }
    }

    /// Whether the connection was lost: reset, refused, aborted, not
    /// connected, or its pipe broken.
    pub fn is_connection_error(&self) -> (b: bool)
        ensures
            b == (kind_of(self.source_of().io_source()) matches Some(k) && is_lost_connection(k)),
    {
        self.is_connection_reset() || self.is_connection_refused() || self.is_connection_aborted()
            || self.is_not_connected() || self.is_broken_pipe()
    }

    /// Whether the connection was reset.
    pub fn is_connection_reset(&self) -> (b: bool)
        ensures
            b == (kind_of(self.source_of().io_source()) == Some(IoErrorKind::ConnectionReset)),
    {
        is_kind(self.as_io(), IoErrorKind::ConnectionReset)
    }

    /// Whether the connection was refused.
    pub fn is_connection_refused(&self) -> (b: bool)
        ensures
            b == (kind_of(self.source_of().io_source()) == Some(IoErrorKind::ConnectionRefused)),
    {
        is_kind(self.as_io(), IoErrorKind::ConnectionRefused)
    }

    /// Whether the connection was aborted.
    pub fn is_connection_aborted(&self) -> (b: bool)
        ensures
            b == (kind_of(self.source_of().io_source()) == Some(IoErrorKind::ConnectionAborted)),
    {
        is_kind(self.as_io(), IoErrorKind::ConnectionAborted)
    }

    /// Whether the connection was not connected.
    pub fn is_not_connected(&self) -> (b: bool)
        ensures
            b == (kind_of(self.source_of().io_source()) == Some(IoErrorKind::NotConnected)),
    {
        is_kind(self.as_io(), IoErrorKind::NotConnected)
    }

    /// Whether the connection's pipe was broken.
    pub fn is_broken_pipe(&self) -> (b: bool)
        ensures
            b == (kind_of(self.source_of().io_source()) == Some(IoErrorKind::BrokenPipe)),
    {
        is_kind(self.as_io(), IoErrorKind::BrokenPipe)
    }

    /// The IO error under this error, if it is one.
    pub fn into_io(self) -> (r: Option<std::io::Error>)
        ensures
            r == self.source_of().io_source(),
    {
        match self {
            Self::StartSend { source, .. } => source.into_io(),
            Self::PollReady { source, .. } => source.into_io(),
            Self::PollFlush { source, .. } => source.into_io(),
            Self::PollClose { source, .. } => source.into_io(),
            Self::PollNext { source, .. } => source.into_io(),
        }
    }
}

/// Errors collected from the connections of a pool while sending an item.
#[derive(Debug)]
pub struct SinkErrors {
    errors: Vec<PollError>,
}

impl SinkErrors {
    /// The errors, in the order they were collected.
    pub closed spec fn spec_errors(self) -> Seq<PollError> {
        self.errors@
    }

    /// Collects `errors`.
    pub fn new(errors: Vec<PollError>) -> (s: Self)
        ensures
            s.spec_errors() == errors@,
    {
        Self { errors }
    }

    /// The addresses of the peers whose connections failed, in order.
    pub fn peer_addrs(&self) -> (addrs: Vec<SocketAddr>)
        ensures
            addrs@ == self.spec_errors().map_values(|e: PollError| e.addr_of()),
    {
        let mut addrs: Vec<SocketAddr> = Vec::new();
        let mut i: usize = 0;
        while i < self.errors.len()
            invariant
                i <= self.errors@.len(),
                addrs@ == self.errors@.take(i as int).map_values(|e: PollError| e.addr_of()),
            decreases self.errors@.len() - i,
        {
            let a = *self.errors[i].peer_addr();
            proof {
                assert(self.errors@.take(i + 1) =~= self.errors@.take(i as int).push(self.errors@[i as int]));
            }
            addrs.push(a);
            i += 1;
            proof {
                assert(addrs@ =~= self.errors@.take(i as int).map_values(|e: PollError| e.addr_of()));
            }
        }
        proof {
            assert(self.errors@.take(i as int) =~= self.errors@);
        }
        addrs
    }

    /// The collected errors.
    pub fn errors(&self) -> (s: &[PollError])
        ensures
            s@ == self.spec_errors(),
    {
        self.errors.as_slice()
    }

    /// The collected errors, owned.
    pub fn into_errors(self) -> (v: Vec<PollError>)
        ensures
            v@ == self.spec_errors(),
    {
        self.errors
    }

    /// The IO errors under the collected errors, in order.
    pub fn as_io_errors(&self) -> (v: Vec<&std::io::Error>)
        ensures
            v@.map_values(|e: &std::io::Error| *e) == io_errors(self.spec_errors()),
    {
        let mut v: Vec<&std::io::Error> = Vec::new();
        let mut i: usize = 0;
        while i < self.errors.len()
            invariant
                i <= self.errors@.len(),
                v@.map_values(|e: &std::io::Error| *e) == io_errors(self.errors@.take(i as int)),
            decreases self.errors@.len() - i,
        {
            if let Some(e) = self.errors[i].as_io() {
                v.push(e);
            }
            proof {
                assert(self.errors@.take(i + 1).drop_last() =~= self.errors@.take(i as int));
                assert(v@.map_values(|e: &std::io::Error| *e) =~= io_errors(self.errors@.take(i + 1)));
            }
            i += 1;
        }
        proof {
            assert(self.errors@.take(self.errors@.len() as int) =~= self.errors@);
        }
        v
    }

    /// The IO errors under the collected errors, owned, in order.
    pub fn into_io_errors(self) -> (v: Vec<std::io::Error>)
        ensures
            v@ == io_errors(self.spec_errors()),
    {
        let ghost all = self.errors@;
        let mut rest = self.errors;
        let mut v: Vec<std::io::Error> = Vec::new();
        proof {
            assert(v@ + io_errors(rest@) =~= io_errors(all));
        }
        while rest.len() > 0
            invariant
                v@ + io_errors(rest@) == io_errors(all),
            decreases rest@.len(),
        {
            let ghost r0 = rest@;
            let e = rest.remove(0);
            proof {
                assert(r0 =~= seq![e] + rest@);
                lemma_io_errors_cons(e, rest@);
            }
            let ghost v0 = v@;
            if let Some(io) = e.into_io() {
                v.push(io);
                proof {
                    assert(v@ + io_errors(rest@) =~= v0 + (seq![io] + io_errors(rest@)));
                }
            } else {
                proof {
                    assert(v@ + io_errors(rest@) =~= v0 + (Seq::<std::io::Error>::empty() + io_errors(rest@)));
                }
            }
        }
        proof {
            assert(io_errors(rest@) =~= Seq::<std::io::Error>::empty());
            assert(v@ + io_errors(rest@) =~= v@);
        }
        v
    }
}

/// The IO errors under the errors `s`, in order.
pub open spec fn io_errors(s: Seq<PollError>) -> Seq<std::io::Error>
    decreases s.len(),
{
    if s.len() == 0 {
        Seq::empty()
    } else {
        io_errors(s.drop_last()) + match s.last().source_of().io_source() {
            Some(e) => seq![e],
            None => Seq::empty(),
        }
    }
}

/// The IO errors of an error followed by more errors.
proof fn lemma_io_errors_cons(e: PollError, s: Seq<PollError>)
    ensures
        io_errors(seq![e] + s) == (match e.source_of().io_source() {
            Some(x) => seq![x],
            None => Seq::<std::io::Error>::empty(),
        }) + io_errors(s),
    decreases s.len(),
{
    let head = match e.source_of().io_source() {
        Some(x) => seq![x],
        None => Seq::<std::io::Error>::empty(),
    };
    if s.len() == 0 {
        assert(seq![e] + s =~= seq![e]);
        assert(seq![e].drop_last() =~= Seq::<PollError>::empty());
        assert(seq![e].last() == e);
        assert(io_errors(Seq::<PollError>::empty()) == Seq::<std::io::Error>::empty());
        assert(head + io_errors(s) =~= head);
        assert(io_errors(seq![e]) =~= Seq::<std::io::Error>::empty() + head);
    } else {
        lemma_io_errors_cons(e, s.drop_last());
        assert((seq![e] + s).drop_last() =~= seq![e] + s.drop_last());
        assert((seq![e] + s).last() == s.last());
        let tail = match s.last().source_of().io_source() {
            Some(x) => seq![x],
            None => Seq::<std::io::Error>::empty(),
        };
        assert(head + io_errors(s.drop_last()) + tail =~= head + (io_errors(s.drop_last()) + tail));
    }
}

} // verus!
