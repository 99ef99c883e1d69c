//! Generic single-connection channel for sending and receiving data.
//!
//! The channel holds one framed connection with its local and peer
//! addresses; the reading and writing of frames is done on the connection
//! by the caller.

pub mod builder;
pub mod errors;
pub mod recv;

use vstd::prelude::*;
pub use builder::{channel_to, channel_on};
use std::marker::PhantomData;
use crate::util::SocketAddr;
use crate::util::split::Split;
use bytes::Bytes;
use errors::{UnsplitError, SinkError, channel_sink_error};
use recv::RecvFuture;
use crate::util::codec::EncodeMethod;
use crate::util::stream_pool::errors::SinkStep;
use crate::codec::length_delimited::Error as CodecError;

verus! {

/// A single framed connection `S`, carrying items `T` encoded by `E`.
#[derive(Debug)]
pub struct Channel<T, E, S> {
    framed: S,
    local_addr: SocketAddr,
    peer_addr: SocketAddr,
    _phantom: PhantomData<(T, E)>,
}

impl<T, E, S> Channel<T, E, S> {
    /// The framed connection.
    pub closed spec fn spec_framed(self) -> S {
        self.framed
    }

    /// The local address.
    pub closed spec fn spec_local_addr(self) -> SocketAddr {
        self.local_addr
    }

    /// The peer's address.
    pub closed spec fn spec_peer_addr(self) -> SocketAddr {
        self.peer_addr
    }

    /// A channel over the framed connection `framed`.
    pub fn new(framed: S, local_addr: SocketAddr, peer_addr: SocketAddr) -> (c: Self)
        ensures
            c.spec_framed() == framed,
            c.spec_local_addr() == local_addr,
            c.spec_peer_addr() == peer_addr,
    {
        Channel { framed, local_addr, peer_addr, _phantom: PhantomData }
    }

    /// Returns local address.
    pub fn local_addr(&self) -> (a: &SocketAddr)
        ensures
            *a == self.spec_local_addr(),
    {
        &self.local_addr
    }

    /// Returns peer address.
    pub fn peer_addr(&self) -> (a: &SocketAddr)
        ensures
            *a == self.spec_peer_addr(),
    {
        &self.peer_addr
    }

    /// Receive an item on the connection.
    pub fn recv(&mut self) -> (f: RecvFuture<'_, T, E, S>)
        ensures
            f.spec_channel() == *old(self),
    {
        RecvFuture::new(self)
    }

    /// Encodes `item` for sending with the codec `E`: gives the bytes that
    /// `E::encode` gave, or its error tagged with the channel's addresses.
    pub fn encode_item(&self, item: &T) -> (r: Result<Bytes, SinkError<E::Error>>)
        where
            E: EncodeMethod<T>,
        ensures
            r matches Ok(b) ==> call_ensures(E::encode, (item,), Ok::<Bytes, E::Error>(b)),
            r is Err ==> (r matches Err(SinkError::ItemEncode { addr, peer_addr, source }) && addr
                == self.spec_local_addr() && peer_addr == self.spec_peer_addr() && call_ensures(
                E::encode,
                (item,),
                Err::<Bytes, E::Error>(source),
            )),
    {
        match E::encode(item) {
            Ok(bytes) => Ok(bytes),
            Err(source) => Err(
                SinkError::ItemEncode { addr: self.local_addr, peer_addr: self.peer_addr, source },
            ),
        }
    }

    /// The outcome of the sending step `step` on the connection; its error
    /// is tagged with the channel's addresses.
    pub fn sink_result(&self, step: SinkStep, r: Result<(), CodecError>) -> (o: Result<(), SinkError<E::Error>>)
        where
            E: EncodeMethod<T>,
        ensures
            o == match r {
                Ok(_) => Ok::<(), SinkError<E::Error>>(()),
                Err(source) => Err(channel_sink_error(step, self.spec_local_addr(), self.spec_peer_addr(), source)),
            },
    {
        let addr = self.local_addr;
        let peer_addr = self.peer_addr;
        match r {
            Ok(_) => Ok(()),
            Err(source) => Err(match step {
                SinkStep::StartSend => SinkError::StartSend { addr, peer_addr, source },
                SinkStep::PollReady => SinkError::PollReady { addr, peer_addr, source },
                SinkStep::PollFlush => SinkError::PollFlush { addr, peer_addr, source },
                SinkStep::PollClose => SinkError::PollClose { addr, peer_addr, source },
            }),
        }
    }

    /// The framed connection, to read or write frames on.
    pub fn framed_mut(&mut self) -> (f: &mut S)
        ensures
            *f == old(self).spec_framed(),
            final(self).spec_framed() == *final(f),
            final(self).spec_local_addr() == old(self).spec_local_addr(),
            final(self).spec_peer_addr() == old(self).spec_peer_addr(),
    {
        &mut self.framed
    }
}

/// What uniting a receiving channel `left` and a sending channel `right`
/// gives: `UnequalLocalAddr` when their local addresses differ, else
/// `UnequalPeerAddr` when their peers differ; otherwise what uniting their
/// connections gave, `Ok` with the united connection and the addresses, or
/// `FramedUnsplit` with its error.
pub open spec fn unsplit_outcome<T, E, S: Split>(
    left: Channel<T, E, S::Left>,
    right: Channel<T, E, S::Right>,
    r: Result<Channel<T, E, S>, UnsplitError<S::Error>>,
) -> bool {
    if left.spec_local_addr() != right.spec_local_addr() {
        r == Err::<Channel<T, E, S>, UnsplitError<S::Error>>(
            UnsplitError::UnequalLocalAddr {
                l_local_addr: left.spec_local_addr(),
                r_local_addr: right.spec_local_addr(),
            },
        )
    } else if left.spec_peer_addr() != right.spec_peer_addr() {
        r == Err::<Channel<T, E, S>, UnsplitError<S::Error>>(
            UnsplitError::UnequalPeerAddr {
                l_peer_addr: left.spec_peer_addr(),
                r_peer_addr: right.spec_peer_addr(),
            },
        )
    } else {
        ||| (r matches Ok(c) && c.spec_local_addr() == left.spec_local_addr()
            && c.spec_peer_addr() == left.spec_peer_addr() && call_ensures(
            S::unsplit,
            (left.spec_framed(), right.spec_framed()),
            Ok::<S, S::Error>(c.spec_framed()),
        ))
        ||| (r matches Err(UnsplitError::FramedUnsplit { source }) && call_ensures(
            S::unsplit,
            (left.spec_framed(), right.spec_framed()),
            Err::<S, S::Error>(source),
        ))
    }
}

/// Splitting a channel and uniting its halves gives the channel back: when
/// its connection unites again with the halves it split into, uniting the
/// receiver and the sender succeeds, with the channel's addresses.
pub proof fn lemma_split_unsplit<T, E, S: Split>(
    channel: Channel<T, E, S>,
    left: Channel<T, E, S::Left>,
    right: Channel<T, E, S::Right>,
    united: Result<Channel<T, E, S>, UnsplitError<S::Error>>,
)
    requires
        left.spec_local_addr() == channel.spec_local_addr(),
        left.spec_peer_addr() == channel.spec_peer_addr(),
        right.spec_local_addr() == channel.spec_local_addr(),
        right.spec_peer_addr() == channel.spec_peer_addr(),
        call_ensures(S::split, (channel.spec_framed(),), (left.spec_framed(), right.spec_framed())),
        unsplit_outcome::<T, E, S>(left, right, united),
    ensures
        (forall|res: Result<S, S::Error>|
            #![trigger call_ensures(S::unsplit, (left.spec_framed(), right.spec_framed()), res)]
            call_ensures(S::unsplit, (left.spec_framed(), right.spec_framed()), res) ==> res is Ok)
            ==> (united matches Ok(c) && c.spec_local_addr() == channel.spec_local_addr()
            && c.spec_peer_addr() == channel.spec_peer_addr()),
{
}

impl<T, E, S: Split> Split for Channel<T, E, S> {
    type Left = crate::broadcast::Receiver<T, E, S::Left>;
    type Right = crate::mpsc::Sender<T, E, S::Right>;
    type Error = UnsplitError<S::Error>;

    /// Splits the connection into a receiver over the read half and a
    /// sender over the write half, each with the channel's addresses.
    fn split(self) -> (r: (Self::Left, Self::Right))
        ensures
            r.0.spec_channel().spec_local_addr() == self.spec_local_addr(),
            r.0.spec_channel().spec_peer_addr() == self.spec_peer_addr(),
            r.1.spec_channel().spec_local_addr() == self.spec_local_addr(),
            r.1.spec_channel().spec_peer_addr() == self.spec_peer_addr(),
            call_ensures(
                S::split,
                (self.spec_framed(),),
                (r.0.spec_channel().spec_framed(), r.1.spec_channel().spec_framed()),
            ),
    {
        let Channel { framed, local_addr, peer_addr, .. } = self;
        let (r, w) = framed.split();
        let r = Channel { framed: r, local_addr, peer_addr, _phantom: PhantomData };
        let w = Channel { framed: w, local_addr, peer_addr, _phantom: PhantomData };
        (crate::broadcast::Receiver::from(r), crate::mpsc::Sender::from(w))
    }

    /// Unites a receiver and a sender: they must have the same local
    /// address and the same peer address, and their connections must unite.
    fn unsplit(left: Self::Left, right: Self::Right) -> (r: Result<Self, Self::Error>)
        ensures
            unsplit_outcome::<T, E, S>(left.spec_channel(), right.spec_channel(), r),
    {
        let left = Channel::from(left);
        let right = Channel::from(right);
        let Channel { framed: l_framed, local_addr: l_local_addr, peer_addr: l_peer_addr, .. } =
            left;
        let Channel { framed: r_framed, local_addr: r_local_addr, peer_addr: r_peer_addr, .. } =
            right;

        if l_local_addr != r_local_addr {
            return Err(UnsplitError::UnequalLocalAddr { l_local_addr, r_local_addr });
        }
        if l_peer_addr != r_peer_addr {
            return Err(UnsplitError::UnequalPeerAddr { l_peer_addr, r_peer_addr });
        }
        let framed = match S::unsplit(l_framed, r_framed) {
            Ok(f) => f,
            Err(e) => return Err(UnsplitError::FramedUnsplit { source: e }),
        };
        Ok(Channel { framed, local_addr: l_local_addr, peer_addr: l_peer_addr, _phantom: PhantomData })
    }
}

} // verus!
