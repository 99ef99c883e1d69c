//! The future that receives an item on a channel.

use vstd::prelude::*;
use bytes::BytesMut;
use super::Channel;
use super::errors::StreamError;
use crate::util::codec::DecodeMethod;
use crate::codec::length_delimited::Error as CodecError;

verus! {

/// The future that receives the next item on a channel. The caller polls
/// the channel's connection and hands what it gave (a frame, an error, or
/// nothing once the connection is closed) to `ready`, which gives the
/// future's output.
#[derive(Debug)]
pub struct RecvFuture<'pin, T, E, S> {
    channel: &'pin mut Channel<T, E, S>,
}

impl<'pin, T, E, S> RecvFuture<'pin, T, E, S> {
    /// The channel received on.
    pub closed spec fn spec_channel(self) -> Channel<T, E, S> {
        *self.channel
    }

    /// Receives on `channel`.
    pub fn new(channel: &'pin mut Channel<T, E, S>) -> (f: Self)
        ensures
            f.spec_channel() == *old(channel),
    {
        Self { channel }
    }

    /// The channel received on.
    pub fn channel(&mut self) -> (c: &mut Channel<T, E, S>)
        ensures
            *c == old(self).spec_channel(),
    {
        &mut *self.channel
    }

    /// Receive the frame undecoded.
    pub fn as_bytes(self) -> (f: AsBytesFuture<'pin, T, E, S>)
        ensures
            f.spec_channel() == self.spec_channel(),
    {
        AsBytesFuture { channel: self.channel }
    }

    /// The output of the receive, given what the connection gave: nothing
    /// once it is closed; its error, tagged with the channel's addresses; or
    /// the decoded frame, whose decoding error is tagged with the channel's
    /// addresses.
    pub fn ready(&self, item: Option<Result<BytesMut, CodecError>>) -> (r: Option<Result<T, StreamError<E::Error>>>)
        where
            E: DecodeMethod<T>,
        ensures
            item is None <==> r is None,
            item matches Some(Err(source)) ==> r == Some(Err::<T, StreamError<E::Error>>(
                StreamError::PollNext {
                    addr: self.spec_channel().spec_local_addr(),
                    peer_addr: self.spec_channel().spec_peer_addr(),
                    source,
                },
            )),
            item matches Some(Ok(frame)) ==> (r matches Some(Ok(x)) ==> call_ensures(
                E::decode,
                (frame,),
                Ok::<T, E::Error>(x),
            )),
            item matches Some(Ok(frame)) ==> (r matches Some(Err(e)) ==> (e matches StreamError::ItemDecode { addr, peer_addr, source }
                && addr == self.spec_channel().spec_local_addr()
                && peer_addr == self.spec_channel().spec_peer_addr()
                && call_ensures(E::decode, (frame,), Err::<T, E::Error>(source)))),
    {
        let addr = *self.channel.local_addr();
        let peer_addr = *self.channel.peer_addr();
        match item {
            None => None,
            Some(Err(source)) => Some(Err(StreamError::PollNext { addr, peer_addr, source })),
            Some(Ok(frame)) => match E::decode(frame) {
                Ok(item) => Some(Ok(item)),
                Err(source) => Some(Err(StreamError::ItemDecode { addr, peer_addr, source })),
            },
        }
    }
}

/// The future that receives the next frame on a channel, undecoded.
#[derive(Debug)]
pub struct AsBytesFuture<'pin, T, E, S> {
    channel: &'pin mut Channel<T, E, S>,
}

impl<'pin, T, E, S> AsBytesFuture<'pin, T, E, S> {
    /// The channel received on.
    pub closed spec fn spec_channel(self) -> Channel<T, E, S> {
        *self.channel
    }

    /// The channel received on.
    pub fn channel(&mut self) -> (c: &mut Channel<T, E, S>)
        ensures
            *c == old(self).spec_channel(),
    {
        &mut *self.channel
    }

    /// The output of the receive, given what the connection gave: nothing
    /// once it is closed; its error, tagged with the channel's addresses; or
    /// the frame.
    pub fn ready(&self, item: Option<Result<BytesMut, CodecError>>) -> (r: Option<Result<BytesMut, StreamError<E::Error>>>)
        where
            E: DecodeMethod<T>,
        ensures
            r == match item {
                None => None,
                Some(Err(source)) => Some(Err::<BytesMut, StreamError<E::Error>>(
                    StreamError::PollNext {
                        addr: self.spec_channel().spec_local_addr(),
                        peer_addr: self.spec_channel().spec_peer_addr(),
                        source,
                    },
                )),
                Some(Ok(frame)) => Some(Ok::<BytesMut, StreamError<E::Error>>(frame)),
            },
    {
        let addr = *self.channel.local_addr();
        let peer_addr = *self.channel.peer_addr();
        match item {
            None => None,
            Some(Err(source)) => Some(Err(StreamError::PollNext { addr, peer_addr, source })),
            Some(Ok(frame)) => Some(Ok(frame)),
        }
    }
}

} // verus!
