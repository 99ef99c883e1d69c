//! The futures that receive an item on a multi-connection channel.
//!
//! Each future holds the channel; the caller polls the channel's pool and
//! hands what it gave (a frame or the error of a connection, with the
//! peer's address, or nothing when the channel has no connection) to the
//! future's `ready`, which gives the future's output.

use vstd::prelude::*;
use bytes::BytesMut;
use super::Channel;
use super::accept::ChainedAcceptFuture;
use super::errors::StreamError;
use crate::util::SocketAddr;
use crate::util::codec::DecodeMethod;
use crate::util::stream_pool::errors::PollError;

verus! {

/// What the pool gave in `poll_next` ends a receive: nothing when the
/// channel has no connection, else a frame or the error of a connection.
pub type PoolItem = Option<(Result<BytesMut, PollError>, SocketAddr)>;

/// Receives the next item from any connection of the channel.
#[derive(Debug)]
pub struct RecvFuture<'pin, T, E, const N: usize, L, S> {
    channel: &'pin mut Channel<T, E, N, L, S>,
}

impl<'pin, T, E, const N: usize, L, S> RecvFuture<'pin, T, E, N, L, S> {
    /// The channel received on.
    pub closed spec fn spec_channel(self) -> Channel<T, E, N, L, S> {
        *self.channel
    }

    /// Receives on `channel`.
    pub fn new(channel: &'pin mut Channel<T, E, N, L, S>) -> (f: Self)
        ensures
            f.spec_channel() == *old(channel),
    {
        Self { channel }
    }

    /// The channel received on, to poll its pool.
    pub fn channel(&mut self) -> (c: &mut Channel<T, E, N, L, S>)
        ensures
            *c == old(self).spec_channel(),
    {
        &mut *self.channel
    }

    /// Also accept connections while receiving, as many as there is room
    /// for, calling `handle` with the address of each connection taken and
    /// taking only those whose address passes `filter`.
    pub fn accepting_with<H, F, LE>(self, handle: H, filter: F) -> (f: ChainedAcceptFuture<'pin, T, E, N, L, S, Self, H, F, LE>)
        requires
            self.spec_channel().wf(),
        ensures
            f.spec_fut() == self,
            f.spec_count().spec_num() == match self.spec_channel().spec_pool().spec_limit() {
                Some(l) => Some((l - self.spec_channel().spec_pool().entries().len()) as usize),
                None => None::<usize>,
            },
            f.spec_count().spec_accepted() == 0,
            f.spec_count().spec_err() is None,
            f.spec_handle() == handle,
            f.spec_filter() == filter,
    {
        let len = self.channel.len();
        let limit = self.channel.limit();
        ChainedAcceptFuture::new(self, len, limit, handle, filter)
    }


    /// Receive the frame undecoded.
    pub fn as_bytes(self) -> (f: AsBytesFuture<'pin, T, E, N, L, S>)
        ensures
            f.spec_channel() == self.spec_channel(),
    {
        AsBytesFuture { channel: self.channel }
    }

    /// Receive the item with the address of the peer that sent it.
    pub fn with_addr(self) -> (f: WithAddrFuture<'pin, T, E, N, L, S>)
        ensures
            f.spec_channel() == self.spec_channel(),
    {
        WithAddrFuture { channel: self.channel }
    }

    /// The output of the receive, given what the pool gave: nothing when
    /// the channel has no connection; the error of a connection tagged with
    /// its peer's address; or the decoded frame, whose decoding error is
    /// tagged with the peer's address.
    pub fn ready(&self, item: PoolItem) -> (r: Option<Result<T, StreamError<E::Error>>>)
        where
            E: DecodeMethod<T>,
        ensures
            item is None <==> r is None,
            item matches Some((Err(source), addr)) ==> r == Some(
                Err::<T, StreamError<E::Error>>(StreamError::StreamError { addr, source }),
            ),
            item matches Some((Ok(frame), _)) ==> (r matches Some(Ok(x)) ==> call_ensures(
                E::decode,
                (frame,),
                Ok::<T, E::Error>(x),
            )),
            item matches Some((Ok(frame), addr)) ==> (r matches Some(Err(e)) ==> e matches StreamError::ItemDecode { addr: a, source } && a == addr
                && call_ensures(E::decode, (frame,), Err::<T, E::Error>(source))),
    {
        match item {
            None => None,
            Some((Err(source), addr)) => Some(Err(StreamError::StreamError { addr, source })),
            Some((Ok(frame), addr)) => match E::decode(frame) {
                Ok(item) => Some(Ok(item)),
                Err(source) => Some(Err(StreamError::ItemDecode { addr, source })),
            },
        }
    }
}

/// Receives the next item from any connection of the channel, with the address of the peer that sent it.
#[derive(Debug)]
pub struct WithAddrFuture<'pin, T, E, const N: usize, L, S> {
    channel: &'pin mut Channel<T, E, N, L, S>,
}

impl<'pin, T, E, const N: usize, L, S> WithAddrFuture<'pin, T, E, N, L, S> {
    /// The channel received on.
    pub closed spec fn spec_channel(self) -> Channel<T, E, N, L, S> {
        *self.channel
    }

    /// Receives on `channel`.
    pub fn new(channel: &'pin mut Channel<T, E, N, L, S>) -> (f: Self)
        ensures
            f.spec_channel() == *old(channel),
    {
        Self { channel }
    }

    /// The channel received on, to poll its pool.
    pub fn channel(&mut self) -> (c: &mut Channel<T, E, N, L, S>)
        ensures
            *c == old(self).spec_channel(),
    {
        &mut *self.channel
    }

    /// Also accept connections while receiving, as many as there is room
    /// for, calling `handle` with the address of each connection taken and
    /// taking only those whose address passes `filter`.
    pub fn accepting_with<H, F, LE>(self, handle: H, filter: F) -> (f: ChainedAcceptFuture<'pin, T, E, N, L, S, Self, H, F, LE>)
        requires
            self.spec_channel().wf(),
        ensures
            f.spec_fut() == self,
            f.spec_count().spec_num() == match self.spec_channel().spec_pool().spec_limit() {
                Some(l) => Some((l - self.spec_channel().spec_pool().entries().len()) as usize),
                None => None::<usize>,
            },
            f.spec_count().spec_accepted() == 0,
            f.spec_count().spec_err() is None,
            f.spec_handle() == handle,
            f.spec_filter() == filter,
    {
        let len = self.channel.len();
        let limit = self.channel.limit();
        ChainedAcceptFuture::new(self, len, limit, handle, filter)
    }


    /// Receive the frame undecoded.
    pub fn as_bytes(self) -> (f: AsBytesWithAddrFuture<'pin, T, E, N, L, S>)
        ensures
            f.spec_channel() == self.spec_channel(),
    {
        AsBytesWithAddrFuture { channel: self.channel }
    }

    /// The output of the receive, given what the pool gave: nothing when
    /// the channel has no connection; the error of a connection tagged with
    /// its peer's address; or the decoded frame with the peer's address,
    /// whose decoding error is tagged with the peer's address.
    pub fn ready(&self, item: PoolItem) -> (r: Option<Result<(T, SocketAddr), StreamError<E::Error>>>)
        where
            E: DecodeMethod<T>,
        ensures
            item is None <==> r is None,
            item matches Some((Err(source), addr)) ==> r == Some(
                Err::<(T, SocketAddr), StreamError<E::Error>>(StreamError::StreamError { addr, source }),
            ),
            item matches Some((Ok(frame), addr)) ==> (r matches Some(Ok(x)) ==> x.1 == addr
                && call_ensures(E::decode, (frame,), Ok::<T, E::Error>(x.0))),
            item matches Some((Ok(frame), addr)) ==> (r matches Some(Err(e)) ==> e matches StreamError::ItemDecode { addr: a, source } && a == addr
                && call_ensures(E::decode, (frame,), Err::<T, E::Error>(source))),
    {
        match item {
            None => None,
            Some((Err(source), addr)) => Some(Err(StreamError::StreamError { addr, source })),
            Some((Ok(frame), addr)) => match E::decode(frame) {
                Ok(item) => Some(Ok((item, addr))),
                Err(source) => Some(Err(StreamError::ItemDecode { addr, source })),
            },
        }
    }
}

/// Receives the next frame from any connection of the channel, undecoded.
#[derive(Debug)]
pub struct AsBytesFuture<'pin, T, E, const N: usize, L, S> {
    channel: &'pin mut Channel<T, E, N, L, S>,
}

impl<'pin, T, E, const N: usize, L, S> AsBytesFuture<'pin, T, E, N, L, S> {
    /// The channel received on.
    pub closed spec fn spec_channel(self) -> Channel<T, E, N, L, S> {
        *self.channel
    }

    /// Receives on `channel`.
    pub fn new(channel: &'pin mut Channel<T, E, N, L, S>) -> (f: Self)
        ensures
            f.spec_channel() == *old(channel),
    {
        Self { channel }
    }

    /// The channel received on, to poll its pool.
    pub fn channel(&mut self) -> (c: &mut Channel<T, E, N, L, S>)
        ensures
            *c == old(self).spec_channel(),
    {
        &mut *self.channel
    }

    /// Also accept connections while receiving, as many as there is room
    /// for, calling `handle` with the address of each connection taken and
    /// taking only those whose address passes `filter`.
    pub fn accepting_with<H, F, LE>(self, handle: H, filter: F) -> (f: ChainedAcceptFuture<'pin, T, E, N, L, S, Self, H, F, LE>)
        requires
            self.spec_channel().wf(),
        ensures
            f.spec_fut() == self,
            f.spec_count().spec_num() == match self.spec_channel().spec_pool().spec_limit() {
                Some(l) => Some((l - self.spec_channel().spec_pool().entries().len()) as usize),
                None => None::<usize>,
            },
            f.spec_count().spec_accepted() == 0,
            f.spec_count().spec_err() is None,
            f.spec_handle() == handle,
            f.spec_filter() == filter,
    {
        let len = self.channel.len();
        let limit = self.channel.limit();
        ChainedAcceptFuture::new(self, len, limit, handle, filter)
    }


    /// Receive the frame with the address of the peer that sent it.
    pub fn with_addr(self) -> (f: AsBytesWithAddrFuture<'pin, T, E, N, L, S>)
        ensures
            f.spec_channel() == self.spec_channel(),
    {
        AsBytesWithAddrFuture { channel: self.channel }
    }

    /// The output of the receive, given what the pool gave: nothing when
    /// the channel has no connection; the error of a connection tagged with
    /// its peer's address; or the frame.
    pub fn ready(&self, item: PoolItem) -> (r: Option<Result<BytesMut, StreamError<E::Error>>>)
        where
            E: DecodeMethod<T>,
        ensures
            r == match item {
                None => None,
                Some((Err(source), addr)) => Some(
                    Err::<BytesMut, StreamError<E::Error>>(StreamError::StreamError { addr, source }),
                ),
                Some((Ok(frame), _)) => Some(Ok::<BytesMut, StreamError<E::Error>>(frame)),
            },
    {
        match item {
            None => None,
            Some((Err(source), addr)) => Some(Err(StreamError::StreamError { addr, source })),
            Some((Ok(frame), _)) => Some(Ok(frame)),
        }
    }
}

/// Receives the next frame from any connection of the channel, undecoded, with the address of the peer that sent it.
#[derive(Debug)]
pub struct AsBytesWithAddrFuture<'pin, T, E, const N: usize, L, S> {
    channel: &'pin mut Channel<T, E, N, L, S>,
}

impl<'pin, T, E, const N: usize, L, S> AsBytesWithAddrFuture<'pin, T, E, N, L, S> {
    /// The channel received on.
    pub closed spec fn spec_channel(self) -> Channel<T, E, N, L, S> {
        *self.channel
    }

    /// Receives on `channel`.
    pub fn new(channel: &'pin mut Channel<T, E, N, L, S>) -> (f: Self)
        ensures
            f.spec_channel() == *old(channel),
    {
        Self { channel }
    }

    /// The channel received on, to poll its pool.
    pub fn channel(&mut self) -> (c: &mut Channel<T, E, N, L, S>)
        ensures
            *c == old(self).spec_channel(),
    {
        &mut *self.channel
    }

    /// Also accept connections while receiving, as many as there is room
    /// for, calling `handle` with the address of each connection taken and
    /// taking only those whose address passes `filter`.
    pub fn accepting_with<H, F, LE>(self, handle: H, filter: F) -> (f: ChainedAcceptFuture<'pin, T, E, N, L, S, Self, H, F, LE>)
        requires
            self.spec_channel().wf(),
        ensures
            f.spec_fut() == self,
            f.spec_count().spec_num() == match self.spec_channel().spec_pool().spec_limit() {
                Some(l) => Some((l - self.spec_channel().spec_pool().entries().len()) as usize),
                None => None::<usize>,
            },
            f.spec_count().spec_accepted() == 0,
            f.spec_count().spec_err() is None,
            f.spec_handle() == handle,
            f.spec_filter() == filter,
    {
        let len = self.channel.len();
        let limit = self.channel.limit();
        ChainedAcceptFuture::new(self, len, limit, handle, filter)
    }


    /// The output of the receive, given what the pool gave: nothing when
    /// the channel has no connection; the error of a connection tagged with
    /// its peer's address; or the frame with the peer's address.
    pub fn ready(&self, item: PoolItem) -> (r: Option<Result<(BytesMut, SocketAddr), StreamError<E::Error>>>)
        where
            E: DecodeMethod<T>,
        ensures
            r == match item {
                None => None,
                Some((Err(source), addr)) => Some(
                    Err::<(BytesMut, SocketAddr), StreamError<E::Error>>(StreamError::StreamError { addr, source }),
                ),
                Some((Ok(frame), addr)) => Some(Ok::<(BytesMut, SocketAddr), StreamError<E::Error>>((frame, addr))),
            },
    {
        match item {
            None => None,
            Some((Err(source), addr)) => Some(Err(StreamError::StreamError { addr, source })),
            Some((Ok(frame), addr)) => Some(Ok((frame, addr))),
        }
    }
}

} // verus!
