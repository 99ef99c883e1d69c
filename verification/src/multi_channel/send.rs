//! The steps of the sending futures of a channel.
//!
//! Sending an item is three steps: wait until every connection is ready,
//! start sending the item on every connection, and flush them all. A
//! filtered send does the same on the connections whose peer passes the
//! filter, which it picks afresh before waiting and before flushing.

use vstd::prelude::*;
use bytes::Bytes;
use super::Channel;
use super::accept::ChainedAcceptFuture;
use super::errors::SinkError;
use crate::util::SocketAddr;
use crate::util::codec::EncodeMethod;
use crate::util::stream_pool::{increasing_below, swap_removed};
use crate::util::stream_pool::errors::{SinkErrors, SinkStep, sink_error};
use crate::codec::length_delimited::Error as CodecError;

verus! {

/// The step a send is at.
#[derive(Debug, Clone, Copy, PartialEq, Eq, Structural)]
pub enum State {
    /// Waiting for the connections to be ready.
    Ready,
    /// Starting to send the item.
    StartSend,
    /// Flushing the connections.
    Flush,
    /// Finished.
    Done,
}

/// The step that follows `s`.
pub open spec fn next_state(s: State) -> State {
    match s {
        State::Ready => State::StartSend,
        State::StartSend => State::Flush,
        State::Flush => State::Done,
        State::Done => State::Done,
    }
}

impl State {
    /// The first step of a send.
    pub fn new() -> (s: Self)
        ensures
            s == State::Ready,
    {
        State::Ready
    }

    /// The step that follows this one.
    pub fn next(self) -> (s: Self)
        ensures
            s == next_state(self),
    {
        match self {
            State::Ready => State::StartSend,
            State::StartSend => State::Flush,
            State::Flush => State::Done,
            State::Done => Self::Done,
        }
    }
}

/// Whether a filtered send must pick its connections before going on.
#[derive(Debug, Clone, Copy, PartialEq, Eq, Structural)]
pub enum FilterState {
    /// The connections are to be picked.
    GetIndices,
    /// The connections are picked; poll them.
    Poll,
}

impl FilterState {
    /// A filtered send starts by picking its connections.
    pub fn new() -> (s: Self)
        ensures
            s == FilterState::GetIndices,
    {
        FilterState::GetIndices
    }
}

/// What a filtered send does next.
#[derive(Debug, Clone, Copy, PartialEq, Eq, Structural)]
pub enum FilteredAction {
    /// Pick the connections whose peer passes the filter; when the channel
    /// has no connection, finish with the collected errors.
    GetIndices,
    /// Wait until the picked connections are ready.
    PollReady,
    /// Encode the item and start sending it on the connections whose peer
    /// passes the filter.
    StartSend,
    /// Flush the picked connections.
    PollFlush,
    /// Finish with the collected errors.
    Finish,
}

/// What a filtered send at step `s`, with its connections picked or not,
/// does next.
pub open spec fn filtered_action(s: State, f: FilterState) -> FilteredAction {
    match (s, f) {
        (State::Ready, FilterState::Poll) => FilteredAction::PollReady,
        (State::StartSend, _) => FilteredAction::StartSend,
        (State::Flush, FilterState::Poll) => FilteredAction::PollFlush,
        (State::Done, _) => FilteredAction::Finish,
        (_, FilterState::GetIndices) => FilteredAction::GetIndices,
    }
}

/// The steps of a filtered send.
#[derive(Debug, Clone, Copy)]
pub struct FilteredSteps {
    state: State,
    filter_state: FilterState,
}

impl FilteredSteps {
    /// The step of the send.
    pub closed spec fn spec_state(self) -> State {
        self.state
    }

    /// Whether the connections are picked.
    pub closed spec fn spec_filter_state(self) -> FilterState {
        self.filter_state
    }

    /// A filtered send that has not started.
    pub fn new() -> (s: Self)
        ensures
            s.spec_state() == State::Ready,
            s.spec_filter_state() == FilterState::GetIndices,
    {
        FilteredSteps { state: State::new(), filter_state: FilterState::new() }
    }

    /// What the send does next.
    pub fn action(&self) -> (a: FilteredAction)
        ensures
            a == filtered_action(self.spec_state(), self.spec_filter_state()),
    {
        match (self.state, self.filter_state) {
            (State::Ready, FilterState::Poll) => FilteredAction::PollReady,
            (State::StartSend, _) => FilteredAction::StartSend,
            (State::Flush, FilterState::Poll) => FilteredAction::PollFlush,
            (State::Done, _) => FilteredAction::Finish,
            (_, FilterState::GetIndices) => FilteredAction::GetIndices,
        }
    }

    /// The action that `action` gave is done: after waiting, start sending;
    /// after sending, pick the connections again and flush; after flushing,
    /// finish; after picking, poll.
    pub fn complete(&mut self)
        ensures
            ({
                let s = old(self).spec_state();
                let f = old(self).spec_filter_state();
                match filtered_action(s, f) {
                    FilteredAction::PollReady => final(self).spec_state() == next_state(s)
                        && final(self).spec_filter_state() == f,
                    FilteredAction::StartSend => final(self).spec_state() == next_state(s)
                        && final(self).spec_filter_state() == FilterState::GetIndices,
                    FilteredAction::PollFlush => final(self).spec_state() == State::Done
                        && final(self).spec_filter_state() == f,
                    FilteredAction::GetIndices => final(self).spec_state() == s
                        && final(self).spec_filter_state() == FilterState::Poll,
                    FilteredAction::Finish => *final(self) == *old(self),
                }
            }),
    {
        match self.action() {
            FilteredAction::PollReady => {
                // go to start_send state without renewing indices
                self.state = self.state.next();
            },
            FilteredAction::StartSend => {
                // go to next state and get indices first
                self.state = self.state.next();
                self.filter_state = FilterState::GetIndices;
            },
            FilteredAction::PollFlush => {
                self.state = State::Done;
            },
            FilteredAction::GetIndices => {
                self.filter_state = FilterState::Poll;
            },
            FilteredAction::Finish => {},
        }
    }
}

/// How far a filtered send is from finishing.
pub open spec fn steps_left(s: State, f: FilterState) -> nat {
    let base: nat = match s {
        State::Ready => 6,
        State::StartSend => 4,
        State::Flush => 2,
        State::Done => 0,
    };
    if f == FilterState::GetIndices {
        base + 1
    } else {
        base
    }
}

/// A filtered send always finishes: every action but the last moves it
/// strictly closer to finishing, and a finished send stays finished.
pub proof fn lemma_filtered_send_progress(s: State, f: FilterState)
    ensures
        ({
            let a = filtered_action(s, f);
            let (s2, f2) = match a {
                FilteredAction::PollReady => (next_state(s), f),
                FilteredAction::StartSend => (next_state(s), FilterState::GetIndices),
                FilteredAction::PollFlush => (State::Done, f),
                FilteredAction::GetIndices => (s, FilterState::Poll),
                FilteredAction::Finish => (s, f),
            };
            &&& a != FilteredAction::Finish ==> steps_left(s2, f2) < steps_left(s, f)
            &&& a == FilteredAction::Finish <==> s == State::Done
            &&& next_state(State::Done) == State::Done
        }),
{
}

/// A send goes through its steps in order: it waits for the connections,
/// starts sending, flushes, and is then done, three steps after it began;
/// it is done at no earlier step, and once done it stays done.
pub proof fn lemma_send_steps()
    ensures
        next_state(State::Ready) == State::StartSend,
        next_state(State::StartSend) == State::Flush,
        next_state(State::Flush) == State::Done,
        next_state(State::Done) == State::Done,
        forall|s: State| s != State::Done ==> #[trigger] next_state(s) != s,
{
}

/// A filtered send picks its connections before waiting on them and
/// before flushing them, and picks them again after starting to send:
/// from its first step, its actions are, in order, pick, wait, start
/// sending, pick, flush and finish.
pub proof fn lemma_filtered_send_order()
    ensures
        filtered_action(State::Ready, FilterState::GetIndices) == FilteredAction::GetIndices,
        filtered_action(State::Ready, FilterState::Poll) == FilteredAction::PollReady,
        filtered_action(State::StartSend, FilterState::Poll) == FilteredAction::StartSend,
        filtered_action(State::StartSend, FilterState::GetIndices) == FilteredAction::StartSend,
        filtered_action(State::Flush, FilterState::GetIndices) == FilteredAction::GetIndices,
        filtered_action(State::Flush, FilterState::Poll) == FilteredAction::PollFlush,
        forall|f: FilterState| #[trigger] filtered_action(State::Done, f) == FilteredAction::Finish,
{
}

/// Whether `addr` is one of `addrs`.
pub fn contains_addr(addrs: &[SocketAddr], addr: SocketAddr) -> (b: bool)
    ensures
        b == addrs@.contains(addr),
{
    let mut i: usize = 0;
    while i < addrs.len()
        invariant
            i <= addrs@.len(),
            forall|j: int| 0 <= j < i ==> addrs@[j] != addr,
        decreases addrs@.len() - i,
    {
        if addrs[i] == addr {
            return true;
        }
        i += 1;
    }
    false
}

/// The error of a send on a channel at `local_addr`, once the connections
/// have been sent to: the errors of the failed connections, if any.
pub open spec fn sink_result<X>(r: Result<(), SinkErrors>, local_addr: SocketAddr) -> Result<(), SinkError<X>> {
    match r {
        Ok(_) => Ok(()),
        Err(source) => Err(SinkError::SinkErrors { addr: local_addr, source }),
    }
}

/// Tags the errors of the failed connections with the local address.
fn tag_sink_errors<X>(r: Result<(), SinkErrors>, local_addr: SocketAddr) -> (o: Result<(), SinkError<X>>)
    ensures
        o == sink_result::<X>(r, local_addr),
{
    match r {
        Ok(_) => Ok(()),
        Err(source) => Err(SinkError::SinkErrors { addr: local_addr, source }),
    }
}

/// Sends an item to every connection of a channel. The caller waits on
/// the connections, starts sending, and flushes, as `state` says; the
/// item is encoded by `encode_item`.
#[derive(Debug)]
pub struct SendFuture<'pin, T, E, const N: usize, L, S> {
    state: State,
    item: Option<T>,
    channel: &'pin mut Channel<T, E, N, L, S>,
}

impl<'pin, T, E, const N: usize, L, S> SendFuture<'pin, T, E, N, L, S> {
    /// The step the send is at.
    pub closed spec fn spec_state(self) -> State {
        self.state
    }

    /// The item, until it is encoded.
    pub closed spec fn spec_item(self) -> Option<T> {
        self.item
    }

    /// The channel sent on.
    pub closed spec fn spec_channel(self) -> Channel<T, E, N, L, S> {
        *self.channel
    }

    /// Sends `item` on `channel`.
    pub fn new(channel: &'pin mut Channel<T, E, N, L, S>, item: T) -> (f: Self)
        ensures
            f.spec_state() == State::Ready,
            f.spec_item() == Some(item),
            f.spec_channel() == *old(channel),
    {
        SendFuture { state: State::new(), item: Some(item), channel }
    }

    /// Send only to the peers whose address is in `addrs`.
    pub fn to<'a>(self, addrs: &'a [SocketAddr]) -> (f: SendFilteredFuture<'pin, T, E, N, L, S, impl Fn(SocketAddr) -> bool + 'a>)
        requires
            self.spec_item() is Some,
        ensures
            f.spec_item() == self.spec_item(),
            f.spec_channel() == self.spec_channel(),
            f.spec_steps().spec_state() == State::Ready,
            f.spec_steps().spec_filter_state() == FilterState::GetIndices,
            f.spec_indices().len() == 0,
            forall|a: SocketAddr| #[trigger] call_requires(f.spec_filter(), (a,)),
            forall|a: SocketAddr, r: bool| #[trigger] call_ensures(f.spec_filter(), (a,), r) ==> r == addrs@.contains(a),
    {
        let SendFuture { item, channel, .. } = self;
        let listed = move |a: SocketAddr| -> (r: bool)
            ensures
                r == addrs@.contains(a),
            {
                contains_addr(addrs, a)
            };
        SendFilteredFuture::new(channel, item.unwrap(), listed)
    }

    /// Send only to the peers whose address passes `filter`.
    pub fn filter<F>(self, filter: F) -> (f: SendFilteredFuture<'pin, T, E, N, L, S, F>)
        requires
            self.spec_item() is Some,
        ensures
            f.spec_item() == self.spec_item(),
            f.spec_filter() == filter,
            f.spec_channel() == self.spec_channel(),
            f.spec_steps().spec_state() == State::Ready,
            f.spec_steps().spec_filter_state() == FilterState::GetIndices,
            f.spec_indices().len() == 0,
    {
        let SendFuture { item, channel, .. } = self;
        SendFilteredFuture::new(channel, item.unwrap(), filter)
    }

    /// Also accept connections while sending, as many as there is room
    /// for, calling `handle` with the address of each connection taken and
    /// taking only those whose address passes `filter`.
    pub fn accepting_with<H, F, LE>(self, handle: H, filter: F) -> (f: ChainedAcceptFuture<'pin, T, E, N, L, S, Self, H, F, LE>)
        requires
            self.spec_channel().wf(),
        ensures
            f.spec_fut() == self,
            f.spec_count().spec_num() == match self.spec_channel().spec_pool().spec_limit() {
                Some(l) => Some((l - self.spec_channel().spec_pool().entries().len()) as usize),
                None => None::<usize>,
            },
            f.spec_count().spec_accepted() == 0,
            f.spec_count().spec_err() is None,
            f.spec_handle() == handle,
            f.spec_filter() == filter,
    {
        let len = self.channel.len();
        let limit = self.channel.limit();
        ChainedAcceptFuture::new(self, len, limit, handle, filter)
    }


    /// The step the send is at.
    pub fn state(&self) -> (s: State)
        ensures
            s == self.spec_state(),
    {
        self.state
    }

    /// The step is done: go on to the next one.
    pub fn advance(&mut self)
        ensures
            final(self).spec_state() == next_state(old(self).spec_state()),
            final(self).spec_item() == old(self).spec_item(),
            final(self).spec_channel() == old(self).spec_channel(),
    {
        self.state = self.state.next();
    }

    /// The channel sent on, to poll its pool.
    pub fn channel(&mut self) -> (c: &mut Channel<T, E, N, L, S>)
        ensures
            *c == old(self).spec_channel(),
    {
        &mut *self.channel
    }

    /// Whether the item is still to be encoded.
    pub fn has_item(&self) -> (b: bool)
        ensures
            b == self.spec_item() is Some,
    {
        self.item.is_some()
    }

    /// Encodes the item, which is then gone; an encoding error is tagged
    /// with the channel's local address.
    pub fn encode_item(&mut self) -> (r: Result<Bytes, SinkError<E::Error>>)
        where
            E: EncodeMethod<T>,
        requires
            old(self).spec_item() is Some,
        ensures
            final(self).spec_item() is None,
            final(self).spec_state() == old(self).spec_state(),
            final(self).spec_channel() == old(self).spec_channel(),
            r matches Ok(b) ==> call_ensures(E::encode, (&old(self).spec_item()->Some_0,), Ok::<Bytes, E::Error>(b)),
            r matches Err(e) ==> e matches SinkError::ItemEncode { addr, source } && addr
                == old(self).spec_channel().spec_local_addr() && call_ensures(
                E::encode,
                (&old(self).spec_item()->Some_0,),
                Err::<Bytes, E::Error>(source),
            ),
    {
        let addr = *self.channel.local_addr();
        let item = self.item.take().unwrap();
        match E::encode(&item) {
            Ok(bytes) => Ok(bytes),
            Err(source) => Err(SinkError::ItemEncode { addr, source }),
        }
    }

    /// The outcome of a step on all the connections, tagged with the
    /// channel's local address.
    pub fn sink_result(&self, r: Result<(), SinkErrors>) -> (o: Result<(), SinkError<E::Error>>)
        where
            E: EncodeMethod<T>,
        ensures
            o == sink_result::<E::Error>(r, self.spec_channel().spec_local_addr()),
    {
        tag_sink_errors(r, *self.channel.local_addr())
    }
}

/// Sends an item to the connections of a channel whose peer's address
/// passes a filter. The caller does what `action` says; the connections
/// are picked by `pick`, and settled one by one by `settle`.
#[derive(Debug)]
pub struct SendFilteredFuture<'pin, T, E, const N: usize, L, S, F> {
    steps: FilteredSteps,
    item: Option<T>,
    filter: F,
    indices: Vec<usize>,
    channel: &'pin mut Channel<T, E, N, L, S>,
}

impl<'pin, T, E, const N: usize, L, S, F> SendFilteredFuture<'pin, T, E, N, L, S, F> {
    /// The steps of the send.
    pub closed spec fn spec_steps(self) -> FilteredSteps {
        self.steps
    }

    /// The item, until it is encoded.
    pub closed spec fn spec_item(self) -> Option<T> {
        self.item
    }

    /// The filter on the peers' addresses.
    pub closed spec fn spec_filter(self) -> F {
        self.filter
    }

    /// The picked connections not settled yet, in increasing order.
    pub closed spec fn spec_indices(self) -> Seq<usize> {
        self.indices@
    }

    /// The channel sent on.
    pub closed spec fn spec_channel(self) -> Channel<T, E, N, L, S> {
        *self.channel
    }

    /// The channel keeps to its limit, and the picked connections are
    /// connections of the channel, in increasing order.
    pub open spec fn wf(self) -> bool {
        &&& self.spec_channel().wf()
        &&& increasing_below(self.spec_indices(), self.spec_channel().spec_pool().entries().len())
    }

    fn new(channel: &'pin mut Channel<T, E, N, L, S>, item: T, filter: F) -> (f: Self)
        ensures
            f.spec_item() == Some(item),
            f.spec_filter() == filter,
            f.spec_channel() == *old(channel),
            f.spec_steps().spec_state() == State::Ready,
            f.spec_steps().spec_filter_state() == FilterState::GetIndices,
            f.spec_indices().len() == 0,
    {
        SendFilteredFuture {
            steps: FilteredSteps::new(),
            item: Some(item),
            filter,
            indices: Vec::new(),
            channel,
        }
    }

    /// Also accept connections while sending, as many as there is room
    /// for, calling `handle` with the address of each connection taken and
    /// taking only those whose address passes `filter`.
    pub fn accepting_with<H, F2, LE>(self, handle: H, filter: F2) -> (f: ChainedAcceptFuture<'pin, T, E, N, L, S, Self, H, F2, LE>)
        requires
            self.spec_channel().wf(),
        ensures
            f.spec_fut() == self,
            f.spec_count().spec_num() == match self.spec_channel().spec_pool().spec_limit() {
                Some(l) => Some((l - self.spec_channel().spec_pool().entries().len()) as usize),
                None => None::<usize>,
            },
            f.spec_count().spec_accepted() == 0,
            f.spec_count().spec_err() is None,
            f.spec_handle() == handle,
            f.spec_filter() == filter,
    {
        let len = self.channel.len();
        let limit = self.channel.limit();
        ChainedAcceptFuture::new(self, len, limit, handle, filter)
    }


    /// What the send does next.
    pub fn action(&self) -> (a: FilteredAction)
        ensures
            a == filtered_action(self.spec_steps().spec_state(), self.spec_steps().spec_filter_state()),
    {
        self.steps.action()
    }

    /// The action that `action` gave is done.
    pub fn complete(&mut self)
        ensures
            ({
                let s = old(self).spec_steps().spec_state();
                let f = old(self).spec_steps().spec_filter_state();
                match filtered_action(s, f) {
                    FilteredAction::PollReady => final(self).spec_steps().spec_state() == next_state(s)
                        && final(self).spec_steps().spec_filter_state() == f,
                    FilteredAction::StartSend => final(self).spec_steps().spec_state() == next_state(s)
                        && final(self).spec_steps().spec_filter_state() == FilterState::GetIndices,
                    FilteredAction::PollFlush => final(self).spec_steps().spec_state() == State::Done
                        && final(self).spec_steps().spec_filter_state() == f,
                    FilteredAction::GetIndices => final(self).spec_steps().spec_state() == s
                        && final(self).spec_steps().spec_filter_state() == FilterState::Poll,
                    FilteredAction::Finish => final(self).spec_steps() == old(self).spec_steps(),
                }
            }),
            final(self).spec_item() == old(self).spec_item(),
            final(self).spec_filter() == old(self).spec_filter(),
            final(self).spec_indices() == old(self).spec_indices(),
            final(self).spec_channel() == old(self).spec_channel(),
    {
        self.steps.complete();
    }

    /// The filter, to call on the peers' addresses.
    pub fn filter_ref(&self) -> (f: &F)
        ensures
            *f == self.spec_filter(),
    {
        &self.filter
    }

    /// The channel's peers' addresses, in the order of the connections, to
    /// call the filter on.
    pub fn peer_addrs(&self) -> (v: Vec<SocketAddr>)
        ensures
            v@ == self.spec_channel().spec_pool().addr_seq(),
    {
        self.channel.peer_addrs()
    }

    /// Picks the connections whose entry in `passes` is true: `passes`
    /// holds, for each connection in order, whether its peer passed the
    /// filter.
    pub fn pick(&mut self, passes: &Vec<bool>)
        requires
            old(self).spec_channel().wf(),
            passes@.len() == old(self).spec_channel().spec_pool().entries().len(),
        ensures
            final(self).wf(),
            forall|i: int| 0 <= i < passes@.len() ==> (final(self).spec_indices().contains(i as usize) <==> passes@[i]),
            final(self).spec_steps() == old(self).spec_steps(),
            final(self).spec_item() == old(self).spec_item(),
            final(self).spec_filter() == old(self).spec_filter(),
            final(self).spec_channel() == old(self).spec_channel(),
    {
        let indices = self.channel.stream_pool_mut().indices_where(passes);
        self.indices = indices;
    }

    /// The last picked connection not settled yet, if any.
    pub fn next_index(&self) -> (i: Option<usize>)
        ensures
            self.spec_indices().len() == 0 ==> i is None,
            self.spec_indices().len() > 0 ==> i == Some(self.spec_indices().last()),
    {
        if self.indices.len() > 0 {
            Some(self.indices[self.indices.len() - 1])
        } else {
            None
        }
    }

    /// The channel sent on, to reach the picked connections.
    pub fn channel(&mut self) -> (c: &mut Channel<T, E, N, L, S>)
        ensures
            *c == old(self).spec_channel(),
            final(self).spec_channel() == *final(c),
            final(self).spec_steps() == old(self).spec_steps(),
            final(self).spec_item() == old(self).spec_item(),
            final(self).spec_filter() == old(self).spec_filter(),
            final(self).spec_indices() == old(self).spec_indices(),
    {
        &mut *self.channel
    }

    /// Settles the last picked connection, which became ready at `step` or
    /// failed, in which case it is removed and its error collected.
    pub fn settle(&mut self, result: Result<(), CodecError>, step: SinkStep)
        requires
            old(self).wf(),
            old(self).spec_indices().len() > 0,
        ensures
            final(self).wf(),
            final(self).spec_indices() == old(self).spec_indices().drop_last(),
            final(self).spec_steps() == old(self).spec_steps(),
            final(self).spec_item() == old(self).spec_item(),
            final(self).spec_filter() == old(self).spec_filter(),
            final(self).spec_channel().spec_local_addr() == old(self).spec_channel().spec_local_addr(),
            final(self).spec_channel().spec_listener() == old(self).spec_channel().spec_listener(),
            final(self).spec_channel().spec_stream_config() == old(self).spec_channel().spec_stream_config(),
            final(self).spec_channel().spec_pool().spec_is_array() == old(self).spec_channel().spec_pool().spec_is_array(),
            final(self).spec_channel().spec_pool().spec_limit() == old(self).spec_channel().spec_pool().spec_limit(),
            final(self).spec_channel().spec_pool().cursor() == old(self).spec_channel().spec_pool().cursor(),
            result is Ok ==> final(self).spec_channel().spec_pool().entries() == old(self).spec_channel().spec_pool().entries()
                && final(self).spec_channel().spec_pool().errors() == old(self).spec_channel().spec_pool().errors(),
            result is Err ==> {
                let i = old(self).spec_indices().last() as int;
                let old_pool = old(self).spec_channel().spec_pool();
                &&& final(self).spec_channel().spec_pool().entries() == swap_removed(old_pool.entries(), i)
                &&& final(self).spec_channel().spec_pool().errors() == old_pool.errors().push(
                    sink_error(step, old_pool.entries()[i].1, result->Err_0),
                )
            },
    {
        let mut indices: Vec<usize> = Vec::new();
        std::mem::swap(&mut indices, &mut self.indices);
        self.channel.stream_pool_mut().settle_last(&mut indices, result, step);
        self.indices = indices;
    }

    /// Whether the item is still to be encoded.
    pub fn has_item(&self) -> (b: bool)
        ensures
            b == self.spec_item() is Some,
    {
        self.item.is_some()
    }

    /// Encodes the item, which is then gone; an encoding error is tagged
    /// with the channel's local address.
    pub fn encode_item(&mut self) -> (r: Result<Bytes, SinkError<E::Error>>)
        where
            E: EncodeMethod<T>,
        requires
            old(self).spec_item() is Some,
        ensures
            final(self).spec_item() is None,
            final(self).spec_steps() == old(self).spec_steps(),
            final(self).spec_filter() == old(self).spec_filter(),
            final(self).spec_indices() == old(self).spec_indices(),
            final(self).spec_channel() == old(self).spec_channel(),
            r matches Ok(b) ==> call_ensures(E::encode, (&old(self).spec_item()->Some_0,), Ok::<Bytes, E::Error>(b)),
            r matches Err(e) ==> e matches SinkError::ItemEncode { addr, source } && addr
                == old(self).spec_channel().spec_local_addr() && call_ensures(
                E::encode,
                (&old(self).spec_item()->Some_0,),
                Err::<Bytes, E::Error>(source),
            ),
    {
        let addr = *self.channel.local_addr();
        let item = self.item.take().unwrap();
        match E::encode(&item) {
            Ok(bytes) => Ok(bytes),
            Err(source) => Err(SinkError::ItemEncode { addr, source }),
        }
    }

    /// Ends the send: the errors of the connections that failed, tagged
    /// with the channel's local address, if any failed.
    pub fn finish(&mut self) -> (r: Result<(), SinkError<E::Error>>)
        where
            E: EncodeMethod<T>,
        ensures
            old(self).spec_channel().spec_pool().errors().len() == 0 ==> r is Ok,
            old(self).spec_channel().spec_pool().errors().len() > 0 ==> (r matches Err(SinkError::SinkErrors { addr, source })
                && addr == old(self).spec_channel().spec_local_addr()
                && source.spec_errors() == old(self).spec_channel().spec_pool().errors()),
            final(self).spec_channel().spec_pool().errors().len() == 0,
            final(self).spec_channel().spec_pool().entries() == old(self).spec_channel().spec_pool().entries(),
    {
        let addr = *self.channel.local_addr();
        let r = self.channel.stream_pool_mut().drain_sink_res();
        tag_sink_errors(r, addr)
    }
}

} // verus!
