//! Thread roles, the endpoints each thread of a full-duplex exchange holds,
//! and the waiting policy of the send and receive loops.
use vstd::prelude::*;

pub mod channel;
pub mod wait;

use channel::{bounded, same_consumer_ring, same_producer_ring, valid_capacity, ChannelError, Destination, Origin, Receiver, Sender, DEFAULT_CAPACITY};

verus! {

/// A worker thread started with its configuration and the endpoints it
/// reads from and writes to.
pub trait WiredThread {
    type Config;
    type Input;
    type Output;

    fn spawn_tokio_thread(config: Self::Config, input: Self::Input, output: Self::Output) -> Self where Self: Sized;
}

/// What a thread holds to talk with its peer `P`: a sender towards `P` and
/// a receiver of what `P` sent. The two belong to different channels.
pub struct Endpoints<P> where P: Destination + Origin {
    pub sender: Sender<P, i32>,
    pub receiver: Receiver<P, i32>,
}

impl<P: Destination + Origin> Endpoints<P> {
    /// One transfer towards the peer. Only the outgoing channel is touched:
    /// the incoming one is left exactly as it was.
    pub fn try_send(&mut self, item: i32) -> (r: Result<(), ChannelError>)
        ensures
            same_producer_ring(final(self).sender.producer(), old(self).sender.producer()),
            final(self).receiver == old(self).receiver,
            final(self).sender.capacity_spec() == old(self).sender.capacity_spec(),
            old(self).sender.has_room() ==> r is Ok,
            old(self).sender.sent().len() < old(self).sender.capacity_spec() ==> r is Ok,
            match r {
                Ok(()) => final(self).sender.sent() == old(self).sender.sent().push(item),
                Err(e) => e == ChannelError::QueueFull(item) && final(self).sender.sent() == old(self).sender.sent(),
            },
    {
        self.sender.try_send(item)
    }

    /// One transfer from the peer. Only the incoming channel is touched: the
    /// outgoing one is left exactly as it was.
    pub fn try_recv(&mut self) -> (r: Result<i32, ChannelError>)
        ensures
            same_consumer_ring(final(self).receiver.consumer(), old(self).receiver.consumer()),
            final(self).sender == old(self).sender,
            final(self).receiver.capacity_spec() == old(self).receiver.capacity_spec(),
            old(self).receiver.has_item() ==> r is Ok,
            match r {
                Ok(v) => final(self).receiver.received() == old(self).receiver.received().push(v),
                Err(e) => e == ChannelError::QueueEmpty && final(self).receiver.received() == old(self).receiver.received(),
            },
    {
        self.receiver.try_recv()
    }
}

/// Endpoints as `duplex` hands them out: every capacity is `capacity` and
/// nothing has been moved yet.
pub open spec fn fresh_endpoints<P: Destination + Origin>(e: Endpoints<P>, capacity: usize) -> bool {
    &&& e.sender.capacity_spec() == capacity
    &&& e.receiver.capacity_spec() == capacity
    &&& e.sender.sent() == Seq::<i32>::empty()
    &&& e.receiver.received() == Seq::<i32>::empty()
}

/// Wires roles `A` and `B` with two channels of `capacity` slots, one per
/// direction. The first endpoints are for the thread playing `A` (they send
/// to and read from `B`), the second for the thread playing `B`.
pub fn duplex<A: Destination + Origin, B: Destination + Origin>(capacity: usize) -> (r: (Endpoints<B>, Endpoints<A>))
    requires
        valid_capacity(capacity),
    ensures
        fresh_endpoints(r.0, capacity),
        fresh_endpoints(r.1, capacity),
        r.0.sender.pairs_with(&r.1.receiver),
        r.1.sender.pairs_with(&r.0.receiver),
{
    let (to_b, from_a) = bounded::<B, A>(capacity);
    let (to_a, from_b) = bounded::<A, B>(capacity);
    (Endpoints { sender: to_b, receiver: from_b }, Endpoints { sender: to_a, receiver: from_a })
}

/// `duplex` with `DEFAULT_CAPACITY` on all four endpoints.
pub fn duplex_default<A: Destination + Origin, B: Destination + Origin>() -> (r: (Endpoints<B>, Endpoints<A>))
    ensures
        fresh_endpoints(r.0, DEFAULT_CAPACITY),
        fresh_endpoints(r.1, DEFAULT_CAPACITY),
        r.0.sender.pairs_with(&r.1.receiver),
        r.1.sender.pairs_with(&r.0.receiver),
{
    duplex::<A, B>(DEFAULT_CAPACITY)
}

} // verus!
