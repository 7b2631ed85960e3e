//! Tagged endpoints of a bounded channel, and the factory that mints them in
//! matched pairs.
//!
//! A `Sender<D, T>` carries items to the thread playing role `D`; a
//! `Receiver<O, T>` carries items that came from the thread playing role
//! `O`. The tags have no runtime representation: handing an endpoint to the
//! wrong role is a type error.
use core::marker::PhantomData;
use vstd::prelude::*;

use crate::queue::{
    consumer_capacity, consumer_capacity_of, consumer_has_item, consumer_is_empty, consumer_pop,
    consumer_pop_paired, consumer_slots_paired, popped_items, producer_capacity, producer_capacity_of,
    producer_has_room, producer_is_full, producer_push, producer_push_paired, producer_slots_paired,
    pushed_items, ring_buffer_new, ring_in_order, shares_ring,
};

verus! {

/// The capacity that `bounded_default` uses.
pub const DEFAULT_CAPACITY: usize = 100;

/// A role that may label a `Receiver`: the thread whose items it reads.
pub trait Origin: Send {}

/// A role that may label a `Sender`: the thread its items are meant for.
pub trait Destination: Send {}

/// Why a channel operation did not go through.
#[derive(Debug, Clone, Copy, PartialEq, Eq, Structural)]
pub enum ChannelError {
    /// A push found no free slot; the item is handed back.
    QueueFull(i32),
    /// A pop found no item.
    QueueEmpty,
    /// A push or pop failed although the check before it had succeeded.
    /// The ring buffer guarantees that a slot or item once seen stays
    /// available to the half that saw it, so the transfers of this library
    /// never report it.
    QueueContention,
    /// A channel was asked for with a capacity that cannot be allocated.
    InvalidCapacity,
}

/// Whether a ring buffer of `capacity` items of `i32` can be created.
pub open spec fn valid_capacity(capacity: usize) -> bool {
    capacity > 0 && capacity as int * 4 <= isize::MAX as int
}

/// The producing half of a channel, tagged with the role it sends to.
#[verifier::reject_recursive_types(Type)]
pub struct Sender<D, Type> where D: Destination {
    sender: rtrb::Producer<Type>,
    target: PhantomData<D>,
}

/// The consuming half of a channel, tagged with the role it reads from.
#[verifier::reject_recursive_types(Type)]
pub struct Receiver<O, Type> where O: Origin {
    receiver: rtrb::Consumer<Type>,
    target: PhantomData<O>,
}


impl<D: Destination, Type> From<rtrb::Producer<Type>> for Sender<D, Type> {
    fn from(sender: rtrb::Producer<Type>) -> (r: Self)
        ensures
            r.producer() == sender,
    {
        Sender { sender, target: PhantomData }
    }
}

impl<D: Destination, Type> vstd::std_specs::convert::FromSpecImpl<rtrb::Producer<Type>> for Sender<D, Type> {
    open spec fn obeys_from_spec() -> bool {
        true
    }

    closed spec fn from_spec(v: rtrb::Producer<Type>) -> Self {
        Sender { sender: v, target: PhantomData }
    }
}

impl<O: Origin, Type> From<rtrb::Consumer<Type>> for Receiver<O, Type> {
    fn from(receiver: rtrb::Consumer<Type>) -> (r: Self)
        ensures
            r.consumer() == receiver,
    {
        Receiver { receiver, target: PhantomData }
    }
}

impl<O: Origin, Type> vstd::std_specs::convert::FromSpecImpl<rtrb::Consumer<Type>> for Receiver<O, Type> {
    open spec fn obeys_from_spec() -> bool {
        true
    }

    closed spec fn from_spec(v: rtrb::Consumer<Type>) -> Self {
        Receiver { receiver: v, target: PhantomData }
    }
}

impl<D: Destination, Type> Sender<D, Type> {
    /// The producer half that this sender wraps.
    pub closed spec fn producer(&self) -> rtrb::Producer<Type> {
        self.sender
    }
}

impl<O: Origin, Type> Receiver<O, Type> {
    /// The consumer half that this receiver wraps.
    pub closed spec fn consumer(&self) -> rtrb::Consumer<Type> {
        self.receiver
    }
}

/// Builds a value from a tuple; stands in for `From` on tuples of outside types.
pub trait FromTuple<O>: Sized {
    /// The value that `from_tuple` builds from `o`.
    spec fn from_tuple_spec(o: O) -> Self;

    fn from_tuple(o: O) -> (r: Self)
        ensures
            r == Self::from_tuple_spec(o),
    ;
}

/// The converse of `FromTuple`, implemented for every type it applies to.
pub trait IntoTuple<T>: Sized {
    /// The value that `into_tuple` turns `self` into.
    spec fn into_tuple_spec(self) -> T;

    fn into_tuple(self) -> (r: T)
        ensures
            r == self.into_tuple_spec(),
    ;
}

impl<O, T> IntoTuple<T> for O where T: FromTuple<O> {
    open spec fn into_tuple_spec(self) -> T {
        T::from_tuple_spec(self)
    }

    fn into_tuple(self) -> (r: T) {
        T::from_tuple(self)
    }
}

impl<O: Origin, D: Destination, Type> FromTuple<(rtrb::Producer<Type>, rtrb::Consumer<Type>)> for (
    Sender<D, Type>,
    Receiver<O, Type>,
) {
    closed spec fn from_tuple_spec(o: (rtrb::Producer<Type>, rtrb::Consumer<Type>)) -> Self {
        (Sender { sender: o.0, target: PhantomData }, Receiver { receiver: o.1, target: PhantomData })
    }

    fn from_tuple(o: (rtrb::Producer<Type>, rtrb::Consumer<Type>)) -> (r: Self)
        ensures
            r.0.producer() == o.0,
            r.1.consumer() == o.1,
    {
        (Sender::from(o.0), Receiver::from(o.1))
    }
}

/// The pair that `from_tuple` (and so `into_tuple`) builds wraps the given
/// producer in the sender and the given consumer in the receiver.
pub proof fn lemma_from_tuple_wraps<D: Destination, O: Origin, Type>(o: (rtrb::Producer<Type>, rtrb::Consumer<Type>))
    ensures
        <(Sender<D, Type>, Receiver<O, Type>) as FromTuple<(rtrb::Producer<Type>, rtrb::Consumer<Type>)>>::from_tuple_spec(o).0.producer() == o.0,
        <(Sender<D, Type>, Receiver<O, Type>) as FromTuple<(rtrb::Producer<Type>, rtrb::Consumer<Type>)>>::from_tuple_spec(o).1.consumer() == o.1,
{
}

/// `a` and `b` are producers of the same ring buffer.
pub open spec fn same_producer_ring(a: rtrb::Producer<i32>, b: rtrb::Producer<i32>) -> bool {
    forall|c: rtrb::Consumer<i32>| #[trigger] shares_ring(a, c) == shares_ring(b, c)
}

/// `a` and `b` are consumers of the same ring buffer.
pub open spec fn same_consumer_ring(a: rtrb::Consumer<i32>, b: rtrb::Consumer<i32>) -> bool {
    forall|p: rtrb::Producer<i32>| #[trigger] shares_ring(p, a) == shares_ring(p, b)
}

/// The items sent through `tx` that `rx` has not received yet.
pub open spec fn queued<D: Destination, O: Origin>(tx: &Sender<D, i32>, rx: &Receiver<O, i32>) -> Seq<i32> {
    tx.sent().skip(rx.received().len() as int)
}

/// How many items sit between `tx` and `rx`.
pub open spec fn occupancy<D: Destination, O: Origin>(tx: &Sender<D, i32>, rx: &Receiver<O, i32>) -> int {
    tx.sent().len() - rx.received().len()
}

/// The two ends of one channel agree: `rx` has received, in order, a prefix
/// of what `tx` sent, and what is left fits in the capacity both report.
pub open spec fn in_order<D: Destination, O: Origin>(tx: &Sender<D, i32>, rx: &Receiver<O, i32>) -> bool {
    &&& rx.received().len() <= tx.sent().len()
    &&& occupancy(tx, rx) <= tx.capacity_spec()
    &&& rx.received() == tx.sent().take(rx.received().len() as int)
    &&& tx.capacity_spec() == rx.capacity_spec()
}

/// Nothing sent is lost, duplicated or reordered: what `rx` has received,
/// followed by what is still queued, is exactly what `tx` sent, in the order
/// it was sent; and no more than the capacity is ever queued.
pub proof fn lemma_received_then_queued_is_sent<D: Destination, O: Origin>(tx: &Sender<D, i32>, rx: &Receiver<O, i32>)
    requires
        in_order(tx, rx),
    ensures
        rx.received() + queued(tx, rx) == tx.sent(),
        0 <= occupancy(tx, rx) <= tx.capacity_spec(),
        queued(tx, rx).len() == occupancy(tx, rx),
{
    assert(rx.received() + queued(tx, rx) =~= tx.sent());
}

impl<D: Destination> Sender<D, i32> {
    /// Every item this sender has pushed, oldest first.
    pub open spec fn sent(&self) -> Seq<i32> {
        pushed_items(self.producer())
    }

    /// The capacity the channel was created with.
    pub open spec fn capacity_spec(&self) -> usize {
        producer_capacity(self.producer())
    }

    /// A free slot was available when the sender took this value; only its
    /// own next push can take it.
    pub open spec fn has_room(&self) -> bool {
        producer_has_room(self.producer())
    }

    /// `rx` is the other end of this sender's channel.
    pub open spec fn pairs_with<O: Origin>(&self, rx: &Receiver<O, i32>) -> bool {
        shares_ring(self.producer(), rx.consumer())
    }

    /// Proof that the agreement between the two ends, as seen from the
    /// ring buffer's halves, is `in_order`.
    proof fn lemma_in_order<O: Origin>(&self, rx: &Receiver<O, i32>)
        requires
            ring_in_order(self.sender, rx.receiver),
        ensures
            in_order(self, rx),
    {
    }

    /// Appends `item` to the queue, or reports `QueueFull` and changes nothing.
    pub fn push(&mut self, item: i32) -> (r: Result<(), ChannelError>)
        ensures
            same_producer_ring(final(self).producer(), old(self).producer()),
            final(self).capacity_spec() == old(self).capacity_spec(),
            old(self).has_room() ==> r is Ok,
            old(self).sent().len() < old(self).capacity_spec() ==> r is Ok,
            match r {
                Ok(()) => final(self).sent() == old(self).sent().push(item),
                Err(e) => e == ChannelError::QueueFull(item) && final(self).sent() == old(self).sent(),
            },
    {
        match producer_push(&mut self.sender, item) {
            Ok(()) => Ok(()),
            Err(v) => Err(ChannelError::QueueFull(v)),
        }
    }

    /// `push`, by a thread that also holds the channel's receiver `rx`: it
    /// fails exactly when the queue holds `capacity` items.
    pub fn push_paired<O: Origin>(&mut self, rx: &Receiver<O, i32>, item: i32) -> (r: Result<(), ChannelError>)
        requires
            old(self).pairs_with(rx),
        ensures
            final(self).pairs_with(rx),
            in_order(old(self), rx),
            in_order(final(self), rx),
            final(self).capacity_spec() == old(self).capacity_spec(),
            r is Ok <==> occupancy(old(self), rx) < old(self).capacity_spec(),
            match r {
                Ok(()) => final(self).sent() == old(self).sent().push(item)
                    && queued(final(self), rx) == queued(old(self), rx).push(item),
                Err(e) => e == ChannelError::QueueFull(item) && final(self).sent() == old(self).sent(),
            },
    {
        let r = producer_push_paired(&mut self.sender, &rx.receiver, item);
        proof {
            old(self).lemma_in_order(rx);
            assert(shares_ring(self.sender, rx.receiver));
        }
        match r {
            Ok(()) => {
                proof {
                    assert(queued(self, rx) =~= queued(old(self), rx).push(item));
                    assert(old(self).sent() =~= self.sent().take(old(self).sent().len() as int));
                    assert(rx.received() =~= self.sent().take(rx.received().len() as int));
                }
                Ok(())
            },
            Err(v) => Err(ChannelError::QueueFull(v)),
        }
    }

    /// Whether no slot is free at the moment. A slot seen free stays free
    /// until the next push.
    pub fn is_full(&mut self) -> (r: bool)
        ensures
            same_producer_ring(final(self).producer(), old(self).producer()),
            final(self).sent() == old(self).sent(),
            final(self).capacity_spec() == old(self).capacity_spec(),
            old(self).has_room() ==> !r,
            !r ==> final(self).has_room(),
            old(self).sent().len() < old(self).capacity_spec() ==> !r,
    {
        producer_is_full(&mut self.sender)
    }

    /// `is_full`, by a thread that also holds the channel's receiver `rx`:
    /// true exactly when the queue holds `capacity` items.
    pub fn is_full_paired<O: Origin>(&self, rx: &Receiver<O, i32>) -> (r: bool)
        requires
            self.pairs_with(rx),
        ensures
            r == (occupancy(self, rx) == self.capacity_spec()),
    {
        producer_slots_paired(&self.sender, &rx.receiver) == 0
    }

    /// The capacity the channel was created with.
    pub fn capacity(&self) -> (r: usize)
        ensures
            r == self.capacity_spec(),
    {
        producer_capacity_of(&self.sender)
    }

    /// One transfer of the send loop: check for room, then push. The caller
    /// goes back to waiting on an error. A push that failed after room was
    /// seen would be `QueueContention`; the ring buffer rules that out.
    pub fn try_send(&mut self, item: i32) -> (r: Result<(), ChannelError>)
        ensures
            same_producer_ring(final(self).producer(), old(self).producer()),
            final(self).capacity_spec() == old(self).capacity_spec(),
            old(self).has_room() ==> r is Ok,
            old(self).sent().len() < old(self).capacity_spec() ==> r is Ok,
            match r {
                Ok(()) => final(self).sent() == old(self).sent().push(item),
                Err(e) => e == ChannelError::QueueFull(item) && final(self).sent() == old(self).sent(),
            },
    {
        if self.is_full() {
            return Err(ChannelError::QueueFull(item));
        }
        match self.push(item) {
            Ok(()) => Ok(()),
            Err(_) => Err(ChannelError::QueueContention),
        }
    }
}

impl<O: Origin> Receiver<O, i32> {
    /// Every item this receiver has popped, oldest first.
    pub open spec fn received(&self) -> Seq<i32> {
        popped_items(self.consumer())
    }

    /// The capacity the channel was created with.
    pub open spec fn capacity_spec(&self) -> usize {
        consumer_capacity(self.consumer())
    }

    /// An item was readable when the receiver took this value; only its own
    /// next pop can take it.
    pub open spec fn has_item(&self) -> bool {
        consumer_has_item(self.consumer())
    }

    /// Takes an item from the queue, or reports `QueueEmpty` and changes
    /// nothing.
    pub fn pop(&mut self) -> (r: Result<i32, ChannelError>)
        ensures
            same_consumer_ring(final(self).consumer(), old(self).consumer()),
            final(self).capacity_spec() == old(self).capacity_spec(),
            old(self).has_item() ==> r is Ok,
            match r {
                Ok(v) => final(self).received() == old(self).received().push(v),
                Err(e) => e == ChannelError::QueueEmpty && final(self).received() == old(self).received(),
            },
    {
        match consumer_pop(&mut self.receiver) {
            Ok(v) => Ok(v),
            Err(()) => Err(ChannelError::QueueEmpty),
        }
    }

    /// `pop`, by a thread that also holds the channel's sender `tx`: it
    /// fails exactly when nothing is queued, and otherwise returns the
    /// oldest queued item.
    pub fn pop_paired<D: Destination>(&mut self, tx: &Sender<D, i32>) -> (r: Result<i32, ChannelError>)
        requires
            tx.pairs_with(old(self)),
        ensures
            tx.pairs_with(final(self)),
            in_order(tx, old(self)),
            in_order(tx, final(self)),
            final(self).capacity_spec() == old(self).capacity_spec(),
            r is Ok <==> occupancy(tx, old(self)) > 0,
            match r {
                Ok(v) => v == queued(tx, old(self))[0]
                    && final(self).received() == old(self).received().push(v)
                    && queued(tx, final(self)) == queued(tx, old(self)).drop_first(),
                Err(e) => e == ChannelError::QueueEmpty && final(self).received() == old(self).received(),
            },
    {
        let r = consumer_pop_paired(&mut self.receiver, &tx.sender);
        proof {
            tx.lemma_in_order(old(self));
            assert(shares_ring(tx.sender, self.receiver));
        }
        match r {
            Ok(v) => {
                proof {
                    assert(queued(tx, self) =~= queued(tx, old(self)).drop_first());
                    assert(self.received() =~= tx.sent().take(self.received().len() as int));
                }
                Ok(v)
            },
            Err(()) => Err(ChannelError::QueueEmpty),
        }
    }

    /// Whether no item is readable at the moment. An item seen readable
    /// stays readable until the next pop.
    pub fn is_empty(&mut self) -> (r: bool)
        ensures
            same_consumer_ring(final(self).consumer(), old(self).consumer()),
            final(self).received() == old(self).received(),
            final(self).capacity_spec() == old(self).capacity_spec(),
            old(self).has_item() ==> !r,
            !r ==> final(self).has_item(),
    {
        consumer_is_empty(&mut self.receiver)
    }

    /// `is_empty`, by a thread that also holds the channel's sender `tx`:
    /// true exactly when nothing is queued.
    pub fn is_empty_paired<D: Destination>(&self, tx: &Sender<D, i32>) -> (r: bool)
        requires
            tx.pairs_with(self),
        ensures
            r == (occupancy(tx, self) == 0),
    {
        consumer_slots_paired(&self.receiver, &tx.sender) == 0
    }

    /// The capacity the channel was created with.
    pub fn capacity(&self) -> (r: usize)
        ensures
            r == self.capacity_spec(),
    {
        consumer_capacity_of(&self.receiver)
    }

    /// One transfer of the receive loop: check for an item, then pop. The
    /// caller goes back to waiting on an error. A pop that failed after an
    /// item was seen would be `QueueContention`; the ring buffer rules that
    /// out.
    pub fn try_recv(&mut self) -> (r: Result<i32, ChannelError>)
        ensures
            same_consumer_ring(final(self).consumer(), old(self).consumer()),
            final(self).capacity_spec() == old(self).capacity_spec(),
            old(self).has_item() ==> r is Ok,
            match r {
                Ok(v) => final(self).received() == old(self).received().push(v),
                Err(e) => e == ChannelError::QueueEmpty && final(self).received() == old(self).received(),
            },
    {
        if self.is_empty() {
            return Err(ChannelError::QueueEmpty);
        }
        match self.pop() {
            Ok(v) => Ok(v),
            Err(_) => Err(ChannelError::QueueContention),
        }
    }
}

/// Builds a channel of `capacity` slots: the sender is tagged for `D`, the
/// receiver for `O`, and neither has moved an item yet.
pub fn bounded<D: Destination, O: Origin>(capacity: usize) -> (r: (Sender<D, i32>, Receiver<O, i32>))
    requires
        valid_capacity(capacity),
    ensures
        r.0.capacity_spec() == capacity,
        r.1.capacity_spec() == capacity,
        r.0.sent() == Seq::<i32>::empty(),
        r.1.received() == Seq::<i32>::empty(),
        r.0.pairs_with(&r.1),
{
    let (p, c) = ring_buffer_new(capacity);
    (Sender { sender: p, target: PhantomData }, Receiver { receiver: c, target: PhantomData })
}

/// `bounded` with a capacity of `DEFAULT_CAPACITY`.
pub fn bounded_default<D: Destination, O: Origin>() -> (r: (Sender<D, i32>, Receiver<O, i32>))
    ensures
        r.0.capacity_spec() == DEFAULT_CAPACITY,
        r.1.capacity_spec() == DEFAULT_CAPACITY,
        r.0.sent() == Seq::<i32>::empty(),
        r.1.received() == Seq::<i32>::empty(),
        r.0.pairs_with(&r.1),
{
    bounded::<D, O>(DEFAULT_CAPACITY)
}

/// `bounded`, refusing with `InvalidCapacity` a capacity that is zero or too
/// large to allocate.
pub fn try_bounded<D: Destination, O: Origin>(capacity: usize) -> (r: Result<(Sender<D, i32>, Receiver<O, i32>), ChannelError>)
    ensures
        r is Err <==> !valid_capacity(capacity),
        match r {
            Ok(pair) => pair.0.capacity_spec() == capacity && pair.1.capacity_spec() == capacity
                && pair.0.sent() == Seq::<i32>::empty() && pair.1.received() == Seq::<i32>::empty()
                && pair.0.pairs_with(&pair.1),
            Err(e) => e == ChannelError::InvalidCapacity,
        },
{
    if capacity == 0 || capacity > (isize::MAX as usize) / 4 {
        return Err(ChannelError::InvalidCapacity);
    }
    Ok(bounded::<D, O>(capacity))
}

} // verus!
