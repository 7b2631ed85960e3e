//! The lock-free ring buffer underneath every channel, from `rtrb`.
//!
//! The two halves of a ring buffer may live on different threads, so what
//! one half sees of the shared occupancy can change at any time. Each half
//! is therefore modelled by what it has done itself: the items a producer
//! has pushed, the items a consumer has popped, and the fixed capacity of
//! the buffer. A producer and a consumer of one buffer are related by
//! `shares_ring`. Where a single thread holds both halves, neither can move
//! behind its back, and the operations that take both halves state the
//! exact contents of the queue.
use vstd::prelude::*;

verus! {

#[verifier::external_type_specification]
#[verifier::external_body]
#[verifier::reject_recursive_types(T)]
pub struct ExProducer<T>(rtrb::Producer<T>);

#[verifier::external_type_specification]
#[verifier::external_body]
#[verifier::reject_recursive_types(T)]
pub struct ExConsumer<T>(rtrb::Consumer<T>);

/// The items this producer has pushed successfully, oldest first.
pub uninterp spec fn pushed_items(p: rtrb::Producer<i32>) -> Seq<i32>;

/// The capacity that the producer's ring buffer was created with.
pub uninterp spec fn producer_capacity(p: rtrb::Producer<i32>) -> usize;

/// A free slot was available when the producer took this value; only its
/// own next push can take it.
pub uninterp spec fn producer_has_room(p: rtrb::Producer<i32>) -> bool;

/// The items this consumer has popped successfully, oldest first.
pub uninterp spec fn popped_items(c: rtrb::Consumer<i32>) -> Seq<i32>;

/// The capacity that the consumer's ring buffer was created with.
pub uninterp spec fn consumer_capacity(c: rtrb::Consumer<i32>) -> usize;

/// An item was readable when the consumer took this value; only its own
/// next pop can take it.
pub uninterp spec fn consumer_has_item(c: rtrb::Consumer<i32>) -> bool;

/// The producer and the consumer are the two halves of one ring buffer.
pub uninterp spec fn shares_ring(p: rtrb::Producer<i32>, c: rtrb::Consumer<i32>) -> bool;

/// What a producer and a consumer of one buffer, both held by the calling
/// thread, show together: the consumer popped a prefix of what the producer
/// pushed, and the rest, still queued, fits in the buffer.
pub open spec fn ring_in_order(p: rtrb::Producer<i32>, c: rtrb::Consumer<i32>) -> bool {
    &&& popped_items(c).len() <= pushed_items(p).len()
    &&& pushed_items(p).len() <= popped_items(c).len() + producer_capacity(p)
    &&& popped_items(c) == pushed_items(p).take(popped_items(c).len() as int)
    &&& producer_capacity(p) == consumer_capacity(c)
}

/// Relies on `rtrb::RingBuffer::new`: it allocates `capacity` slots (through
/// `Vec::with_capacity`, hence the bound in bytes) and hands out a fresh
/// producer and consumer of that one buffer, neither of which has moved an
/// item yet.
#[verifier::external_body]
pub(crate) fn ring_buffer_new(capacity: usize) -> (r: (rtrb::Producer<i32>, rtrb::Consumer<i32>))
    requires
        capacity > 0,
        capacity as int * 4 <= isize::MAX as int,
    ensures
        producer_capacity(r.0) == capacity,
        consumer_capacity(r.1) == capacity,
        pushed_items(r.0) == Seq::<i32>::empty(),
        popped_items(r.1) == Seq::<i32>::empty(),
        shares_ring(r.0, r.1),
{
    rtrb::RingBuffer::<i32>::new(capacity)
}

/// Relies on `rtrb::Producer::push`: on success the value is appended to the
/// queue; on `PushError::Full` the value is handed back untouched, and is
/// passed on here as the error. A push cannot fail after `is_full` said
/// `false`, nor while fewer items have been pushed than the buffer holds.
#[verifier::external_body]
pub(crate) fn producer_push(p: &mut rtrb::Producer<i32>, value: i32) -> (r: Result<(), i32>)
    ensures
        producer_capacity(*final(p)) == producer_capacity(*old(p)),
        forall|c: rtrb::Consumer<i32>| shares_ring(*final(p), c) == shares_ring(*old(p), c),
        producer_has_room(*old(p)) ==> r is Ok,
        pushed_items(*old(p)).len() < producer_capacity(*old(p)) ==> r is Ok,
        match r {
            Ok(()) => pushed_items(*final(p)) == pushed_items(*old(p)).push(value),
            Err(v) => v == value && pushed_items(*final(p)) == pushed_items(*old(p)),
        },
{
    match p.push(value) {
        Ok(()) => Ok(()),
        Err(rtrb::PushError::Full(v)) => Err(v),
    }
}

/// Relies on `rtrb::Producer::push`, called while the calling thread also
/// holds the consumer `c`: the push succeeds exactly when fewer items are
/// queued than the buffer holds.
#[verifier::external_body]
pub(crate) fn producer_push_paired(p: &mut rtrb::Producer<i32>, c: &rtrb::Consumer<i32>, value: i32) -> (r: Result<(), i32>)
    requires
        shares_ring(*old(p), *c),
    ensures
        ring_in_order(*old(p), *c),
        producer_capacity(*final(p)) == producer_capacity(*old(p)),
        forall|c2: rtrb::Consumer<i32>| shares_ring(*final(p), c2) == shares_ring(*old(p), c2),
        r is Ok <==> pushed_items(*old(p)).len() - popped_items(*c).len() < producer_capacity(*old(p)),
        match r {
            Ok(()) => pushed_items(*final(p)) == pushed_items(*old(p)).push(value),
            Err(v) => v == value && pushed_items(*final(p)) == pushed_items(*old(p)),
        },
{
    match p.push(value) {
        Ok(()) => Ok(()),
        Err(rtrb::PushError::Full(v)) => Err(v),
    }
}

/// Relies on `rtrb::Producer::is_full`: once it returns `false`, the consumer
/// cannot fill the slot it saw. The queue never holds more items than this
/// producer has pushed, so it is not full while fewer than the capacity
/// have been pushed.
#[verifier::external_body]
pub(crate) fn producer_is_full(p: &mut rtrb::Producer<i32>) -> (r: bool)
    ensures
        pushed_items(*final(p)) == pushed_items(*old(p)),
        producer_capacity(*final(p)) == producer_capacity(*old(p)),
        forall|c: rtrb::Consumer<i32>| shares_ring(*final(p), c) == shares_ring(*old(p), c),
        producer_has_room(*old(p)) ==> !r,
        !r ==> producer_has_room(*final(p)),
        pushed_items(*old(p)).len() < producer_capacity(*old(p)) ==> !r,
{
    p.is_full()
}

/// Relies on `rtrb::Producer::slots`, called while the calling thread also
/// holds the consumer `c`: the free slots are the capacity less what is
/// queued.
#[verifier::external_body]
pub(crate) fn producer_slots_paired(p: &rtrb::Producer<i32>, c: &rtrb::Consumer<i32>) -> (r: usize)
    requires
        shares_ring(*p, *c),
    ensures
        r == producer_capacity(*p) - (pushed_items(*p).len() - popped_items(*c).len()),
{
    p.slots()
}

/// Relies on `rtrb::RingBuffer::capacity`, reached through `Producer::buffer`.
#[verifier::external_body]
pub(crate) fn producer_capacity_of(p: &rtrb::Producer<i32>) -> (r: usize)
    ensures
        r == producer_capacity(*p),
{
    p.buffer().capacity()
}

/// Relies on `rtrb::Consumer::pop`: on success an item leaves the queue; on
/// `PopError::Empty` nothing changes, which is passed on here as `Err(())`.
/// A pop cannot fail after `is_empty` said `false`.
#[verifier::external_body]
pub(crate) fn consumer_pop(c: &mut rtrb::Consumer<i32>) -> (r: Result<i32, ()>)
    ensures
        consumer_capacity(*final(c)) == consumer_capacity(*old(c)),
        forall|p: rtrb::Producer<i32>| shares_ring(p, *final(c)) == shares_ring(p, *old(c)),
        consumer_has_item(*old(c)) ==> r is Ok,
        match r {
            Ok(v) => popped_items(*final(c)) == popped_items(*old(c)).push(v),
            Err(_) => popped_items(*final(c)) == popped_items(*old(c)),
        },
{
    match c.pop() {
        Ok(v) => Ok(v),
        Err(rtrb::PopError::Empty) => Err(()),
    }
}

/// Relies on `rtrb::Consumer::pop`, called while the calling thread also
/// holds the producer `p`: it fails exactly when nothing is queued, and
/// otherwise returns the oldest queued item, the one at the head.
#[verifier::external_body]
pub(crate) fn consumer_pop_paired(c: &mut rtrb::Consumer<i32>, p: &rtrb::Producer<i32>) -> (r: Result<i32, ()>)
    requires
        shares_ring(*p, *old(c)),
    ensures
        ring_in_order(*p, *old(c)),
        consumer_capacity(*final(c)) == consumer_capacity(*old(c)),
        forall|p2: rtrb::Producer<i32>| shares_ring(p2, *final(c)) == shares_ring(p2, *old(c)),
        r is Ok <==> popped_items(*old(c)).len() < pushed_items(*p).len(),
        match r {
            Ok(v) => v == pushed_items(*p)[popped_items(*old(c)).len() as int]
                && popped_items(*final(c)) == popped_items(*old(c)).push(v),
            Err(_) => popped_items(*final(c)) == popped_items(*old(c)),
        },
{
    match c.pop() {
        Ok(v) => Ok(v),
        Err(rtrb::PopError::Empty) => Err(()),
    }
}

/// Relies on `rtrb::Consumer::is_empty`: once it returns `false`, the
/// producer cannot take back the item it saw.
#[verifier::external_body]
pub(crate) fn consumer_is_empty(c: &mut rtrb::Consumer<i32>) -> (r: bool)
    ensures
        popped_items(*final(c)) == popped_items(*old(c)),
        consumer_capacity(*final(c)) == consumer_capacity(*old(c)),
        forall|p: rtrb::Producer<i32>| shares_ring(p, *final(c)) == shares_ring(p, *old(c)),
        consumer_has_item(*old(c)) ==> !r,
        !r ==> consumer_has_item(*final(c)),
{
    c.is_empty()
}

/// Relies on `rtrb::Consumer::slots`, called while the calling thread also
/// holds the producer `p`: the readable slots are exactly what is queued.
#[verifier::external_body]
pub(crate) fn consumer_slots_paired(c: &rtrb::Consumer<i32>, p: &rtrb::Producer<i32>) -> (r: usize)
    requires
        shares_ring(*p, *c),
    ensures
        r == pushed_items(*p).len() - popped_items(*c).len(),
{
    c.slots()
}

/// Relies on `rtrb::RingBuffer::capacity`, reached through `Consumer::buffer`.
#[verifier::external_body]
pub(crate) fn consumer_capacity_of(c: &rtrb::Consumer<i32>) -> (r: usize)
    ensures
        r == consumer_capacity(*c),
{
    c.buffer().capacity()
}

} // verus!
