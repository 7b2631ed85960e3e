//! The waiting policy of the send and receive loops: spin a few times, then
//! yield the processor, and stop as soon as cancellation is requested.
use vstd::prelude::*;

use crate::thread::channel::{same_consumer_ring, same_producer_ring, ChannelError, Destination, Origin, Receiver, Sender};

verus! {

/// How many consecutive waits are spent spinning before switching to yields.
pub const SPIN_LIMIT: u32 = 64;

/// What a waiting loop does next.
#[derive(Debug, Clone, Copy, PartialEq, Eq, Structural)]
pub enum Step<T> {
    /// The transfer went through, carrying what it produced.
    Done(T),
    /// Hint the processor and try again.
    Spin,
    /// Give the processor to another thread and try again.
    Yield,
    /// Cancellation was requested: leave the loop.
    Stop,
}

/// Counts the waits since the last successful transfer.
pub struct Backoff {
    spins: u32,
}

/// The step a wait takes after `spins` earlier waits.
pub open spec fn wait_step<T>(spins: nat, cancelled: bool) -> Step<T> {
    if cancelled {
        Step::Stop
    } else if spins < SPIN_LIMIT {
        Step::Spin
    } else {
        Step::Yield
    }
}

/// The wait count after one wait taken after `spins` earlier waits.
pub open spec fn next_spins(spins: nat, cancelled: bool) -> nat {
    if !cancelled && spins < SPIN_LIMIT {
        spins + 1
    } else {
        spins
    }
}

impl Backoff {
    /// The number of waits counted; it never exceeds `SPIN_LIMIT`.
    pub closed spec fn spins(&self) -> nat {
        self.spins as nat
    }

    /// The count stays within `SPIN_LIMIT`.
    pub closed spec fn wf(&self) -> bool {
        self.spins <= SPIN_LIMIT
    }

    pub fn new() -> (r: Backoff)
        ensures
            r.wf(),
            r.spins() == 0,
    {
        Backoff { spins: 0 }
    }

    /// Starts counting anew, after a transfer went through.
    pub fn reset(&mut self)
        ensures
            final(self).wf(),
            final(self).spins() == 0,
    {
        self.spins = 0;
    }

    /// Decides how to wait once more: `Stop` when cancelled, `Spin` for the
    /// first `SPIN_LIMIT` waits, `Yield` after that.
    pub fn next_step<T>(&mut self, cancelled: bool) -> (r: Step<T>)
        requires
            old(self).wf(),
        ensures
            final(self).wf(),
            r == wait_step::<T>(old(self).spins(), cancelled),
            final(self).spins() == next_spins(old(self).spins(), cancelled),
            final(self).spins() <= SPIN_LIMIT,
    {
        if cancelled {
            Step::Stop
        } else if self.spins < SPIN_LIMIT {
            self.spins = self.spins + 1;
            Step::Spin
        } else {
            Step::Yield
        }
    }
}

impl<D: Destination> Sender<D, i32> {
    /// One round of the send loop: unless cancelled, try to push `item`; on
    /// success reset `backoff`, otherwise tell the caller how to wait.
    pub fn send_step(&mut self, item: i32, backoff: &mut Backoff, cancelled: bool) -> (r: Step<()>)
        requires
            old(backoff).wf(),
        ensures
            same_producer_ring(final(self).producer(), old(self).producer()),
            final(backoff).wf(),
            final(self).capacity_spec() == old(self).capacity_spec(),
            cancelled ==> r == Step::<()>::Stop && *final(self) == *old(self) && *final(backoff) == *old(backoff),
            !cancelled && old(self).has_room() ==> r == Step::Done(()),
            !cancelled && old(self).sent().len() < old(self).capacity_spec() ==> r == Step::Done(()),
            match r {
                Step::Done(()) => final(self).sent() == old(self).sent().push(item) && final(backoff).spins() == 0,
                _ => final(self).sent() == old(self).sent()
                    && r == wait_step::<()>(old(backoff).spins(), cancelled)
                    && final(backoff).spins() == next_spins(old(backoff).spins(), cancelled),
            },
    {
        if cancelled {
            return Step::Stop;
        }
        match self.try_send(item) {
            Ok(()) => {
                backoff.reset();
                Step::Done(())
            },
            Err(_) => backoff.next_step(false),
        }
    }
}

impl<O: Origin> Receiver<O, i32> {
    /// One round of the receive loop: unless cancelled, try to pop an item;
    /// on success reset `backoff` and hand the item out, otherwise tell the
    /// caller how to wait.
    pub fn recv_step(&mut self, backoff: &mut Backoff, cancelled: bool) -> (r: Step<i32>)
        requires
            old(backoff).wf(),
        ensures
            same_consumer_ring(final(self).consumer(), old(self).consumer()),
            final(backoff).wf(),
            final(self).capacity_spec() == old(self).capacity_spec(),
            cancelled ==> r == Step::<i32>::Stop && *final(self) == *old(self) && *final(backoff) == *old(backoff),
            !cancelled && old(self).has_item() ==> r is Done,
            match r {
                Step::Done(v) => final(self).received() == old(self).received().push(v) && final(backoff).spins() == 0,
                _ => final(self).received() == old(self).received()
                    && r == wait_step::<i32>(old(backoff).spins(), cancelled)
                    && final(backoff).spins() == next_spins(old(backoff).spins(), cancelled),
            },
    {
        if cancelled {
            return Step::Stop;
        }
        match self.try_recv() {
            Ok(v) => {
                backoff.reset();
                Step::Done(v)
            },
            Err(_) => backoff.next_step(false),
        }
    }
}

} // verus!
