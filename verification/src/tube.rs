//! The recycling transport ("tube"): a two-buffer, allocation-free,
//! single-producer/single-consumer channel with an explicit return path
//! for spent buffers.
//!
//! A fixed pool of boxed payload slots is created once. The producer fills
//! the front slot of its private queue in place and commits it; the
//! consumer receives it, reads it, and recycles it so the producer can
//! reuse the allocation. When the consumer falls behind, a commit is
//! silently dropped rather than blocking the producer; the drop counter
//! makes that policy observable.

use vstd::prelude::*;

use crate::channels::{new_channel, poll_channel, send_through, wait_on_channel, PollOutcome};

verus! {

/// The single failure condition of the transport: the other half has been
/// torn down. The variant records which operation detected it.
#[derive(Debug, Clone, Copy, PartialEq, Eq, Structural)]
pub enum TubeError {
    /// A commit found the consumer side gone.
    SendClosed,
    /// A receive found the producer side gone.
    RecvClosed,
    /// A recycle found the producer side gone.
    RecycleClosed,
}

/// The diagnostic text of a [`TubeError`].
pub open spec fn spec_message(e: TubeError) -> Seq<char> {
    match e {
        TubeError::SendClosed => "[utility] 管道已关闭，发送被阻止"@,
        TubeError::RecvClosed => "[utility] 管道已关闭，接收被阻止"@,
        TubeError::RecycleClosed => "[utility] 管道已关闭，回收被阻止"@,
    }
}

impl TubeError {
    /// The diagnostic text reported for this failure.
    pub fn message(&self) -> (r: String)
        ensures
            r@ == spec_message(*self),
    {
        match self {
            TubeError::SendClosed => "[utility] 管道已关闭，发送被阻止".to_owned(),
            TubeError::RecvClosed => "[utility] 管道已关闭，接收被阻止".to_owned(),
            TubeError::RecycleClosed => "[utility] 管道已关闭，回收被阻止".to_owned(),
        }
    }
}

/// Saturating increment used by the drop counter.
pub open spec fn bumped(n: u64) -> u64 {
    if n < u64::MAX {
        (n + 1) as u64
    } else {
        n
    }
}

/// The producer half: a private queue of owned slots, the sending half of
/// the supply channel, and the receiving half of the recycle channel.
#[verifier::reject_recursive_types(T)]
pub struct TubeSend<T> {
    dishes: Vec<Box<T>>,
    supply: crossbeam_channel::Sender<Box<T>>,
    recycle: crossbeam_channel::Receiver<Box<T>>,
    drops: u64,
}

/// The consumer half: the receiving half of the supply channel and the
/// sending half of the recycle channel.
#[verifier::reject_recursive_types(T)]
pub struct TubeRecv<T> {
    fetch: crossbeam_channel::Receiver<Box<T>>,
    refund: crossbeam_channel::Sender<Box<T>>,
}

impl<T> TubeSend<T> {
    /// The slots currently in the producer's private queue, front first.
    pub closed spec fn slots(&self) -> Seq<Box<T>> {
        self.dishes@
    }

    /// How many commits have been silently dropped under backpressure.
    pub closed spec fn spec_drops(&self) -> u64 {
        self.drops
    }

    /// The producer is well formed when its private queue is never empty:
    /// established at construction and preserved by every commit, so a
    /// write slot is always available without re-checking.
    pub open spec fn wf(&self) -> bool {
        self.slots().len() >= 1
    }

    /// How many commits were silently dropped because no recycled slot was
    /// available (saturating).
    pub fn dropped_commits(&self) -> (r: u64)
        ensures
            r == self.spec_drops(),
    {
        self.drops
    }

    /// A mutable view of the front slot, for the caller to fill in place.
    /// Never allocates and never blocks. The queue being non-empty is an
    /// invariant maintained by `send`, not a runtime condition.
    pub fn get_send_buffer(&mut self) -> (r: &mut Box<T>)
        requires
            old(self).wf(),
        ensures
            *r == old(self).slots()[0],
            final(self).slots() == old(self).slots().update(0, *final(r)),
            final(self).spec_drops() == old(self).spec_drops(),
            final(self).wf(),
    {
        &mut self.dishes[0]
    }

    /// Commit the front slot to the consumer.
    ///
    /// If the private queue holds only one slot, a recycled slot is first
    /// pulled without blocking: if none is available yet the commit is
    /// silently dropped (the counter moves and the queue is untouched, to
    /// be overwritten by the next write); if the recycle path is closed
    /// the transport has shut down. With two or more slots the front one
    /// is sent unconditionally. Never blocks, for any consumer behavior:
    /// the only channel operations here are a non-blocking poll and a
    /// send into an unbounded channel.
    ///
    /// A failing commit never moves the drop counter. From a one-slot
    /// queue it has two shapes the caller cannot tell apart: with the
    /// recycle path closed and empty the queue is untouched, while with a
    /// recycled slot still queued that slot is pulled in first and the
    /// front is then lost to the dead supply channel. The model states
    /// both exactly; see [`crate::protocol::commit_step`] and its lemmas.
    pub fn send(&mut self) -> (r: Result<(), TubeError>)
        requires
            old(self).wf(),
        ensures
            final(self).wf(),
            r matches Err(e) ==> e == TubeError::SendClosed,
            old(self).slots().len() >= 2 ==> {
                &&& final(self).slots() == old(self).slots().subrange(
                    1,
                    old(self).slots().len() as int,
                )
                &&& final(self).spec_drops() == old(self).spec_drops()
            },
            old(self).slots().len() == 1 ==> final(self).slots().len() == 1,
            final(self).spec_drops() == old(self).spec_drops() || final(self).spec_drops()
                == bumped(old(self).spec_drops()),
            r is Err ==> final(self).spec_drops() == old(self).spec_drops(),
            final(self).spec_drops() != old(self).spec_drops() ==> {
                &&& old(self).slots().len() == 1
                &&& r is Ok
                &&& final(self).slots() == old(self).slots()
                &&& final(self).spec_drops() == bumped(old(self).spec_drops())
            },
    {
        if self.dishes.len() == 1 {
            match poll_channel(&self.recycle) {
                PollOutcome::Item(dish) => {
                    self.dishes.push(dish);
                },
                PollOutcome::Empty => {
                    if self.drops < u64::MAX {
                        self.drops = self.drops + 1;
                    }
                    return Ok(());
                },
                PollOutcome::Closed => {
                    return Err(TubeError::SendClosed);
                },
            }
        }
        let front = self.dishes.remove(0);
        proof {
            if old(self).slots().len() >= 2 {
                assert(self.dishes@ =~= old(self).slots().subrange(
                    1,
                    old(self).slots().len() as int,
                ));
            }
        }
        match send_through(&self.supply, front) {
            Ok(()) => Ok(()),
            Err(_) => Err(TubeError::SendClosed),
        }
    }
}

impl<T> TubeRecv<T> {
    /// Wait for the next committed slot; fails when the producer side is
    /// gone and nothing is left in flight. This is
    /// [`crate::protocol::receive_step`].
    pub fn recv(&self) -> (r: Result<Box<T>, TubeError>)
        ensures
            r matches Err(e) ==> e == TubeError::RecvClosed,
    {
        match wait_on_channel(&self.fetch) {
            Some(dish) => Ok(dish),
            None => Err(TubeError::RecvClosed),
        }
    }

    /// Poll for a committed slot without blocking: `Ok(Some(..))` hands a
    /// slot out, `Ok(None)` means nothing is pending yet, `Err` means the
    /// producer side is gone and nothing is left in flight.
    pub fn try_recv(&self) -> (r: Result<Option<Box<T>>, TubeError>)
        ensures
            r matches Err(e) ==> e == TubeError::RecvClosed,
    {
        match poll_channel(&self.fetch) {
            PollOutcome::Item(dish) => Ok(Some(dish)),
            PollOutcome::Empty => Ok(None),
            PollOutcome::Closed => Err(TubeError::RecvClosed),
        }
    }

    /// Return a consumed slot to the producer for reuse. Failure means the
    /// producer side is gone; the slot is then simply dropped, which the
    /// caller treats as non-fatal. This is
    /// [`crate::protocol::recycle_step`].
    pub fn recycle(&self, empty_dish: Box<T>) -> (r: Result<(), TubeError>)
        ensures
            r matches Err(e) ==> e == TubeError::RecycleClosed,
    {
        match send_through(&self.refund, empty_dish) {
            Ok(()) => Ok(()),
            Err(_) => Err(TubeError::RecycleClosed),
        }
    }
}

/// Create a connected producer/consumer pair whose pool holds `pool_size`
/// default-initialized slots, all starting in the producer's queue.
pub fn new_tube_with_pool<T: Default>(pool_size: usize) -> (r: (TubeSend<T>, TubeRecv<T>))
    requires
        pool_size >= 1,
    ensures
        r.0.wf(),
        r.0.slots().len() == pool_size,
        r.0.spec_drops() == 0,
{
    let (supply, fetch) = new_channel();
    let (refund, recycle) = new_channel();
    let mut dishes: Vec<Box<T>> = Vec::new();
    let mut i: usize = 0;
    while i < pool_size
        invariant
            i <= pool_size,
            dishes@.len() == i,
        decreases pool_size - i,
    {
        dishes.push(Box::new(T::default()));
        i = i + 1;
    }
    let tube_send = TubeSend { dishes, supply, recycle, drops: 0 };
    let tube_recv = TubeRecv { fetch, refund };
    (tube_send, tube_recv)
}

/// Create a pair with the reference pool size of two slots.
pub fn new_tube<T: Default>() -> (r: (TubeSend<T>, TubeRecv<T>))
    ensures
        r.0.wf(),
        r.0.slots().len() == 2,
        r.0.spec_drops() == 0,
{
    new_tube_with_pool(2)
}

} // verus!
