//! Blocking-queue strategy: an unbounded queue behind a blocking lock.
//!
//! The producer acquires the lock unconditionally, so a publish always
//! succeeds; this is appropriate when producer and consumer share one
//! scheduler and the lock is only ever held for microseconds.  Since a
//! blocking acquisition while the lock is held would stall the producer's
//! turn for good in that regime, the contract excludes it instead of
//! modeling the wait.  The consumer acquires opportunistically: when it
//! cannot, it returns empty for this tick rather than blocking the render
//! loop.

use vstd::prelude::*;

use crate::event::Event;
use crate::flag::SpinFlag;
use crate::transport::{PublishResult, Transport};

verus! {

/// Strategy A: an unbounded FIFO queue guarded by a blocking lock.
pub struct BlockingQueue {
    lock: SpinFlag,
    queue: Vec<Event>,
}

impl BlockingQueue {
    /// A fresh, empty queue with a free lock.
    pub fn new() -> (r: BlockingQueue)
        ensures
            r.wf(),
            r.pending() == Seq::<Event>::empty(),
            !r.contended(),
    {
        BlockingQueue { lock: SpinFlag::new(), queue: Vec::new() }
    }

    /// Attempts to take the lock from outside, as the other side's critical
    /// section does; while it is held, `take_all` observes contention.
    pub fn try_acquire(&mut self) -> (r: bool)
        ensures
            final(self).wf(),
            r == !old(self).contended(),
            final(self).contended(),
            final(self).pending() == old(self).pending(),
    {
        self.lock.try_acquire()
    }

    /// Releases the lock unconditionally.
    pub fn release(&mut self)
        ensures
            final(self).wf(),
            !final(self).contended(),
            final(self).pending() == old(self).pending(),
    {
        self.lock.release()
    }
}

impl Transport for BlockingQueue {
    open spec fn wf(&self) -> bool {
        true
    }

    closed spec fn pending(&self) -> Seq<Event> {
        self.queue@
    }

    closed spec fn contended(&self) -> bool {
        self.lock.is_held()
    }

    /// The queue is unbounded: every batch fits.
    open spec fn fits(&self, extra: nat) -> bool {
        true
    }

    /// Publishing blocks on the lock, so it must not be called while the
    /// lock is held.
    open spec fn publish_allowed(&self) -> bool {
        !self.contended()
    }

    fn try_publish(&mut self, batch: &Vec<Event>) -> (r: PublishResult) {
        let acquired = self.lock.try_acquire();
        proof {
            assert(acquired);
        }
        let ghost orig = self.queue@;
        let mut i: usize = 0;
        while i < batch.len()
            invariant
                i <= batch@.len(),
                self.queue@ == orig + batch@.take(i as int),
            decreases batch@.len() - i,
        {
            self.queue.push(batch[i]);
            proof {
                assert(orig + batch@.take(i as int) + seq![batch@[i as int]] =~= orig + batch@.take(
                    i as int + 1,
                ));
            }
            i = i + 1;
        }
        self.lock.release();
        proof {
            assert(orig + batch@.take(batch@.len() as int) =~= orig + batch@);
        }
        PublishResult::Accepted
    }

    fn take_all(&mut self, _timeout_ms: u64) -> (r: Vec<Event>) {
        if self.lock.try_acquire() {
            let mut out: Vec<Event> = Vec::new();
            core::mem::swap(&mut out, &mut self.queue);
            self.lock.release();
            out
        } else {
            Vec::new()
        }
    }
}

} // verus!
