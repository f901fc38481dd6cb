//! Spin-flag-ring strategy: a fixed-capacity store behind a non-blocking
//! flag.
//!
//! A single atomic-style busy flag is the mutual-exclusion primitive;
//! failing to take it means "try again next tick", never a spin.  The store
//! holds at most its configured capacity: a batch that would overflow is
//! refused whole with [`PublishResult::CapacityExceeded`], a hard error the
//! producer must decide about, never a silent drop.  The consumer drains
//! the whole store front to back and releases the flag on every path.

use vstd::prelude::*;

use crate::event::Event;
use crate::flag::SpinFlag;
use crate::transport::{PublishResult, Transport};

verus! {

/// Strategy B: a bounded FIFO store guarded by a spin flag.
pub struct SpinFlagRing {
    flag: SpinFlag,
    queue: Vec<Event>,
    cap: usize,
}

impl SpinFlagRing {
    /// The fixed capacity the ring was created with, in events.
    pub closed spec fn capacity(&self) -> nat {
        self.cap as nat
    }

    /// A fresh, empty ring of the given capacity with a free flag.
    pub fn new(ring_capacity: usize) -> (r: SpinFlagRing)
        ensures
            r.wf(),
            r.pending() == Seq::<Event>::empty(),
            !r.contended(),
            r.capacity() == ring_capacity,
    {
        SpinFlagRing { flag: SpinFlag::new(), queue: Vec::new(), cap: ring_capacity }
    }

    /// Attempts to take the busy flag from outside, as the other side's
    /// critical section does; while it is held, both operations observe
    /// contention and fail fast.
    pub fn try_acquire(&mut self) -> (r: bool)
        ensures
            final(self).wf() == old(self).wf(),
            r == !old(self).contended(),
            final(self).contended(),
            final(self).pending() == old(self).pending(),
            final(self).capacity() == old(self).capacity(),
    {
        self.flag.try_acquire()
    }

    /// Releases the busy flag unconditionally.
    pub fn release(&mut self)
        ensures
            final(self).wf() == old(self).wf(),
            !final(self).contended(),
            final(self).pending() == old(self).pending(),
            final(self).capacity() == old(self).capacity(),
    {
        self.flag.release()
    }
}

impl Transport for SpinFlagRing {
    closed spec fn wf(&self) -> bool {
        self.queue@.len() <= self.cap
    }

    closed spec fn pending(&self) -> Seq<Event> {
        self.queue@
    }

    closed spec fn contended(&self) -> bool {
        self.flag.is_held()
    }

    /// A batch fits when it would not push the store past its capacity.
    open spec fn fits(&self, extra: nat) -> bool {
        self.pending().len() + extra <= self.capacity()
    }

    /// Publishing never blocks: it is allowed in any state.
    open spec fn publish_allowed(&self) -> bool {
        true
    }

    fn try_publish(&mut self, batch: &Vec<Event>) -> (r: PublishResult) {
        if !self.flag.try_acquire() {
            return PublishResult::Busy;
        }
        if batch.len() > self.cap - self.queue.len() {
            self.flag.release();
            return PublishResult::CapacityExceeded;
        }
        let ghost orig = self.queue@;
        let ghost cap0 = self.cap;
        let mut i: usize = 0;
        while i < batch.len()
            invariant
                i <= batch@.len(),
                orig.len() + batch@.len() <= cap0,
                self.cap == cap0,
                self.queue@ == orig + batch@.take(i as int),
            decreases batch@.len() - i,
        {
            self.queue.push(batch[i]);
            proof {
                assert(orig + batch@.take(i as int) + seq![batch@[i as int]] =~= orig + batch@.take(
                    i as int + 1,
                ));
            }
            i = i + 1;
        }
        self.flag.release();
        proof {
            assert(orig + batch@.take(batch@.len() as int) =~= orig + batch@);
        }
        PublishResult::Accepted
    }

    fn take_all(&mut self, _timeout_ms: u64) -> (r: Vec<Event>) {
        if self.flag.try_acquire() {
            let mut out: Vec<Event> = Vec::new();
            core::mem::swap(&mut out, &mut self.queue);
            self.flag.release();
            out
        } else {
            Vec::new()
        }
    }
}

} // verus!
