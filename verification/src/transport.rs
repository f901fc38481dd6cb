//! The common contract of the three transport strategies.
//!
//! A transport is the one shared object bridging the producer and the
//! consumer.  The producer hands it whole batches with [`Transport::try_publish`];
//! the consumer claims everything pending with [`Transport::take_all`].  Both
//! operations are described exactly by the transition functions below, so
//! that ordering and conservation laws can be stated once for all three
//! strategies (see [`crate::laws`]).

use vstd::prelude::*;

use crate::event::Event;

verus! {

/// Ring capacity used when no other configuration is given.
pub const DEFAULT_RING_CAPACITY: usize = 2048;

/// Consumer wait timeout used when no other configuration is given.
pub const DEFAULT_WAIT_TIMEOUT_MS: u64 = 100;

/// Fixed policy values of a transport: the capacity of a bounded payload
/// store, and the bound on the consumer's wait when nothing is pending.
#[derive(Clone, Copy, Debug, PartialEq, Eq, Structural)]
pub struct Config {
    pub ring_capacity: usize,
    pub wait_timeout_ms: u64,
}

impl Default for Config {
    /// The fixed policy values of the original design.
    fn default() -> (r: Config)
        ensures
            r.ring_capacity == DEFAULT_RING_CAPACITY,
            r.wait_timeout_ms == DEFAULT_WAIT_TIMEOUT_MS,
    {
        Config { ring_capacity: DEFAULT_RING_CAPACITY, wait_timeout_ms: DEFAULT_WAIT_TIMEOUT_MS }
    }
}

/// Outcome of one publish attempt.
///
/// `Busy` is expected backpressure, recovered by the accumulator's
/// retry-with-accumulation policy.  `CapacityExceeded` is a hard error of
/// the fixed-capacity stores, surfaced to the producer.
#[derive(Clone, Copy, Debug, PartialEq, Eq, Structural)]
pub enum PublishResult {
    Accepted,
    Busy,
    CapacityExceeded,
}

/// The outcome a publish attempt reports: `Busy` when the signal is held
/// by the other side, `CapacityExceeded` when the batch does not fit, and
/// `Accepted` otherwise.
pub open spec fn spec_publish_result(
    pending: Seq<Event>,
    batch: Seq<Event>,
    contended: bool,
    fits: bool,
) -> PublishResult {
    if contended {
        PublishResult::Busy
    } else if !fits {
        PublishResult::CapacityExceeded
    } else {
        PublishResult::Accepted
    }
}

/// The pending events after a publish attempt: the batch is appended whole
/// on acceptance, and nothing is mutated otherwise.
pub open spec fn spec_publish_pending(
    pending: Seq<Event>,
    batch: Seq<Event>,
    contended: bool,
    fits: bool,
) -> Seq<Event> {
    if !contended && fits {
        pending + batch
    } else {
        pending
    }
}

/// What a take returns: everything pending, in order, unless the signal is
/// held by the other side, in which case nothing (and the consumer's turn
/// ends rather than blocking the render loop).
pub open spec fn spec_take_result(pending: Seq<Event>, contended: bool) -> Seq<Event> {
    if contended {
        Seq::empty()
    } else {
        pending
    }
}

/// The pending events after a take: emptied exactly when the take claimed
/// them.
pub open spec fn spec_take_pending(pending: Seq<Event>, contended: bool) -> Seq<Event> {
    if contended {
        pending
    } else {
        Seq::empty()
    }
}

/// The shared synchronization object bridging producer and consumer.
///
/// `pending()` is the model of the payload storage: the events published
/// and not yet claimed, in end-to-end order.  `contended()` is the model of
/// the mutual-exclusion signal: whether the other side currently holds it.
/// `fits(n)` says whether `n` more events fit the payload storage, and
/// `publish_allowed()` excludes the one call a strategy cannot model as a
/// step: publishing through a blocking lock while the lock is held, which
/// would stall the producer's turn for good.
pub trait Transport: Sized {
    /// Internal well-formedness of the shared state.
    spec fn wf(&self) -> bool;

    /// The events published and not yet claimed, in order.
    spec fn pending(&self) -> Seq<Event>;

    /// Whether the mutual-exclusion signal is held by the other side.
    spec fn contended(&self) -> bool;

    /// Whether `extra` more events fit the payload storage.
    spec fn fits(&self, extra: nat) -> bool;

    /// Which publish calls the strategy accepts at all.
    spec fn publish_allowed(&self) -> bool;

    /// Attempts one handoff of a whole batch.  Accepts it entirely, in
    /// order, or reports why and mutates nothing; never blocks the caller
    /// beyond its own bounded work.
    fn try_publish(&mut self, batch: &Vec<Event>) -> (r: PublishResult)
        requires
            old(self).wf(),
            old(self).publish_allowed(),
        ensures
            final(self).wf(),
            final(self).contended() == old(self).contended(),
            r == spec_publish_result(
                old(self).pending(),
                batch@,
                old(self).contended(),
                old(self).fits(batch@.len() as nat),
            ),
            final(self).pending() == spec_publish_pending(
                old(self).pending(),
                batch@,
                old(self).contended(),
                old(self).fits(batch@.len() as nat),
            ),
    ;

    /// Claims everything pending, in order, or returns empty when the
    /// signal is held or nothing was published.  `timeout_ms` bounds the
    /// wait a genuinely parallel consumer performs before giving up the
    /// turn; expiry is the consumer's normal path to regain control, not
    /// an error.
    fn take_all(&mut self, timeout_ms: u64) -> (r: Vec<Event>)
        requires
            old(self).wf(),
        ensures
            final(self).wf(),
            final(self).contended() == old(self).contended(),
            r@ == spec_take_result(old(self).pending(), old(self).contended()),
            final(self).pending() == spec_take_pending(old(self).pending(), old(self).contended()),
    ;
}

} // verus!
