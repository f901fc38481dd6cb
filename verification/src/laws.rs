//! Library-wide laws.
//!
//! The transports' contracts describe every publish and take exactly, in
//! terms of the transition functions of [`crate::transport`].  The laws
//! below are therefore stated once, over those transitions, and hold of
//! all three strategies.

use vstd::prelude::*;

use crate::event::Event;
use crate::transport::PublishResult;
use crate::transport::{
    spec_publish_pending, spec_publish_result, spec_take_pending, spec_take_result,
};

verus! {

/// Order preservation: events published by one producer in one call are
/// claimed in exactly that order, as one contiguous block, never
/// interleaved with another batch.  Two accepted publishes followed by an
/// uncontended take yield the prior pending events, then the first batch,
/// then the second, each unchanged, and leave nothing behind.
pub proof fn lemma_order_preservation(pending: Seq<Event>, batch1: Seq<Event>, batch2: Seq<Event>)
    ensures
        ({
            let p1 = spec_publish_pending(pending, batch1, false, true);
            let p2 = spec_publish_pending(p1, batch2, false, true);
            let taken = spec_take_result(p2, false);
            &&& taken == pending + batch1 + batch2
            &&& taken.subrange(pending.len() as int, (pending.len() + batch1.len()) as int) == batch1
            &&& taken.subrange((pending.len() + batch1.len()) as int, taken.len() as int) == batch2
            &&& spec_take_pending(p2, false) == Seq::<Event>::empty()
        }),
{
    let taken = pending + batch1 + batch2;
    assert(taken.subrange(pending.len() as int, (pending.len() + batch1.len()) as int) =~= batch1);
    assert(taken.subrange((pending.len() + batch1.len()) as int, taken.len() as int) =~= batch2);
}

/// No loss under contention: one handoff attempt followed by an
/// uncontended take delivers every event exactly once.  What the take
/// returns plus what the accumulator kept for retry is exactly what was
/// pending plus what was recorded, in order, whether the handoff was
/// accepted or refused; and the take leaves nothing behind.
pub proof fn lemma_no_loss(pending: Seq<Event>, recorded: Seq<Event>, contended: bool, fits: bool)
    ensures
        ({
            let after = spec_publish_pending(pending, recorded, contended, fits);
            let kept = if spec_publish_result(pending, recorded, contended, fits)
                == PublishResult::Accepted {
                Seq::<Event>::empty()
            } else {
                recorded
            };
            &&& spec_take_result(after, false) + kept == pending + recorded
            &&& spec_take_pending(after, false) == Seq::<Event>::empty()
        }),
{
    if !contended && fits {
        assert((pending + recorded) + Seq::<Event>::empty() =~= pending + recorded);
    }
}

/// One step of a producer/consumer session against one transport: a
/// publish attempt under the given contention and fit, or a take under the
/// given contention.
pub enum SessionStep {
    Publish { batch: Seq<Event>, contended: bool, fits: bool },
    Take { contended: bool },
}

/// The pending events after one step on the given pending events.
pub open spec fn step_pending(pending: Seq<Event>, step: SessionStep) -> Seq<Event> {
    match step {
        SessionStep::Publish { batch, contended, fits } => spec_publish_pending(
            pending,
            batch,
            contended,
            fits,
        ),
        SessionStep::Take { contended } => spec_take_pending(pending, contended),
    }
}

/// What one step delivers to the consumer: nothing for a publish, the
/// take's result for a take.
pub open spec fn step_taken(pending: Seq<Event>, step: SessionStep) -> Seq<Event> {
    match step {
        SessionStep::Publish { .. } => Seq::empty(),
        SessionStep::Take { contended } => spec_take_result(pending, contended),
    }
}

/// The pending events after a whole session, starting empty.
pub open spec fn session_pending(steps: Seq<SessionStep>) -> Seq<Event>
    decreases steps.len(),
{
    if steps.len() == 0 {
        Seq::empty()
    } else {
        step_pending(session_pending(steps.drop_last()), steps.last())
    }
}

/// Everything a session's takes deliver, in delivery order.
pub open spec fn session_delivered(steps: Seq<SessionStep>) -> Seq<Event>
    decreases steps.len(),
{
    if steps.len() == 0 {
        Seq::empty()
    } else {
        session_delivered(steps.drop_last()) + step_taken(
            session_pending(steps.drop_last()),
            steps.last(),
        )
    }
}

/// The batches a session's publishes get accepted, concatenated in
/// submission order.
pub open spec fn session_accepted(steps: Seq<SessionStep>) -> Seq<Event>
    decreases steps.len(),
{
    if steps.len() == 0 {
        Seq::empty()
    } else {
        session_accepted(steps.drop_last()) + (match steps.last() {
            SessionStep::Publish { batch, contended, fits } => if !contended && fits {
                batch
            } else {
                Seq::empty()
            },
            SessionStep::Take { .. } => Seq::empty(),
        })
    }
}

/// No loss and no reordering over a whole session: however publishes and
/// takes interleave, what the takes have delivered followed by what is
/// still pending is exactly the accepted batches, concatenated in
/// submission order — every accepted event exactly once, batches never
/// interleaved, each in its recorded order.
pub proof fn lemma_session_conservation(steps: Seq<SessionStep>)
    ensures
        session_delivered(steps) + session_pending(steps) == session_accepted(steps),
    decreases steps.len(),
{
    if steps.len() == 0 {
        assert(session_delivered(steps) + session_pending(steps) =~= Seq::<Event>::empty());
    } else {
        let prior = steps.drop_last();
        lemma_session_conservation(prior);
        let d = session_delivered(prior);
        let p = session_pending(prior);
        match steps.last() {
            SessionStep::Publish { batch, contended, fits } => {
                assert(d + Seq::<Event>::empty() =~= d);
                if !contended && fits {
                    assert(d + (p + batch) =~= (d + p) + batch);
                } else {
                    assert((d + p) + Seq::<Event>::empty() =~= d + p);
                }
            },
            SessionStep::Take { contended } => {
                if contended {
                    assert(d + Seq::<Event>::empty() =~= d);
                } else {
                    assert((d + p) + Seq::<Event>::empty() =~= d + p);
                }
            },
        }
    }
}

/// Capacity boundary: an empty, uncontended bounded store of capacity
/// `cap` accepts a batch of exactly `cap` events, and refuses one more
/// event before any drain with `CapacityExceeded`.  The fit conditions are
/// spelled out as the bounded strategies define them: the pending events
/// plus the batch must not exceed the capacity.
pub proof fn lemma_capacity_boundary(cap: nat, batch: Seq<Event>, extra: Event)
    requires
        batch.len() == cap,
    ensures
        spec_publish_result(
            Seq::<Event>::empty(),
            batch,
            false,
            Seq::<Event>::empty().len() + batch.len() <= cap,
        ) == PublishResult::Accepted,
        ({
            let after = spec_publish_pending(
                Seq::<Event>::empty(),
                batch,
                false,
                Seq::<Event>::empty().len() + batch.len() <= cap,
            );
            spec_publish_result(after, seq![extra], false, after.len() + seq![extra].len() <= cap)
                == PublishResult::CapacityExceeded
        }),
{
}

} // verus!
