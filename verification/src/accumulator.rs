//! Producer-side collection: events generated within one scheduling tick
//! are gathered locally, in order, and handed off to the transport as one
//! batch.

use vstd::prelude::*;

use crate::event::{Event, MouseButton};
use crate::transport::{PublishResult, Transport};
use crate::transport::spec_publish_result;

verus! {

/// A per-producer buffer collecting the events of one tick before a
/// handoff attempt.  Insertion order is significant and preserved.
pub struct Accumulator {
    events: Vec<Event>,
}

impl Accumulator {
    /// The recorded events, oldest first.
    pub closed spec fn recorded(&self) -> Seq<Event> {
        self.events@
    }

    /// A fresh, empty accumulator.
    pub fn new() -> (r: Accumulator)
        ensures
            r.recorded() == Seq::<Event>::empty(),
    {
        Accumulator { events: Vec::new() }
    }

    /// Appends one event at the tail; no failure mode, never blocks.
    pub fn record(&mut self, e: Event)
        ensures
            final(self).recorded() == old(self).recorded().push(e),
    {
        self.events.push(e);
    }

    /// Number of recorded events.
    pub fn len(&self) -> (r: usize)
        ensures
            r == self.recorded().len(),
    {
        self.events.len()
    }

    /// The recorded events, oldest first, for a handoff performed by an
    /// embedding that owns the shared side itself.
    pub fn events(&self) -> (r: &Vec<Event>)
        ensures
            r@ == self.recorded(),
    {
        &self.events
    }

    /// Empties the accumulator, as a successful handoff does.
    pub fn clear(&mut self)
        ensures
            final(self).recorded() == Seq::<Event>::empty(),
    {
        self.events.clear();
    }

    /// Attempts one handoff of the entire contents, in order.
    ///
    /// On acceptance the accumulator is emptied.  Otherwise it is left
    /// untouched, so a future call retries with the same and newer events,
    /// still in original order: under contention delivery may be delayed by
    /// a tick, but no event is lost or reordered.  An empty accumulator has
    /// nothing to hand off and succeeds without touching the transport.
    pub fn drain_into<T: Transport>(&mut self, transport: &mut T) -> (r: PublishResult)
        requires
            old(transport).wf(),
            old(transport).publish_allowed(),
        ensures
            final(transport).wf(),
            final(transport).contended() == old(transport).contended(),
            old(self).recorded().len() == 0 ==> r == PublishResult::Accepted && *final(transport)
                == *old(transport),
            old(self).recorded().len() > 0 ==> r == spec_publish_result(
                old(transport).pending(),
                old(self).recorded(),
                old(transport).contended(),
                old(transport).fits(old(self).recorded().len()),
            ),
            r == PublishResult::Accepted ==> final(self).recorded() == Seq::<Event>::empty()
                && final(transport).pending() == old(transport).pending() + old(self).recorded(),
            r != PublishResult::Accepted ==> final(self).recorded() == old(self).recorded()
                && final(transport).pending() == old(transport).pending(),
    {
        if self.events.len() == 0 {
            proof {
                assert(old(transport).pending() + old(self).recorded() =~= old(
                    transport,
                ).pending());
            }
            return PublishResult::Accepted;
        }
        let r = transport.try_publish(&self.events);
        if let PublishResult::Accepted = r {
            self.events.clear();
        }
        r
    }
}

/// Producer-side pointer state: a press begins a hold, movement is
/// recorded only while a hold is in progress, and a release ends it, so
/// that stray hover movement between clicks produces no events.
pub struct InputTracker {
    holding: bool,
}

impl InputTracker {
    /// Whether a press is in progress.
    pub closed spec fn is_holding(&self) -> bool {
        self.holding
    }

    /// A fresh tracker with no press in progress.
    pub fn new() -> (r: InputTracker)
        ensures
            !r.is_holding(),
    {
        InputTracker { holding: false }
    }

    /// A press at a pixel position: begins a hold.
    pub fn pointer_down(&mut self, x: u32, y: u32, button: MouseButton) -> (e: Event)
        ensures
            final(self).is_holding(),
            e == (Event::MouseDown { x, y, button }),
    {
        self.holding = true;
        Event::MouseDown { x, y, button }
    }

    /// Movement at a pixel position: an event only while a hold is in
    /// progress.
    pub fn pointer_move(&mut self, x: u32, y: u32, button: MouseButton) -> (r: Option<Event>)
        ensures
            final(self).is_holding() == old(self).is_holding(),
            r == (if old(self).is_holding() {
                Some(Event::MouseMove { x, y, button })
            } else {
                None::<Event>
            }),
    {
        if self.holding {
            Some(Event::MouseMove { x, y, button })
        } else {
            None
        }
    }

    /// A release at a pixel position: ends the hold.
    pub fn pointer_up(&mut self, x: u32, y: u32, button: MouseButton) -> (e: Event)
        ensures
            !final(self).is_holding(),
            e == (Event::MouseUp { x, y, button }),
    {
        self.holding = false;
        Event::MouseUp { x, y, button }
    }
}

} // verus!
