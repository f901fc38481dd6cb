//! Consumer-side adapter: pulls one event per render-loop iteration.
//!
//! The adapter claims everything pending from the transport when its own
//! buffer runs dry, then hands events out one at a time, converted to the
//! higher-level form with the two external scale factors (cell width and
//! height in pixels).

use vstd::prelude::*;

use crate::event::{CanonicalEvent, Event, spec_canonical};
use crate::transport::{Transport, spec_take_pending, spec_take_result};

verus! {

/// Pulls events out of a transport and converts them for the render loop.
pub struct ConsumerAdapter {
    buffered: Vec<Event>,
    cursor: usize,
    cell_width: u32,
    cell_height: u32,
}

impl ConsumerAdapter {
    /// Internal well-formedness: the cursor stays within the buffer and
    /// the scale factors are usable divisors.
    pub closed spec fn wf(&self) -> bool {
        &&& self.cursor <= self.buffered@.len()
        &&& self.cell_width > 0
        &&& self.cell_height > 0
    }

    /// Events already claimed from the transport and not yet handed out,
    /// oldest first.
    pub closed spec fn queued(&self) -> Seq<Event> {
        self.buffered@.skip(self.cursor as int)
    }

    /// The cell width and height the adapter divides positions by.
    pub closed spec fn cell_size(&self) -> (u32, u32) {
        (self.cell_width, self.cell_height)
    }

    /// A fresh adapter with the given scale factors and nothing queued.
    pub fn new(cell_width: u32, cell_height: u32) -> (r: ConsumerAdapter)
        requires
            cell_width > 0,
            cell_height > 0,
        ensures
            r.wf(),
            r.queued() == Seq::<Event>::empty(),
            r.cell_size() == (cell_width, cell_height),
    {
        let r = ConsumerAdapter { buffered: Vec::new(), cursor: 0, cell_width, cell_height };
        proof {
            assert(r.buffered@.skip(0) =~= Seq::<Event>::empty());
        }
        r
    }

    /// Hands out the next event, converted, or `None` when none is
    /// available this iteration.
    ///
    /// When its own buffer is empty the adapter first claims everything the
    /// transport has pending; a contended transport yields nothing this
    /// iteration and is retried on the next.
    pub fn poll<T: Transport>(&mut self, transport: &mut T, timeout_ms: u64) -> (r: Option<
        CanonicalEvent,
    >)
        requires
            old(self).wf(),
            old(transport).wf(),
        ensures
            final(self).wf(),
            final(transport).wf(),
            final(self).cell_size() == old(self).cell_size(),
            final(transport).contended() == old(transport).contended(),
            old(self).queued().len() > 0 ==> (r == Some(
                spec_canonical(
                    old(self).queued()[0],
                    old(self).cell_size().0,
                    old(self).cell_size().1,
                ),
            ) && final(self).queued() == old(self).queued().drop_first() && *final(transport)
                == *old(transport)),
            old(self).queued().len() == 0 ==> (final(transport).pending() == spec_take_pending(
                old(transport).pending(),
                old(transport).contended(),
            ) && ({
                let got = spec_take_result(old(transport).pending(), old(transport).contended());
                if got.len() == 0 {
                    r is None && final(self).queued().len() == 0
                } else {
                    r == Some(
                        spec_canonical(got[0], old(self).cell_size().0, old(self).cell_size().1),
                    ) && final(self).queued() == got.drop_first()
                }
            })),
    {
        if self.cursor < self.buffered.len() {
            let e = self.buffered[self.cursor];
            self.cursor = self.cursor + 1;
            proof {
                assert(self.buffered@.skip(self.cursor as int) =~= old(
                    self,
                ).queued().drop_first());
            }
            Some(e.to_canonical(self.cell_width, self.cell_height))
        } else {
            let got = transport.take_all(timeout_ms);
            self.buffered = got;
            self.cursor = 0;
            if self.buffered.len() == 0 {
                proof {
                    assert(self.buffered@.skip(0) =~= self.buffered@);
                }
                None
            } else {
                let e = self.buffered[0];
                self.cursor = 1;
                proof {
                    assert(self.buffered@.skip(1) =~= self.buffered@.drop_first());
                }
                Some(e.to_canonical(self.cell_width, self.cell_height))
            }
        }
    }
}

} // verus!
