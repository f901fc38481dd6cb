//! Atomic-raw-buffer strategy: a flat region of 32-bit words for genuinely
//! parallel execution contexts that share raw memory but no runtime state.
//!
//! Word layout: index 0 is the lock word (0 free, 1 held), index 1 a
//! reserved draw-signal word, index 2 the payload length in words, and the
//! payload data starts at index 3.  The payload region is mutated only
//! while the lock word is held; events cross it in the fixed-width encoding
//! of [`crate::codec`], appended in batch order so that order is preserved
//! end to end.  An embedding that runs the two sides truly in parallel
//! performs the same steps with atomic operations on a real shared region,
//! using the same indices and the same encoding, and gives the consumer's
//! lock acquisition a bounded, futex-style timed wait; expiry of that wait
//! is the consumer's normal path to regain control, not an error.

use vstd::prelude::*;

use crate::codec;
use crate::codec::{spec_batch_words, spec_decode_batch, spec_event_words};
use crate::event::Event;
use crate::transport::{PublishResult, Transport};

verus! {

/// Index of the lock word.
pub const LOCK_INDEX: usize = 0;

/// Index of the reserved draw-signal word.
pub const DRAW_INDEX: usize = 1;

/// Index of the payload length word (a count of payload words).
pub const LENGTH_INDEX: usize = 2;

/// Index of the first payload word.
pub const DATA_INDEX: usize = 3;

/// Largest supported capacity in events, so that the payload length in
/// words always fits the 32-bit length word.
pub const MAX_RING_CAPACITY: usize = 0x0FFF_FFFF;

/// Strategy C: a bounded store laid out as a flat word region.
pub struct RawBuffer {
    words: Vec<u32>,
    cap: usize,
}

impl RawBuffer {
    /// The fixed capacity the region was created with, in events.
    pub closed spec fn capacity(&self) -> nat {
        self.cap as nat
    }

    /// A fresh region: lock free, draw signal clear, no payload.
    pub fn new(ring_capacity: usize) -> (r: RawBuffer)
        requires
            ring_capacity <= MAX_RING_CAPACITY,
        ensures
            r.wf(),
            r.pending() == Seq::<Event>::empty(),
            !r.contended(),
            r.capacity() == ring_capacity,
    {
        let mut words: Vec<u32> = Vec::new();
        words.push(0);
        words.push(0);
        words.push(0);
        let r = RawBuffer { words, cap: ring_capacity };
        proof {
            assert(r.words@.skip(3) =~= Seq::<u32>::empty());
        }
        r
    }

    /// Attempts to take the lock word, as the other side's critical section
    /// does with an atomic compare-and-exchange; while it is held, both
    /// operations observe contention and fail fast.
    pub fn try_acquire(&mut self) -> (r: bool)
        requires
            old(self).wf(),
        ensures
            final(self).wf(),
            r == !old(self).contended(),
            final(self).contended(),
            final(self).pending() == old(self).pending(),
            final(self).capacity() == old(self).capacity(),
    {
        let was = self.words[LOCK_INDEX];
        self.words[LOCK_INDEX] = 1;
        proof {
            assert(self.words@.skip(3) =~= old(self).words@.skip(3));
        }
        was == 0
    }

    /// Releases the lock word unconditionally.
    pub fn release(&mut self)
        requires
            old(self).wf(),
        ensures
            final(self).wf(),
            !final(self).contended(),
            final(self).pending() == old(self).pending(),
            final(self).capacity() == old(self).capacity(),
    {
        self.words[LOCK_INDEX] = 0;
        proof {
            assert(self.words@.skip(3) =~= old(self).words@.skip(3));
        }
    }
}

impl Transport for RawBuffer {
    closed spec fn wf(&self) -> bool {
        &&& self.words@.len() >= 3
        &&& self.words@[0] == 0 || self.words@[0] == 1
        &&& self.words@[1] == 0
        &&& self.words@[2] as int == self.words@.len() - 3
        &&& self.words@.len() - 3 <= 4 * (self.cap as int)
        &&& self.cap <= MAX_RING_CAPACITY
        &&& spec_decode_batch(self.words@.skip(3)) is Some
    }

    closed spec fn pending(&self) -> Seq<Event> {
        spec_decode_batch(self.words@.skip(3)).unwrap()
    }

    closed spec fn contended(&self) -> bool {
        self.words@[0] != 0
    }

    /// A batch fits when it would not push the payload past the region's
    /// capacity.
    open spec fn fits(&self, extra: nat) -> bool {
        self.pending().len() + extra <= self.capacity()
    }

    /// Publishing never blocks: it is allowed in any state.
    open spec fn publish_allowed(&self) -> bool {
        true
    }

    fn try_publish(&mut self, batch: &Vec<Event>) -> (r: PublishResult) {
        if self.words[LOCK_INDEX] != 0 {
            return PublishResult::Busy;
        }
        self.words[LOCK_INDEX] = 1;
        let ghost p0 = old(self).words@.skip(3);
        proof {
            assert(self.words@.skip(3) =~= p0);
            codec::lemma_decode_batch_len(p0);
        }
        // The pending event count, from the payload length.
        let len_words = self.words.len() - 3;
        let count = len_words / 4;
        if batch.len() > self.cap - count {
            self.words[LOCK_INDEX] = 0;
            proof {
                assert(self.words@.skip(3) =~= p0);
            }
            return PublishResult::CapacityExceeded;
        }
        // Copy the batch's words behind the current payload, in order.
        let ghost w1 = self.words@;
        let ghost cap0 = self.cap;
        let mut i: usize = 0;
        while i < batch.len()
            invariant
                i <= batch@.len(),
                3 <= w1.len(),
                self.cap == cap0,
                self.words@ == w1 + spec_batch_words(batch@.take(i as int)),
            decreases batch@.len() - i,
        {
            codec::encode_event(&batch[i], &mut self.words);
            proof {
                codec::lemma_batch_words_concat(batch@.take(i as int), seq![batch@[i as int]]);
                codec::lemma_batch_words_singleton(batch@[i as int]);
                assert(batch@.take(i as int) + seq![batch@[i as int]] =~= batch@.take(i as int + 1));
                assert(w1 + spec_batch_words(batch@.take(i as int)) + spec_event_words(
                    batch@[i as int],
                ) =~= w1 + spec_batch_words(batch@.take(i as int + 1)));
            }
            i = i + 1;
        }
        proof {
            assert(batch@.take(batch@.len() as int) =~= batch@);
            codec::lemma_batch_words_len(batch@);
        }
        // Publish the new payload length and release the lock word.
        let n = self.words.len();
        self.words[LENGTH_INDEX] = (n - 3) as u32;
        self.words[LOCK_INDEX] = 0;
        proof {
            assert(self.words@.skip(3) =~= p0 + spec_batch_words(batch@));
            codec::lemma_decode_batch_append(p0, batch@);
        }
        PublishResult::Accepted
    }

    fn take_all(&mut self, _timeout_ms: u64) -> (r: Vec<Event>) {
        if self.words[LOCK_INDEX] != 0 {
            return Vec::new();
        }
        self.words[LOCK_INDEX] = 1;
        proof {
            assert(self.words@.skip(3) =~= old(self).words@.skip(3));
        }
        // Claim the entire pending payload.
        let n = self.words.len();
        let decoded = codec::decode_batch(&self.words.as_slice()[DATA_INDEX..n]);
        let out = match decoded {
            Some(v) => v,
            None => {
                proof {
                    assert(self.words@.subrange(3, n as int) =~= self.words@.skip(3));
                    assert(false);
                }
                vstd::pervasive::unreached()
            },
        };
        proof {
            assert(self.words@.subrange(3, n as int) =~= self.words@.skip(3));
        }
        // Clear the region and release the lock word.
        self.words.truncate(DATA_INDEX);
        self.words[LENGTH_INDEX] = 0;
        self.words[LOCK_INDEX] = 0;
        proof {
            assert(self.words@.skip(3) =~= Seq::<u32>::empty());
        }
        out
    }
}

} // verus!
