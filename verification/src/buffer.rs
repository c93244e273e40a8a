//! Bounded handoff buffer between the producer and the playback callback.
//!
//! A fixed-capacity first-in/first-out queue of samples. The producer pushes
//! whole slices and whatever does not fit is silently dropped — audio
//! continuity is worth more than completeness, and the producer must never
//! block. The consumer pops one sample at a time and substitutes a neutral
//! (silence) sample when the buffer runs empty, so the playback callback
//! never blocks either.
//!
//! The queue itself is the lock-free single-producer/single-consumer ring of
//! the `ringbuf` crate, held behind trusted wrappers; the bookkeeping on top
//! of it is verified.

use vstd::prelude::*;

use ringbuf::traits::{Consumer, Observer, Producer};

verus! {

/// What the ring currently holds, oldest sample first.
pub uninterp spec fn ring_contents(r: HandoffRing) -> Seq<u64>;

/// The fixed capacity the ring was created with.
pub uninterp spec fn ring_capacity(r: HandoffRing) -> nat;

/// The lock-free ring itself. Opaque: everything known about it is stated by
/// the trusted wrappers below over [`ring_contents`] and [`ring_capacity`].
#[verifier::external_body]
pub struct HandoffRing {
    rb: ringbuf::HeapRb<u64>,
}

impl HandoffRing {
    /// Relies on ringbuf's `HeapRb::new`: a fresh, empty ring with exactly
    /// the given capacity. It panics on capacity zero, so zero is excluded.
    #[verifier::external_body]
    fn new(capacity: usize) -> (r: HandoffRing)
        requires
            capacity >= 1,
        ensures
            ring_capacity(r) == capacity,
            ring_contents(r) == Seq::<u64>::empty(),
    {
        HandoffRing { rb: ringbuf::HeapRb::new(capacity) }
    }

    /// Relies on ringbuf's `Producer::push_slice`: appends the longest
    /// prefix of `data` that fits in the free space and returns its length.
    #[verifier::external_body]
    fn push_slice(&mut self, data: &[u64]) -> (n: usize)
        ensures
            ring_capacity(*final(self)) == ring_capacity(*old(self)),
            n == if data@.len() as int <= ring_capacity(*old(self)) - ring_contents(
                *old(self)).len() {
                data@.len() as int
            } else {
                ring_capacity(*old(self)) - ring_contents(*old(self)).len()
            },
            ring_contents(*final(self)) == ring_contents(*old(self)) + data@.take(n as int),
    {
        self.rb.push_slice(data)
    }

    /// Relies on ringbuf's `Consumer::try_pop`: removes and returns the
    /// eldest sample, or returns nothing when the ring is empty.
    #[verifier::external_body]
    fn try_pop(&mut self) -> (r: Option<u64>)
        ensures
            ring_capacity(*final(self)) == ring_capacity(*old(self)),
            ring_contents(*old(self)).len() == 0 ==> r is None && ring_contents(*final(self))
                == ring_contents(*old(self)),
            ring_contents(*old(self)).len() > 0 ==> r == Some(ring_contents(*old(self))[0])
                && ring_contents(*final(self)) == ring_contents(*old(self)).drop_first(),
    {
        self.rb.try_pop()
    }

    /// Relies on ringbuf's `Observer::capacity`.
    #[verifier::external_body]
    fn capacity(&self) -> (c: usize)
        ensures
            c == ring_capacity(*self),
    {
        self.rb.capacity().get()
    }

    /// Relies on ringbuf's `Observer::occupied_len`.
    #[verifier::external_body]
    fn occupied_len(&self) -> (n: usize)
        ensures
            n == ring_contents(*self).len(),
    {
        self.rb.occupied_len()
    }
}

/// The handoff buffer: the ring plus ghost accounting of how many samples
/// were ever accepted from the producer and ever yielded to the consumer.
pub struct HandoffBuffer {
    ring: HandoffRing,
    accepted: Ghost<nat>,
    yielded: Ghost<nat>,
}

impl View for HandoffBuffer {
    type V = Seq<u64>;

    /// A handoff buffer is viewed as the queue it currently holds,
    /// oldest sample first.
    closed spec fn view(&self) -> Seq<u64> {
        ring_contents(self.ring)
    }
}

impl HandoffBuffer {
    /// The fixed capacity chosen at construction.
    pub closed spec fn spec_capacity(self) -> nat {
        ring_capacity(self.ring)
    }

    /// Samples ever accepted by [`HandoffBuffer::push`] (dropped ones do not
    /// count).
    pub closed spec fn spec_accepted(self) -> nat {
        self.accepted@
    }

    /// Samples ever handed out by [`HandoffBuffer::pop`] or
    /// [`HandoffBuffer::pop_or`] (substituted neutral samples do not count).
    pub closed spec fn spec_yielded(self) -> nat {
        self.yielded@
    }

    /// Free slots left in the queue.
    pub open spec fn spec_free(self) -> nat {
        (self.spec_capacity() - self@.len()) as nat
    }

    /// How many of `offered` samples a push accepts: all of them if they
    /// fit, otherwise exactly as many as there are free slots.
    pub open spec fn spec_accept_count(self, offered: nat) -> nat {
        if offered <= self.spec_free() {
            offered
        } else {
            self.spec_free()
        }
    }

    /// Well-formedness: the queue never exceeds its capacity, and every
    /// sample in it was accepted and not yet yielded.
    pub open spec fn wf(self) -> bool {
        &&& self.spec_capacity() >= 1
        &&& self@.len() <= self.spec_capacity()
        &&& self.spec_yielded() + self@.len() == self.spec_accepted()
    }

    /// An empty buffer of the given fixed capacity.
    pub fn new(capacity: usize) -> (b: HandoffBuffer)
        requires
            capacity >= 1,
        ensures
            b.wf(),
            b@ == Seq::<u64>::empty(),
            b.spec_capacity() == capacity,
            b.spec_accepted() == 0,
    {
        HandoffBuffer { ring: HandoffRing::new(capacity), accepted: Ghost(0), yielded: Ghost(0) }
    }

    /// Enqueues as much of `data` as fits: with `k` free slots, exactly the
    /// first `k` samples of `data` are accepted and the rest are silently
    /// dropped. Never blocks, never reports an error.
    pub fn push(&mut self, data: &[u64]) -> (n: usize)
        requires
            old(self).wf(),
        ensures
            final(self).wf(),
            final(self).spec_capacity() == old(self).spec_capacity(),
            n == old(self).spec_accept_count(data@.len()),
            final(self)@ == old(self)@ + data@.take(n as int),
            final(self).spec_accepted() == old(self).spec_accepted() + n,
            final(self).spec_yielded() == old(self).spec_yielded(),
    {
        let n = self.ring.push_slice(data);
        proof {
            self.accepted@ = self.accepted@ + n as nat;
        }
        n
    }

    /// Dequeues the eldest sample, or nothing when the buffer is empty.
    /// Never blocks.
    pub fn pop(&mut self) -> (r: Option<u64>)
        requires
            old(self).wf(),
        ensures
            final(self).wf(),
            final(self).spec_capacity() == old(self).spec_capacity(),
            final(self).spec_accepted() == old(self).spec_accepted(),
            old(self)@.len() == 0 ==> r is None && final(self)@ == old(self)@
                && final(self).spec_yielded() == old(self).spec_yielded(),
            old(self)@.len() > 0 ==> r == Some(old(self)@[0])
                && final(self)@ == old(self)@.drop_first()
                && final(self).spec_yielded() == old(self).spec_yielded() + 1,
    {
        let r = self.ring.try_pop();
        proof {
            if r is Some {
                self.yielded@ = self.yielded@ + 1;
            }
        }
        r
    }

    /// Dequeues the eldest sample, substituting the given neutral (silence)
    /// sample when the buffer has run empty — an underrun never blocks and
    /// never fails.
    pub fn pop_or(&mut self, neutral: u64) -> (s: u64)
        requires
            old(self).wf(),
        ensures
            final(self).wf(),
            final(self).spec_capacity() == old(self).spec_capacity(),
            final(self).spec_accepted() == old(self).spec_accepted(),
            old(self)@.len() == 0 ==> s == neutral && final(self)@ == old(self)@,
            old(self)@.len() > 0 ==> s == old(self)@[0] && final(self)@ == old(self)@.drop_first(),
    {
        match self.pop() {
            Some(s) => s,
            None => neutral,
        }
    }

    /// The fixed capacity.
    pub fn capacity(&self) -> (c: usize)
        ensures
            c == self.spec_capacity(),
    {
        self.ring.capacity()
    }

    /// How many samples are queued right now.
    pub fn len(&self) -> (n: usize)
        ensures
            n == self@.len(),
    {
        self.ring.occupied_len()
    }

    /// The buffer never yields more samples than it accepted: every sample
    /// handed out by a pop was first accepted by a push.
    pub proof fn lemma_never_yields_more_than_accepted(self)
        requires
            self.wf(),
        ensures
            self.spec_yielded() <= self.spec_accepted(),
    {
    }
}

} // verus!
