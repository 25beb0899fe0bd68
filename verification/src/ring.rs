//! A fixed-capacity FIFO of interleaved PCM samples, backed by a
//! single-producer/single-consumer ring of the `rtrb` crate.

use rtrb::{Consumer, Producer, RingBuffer};
use vstd::prelude::*;

verus! {

#[verifier::external_type_specification]
#[verifier::external_body]
#[verifier::reject_recursive_types(T)]
pub struct ExProducer<T>(Producer<T>);

#[verifier::external_type_specification]
#[verifier::external_body]
#[verifier::reject_recursive_types(T)]
pub struct ExConsumer<T>(Consumer<T>);

/// The samples waiting in the ring that `cons` reads from, oldest first.
pub uninterp spec fn ring_contents(cons: Consumer<i16>) -> Seq<i16>;

/// The number of slots that the ring `prod` writes to was created with.
pub uninterp spec fn ring_capacity(prod: Producer<i16>) -> nat;

/// A fixed-capacity FIFO of samples: both ends of one `rtrb` ring, with the
/// capacity it was made with.
///
/// The two ends always stem from the same `RingBuffer::new` call: no other
/// function builds a `RingChannel`, and neither end ever leaves it. Whoever
/// holds the channel therefore holds the whole ring, so that nothing else
/// writes or reads it between two calls, and what it holds is a plain
/// sequence of samples.
pub struct RingChannel {
    prod: Producer<i16>,
    cons: Consumer<i16>,
    slots: usize,
}

/// `rtrb::RingBuffer::<i16>::new`: allocates a ring of `capacity` slots and
/// hands back its two ends; the ring starts empty. The allocation panics when
/// the slots take more than `isize::MAX` bytes, which `requires` rules out.
#[verifier::external_body]
fn ring_new(capacity: usize) -> (ends: (Producer<i16>, Consumer<i16>))
    requires
        2 * capacity <= isize::MAX,
    ensures
        ring_contents(ends.1) == Seq::<i16>::empty(),
        ring_capacity(ends.0) == capacity,
{
    RingBuffer::<i16>::new(capacity)
}

/// `rtrb::Producer::push` on the writing end: appends `sample` behind the
/// waiting samples when fewer than the ring's capacity are waiting, and
/// otherwise reports the ring as full and leaves it as it was. What was
/// written is what the reading end of the same ring then finds.
#[verifier::external_body]
fn ring_push(ring: &mut RingChannel, sample: i16) -> (accepted: bool)
    ensures
        accepted == (ring_contents(old(ring).cons).len() < ring_capacity(old(ring).prod)),
        accepted ==> ring_contents(final(ring).cons) == ring_contents(old(ring).cons).push(sample),
        !accepted ==> ring_contents(final(ring).cons) == ring_contents(old(ring).cons),
        ring_capacity(final(ring).prod) == ring_capacity(old(ring).prod),
        final(ring).slots == old(ring).slots,
{
    ring.prod.push(sample).is_ok()
}

/// `rtrb::Consumer::pop` on the reading end: takes the oldest waiting sample
/// out of the ring, or reports the ring as empty and leaves it as it was.
#[verifier::external_body]
fn ring_pop(ring: &mut RingChannel) -> (sample: Option<i16>)
    ensures
        sample.is_some() == (ring_contents(old(ring).cons).len() > 0),
        sample.is_some() ==> sample == Some(ring_contents(old(ring).cons).first())
            && ring_contents(final(ring).cons) == ring_contents(old(ring).cons).drop_first(),
        sample.is_none() ==> ring_contents(final(ring).cons) == ring_contents(old(ring).cons),
        ring_capacity(final(ring).prod) == ring_capacity(old(ring).prod),
        final(ring).slots == old(ring).slots,
{
    ring.cons.pop().ok()
}

/// `rtrb::Producer::slots` on the writing end: the number of slots free for
/// writing, which is the capacity less the number of waiting samples.
#[verifier::external_body]
fn ring_free_slots(ring: &RingChannel) -> (free: usize)
    ensures
        free == ring_capacity(ring.prod) - ring_contents(ring.cons).len(),
{
    ring.prod.slots()
}

impl RingChannel {
    /// The waiting samples, oldest first.
    pub closed spec fn view(&self) -> Seq<i16> {
        ring_contents(self.cons)
    }

    /// The fixed number of slots.
    pub closed spec fn capacity(&self) -> nat {
        self.slots as nat
    }

    /// The recorded capacity is the ring's own, and never more samples wait
    /// than there are slots.
    pub closed spec fn wf(&self) -> bool {
        &&& ring_capacity(self.prod) == self.slots
        &&& ring_contents(self.cons).len() <= self.slots
    }

    /// A well-formed ring holds at most `capacity` samples, and its capacity
    /// is a number that fits a machine word.
    pub proof fn lemma_bounded(&self)
        requires
            self.wf(),
        ensures
            self@.len() <= self.capacity(),
            self.capacity() <= usize::MAX,
    {
    }

    /// An empty ring with `capacity` slots.
    pub fn new(capacity: usize) -> (ring: RingChannel)
        requires
            2 * capacity <= isize::MAX,
        ensures
            ring.wf(),
            ring@ == Seq::<i16>::empty(),
            ring.capacity() == capacity,
    {
        let (prod, cons) = ring_new(capacity);
        RingChannel { prod, cons, slots: capacity }
    }

    /// Enqueues one sample unless the ring is full; never blocks.
    pub fn push(&mut self, sample: i16) -> (accepted: bool)
        requires
            old(self).wf(),
        ensures
            final(self).wf(),
            final(self).capacity() == old(self).capacity(),
            accepted == (old(self)@.len() < old(self).capacity()),
            final(self)@ == if accepted { old(self)@.push(sample) } else { old(self)@ },
    {
        ring_push(self, sample)
    }

    /// Dequeues the oldest sample, if any; never blocks.
    pub fn pop(&mut self) -> (sample: Option<i16>)
        requires
            old(self).wf(),
        ensures
            final(self).wf(),
            final(self).capacity() == old(self).capacity(),
            sample == if old(self)@.len() > 0 { Some(old(self)@.first()) } else { None },
            final(self)@ == if old(self)@.len() > 0 { old(self)@.drop_first() } else { old(self)@ },
    {
        ring_pop(self)
    }

    /// The number of samples waiting.
    pub fn occupied_slots(&self) -> (n: usize)
        requires
            self.wf(),
        ensures
            n == self@.len(),
    {
        let free: usize = ring_free_slots(self);
        self.slots - free
    }

    /// The number of slots free for writing.
    pub open spec fn free(&self) -> nat {
        (self.capacity() - self@.len()) as nat
    }

    /// The number of slots free for writing.
    pub fn free_slots(&self) -> (n: usize)
        requires
            self.wf(),
        ensures
            n == self.free(),
    {
        ring_free_slots(self)
    }

    /// The fixed number of slots.
    pub fn total_slots(&self) -> (n: usize)
        ensures
            n == self.capacity(),
    {
        self.slots
    }

    /// Enqueues `data` in order until the ring is full and abandons the rest:
    /// exactly the first `min(data.len(), free)` samples are enqueued, and
    /// their number is returned.
    pub fn push_batch(&mut self, data: &[i16]) -> (pushed: usize)
        requires
            old(self).wf(),
        ensures
            final(self).wf(),
            final(self).capacity() == old(self).capacity(),
            pushed == fitting(data@.len(), old(self).free()),
            final(self)@ == old(self)@ + data@.take(pushed as int),
    {
        let mut pushed: usize = 0;
        while pushed < data.len()
            invariant
                self.wf(),
                self.capacity() == old(self).capacity(),
                pushed <= data@.len(),
                self@ == old(self)@ + data@.take(pushed as int),
            ensures
                pushed == fitting(data@.len(), old(self).free()),
            decreases data@.len() - pushed,
        {
            let accepted = self.push(data[pushed]);
            if !accepted {
                break;
            }
            pushed += 1;
        }
        pushed
    }

    /// Dequeues up to `limit` samples, oldest first: exactly the first
    /// `min(limit, waiting)` samples leave the ring, in order.
    pub fn pop_batch(&mut self, limit: usize) -> (out: Vec<i16>)
        requires
            old(self).wf(),
        ensures
            final(self).wf(),
            final(self).capacity() == old(self).capacity(),
            out@ == old(self)@.take(fitting(limit as nat, old(self)@.len()) as int),
            final(self)@ == old(self)@.skip(fitting(limit as nat, old(self)@.len()) as int),
    {
        let mut out: Vec<i16> = Vec::new();
        while out.len() < limit
            invariant
                self.wf(),
                self.capacity() == old(self).capacity(),
                out@.len() <= limit,
                out@.len() <= old(self)@.len(),
                out@ == old(self)@.take(out@.len() as int),
                self@ == old(self)@.skip(out@.len() as int),
            ensures
                out@.len() == fitting(limit as nat, old(self)@.len()),
            decreases limit - out@.len(),
        {
            match self.pop() {
                Some(sample) => {
                    out.push(sample);
                },
                None => {
                    break;
                },
            }
        }
        out
    }
}

/// How many of `wanted` items fit into `room` places.
pub open spec fn fitting(wanted: nat, room: nat) -> nat {
    if wanted <= room {
        wanted
    } else {
        room
    }
}

} // verus!
