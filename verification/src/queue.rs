//! Bounded byte FIFO shared between an interrupt-context producer and the
//! foreground consumer.
//!
//! The storage is a `heapless::spsc::Queue`, kept behind trusted wrappers
//! whose contracts state what the crate's source shows of it: `enqueue`
//! appends when there is room and drops the byte otherwise, `dequeue`
//! removes the oldest byte. Everything above the wrappers is verified:
//! [`InputQueue::drain_all`] is a proved loop, and the ordering and
//! overflow laws at the bottom of the module are proved from the
//! enqueue model alone.
//!
//! Mutual exclusion between the two contexts is not this module's concern:
//! the surrounding firmware wraps the queue in a critical section for the
//! duration of a single `enqueue` or a full `drain_all`.

use vstd::prelude::*;

use crate::constants::QUEUE_CAPACITY;
use crate::constants::QUEUE_SLOTS;

verus! {

/// Declares `heapless::spsc::Queue` to the verifier; the value is opaque,
/// its contents are named by [`ring_contents`].
#[verifier::external_type_specification]
#[verifier::external_body]
#[verifier::reject_recursive_types(T)]
pub struct ExSpscQueue<T, const N: usize>(heapless::spsc::Queue<T, N>);

/// The bytes held by the backing ring, oldest first.
pub uninterp spec fn ring_contents(q: heapless::spsc::Queue<u8, QUEUE_SLOTS>) -> Seq<u8>;

/// Relies on `heapless::spsc::Queue::new`: an empty queue.
#[verifier::external_body]
fn ring_new() -> (r: heapless::spsc::Queue<u8, QUEUE_SLOTS>)
    ensures
        ring_contents(r) == Seq::<u8>::empty(),
{
    heapless::spsc::Queue::new()
}

/// Relies on `heapless::spsc::Queue::enqueue`: appends at the tail, or
/// returns the byte when the ring already holds `QUEUE_SLOTS - 1` bytes.
#[verifier::external_body]
fn ring_enqueue(q: &mut heapless::spsc::Queue<u8, QUEUE_SLOTS>, byte: u8) -> (r: bool)
    ensures
        ring_contents(*old(q)).len() < QUEUE_CAPACITY ==> r && ring_contents(*final(q))
            == ring_contents(*old(q)).push(byte),
        ring_contents(*old(q)).len() >= QUEUE_CAPACITY ==> !r && ring_contents(*final(q))
            == ring_contents(*old(q)),
{
    q.enqueue(byte).is_ok()
}

/// Relies on `heapless::spsc::Queue::dequeue`: removes and returns the
/// byte at the head, or returns nothing when the ring is empty.
#[verifier::external_body]
fn ring_dequeue(q: &mut heapless::spsc::Queue<u8, QUEUE_SLOTS>) -> (r: Option<u8>)
    ensures
        ring_contents(*old(q)).len() > 0 ==> r == Some(ring_contents(*old(q))[0])
            && ring_contents(*final(q)) == ring_contents(*old(q)).drop_first(),
        ring_contents(*old(q)).len() == 0 ==> r is None && ring_contents(*final(q))
            == ring_contents(*old(q)),
{
    q.dequeue()
}

/// Relies on `heapless::spsc::Queue::len`: the number of bytes held.
#[verifier::external_body]
fn ring_len(q: &heapless::spsc::Queue<u8, QUEUE_SLOTS>) -> (r: usize)
    ensures
        r == ring_contents(*q).len(),
{
    q.len()
}

/// What one attempted enqueue leaves in a queue holding `s`: the byte is
/// appended when there is room and dropped otherwise.
pub open spec fn enqueue_model(s: Seq<u8>, byte: u8) -> Seq<u8> {
    if s.len() < QUEUE_CAPACITY {
        s.push(byte)
    } else {
        s
    }
}

/// What enqueueing every byte of `input` in order leaves in a queue
/// holding `s`.
pub open spec fn enqueue_all(s: Seq<u8>, input: Seq<u8>) -> Seq<u8>
    decreases input.len(),
{
    if input.len() == 0 {
        s
    } else {
        enqueue_all(enqueue_model(s, input[0]), input.drop_first())
    }
}

/// Fixed-capacity FIFO of raw input bytes. The producer runs in interrupt
/// context and must never block, so an enqueue on a full queue drops the
/// byte silently; the consumer takes everything at once with
/// [`InputQueue::drain_all`].
pub struct InputQueue {
    ring: heapless::spsc::Queue<u8, QUEUE_SLOTS>,
}

impl View for InputQueue {
    type V = Seq<u8>;

    closed spec fn view(&self) -> Seq<u8> {
        ring_contents(self.ring)
    }
}

impl InputQueue {
    /// The queue never holds more than its capacity. Established by
    /// [`InputQueue::new`] and preserved by every operation.
    pub open spec fn wf(&self) -> bool {
        self@.len() <= QUEUE_CAPACITY
    }

    /// Creates an empty queue.
    pub fn new() -> (q: InputQueue)
        ensures
            q.wf(),
            q@ == Seq::<u8>::empty(),
    {
        InputQueue { ring: ring_new() }
    }

    /// Number of bytes currently queued.
    pub fn len(&self) -> (r: usize)
        ensures
            r == self@.len(),
    {
        ring_len(&self.ring)
    }

    /// Greatest number of bytes the queue can hold.
    pub fn capacity(&self) -> (r: usize)
        ensures
            r == QUEUE_CAPACITY,
    {
        QUEUE_CAPACITY
    }

    /// Attempts to append one byte, in arrival order. Returns `false` and
    /// drops the byte when the queue is full.
    pub fn enqueue(&mut self, byte: u8) -> (r: bool)
        requires
            old(self).wf(),
        ensures
            final(self).wf(),
            final(self)@ == enqueue_model(old(self)@, byte),
            r == (old(self)@.len() < QUEUE_CAPACITY),
    {
        ring_enqueue(&mut self.ring, byte)
    }

    /// Removes and returns every queued byte, oldest first, leaving the
    /// queue empty.
    pub fn drain_all(&mut self) -> (r: Vec<u8>)
        requires
            old(self).wf(),
        ensures
            final(self).wf(),
            r@ == old(self)@,
            final(self)@ == Seq::<u8>::empty(),
    {
        let mut drained: Vec<u8> = Vec::new();
        loop
            invariant
                self.wf(),
                drained@ + self@ == old(self)@,
            ensures
                self@.len() == 0,
            decreases self@.len(),
        {
            match ring_dequeue(&mut self.ring) {
                Some(byte) => {
                    drained.push(byte);
                },
                None => {
                    break ;
                },
            }
        }
        proof {
            assert(drained@ + self@ =~= drained@);
            assert(self@ =~= Seq::<u8>::empty());
        }
        drained
    }
}

/// Queue ordering law: enqueueing at most `QUEUE_CAPACITY` bytes into an
/// empty queue keeps exactly that sequence, in arrival order, which is what
/// [`InputQueue::drain_all`] then returns.
pub proof fn lemma_queue_order(input: Seq<u8>)
    requires
        input.len() <= QUEUE_CAPACITY,
    ensures
        enqueue_all(Seq::<u8>::empty(), input) == input,
{
    lemma_enqueue_all_fits(Seq::<u8>::empty(), input);
    assert(Seq::<u8>::empty() + input =~= input);
}

/// Queue overflow law: enqueueing more than `QUEUE_CAPACITY` bytes into an
/// empty queue keeps exactly the first `QUEUE_CAPACITY` of them; the rest
/// are dropped without disturbing the order of the remainder.
pub proof fn lemma_queue_overflow(input: Seq<u8>)
    requires
        input.len() > QUEUE_CAPACITY,
    ensures
        enqueue_all(Seq::<u8>::empty(), input) == input.take(QUEUE_CAPACITY as int),
{
    lemma_enqueue_all_overflow(Seq::<u8>::empty(), input);
    assert(Seq::<u8>::empty() + input.take(QUEUE_CAPACITY as int) =~= input.take(
        QUEUE_CAPACITY as int,
    ));
}

proof fn lemma_enqueue_all_fits(s: Seq<u8>, input: Seq<u8>)
    requires
        s.len() + input.len() <= QUEUE_CAPACITY,
    ensures
        enqueue_all(s, input) == s + input,
    decreases input.len(),
{
    if input.len() == 0 {
        assert(s + input =~= s);
    } else {
        lemma_enqueue_all_fits(s.push(input[0]), input.drop_first());
        assert(s.push(input[0]) + input.drop_first() =~= s + input);
    }
}

proof fn lemma_enqueue_all_when_full(s: Seq<u8>, input: Seq<u8>)
    requires
        s.len() >= QUEUE_CAPACITY,
    ensures
        enqueue_all(s, input) == s,
    decreases input.len(),
{
    if input.len() > 0 {
        lemma_enqueue_all_when_full(s, input.drop_first());
    }
}

proof fn lemma_enqueue_all_overflow(s: Seq<u8>, input: Seq<u8>)
    requires
        s.len() <= QUEUE_CAPACITY,
        s.len() + input.len() > QUEUE_CAPACITY,
    ensures
        enqueue_all(s, input) == s + input.take(QUEUE_CAPACITY - s.len()),
    decreases input.len(),
{
    if s.len() == QUEUE_CAPACITY {
        lemma_enqueue_all_when_full(s, input);
        assert(s + input.take(0) =~= s);
    } else {
        let rest = input.drop_first();
        lemma_enqueue_all_overflow(s.push(input[0]), rest);
        assert(s.push(input[0]) + rest.take(QUEUE_CAPACITY - s.len() - 1) =~= s + input.take(
            QUEUE_CAPACITY - s.len(),
        ));
    }
}

} // verus!
