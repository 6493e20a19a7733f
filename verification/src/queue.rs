//! Bounded sample queue bridging the input and output callbacks.
//!
//! A fixed-capacity single-producer/single-consumer FIFO of samples (`f32`
//! bit patterns), backed by the lock-free ring buffer of the `ringbuf` crate.
//! The queue never blocks: a push that finds it full drops the new sample, a
//! pop that finds it empty reports so and the caller substitutes silence.
//! The ring buffer itself is outside code; its contents and capacity are
//! named by uninterpreted functions, every operation is specified over those
//! names as the `ringbuf` sources show, and the block operations the audio
//! callbacks need are verified against them.

use vstd::prelude::*;

verus! {

/// Fixed-capacity FIFO of samples, created once per pipeline run with a
/// capacity of two seconds of audio. Holds the two halves of a split
/// `ringbuf::HeapRb<u32>`.
#[verifier::external_body]
pub struct SampleQueue {
    producer: ringbuf::HeapProducer<u32>,
    consumer: ringbuf::HeapConsumer<u32>,
}

/// The samples currently queued, oldest first.
pub uninterp spec fn queue_samples(q: SampleQueue) -> Seq<u32>;

/// The capacity the queue was created with; it never changes.
pub uninterp spec fn queue_capacity(q: SampleQueue) -> nat;

/// The queue contents after offering every sample of `block` in order to a
/// queue holding `s0`: the first samples of `block` fill the remaining room,
/// and every later one is dropped (the newest samples are lost, never the
/// queued ones).
pub open spec fn enqueue_result(s0: Seq<u32>, cap: nat, block: Seq<u32>) -> Seq<u32> {
    if s0.len() <= cap {
        let room = if cap - s0.len() < block.len() {
            cap - s0.len()
        } else {
            block.len() as int
        };
        s0 + block.take(room)
    } else {
        s0
    }
}

impl SampleQueue {
    /// Relies on `ringbuf::HeapRb::new` and `split`: a freshly created ring
    /// buffer of the given capacity is empty. `HeapRb::new` panics on a zero
    /// capacity, so that is required away.
    #[verifier::external_body]
    pub fn with_capacity(capacity: usize) -> (q: SampleQueue)
        requires
            capacity >= 1,
        ensures
            queue_samples(q) == Seq::<u32>::empty(),
            queue_capacity(q) == capacity,
    {
        let (producer, consumer) = ringbuf::HeapRb::new(capacity).split();
        SampleQueue { producer, consumer }
    }

    /// Relies on `ringbuf::Producer::push`: the sample is appended and `Ok`
    /// returned when the buffer is not full, otherwise the buffer is left as
    /// it was and the sample comes back in the `Err`.
    #[verifier::external_body]
    pub fn try_push(&mut self, sample: u32) -> (ok: bool)
        ensures
            queue_capacity(*final(self)) == queue_capacity(*old(self)),
            queue_samples(*old(self)).len() < queue_capacity(*old(self)) ==> ok && queue_samples(
                *final(self),
            ) == queue_samples(*old(self)).push(sample),
            queue_samples(*old(self)).len() >= queue_capacity(*old(self)) ==> !ok && queue_samples(
                *final(self),
            ) == queue_samples(*old(self)),
    {
        self.producer.push(sample).is_ok()
    }

    /// Relies on `ringbuf::Consumer::pop`: the oldest queued sample is
    /// removed and returned, or `None` if the buffer is empty.
    #[verifier::external_body]
    pub fn try_pop(&mut self) -> (r: Option<u32>)
        ensures
            queue_capacity(*final(self)) == queue_capacity(*old(self)),
            queue_samples(*old(self)).len() > 0 ==> r == Some(queue_samples(*old(self))[0])
                && queue_samples(*final(self)) == queue_samples(*old(self)).skip(1),
            queue_samples(*old(self)).len() == 0 ==> r is None && queue_samples(*final(self))
                == queue_samples(*old(self)),
    {
        self.consumer.pop()
    }

    /// Relies on `ringbuf::Consumer::len`: the number of samples queued.
    #[verifier::external_body]
    pub fn len(&self) -> (n: usize)
        ensures
            n == queue_samples(*self).len(),
    {
        self.consumer.len()
    }

    /// Relies on `ringbuf::Consumer::capacity`: the fixed capacity.
    #[verifier::external_body]
    pub fn capacity(&self) -> (n: usize)
        ensures
            n == queue_capacity(*self),
    {
        self.consumer.capacity()
    }

    /// Offer every sample of a block to the queue in order, dropping the
    /// samples that find it full, as the input callback does. Never blocks
    /// and never fails.
    pub fn push_block(&mut self, block: &Vec<u32>)
        ensures
            queue_capacity(*final(self)) == queue_capacity(*old(self)),
            queue_samples(*final(self)) == enqueue_result(
                queue_samples(*old(self)),
                queue_capacity(*old(self)),
                block@,
            ),
    {
        let ghost s0 = queue_samples(*old(self));
        let ghost cap = queue_capacity(*old(self));
        let n = block.len();
        let mut j: usize = 0;
        proof {
            assert(block@.take(0) =~= Seq::<u32>::empty());
            assert(s0 + block@.take(0) =~= s0);
        }
        while j < n
            invariant
                n == block@.len(),
                j <= n,
                queue_capacity(*self) == cap,
                queue_samples(*self) == enqueue_result(s0, cap, block@.take(j as int)),
            decreases n - j,
        {
            let ghost before = queue_samples(*self);
            self.try_push(block[j]);
            proof {
                if s0.len() <= cap {
                    let room: int = cap - s0.len();
                    let rj: int = if room < j { room } else { j as int };
                    assert(before == s0 + block@.take(j as int).take(rj));
                    if before.len() < cap {
                        // Still filling: the whole prefix went in and this
                        // sample went in too.
                        assert(rj == j && j < room);
                        assert(block@.take(j as int).take(j as int) =~= block@.take(j as int));
                        assert(block@.take(j + 1).take(j + 1) =~= block@.take(j + 1));
                        assert((s0 + block@.take(j as int)).push(block@[j as int]) =~= s0
                            + block@.take(j + 1));
                        assert(queue_samples(*self) == enqueue_result(s0, cap, block@.take(j + 1)));
                    } else {
                        // Full: the sample was dropped and the first `room`
                        // block samples remain the ones that got in.
                        assert(rj == room);
                        assert(block@.take(j + 1).take(room) =~= block@.take(room));
                        assert(block@.take(j as int).take(room) =~= block@.take(room));
                        assert(queue_samples(*self) == enqueue_result(s0, cap, block@.take(j + 1)));
                    }
                } else {
                    assert(queue_samples(*self) == enqueue_result(s0, cap, block@.take(j + 1)));
                }
            }
            j = j + 1;
        }
        proof {
            assert(block@.take(n as int) =~= block@);
        }
    }

    /// Fill a block of the given length from the queue, substituting silence
    /// (the bit pattern of `0.0`) for every slot that finds the queue empty,
    /// as the output callback does. Never blocks and never fails.
    pub fn pop_block(&mut self, count: usize) -> (out: Vec<u32>)
        ensures
            queue_capacity(*final(self)) == queue_capacity(*old(self)),
            out@.len() == count,
            forall|i: int|
                0 <= i < count ==> out@[i] == if i < queue_samples(*old(self)).len() {
                    queue_samples(*old(self))[i]
                } else {
                    0u32
                },
            queue_samples(*final(self)) == if count < queue_samples(*old(self)).len() {
                queue_samples(*old(self)).skip(count as int)
            } else {
                Seq::<u32>::empty()
            },
    {
        let ghost s0 = queue_samples(*old(self));
        let ghost cap = queue_capacity(*old(self));
        let mut out: Vec<u32> = Vec::new();
        let mut j: usize = 0;
        proof {
            assert(s0.skip(0) =~= s0);
        }
        while j < count
            invariant
                j <= count,
                out@.len() == j,
                queue_capacity(*self) == cap,
                forall|i: int|
                    0 <= i < j ==> out@[i] == if i < s0.len() {
                        s0[i]
                    } else {
                        0u32
                    },
                queue_samples(*self) == if j < s0.len() {
                    s0.skip(j as int)
                } else {
                    Seq::<u32>::empty()
                },
            decreases count - j,
        {
            proof {
                if j < s0.len() {
                    assert(queue_samples(*self)[0] == s0[j as int]);
                    assert(s0.skip(j as int).skip(1) =~= s0.skip(j + 1));
                    if !(j + 1 < s0.len()) {
                        assert(s0.skip(j + 1) =~= Seq::<u32>::empty());
                    }
                }
            }
            match self.try_pop() {
                Some(v) => out.push(v),
                None => out.push(0u32),
            }
            j = j + 1;
        }
        out
    }
}

/// The overflow policy drops the newest samples, never the queued ones: when
/// one block longer than the whole capacity is offered to an empty queue, the
/// queue ends up holding exactly the first `cap` samples of the block, in
/// order, and every later sample of the block is gone. Popping then returns
/// those samples oldest-first, so pushing `cap + 1` samples and popping `cap`
/// yields the first `cap` pushed values.
pub proof fn lemma_overflow_drops_newest(cap: nat, block: Seq<u32>)
    requires
        block.len() > cap,
    ensures
        enqueue_result(Seq::<u32>::empty(), cap, block) =~= block.take(cap as int),
{
    assert(Seq::<u32>::empty() + block.take(cap as int) =~= block.take(cap as int));
}

} // verus!
