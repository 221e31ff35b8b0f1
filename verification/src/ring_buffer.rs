//! The transmit ring buffer: a bounded first-in first-out byte queue that the
//! frame encoder fills and the transmit interrupt drains.

use vstd::prelude::*;

verus! {

/// Number of bytes the transmit ring buffer can hold.
pub const RING_CAPACITY: usize = 256;

/// The queue behind the ring buffer, a `heapless::spsc::Queue` of 256 bytes.
///
/// Its bounds name traits that `heapless` keeps private, so the verifier sees
/// it only as an opaque value whose contents are `queue_contents`.
#[verifier::external_body]
pub struct ByteQueue {
    queue: heapless::spsc::Queue<u8, heapless::consts::U256>,
}

/// The bytes a queue holds, oldest first.
pub uninterp spec fn queue_contents(q: ByteQueue) -> Seq<u8>;

/// `heapless::spsc::Queue::new`: the new queue holds nothing.
#[verifier::external_body]
fn queue_new() -> (q: ByteQueue)
    ensures
        queue_contents(q) == Seq::<u8>::empty(),
{
    ByteQueue { queue: heapless::spsc::Queue::new() }
}

/// `heapless::spsc::Queue::len`: the number of bytes held.
#[verifier::external_body]
fn queue_len(q: &ByteQueue) -> (n: usize)
    ensures
        n == queue_contents(*q).len(),
{
    q.queue.len()
}

/// `heapless::spsc::Queue::enqueue`: while fewer than 256 bytes are held the
/// byte is added at the back; a full queue hands the byte back and keeps its
/// contents.
#[verifier::external_body]
fn queue_enqueue(q: &mut ByteQueue, byte: u8) -> (r: Result<(), u8>)
    ensures
        r is Ok <==> queue_contents(*old(q)).len() < RING_CAPACITY,
        r is Ok ==> queue_contents(*final(q)) == queue_contents(*old(q)).push(byte),
        r matches Err(back) ==> back == byte && queue_contents(*final(q)) == queue_contents(
            *old(q),
        ),
{
    q.queue.enqueue(byte)
}

/// `heapless::spsc::Queue::dequeue`: the oldest byte leaves the queue; an
/// empty queue gives `None` and stays empty.
#[verifier::external_body]
fn queue_dequeue(q: &mut ByteQueue) -> (r: Option<u8>)
    ensures
        r is None <==> queue_contents(*old(q)).len() == 0,
        r is None ==> queue_contents(*final(q)) == queue_contents(*old(q)),
        r matches Some(byte) ==> byte == queue_contents(*old(q))[0] && queue_contents(*final(q))
            == queue_contents(*old(q)).skip(1),
{
    q.queue.dequeue()
}

/// What a ring buffer holding `queue` holds after `data` is offered to it: the
/// bytes that still fit are added in order, the excess is dropped.
pub open spec fn accept(queue: Seq<u8>, data: Seq<u8>) -> Seq<u8> {
    queue + data.take(accepted_len(queue, data) as int)
}

/// How many bytes of `data` a ring buffer holding `queue` takes.
pub open spec fn accepted_len(queue: Seq<u8>, data: Seq<u8>) -> nat {
    if queue.len() + data.len() <= RING_CAPACITY {
        data.len()
    } else if queue.len() <= RING_CAPACITY {
        (RING_CAPACITY - queue.len()) as nat
    } else {
        0
    }
}

/// Offering `a` and then `b` is offering `a + b`.
pub proof fn lemma_accept_concat(queue: Seq<u8>, a: Seq<u8>, b: Seq<u8>)
    requires
        queue.len() <= RING_CAPACITY,
    ensures
        accept(accept(queue, a), b) == accept(queue, a + b),
        accept(queue, a).len() <= RING_CAPACITY,
{
    let na = accepted_len(queue, a) as int;
    let mid = accept(queue, a);
    let nb = accepted_len(mid, b) as int;
    let nab = accepted_len(queue, a + b) as int;
    assert(nab == na + nb);
    assert((a + b).take(nab) =~= a.take(na) + b.take(nb));
    assert(accept(mid, b) =~= accept(queue, a + b));
}

/// Offering nothing changes nothing.
pub proof fn lemma_accept_empty(queue: Seq<u8>)
    ensures
        accept(queue, Seq::<u8>::empty()) == queue,
{
    assert(accept(queue, Seq::<u8>::empty()) =~= queue);
}

/// The transmit ring buffer.
pub struct TransmitRingBuffer {
    queue: ByteQueue,
}

impl View for TransmitRingBuffer {
    type V = Seq<u8>;

    /// The queued bytes, oldest first.
    closed spec fn view(&self) -> Seq<u8> {
        queue_contents(self.queue)
    }
}

impl TransmitRingBuffer {
    /// The capacity is never exceeded.
    pub open spec fn wf(&self) -> bool {
        self@.len() <= RING_CAPACITY
    }

    /// An empty ring buffer.
    pub fn new() -> (rb: Self)
        ensures
            rb.wf(),
            rb@ == Seq::<u8>::empty(),
    {
        TransmitRingBuffer { queue: queue_new() }
    }

    /// Number of bytes queued.
    pub fn len(&self) -> (n: usize)
        ensures
            n == self@.len(),
    {
        queue_len(&self.queue)
    }

    /// Whether nothing is queued.
    pub fn is_empty(&self) -> (b: bool)
        ensures
            b == (self@.len() == 0),
    {
        queue_len(&self.queue) == 0
    }

    /// Queues one byte, or hands it back when the buffer is full.
    pub fn enqueue(&mut self, byte: u8) -> (r: Result<(), u8>)
        requires
            old(self).wf(),
        ensures
            final(self).wf(),
            r is Ok <==> old(self)@.len() < RING_CAPACITY,
            r is Ok ==> final(self)@ == old(self)@.push(byte),
            r matches Err(back) ==> back == byte && final(self)@ == old(self)@,
    {
        queue_enqueue(&mut self.queue, byte)
    }

    /// Takes the oldest byte out, if there is one.
    pub fn dequeue(&mut self) -> (r: Option<u8>)
        requires
            old(self).wf(),
        ensures
            final(self).wf(),
            r is None <==> old(self)@.len() == 0,
            r is None ==> final(self)@ == old(self)@,
            r matches Some(byte) ==> byte == old(self)@[0] && final(self)@ == old(self)@.skip(1),
    {
        queue_dequeue(&mut self.queue)
    }

    /// Queues as many bytes of `data` as fit, in order, and drops the rest.
    /// Returns how many were queued.
    pub fn insert_mult(&mut self, data: &[u8]) -> (inserted: usize)
        requires
            old(self).wf(),
        ensures
            final(self).wf(),
            final(self)@ == accept(old(self)@, data@),
            inserted == accepted_len(old(self)@, data@),
    {
        let mut i: usize = 0;
        while i < data.len()
            invariant
                i <= data.len(),
                self.wf(),
                old(self).wf(),
                self@ == old(self)@ + data@.take(i as int),
            ensures
                i <= data.len(),
                self.wf(),
                self@ == old(self)@ + data@.take(i as int),
                i == data.len() || self@.len() == RING_CAPACITY,
            decreases data.len() - i,
        {
            let byte = data[i];
            match self.enqueue(byte) {
                Ok(()) => {
                    assert(data@.take(i as int).push(byte) =~= data@.take(i + 1));
                    i += 1;
                },
                Err(_) => {
                    break ;
                },
            }
        }
        i
    }
}

} // verus!
