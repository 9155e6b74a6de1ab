use vstd::prelude::*;
use ringbuf::Rb;

verus! {

/// The heap-allocated ring buffer of `ringbuf` that backs a [`SampleQueue`].
/// Its contents are known only through `ring_contents` and `ring_capacity`.
#[verifier::external_body]
pub struct Ring {
    rb: ringbuf::HeapRb<u32>,
}

/// The samples held by a ring, oldest first.
pub uninterp spec fn ring_contents(r: Ring) -> Seq<u32>;

/// The capacity that a ring was made with.
pub uninterp spec fn ring_capacity(r: Ring) -> nat;

/// Relies on `HeapRb::new`: an empty ring with room for `capacity` items.
/// It panics on a zero capacity, when the allocation size overflows `isize`,
/// and when the allocator cannot provide the memory.
#[verifier::external_body]
fn ring_new(capacity: usize) -> (r: Ring)
    requires
        0 < capacity,
        capacity as int * 4 <= isize::MAX as int,
    ensures
        ring_contents(r) == Seq::<u32>::empty(),
        ring_capacity(r) == capacity as nat,
{
    Ring { rb: ringbuf::HeapRb::new(capacity) }
}

/// Relies on `Rb::push`: appends the sample unless the ring is full, in
/// which case the sample comes back in `Err`.
#[verifier::external_body]
fn ring_push(r: &mut Ring, s: u32) -> (res: Result<(), u32>)
    ensures
        ring_capacity(*final(r)) == ring_capacity(*old(r)),
        ring_contents(*old(r)).len() < ring_capacity(*old(r)) ==> res is Ok
            && ring_contents(*final(r)) == ring_contents(*old(r)).push(s),
        ring_contents(*old(r)).len() >= ring_capacity(*old(r)) ==> res is Err && res->Err_0 == s
            && ring_contents(*final(r)) == ring_contents(*old(r)),
{
    r.rb.push(s)
}

/// Relies on `Rb::pop`: removes and returns the oldest sample, or `None`
/// when the ring is empty.
#[verifier::external_body]
fn ring_pop(r: &mut Ring) -> (res: Option<u32>)
    ensures
        ring_capacity(*final(r)) == ring_capacity(*old(r)),
        ring_contents(*old(r)).len() > 0 ==> res == Some(ring_contents(*old(r))[0])
            && ring_contents(*final(r)) == ring_contents(*old(r)).drop_first(),
        ring_contents(*old(r)).len() == 0 ==> res is None
            && ring_contents(*final(r)) == ring_contents(*old(r)),
{
    r.rb.pop()
}

/// Relies on `Rb::len`: the number of samples stored.
#[verifier::external_body]
fn ring_len(r: &Ring) -> (n: usize)
    ensures
        n == ring_contents(*r).len(),
{
    r.rb.len()
}

/// The largest capacity a queue can be made with: a ring of this many
/// samples still has an allocation size that fits in `isize`.
pub open spec fn capacity_fits(capacity: nat) -> bool {
    capacity * 4 <= isize::MAX as int
}

/// A fixed-capacity FIFO queue of samples. `try_push` never blocks: when
/// the queue is full the sample is handed back to the caller and dropped.
pub struct SampleQueue {
    ring: Ring,
    cap: usize,
}

/// What a queue holds, oldest first, and its fixed capacity.
pub struct QueueView {
    pub contents: Seq<u32>,
    pub capacity: nat,
}

impl View for SampleQueue {
    type V = QueueView;

    closed spec fn view(&self) -> QueueView {
        QueueView { contents: ring_contents(self.ring), capacity: self.cap as nat }
    }
}

impl QueueView {
    /// Room left before a push fails.
    pub open spec fn free(self) -> nat {
        if self.contents.len() <= self.capacity {
            (self.capacity - self.contents.len()) as nat
        } else {
            0
        }
    }
}

impl SampleQueue {
    pub closed spec fn wf(&self) -> bool {
        &&& ring_capacity(self.ring) == self.cap as nat
        &&& ring_contents(self.ring).len() <= self.cap
        &&& 0 < self.cap
        &&& capacity_fits(self.cap as nat)
    }

    /// The queue never holds more samples than its capacity.
    pub proof fn lemma_len_bounded(&self)
        requires
            self.wf(),
        ensures
            self@.contents.len() <= self@.capacity,
            0 < self@.capacity,
            capacity_fits(self@.capacity),
    {
    }

    /// An empty queue with room for `capacity` samples.
    pub fn new(capacity: usize) -> (q: SampleQueue)
        requires
            0 < capacity,
            capacity_fits(capacity as nat),
        ensures
            q.wf(),
            q@.contents == Seq::<u32>::empty(),
            q@.capacity == capacity as nat,
    {
        SampleQueue { ring: ring_new(capacity), cap: capacity }
    }

    pub fn capacity(&self) -> (c: usize)
        ensures
            c == self@.capacity,
    {
        self.cap
    }

    pub fn len(&self) -> (n: usize)
        ensures
            n == self@.contents.len(),
    {
        ring_len(&self.ring)
    }

    pub fn is_empty(&self) -> (b: bool)
        ensures
            b == (self@.contents.len() == 0),
    {
        ring_len(&self.ring) == 0
    }

    pub fn is_full(&self) -> (b: bool)
        requires
            self.wf(),
        ensures
            b == (self@.contents.len() == self@.capacity),
    {
        ring_len(&self.ring) == self.cap
    }

    /// Appends `s` when there is room; returns whether it was stored.
    pub fn try_push(&mut self, s: u32) -> (ok: bool)
        requires
            old(self).wf(),
        ensures
            final(self).wf(),
            final(self)@.capacity == old(self)@.capacity,
            ok == (old(self)@.contents.len() < old(self)@.capacity),
            ok ==> final(self)@.contents == old(self)@.contents.push(s),
            !ok ==> final(self)@.contents == old(self)@.contents,
    {
        let res = ring_push(&mut self.ring, s);
        res.is_ok()
    }

    /// Removes and returns the oldest sample, or `None` when empty.
    pub fn try_pop(&mut self) -> (r: Option<u32>)
        requires
            old(self).wf(),
        ensures
            final(self).wf(),
            final(self)@.capacity == old(self)@.capacity,
            old(self)@.contents.len() > 0 ==> r == Some(old(self)@.contents[0])
                && final(self)@.contents == old(self)@.contents.drop_first(),
            old(self)@.contents.len() == 0 ==> r is None
                && final(self)@.contents == old(self)@.contents,
    {
        ring_pop(&mut self.ring)
    }
}

} // verus!
