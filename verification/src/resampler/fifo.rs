//! Fixed-capacity first-in-first-out queue of converted output samples.
//!
//! The queue itself is unsynchronized: every access happens while the owner
//! of the shared state holds its one lock.

use vstd::prelude::*;

use std::collections::VecDeque;

verus! {

/// What a push does to the queue's contents: appends at the tail iff the
/// queue is not full, and leaves the queue unchanged otherwise.
pub open spec fn spec_push<T>(q: Seq<T>, v: T, cap: nat) -> Seq<T> {
    if q.len() < cap {
        q.push(v)
    } else {
        q
    }
}

/// What a pop does to the queue's contents: removes the head if there is
/// one.
pub open spec fn spec_pop<T>(q: Seq<T>) -> Seq<T> {
    if q.len() == 0 {
        q
    } else {
        q.drop_first()
    }
}

/// What a pop returns: the head, or nothing from an empty queue.
pub open spec fn spec_pop_value<T>(q: Seq<T>) -> Option<T> {
    if q.len() == 0 {
        None
    } else {
        Some(q[0])
    }
}

/// The queue a sequence of pushes leaves behind, first element pushed
/// first.
pub open spec fn push_all<T>(q: Seq<T>, xs: Seq<T>, cap: nat) -> Seq<T>
    decreases xs.len(),
{
    if xs.len() == 0 {
        q
    } else {
        push_all(spec_push(q, xs[0], cap), xs.drop_first(), cap)
    }
}

/// The values a run of pops drains from the queue, in pop order.
pub open spec fn pop_all<T>(q: Seq<T>) -> Seq<T>
    decreases q.len(),
{
    if q.len() == 0 {
        Seq::empty()
    } else {
        seq![q[0]] + pop_all(spec_pop(q))
    }
}

/// Bounded first-in-first-out queue. `push` fails on a full queue instead
/// of growing it; `pop` never blocks.
pub struct Fifo<T> {
    buf: VecDeque<T>,
    capacity: usize,
}

impl<T> View for Fifo<T> {
    type V = Seq<T>;

    closed spec fn view(&self) -> Seq<T> {
        self.buf@
    }
}

impl<T> Fifo<T> {
    /// The capacity the queue was constructed with.
    pub closed spec fn cap(&self) -> nat {
        self.capacity as nat
    }

    /// The queue never holds more than its capacity.
    pub open spec fn wf(&self) -> bool {
        self@.len() <= self.cap()
    }

    /// An empty queue of the given capacity.
    pub fn new(capacity: usize) -> (r: Self)
        requires
            capacity >= 1,
        ensures
            r.wf(),
            r@ == Seq::<T>::empty(),
            r.cap() == capacity,
    {
        Fifo { buf: VecDeque::with_capacity(capacity), capacity }
    }

    /// How many samples the queue holds.
    pub fn len(&self) -> (n: usize)
        ensures
            n == self@.len(),
    {
        self.buf.len()
    }

    /// The capacity the queue was constructed with.
    pub fn capacity(&self) -> (n: usize)
        ensures
            n == self.cap(),
    {
        self.capacity
    }

    /// Append `v` at the tail iff the queue is not full; on a full queue
    /// fail and change nothing. Returns whether the value was stored.
    pub fn push(&mut self, v: T) -> (stored: bool)
        requires
            old(self).wf(),
        ensures
            final(self).wf(),
            final(self).cap() == old(self).cap(),
            final(self)@ == spec_push(old(self)@, v, old(self).cap()),
            stored == (old(self)@.len() < old(self).cap()),
    {
        if self.buf.len() < self.capacity {
            self.buf.push_back(v);
            true
        } else {
            false
        }
    }

    /// Remove and return the head, or return nothing from an empty queue.
    pub fn pop(&mut self) -> (r: Option<T>)
        requires
            old(self).wf(),
        ensures
            final(self).wf(),
            final(self).cap() == old(self).cap(),
            final(self)@ == spec_pop(old(self)@),
            r == spec_pop_value(old(self)@),
    {
        let r = self.buf.pop_front();
        proof {
            if old(self)@.len() > 0 {
                assert(old(self)@.subrange(1, old(self)@.len() as int) == old(
                    self,
                )@.drop_first());
            }
        }
        r
    }
}

/// Pushing a batch that fits into the queue's free room appends the whole
/// batch in order.
pub proof fn lemma_push_all_in_room<T>(q: Seq<T>, xs: Seq<T>, cap: nat)
    requires
        q.len() + xs.len() <= cap,
    ensures
        push_all(q, xs, cap) == q + xs,
    decreases xs.len(),
{
    if xs.len() == 0 {
        assert(q + xs == q);
    } else {
        assert(spec_push(q, xs[0], cap) == q.push(xs[0]));
        lemma_push_all_in_room(q.push(xs[0]), xs.drop_first(), cap);
        assert(q.push(xs[0]) + xs.drop_first() == q + xs);
    }
}

/// Draining a queue pop by pop returns exactly its contents, head first.
pub proof fn lemma_pop_all_in_order<T>(q: Seq<T>)
    ensures
        pop_all(q) == q,
    decreases q.len(),
{
    if q.len() == 0 {
        assert(pop_all(q) == q);
    } else {
        lemma_pop_all_in_order(q.drop_first());
        assert(seq![q[0]] + q.drop_first() == q);
    }
}

/// First-in-first-out order: any sequence of pushes within capacity into an
/// empty queue, followed by pops, hands the values back in push order.
pub proof fn lemma_fifo_order<T>(xs: Seq<T>, cap: nat)
    requires
        xs.len() <= cap,
    ensures
        push_all(Seq::<T>::empty(), xs, cap) == xs,
        pop_all(push_all(Seq::<T>::empty(), xs, cap)) == xs,
{
    lemma_push_all_in_room(Seq::<T>::empty(), xs, cap);
    assert(Seq::<T>::empty() + xs == xs);
    lemma_pop_all_in_order(xs);
}

/// Bounded capacity: a push attempted at length == capacity leaves the
/// contents (and so the length) unchanged.
pub proof fn lemma_push_full_unchanged<T>(q: Seq<T>, v: T, cap: nat)
    requires
        q.len() == cap,
    ensures
        spec_push(q, v, cap) == q,
{
}

/// A pop from a full queue frees room, so the push the producer was blocked
/// on then proceeds and stores its value.
pub proof fn lemma_pop_unblocks_push<T>(q: Seq<T>, v: T, cap: nat)
    requires
        q.len() == cap,
        cap >= 1,
    ensures
        spec_pop(q).len() < cap,
        spec_push(spec_pop(q), v, cap) == spec_pop(q).push(v),
{
}

} // verus!
