//! The control channel's semantics: an ordered, bounded queue of opaque
//! command values with explicit backpressure.
//!
//! `CommandQueue` is the verified reference for what any control transport
//! between the control surface and the audio backend must provide: values are
//! delivered at most once, in send order, and a send onto a full queue is
//! refused (the value is handed back) instead of being dropped silently.

use vstd::prelude::*;

verus! {

/// What a send does to the queue's contents: appends when a slot is free,
/// leaves the queue unchanged when it is full.
pub open spec fn spec_send<T>(q: Seq<T>, cap: nat, v: T) -> Seq<T> {
    if q.len() < cap {
        q.push(v)
    } else {
        q
    }
}

/// A whole sequence of sends, in order.
pub open spec fn spec_send_all<T>(q: Seq<T>, cap: nat, vs: Seq<T>) -> Seq<T>
    decreases vs.len(),
{
    if vs.len() == 0 {
        q
    } else {
        spec_send_all(spec_send(q, cap, vs[0]), cap, vs.drop_first())
    }
}

/// An ordered queue of command values with a fixed capacity bound.
pub struct CommandQueue<T> {
    items: Vec<T>,
    capacity: usize,
}

impl<T> View for CommandQueue<T> {
    type V = Seq<T>;

    closed spec fn view(&self) -> Seq<T> {
        self.items@
    }
}

impl<T> CommandQueue<T> {
    /// The capacity the queue was created with.
    pub closed spec fn spec_capacity(&self) -> nat {
        self.capacity as nat
    }

    /// The queue never holds more values than its capacity.
    pub closed spec fn wf(&self) -> bool {
        self.items@.len() <= self.capacity
    }

    /// An empty queue with the given capacity bound.
    pub fn new(capacity: usize) -> (q: CommandQueue<T>)
        ensures
            q@ == Seq::<T>::empty(),
            q.spec_capacity() == capacity,
            q.wf(),
    {
        CommandQueue { items: Vec::new(), capacity }
    }

    pub fn capacity(&self) -> (c: usize)
        ensures
            c == self.spec_capacity(),
    {
        self.capacity
    }

    pub fn len(&self) -> (n: usize)
        ensures
            n == self@.len(),
    {
        self.items.len()
    }

    /// Send a value: accepted at the tail when a slot is free; when the
    /// queue is full the value comes back unsent, so the producer sees the
    /// backpressure instead of losing the command.
    pub fn try_send(&mut self, v: T) -> (r: Result<(), T>)
        requires
            old(self).wf(),
        ensures
            final(self).wf(),
            final(self).spec_capacity() == old(self).spec_capacity(),
            final(self)@ == spec_send(old(self)@, old(self).spec_capacity(), v),
            old(self)@.len() < old(self).spec_capacity() ==> r is Ok,
            old(self)@.len() >= old(self).spec_capacity() ==> r == Err::<(), T>(v),
    {
        if self.items.len() < self.capacity {
            self.items.push(v);
            Ok(())
        } else {
            Err(v)
        }
    }

    /// Receive the oldest pending value, if any.
    pub fn recv(&mut self) -> (r: Option<T>)
        requires
            old(self).wf(),
        ensures
            final(self).wf(),
            final(self).spec_capacity() == old(self).spec_capacity(),
            old(self)@.len() > 0 ==> r == Some(old(self)@[0]) && final(self)@ == old(
                self,
            )@.drop_first(),
            old(self)@.len() == 0 ==> r is None && final(self)@ == old(self)@,
    {
        if self.items.len() > 0 {
            Some(self.items.remove(0))
        } else {
            None
        }
    }
}

/// Every value sent while the queue has room is kept, exactly once and in
/// send order: sending `vs` onto contents `q` that leave enough free slots
/// yields exactly `q` followed by `vs`, and receives drain that sequence
/// front to back.
pub proof fn lemma_sends_delivered_in_order<T>(q: Seq<T>, cap: nat, vs: Seq<T>)
    requires
        q.len() + vs.len() <= cap,
    ensures
        spec_send_all(q, cap, vs) == q + vs,
    decreases vs.len(),
{
    if vs.len() == 0 {
        assert(spec_send_all(q, cap, vs) =~= q + vs);
    } else {
        lemma_sends_delivered_in_order(q.push(vs[0]), cap, vs.drop_first());
        assert(q.push(vs[0]) + vs.drop_first() =~= q + vs);
    }
}

/// What repeated receives yield, front to back, until the queue is empty.
pub open spec fn spec_drain<T>(q: Seq<T>) -> Seq<T>
    decreases q.len(),
{
    if q.len() == 0 {
        Seq::empty()
    } else {
        seq![q[0]] + spec_drain(q.drop_first())
    }
}

/// Draining returns the contents themselves: nothing reordered, nothing
/// duplicated, nothing lost.
pub proof fn lemma_drain_in_order<T>(q: Seq<T>)
    ensures
        spec_drain(q) == q,
    decreases q.len(),
{
    if q.len() > 0 {
        lemma_drain_in_order(q.drop_first());
        assert(spec_drain(q) =~= q);
    } else {
        assert(spec_drain(q) =~= q);
    }
}

/// Exactly-once, in-order delivery: for any send sequence no longer than
/// the capacity, sending it all onto an empty queue and then receiving
/// until empty yields exactly that sequence.
pub proof fn lemma_exactly_once_delivery<T>(vs: Seq<T>, cap: nat)
    requires
        vs.len() <= cap,
    ensures
        spec_drain(spec_send_all(Seq::empty(), cap, vs)) == vs,
{
    lemma_sends_delivered_in_order(Seq::empty(), cap, vs);
    lemma_drain_in_order(Seq::empty() + vs);
    assert(Seq::empty() + vs =~= vs);
}

/// Backpressure at the bound: a send onto a full queue is refused and leaves
/// the contents untouched, and once a receive has freed a slot the same send
/// is accepted at the tail.
pub proof fn lemma_backpressure_on_full<T>(q: Seq<T>, cap: nat, v: T)
    requires
        q.len() == cap,
        cap > 0,
    ensures
        spec_send(q, cap, v) == q,
        spec_send(q.drop_first(), cap, v) == q.drop_first().push(v),
{
}

} // verus!
