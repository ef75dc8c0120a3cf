//! Fixed-capacity FIFO ring buffer of small event records.
//!
//! A push never blocks, never allocates, and never grows the buffer: on a
//! full queue the new event is refused (drop-newest) and the caller is told
//! so. Events come back out in push order.

use vstd::prelude::*;

verus! {

/// One step of the queue on its abstract state: append when there is room,
/// refuse (returning the state unchanged) when full.
pub open spec fn push_step<T>(q: Seq<T>, cap: nat, e: T) -> (Seq<T>, bool) {
    if q.len() < cap {
        (q.push(e), true)
    } else {
        (q, false)
    }
}

/// One pop step on the abstract state: remove and return the oldest event,
/// or report the queue empty.
pub open spec fn pop_step<T>(q: Seq<T>) -> (Seq<T>, Option<T>) {
    if q.len() == 0 {
        (q, None)
    } else {
        (q.drop_first(), Some(q[0]))
    }
}

/// Position of logical slot `i` in the backing buffer, counting from `head`
/// and wrapping once past `cap`.
spec fn ring_index(head: int, i: int, cap: int) -> int {
    if head + i < cap {
        head + i
    } else {
        head + i - cap
    }
}

/// Bounded single-producer single-consumer event queue. The capacity is
/// fixed at construction; the backing storage is allocated once and never
/// reallocated afterward, so a push is safe in a context that must not
/// allocate.
pub struct EventQueue<T> {
    buf: Vec<T>,
    head: usize,
    len: usize,
}

impl<T: Copy> EventQueue<T> {
    /// Fixed capacity chosen at construction.
    pub closed spec fn cap(self) -> nat {
        self.buf@.len()
    }

    pub closed spec fn wf(self) -> bool {
        &&& self.buf@.len() >= 1
        &&& self.buf@.len() <= usize::MAX as nat / 2
        &&& (self.head as nat) < self.buf@.len()
        &&& (self.len as nat) <= self.buf@.len()
    }

    /// The pending events, oldest first.
    pub closed spec fn events(self) -> Seq<T> {
        Seq::new(
            self.len as nat,
            |i: int| self.buf@[ring_index(self.head as int, i, self.buf@.len() as int)],
        )
    }

    /// Builds an empty queue of capacity `cap`. The `fill` value only seeds
    /// the backing slots and is never returned by a pop.
    pub fn new(cap: usize, fill: T) -> (q: EventQueue<T>)
        requires
            1 <= cap,
            cap <= usize::MAX / 2,
        ensures
            q.wf(),
            q.cap() == cap as nat,
            q.events() == Seq::<T>::empty(),
    {
        let mut buf: Vec<T> = Vec::new();
        let mut i: usize = 0;
        while i < cap
            invariant
                i <= cap,
                buf@.len() == i as nat,
            decreases cap - i,
        {
            buf.push(fill);
            i += 1;
        }
        let q = EventQueue { buf, head: 0, len: 0 };
        proof {
            assert(q.events() =~= Seq::<T>::empty());
        }
        q
    }

    /// Number of pending events.
    pub fn len(&self) -> (n: usize)
        ensures
            n as nat == self.events().len(),
    {
        self.len
    }

    /// The fixed capacity.
    pub fn capacity(&self) -> (n: usize)
        ensures
            n as nat == self.cap(),
    {
        self.buf.len()
    }

    /// Appends `e` if there is room; on a full queue refuses it and leaves
    /// the queue unchanged (drop-newest overflow policy).
    pub fn push(&mut self, e: T) -> (ok: bool)
        requires
            old(self).wf(),
        ensures
            final(self).wf(),
            final(self).cap() == old(self).cap(),
            ((final(self).events(), ok) == push_step(old(self).events(), old(self).cap(), e)),
            ok == (old(self).events().len() < old(self).cap()),
    {
        if self.len == self.buf.len() {
            return false;
        }
        let cap = self.buf.len();
        let mut idx: usize = self.head + self.len;
        if idx >= cap {
            idx -= cap;
        }
        self.buf.set(idx, e);
        self.len += 1;
        proof {
            let old_ev = old(self).events();
            let new_ev = self.events();
            assert forall|i: int| 0 <= i < old_ev.len() implies new_ev[i] == old_ev[i] by {
                assert(ring_index(self.head as int, i, self.buf@.len() as int) != idx as int);
            }
            assert(new_ev[old_ev.len() as int] == e);
            assert(new_ev =~= old_ev.push(e));
        }
        true
    }

    /// Removes and returns the oldest event, or `None` on an empty queue.
    pub fn pop(&mut self) -> (r: Option<T>)
        requires
            old(self).wf(),
        ensures
            final(self).wf(),
            final(self).cap() == old(self).cap(),
            ((final(self).events(), r) == pop_step(old(self).events())),
    {
        if self.len == 0 {
            return None;
        }
        let r: T = self.buf[self.head];
        self.head += 1;
        if self.head == self.buf.len() {
            self.head = 0;
        }
        self.len -= 1;
        proof {
            let old_ev = old(self).events();
            let new_ev = self.events();
            assert forall|i: int| 0 <= i < new_ev.len() implies new_ev[i] == old_ev[i + 1] by {
                assert(ring_index(self.head as int, i, self.buf@.len() as int) == ring_index(
                    old(self).head as int,
                    i + 1,
                    self.buf@.len() as int,
                ));
            }
            assert(new_ev =~= old_ev.drop_first());
            assert(r == old_ev[0]);
        }
        Some(r)
    }
}

/// One operation of a push/pop history against a queue.
pub enum QueueOp<T> {
    Push(T),
    Pop,
}

/// The outcome of running a history: the events still queued, the pushes
/// that were accepted, the values popped (in pop order), and how many pushes
/// were refused for want of room. Every refused push costs exactly one unit
/// of `dropped`, the count of overflow diagnostics owed to the log.
pub struct RunOutcome<T> {
    pub queued: Seq<T>,
    pub accepted: Seq<T>,
    pub popped: Seq<T>,
    pub dropped: nat,
}

/// Runs a history of operations on an initially empty queue of capacity
/// `cap`, stepping with the same `push_step`/`pop_step` transitions that the
/// executable queue's contracts are stated over.
pub open spec fn run_ops<T>(cap: nat, ops: Seq<QueueOp<T>>) -> RunOutcome<T>
    decreases ops.len(),
{
    if ops.len() == 0 {
        RunOutcome {
            queued: Seq::empty(),
            accepted: Seq::empty(),
            popped: Seq::empty(),
            dropped: 0,
        }
    } else {
        let prev = run_ops(cap, ops.drop_last());
        match ops.last() {
            QueueOp::Push(e) => {
                let step = push_step(prev.queued, cap, e);
                if step.1 {
                    RunOutcome {
                        queued: step.0,
                        accepted: prev.accepted.push(e),
                        popped: prev.popped,
                        dropped: prev.dropped,
                    }
                } else {
                    RunOutcome {
                        queued: step.0,
                        accepted: prev.accepted,
                        popped: prev.popped,
                        dropped: prev.dropped + 1,
                    }
                }
            },
            QueueOp::Pop => {
                let step = pop_step(prev.queued);
                match step.1 {
                    Some(e) => RunOutcome {
                        queued: step.0,
                        accepted: prev.accepted,
                        popped: prev.popped.push(e),
                        dropped: prev.dropped,
                    },
                    None => prev,
                }
            },
        }
    }
}

/// How many operations of a history are pushes.
pub open spec fn count_pushes<T>(ops: Seq<QueueOp<T>>) -> nat
    decreases ops.len(),
{
    if ops.len() == 0 {
        0
    } else {
        count_pushes(ops.drop_last()) + match ops.last() {
            QueueOp::Push(_) => 1nat,
            QueueOp::Pop => 0nat,
        }
    }
}

/// A history of pushes only, one per event, oldest first.
pub open spec fn pushes_of<T>(events: Seq<T>) -> Seq<QueueOp<T>> {
    Seq::new(events.len(), |i: int| QueueOp::Push(events[i]))
}

/// FIFO law. Over every history of pushes and pops on a queue of any
/// capacity: the accepted pushes split exactly into the values already
/// popped followed by the values still queued, so pops come back in push
/// order; the number of successful pops never exceeds the number of
/// successful pushes; the queue never holds more than its capacity; and
/// every push is either accepted or counted as one drop.
pub proof fn lemma_fifo_order<T>(cap: nat, ops: Seq<QueueOp<T>>)
    ensures
        ({
            let out = run_ops(cap, ops);
            &&& out.accepted == out.popped + out.queued
            &&& out.popped.len() <= out.accepted.len()
            &&& out.accepted.len() <= count_pushes(ops)
            &&& out.popped.len() <= count_pushes(ops)
            &&& out.queued.len() <= cap
            &&& out.accepted.len() + out.dropped == count_pushes(ops)
        }),
    decreases ops.len(),
{
    if ops.len() == 0 {
        let out = run_ops(cap, ops);
        assert(out.accepted =~= out.popped + out.queued);
    } else {
        lemma_fifo_order(cap, ops.drop_last());
        let prev = run_ops(cap, ops.drop_last());
        let out = run_ops(cap, ops);
        match ops.last() {
            QueueOp::Push(e) => {
                if prev.queued.len() < cap {
                    assert(out.accepted =~= out.popped + out.queued);
                }
            },
            QueueOp::Pop => {
                if prev.queued.len() > 0 {
                    assert(out.accepted =~= out.popped + out.queued);
                }
            },
        }
    }
}

/// Overflow law. If pushes alone run against an empty queue of capacity
/// `cap`, exactly the first `cap` events are accepted and stay queued in
/// order; every later push is refused, and each refusal is counted as
/// exactly one drop diagnostic. No push silently succeeds past capacity.
pub proof fn lemma_overflow_drops_newest<T>(cap: nat, events: Seq<T>)
    ensures
        ({
            let out = run_ops(cap, pushes_of(events));
            let kept: nat = if events.len() <= cap {
                events.len()
            } else {
                cap
            };
            &&& out.accepted == events.take(kept as int)
            &&& out.queued == out.accepted
            &&& out.popped.len() == 0
            &&& out.dropped == events.len() - kept
        }),
    decreases events.len(),
{
    if events.len() == 0 {
        let out = run_ops(cap, pushes_of(events));
        assert(pushes_of(events) =~= Seq::<QueueOp<T>>::empty());
        assert(out.accepted =~= events.take(0));
    } else {
        lemma_overflow_drops_newest(cap, events.drop_last());
        assert(pushes_of(events).drop_last() =~= pushes_of(events.drop_last()));
        assert(pushes_of(events).last() == QueueOp::Push(events.last()));
        let prev = run_ops(cap, pushes_of(events.drop_last()));
        let out = run_ops(cap, pushes_of(events));
        let kept: nat = if events.len() <= cap {
            events.len()
        } else {
            cap
        };
        if prev.queued.len() < cap {
            assert(out.accepted =~= events.take(kept as int));
        } else {
            assert(out.accepted =~= events.take(kept as int));
        }
    }
}

} // verus!
