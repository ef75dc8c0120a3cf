//! Event queue & waker bridge: the hand-off between interrupt context and
//! task context.
//!
//! A bridge couples one bounded event queue with a single-slot waker cell
//! holding the id of the task currently interested in the queue. The push
//! side (used from interrupt context) enqueues an event and, only when the
//! enqueue succeeded, wakes the registered task through the executor's
//! non-blocking ready queue; a refused event never triggers a wake. The
//! poll side follows the two-phase protocol: pop, and if empty register the
//! caller and pop once more before reporting "not ready" — registering
//! before the re-check is what closes the window in which a wakeup could be
//! lost.

use vstd::prelude::*;
use crate::executor::Executor;
use crate::executor::wake_step;
use crate::queue::EventQueue;

verus! {

/// Abstract state of a bridge: the pending events, the fixed capacity, and
/// the registered interest.
pub struct BridgeState<T> {
    pub events: Seq<T>,
    pub cap: nat,
    pub waker: Option<u64>,
}

/// The push transition on the abstract state. Returns the state after the
/// push, the task the bridge hands to the executor's wake (if any), and
/// whether the event was stored. A successful push consumes the registered
/// interest and wakes it; a refused push changes nothing and wakes nobody.
pub open spec fn push_transition<T>(s: BridgeState<T>, e: T) -> (BridgeState<T>, Option<u64>, bool) {
    if s.events.len() < s.cap {
        (BridgeState { events: s.events.push(e), cap: s.cap, waker: None }, s.waker, true)
    } else {
        (s, None, false)
    }
}

/// The poll transition on the abstract state: the oldest event when one is
/// pending (the registration, if any, stays untouched on this fast path),
/// or "not ready" with the calling task registered in the waker cell.
pub open spec fn poll_transition<T>(s: BridgeState<T>, task: u64) -> (BridgeState<T>, Option<T>) {
    if s.events.len() > 0 {
        (
            BridgeState { events: s.events.drop_first(), cap: s.cap, waker: s.waker },
            Some(s.events[0]),
        )
    } else {
        (BridgeState { events: s.events, cap: s.cap, waker: Some(task) }, None)
    }
}

/// The value a machine-word counter shows for a true count of `n`: `n`
/// itself until the word is exhausted, its maximum afterward.
pub open spec fn saturated(n: nat) -> nat {
    if n > u64::MAX as nat {
        u64::MAX as nat
    } else {
        n
    }
}

/// One event queue plus its waker cell and the count of overflow
/// diagnostics owed to the log (one per dropped event). The exact count is
/// ghost and unbounded; the readable counter is its saturated word-sized
/// image.
pub struct Bridge<T> {
    queue: EventQueue<T>,
    waker: Option<u64>,
    dropped: u64,
    drops: Ghost<nat>,
}

impl<T: Copy> Bridge<T> {
    pub closed spec fn wf(self) -> bool {
        &&& self.queue.wf()
        &&& self.dropped as nat == saturated(self.drops@)
    }

    /// The abstract state this bridge is at.
    pub closed spec fn state(self) -> BridgeState<T> {
        BridgeState { events: self.queue.events(), cap: self.queue.cap(), waker: self.waker }
    }

    /// Exactly how many events have been dropped on overflow so far; each
    /// unit is one diagnostic the caller owes the log.
    pub closed spec fn dropped_count(self) -> nat {
        self.drops@
    }

    /// Builds an empty bridge of fixed capacity `cap` with no registered
    /// interest. The `fill` value only seeds the backing slots.
    pub fn new(cap: usize, fill: T) -> (b: Bridge<T>)
        requires
            1 <= cap,
            cap <= usize::MAX / 2,
        ensures
            b.wf(),
            b.state().cap == cap as nat,
            b.state().events == Seq::<T>::empty(),
            b.state().waker is None,
            b.dropped_count() == 0,
    {
        Bridge { queue: EventQueue::new(cap, fill), waker: None, dropped: 0, drops: Ghost(0) }
    }

    /// Push side, safe for interrupt context: O(1), no allocation, no lock.
    /// Stores `e` if there is room and then — only then — wakes the
    /// registered task, if any, by a non-blocking enqueue of its id into
    /// the executor's ready queue. On a full queue the event is dropped,
    /// one more diagnostic is owed, and nobody is woken (a wake without an
    /// event would be a lie; the drop is visible through the count).
    pub fn push_event(&mut self, e: T, exec: &mut Executor) -> (stored: bool)
        requires
            old(self).wf(),
            old(exec).wf(),
        ensures
            final(self).wf(),
            final(exec).wf(),
            final(exec).task_ids() == old(exec).task_ids(),
            final(exec).next_task_id() == old(exec).next_task_id(),
            ({
                let (s2, woken, ok) = push_transition(old(self).state(), e);
                &&& stored == ok
                &&& final(self).state() == s2
                &&& final(exec).ready_ids() == (match woken {
                    Some(id) => wake_step(old(exec).task_ids(), old(exec).ready_ids(), id),
                    None => old(exec).ready_ids(),
                })
            }),
            stored ==> final(self).dropped_count() == old(self).dropped_count(),
            !stored ==> final(self).dropped_count() == old(self).dropped_count() + 1,
    {
        let ok = self.queue.push(e);
        if ok {
            let registered = self.waker;
            self.waker = None;
            if let Some(id) = registered {
                exec.wake(id);
            }
        } else {
            if self.dropped < u64::MAX {
                self.dropped += 1;
            }
            proof {
                self.drops@ = self.drops@ + 1;
            }
        }
        ok
    }

    /// Poll side, run in task context on behalf of task `task`. The
    /// two-phase protocol of the bridge: try to pop; if empty, register
    /// `task` in the waker cell and try once more (an event pushed between
    /// the two attempts is still caught, and its wake finds the
    /// registration); only then report "not ready". A task that gets `None`
    /// is woken by the next successful push.
    pub fn poll_event(&mut self, task: u64) -> (r: Option<T>)
        requires
            old(self).wf(),
        ensures
            final(self).wf(),
            final(self).dropped_count() == old(self).dropped_count(),
            ((final(self).state(), r) == poll_transition(old(self).state(), task)),
    {
        let first = self.queue.pop();
        if let Some(e) = first {
            return Some(e);
        }
        self.waker = Some(task);
        let second = self.queue.pop();
        if let Some(e) = second {
            self.waker = None;
            return Some(e);
        }
        None
    }

    /// How many events are pending.
    pub fn pending(&self) -> (n: usize)
        ensures
            n as nat == self.state().events.len(),
    {
        self.queue.len()
    }

    /// How many events have been dropped on overflow: the exact count
    /// until it exhausts the counter word, the word's maximum afterward.
    pub fn dropped(&self) -> (n: u64)
        requires
            self.wf(),
        ensures
            n as nat == saturated(self.dropped_count()),
    {
        self.dropped
    }
}

/// No lost wakeup. From an empty bridge with no stale registration, one
/// push and one poll-cycle always deliver the event to the polling task
/// exactly once, whichever order the two take. If the poll comes first it
/// registers the task, the push then stores the event and wakes exactly
/// that task, and the task's re-poll returns the event; if the push comes
/// first the poll takes the event on its fast path and no wake is needed.
/// Either way the bridge ends empty again: the event is observed once.
pub proof fn lemma_no_lost_wakeup<T>(s: BridgeState<T>, e: T, task: u64)
    requires
        s.events.len() == 0,
        s.cap > 0,
        s.waker is None,
    ensures
        ({
            let (s1, r1) = poll_transition(s, task);
            let (s2, woken, ok) = push_transition(s1, e);
            let (s3, r3) = poll_transition(s2, task);
            &&& r1 is None
            &&& ok
            &&& woken == Some(task)
            &&& r3 == Some(e)
            &&& s3.events.len() == 0
        }),
        ({
            let (s1, woken, ok) = push_transition(s, e);
            let (s2, r2) = poll_transition(s1, task);
            &&& ok
            &&& woken is None
            &&& r2 == Some(e)
            &&& s2.events.len() == 0
        }),
{
    assert(s.events.push(e)[0] == e);
    assert(s.events.push(e).drop_first().len() == 0);
}

} // verus!
