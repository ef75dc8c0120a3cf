//! Single-threaded cooperative task executor.
//!
//! The executor owns a task table (the live task ids) and a FIFO ready
//! queue. A task id is in the ready queue at most once and only while the
//! task is live. The scheduling decision is pure: when the ready queue is
//! empty the executor asks the caller to park the CPU until the next
//! interrupt; it never hands out a poll with nothing ready, so the run loop
//! cannot busy-spin on an empty ready queue.

use vstd::prelude::*;

verus! {

/// True when no id occurs twice in `s`.
pub open spec fn no_duplicates(s: Seq<u64>) -> bool {
    forall|i: int, j: int| 0 <= i < j < s.len() ==> s[i] != s[j]
}

/// The ready queue after a wake of `id`: enqueued once if the task is live
/// and not already pending, untouched otherwise. Waking is therefore
/// idempotent and never adds an id the executor does not own.
pub open spec fn wake_step(tasks: Seq<u64>, ready: Seq<u64>, id: u64) -> Seq<u64> {
    if tasks.contains(id) && !ready.contains(id) {
        ready.push(id)
    } else {
        ready
    }
}

/// What the run loop is told to do next: poll one task, or park the CPU
/// until the next interrupt.
#[derive(Clone, Copy, Debug, PartialEq, Eq, Structural)]
pub enum SchedStep {
    Poll(u64),
    Park,
}

pub struct Executor {
    tasks: Vec<u64>,
    ready: Vec<u64>,
    next_id: u64,
}

impl Executor {
    /// Ids of the live tasks, in spawn order.
    pub closed spec fn task_ids(self) -> Seq<u64> {
        self.tasks@
    }

    /// Ids awaiting a poll, oldest wake first.
    pub closed spec fn ready_ids(self) -> Seq<u64> {
        self.ready@
    }

    pub closed spec fn wf(self) -> bool {
        &&& no_duplicates(self.tasks@)
        &&& no_duplicates(self.ready@)
        &&& forall|i: int|
            0 <= i < self.ready@.len() ==> self.tasks@.contains(#[trigger] self.ready@[i])
        &&& forall|i: int| 0 <= i < self.tasks@.len() ==> #[trigger] self.tasks@[i] < self.next_id
    }

    /// The id the next spawn will assign; every live task's id is below it.
    pub closed spec fn next_task_id(self) -> u64 {
        self.next_id
    }

    /// True while a fresh id can still be assigned.
    pub open spec fn can_spawn(self) -> bool {
        self.next_task_id() < u64::MAX
    }

    pub fn new() -> (e: Executor)
        ensures
            e.wf(),
            e.next_task_id() == 0,
            e.task_ids() == Seq::<u64>::empty(),
            e.ready_ids() == Seq::<u64>::empty(),
    {
        Executor { tasks: Vec::new(), ready: Vec::new(), next_id: 0 }
    }

    /// Admits a new task: assigns a fresh unique id and places it in both
    /// the task table and the ready queue, so it gets an initial poll.
    pub fn spawn(&mut self) -> (id: u64)
        requires
            old(self).wf(),
            old(self).can_spawn(),
        ensures
            final(self).wf(),
            id == old(self).next_task_id(),
            final(self).next_task_id() == old(self).next_task_id() + 1,
            !old(self).task_ids().contains(id),
            final(self).task_ids() == old(self).task_ids().push(id),
            final(self).ready_ids() == old(self).ready_ids().push(id),
    {
        let id = self.next_id;
        self.next_id += 1;
        proof {
            if self.tasks@.contains(id) {
                let i = choose|i: int| 0 <= i < self.tasks@.len() && self.tasks@[i] == id;
                assert(old(self).task_ids()[i] < id);
            }
            if self.ready@.contains(id) {
                let i = choose|i: int| 0 <= i < self.ready@.len() && self.ready@[i] == id;
                assert(old(self).task_ids().contains(id));
            }
        }
        self.tasks.push(id);
        self.ready.push(id);
        proof {
            assert forall|i: int| 0 <= i < self.ready@.len() implies self.tasks@.contains(
                #[trigger] self.ready@[i],
            ) by {
                if i < self.ready@.len() - 1 {
                    let j = choose|j: int|
                        0 <= j < old(self).tasks@.len() && old(self).tasks@[j] == self.ready@[i];
                    assert(self.tasks@[j] == self.ready@[i]);
                } else {
                    assert(self.tasks@[self.tasks@.len() - 1] == id);
                }
            }
        }
        id
    }

    /// Wake callback for task `id`: enqueues it for a poll. Safe to call
    /// any number of times (idempotent while the wake is pending) and only
    /// ever enqueues an id the executor owns; the enqueue is a bounded,
    /// non-blocking step, as a caller in interrupt context needs.
    pub fn wake(&mut self, id: u64)
        requires
            old(self).wf(),
        ensures
            final(self).wf(),
            final(self).task_ids() == old(self).task_ids(),
            final(self).next_task_id() == old(self).next_task_id(),
            final(self).ready_ids() == wake_step(old(self).task_ids(), old(self).ready_ids(), id),
            old(self).task_ids().contains(id) ==> final(self).ready_ids().contains(id),
    {
        let live = contains_id(&self.tasks, id);
        let pending = contains_id(&self.ready, id);
        if live && !pending {
            self.ready.push(id);
            proof {
                assert(self.ready@.last() == id);
            }
        }
    }

    /// The scheduling decision: the next ready task to poll, or the order
    /// to park. `Park` comes back exactly when the ready queue is empty, so
    /// a run loop that only spins the CPU inside `Poll` never busy-waits.
    pub fn next_step(&mut self) -> (step: SchedStep)
        requires
            old(self).wf(),
        ensures
            final(self).wf(),
            final(self).task_ids() == old(self).task_ids(),
            final(self).next_task_id() == old(self).next_task_id(),
            (step is Park) <==> old(self).ready_ids().len() == 0,
            step is Park ==> final(self).ready_ids() == old(self).ready_ids(),
            match step {
                SchedStep::Poll(id) => {
                    &&& id == old(self).ready_ids()[0]
                    &&& final(self).ready_ids() == old(self).ready_ids().drop_first()
                    &&& old(self).task_ids().contains(id)
                },
                SchedStep::Park => true,
            },
    {
        if self.ready.len() == 0 {
            return SchedStep::Park;
        }
        let id = self.ready.remove(0);
        proof {
            assert(old(self).ready_ids().contains(old(self).ready_ids()[0]));
            assert(self.ready@ =~= old(self).ready_ids().drop_first());
        }
        SchedStep::Poll(id)
    }

    /// Retires a completed task: removes its id from the task table and,
    /// should a late wake have re-enqueued it, from the ready queue too.
    pub fn complete(&mut self, id: u64)
        requires
            old(self).wf(),
        ensures
            final(self).wf(),
            final(self).next_task_id() == old(self).next_task_id(),
            !final(self).task_ids().contains(id),
            !final(self).ready_ids().contains(id),
            forall|x: u64|
                x != id ==> (final(self).task_ids().contains(x) == old(self).task_ids().contains(
                    x,
                )),
            forall|x: u64|
                x != id ==> (final(self).ready_ids().contains(x) == old(self).ready_ids().contains(
                    x,
                )),
    {
        remove_id(&mut self.tasks, id);
        remove_id(&mut self.ready, id);
        proof {
            assert forall|i: int| 0 <= i < self.ready@.len() implies self.tasks@.contains(
                #[trigger] self.ready@[i],
            ) by {
                assert(self.ready@[i] != id);
                assert(old(self).ready_ids().contains(self.ready@[i]));
                assert(old(self).task_ids().contains(self.ready@[i]));
            }
            assert forall|i: int| 0 <= i < self.tasks@.len() implies #[trigger] self.tasks@[i]
                < self.next_id by {
                let x = self.tasks@[i];
                assert(self.tasks@.contains(x));
                assert(old(self).task_ids().contains(x));
                let j = choose|j: int|
                    0 <= j < old(self).tasks@.len() && old(self).tasks@[j] == x;
                assert(old(self).tasks@[j] < old(self).next_id);
            }
        }
    }

    /// True while any task is live; the run loop keeps going as long as
    /// this holds.
    pub fn has_tasks(&self) -> (b: bool)
        ensures
            b == (self.task_ids().len() > 0),
    {
        self.tasks.len() > 0
    }

    /// How many tasks are live.
    pub fn task_count(&self) -> (n: usize)
        ensures
            n as nat == self.task_ids().len(),
    {
        self.tasks.len()
    }

    /// How many wakes are pending a poll.
    pub fn ready_count(&self) -> (n: usize)
        ensures
            n as nat == self.ready_ids().len(),
    {
        self.ready.len()
    }
}

/// Linear scan for `id`.
fn contains_id(v: &Vec<u64>, id: u64) -> (b: bool)
    ensures
        b == v@.contains(id),
{
    let mut i: usize = 0;
    while i < v.len()
        invariant
            i <= v@.len(),
            forall|j: int| 0 <= j < i ==> v@[j] != id,
        decreases v@.len() - i,
    {
        if v[i] == id {
            return true;
        }
        i += 1;
    }
    false
}

/// Removes the sole occurrence of `id`, if any, keeping the order of the
/// rest.
fn remove_id(v: &mut Vec<u64>, id: u64)
    requires
        no_duplicates(old(v)@),
    ensures
        no_duplicates(final(v)@),
        !final(v)@.contains(id),
        forall|x: u64| x != id ==> (final(v)@.contains(x) == old(v)@.contains(x)),
{
    let mut i: usize = 0;
    while i < v.len()
        invariant
            i <= v@.len(),
            v@ == old(v)@,
            no_duplicates(old(v)@),
            forall|j: int| 0 <= j < i ==> v@[j] != id,
        decreases v@.len() - i,
    {
        if v[i] == id {
            v.remove(i);
            proof {
                let pre = old(v)@;
                let post = v@;
                let k = i as int;
                assert(post == pre.remove(k));
                pre.remove_ensures(k);
                assert forall|a: int, b: int| 0 <= a < b < post.len() implies post[a] != post[b] by {
                    let a2: int = if a < k { a } else { a + 1 };
                    let b2: int = if b < k { b } else { b + 1 };
                    assert(post[a] == pre[a2] && post[b] == pre[b2]);
                }
                assert forall|j: int| 0 <= j < post.len() implies post[j] != id by {
                    let j2: int = if j < k { j } else { j + 1 };
                    assert(post[j] == pre[j2]);
                    if j2 != k && pre[j2] == id {
                        assert(pre[k] == pre[j2]);
                    }
                }
                assert forall|x: u64| x != id && pre.contains(x) implies post.contains(x) by {
                    let j = choose|j: int| 0 <= j < pre.len() && pre[j] == x;
                    if j < k {
                        assert(post[j] == x);
                    } else {
                        assert(post[j - 1] == x);
                    }
                }
                assert forall|x: u64| post.contains(x) implies pre.contains(x) by {
                    let j = choose|j: int| 0 <= j < post.len() && post[j] == x;
                    let j2: int = if j < k { j } else { j + 1 };
                    assert(pre[j2] == x);
                }
            }
            return;
        }
        i += 1;
    }
}

} // verus!
