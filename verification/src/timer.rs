//! Timer tick accounting and the compute part of the timer interrupt.

use vstd::prelude::*;
use crate::executor::Executor;
use crate::executor::wake_step;
use crate::bridge::push_transition;
use crate::stream::TickStream;

verus! {

/// The delta each timer interrupt contributes to the tick stream.
pub const TICK_DELTA: u64 = 1;

/// Monotone count of timer interrupts seen since boot.
pub struct TickCounter {
    ticks: u64,
}

impl TickCounter {
    pub closed spec fn count(self) -> u64 {
        self.ticks
    }

    pub fn new() -> (c: TickCounter)
        ensures
            c.count() == 0,
    {
        TickCounter { ticks: 0 }
    }

    /// One timer interrupt: the count advances by exactly one.
    pub fn tick(&mut self)
        requires
            old(self).count() < u64::MAX,
        ensures
            final(self).count() == old(self).count() + 1,
    {
        self.ticks += 1;
    }

    /// The count so far.
    pub fn ticks(&self) -> (n: u64)
        ensures
            n == self.count(),
    {
        self.ticks
    }
}

/// The tick count at which a sleep that starts at `now` and lasts
/// `duration` ticks is over.
pub fn sleep_deadline(now: u64, duration: u64) -> (deadline: u64)
    requires
        now + duration <= u64::MAX,
    ensures
        deadline == now + duration,
{
    now + duration
}

/// Whether a sleep with the given deadline is over at tick `now`. The wait
/// itself — idling until the deadline passes — belongs to the caller's run
/// loop; the tick stream's wake-based design is the better source of
/// timing, and this check serves the plain busy-wait form.
pub fn sleep_elapsed(now: u64, deadline: u64) -> (done: bool)
    ensures
        done == (now >= deadline),
{
    now >= deadline
}

/// Timer interrupt hand-off: advances the tick count, pushes one tick delta
/// into the stream's queue, and — only if the push succeeded — lets the
/// bridge wake the task registered on the tick stream. A failed push (queue
/// full) wakes nobody, since there is no event to observe, and owes one
/// diagnostic. O(1), no allocation, no lock — the whole work the timer
/// interrupt service routine does beyond the end-of-interrupt signal.
pub fn handle_timer_tick(counter: &mut TickCounter, stream: &mut TickStream, exec: &mut Executor)
    -> (stored: bool)
    requires
        old(counter).count() < u64::MAX,
        old(stream).wf(),
        old(exec).wf(),
    ensures
        final(counter).count() == old(counter).count() + 1,
        final(stream).wf(),
        final(exec).wf(),
        final(exec).task_ids() == old(exec).task_ids(),
        final(exec).next_task_id() == old(exec).next_task_id(),
        ({
            let (s2, woken, ok) = push_transition(old(stream).state(), TICK_DELTA);
            &&& stored == ok
            &&& final(stream).state() == s2
            &&& final(exec).ready_ids() == (match woken {
                Some(id) => wake_step(old(exec).task_ids(), old(exec).ready_ids(), id),
                None => old(exec).ready_ids(),
            })
        }),
        stored ==> final(stream).dropped_count() == old(stream).dropped_count(),
        !stored ==> final(stream).dropped_count() == old(stream).dropped_count() + 1,
{
    counter.tick();
    stream.push_tick(TICK_DELTA, exec)
}

} // verus!
