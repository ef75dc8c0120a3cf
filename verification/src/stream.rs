//! Async stream adapters: per-device pollable sequences over one bridge.
//!
//! Each adapter is tied to one event queue for its whole lifetime and
//! exposes the bridge's two-phase poll as "poll for the next item" of a
//! conceptually infinite typed sequence. The push side of the same bridge
//! is what the matching interrupt service routine feeds.

use vstd::prelude::*;
use crate::bridge::Bridge;
use crate::bridge::BridgeState;
use crate::bridge::poll_transition;
use crate::bridge::push_transition;
use crate::bridge::saturated;
use crate::executor::Executor;
use crate::executor::wake_step;

verus! {

/// The stream of timer ticks: each item is the tick delta its interrupt
/// pushed.
pub struct TickStream {
    bridge: Bridge<u64>,
}

impl TickStream {
    pub closed spec fn wf(self) -> bool {
        self.bridge.wf()
    }

    pub closed spec fn state(self) -> BridgeState<u64> {
        self.bridge.state()
    }

    pub closed spec fn dropped_count(self) -> nat {
        self.bridge.dropped_count()
    }

    /// Builds the stream and its queue, empty, of fixed capacity `cap`.
    pub fn new(cap: usize) -> (s: TickStream)
        requires
            1 <= cap,
            cap <= usize::MAX / 2,
        ensures
            s.wf(),
            s.state().cap == cap as nat,
            s.state().events == Seq::<u64>::empty(),
            s.state().waker is None,
            s.dropped_count() == 0,
    {
        TickStream { bridge: Bridge::new(cap, 0) }
    }

    /// Push side, called from the timer interrupt: store a tick delta and
    /// wake the registered task, or drop the delta when full.
    pub fn push_tick(&mut self, delta: u64, exec: &mut Executor) -> (stored: bool)
        requires
            old(self).wf(),
            old(exec).wf(),
        ensures
            final(self).wf(),
            final(exec).wf(),
            final(exec).task_ids() == old(exec).task_ids(),
            final(exec).next_task_id() == old(exec).next_task_id(),
            ({
                let (s2, woken, ok) = push_transition(old(self).state(), delta);
                &&& stored == ok
                &&& final(self).state() == s2
                &&& final(exec).ready_ids() == (match woken {
                    Some(id) => wake_step(old(exec).task_ids(), old(exec).ready_ids(), id),
                    None => old(exec).ready_ids(),
                })
            }),
            stored ==> final(self).dropped_count() == old(self).dropped_count(),
            !stored ==> final(self).dropped_count() == old(self).dropped_count() + 1,
    {
        self.bridge.push_event(delta, exec)
    }

    /// Poll for the next tick on behalf of task `task`, following the
    /// two-phase protocol of the bridge.
    pub fn poll_next(&mut self, task: u64) -> (r: Option<u64>)
        requires
            old(self).wf(),
        ensures
            final(self).wf(),
            final(self).dropped_count() == old(self).dropped_count(),
            ((final(self).state(), r) == poll_transition(old(self).state(), task)),
    {
        self.bridge.poll_event(task)
    }

    /// How many ticks are pending.
    pub fn pending(&self) -> (n: usize)
        ensures
            n as nat == self.state().events.len(),
    {
        self.bridge.pending()
    }

    /// How many ticks were dropped on overflow: exact until the counter
    /// word is exhausted, its maximum afterward.
    pub fn dropped(&self) -> (n: u64)
        requires
            self.wf(),
        ensures
            n as nat == saturated(self.dropped_count()),
    {
        self.bridge.dropped()
    }
}

/// The stream of raw keyboard scancodes, in the order their interrupts
/// pushed them; decoding the bytes is the consumer's business.
pub struct ScancodeStream {
    bridge: Bridge<u8>,
}

impl ScancodeStream {
    pub closed spec fn wf(self) -> bool {
        self.bridge.wf()
    }

    pub closed spec fn state(self) -> BridgeState<u8> {
        self.bridge.state()
    }

    pub closed spec fn dropped_count(self) -> nat {
        self.bridge.dropped_count()
    }

    /// Builds the stream and its queue, empty, of fixed capacity `cap`.
    pub fn new(cap: usize) -> (s: ScancodeStream)
        requires
            1 <= cap,
            cap <= usize::MAX / 2,
        ensures
            s.wf(),
            s.state().cap == cap as nat,
            s.state().events == Seq::<u8>::empty(),
            s.state().waker is None,
            s.dropped_count() == 0,
    {
        ScancodeStream { bridge: Bridge::new(cap, 0) }
    }

    /// Poll for the next scancode on behalf of task `task`.
    pub fn poll_next(&mut self, task: u64) -> (r: Option<u8>)
        requires
            old(self).wf(),
        ensures
            final(self).wf(),
            final(self).dropped_count() == old(self).dropped_count(),
            ((final(self).state(), r) == poll_transition(old(self).state(), task)),
    {
        self.bridge.poll_event(task)
    }

    /// How many scancodes are pending.
    pub fn pending(&self) -> (n: usize)
        ensures
            n as nat == self.state().events.len(),
    {
        self.bridge.pending()
    }

    /// How many scancodes were dropped on overflow: exact until the counter
    /// word is exhausted, its maximum afterward.
    pub fn dropped(&self) -> (n: u64)
        requires
            self.wf(),
        ensures
            n as nat == saturated(self.dropped_count()),
    {
        self.bridge.dropped()
    }
}

/// Keyboard interrupt hand-off: stores one raw scancode byte in the stream's
/// queue and wakes the task registered on it; on a full queue the byte is
/// dropped and one more diagnostic is owed. O(1), no allocation, no lock —
/// the whole work the keyboard interrupt service routine does beyond the
/// port read and the end-of-interrupt signal.
pub fn add_scancode(stream: &mut ScancodeStream, exec: &mut Executor, scancode: u8) -> (stored:
    bool)
    requires
        old(stream).wf(),
        old(exec).wf(),
    ensures
        final(stream).wf(),
        final(exec).wf(),
        final(exec).task_ids() == old(exec).task_ids(),
        final(exec).next_task_id() == old(exec).next_task_id(),
        ({
            let (s2, woken, ok) = push_transition(old(stream).state(), scancode);
            &&& stored == ok
            &&& final(stream).state() == s2
            &&& final(exec).ready_ids() == (match woken {
                Some(id) => wake_step(old(exec).task_ids(), old(exec).ready_ids(), id),
                None => old(exec).ready_ids(),
            })
        }),
        stored ==> final(stream).dropped_count() == old(stream).dropped_count(),
        !stored ==> final(stream).dropped_count() == old(stream).dropped_count() + 1,
{
    stream.bridge.push_event(scancode, exec)
}

} // verus!
