//! Interrupt-and-scheduling core of a cooperative kernel: bounded event
//! queues, a waker bridge between interrupt context and task context,
//! pollable event streams, a cooperative task executor, the interrupt
//! vector and controller-mask tables, and bounded mouse cursor state.

pub mod queue;
pub mod executor;
pub mod bridge;
pub mod stream;
pub mod timer;
pub mod interrupts;
pub mod mouse;
