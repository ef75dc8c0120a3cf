use rustos::executor::Executor;
use rustos::executor::SchedStep;
use rustos::queue::EventQueue;
use rustos::stream::add_scancode;
use rustos::stream::ScancodeStream;
use rustos::stream::TickStream;
use rustos::timer::handle_timer_tick;
use rustos::timer::TickCounter;

#[test]
fn queue_fifo_push_pop() {
    let mut q: EventQueue<u64> = EventQueue::new(8, 0);
    assert_eq!(q.len(), 0);
    assert_eq!(q.capacity(), 8);
    assert!(q.push(10));
    assert!(q.push(20));
    assert!(q.push(30));
    assert_eq!(q.len(), 3);
    assert_eq!(q.pop(), Some(10));
    assert_eq!(q.pop(), Some(20));
    assert!(q.push(40));
    assert_eq!(q.pop(), Some(30));
    assert_eq!(q.pop(), Some(40));
    assert_eq!(q.pop(), None);
}

#[test]
fn queue_pops_never_exceed_pushes() {
    let mut q: EventQueue<u8> = EventQueue::new(4, 0);
    let mut pushes: u32 = 0;
    let mut pops: u32 = 0;
    for round in 0..6u8 {
        if q.push(round) {
            pushes += 1;
        }
        if round % 2 == 0 {
            if q.pop().is_some() {
                pops += 1;
            }
        }
    }
    while q.pop().is_some() {
        pops += 1;
    }
    assert!(pops <= pushes);
    assert_eq!(pops, pushes);
}

#[test]
fn queue_overflow_drops_newest() {
    let mut q: EventQueue<u64> = EventQueue::new(2, 0);
    assert!(q.push(1));
    assert!(q.push(2));
    assert!(!q.push(3));
    assert!(!q.push(4));
    assert_eq!(q.pop(), Some(1));
    assert_eq!(q.pop(), Some(2));
    assert_eq!(q.pop(), None);
}

#[test]
fn queue_capacity_one() {
    let mut q: EventQueue<u8> = EventQueue::new(1, 0);
    assert!(q.push(9));
    assert!(!q.push(7));
    assert_eq!(q.pop(), Some(9));
    assert!(q.push(7));
    assert_eq!(q.pop(), Some(7));
}

#[test]
fn executor_parks_iff_nothing_ready() {
    let mut exec = Executor::new();
    assert_eq!(exec.next_step(), SchedStep::Park);
    let id = exec.spawn();
    assert_eq!(exec.next_step(), SchedStep::Poll(id));
    assert_eq!(exec.next_step(), SchedStep::Park);
}

#[test]
fn spawn_assigns_fresh_ids_and_readies() {
    let mut exec = Executor::new();
    let a = exec.spawn();
    let b = exec.spawn();
    let c = exec.spawn();
    assert_ne!(a, b);
    assert_ne!(b, c);
    assert_ne!(a, c);
    assert_eq!(exec.task_count(), 3);
    assert_eq!(exec.ready_count(), 3);
    assert_eq!(exec.next_step(), SchedStep::Poll(a));
    assert_eq!(exec.next_step(), SchedStep::Poll(b));
    assert_eq!(exec.next_step(), SchedStep::Poll(c));
}

#[test]
fn wake_is_idempotent_and_owned_only() {
    let mut exec = Executor::new();
    let a = exec.spawn();
    assert_eq!(exec.next_step(), SchedStep::Poll(a));
    assert_eq!(exec.ready_count(), 0);
    exec.wake(a);
    exec.wake(a);
    exec.wake(a);
    assert_eq!(exec.ready_count(), 1);
    exec.wake(a + 1);
    assert_eq!(exec.ready_count(), 1);
    assert_eq!(exec.next_step(), SchedStep::Poll(a));
    assert_eq!(exec.next_step(), SchedStep::Park);
}

#[test]
fn complete_retires_a_task() {
    let mut exec = Executor::new();
    let a = exec.spawn();
    let b = exec.spawn();
    assert_eq!(exec.next_step(), SchedStep::Poll(a));
    exec.complete(a);
    assert_eq!(exec.task_count(), 1);
    exec.wake(a);
    assert_eq!(exec.ready_count(), 1);
    assert_eq!(exec.next_step(), SchedStep::Poll(b));
    exec.complete(b);
    assert!(!exec.has_tasks());
    assert_eq!(exec.next_step(), SchedStep::Park);
}

#[test]
fn tick_stream_delivers_in_order() {
    let mut exec = Executor::new();
    let mut counter = TickCounter::new();
    let mut ticks = TickStream::new(100);
    let task = exec.spawn();
    assert!(handle_timer_tick(&mut counter, &mut ticks, &mut exec));
    assert!(handle_timer_tick(&mut counter, &mut ticks, &mut exec));
    assert!(handle_timer_tick(&mut counter, &mut ticks, &mut exec));
    assert_eq!(counter.ticks(), 3);
    assert_eq!(ticks.pending(), 3);
    assert_eq!(ticks.poll_next(task), Some(1));
    assert_eq!(ticks.poll_next(task), Some(1));
    assert_eq!(ticks.poll_next(task), Some(1));
    assert_eq!(ticks.poll_next(task), None);
}

#[test]
fn scancode_overflow_emits_one_diagnostic_per_drop() {
    let mut exec = Executor::new();
    let mut scan = ScancodeStream::new(2);
    let task = exec.spawn();
    assert!(add_scancode(&mut scan, &mut exec, 0x1c));
    assert!(add_scancode(&mut scan, &mut exec, 0x32));
    assert!(!add_scancode(&mut scan, &mut exec, 0x21));
    assert_eq!(scan.dropped(), 1);
    assert_eq!(scan.poll_next(task), Some(0x1c));
    assert!(add_scancode(&mut scan, &mut exec, 0x21));
    assert_eq!(scan.pending(), 2);
    assert_eq!(scan.dropped(), 1);
}

#[test]
fn push_on_empty_queue_wakes_the_registered_task() {
    let mut exec = Executor::new();
    let mut counter = TickCounter::new();
    let mut ticks = TickStream::new(100);
    let task = exec.spawn();
    assert_eq!(exec.next_step(), SchedStep::Poll(task));
    assert_eq!(ticks.poll_next(task), None);
    assert_eq!(exec.next_step(), SchedStep::Park);
    assert!(handle_timer_tick(&mut counter, &mut ticks, &mut exec));
    assert_eq!(exec.ready_count(), 1);
    assert_eq!(exec.next_step(), SchedStep::Poll(task));
    assert_eq!(ticks.poll_next(task), Some(1));
    assert_eq!(ticks.poll_next(task), None);
}

#[test]
fn push_before_poll_is_seen_on_the_fast_path() {
    let mut exec = Executor::new();
    let mut counter = TickCounter::new();
    let mut ticks = TickStream::new(100);
    let task = exec.spawn();
    assert_eq!(exec.next_step(), SchedStep::Poll(task));
    assert!(handle_timer_tick(&mut counter, &mut ticks, &mut exec));
    assert_eq!(exec.ready_count(), 0);
    assert_eq!(ticks.poll_next(task), Some(1));
    assert_eq!(ticks.poll_next(task), None);
}

#[test]
fn tick_push_wakes_only_the_task_on_the_tick_stream() {
    let mut exec = Executor::new();
    let mut counter = TickCounter::new();
    let mut ticks = TickStream::new(100);
    let mut scan = ScancodeStream::new(100);
    let a = exec.spawn();
    let b = exec.spawn();
    assert_eq!(exec.next_step(), SchedStep::Poll(a));
    assert_eq!(ticks.poll_next(a), None);
    assert_eq!(exec.next_step(), SchedStep::Poll(b));
    assert_eq!(scan.poll_next(b), None);
    assert_eq!(exec.next_step(), SchedStep::Park);
    assert!(handle_timer_tick(&mut counter, &mut ticks, &mut exec));
    assert_eq!(exec.ready_count(), 1);
    assert_eq!(exec.next_step(), SchedStep::Poll(a));
    assert_eq!(exec.next_step(), SchedStep::Park);
    assert_eq!(ticks.poll_next(a), Some(1));
}

#[test]
fn full_queue_push_does_not_wake() {
    let mut exec = Executor::new();
    let mut counter = TickCounter::new();
    let mut ticks = TickStream::new(1);
    let task = exec.spawn();
    assert_eq!(exec.next_step(), SchedStep::Poll(task));
    assert!(handle_timer_tick(&mut counter, &mut ticks, &mut exec));
    assert_eq!(ticks.poll_next(task), Some(1));
    assert_eq!(ticks.poll_next(task), None);
    assert_eq!(exec.next_step(), SchedStep::Park);
    assert!(handle_timer_tick(&mut counter, &mut ticks, &mut exec));
    assert!(!handle_timer_tick(&mut counter, &mut ticks, &mut exec));
    assert_eq!(ticks.dropped(), 1);
    assert_eq!(exec.ready_count(), 1);
    assert_eq!(exec.next_step(), SchedStep::Poll(task));
}
