use rustos::interrupts::build_vector_table;
use rustos::interrupts::controller_masks;
use rustos::interrupts::InterruptIndex;
use rustos::interrupts::PICMasks;
use rustos::interrupts::PICMasksB;
use rustos::interrupts::VectorSlot;
use rustos::interrupts::PIC_1_OFFSET;
use rustos::interrupts::PIC_2_OFFSET;
use rustos::mouse::MouseHandle;
use rustos::mouse::MousePacket;
use rustos::timer::sleep_deadline;
use rustos::timer::sleep_elapsed;
use rustos::timer::TickCounter;

#[test]
fn controller_masks_enable_exactly_the_serviced_lines() {
    let (a, b) = controller_masks();
    assert_eq!(a, 0xf8);
    assert_eq!(b, 0xef);
    assert_eq!(a & PICMasks::Timer.as_u8(), 0);
    assert_eq!(a & PICMasks::Keyboard.as_u8(), 0);
    assert_eq!(a & PICMasks::Cascade.as_u8(), 0);
    assert_ne!(a & PICMasks::COM2.as_u8(), 0);
    assert_ne!(a & PICMasks::LPT1.as_u8(), 0);
    assert_eq!(b & PICMasksB::Mouse.as_u8(), 0);
    assert_ne!(b & PICMasksB::CMOS.as_u8(), 0);
}

#[test]
fn pic_mask_bits_are_one_per_line() {
    assert_eq!(PICMasks::Timer.as_u8(), 1);
    assert_eq!(PICMasks::Keyboard.as_u8(), 2);
    assert_eq!(PICMasks::Cascade.as_u8(), 4);
    assert_eq!(PICMasks::COM2.as_u8(), 8);
    assert_eq!(PICMasks::COM1.as_u8(), 16);
    assert_eq!(PICMasks::LPT2.as_u8(), 32);
    assert_eq!(PICMasks::Floppy.as_u8(), 64);
    assert_eq!(PICMasks::LPT1.as_u8(), 128);
    assert_eq!(PICMasksB::CMOS.as_u8(), 1);
    assert_eq!(PICMasksB::LegacySCSI.as_u8(), 2);
    assert_eq!(PICMasksB::SCSI0.as_u8(), 4);
    assert_eq!(PICMasksB::SCSI1.as_u8(), 8);
    assert_eq!(PICMasksB::Mouse.as_u8(), 16);
}

#[test]
fn interrupt_vectors_are_offset_plus_line() {
    assert_eq!(PIC_1_OFFSET, 32);
    assert_eq!(PIC_2_OFFSET, 40);
    assert_eq!(InterruptIndex::Timer.as_u8(), 32);
    assert_eq!(InterruptIndex::Keyboard.as_u8(), 33);
    assert_eq!(InterruptIndex::Mouse.as_u8(), 44);
    assert_eq!(InterruptIndex::Timer.as_usize(), 32);
    assert_eq!(InterruptIndex::Mouse.as_usize(), 44);
}

#[test]
fn vector_table_binds_each_handler_once() {
    let t = build_vector_table();
    assert_eq!(t.slot(3), VectorSlot::Breakpoint);
    assert_eq!(t.slot(8), VectorSlot::DoubleFault);
    assert_eq!(t.slot(32), VectorSlot::Device(InterruptIndex::Timer));
    assert_eq!(t.slot(33), VectorSlot::Device(InterruptIndex::Keyboard));
    assert_eq!(t.slot(44), VectorSlot::Device(InterruptIndex::Mouse));
    for v in 0..256 {
        if v != 3 && v != 8 && v != 32 && v != 33 && v != 44 {
            assert_eq!(t.slot(v), VectorSlot::Unbound);
        }
    }
}

#[test]
fn mouse_packet_is_scaled_and_clamped() {
    let mut m = MouseHandle::new(2);
    let p = MousePacket { dx: 200, dy: -50, left: false, right: false, middle: false };
    m.mutate(p);
    assert_eq!(m.get_x(), 80);
    assert_eq!(m.get_y(), 25);
}

#[test]
fn mouse_never_leaves_the_rectangle() {
    let mut m = MouseHandle::new(1);
    let packets = [
        (32767, -32768),
        (-32768, 32767),
        (500, 500),
        (-500, -500),
        (1, -1),
    ];
    for (dx, dy) in packets {
        let p = MousePacket { dx, dy, left: false, right: false, middle: false };
        m.mutate(p);
        assert!((0..=80).contains(&m.get_x()));
        assert!((0..=25).contains(&m.get_y()));
    }
}

#[test]
fn mouse_scaling_truncates_toward_zero() {
    let mut m = MouseHandle::new(2);
    let p = MousePacket { dx: 5, dy: 5, left: false, right: false, middle: false };
    m.mutate(p);
    assert_eq!(m.get_x(), 2);
    assert_eq!(m.get_y(), 0);
    let q = MousePacket { dx: -5, dy: -5, left: false, right: false, middle: false };
    m.mutate(q);
    m.mutate(q);
    assert_eq!(m.get_x(), 0);
    assert_eq!(m.get_y(), 4);
}

#[test]
fn mouse_buttons_follow_the_packet() {
    let mut m = MouseHandle::new(2);
    let p = MousePacket { dx: 0, dy: 0, left: true, right: false, middle: true };
    m.mutate(p);
    assert_eq!(m.buttons(), (true, false, true));
    let q = MousePacket { dx: 0, dy: 0, left: false, right: true, middle: false };
    m.mutate(q);
    assert_eq!(m.buttons(), (false, true, false));
}

#[test]
fn limit_is_idempotent_on_a_clamped_cursor() {
    let mut m = MouseHandle::new(1);
    let p = MousePacket { dx: 100, dy: -7, left: false, right: false, middle: false };
    m.mutate(p);
    assert_eq!(m.get_x(), 80);
    assert_eq!(m.get_y(), 7);
    m.limit();
    m.limit();
    assert_eq!(m.get_x(), 80);
    assert_eq!(m.get_y(), 7);
}

#[test]
fn tick_counter_advances_by_one() {
    let mut c = TickCounter::new();
    assert_eq!(c.ticks(), 0);
    c.tick();
    c.tick();
    assert_eq!(c.ticks(), 2);
}

#[test]
fn sleep_waits_until_its_deadline() {
    let deadline = sleep_deadline(5, 3);
    assert_eq!(deadline, 8);
    assert!(!sleep_elapsed(5, deadline));
    assert!(!sleep_elapsed(7, deadline));
    assert!(sleep_elapsed(8, deadline));
    assert!(sleep_elapsed(9, deadline));
}
