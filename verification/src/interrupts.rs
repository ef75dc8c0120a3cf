//! Interrupt vector table layout and interrupt-controller mask state.
//!
//! Built once at boot, before interrupts are enabled, and read-only
//! afterward: which vector is bound to which handler, and which controller
//! lines the masks leave enabled. The masks enable exactly the lines this
//! build services — timer, keyboard, the cascade to the second controller,
//! and the mouse — and disable every other line.

use vstd::prelude::*;

verus! {

/// Vector number of the first controller's line 0.
pub const PIC_1_OFFSET: u8 = 32;

/// Vector number of the second controller's line 0.
pub const PIC_2_OFFSET: u8 = PIC_1_OFFSET + 8;

/// Vector of the breakpoint exception (recoverable: log and return).
pub const BREAKPOINT_VECTOR: u8 = 3;

/// Vector of the double-fault exception (unrecoverable: log and halt).
pub const DOUBLE_FAULT_VECTOR: u8 = 8;

/// Per-line enable bits of the first controller, one bit per IRQ line.
#[derive(Clone, Copy, Debug, PartialEq, Eq, Structural)]
pub enum PICMasks {
    Timer,
    Keyboard,
    Cascade,
    COM2,
    COM1,
    LPT2,
    Floppy,
    LPT1,
}

impl PICMasks {
    /// The bit this line occupies in the first controller's mask register.
    pub open spec fn bit(self) -> u8 {
        match self {
            PICMasks::Timer => 1,
            PICMasks::Keyboard => 2,
            PICMasks::Cascade => 4,
            PICMasks::COM2 => 8,
            PICMasks::COM1 => 16,
            PICMasks::LPT2 => 32,
            PICMasks::Floppy => 64,
            PICMasks::LPT1 => 128,
        }
    }

    pub fn as_u8(self) -> (r: u8)
        ensures
            r == self.bit(),
    {
        match self {
            PICMasks::Timer => 1,
            PICMasks::Keyboard => 2,
            PICMasks::Cascade => 4,
            PICMasks::COM2 => 8,
            PICMasks::COM1 => 16,
            PICMasks::LPT2 => 32,
            PICMasks::Floppy => 64,
            PICMasks::LPT1 => 128,
        }
    }
}

/// Per-line enable bits of the second (chained) controller.
#[derive(Clone, Copy, Debug, PartialEq, Eq, Structural)]
pub enum PICMasksB {
    CMOS,
    LegacySCSI,
    SCSI0,
    SCSI1,
    Mouse,
}

impl PICMasksB {
    /// The bit this line occupies in the second controller's mask register.
    pub open spec fn bit(self) -> u8 {
        match self {
            PICMasksB::CMOS => 1,
            PICMasksB::LegacySCSI => 2,
            PICMasksB::SCSI0 => 4,
            PICMasksB::SCSI1 => 8,
            PICMasksB::Mouse => 16,
        }
    }

    pub fn as_u8(self) -> (r: u8)
        ensures
            r == self.bit(),
    {
        match self {
            PICMasksB::CMOS => 1,
            PICMasksB::LegacySCSI => 2,
            PICMasksB::SCSI0 => 4,
            PICMasksB::SCSI1 => 8,
            PICMasksB::Mouse => 16,
        }
    }
}

/// The device lines this build services, by interrupt vector.
#[derive(Clone, Copy, Debug, PartialEq, Eq, Structural)]
pub enum InterruptIndex {
    Timer,
    Keyboard,
    Mouse,
}

impl InterruptIndex {
    /// The vector this line is routed to: the controller's base offset plus
    /// the line's index within the controller (timer and keyboard are lines
    /// 0 and 1 of the first controller, the mouse is line 4 of the second).
    pub open spec fn vector(self) -> int {
        match self {
            InterruptIndex::Timer => PIC_1_OFFSET as int,
            InterruptIndex::Keyboard => PIC_1_OFFSET + 1,
            InterruptIndex::Mouse => PIC_2_OFFSET + 4,
        }
    }

    pub fn as_u8(self) -> (r: u8)
        ensures
            r == self.vector(),
    {
        match self {
            InterruptIndex::Timer => PIC_1_OFFSET,
            InterruptIndex::Keyboard => PIC_1_OFFSET + 1,
            InterruptIndex::Mouse => PIC_2_OFFSET + 4,
        }
    }

    pub fn as_usize(self) -> (r: usize)
        ensures
            r as int == self.vector(),
    {
        self.as_u8() as usize
    }
}

/// The pair of controller mask registers written at boot. A clear bit
/// enables a line; the computed masks clear exactly the bits of the lines
/// this build services — timer, keyboard and the cascade on the first
/// controller, the mouse on the second — and set all others.
pub fn controller_masks() -> (masks: (u8, u8))
    ensures
        masks.0 == 0xffu8 ^ (PICMasks::Timer.bit() | PICMasks::Keyboard.bit()
            | PICMasks::Cascade.bit()),
        masks.1 == 0xffu8 ^ PICMasksB::Mouse.bit(),
        masks.0 == 0xf8u8,
        masks.1 == 0xefu8,
{
    let a: u8 = 0xff ^ (PICMasks::Timer.as_u8() | PICMasks::Keyboard.as_u8()
        | PICMasks::Cascade.as_u8());
    let b: u8 = 0xff ^ PICMasksB::Mouse.as_u8();
    proof {
        assert(0xffu8 ^ (1u8 | 2u8 | 4u8) == 0xf8u8) by (bit_vector);
        assert(0xffu8 ^ 16u8 == 0xefu8) by (bit_vector);
    }
    (a, b)
}

/// What one slot of the vector table is bound to.
#[derive(Clone, Copy, Debug, PartialEq, Eq, Structural)]
pub enum VectorSlot {
    /// No handler installed; the line is left disabled.
    Unbound,
    /// The breakpoint exception handler: logs the frame and returns.
    Breakpoint,
    /// The double-fault handler: logs the frame and halts, never returns.
    DoubleFault,
    /// The device handler for one serviced interrupt line.
    Device(InterruptIndex),
}

/// The interrupt vector table layout: 256 slots, one per vector, each bound
/// to exactly one handler or left unbound. Fixed once built.
pub struct VectorTable {
    slots: Vec<VectorSlot>,
}

impl VectorTable {
    pub closed spec fn wf(self) -> bool {
        self.slots@.len() == 256
    }

    /// The binding of vector `v`.
    pub closed spec fn slot_of(self, v: int) -> VectorSlot {
        self.slots@[v]
    }

    /// Reads one slot.
    pub fn slot(&self, v: usize) -> (s: VectorSlot)
        requires
            self.wf(),
            v < 256,
        ensures
            s == self.slot_of(v as int),
    {
        self.slots[v]
    }
}

/// Builds the boot-time vector table: the breakpoint and double-fault
/// exception slots, one device slot per serviced line at its routed vector,
/// every other vector left unbound. Each vector carries exactly one
/// binding, so a handler is installed exactly where a line is enabled.
pub fn build_vector_table() -> (t: VectorTable)
    ensures
        t.wf(),
        t.slot_of(BREAKPOINT_VECTOR as int) == VectorSlot::Breakpoint,
        t.slot_of(DOUBLE_FAULT_VECTOR as int) == VectorSlot::DoubleFault,
        t.slot_of(InterruptIndex::Timer.vector()) == VectorSlot::Device(InterruptIndex::Timer),
        t.slot_of(InterruptIndex::Keyboard.vector()) == VectorSlot::Device(
            InterruptIndex::Keyboard,
        ),
        t.slot_of(InterruptIndex::Mouse.vector()) == VectorSlot::Device(InterruptIndex::Mouse),
        forall|v: int|
            0 <= v < 256 && v != BREAKPOINT_VECTOR as int && v != DOUBLE_FAULT_VECTOR as int && v
                != InterruptIndex::Timer.vector() && v != InterruptIndex::Keyboard.vector() && v
                != InterruptIndex::Mouse.vector() ==> t.slot_of(v) == VectorSlot::Unbound,
{
    let mut slots: Vec<VectorSlot> = Vec::new();
    let mut i: usize = 0;
    while i < 256
        invariant
            i <= 256,
            slots@.len() == i as nat,
            forall|v: int| 0 <= v < i ==> slots@[v] == VectorSlot::Unbound,
        decreases 256 - i,
    {
        slots.push(VectorSlot::Unbound);
        i += 1;
    }
    slots.set(BREAKPOINT_VECTOR as usize, VectorSlot::Breakpoint);
    slots.set(DOUBLE_FAULT_VECTOR as usize, VectorSlot::DoubleFault);
    slots.set(InterruptIndex::Timer.as_usize(), VectorSlot::Device(InterruptIndex::Timer));
    slots.set(InterruptIndex::Keyboard.as_usize(), VectorSlot::Device(InterruptIndex::Keyboard));
    slots.set(InterruptIndex::Mouse.as_usize(), VectorSlot::Device(InterruptIndex::Mouse));
    VectorTable { slots }
}

} // verus!
