//! Bounded mouse cursor state.
//!
//! Applying a decoded packet adds the packet's relative deltas, scaled down
//! by a configurable insensitivity divisor, to the cursor's coordinates,
//! updates the three button flags, and clamps both axes into the fixed
//! display rectangle. The raw three-byte protocol decoding is an external
//! collaborator's business; this state machine takes the decoded fields as
//! plain values.

use vstd::prelude::*;

verus! {

/// Rightmost column the cursor can sit in.
pub const X_LIMIT: i16 = 80;

/// Bottom row the cursor can sit in.
pub const Y_LIMIT: i16 = 25;

/// Truncating division (rounding toward zero), as device deltas are scaled:
/// a negative delta divided by the insensitivity keeps its sign and loses
/// its fraction.
pub open spec fn div_toward_zero(a: int, b: int) -> int {
    if a >= 0 {
        a / b
    } else {
        -((-a) / b)
    }
}

/// `v` forced into `[lo, hi]`.
pub open spec fn clamped(v: int, lo: int, hi: int) -> int {
    if v < lo {
        lo
    } else if v > hi {
        hi
    } else {
        v
    }
}

/// One decoded mouse packet: signed relative deltas (device convention:
/// positive `dy` means the device moved up, so it decreases the screen row)
/// and the state of the three buttons.
#[derive(Clone, Copy, Debug, PartialEq, Eq, Structural)]
pub struct MousePacket {
    pub dx: i16,
    pub dy: i16,
    pub left: bool,
    pub right: bool,
    pub middle: bool,
}

/// Where one packet moves the cursor: each axis takes its scaled delta and
/// is clamped into the display rectangle.
pub open spec fn cursor_step(x: int, y: int, insensitivity: int, p: MousePacket) -> (int, int) {
    (
        clamped(x + div_toward_zero(p.dx as int, insensitivity), 0, X_LIMIT as int),
        clamped(y - div_toward_zero(p.dy as int, insensitivity), 0, Y_LIMIT as int),
    )
}

/// Where a whole sequence of packets, applied in order with clamping, leaves
/// a cursor that started at `(x, y)`.
pub open spec fn cursor_run(x: int, y: int, insensitivity: int, ps: Seq<MousePacket>) -> (int, int)
    decreases ps.len(),
{
    if ps.len() == 0 {
        (x, y)
    } else {
        let prev = cursor_run(x, y, insensitivity, ps.drop_last());
        cursor_step(prev.0, prev.1, insensitivity, ps.last())
    }
}

/// The cursor: bounded coordinates, three button flags, and the fixed
/// scaling divisor.
pub struct MouseHandle {
    x: i16,
    y: i16,
    mouse_left: bool,
    mouse_right: bool,
    mouse_middle: bool,
    insensitivity: i16,
}

impl MouseHandle {
    pub closed spec fn wf(self) -> bool {
        self.insensitivity >= 1
    }

    pub closed spec fn x(self) -> int {
        self.x as int
    }

    pub closed spec fn y(self) -> int {
        self.y as int
    }

    pub closed spec fn left(self) -> bool {
        self.mouse_left
    }

    pub closed spec fn right(self) -> bool {
        self.mouse_right
    }

    pub closed spec fn middle(self) -> bool {
        self.mouse_middle
    }

    pub closed spec fn insensitivity(self) -> int {
        self.insensitivity as int
    }

    /// A fresh cursor at the origin with no button down. The divisor must
    /// be at least one: it divides every delta.
    pub fn new(insensitivity: i16) -> (m: MouseHandle)
        requires
            insensitivity >= 1,
        ensures
            m.wf(),
            m.x() == 0,
            m.y() == 0,
            !m.left(),
            !m.right(),
            !m.middle(),
            m.insensitivity() == insensitivity as int,
    {
        MouseHandle {
            x: 0,
            y: 0,
            mouse_left: false,
            mouse_middle: false,
            mouse_right: false,
            insensitivity,
        }
    }

    /// Applies one decoded packet: adds the scaled deltas, takes the three
    /// button flags from the packet, and clamps both axes into the display
    /// rectangle — after every mutation, so the observable cursor never
    /// leaves the rectangle.
    pub fn mutate(&mut self, packet: MousePacket)
        requires
            old(self).wf(),
        ensures
            final(self).wf(),
            final(self).insensitivity() == old(self).insensitivity(),
            final(self).left() == packet.left,
            final(self).right() == packet.right,
            final(self).middle() == packet.middle,
            (final(self).x(), final(self).y()) == cursor_step(
                old(self).x(),
                old(self).y(),
                old(self).insensitivity(),
                packet,
            ),
            0 <= final(self).x() <= X_LIMIT as int,
            0 <= final(self).y() <= Y_LIMIT as int,
    {
        let sx = scale_delta(packet.dx, self.insensitivity);
        let sy = scale_delta(packet.dy, self.insensitivity);
        let nx: i32 = self.x as i32 + sx;
        let ny: i32 = self.y as i32 - sy;
        self.mouse_right = packet.right;
        self.mouse_left = packet.left;
        self.mouse_middle = packet.middle;
        self.x = clamp_to(nx, X_LIMIT);
        self.y = clamp_to(ny, Y_LIMIT);
    }

    /// Forces both axes back into the display rectangle.
    pub fn limit(&mut self)
        ensures
            final(self).x() == clamped(old(self).x(), 0, X_LIMIT as int),
            final(self).y() == clamped(old(self).y(), 0, Y_LIMIT as int),
            final(self).left() == old(self).left(),
            final(self).right() == old(self).right(),
            final(self).middle() == old(self).middle(),
            final(self).insensitivity() == old(self).insensitivity(),
            final(self).wf() == old(self).wf(),
    {
        self.x = clamp_to(self.x as i32, X_LIMIT);
        self.y = clamp_to(self.y as i32, Y_LIMIT);
    }

    /// Current column.
    pub fn get_x(&self) -> (r: i16)
        ensures
            r as int == self.x(),
    {
        self.x
    }

    /// Current row.
    pub fn get_y(&self) -> (r: i16)
        ensures
            r as int == self.y(),
    {
        self.y
    }

    /// Current button flags, as (left, right, middle).
    pub fn buttons(&self) -> (r: (bool, bool, bool))
        ensures
            r.0 == self.left(),
            r.1 == self.right(),
            r.2 == self.middle(),
    {
        (self.mouse_left, self.mouse_right, self.mouse_middle)
    }
}

/// One delta scaled down by the insensitivity divisor, rounding toward
/// zero.
fn scale_delta(delta: i16, divisor: i16) -> (r: i32)
    requires
        divisor >= 1,
    ensures
        r as int == div_toward_zero(delta as int, divisor as int),
        -0x8000 <= r as int <= 0x7fff,
{
    let d: i32 = delta as i32;
    let v: i32 = divisor as i32;
    if d >= 0 {
        let q: u32 = (d as u32) / (v as u32);
        proof {
            vstd::arithmetic::div_mod::lemma_div_nonincreasing(d as int, v as int);
            vstd::arithmetic::div_mod::lemma_div_pos_is_pos(d as int, v as int);
        }
        q as i32
    } else {
        let m: u32 = (-d) as u32;
        let q: u32 = m / (v as u32);
        proof {
            vstd::arithmetic::div_mod::lemma_div_nonincreasing(m as int, v as int);
            vstd::arithmetic::div_mod::lemma_div_pos_is_pos(m as int, v as int);
        }
        -(q as i32)
    }
}

/// Clamps a working coordinate into `[0, hi]` and narrows it back to the
/// field width (safe: the clamped value lies between 0 and `hi`).
fn clamp_to(v: i32, hi: i16) -> (r: i16)
    requires
        hi >= 0,
    ensures
        r as int == clamped(v as int, 0, hi as int),
{
    if v < 0 {
        0
    } else if v > hi as i32 {
        hi
    } else {
        v as i16
    }
}

/// Clamping law: wherever the cursor starts, after any sequence of packets
/// applied with clamping both axes lie inside the display rectangle —
/// `0 <= x <= 80` and `0 <= y <= 25` for the stated limits.
pub proof fn lemma_cursor_always_clamped(x: int, y: int, insensitivity: int, ps: Seq<MousePacket>)
    requires
        ps.len() > 0,
    ensures
        ({
            let end = cursor_run(x, y, insensitivity, ps);
            &&& 0 <= end.0 <= X_LIMIT as int
            &&& 0 <= end.1 <= Y_LIMIT as int
        }),
    decreases ps.len(),
{
    if ps.len() > 1 {
        lemma_cursor_always_clamped(x, y, insensitivity, ps.drop_last());
    }
}

} // verus!
