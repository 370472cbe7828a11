//! Joypad input register (0xFF00).
//!
//! Games select which button group to read by writing to bits 4-5:
//!   bit 5 = 0 selects the action buttons (A, B, Select, Start),
//!   bit 4 = 0 selects the D-pad (Right, Left, Up, Down).
//! Reading returns the selected groups in bits 0-3, active low (0 = pressed).
use vstd::prelude::*;

verus! {

/// Low-nibble mask of pressed buttons in one group, bit 0 first.
pub open spec fn group_mask(b0: bool, b1: bool, b2: bool, b3: bool) -> u8 {
    ((if b0 { 1u8 } else { 0u8 }) | (if b1 { 2u8 } else { 0u8 }) | (if b2 { 4u8 } else { 0u8 })
        | (if b3 { 8u8 } else { 0u8 })) as u8
}

pub struct Joypad {
    pub right: bool,
    pub left: bool,
    pub up: bool,
    pub down: bool,
    pub a: bool,
    pub b: bool,
    pub select: bool,
    pub start: bool,
    /// Which group the game selected (bits 4-5 of the last write).
    pub select_bits: u8,
}

impl Joypad {
    /// The state of button `button` (0=Right, 1=Left, 2=Up, 3=Down, 4=A, 5=B, 6=Start, 7=Select).
    pub open spec fn pressed_spec(self, button: u8) -> bool {
        if button == 0 { self.right }
        else if button == 1 { self.left }
        else if button == 2 { self.up }
        else if button == 3 { self.down }
        else if button == 4 { self.a }
        else if button == 5 { self.b }
        else if button == 6 { self.start }
        else if button == 7 { self.select }
        else { false }
    }

    /// `self` with button `button` set to `pressed`.
    pub open spec fn with_button(self, button: u8, pressed: bool) -> Joypad {
        if button == 0 { Joypad { right: pressed, ..self } }
        else if button == 1 { Joypad { left: pressed, ..self } }
        else if button == 2 { Joypad { up: pressed, ..self } }
        else if button == 3 { Joypad { down: pressed, ..self } }
        else if button == 4 { Joypad { a: pressed, ..self } }
        else if button == 5 { Joypad { b: pressed, ..self } }
        else if button == 6 { Joypad { start: pressed, ..self } }
        else if button == 7 { Joypad { select: pressed, ..self } }
        else { self }
    }

    pub open spec fn dpad_mask(self) -> u8 {
        group_mask(self.right, self.left, self.up, self.down)
    }

    /// A→bit 0, B→bit 1, Select→bit 2, Start→bit 3.
    pub open spec fn action_mask(self) -> u8 {
        group_mask(self.a, self.b, self.select, self.start)
    }

    /// The value read at 0xFF00.
    pub open spec fn read_spec(self) -> u8 {
        let base = self.select_bits | 0xCF;
        let d: u8 = if self.select_bits & 0x10 == 0 { self.dpad_mask() } else { 0 };
        let act: u8 = if self.select_bits & 0x20 == 0 { self.action_mask() } else { 0 };
        base & !d & !act
    }

    pub fn new() -> (r: Self)
        ensures
            !r.right && !r.left && !r.up && !r.down && !r.a && !r.b && !r.select && !r.start,
            r.select_bits == 0x30,
    {
        Joypad {
            right: false,
            left: false,
            up: false,
            down: false,
            a: false,
            b: false,
            select: false,
            start: false,
            select_bits: 0x30,
        }
    }

    /// Set a button's state. A press of a released button requests the
    /// joypad interrupt (bit 4); buttons above 7 are ignored.
    pub fn set_button(&mut self, button: u8, pressed: bool, interrupt_flag: &mut u8)
        ensures
            *final(self) == old(self).with_button(button, pressed),
            *final(interrupt_flag) == (if button <= 7 && pressed && !old(self).pressed_spec(button) {
                *old(interrupt_flag) | 0x10
            } else {
                *old(interrupt_flag)
            }),
    {
        if button > 7 {
            return;
        }
        let was_released = !self.is_pressed(button);
        match button {
            0 => self.right = pressed,
            1 => self.left = pressed,
            2 => self.up = pressed,
            3 => self.down = pressed,
            4 => self.a = pressed,
            5 => self.b = pressed,
            6 => self.start = pressed,
            _ => self.select = pressed,
        }
        if pressed && was_released {
            *interrupt_flag = *interrupt_flag | 0x10;
        }
    }

    pub fn is_pressed(&self, button: u8) -> (r: bool)
        ensures r == self.pressed_spec(button),
    {
        match button {
            0 => self.right,
            1 => self.left,
            2 => self.up,
            3 => self.down,
            4 => self.a,
            5 => self.b,
            6 => self.start,
            7 => self.select,
            _ => false,
        }
    }

    pub fn read(&self) -> (r: u8)
        ensures r == self.read_spec(),
    {
        let mut result = self.select_bits | 0xCF;
        let sel = self.select_bits;
        let (rt, lf, up, dn) = (self.right, self.left, self.up, self.down);
        let (a, b, s, st) = (self.a, self.b, self.select, self.start);
        if self.select_bits & 0x10 == 0 {
            if self.right { result &= !0x01; }
            if self.left { result &= !0x02; }
            if self.up { result &= !0x04; }
            if self.down { result &= !0x08; }
        }
        if self.select_bits & 0x20 == 0 {
            if self.a { result &= !0x01; }
            if self.b { result &= !0x02; }
            if self.select { result &= !0x04; }
            if self.start { result &= !0x08; }
        }
        assert(result == ((sel | 0xCF) & !(if sel & 0x10 == 0 { group_mask(rt, lf, up, dn) } else { 0 })
            & !(if sel & 0x20 == 0 { group_mask(a, b, s, st) } else { 0 }))) by (bit_vector)
            requires
                result == ({
                    let r0 = sel | 0xCF;
                    let r1 = if sel & 0x10 == 0 && rt { r0 & !0x01u8 } else { r0 };
                    let r2 = if sel & 0x10 == 0 && lf { r1 & !0x02u8 } else { r1 };
                    let r3 = if sel & 0x10 == 0 && up { r2 & !0x04u8 } else { r2 };
                    let r4 = if sel & 0x10 == 0 && dn { r3 & !0x08u8 } else { r3 };
                    let r5 = if sel & 0x20 == 0 && a { r4 & !0x01u8 } else { r4 };
                    let r6 = if sel & 0x20 == 0 && b { r5 & !0x02u8 } else { r5 };
                    let r7 = if sel & 0x20 == 0 && s { r6 & !0x04u8 } else { r6 };
                    if sel & 0x20 == 0 && st { r7 & !0x08u8 } else { r7 }
                });
        result
    }

    /// Only bits 4-5 are writable.
    pub fn write(&mut self, val: u8)
        ensures *final(self) == (Joypad { select_bits: val & 0x30, ..*old(self) }),
    {
        self.select_bits = val & 0x30;
    }
}

/// What a read shows: bits 6-7 always read 1, bits 4-5 echo the selection,
/// and bit i of the low nibble is 0 exactly when a button of a selected group
/// that maps to bit i is pressed.
pub proof fn lemma_read_bits(p: Joypad)
    ensures
        p.read_spec() & 0xC0 == 0xC0,
        p.read_spec() & 0x30 == p.select_bits & 0x30,
        (p.read_spec() & 0x01 == 0) <==> ((p.select_bits & 0x10 == 0 && p.right) || (p.select_bits & 0x20 == 0 && p.a)),
        (p.read_spec() & 0x02 == 0) <==> ((p.select_bits & 0x10 == 0 && p.left) || (p.select_bits & 0x20 == 0 && p.b)),
        (p.read_spec() & 0x04 == 0) <==> ((p.select_bits & 0x10 == 0 && p.up) || (p.select_bits & 0x20 == 0 && p.select)),
        (p.read_spec() & 0x08 == 0) <==> ((p.select_bits & 0x10 == 0 && p.down) || (p.select_bits & 0x20 == 0 && p.start)),
{
    let sel = p.select_bits;
    let (rt, lf, up, dn) = (p.right, p.left, p.up, p.down);
    let (a, b, s, st) = (p.a, p.b, p.select, p.start);
    assert({
        let r = (sel | 0xCF) & !(if sel & 0x10 == 0 { group_mask(rt, lf, up, dn) } else { 0 })
            & !(if sel & 0x20 == 0 { group_mask(a, b, s, st) } else { 0 });
        &&& r & 0xC0 == 0xC0
        &&& r & 0x30 == sel & 0x30
        &&& (r & 0x01 == 0) <==> ((sel & 0x10 == 0 && rt) || (sel & 0x20 == 0 && a))
        &&& (r & 0x02 == 0) <==> ((sel & 0x10 == 0 && lf) || (sel & 0x20 == 0 && b))
        &&& (r & 0x04 == 0) <==> ((sel & 0x10 == 0 && up) || (sel & 0x20 == 0 && s))
        &&& (r & 0x08 == 0) <==> ((sel & 0x10 == 0 && dn) || (sel & 0x20 == 0 && st))
    }) by (bit_vector);
}

/// Pressing and then releasing a button leaves the joypad as it was before
/// the press whenever the button started released.
pub proof fn lemma_press_release(p: Joypad, button: u8)
    requires
        button <= 7,
        !p.pressed_spec(button),
    ensures
        p.with_button(button, true).with_button(button, false) == p,
{
}

} // verus!
