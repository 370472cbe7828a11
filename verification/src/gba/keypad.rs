//! GBA keypad — 10 buttons, active-low at KEYINPUT (0x04000130).
//!
//! Bit layout: 0=A, 1=B, 2=Select, 3=Start, 4=Right, 5=Left, 6=Up, 7=Down, 8=R, 9=L
use vstd::prelude::*;

verus! {

pub struct Keypad {
    /// Active-low state (0 = pressed). Bits 0-9 used, bits 10-15 read as 0.
    pub state: u16,
}

impl Keypad {
    /// The KEYINPUT value after pressing or releasing `button`: its bit is
    /// cleared when pressed and set when released; other bits are kept.
    pub open spec fn set_button_spec(self, button: u8, pressed: bool) -> u16 {
        if button > 9 {
            self.state
        } else if pressed {
            self.state & !(1u16 << button)
        } else {
            self.state | (1u16 << button)
        }
    }

    pub fn new() -> (r: Self)
        ensures r.state == 0x03FF,
    {
        // All released
        Keypad { state: 0x03FF }
    }

    /// Set a button state. `button` is the bit index (0=A, 1=B, ..., 9=L).
    pub fn set_button(&mut self, button: u8, pressed: bool)
        ensures final(self).state == old(self).set_button_spec(button, pressed),
    {
        if button > 9 {
            return;
        }
        if pressed {
            // Active-low: 0 = pressed
            self.state &= !(1u16 << button);
        } else {
            self.state |= 1u16 << button;
        }
    }

    /// Read KEYINPUT register value.
    pub fn read(&self) -> (r: u16)
        ensures r == self.state,
    {
        self.state
    }
}

/// Pressing a button clears exactly its bit; releasing sets exactly its bit;
/// the other nine buttons read as before.
pub proof fn lemma_keypad_button_bits(k: Keypad, button: u8, other: u8)
    requires
        button <= 9,
        other <= 15,
        other != button,
    ensures
        k.set_button_spec(button, true) & (1u16 << button) == 0,
        k.set_button_spec(button, false) & (1u16 << button) != 0,
        k.set_button_spec(button, true) & (1u16 << other) == k.state & (1u16 << other),
        k.set_button_spec(button, false) & (1u16 << other) == k.state & (1u16 << other),
{
    let s = k.state;
    assert(s & !(1u16 << button) & (1u16 << button) == 0 && (s | (1u16 << button)) & (1u16 << button) != 0
        && s & !(1u16 << button) & (1u16 << other) == s & (1u16 << other)
        && (s | (1u16 << button)) & (1u16 << other) == s & (1u16 << other)) by (bit_vector)
        requires button <= 9, other <= 15, other != button;
}

} // verus!
