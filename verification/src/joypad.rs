//! The joypad peripheral: the P1 register with its two low-active
//! select bits and low-active input nibble, driven by eight button
//! states.

use vstd::prelude::*;

verus! {

/// Select bit for the direction keys (low-active).
pub const SELECT_DIRECTION_KEYS: u8 = 0b0001_0000;

/// Select bit for the button keys (low-active).
pub const SELECT_BUTTON_KEYS: u8 = 0b0010_0000;

/// Mask of the input nibble of P1.
pub const INPUT_MASK: u8 = 0b0000_1111;

/// Mask of the select bits of P1.
pub const SELECT_MASK: u8 = 0b0011_0000;

/// One of the eight buttons.
#[derive(Clone, Copy, PartialEq, Eq, Structural, Debug)]
pub enum Button {
    Right,
    Left,
    Up,
    Down,
    ButtonA,
    ButtonB,
    Select,
    Start,
}

impl Button {
    /// The button's bit position in the pressed mask: direction keys
    /// in bits 0-3, button keys in bits 4-7.
    pub open spec fn spec_index(self) -> u8 {
        match self {
            Button::Right => 0,
            Button::Left => 1,
            Button::Up => 2,
            Button::Down => 3,
            Button::ButtonA => 4,
            Button::ButtonB => 5,
            Button::Select => 6,
            Button::Start => 7,
        }
    }

    /// Executable form of `spec_index`.
    pub fn index(self) -> (r: u8)
        ensures
            r == self.spec_index(),
            r <= 7,
    {
        match self {
            Button::Right => 0,
            Button::Left => 1,
            Button::Up => 2,
            Button::Down => 3,
            Button::ButtonA => 4,
            Button::ButtonB => 5,
            Button::Select => 6,
            Button::Start => 7,
        }
    }
}

/// The joypad: the P1 register and the held-button mask (bit `i` set
/// means button `i` is held).
pub struct Joypad {
    pub p1: u8,
    pub pressed: u8,
}

/// The input nibble P1 presents: all bits high (released) unless a
/// selected group's held button pulls its line low. Direction keys map
/// to the low nibble when `SELECT_DIRECTION_KEYS` is low, button keys
/// when `SELECT_BUTTON_KEYS` is low.
pub open spec fn spec_input_nibble(p1: u8, pressed: u8) -> u8 {
    let d0 = INPUT_MASK;
    let d1 = if p1 & SELECT_DIRECTION_KEYS == 0 {
        let a = if pressed & 0x01 != 0 {
            d0 & !0x01u8
        } else {
            d0
        };
        let b = if pressed & 0x02 != 0 {
            a & !0x02u8
        } else {
            a
        };
        let c = if pressed & 0x04 != 0 {
            b & !0x04u8
        } else {
            b
        };
        if pressed & 0x08 != 0 {
            c & !0x08u8
        } else {
            c
        }
    } else {
        d0
    };
    if p1 & SELECT_BUTTON_KEYS == 0 {
        let a = if pressed & 0x10 != 0 {
            d1 & !0x01u8
        } else {
            d1
        };
        let b = if pressed & 0x20 != 0 {
            a & !0x02u8
        } else {
            a
        };
        let c = if pressed & 0x40 != 0 {
            b & !0x04u8
        } else {
            b
        };
        if pressed & 0x80 != 0 {
            c & !0x08u8
        } else {
            c
        }
    } else {
        d1
    }
}

/// P1 after refreshing its input nibble from the held buttons: the
/// select bits and the upper bits stay, the low nibble is recomputed.
pub open spec fn spec_p1_refresh(p1: u8, pressed: u8) -> u8 {
    (spec_input_nibble(p1, pressed) & INPUT_MASK) | (p1 & !INPUT_MASK)
}

/// The pressed mask after setting or clearing one button's bit.
pub open spec fn spec_set_pressed(pressed: u8, b: Button, on: bool) -> u8 {
    if on {
        pressed | (1u8 << b.spec_index())
    } else {
        pressed & !(1u8 << b.spec_index())
    }
}

impl Joypad {
    /// A fresh joypad: nothing held, both groups deselected, the input
    /// nibble high.
    pub fn new() -> (j: Joypad)
        ensures
            j == (Joypad { p1: 0xcf, pressed: 0 }),
    {
        Joypad { p1: 0xcf, pressed: 0 }
    }

    /// Record a button as held or released and refresh P1.
    pub fn set_button(&mut self, button: Button, pressed: bool)
        ensures
            final(self).pressed == spec_set_pressed(old(self).pressed, button, pressed),
            final(self).p1 == spec_p1_refresh(old(self).p1, final(self).pressed),
    {
        let idx = button.index();
        if pressed {
            self.pressed = self.pressed | (1u8 << idx);
        } else {
            self.pressed = self.pressed & !(1u8 << idx);
        }
        self.update_input();
    }

    /// Release every button. P1 keeps its last value until the next
    /// refresh.
    pub fn reset(&mut self)
        ensures
            final(self).pressed == 0,
            final(self).p1 == old(self).p1,
    {
        self.pressed = 0;
    }

    /// Recompute the low-active input nibble of P1 from the selected
    /// groups and the held buttons.
    pub fn update_input(&mut self)
        ensures
            final(self).pressed == old(self).pressed,
            final(self).p1 == spec_p1_refresh(old(self).p1, old(self).pressed),
    {
        let mut input = INPUT_MASK;
        if self.p1 & SELECT_DIRECTION_KEYS == 0 {
            if self.pressed & 0x01 != 0 {
                input = input & !0x01u8;
            }
            if self.pressed & 0x02 != 0 {
                input = input & !0x02u8;
            }
            if self.pressed & 0x04 != 0 {
                input = input & !0x04u8;
            }
            if self.pressed & 0x08 != 0 {
                input = input & !0x08u8;
            }
        }
        if self.p1 & SELECT_BUTTON_KEYS == 0 {
            if self.pressed & 0x10 != 0 {
                input = input & !0x01u8;
            }
            if self.pressed & 0x20 != 0 {
                input = input & !0x02u8;
            }
            if self.pressed & 0x40 != 0 {
                input = input & !0x04u8;
            }
            if self.pressed & 0x80 != 0 {
                input = input & !0x08u8;
            }
        }
        self.p1 = (input & INPUT_MASK) | (self.p1 & !INPUT_MASK);
    }

    /// Read the P1 register. The joypad owns only address 0xFF00.
    pub fn loadb(&self, addr: u16) -> (b: u8)
        requires
            addr == 0xff00,
        ensures
            b == self.p1,
    {
        self.p1
    }

    /// Write the P1 register: only the select bits are writable, and
    /// the input nibble refreshes at once. The joypad owns only
    /// address 0xFF00.
    pub fn storeb(&mut self, addr: u16, val: u8)
        requires
            addr == 0xff00,
        ensures
            final(self).pressed == old(self).pressed,
            final(self).p1 == spec_p1_refresh(
                (val & SELECT_MASK) | (old(self).p1 & !SELECT_MASK),
                old(self).pressed,
            ),
    {
        self.p1 = (val & SELECT_MASK) | (self.p1 & !SELECT_MASK);
        self.update_input();
    }
}

} // verus!
