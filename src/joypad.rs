//! The button register at 0xFF00.
use vstd::prelude::*;

use crate::utils::{bit, is_set, reset_bit, set_bit};

verus! {

/// A direction of the d-pad.
#[derive(Clone, Copy, Debug, PartialEq, Eq, Structural)]
pub enum JoypadDpad {
    Right,
    Left,
    Up,
    Down,
}

/// One of the four action buttons.
#[derive(Clone, Copy, Debug, PartialEq, Eq, Structural)]
pub enum JoypadButton {
    A,
    B,
    Select,
    Start,
}

/// An input of the console.
#[derive(Clone, Copy, Debug, PartialEq, Eq, Structural)]
pub enum GBButton {
    Dpad(JoypadDpad),
    Button(JoypadButton),
}

impl GBButton {
    /// The bit of the button within its nibble.
    pub open spec fn spec_index(self) -> u8 {
        match self {
            GBButton::Dpad(JoypadDpad::Right) => 0,
            GBButton::Dpad(JoypadDpad::Left) => 1,
            GBButton::Dpad(JoypadDpad::Up) => 2,
            GBButton::Dpad(JoypadDpad::Down) => 3,
            GBButton::Button(JoypadButton::A) => 0,
            GBButton::Button(JoypadButton::B) => 1,
            GBButton::Button(JoypadButton::Select) => 2,
            GBButton::Button(JoypadButton::Start) => 3,
        }
    }

    pub fn index(self) -> (r: u8)
        ensures
            r == self.spec_index(),
            r < 4,
    {
        match self {
            GBButton::Dpad(JoypadDpad::Right) => 0,
            GBButton::Dpad(JoypadDpad::Left) => 1,
            GBButton::Dpad(JoypadDpad::Up) => 2,
            GBButton::Dpad(JoypadDpad::Down) => 3,
            GBButton::Button(JoypadButton::A) => 0,
            GBButton::Button(JoypadButton::B) => 1,
            GBButton::Button(JoypadButton::Select) => 2,
            GBButton::Button(JoypadButton::Start) => 3,
        }
    }
}

/// The select lines and the state of the eight buttons; in `dpad` and
/// `buttons` a clear bit is a pressed button.
pub struct Joypad {
    pub select_buttons: bool,
    pub select_dpad: bool,
    pub dpad: u8,
    pub buttons: u8,
}

impl Joypad {
    /// The value read at 0xFF00.
    pub open spec fn spec_read(self) -> u8 {
        if self.select_dpad && self.select_buttons {
            0xC0u8 | (self.dpad & self.buttons & 0x0F)
        } else if self.select_dpad {
            0xE0u8 | (self.dpad & 0x0F)
        } else if self.select_buttons {
            0xD0u8 | (self.buttons & 0x0F)
        } else {
            0xFF
        }
    }

    /// The joypad with `button` held down.
    pub open spec fn pressed(self, button: GBButton) -> Joypad {
        match button {
            GBButton::Dpad(_) => Joypad { dpad: self.dpad & !(1u8 << button.spec_index()), ..self },
            GBButton::Button(_) => Joypad {
                buttons: self.buttons & !(1u8 << button.spec_index()),
                ..self
            },
        }
    }

    /// The joypad with `button` let go.
    pub open spec fn released(self, button: GBButton) -> Joypad {
        match button {
            GBButton::Dpad(_) => Joypad { dpad: self.dpad | (1u8 << button.spec_index()), ..self },
            GBButton::Button(_) => Joypad {
                buttons: self.buttons | (1u8 << button.spec_index()),
                ..self
            },
        }
    }

    pub fn new() -> (r: Joypad)
        ensures
            !r.select_buttons && !r.select_dpad && r.dpad == 0xFF && r.buttons == 0xFF,
    {
        Joypad { select_buttons: false, select_dpad: false, dpad: 0xFF, buttons: 0xFF }
    }

    pub fn read(&self) -> (r: u8)
        ensures
            r == self.spec_read(),
    {
        if self.select_dpad && self.select_buttons {
            0xC0 | (self.dpad & self.buttons & 0x0F)
        } else if self.select_dpad {
            0xE0 | (self.dpad & 0x0F)
        } else if self.select_buttons {
            0xD0 | (self.buttons & 0x0F)
        } else {
            0xFF
        }
    }

    /// A clear bit 5 selects the buttons, a clear bit 4 the d-pad.
    pub fn write(&mut self, byte: u8)
        ensures
            *final(self) == (Joypad {
                select_buttons: !bit(byte, 5),
                select_dpad: !bit(byte, 4),
                ..*old(self)
            }),
    {
        self.select_buttons = !is_set(byte, 5);
        self.select_dpad = !is_set(byte, 4);
    }

    /// Marks the button pressed and raises the Joypad bit (4) of `interrupt_flag`.
    pub fn on_button_press(&mut self, button: GBButton, interrupt_flag: &mut u8)
        ensures
            *final(interrupt_flag) == *old(interrupt_flag) | 0x10,
            *final(self) == old(self).pressed(button),
    {
        let i = button.index();
        match button {
            GBButton::Dpad(_) => self.dpad = reset_bit(self.dpad, i),
            GBButton::Button(_) => self.buttons = reset_bit(self.buttons, i),
        }
        *interrupt_flag = set_bit(*interrupt_flag, 4);
        assert(1u8 << 4u8 == 0x10) by (bit_vector);
    }

    /// Marks the button released and raises the Joypad bit (4) of `interrupt_flag`.
    pub fn on_button_release(&mut self, button: GBButton, interrupt_flag: &mut u8)
        ensures
            *final(interrupt_flag) == *old(interrupt_flag) | 0x10,
            *final(self) == old(self).released(button),
    {
        let i = button.index();
        match button {
            GBButton::Dpad(_) => self.dpad = set_bit(self.dpad, i),
            GBButton::Button(_) => self.buttons = set_bit(self.buttons, i),
        }
        *interrupt_flag = set_bit(*interrupt_flag, 4);
        assert(1u8 << 4u8 == 0x10) by (bit_vector);
    }
}

} // verus!
