//! Joypad: a 2x4 button matrix read through 0xFF00, with an interrupt on a
//! selected line going low.

use vstd::prelude::*;

use crate::interrupts::InterruptManager;
use crate::interrupts::InterruptType;

verus! {

#[derive(Clone, Copy, PartialEq, Eq, Structural, Debug)]
pub enum JoypadButton {
    A,
    B,
    Select,
    Start,
    Right,
    Left,
    Up,
    Down,
}

/// The button's bit in the `pressed` mask: action buttons in the low
/// nibble, direction buttons in the high nibble.
pub open spec fn spec_button_mask(b: JoypadButton) -> u8 {
    match b {
        JoypadButton::A => 0x01,
        JoypadButton::B => 0x02,
        JoypadButton::Select => 0x04,
        JoypadButton::Start => 0x08,
        JoypadButton::Right => 0x10,
        JoypadButton::Left => 0x20,
        JoypadButton::Up => 0x40,
        JoypadButton::Down => 0x80,
    }
}

pub struct Joypad {
    /// One bit per held button (1 = held), laid out as `spec_button_mask`.
    pub pressed: u8,
    /// Bits 4 and 5 of the last 0xFF00 write: which matrix half is selected
    /// (0 selects).
    pub select: u8,
    /// The input lines as of the previous machine cycle, for edge detection.
    pub prev_lines: u8,
}

/// The low nibble of 0xFF00: each line reads 0 when a button of a selected
/// half that drives it is held.
pub open spec fn spec_joypad_lines(j: Joypad) -> u8 {
    let action = if j.select & 0x20 == 0 {
        j.pressed & 0x0F
    } else {
        0
    };
    let direction = if j.select & 0x10 == 0 {
        (j.pressed >> 4) & 0x0F
    } else {
        0
    };
    !(action | direction) & 0x0F
}

impl Joypad {
    pub fn new() -> (r: Joypad)
        ensures
            r == (Joypad { pressed: 0, select: 0x30, prev_lines: 0x0F }),
    {
        Joypad { pressed: 0, select: 0x30, prev_lines: 0x0F }
    }

    fn lines(&self) -> (r: u8)
        ensures
            r == spec_joypad_lines(*self),
    {
        let action: u8 = if self.select & 0x20 == 0 {
            self.pressed & 0x0F
        } else {
            0
        };
        let direction: u8 = if self.select & 0x10 == 0 {
            (self.pressed >> 4) & 0x0F
        } else {
            0
        };
        !(action | direction) & 0x0F
    }

    /// 0xFF00 read: unused high bits 1, the select bits as written, and the
    /// current input lines.
    pub fn read_joypad(&self) -> (r: u8)
        ensures
            r == 0xC0u8 | self.select | spec_joypad_lines(*self),
    {
        0xC0 | self.select | self.lines()
    }

    /// 0xFF00 write: only the two select bits are stored.
    pub fn write_joypad(&mut self, data: u8)
        ensures
            *final(self) == (Joypad { select: data & 0x30u8, ..*old(self) }),
    {
        self.select = data & 0x30;
    }

    pub fn press_joypad(&mut self, button: JoypadButton)
        ensures
            *final(self) == (Joypad {
                pressed: old(self).pressed | spec_button_mask(button),
                ..*old(self)
            }),
    {
        let mask: u8 = Self::mask_of(button);
        self.pressed = self.pressed | mask;
    }

    pub fn release_joypad(&mut self, button: JoypadButton)
        ensures
            *final(self) == (Joypad {
                pressed: old(self).pressed & !spec_button_mask(button),
                ..*old(self)
            }),
    {
        let mask: u8 = Self::mask_of(button);
        self.pressed = self.pressed & !mask;
    }

    fn mask_of(button: JoypadButton) -> (r: u8)
        ensures
            r == spec_button_mask(button),
    {
        match button {
            JoypadButton::A => 0x01,
            JoypadButton::B => 0x02,
            JoypadButton::Select => 0x04,
            JoypadButton::Start => 0x08,
            JoypadButton::Right => 0x10,
            JoypadButton::Left => 0x20,
            JoypadButton::Up => 0x40,
            JoypadButton::Down => 0x80,
        }
    }

    /// One machine cycle: request the joypad interrupt when a selected line
    /// goes from released to held.
    pub fn update_interrupts<I: InterruptManager>(&mut self, interrupt: &mut I)
        ensures
            final(self).pressed == old(self).pressed,
            final(self).select == old(self).select,
            final(self).prev_lines == spec_joypad_lines(*old(self)),
            ({
                let fell = old(self).prev_lines & !spec_joypad_lines(*old(self)) & 0x0Fu8 != 0;
                &&& (fell ==> *final(interrupt) == old(interrupt).spec_request(
                    InterruptType::Joypad,
                ))
                &&& (!fell ==> *final(interrupt) == *old(interrupt))
            }),
    {
        let now: u8 = self.lines();
        if self.prev_lines & !now & 0x0F != 0 {
            interrupt.request_interrupt(InterruptType::Joypad);
        }
        self.prev_lines = now;
    }
}

} // verus!
