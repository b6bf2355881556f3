//! Serial port: a shift-register placeholder with no link partner, so a
//! transfer shifts in 1 bits and raises the serial interrupt when done.

use vstd::prelude::*;

use crate::interrupts::InterruptManager;
use crate::interrupts::InterruptType;

verus! {

/// Machine cycles per transferred bit at the DMG serial clock (8192 Hz).
pub const SERIAL_CYCLES_PER_BIT: u16 = 128;

pub struct Serial {
    /// SB (0xFF01): the transfer data register.
    pub data: u8,
    /// SC (0xFF02): bit 7 transfer-in-progress, bit 0 internal clock.
    pub control: u8,
    /// Machine cycles into the running transfer.
    pub counter: u16,
}

/// A transfer runs only when started with the internal clock (no partner
/// ever drives an external one here).
pub open spec fn spec_serial_active(s: Serial) -> bool {
    s.control & 0x81 == 0x81
}

/// One machine cycle: an active transfer counts 8 bits of 128 cycles each;
/// on completion SB has shifted in all 1s, the transfer bit clears, and the
/// serial interrupt is owed.
pub open spec fn spec_serial_clocked(s: Serial) -> Serial {
    if !spec_serial_active(s) {
        s
    } else if s.counter + 1 < 8 * SERIAL_CYCLES_PER_BIT {
        Serial { counter: (s.counter + 1) as u16, ..s }
    } else {
        Serial { data: 0xFF, control: s.control & 0x7F, counter: 0 }
    }
}

/// The byte a serial register read returns.
pub open spec fn spec_serial_read(s: Serial, addr: u16) -> u8 {
    if addr == 0xFF01 {
        s.data
    } else {
        s.control | 0x7Eu8
    }
}

impl Serial {
    pub fn new() -> (r: Serial)
        ensures
            r == (Serial { data: 0, control: 0, counter: 0 }),
    {
        Serial { data: 0, control: 0, counter: 0 }
    }

    pub fn read_register(&self, addr: u16) -> (r: u8)
        requires
            0xFF01 <= addr <= 0xFF02,
        ensures
            r == spec_serial_read(*self, addr),
    {
        if addr == 0xFF01 {
            self.data
        } else {
            self.control | 0x7E
        }
    }

    pub fn write_register(&mut self, addr: u16, data: u8)
        requires
            0xFF01 <= addr <= 0xFF02,
        ensures
            addr == 0xFF01 ==> *final(self) == (Serial { data, ..*old(self) }),
            addr == 0xFF02 ==> *final(self) == (Serial {
                control: data & 0x81u8,
                counter: 0,
                ..*old(self)
            }),
    {
        if addr == 0xFF01 {
            self.data = data;
        } else {
            self.control = data & 0x81;
            self.counter = 0;
        }
    }

    /// One machine cycle of the shift clock.
    pub fn clock<I: InterruptManager>(&mut self, interrupt: &mut I)
        ensures
            *final(self) == spec_serial_clocked(*old(self)),
            ({
                let done = spec_serial_active(*old(self)) && old(self).counter + 1 >= 8
                    * SERIAL_CYCLES_PER_BIT;
                &&& (done ==> *final(interrupt) == old(interrupt).spec_request(
                    InterruptType::Serial,
                ))
                &&& (!done ==> *final(interrupt) == *old(interrupt))
            }),
    {
        if self.control & 0x81 == 0x81 {
            if self.counter < 8 * SERIAL_CYCLES_PER_BIT - 1 {
                self.counter = self.counter + 1;
            } else {
                self.data = 0xFF;
                self.control = self.control & 0x7F;
                self.counter = 0;
                interrupt.request_interrupt(InterruptType::Serial);
            }
        }
    }
}

} // verus!
