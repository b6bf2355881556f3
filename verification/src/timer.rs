//! DIV/TIMA timer.
//!
//! A 16-bit divider advances by 4 T-cycles per machine cycle. TIMA increments
//! exactly on a falling edge of (selected divider bit AND timer enable); the
//! selected bit comes from the two low TAC bits. On TIMA overflow it reloads
//! from TMA and a timer interrupt is requested. Writing DIV clears the whole
//! divider and writing TAC reselects the bit; either write is itself edge
//! checked, so it can produce an increment of its own.

use vstd::prelude::*;

use crate::interrupts::InterruptManager;
use crate::interrupts::InterruptType;

verus! {

/// TAC bit 2 is the timer enable.
pub open spec fn spec_timer_enabled(tac: u8) -> bool {
    tac & 0x04u8 != 0
}

/// Which divider bit the TAC selector watches for a falling edge.
pub open spec fn spec_selected_bit(tac: u8) -> u16 {
    if tac & 0x03u8 == 0 {
        9
    } else if tac & 0x03u8 == 1 {
        3
    } else if tac & 0x03u8 == 2 {
        5
    } else {
        7
    }
}

/// The watched level: selected divider bit AND timer enable.
pub open spec fn spec_timer_signal(divider: u16, tac: u8) -> bool {
    spec_timer_enabled(tac) && (divider >> spec_selected_bit(tac)) & 1 == 1
}

/// TIMA increments exactly when the watched level goes 1 to 0.
pub open spec fn spec_falling_edge(old_divider: u16, old_tac: u8, new_divider: u16, new_tac: u8) -> bool {
    spec_timer_signal(old_divider, old_tac) && !spec_timer_signal(new_divider, new_tac)
}

/// How one falling edge changes the timer: TIMA steps, or reloads from TMA on
/// overflow, in which case the timer interrupt is owed.
pub open spec fn spec_ticked_counter(old_counter: u8, modulo: u8) -> u8 {
    if old_counter == 0xFF {
        modulo
    } else {
        (old_counter + 1) as u8
    }
}

/// The byte a timer register read returns.
pub open spec fn spec_timer_read(t: Timer, addr: u16) -> u8 {
    if addr == 0xFF04 {
        (t.divider >> 8u16) as u8
    } else if addr == 0xFF05 {
        t.timer_counter
    } else if addr == 0xFF06 {
        t.timer_modulo
    } else {
        t.timer_control | 0xF8u8
    }
}

/// How one falling edge (or none) relates the timer and interrupt states
/// across a step whose divider/TAC movement is already fixed.
pub open spec fn spec_timer_edge_rel<I: InterruptManager>(
    pre_t: Timer,
    pre_i: I,
    post_t: Timer,
    post_i: I,
    fell: bool,
) -> bool {
    &&& (fell ==> post_t.timer_counter == spec_ticked_counter(pre_t.timer_counter, pre_t.timer_modulo))
    &&& (!fell ==> post_t.timer_counter == pre_t.timer_counter)
    &&& (fell && pre_t.timer_counter == 0xFF ==> post_i == pre_i.spec_request(InterruptType::Timer))
    &&& (!(fell && pre_t.timer_counter == 0xFF) ==> post_i == pre_i)
}

/// How one timer register write changes the timer and the interrupt latch:
/// clearing DIV or rewriting TAC is itself edge checked.
pub open spec fn spec_timer_write_rel<I: InterruptManager>(
    pre_t: Timer,
    pre_i: I,
    post_t: Timer,
    post_i: I,
    addr: u16,
    data: u8,
) -> bool {
    if addr == 0xFF05 {
        post_t == Timer { timer_counter: data, ..pre_t } && post_i == pre_i
    } else if addr == 0xFF06 {
        post_t == Timer { timer_modulo: data, ..pre_t } && post_i == pre_i
    } else if addr == 0xFF04 {
        &&& post_t.divider == 0
        &&& post_t.timer_modulo == pre_t.timer_modulo
        &&& post_t.timer_control == pre_t.timer_control
        &&& spec_timer_edge_rel(
            pre_t,
            pre_i,
            post_t,
            post_i,
            spec_falling_edge(pre_t.divider, pre_t.timer_control, post_t.divider, post_t.timer_control),
        )
    } else {
        &&& post_t.divider == pre_t.divider
        &&& post_t.timer_modulo == pre_t.timer_modulo
        &&& post_t.timer_control == (data & 0x07u8)
        &&& spec_timer_edge_rel(
            pre_t,
            pre_i,
            post_t,
            post_i,
            spec_falling_edge(pre_t.divider, pre_t.timer_control, post_t.divider, post_t.timer_control),
        )
    }
}

/// How one machine cycle changes the timer and the interrupt latch: the
/// divider gains 4 T-cycles and TIMA moves exactly on a falling edge of the
/// watched level.
pub open spec fn spec_timer_clock_rel<I: InterruptManager>(
    pre_t: Timer,
    pre_i: I,
    post_t: Timer,
    post_i: I,
) -> bool {
    &&& post_t.divider == vstd::wrapping::u16_specs::wrapping_add(pre_t.divider, 4)
    &&& post_t.timer_modulo == pre_t.timer_modulo
    &&& post_t.timer_control == pre_t.timer_control
    &&& spec_timer_edge_rel(
        pre_t,
        pre_i,
        post_t,
        post_i,
        spec_falling_edge(pre_t.divider, pre_t.timer_control, post_t.divider, pre_t.timer_control),
    )
}

pub struct Timer {
    /// Full internal 16-bit divider; DIV (0xFF04) reads its high byte.
    pub divider: u16,
    /// TIMA (0xFF05).
    pub timer_counter: u8,
    /// TMA (0xFF06).
    pub timer_modulo: u8,
    /// TAC (0xFF07), low 3 bits: enable and selector.
    pub timer_control: u8,
}

impl Timer {
    pub fn new() -> (r: Timer)
        ensures
            r.divider == 0,
            r.timer_counter == 0,
            r.timer_modulo == 0,
            r.timer_control == 0,
    {
        Timer { divider: 0, timer_counter: 0, timer_modulo: 0, timer_control: 0 }
    }

    /// Post-boot-ROM divider phase, for the skip-bootrom construction path.
    pub fn new_skip_boot_rom() -> (r: Timer)
        ensures
            r.divider == 0xABCC,
            r.timer_counter == 0,
            r.timer_modulo == 0,
            r.timer_control == 0,
    {
        Timer { divider: 0xABCC, timer_counter: 0, timer_modulo: 0, timer_control: 0 }
    }

    pub fn read_register(&self, addr: u16) -> (r: u8)
        requires
            0xFF04 <= addr <= 0xFF07,
        ensures
            r == spec_timer_read(*self, addr),
    {
        if addr == 0xFF04 {
            (self.divider >> 8) as u8
        } else if addr == 0xFF05 {
            self.timer_counter
        } else if addr == 0xFF06 {
            self.timer_modulo
        } else {
            self.timer_control | 0xF8
        }
    }

    /// One falling edge's worth of TIMA movement; requests the timer
    /// interrupt on overflow.
    fn increment_timer<I: InterruptManager>(&mut self, interrupt: &mut I)
        ensures
            final(self).timer_counter == spec_ticked_counter(old(self).timer_counter, old(self).timer_modulo),
            final(self).divider == old(self).divider,
            final(self).timer_modulo == old(self).timer_modulo,
            final(self).timer_control == old(self).timer_control,
            old(self).timer_counter == 0xFF ==> *final(interrupt) == old(interrupt).spec_request(InterruptType::Timer),
            old(self).timer_counter != 0xFF ==> *final(interrupt) == *old(interrupt),
    {
        if self.timer_counter == 0xFF {
            self.timer_counter = self.timer_modulo;
            interrupt.request_interrupt(InterruptType::Timer);
        } else {
            self.timer_counter = self.timer_counter + 1;
        }
    }

    /// Detect a falling edge of the watched level between two timer states
    /// and apply the TIMA step it owes. The states differ only in divider
    /// and/or TAC, which the caller has already written.
    fn apply_edge<I: InterruptManager>(
        &mut self,
        old_divider: u16,
        old_tac: u8,
        interrupt: &mut I,
    )
        ensures
            ({
                let fell = spec_falling_edge(old_divider, old_tac, old(self).divider, old(self).timer_control);
                &&& final(self).divider == old(self).divider
                &&& final(self).timer_modulo == old(self).timer_modulo
                &&& final(self).timer_control == old(self).timer_control
                &&& (fell ==> final(self).timer_counter == spec_ticked_counter(
                    old(self).timer_counter,
                    old(self).timer_modulo,
                ))
                &&& (!fell ==> final(self).timer_counter == old(self).timer_counter)
                &&& (fell && old(self).timer_counter == 0xFF ==> *final(interrupt) == old(interrupt).spec_request(InterruptType::Timer))
                &&& (!(fell && old(self).timer_counter == 0xFF) ==> *final(interrupt) == *old(interrupt))
            }),
    {
        let old_signal: bool = Self::signal(old_divider, old_tac);
        let new_signal: bool = Self::signal(self.divider, self.timer_control);
        if old_signal && !new_signal {
            self.increment_timer(interrupt);
        }
    }

    /// The watched level of a given divider/TAC pair.
    fn signal(divider: u16, tac: u8) -> (r: bool)
        ensures
            r == spec_timer_signal(divider, tac),
    {
        let sel: u8 = tac & 0x03;
        let bit: u16 = if sel == 0 {
            9
        } else if sel == 1 {
            3
        } else if sel == 2 {
            5
        } else {
            7
        };
        (tac & 0x04 != 0) && (divider >> bit) & 1 == 1
    }

    pub fn write_register<I: InterruptManager>(&mut self, addr: u16, data: u8, interrupt: &mut I)
        requires
            0xFF04 <= addr <= 0xFF07,
        ensures
            spec_timer_write_rel(*old(self), *old(interrupt), *final(self), *final(interrupt), addr, data),
    {
        if addr == 0xFF04 {
            let old_divider: u16 = self.divider;
            let old_tac: u8 = self.timer_control;
            self.divider = 0;
            self.apply_edge(old_divider, old_tac, interrupt);
        } else if addr == 0xFF05 {
            self.timer_counter = data;
        } else if addr == 0xFF06 {
            self.timer_modulo = data;
        } else {
            let old_divider: u16 = self.divider;
            let old_tac: u8 = self.timer_control;
            self.timer_control = data & 0x07;
            self.apply_edge(old_divider, old_tac, interrupt);
        }
    }

    /// Skip-bootrom divider phase.
    pub fn reset(&mut self)
        ensures
            *final(self) == (Timer { divider: 0xABCC, ..*old(self) }),
    {
        self.divider = 0xABCC;
    }

    /// One machine cycle: the divider advances by 4 T-cycles, and TIMA
    /// increments exactly when the watched level falls.
    pub fn clock_divider<I: InterruptManager>(&mut self, interrupt: &mut I)
        ensures
            spec_timer_clock_rel(*old(self), *old(interrupt), *final(self), *final(interrupt)),
    {
        let old_divider: u16 = self.divider;
        let old_tac: u8 = self.timer_control;
        self.divider = self.divider.wrapping_add(4);
        self.apply_edge(old_divider, old_tac, interrupt);
    }
}

} // verus!
