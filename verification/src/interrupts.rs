//! Interrupt request (IF) and enable (IE) latches with fixed priority.
//!
//! Five sources exist; the lowest bit is the highest priority. A request
//! stays latched in IF until the CPU acknowledges it or software clears it.

use vstd::prelude::*;

verus! {

/// The five interrupt sources, in priority order (VBlank highest).
#[derive(Clone, Copy, PartialEq, Eq, Structural, Debug)]
pub enum InterruptType {
    Vblank,
    LcdStat,
    Timer,
    Serial,
    Joypad,
}

/// IF/IE bit mask of one interrupt source.
pub open spec fn spec_interrupt_mask(kind: InterruptType) -> u8 {
    match kind {
        InterruptType::Vblank => 0x01,
        InterruptType::LcdStat => 0x02,
        InterruptType::Timer => 0x04,
        InterruptType::Serial => 0x08,
        InterruptType::Joypad => 0x10,
    }
}

/// Vector the CPU jumps to when servicing the given interrupt.
pub open spec fn spec_interrupt_vector(kind: InterruptType) -> u16 {
    match kind {
        InterruptType::Vblank => 0x40,
        InterruptType::LcdStat => 0x48,
        InterruptType::Timer => 0x50,
        InterruptType::Serial => 0x58,
        InterruptType::Joypad => 0x60,
    }
}

/// A peripheral raises interrupts through this handle rather than holding a
/// back-reference to the bus. `spec_request` pins the exact effect of
/// `request_interrupt`, so the callers' contracts stay precise.
pub trait InterruptManager: Sized {
    spec fn spec_request(self, kind: InterruptType) -> Self;

    fn request_interrupt(&mut self, kind: InterruptType)
        ensures
            *final(self) == old(self).spec_request(kind),
    ;
}

/// A value keeps all of its own bits.
pub proof fn lemma_and_self(f: u8)
    by (bit_vector)
    ensures
        f & f == f,
{
}

/// Requesting an interrupt only adds bits: every bit already held stays.
pub proof fn lemma_or_keeps_bits(a: u8, m: u8, f: u8)
    by (bit_vector)
    requires
        a & f == f,
    ensures
        (a | m) & f == f,
{
}

/// Bits kept through two stages stay kept.
pub proof fn lemma_keeps_bits_trans(c: u8, b: u8, a: u8)
    by (bit_vector)
    requires
        c & b == b,
        b & a == a,
    ensures
        c & a == a,
{
}

/// A pending (requested and enabled) interrupt stays pending while the
/// request bits only grow and the enable mask holds still.
pub proof fn lemma_pending_monotone(f2: u8, f1: u8, e: u8)
    by (bit_vector)
    requires
        f2 & f1 == f1,
        f1 & e & 0x1F != 0,
    ensures
        f2 & e & 0x1F != 0,
{
}

/// The IF (request) and IE (enable) latches, 5 bits each.
pub struct Interrupts {
    /// IF: requested interrupts (bits above 4 are unused).
    pub flags: u8,
    /// IE: enabled interrupts.
    pub enable: u8,
}

impl Interrupts {
    /// True when the given source is both requested and enabled.
    pub open spec fn spec_pending(self, kind: InterruptType) -> bool {
        self.flags & self.enable & spec_interrupt_mask(kind) != 0
    }

    /// The interrupt the CPU must service next, if any: the lowest pending bit.
    pub open spec fn spec_highest(self) -> Option<InterruptType> {
        if self.spec_pending(InterruptType::Vblank) {
            Some(InterruptType::Vblank)
        } else if self.spec_pending(InterruptType::LcdStat) {
            Some(InterruptType::LcdStat)
        } else if self.spec_pending(InterruptType::Timer) {
            Some(InterruptType::Timer)
        } else if self.spec_pending(InterruptType::Serial) {
            Some(InterruptType::Serial)
        } else if self.spec_pending(InterruptType::Joypad) {
            Some(InterruptType::Joypad)
        } else {
            None
        }
    }

    pub fn new() -> (r: Interrupts)
        ensures
            r.flags == 0,
            r.enable == 0,
    {
        Interrupts { flags: 0, enable: 0 }
    }

    /// IF as the CPU reads it at 0xFF0F: unused high bits read 1.
    pub fn read_interrupt_flags(&self) -> (r: u8)
        ensures
            r == self.flags | 0xE0u8,
    {
        self.flags | 0xE0
    }

    /// Software write to IF: only the five low bits are stored.
    pub fn write_interrupt_flags(&mut self, data: u8)
        ensures
            final(self).flags == data & 0x1Fu8,
            final(self).enable == old(self).enable,
    {
        self.flags = data & 0x1F;
    }

    /// IE as the CPU reads it at 0xFFFF.
    pub fn read_interrupt_enable(&self) -> (r: u8)
        ensures
            r == self.enable,
    {
        self.enable
    }

    pub fn write_interrupt_enable(&mut self, data: u8)
        ensures
            final(self).enable == data,
            final(self).flags == old(self).flags,
    {
        self.enable = data;
    }

    fn mask_of(kind: InterruptType) -> (r: u8)
        ensures
            r == spec_interrupt_mask(kind),
    {
        match kind {
            InterruptType::Vblank => 0x01,
            InterruptType::LcdStat => 0x02,
            InterruptType::Timer => 0x04,
            InterruptType::Serial => 0x08,
            InterruptType::Joypad => 0x10,
        }
    }

    /// The highest-priority interrupt that is both requested and enabled.
    pub fn get_highest_interrupt(&self) -> (r: Option<InterruptType>)
        ensures
            r == self.spec_highest(),
    {
        if self.flags & self.enable & 0x01 != 0 {
            Some(InterruptType::Vblank)
        } else if self.flags & self.enable & 0x02 != 0 {
            Some(InterruptType::LcdStat)
        } else if self.flags & self.enable & 0x04 != 0 {
            Some(InterruptType::Timer)
        } else if self.flags & self.enable & 0x08 != 0 {
            Some(InterruptType::Serial)
        } else if self.flags & self.enable & 0x10 != 0 {
            Some(InterruptType::Joypad)
        } else {
            None
        }
    }

    /// Clear the IF bit of a serviced interrupt.
    pub fn acknowledge_interrupt(&mut self, kind: InterruptType)
        ensures
            final(self).flags == old(self).flags & !spec_interrupt_mask(kind),
            final(self).enable == old(self).enable,
    {
        let mask: u8 = Self::mask_of(kind);
        self.flags = self.flags & !mask;
    }

    /// True when some interrupt is both requested and enabled.
    pub fn is_interrupts_available(&self) -> (r: bool)
        ensures
            r == (self.flags & self.enable & 0x1Fu8 != 0),
    {
        self.flags & self.enable & 0x1F != 0
    }
}

impl InterruptManager for Interrupts {
    open spec fn spec_request(self, kind: InterruptType) -> Interrupts {
        Interrupts { flags: self.flags | spec_interrupt_mask(kind), enable: self.enable }
    }

    fn request_interrupt(&mut self, kind: InterruptType) {
        let mask: u8 = Self::mask_of(kind);
        self.flags = self.flags | mask;
    }
}

} // verus!
