//! The noise channel: a 15-bit linear-feedback shift register clocked at a
//! rate set by a divisor and shift, optionally narrowed to 7 bits, gating
//! the envelope volume.

use vstd::prelude::*;

use crate::envelope::Envelope;
use crate::envelope::spec_envelope_reset;
use crate::length_counter::ApuChannel;

verus! {

pub struct NoiseChannel {
    /// NR43 bits 4..8: how far the divisor is shifted up.
    pub clock_shift: u8,
    /// NR43 bit 3: fold the feedback into bit 6 as well (7-bit mode).
    pub width_7: bool,
    /// NR43 bits 0..3: base divisor code.
    pub divisor_code: u8,
    /// The 15-bit shift register; a low bit 0 means the output is high.
    pub lfsr: u16,
    /// Machine cycles left until the next shift.
    pub timer: u32,
    pub envelope: Envelope,
}

impl NoiseChannel {
    pub open spec fn wf(self) -> bool {
        &&& self.clock_shift < 16
        &&& self.divisor_code < 8
        &&& self.envelope.wf()
    }
}

/// Machine cycles between shifts: divisor << shift T-cycles over the
/// 4-T-cycle machine clock, at least one.
pub open spec fn spec_noise_period(divisor_code: u8, clock_shift: u8) -> u32 {
    let divisor: u32 = if divisor_code == 0 {
        8
    } else {
        (16 * divisor_code) as u32
    };
    let t_cycles = divisor << clock_shift;
    if t_cycles / 4 == 0 {
        1
    } else {
        (t_cycles / 4) as u32
    }
}

/// One shift of the register: the feedback is the XOR of the two low bits;
/// it enters at bit 14, and in 7-bit mode also overwrites bit 6.
pub open spec fn spec_lfsr_shifted(lfsr: u16, width_7: bool) -> u16 {
    let feedback = (lfsr ^ (lfsr >> 1)) & 1;
    let shifted = (lfsr >> 1) | (feedback << 14);
    if width_7 {
        (shifted & 0xFFBF) | (feedback << 6)
    } else {
        shifted
    }
}

/// One machine cycle of the noise timer: count down, and on expiry reload
/// and shift the register.
pub open spec fn spec_noise_clocked(c: NoiseChannel) -> NoiseChannel {
    if c.timer == 0 {
        NoiseChannel {
            timer: (spec_noise_period(c.divisor_code, c.clock_shift) - 1) as u32,
            lfsr: spec_lfsr_shifted(c.lfsr, c.width_7),
            ..c
        }
    } else {
        NoiseChannel { timer: (c.timer - 1) as u32, ..c }
    }
}

impl NoiseChannel {
    pub fn new() -> (r: NoiseChannel)
        ensures
            r == (NoiseChannel {
                clock_shift: 0,
                width_7: false,
                divisor_code: 0,
                lfsr: 0x7FFF,
                timer: 0,
                envelope: spec_envelope_reset(),
            }),
            r.wf(),
    {
        NoiseChannel {
            clock_shift: 0,
            width_7: false,
            divisor_code: 0,
            lfsr: 0x7FFF,
            timer: 0,
            envelope: Envelope::new(),
        }
    }

    pub fn envelope(&self) -> (r: &Envelope)
        ensures
            r == &self.envelope,
    {
        &self.envelope
    }

    /// NR43 as read back.
    pub fn read_rate_register(&self) -> (r: u8)
        requires
            self.wf(),
        ensures
            r == (self.clock_shift << 4u8) | (if self.width_7 {
                0x08u8
            } else {
                0u8
            }) | self.divisor_code,
    {
        (self.clock_shift << 4) | (if self.width_7 {
            0x08
        } else {
            0
        }) | self.divisor_code
    }

    /// NR43 write.
    pub fn write_rate_register(&mut self, data: u8)
        ensures
            *final(self) == (NoiseChannel {
                clock_shift: data >> 4u8,
                width_7: data & 0x08u8 != 0,
                divisor_code: data & 0x07u8,
                ..*old(self)
            }),
            old(self).wf() ==> final(self).wf(),
    {
        self.clock_shift = data >> 4;
        self.width_7 = data & 0x08 != 0;
        self.divisor_code = data & 0x07;
        proof {
            assert(data >> 4u8 < 16 && data & 0x07u8 < 8) by (bit_vector);
        }
    }

    /// One machine cycle of the noise timer.
    pub fn clock(&mut self)
        requires
            old(self).wf(),
        ensures
            *final(self) == spec_noise_clocked(*old(self)),
            final(self).wf(),
    {
        if self.timer == 0 {
            let divisor: u32 = if self.divisor_code == 0 {
                8
            } else {
                16 * self.divisor_code as u32
            };
            proof {
                let d: u32 = divisor;
                let s: u8 = old(self).clock_shift;
                assert(d <= 112 && s < 16 ==> (d << (s as u32)) <= 0x70_0000) by (bit_vector);
            }
            let t_cycles: u32 = divisor << self.clock_shift as u32;
            let period: u32 = if t_cycles / 4 == 0 {
                1
            } else {
                t_cycles / 4
            };
            self.timer = period - 1;
            let feedback: u16 = (self.lfsr ^ (self.lfsr >> 1)) & 1;
            let shifted: u16 = (self.lfsr >> 1) | (feedback << 14);
            self.lfsr = if self.width_7 {
                (shifted & 0xFFBF) | (feedback << 6)
            } else {
                shifted
            };
        } else {
            self.timer = self.timer - 1;
        }
    }

    /// A trigger refills the register and restarts the timer and envelope.
    pub fn trigger(&mut self)
        requires
            old(self).wf(),
        ensures
            *final(self) == (NoiseChannel {
                lfsr: 0x7FFF,
                timer: spec_noise_period(old(self).divisor_code, old(self).clock_shift),
                envelope: Envelope {
                    current_volume: old(self).envelope.starting_volume,
                    counter: old(self).envelope.period,
                    ..old(self).envelope
                },
                ..*old(self)
            }),
            final(self).wf(),
    {
        self.lfsr = 0x7FFF;
        let divisor: u32 = if self.divisor_code == 0 {
            8
        } else {
            16 * self.divisor_code as u32
        };
        proof {
            let d: u32 = divisor;
            let s: u8 = old(self).clock_shift;
            assert(d <= 112 && s < 16 ==> (d << (s as u32)) <= 0x70_0000) by (bit_vector);
        }
        let t_cycles: u32 = divisor << self.clock_shift as u32;
        self.timer = if t_cycles / 4 == 0 {
            1
        } else {
            t_cycles / 4
        };
        self.envelope.trigger();
    }
}

impl ApuChannel for NoiseChannel {
    open spec fn spec_wf(&self) -> bool {
        self.wf()
    }

    /// A low bit 0 of the register drives the output high.
    open spec fn spec_output(&self) -> u8 {
        if self.lfsr & 1 == 0 {
            self.envelope.current_volume
        } else {
            0
        }
    }

    open spec fn spec_muted(&self) -> bool {
        false
    }

    fn output(&mut self) -> (r: u8) {
        if self.lfsr & 1 == 0 {
            self.envelope.current_volume
        } else {
            0
        }
    }

    fn muted(&self) -> (r: bool) {
        false
    }
}

} // verus!
