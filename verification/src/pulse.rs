//! A pulse (square wave) channel: an 11-bit frequency timer walking an
//! 8-step duty waveform, a volume envelope, and a frequency sweep unit.

use vstd::prelude::*;

use crate::envelope::Envelope;
use crate::envelope::spec_envelope_reset;
use crate::length_counter::ApuChannel;

verus! {

/// The four duty waveforms, one bit per duty step (12.5%, 25%, 50%, 75%).
pub open spec fn spec_duty_waveform(pattern: u8) -> u8 {
    if pattern == 0 {
        0x01
    } else if pattern == 1 {
        0x81
    } else if pattern == 2 {
        0x87
    } else {
        0x7E
    }
}

pub struct PulseChannel {
    /// NRx1 bits 6..8: which duty waveform plays.
    pub duty_pattern: u8,
    /// Current step 0..8 in the duty waveform.
    pub duty_pos: u8,
    /// 11-bit frequency register (NRx3 and NRx4 bits 0..3).
    pub frequency: u16,
    /// Machine cycles left until the duty position advances.
    pub timer: u16,
    pub envelope: Envelope,
    /// NR10 bits 4..7: sweep ticks between frequency recomputations.
    pub sweep_period: u8,
    /// NR10 bit 3: sweep subtracts instead of adding.
    pub sweep_negate: bool,
    /// NR10 bits 0..3: how far the frequency is shifted for one sweep step.
    pub sweep_shift: u8,
    /// Sweep ticks left until the next recomputation.
    pub sweep_counter: u8,
    /// Set when a sweep step overflows the 11-bit frequency.
    pub sweep_muted: bool,
}

impl PulseChannel {
    pub open spec fn wf(self) -> bool {
        &&& self.duty_pattern < 4
        &&& self.duty_pos < 8
        &&& self.frequency < 2048
        &&& self.envelope.wf()
        &&& self.sweep_period < 8
        &&& self.sweep_shift < 8
    }
}

/// One machine cycle of the frequency timer: it counts down, and on expiry
/// reloads with 2048 minus the frequency and advances the duty position.
pub open spec fn spec_pulse_clocked(c: PulseChannel) -> PulseChannel {
    if c.timer == 0 {
        PulseChannel {
            timer: (2048 - c.frequency) as u16,
            duty_pos: ((c.duty_pos + 1) % 8) as u8,
            ..c
        }
    } else {
        PulseChannel { timer: (c.timer - 1) as u16, ..c }
    }
}

/// One frame-sequencer sweep tick: with period 0 nothing moves; otherwise
/// the counter steps down, and on the tick it runs out the frequency moves
/// by frequency >> shift (when shift > 0); an upward step past 2047 mutes
/// the channel instead.
pub open spec fn spec_sweep_clocked(c: PulseChannel) -> PulseChannel {
    if c.sweep_period == 0 {
        c
    } else if c.sweep_counter > 1 {
        PulseChannel { sweep_counter: (c.sweep_counter - 1) as u8, ..c }
    } else {
        let delta = c.frequency >> c.sweep_shift;
        if c.sweep_negate {
            if c.sweep_shift > 0 {
                PulseChannel {
                    sweep_counter: c.sweep_period,
                    frequency: (c.frequency - delta) as u16,
                    ..c
                }
            } else {
                PulseChannel { sweep_counter: c.sweep_period, ..c }
            }
        } else {
            if c.frequency + delta > 2047 {
                PulseChannel { sweep_counter: c.sweep_period, sweep_muted: true, ..c }
            } else if c.sweep_shift > 0 {
                PulseChannel {
                    sweep_counter: c.sweep_period,
                    frequency: (c.frequency + delta) as u16,
                    ..c
                }
            } else {
                PulseChannel { sweep_counter: c.sweep_period, ..c }
            }
        }
    }
}

/// The all-zero pulse channel of a reset APU.
pub open spec fn spec_pulse_reset() -> PulseChannel {
    PulseChannel {
        duty_pattern: 0,
        duty_pos: 0,
        frequency: 0,
        timer: 0,
        envelope: spec_envelope_reset(),
        sweep_period: 0,
        sweep_negate: false,
        sweep_shift: 0,
        sweep_counter: 0,
        sweep_muted: false,
    }
}

impl PulseChannel {
    pub fn new() -> (r: PulseChannel)
        ensures
            r == (PulseChannel {
                duty_pattern: 0,
                duty_pos: 0,
                frequency: 0,
                timer: 0,
                envelope: spec_envelope_reset(),
                sweep_period: 0,
                sweep_negate: false,
                sweep_shift: 0,
                sweep_counter: 0,
                sweep_muted: false,
            }),
            r.wf(),
    {
        PulseChannel {
            duty_pattern: 0,
            duty_pos: 0,
            frequency: 0,
            timer: 0,
            envelope: Envelope::new(),
            sweep_period: 0,
            sweep_negate: false,
            sweep_shift: 0,
            sweep_counter: 0,
            sweep_muted: false,
        }
    }

    pub fn envelope(&self) -> (r: &Envelope)
        ensures
            r == &self.envelope,
    {
        &self.envelope
    }

    pub fn envelope_mut(&mut self) -> (r: &mut Envelope)
        ensures
            *r == old(self).envelope,
            *final(self) == (PulseChannel { envelope: *final(r), ..*old(self) }),
    {
        &mut self.envelope
    }

    pub fn read_pattern_duty(&self) -> (r: u8)
        ensures
            r == self.duty_pattern,
    {
        self.duty_pattern
    }

    pub fn write_pattern_duty(&mut self, data: u8)
        ensures
            *final(self) == (PulseChannel { duty_pattern: data & 0x03u8, ..*old(self) }),
            old(self).wf() ==> final(self).wf(),
    {
        self.duty_pattern = data & 0x03;
        proof {
            assert(data & 0x03u8 < 4) by (bit_vector);
        }
    }

    pub fn frequency(&self) -> (r: u16)
        ensures
            r == self.frequency,
    {
        self.frequency
    }

    pub fn write_frequency(&mut self, freq: u16)
        requires
            freq < 2048,
        ensures
            *final(self) == (PulseChannel { frequency: freq, ..*old(self) }),
            old(self).wf() ==> final(self).wf(),
    {
        self.frequency = freq;
    }

    /// NR10 as read back: period, direction, shift.
    pub fn read_sweep_register(&self) -> (r: u8)
        requires
            self.wf(),
        ensures
            r == (self.sweep_period << 4u8) | (if self.sweep_negate { 0x08u8 } else { 0u8 })
                | self.sweep_shift,
    {
        (self.sweep_period << 4) | (if self.sweep_negate { 0x08 } else { 0 }) | self.sweep_shift
    }

    /// NR10 write.
    pub fn write_sweep_register(&mut self, data: u8)
        ensures
            *final(self) == (PulseChannel {
                sweep_period: (data >> 4u8) & 0x07u8,
                sweep_negate: data & 0x08u8 != 0,
                sweep_shift: data & 0x07u8,
                ..*old(self)
            }),
            old(self).wf() ==> final(self).wf(),
    {
        self.sweep_period = (data >> 4) & 0x07;
        self.sweep_negate = data & 0x08 != 0;
        self.sweep_shift = data & 0x07;
        proof {
            assert((data >> 4u8) & 0x07u8 < 8 && data & 0x07u8 < 8) by (bit_vector);
        }
    }

    /// One machine cycle of the frequency timer.
    pub fn clock(&mut self)
        requires
            old(self).wf(),
        ensures
            *final(self) == spec_pulse_clocked(*old(self)),
            final(self).wf(),
    {
        if self.timer == 0 {
            self.timer = 2048 - self.frequency;
            self.duty_pos = (self.duty_pos + 1) % 8;
        } else {
            self.timer = self.timer - 1;
        }
    }

    /// One frame-sequencer sweep tick.
    pub fn clock_sweeper(&mut self)
        requires
            old(self).wf(),
        ensures
            *final(self) == spec_sweep_clocked(*old(self)),
            final(self).wf(),
    {
        if self.sweep_period == 0 {
            return ;
        }
        if self.sweep_counter > 1 {
            self.sweep_counter = self.sweep_counter - 1;
            return ;
        }
        self.sweep_counter = self.sweep_period;
        let delta: u16 = self.frequency >> self.sweep_shift;
        proof {
            let f = old(self).frequency;
            let s = old(self).sweep_shift as u16;
            assert(f >> s <= f) by (bit_vector);
        }
        if self.sweep_negate {
            if self.sweep_shift > 0 {
                self.frequency = self.frequency - delta;
            }
        } else {
            if self.frequency + delta > 2047 {
                self.sweep_muted = true;
            } else if self.sweep_shift > 0 {
                self.frequency = self.frequency + delta;
            }
        }
    }

    /// A trigger restarts the timer, the envelope and the sweep, and clears
    /// a sweep mute.
    pub fn trigger(&mut self)
        requires
            old(self).wf(),
        ensures
            *final(self) == (PulseChannel {
                timer: (2048 - old(self).frequency) as u16,
                envelope: Envelope {
                    current_volume: old(self).envelope.starting_volume,
                    counter: old(self).envelope.period,
                    ..old(self).envelope
                },
                sweep_counter: old(self).sweep_period,
                sweep_muted: false,
                ..*old(self)
            }),
            final(self).wf(),
    {
        self.timer = 2048 - self.frequency;
        self.envelope.trigger();
        self.sweep_counter = self.sweep_period;
        self.sweep_muted = false;
    }
}

impl ApuChannel for PulseChannel {
    open spec fn spec_wf(&self) -> bool {
        self.wf()
    }

    /// The duty waveform gates the envelope volume.
    open spec fn spec_output(&self) -> u8 {
        if (spec_duty_waveform(self.duty_pattern) >> self.duty_pos) & 1 == 1 {
            self.envelope.current_volume
        } else {
            0
        }
    }

    open spec fn spec_muted(&self) -> bool {
        self.sweep_muted
    }

    fn output(&mut self) -> (r: u8) {
        let waveform: u8 = if self.duty_pattern == 0 {
            0x01
        } else if self.duty_pattern == 1 {
            0x81
        } else if self.duty_pattern == 2 {
            0x87
        } else {
            0x7E
        };
        if (waveform >> self.duty_pos) & 1 == 1 {
            self.envelope.current_volume
        } else {
            0
        }
    }

    fn muted(&self) -> (r: bool) {
        self.sweep_muted
    }
}

} // verus!
