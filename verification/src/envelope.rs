//! Volume envelope: a 4-bit volume stepped by 1 every `period`
//! frame-sequencer envelope ticks, up or down, saturating at 15 and 0.

use vstd::prelude::*;

verus! {

pub struct Envelope {
    /// NRx2 bits 4..8: volume loaded on trigger.
    pub starting_volume: u8,
    /// NRx2 bit 3: step direction.
    pub increasing: bool,
    /// NRx2 bits 0..3: ticks between volume steps; 0 freezes the envelope.
    pub period: u8,
    /// Volume the channel outputs now.
    pub current_volume: u8,
    /// Ticks left until the next volume step.
    pub counter: u8,
}

impl Envelope {
    /// The 4-bit fields stay in range.
    pub open spec fn wf(self) -> bool {
        &&& self.starting_volume < 16
        &&& self.period < 8
        &&& self.current_volume < 16
        &&& self.counter < 16
    }
}

/// One volume step: by 1 toward the direction, saturating.
pub open spec fn spec_stepped_volume(volume: u8, increasing: bool) -> u8 {
    if increasing {
        if volume < 15 {
            (volume + 1) as u8
        } else {
            volume
        }
    } else {
        if volume > 0 {
            (volume - 1) as u8
        } else {
            volume
        }
    }
}

/// One frame-sequencer envelope tick: with period 0 nothing moves; otherwise
/// the counter steps down and the volume moves by 1 exactly on the tick the
/// counter runs out, which also reloads it. So the volume moves exactly
/// every `period` ticks.
pub open spec fn spec_envelope_clocked(e: Envelope) -> Envelope {
    if e.period == 0 {
        e
    } else if e.counter > 1 {
        Envelope { counter: (e.counter - 1) as u8, ..e }
    } else {
        Envelope {
            counter: e.period,
            current_volume: spec_stepped_volume(e.current_volume, e.increasing),
            ..e
        }
    }
}

/// `spec_envelope_clocked` iterated n times.
pub open spec fn spec_envelope_clocked_n(e: Envelope, n: nat) -> Envelope
    decreases n,
{
    if n == 0 {
        e
    } else {
        spec_envelope_clocked(spec_envelope_clocked_n(e, (n - 1) as nat))
    }
}

/// With period p > 0, the volume moves by exactly one saturating step every
/// p envelope ticks: starting from a reloaded counter, the first p - 1 ticks
/// leave the volume alone, and the p-th tick steps it and reloads the
/// counter, so the pattern repeats.
pub proof fn lemma_envelope_steps_every_period(e: Envelope, k: nat)
    requires
        e.wf(),
        e.period > 0,
        e.counter == e.period,
        k <= e.period,
    ensures
        k < e.period ==> spec_envelope_clocked_n(e, k) == (Envelope {
            counter: (e.period - k) as u8,
            ..e
        }),
        k == e.period ==> spec_envelope_clocked_n(e, k) == (Envelope {
            counter: e.period,
            current_volume: spec_stepped_volume(e.current_volume, e.increasing),
            ..e
        }),
    decreases k,
{
    if k > 0 {
        lemma_envelope_steps_every_period(e, (k - 1) as nat);
    }
}

/// The all-zero envelope state of a reset APU.
pub open spec fn spec_envelope_reset() -> Envelope {
    Envelope { starting_volume: 0, increasing: false, period: 0, current_volume: 0, counter: 0 }
}

impl Envelope {
    pub fn new() -> (r: Envelope)
        ensures
            r == spec_envelope_reset(),
            r.wf(),
    {
        Envelope { starting_volume: 0, increasing: false, period: 0, current_volume: 0, counter: 0 }
    }

    /// NRx2 as read back: volume, direction, period.
    pub fn read_envelope_register(&self) -> (r: u8)
        requires
            self.wf(),
        ensures
            r == (self.starting_volume << 4u8) | (if self.increasing { 0x08u8 } else { 0u8 })
                | self.period,
    {
        (self.starting_volume << 4) | (if self.increasing { 0x08 } else { 0 }) | self.period
    }

    /// NRx2 write: sets volume, direction and period.
    pub fn write_envelope_register(&mut self, data: u8)
        ensures
            *final(self) == (Envelope {
                starting_volume: data >> 4u8,
                increasing: data & 0x08u8 != 0,
                period: data & 0x07u8,
                ..*old(self)
            }),
            old(self).wf() ==> final(self).wf(),
    {
        self.starting_volume = data >> 4;
        self.increasing = data & 0x08 != 0;
        self.period = data & 0x07;
        proof {
            assert(data >> 4u8 < 16 && data & 0x07u8 < 8) by (bit_vector);
        }
    }

    /// A channel trigger restarts the envelope from its register values.
    pub fn trigger(&mut self)
        ensures
            *final(self) == (Envelope {
                current_volume: old(self).starting_volume,
                counter: old(self).period,
                ..*old(self)
            }),
            old(self).wf() ==> final(self).wf(),
    {
        self.current_volume = self.starting_volume;
        self.counter = self.period;
    }

    /// One frame-sequencer envelope tick.
    pub fn clock(&mut self)
        requires
            old(self).wf(),
        ensures
            *final(self) == spec_envelope_clocked(*old(self)),
            final(self).wf(),
    {
        if self.period != 0 {
            if self.counter > 1 {
                self.counter = self.counter - 1;
            } else {
                self.counter = self.period;
                if self.increasing {
                    if self.current_volume < 15 {
                        self.current_volume = self.current_volume + 1;
                    }
                } else {
                    if self.current_volume > 0 {
                        self.current_volume = self.current_volume - 1;
                    }
                }
            }
        }
    }
}

} // verus!
