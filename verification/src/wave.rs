//! The wave channel: 32 four-bit samples played from wave RAM, at a rate
//! set by an 11-bit frequency, attenuated by a 2-bit volume shift.

use vstd::prelude::*;

use crate::length_counter::ApuChannel;

verus! {

pub struct WaveChannel {
    /// NR30 bit 7: whether the channel's DAC is powered.
    pub dac_enabled: bool,
    /// NR32 bits 5..7: 0 mutes, 1 plays as is, 2 halves, 3 quarters.
    pub volume_code: u8,
    /// 11-bit frequency register (NR33 and NR34 bits 0..3).
    pub frequency: u16,
    /// Machine cycles left until the sample position advances.
    pub timer: u16,
    /// Position 0..32 in the wave, two samples per RAM byte, high nibble
    /// first.
    pub position: u8,
    /// The 16 bytes of wave RAM (0xFF30..0xFF40).
    pub wave_ram: Vec<u8>,
}

impl WaveChannel {
    pub open spec fn wf(self) -> bool {
        &&& self.volume_code < 4
        &&& self.frequency < 2048
        &&& self.position < 32
        &&& self.wave_ram@.len() == 16
    }
}

/// Machine cycles between sample steps: the wave steps every
/// (2048 - frequency) * 2 T-cycles, at least one machine cycle here.
pub open spec fn spec_wave_period(frequency: u16) -> u16 {
    if (2048 - frequency) / 2 == 0 {
        1
    } else {
        ((2048 - frequency) / 2) as u16
    }
}

/// One machine cycle of the sample timer: count down, and on expiry reload
/// and advance the position around the 32-sample wave.
pub open spec fn spec_wave_clocked(c: WaveChannel) -> WaveChannel {
    if c.timer == 0 {
        WaveChannel {
            timer: spec_wave_period(c.frequency),
            position: ((c.position + 1) % 32) as u8,
            ..c
        }
    } else {
        WaveChannel { timer: (c.timer - 1) as u16, ..c }
    }
}

/// The 4-bit sample under the playing position: even positions take the
/// high nibble of their RAM byte.
pub open spec fn spec_wave_sample(c: WaveChannel) -> u8 {
    let byte = c.wave_ram@[(c.position / 2) as int];
    if c.position % 2 == 0 {
        byte / 16
    } else {
        (byte % 16) as u8
    }
}

/// The sample after the volume shift: code 0 mutes, code k shifts right by
/// k - 1.
pub open spec fn spec_wave_output(c: WaveChannel) -> u8 {
    if !c.dac_enabled || c.volume_code == 0 {
        0
    } else if c.volume_code == 1 {
        spec_wave_sample(c)
    } else if c.volume_code == 2 {
        (spec_wave_sample(c) / 2) as u8
    } else {
        (spec_wave_sample(c) / 4) as u8
    }
}

impl WaveChannel {
    pub fn new() -> (r: WaveChannel)
        ensures
            r.wf(),
            r.dac_enabled == false,
            r.volume_code == 0,
            r.frequency == 0,
            r.timer == 0,
            r.position == 0,
            r.wave_ram@ == Seq::new(16, |i: int| 0u8),
    {
        let mut wave_ram: Vec<u8> = Vec::new();
        let mut i: usize = 0;
        while i < 16
            invariant
                i <= 16,
                wave_ram@ == Seq::new(i as nat, |j: int| 0u8),
            decreases 16 - i,
        {
            wave_ram.push(0);
            proof {
                assert(wave_ram@ =~= Seq::new((i + 1) as nat, |j: int| 0u8));
            }
            i = i + 1;
        }
        WaveChannel {
            dac_enabled: false,
            volume_code: 0,
            frequency: 0,
            timer: 0,
            position: 0,
            wave_ram,
        }
    }

    pub fn write_frequency(&mut self, freq: u16)
        requires
            freq < 2048,
        ensures
            *final(self) == (WaveChannel { frequency: freq, ..*old(self) }),
            old(self).wf() ==> final(self).wf(),
    {
        self.frequency = freq;
    }

    /// One byte of wave RAM.
    pub fn read_wave_ram(&self, index: u8) -> (r: u8)
        requires
            self.wf(),
            index < 16,
        ensures
            r == self.wave_ram@[index as int],
    {
        self.wave_ram[index as usize]
    }

    pub fn write_wave_ram(&mut self, index: u8, data: u8)
        requires
            old(self).wf(),
            index < 16,
        ensures
            final(self).wf(),
            *final(self) == (WaveChannel { wave_ram: final(self).wave_ram, ..*old(self) }),
            final(self).wave_ram@ == old(self).wave_ram@.update(index as int, data),
    {
        self.wave_ram.set(index as usize, data);
    }

    /// One machine cycle of the sample timer.
    pub fn clock(&mut self)
        requires
            old(self).wf(),
        ensures
            *final(self) == spec_wave_clocked(*old(self)),
            final(self).wf(),
    {
        if self.timer == 0 {
            let half: u16 = (2048 - self.frequency) / 2;
            self.timer = if half == 0 {
                1
            } else {
                half
            };
            self.position = (self.position + 1) % 32;
        } else {
            self.timer = self.timer - 1;
        }
    }

    /// A trigger restarts the wave from position 0.
    pub fn trigger(&mut self)
        requires
            old(self).wf(),
        ensures
            *final(self) == (WaveChannel {
                timer: spec_wave_period(old(self).frequency),
                position: 0,
                ..*old(self)
            }),
            final(self).wf(),
    {
        let half: u16 = (2048 - self.frequency) / 2;
        self.timer = if half == 0 {
            1
        } else {
            half
        };
        self.position = 0;
    }
}

impl ApuChannel for WaveChannel {
    open spec fn spec_wf(&self) -> bool {
        self.wf()
    }

    open spec fn spec_output(&self) -> u8 {
        spec_wave_output(*self)
    }

    open spec fn spec_muted(&self) -> bool {
        !self.dac_enabled
    }

    fn output(&mut self) -> (r: u8) {
        if !self.dac_enabled || self.volume_code == 0 {
            return 0;
        }
        let byte: u8 = self.wave_ram[(self.position / 2) as usize];
        let sample: u8 = if self.position % 2 == 0 {
            byte / 16
        } else {
            byte % 16
        };
        if self.volume_code == 1 {
            sample
        } else if self.volume_code == 2 {
            sample / 2
        } else {
            sample / 4
        }
    }

    fn muted(&self) -> (r: bool) {
        !self.dac_enabled
    }
}

} // verus!
