//! APU register file, frame sequencer and sample cadence.
//!
//! The four channels (two pulses, wave, noise) are clocked every machine
//! cycle; a 512 Hz frame sequencer (one step per 2048 machine cycles)
//! clocks length counters on steps 0, 2, 4 and 6, the pulse-1 sweep on
//! steps 2 and 6, and the envelopes on step 7. Output samples are taken at
//! 44.1 kHz with an exact fractional accumulator and collected digitally;
//! the host maps them to analog levels.

use vstd::prelude::*;

use crate::envelope::Envelope;
use crate::envelope::spec_envelope_clocked;
use crate::length_counter::ApuChannel;
use crate::length_counter::LengthCountedChannel;
use crate::length_counter::spec_length_clocked;
use crate::pulse::PulseChannel;
use crate::pulse::spec_pulse_clocked;
use crate::pulse::spec_pulse_reset;
use crate::pulse::spec_sweep_clocked;
use crate::noise::NoiseChannel;
use crate::noise::spec_noise_clocked;
use crate::noise::spec_noise_period;
use crate::wave::WaveChannel;
use crate::wave::spec_wave_clocked;
use crate::wave::spec_wave_period;

verus! {

/// Machine cycles per second: the source rate of the sample cadence.
pub const MACHINE_CYCLES_PER_SECOND: u32 = 1048576;

/// Output sample rate.
pub const SAMPLE_RATE: u32 = 44100;

/// One digital stereo sample: the two 4-bit channel outputs together with
/// the mixer registers in force when it was taken. The host's DAC and mixer
/// turn this into analog stereo.
#[derive(Clone, Copy, PartialEq, Eq, Structural, Debug)]
pub struct ApuSample {
    pub pulse1: u8,
    pub pulse2: u8,
    pub wave: u8,
    pub noise: u8,
    /// NR50 at sampling time: master volume per side.
    pub control: u8,
    /// NR51 at sampling time: which channels feed which side.
    pub selection: u8,
}

pub struct Apu {
    pub pulse1: LengthCountedChannel<PulseChannel>,
    pub pulse2: LengthCountedChannel<PulseChannel>,
    pub wave: LengthCountedChannel<WaveChannel>,
    pub noise: LengthCountedChannel<NoiseChannel>,
    /// NR50: Vin and master volume bits.
    pub channels_control: u8,
    /// NR51: channel-to-side routing.
    pub channels_selection: u8,
    /// Machine cycles into the current frame-sequencer step, 0..2048.
    pub cycle: u16,
    /// Current frame-sequencer step, 0..8.
    pub sequencer_step: u8,
    /// Fractional sample accumulator, in units of 1/MACHINE_CYCLES_PER_SECOND
    /// of a sample; a sample is emitted whenever it reaches one cycle's worth.
    pub sample_counter: u32,
    /// Samples taken since the host last drained them.
    pub buffer: Vec<ApuSample>,
}

impl Apu {
    pub open spec fn wf(self) -> bool {
        &&& self.pulse1.channel.wf()
        &&& self.pulse2.channel.wf()
        &&& self.wave.channel.wf()
        &&& self.noise.channel.wf()
        &&& self.pulse1.max_length == 64
        &&& self.pulse2.max_length == 64
        &&& self.wave.max_length == 256
        &&& self.noise.max_length == 64
        &&& self.cycle < 2048
        &&& self.sequencer_step < 8
        &&& self.sample_counter < MACHINE_CYCLES_PER_SECOND
    }
}

/// The byte an APU register read returns: every register carries its
/// unreadable-bit mask, so undefined and write-only bits read as 1.
pub open spec fn spec_apu_read(a: Apu, addr: u16) -> u8 {
    if addr == 0xFF10 {
        0x80u8 | ((a.pulse1.channel.sweep_period << 4u8) | (if a.pulse1.channel.sweep_negate {
            0x08u8
        } else {
            0u8
        }) | a.pulse1.channel.sweep_shift)
    } else if addr == 0xFF11 {
        0x3Fu8 | (a.pulse1.channel.duty_pattern << 6u8)
    } else if addr == 0xFF12 {
        (a.pulse1.channel.envelope.starting_volume << 4u8) | (if a.pulse1.channel.envelope.increasing {
            0x08u8
        } else {
            0u8
        }) | a.pulse1.channel.envelope.period
    } else if addr == 0xFF14 {
        0xBFu8 | (if a.pulse1.counter_decrease_enable {
            0x40u8
        } else {
            0u8
        })
    } else if addr == 0xFF16 {
        0x3Fu8 | (a.pulse2.channel.duty_pattern << 6u8)
    } else if addr == 0xFF17 {
        (a.pulse2.channel.envelope.starting_volume << 4u8) | (if a.pulse2.channel.envelope.increasing {
            0x08u8
        } else {
            0u8
        }) | a.pulse2.channel.envelope.period
    } else if addr == 0xFF19 {
        0xBFu8 | (if a.pulse2.counter_decrease_enable {
            0x40u8
        } else {
            0u8
        })
    } else if addr == 0xFF1A {
        0x7Fu8 | (if a.wave.channel.dac_enabled {
            0x80u8
        } else {
            0u8
        })
    } else if addr == 0xFF1C {
        0x9Fu8 | (a.wave.channel.volume_code << 5u8)
    } else if addr == 0xFF1E {
        0xBFu8 | (if a.wave.counter_decrease_enable {
            0x40u8
        } else {
            0u8
        })
    } else if addr == 0xFF21 {
        (a.noise.channel.envelope.starting_volume << 4u8) | (
        if a.noise.channel.envelope.increasing {
            0x08u8
        } else {
            0u8
        }) | a.noise.channel.envelope.period
    } else if addr == 0xFF22 {
        (a.noise.channel.clock_shift << 4u8) | (if a.noise.channel.width_7 {
            0x08u8
        } else {
            0u8
        }) | a.noise.channel.divisor_code
    } else if addr == 0xFF23 {
        0xBFu8 | (if a.noise.counter_decrease_enable {
            0x40u8
        } else {
            0u8
        })
    } else if addr == 0xFF24 {
        a.channels_control
    } else if addr == 0xFF25 {
        a.channels_selection
    } else if addr == 0xFF26 {
        0xF0u8 | (if !a.noise.spec_muted() {
            0x08u8
        } else {
            0u8
        }) | (if !a.wave.spec_muted() {
            0x04u8
        } else {
            0u8
        }) | (if !a.pulse2.spec_muted() {
            0x02u8
        } else {
            0u8
        }) | (if !a.pulse1.spec_muted() {
            0x01u8
        } else {
            0u8
        })
    } else if 0xFF30 <= addr && addr <= 0xFF3F {
        a.wave.channel.wave_ram@[(addr - 0xFF30) as int]
    } else {
        0xFF
    }
}

/// The digital sample the APU state yields right now.
pub open spec fn spec_apu_sample(a: Apu) -> ApuSample {
    ApuSample {
        pulse1: a.pulse1.spec_output(),
        pulse2: a.pulse2.spec_output(),
        wave: a.wave.spec_output(),
        noise: a.noise.spec_output(),
        control: a.channels_control,
        selection: a.channels_selection,
    }
}

/// What one frame-sequencer step does to a pulse channel: sweep on steps 2
/// and 6 (pulse 1 only), then length on the even steps, envelope on step 7.
pub open spec fn spec_pulse_sequenced(
    c: LengthCountedChannel<PulseChannel>,
    step: u8,
    has_sweep: bool,
) -> LengthCountedChannel<PulseChannel> {
    let swept = if has_sweep && (step == 2 || step == 6) {
        LengthCountedChannel { channel: spec_sweep_clocked(c.channel), ..c }
    } else {
        c
    };
    let counted = if step == 0 || step == 2 || step == 4 || step == 6 {
        spec_length_clocked(swept)
    } else {
        swept
    };
    if step == 7 {
        LengthCountedChannel {
            channel: PulseChannel {
                envelope: spec_envelope_clocked(counted.channel.envelope),
                ..counted.channel
            },
            ..counted
        }
    } else {
        counted
    }
}

/// What an NRx4 trigger does: unmute, reload the length counter (full length
/// if it was 0), restart the frequency timer, the envelope and the sweep.
pub open spec fn spec_channel_triggered(
    c: LengthCountedChannel<PulseChannel>,
) -> LengthCountedChannel<PulseChannel> {
    LengthCountedChannel {
        muted: false,
        current_counter: if c.length == 0 {
            c.max_length
        } else {
            c.length
        },
        channel: PulseChannel {
            timer: (2048 - c.channel.frequency) as u16,
            envelope: Envelope {
                current_volume: c.channel.envelope.starting_volume,
                counter: c.channel.envelope.period,
                ..c.channel.envelope
            },
            sweep_counter: c.channel.sweep_period,
            sweep_muted: false,
            ..c.channel
        },
        ..c
    }
}

/// What one frame-sequencer step does to the wave channel: length on the
/// even steps.
pub open spec fn spec_wave_sequenced(
    c: LengthCountedChannel<WaveChannel>,
    step: u8,
) -> LengthCountedChannel<WaveChannel> {
    if step == 0 || step == 2 || step == 4 || step == 6 {
        spec_length_clocked(c)
    } else {
        c
    }
}

/// What one frame-sequencer step does to the noise channel: length on the
/// even steps, envelope on step 7.
pub open spec fn spec_noise_sequenced(
    c: LengthCountedChannel<NoiseChannel>,
    step: u8,
) -> LengthCountedChannel<NoiseChannel> {
    let counted = if step == 0 || step == 2 || step == 4 || step == 6 {
        spec_length_clocked(c)
    } else {
        c
    };
    if step == 7 {
        LengthCountedChannel {
            channel: NoiseChannel {
                envelope: spec_envelope_clocked(counted.channel.envelope),
                ..counted.channel
            },
            ..counted
        }
    } else {
        counted
    }
}

/// What an NR34 trigger does to the wave channel.
pub open spec fn spec_wave_triggered(
    c: LengthCountedChannel<WaveChannel>,
) -> LengthCountedChannel<WaveChannel> {
    LengthCountedChannel {
        muted: false,
        current_counter: if c.length == 0 {
            c.max_length
        } else {
            c.length
        },
        channel: WaveChannel {
            timer: spec_wave_period(c.channel.frequency),
            position: 0,
            ..c.channel
        },
        ..c
    }
}

/// What an NR44 trigger does to the noise channel.
pub open spec fn spec_noise_triggered(
    c: LengthCountedChannel<NoiseChannel>,
) -> LengthCountedChannel<NoiseChannel> {
    LengthCountedChannel {
        muted: false,
        current_counter: if c.length == 0 {
            c.max_length
        } else {
            c.length
        },
        channel: NoiseChannel {
            lfsr: 0x7FFF,
            timer: spec_noise_period(c.channel.divisor_code, c.channel.clock_shift),
            envelope: Envelope {
                current_volume: c.channel.envelope.starting_volume,
                counter: c.channel.envelope.period,
                ..c.channel.envelope
            },
            ..c.channel
        },
        ..c
    }
}

impl Apu {
    pub fn new() -> (r: Apu)
        ensures
            r.pulse1 == (LengthCountedChannel {
                max_length: 64u16,
                length: 0u16,
                current_counter: 0u16,
                counter_decrease_enable: false,
                muted: false,
                channel: spec_pulse_reset(),
            }),
            r.pulse2 == r.pulse1,
            r.wave.max_length == 256,
            r.wave.length == 0,
            r.wave.current_counter == 0,
            !r.wave.counter_decrease_enable,
            !r.wave.muted,
            !r.wave.channel.dac_enabled,
            r.noise.max_length == 64,
            r.noise.length == 0,
            r.noise.current_counter == 0,
            !r.noise.counter_decrease_enable,
            !r.noise.muted,
            r.noise.channel.lfsr == 0x7FFF,
            r.channels_control == 0,
            r.channels_selection == 0,
            r.cycle == 0,
            r.sequencer_step == 0,
            r.sample_counter == 0,
            r.buffer@.len() == 0,
            r.wf(),
    {
        Apu {
            pulse1: LengthCountedChannel::new(PulseChannel::new(), 64),
            pulse2: LengthCountedChannel::new(PulseChannel::new(), 64),
            wave: LengthCountedChannel::new(WaveChannel::new(), 256),
            noise: LengthCountedChannel::new(NoiseChannel::new(), 64),
            channels_control: 0,
            channels_selection: 0,
            cycle: 0,
            sequencer_step: 0,
            sample_counter: 0,
            buffer: Vec::new(),
        }
    }

    /// State after the boot ROM has initialised the APU: NR50 = 0x77,
    /// NR51 = 0xF3, pulse 1 left with duty 2 and a full decreasing envelope.
    pub fn new_skip_boot_rom() -> (r: Apu)
        ensures
            r.channels_control == 0x77,
            r.channels_selection == 0xF3,
            r.pulse1.channel.duty_pattern == 2,
            r.pulse1.channel.envelope.starting_volume == 0xF,
            r.pulse1.channel.envelope.period == 3,
            r.wf(),
    {
        let mut apu = Apu::new();
        apu.channels_control = 0x77;
        apu.channels_selection = 0xF3;
        apu.pulse1.channel.duty_pattern = 2;
        apu.pulse1.channel.envelope.starting_volume = 0xF;
        apu.pulse1.channel.envelope.period = 3;
        apu
    }

    /// NR50 master volume for the left side, 0..8.
    pub fn vol_left(&self) -> (r: u8)
        ensures
            r == (self.channels_control >> 4u8) & 0x07u8,
    {
        (self.channels_control >> 4) & 0x07
    }

    /// NR50 master volume for the right side, 0..8.
    pub fn vol_right(&self) -> (r: u8)
        ensures
            r == self.channels_control & 0x07u8,
    {
        self.channels_control & 0x07
    }

    /// Register read-back. Every register carries its unreadable-bit mask,
    /// so undefined and write-only bits read as 1.
    pub fn read_register(&self, addr: u16) -> (r: u8)
        requires
            self.wf(),
            0xFF10 <= addr <= 0xFF3F,
        ensures
            r == spec_apu_read(*self, addr),
    {
        if addr == 0xFF10 {
            0x80 | self.pulse1.channel.read_sweep_register()
        } else if addr == 0xFF11 {
            proof {
                let d = self.pulse1.channel.duty_pattern;
                assert(d < 4 ==> (d << 6u8) <= 0xC0u8) by (bit_vector);
            }
            0x3F | (self.pulse1.channel.read_pattern_duty() << 6)
        } else if addr == 0xFF12 {
            self.pulse1.channel.envelope().read_envelope_register()
        } else if addr == 0xFF14 {
            0xBF | (if self.pulse1.read_length_enable() {
                0x40
            } else {
                0
            })
        } else if addr == 0xFF16 {
            proof {
                let d = self.pulse2.channel.duty_pattern;
                assert(d < 4 ==> (d << 6u8) <= 0xC0u8) by (bit_vector);
            }
            0x3F | (self.pulse2.channel.read_pattern_duty() << 6)
        } else if addr == 0xFF17 {
            self.pulse2.channel.envelope().read_envelope_register()
        } else if addr == 0xFF19 {
            0xBF | (if self.pulse2.read_length_enable() {
                0x40
            } else {
                0
            })
        } else if addr == 0xFF1A {
            0x7F | (if self.wave.channel.dac_enabled {
                0x80
            } else {
                0
            })
        } else if addr == 0xFF1C {
            proof {
                let v = self.wave.channel.volume_code;
                assert(v < 4 ==> (v << 5u8) <= 0x60u8) by (bit_vector);
            }
            0x9F | (self.wave.channel.volume_code << 5)
        } else if addr == 0xFF1E {
            0xBF | (if self.wave.read_length_enable() {
                0x40
            } else {
                0
            })
        } else if addr == 0xFF21 {
            self.noise.channel.envelope().read_envelope_register()
        } else if addr == 0xFF22 {
            self.noise.channel.read_rate_register()
        } else if addr == 0xFF23 {
            0xBF | (if self.noise.read_length_enable() {
                0x40
            } else {
                0
            })
        } else if addr == 0xFF24 {
            self.channels_control
        } else if addr == 0xFF25 {
            self.channels_selection
        } else if addr == 0xFF26 {
            0xF0 | (if !self.noise.muted() {
                0x08
            } else {
                0
            }) | (if !self.wave.muted() {
                0x04
            } else {
                0
            }) | (if !self.pulse2.muted() {
                0x02
            } else {
                0
            }) | (if !self.pulse1.muted() {
                0x01
            } else {
                0
            })
        } else if 0xFF30 <= addr && addr <= 0xFF3F {
            self.wave.channel.read_wave_ram((addr - 0xFF30) as u8)
        } else {
            0xFF
        }
    }
}

/// One pulse channel after an NRx1 write: duty from the top two bits, length
/// counter loaded from the low six.
pub open spec fn spec_written_nrx1(
    c: LengthCountedChannel<PulseChannel>,
    data: u8,
) -> LengthCountedChannel<PulseChannel> {
    LengthCountedChannel {
        length: (64 - (data & 0x3F)) as u16,
        current_counter: (64 - (data & 0x3F)) as u16,
        channel: PulseChannel { duty_pattern: (data >> 6) & 0x03, ..c.channel },
        ..c
    }
}

/// One pulse channel after an NRx2 write: the envelope register.
pub open spec fn spec_written_nrx2(
    c: LengthCountedChannel<PulseChannel>,
    data: u8,
) -> LengthCountedChannel<PulseChannel> {
    LengthCountedChannel {
        channel: PulseChannel {
            envelope: Envelope {
                starting_volume: data >> 4,
                increasing: data & 0x08 != 0,
                period: data & 0x07,
                ..c.channel.envelope
            },
            ..c.channel
        },
        ..c
    }
}

/// One pulse channel after an NRx3 write: frequency low byte.
pub open spec fn spec_written_nrx3(
    c: LengthCountedChannel<PulseChannel>,
    data: u8,
) -> LengthCountedChannel<PulseChannel> {
    LengthCountedChannel {
        channel: PulseChannel {
            frequency: (c.channel.frequency & 0xFF00) | data as u16,
            ..c.channel
        },
        ..c
    }
}

/// One pulse channel after an NRx4 write: frequency high bits, length
/// enable, and on bit 7 a trigger.
pub open spec fn spec_written_nrx4(
    c: LengthCountedChannel<PulseChannel>,
    data: u8,
) -> LengthCountedChannel<PulseChannel> {
    let with_freq = LengthCountedChannel {
        channel: PulseChannel {
            frequency: (c.channel.frequency & 0xFF) | (((data & 0x07) as u16) << 8u16),
            ..c.channel
        },
        ..c
    };
    let with_enable = LengthCountedChannel {
        counter_decrease_enable: (data >> 6) & 1 == 1,
        current_counter: with_freq.length,
        ..with_freq
    };
    if data & 0x80 != 0 {
        spec_channel_triggered(with_enable)
    } else {
        with_enable
    }
}

/// One pulse channel after a sweep-register (NR10) write.
pub open spec fn spec_written_nr10(
    c: LengthCountedChannel<PulseChannel>,
    data: u8,
) -> LengthCountedChannel<PulseChannel> {
    LengthCountedChannel {
        channel: PulseChannel {
            sweep_period: (data >> 4) & 0x07,
            sweep_negate: data & 0x08 != 0,
            sweep_shift: data & 0x07,
            ..c.channel
        },
        ..c
    }
}

/// The wave channel after an NR31 write: the full byte loads the 256-step
/// length counter.
pub open spec fn spec_written_nr31(
    c: LengthCountedChannel<WaveChannel>,
    data: u8,
) -> LengthCountedChannel<WaveChannel> {
    LengthCountedChannel {
        length: (256 - data) as u16,
        current_counter: (256 - data) as u16,
        ..c
    }
}

/// The wave channel after an NR33 write: frequency low byte.
pub open spec fn spec_written_nr33(
    c: LengthCountedChannel<WaveChannel>,
    data: u8,
) -> LengthCountedChannel<WaveChannel> {
    LengthCountedChannel {
        channel: WaveChannel {
            frequency: (c.channel.frequency & 0xFF00) | data as u16,
            ..c.channel
        },
        ..c
    }
}

/// The wave channel after an NR34 write: frequency high bits, length
/// enable, and on bit 7 a trigger.
pub open spec fn spec_written_nr34(
    c: LengthCountedChannel<WaveChannel>,
    data: u8,
) -> LengthCountedChannel<WaveChannel> {
    let with_freq = LengthCountedChannel {
        channel: WaveChannel {
            frequency: (c.channel.frequency & 0xFF) | (((data & 0x07) as u16) << 8u16),
            ..c.channel
        },
        ..c
    };
    let with_enable = LengthCountedChannel {
        counter_decrease_enable: (data >> 6) & 1 == 1,
        current_counter: with_freq.length,
        ..with_freq
    };
    if data & 0x80 != 0 {
        spec_wave_triggered(with_enable)
    } else {
        with_enable
    }
}

/// The noise channel after an NR42 write: the envelope register.
pub open spec fn spec_written_nr42(
    c: LengthCountedChannel<NoiseChannel>,
    data: u8,
) -> LengthCountedChannel<NoiseChannel> {
    LengthCountedChannel {
        channel: NoiseChannel {
            envelope: Envelope {
                starting_volume: data >> 4,
                increasing: data & 0x08 != 0,
                period: data & 0x07,
                ..c.channel.envelope
            },
            ..c.channel
        },
        ..c
    }
}

/// The noise channel after an NR44 write: length enable, and on bit 7 a
/// trigger.
pub open spec fn spec_written_nr44(
    c: LengthCountedChannel<NoiseChannel>,
    data: u8,
) -> LengthCountedChannel<NoiseChannel> {
    let with_enable = LengthCountedChannel {
        counter_decrease_enable: (data >> 6) & 1 == 1,
        current_counter: c.length,
        ..c
    };
    if data & 0x80 != 0 {
        spec_noise_triggered(with_enable)
    } else {
        with_enable
    }
}

/// How one APU register write changes the APU: writes to unused or
/// read-only addresses are dropped.
pub open spec fn spec_apu_written(pre: Apu, post: Apu, addr: u16, data: u8) -> bool {
    if addr == 0xFF10 {
        post == Apu { pulse1: spec_written_nr10(pre.pulse1, data), ..pre }
    } else if addr == 0xFF11 {
        post == Apu { pulse1: spec_written_nrx1(pre.pulse1, data), ..pre }
    } else if addr == 0xFF12 {
        post == Apu { pulse1: spec_written_nrx2(pre.pulse1, data), ..pre }
    } else if addr == 0xFF13 {
        post == Apu { pulse1: spec_written_nrx3(pre.pulse1, data), ..pre }
    } else if addr == 0xFF14 {
        post == Apu { pulse1: spec_written_nrx4(pre.pulse1, data), ..pre }
    } else if addr == 0xFF16 {
        post == Apu { pulse2: spec_written_nrx1(pre.pulse2, data), ..pre }
    } else if addr == 0xFF17 {
        post == Apu { pulse2: spec_written_nrx2(pre.pulse2, data), ..pre }
    } else if addr == 0xFF18 {
        post == Apu { pulse2: spec_written_nrx3(pre.pulse2, data), ..pre }
    } else if addr == 0xFF19 {
        post == Apu { pulse2: spec_written_nrx4(pre.pulse2, data), ..pre }
    } else if addr == 0xFF1A {
        post == Apu {
            wave: LengthCountedChannel {
                channel: WaveChannel { dac_enabled: data & 0x80 != 0, ..pre.wave.channel },
                ..pre.wave
            },
            ..pre
        }
    } else if addr == 0xFF1B {
        post == Apu { wave: spec_written_nr31(pre.wave, data), ..pre }
    } else if addr == 0xFF1C {
        post == Apu {
            wave: LengthCountedChannel {
                channel: WaveChannel { volume_code: (data >> 5) & 0x03, ..pre.wave.channel },
                ..pre.wave
            },
            ..pre
        }
    } else if addr == 0xFF1D {
        post == Apu { wave: spec_written_nr33(pre.wave, data), ..pre }
    } else if addr == 0xFF1E {
        post == Apu { wave: spec_written_nr34(pre.wave, data), ..pre }
    } else if addr == 0xFF20 {
        post == Apu {
            noise: LengthCountedChannel {
                length: (64 - (data & 0x3F)) as u16,
                current_counter: (64 - (data & 0x3F)) as u16,
                ..pre.noise
            },
            ..pre
        }
    } else if addr == 0xFF21 {
        post == Apu { noise: spec_written_nr42(pre.noise, data), ..pre }
    } else if addr == 0xFF22 {
        post == Apu {
            noise: LengthCountedChannel {
                channel: NoiseChannel {
                    clock_shift: data >> 4,
                    width_7: data & 0x08 != 0,
                    divisor_code: data & 0x07,
                    ..pre.noise.channel
                },
                ..pre.noise
            },
            ..pre
        }
    } else if addr == 0xFF23 {
        post == Apu { noise: spec_written_nr44(pre.noise, data), ..pre }
    } else if addr == 0xFF24 {
        post == Apu { channels_control: data, ..pre }
    } else if addr == 0xFF25 {
        post == Apu { channels_selection: data, ..pre }
    } else if 0xFF30 <= addr && addr <= 0xFF3F {
        &&& post == Apu { wave: post.wave, ..pre }
        &&& post.wave == LengthCountedChannel { channel: post.wave.channel, ..pre.wave }
        &&& post.wave.channel == WaveChannel { wave_ram: post.wave.channel.wave_ram, ..pre.wave.channel }
        &&& post.wave.channel.wave_ram@ == pre.wave.channel.wave_ram@.update(
            (addr - 0xFF30) as int,
            data,
        )
    } else {
        post == pre
    }
}

impl Apu {
    /// A pulse channel's NRx1 write: duty and sound length.
    fn write_nrx1(c: &mut LengthCountedChannel<PulseChannel>, data: u8)
        requires
            old(c).channel.wf(),
            old(c).max_length == 64,
        ensures
            *final(c) == spec_written_nrx1(*old(c), data),
            final(c).channel.wf(),
    {
        proof {
            assert(data & 0x3Fu8 <= 64 && (data >> 6u8) & 0x03u8 == (data >> 6u8) & 0x03u8)
                by (bit_vector);
        }
        c.channel.write_pattern_duty(data >> 6);
        c.write_sound_length((data & 0x3F) as u16);
    }

    /// A pulse channel's NRx3 write: frequency low byte.
    fn write_nrx3(c: &mut LengthCountedChannel<PulseChannel>, data: u8)
        requires
            old(c).channel.wf(),
        ensures
            *final(c) == spec_written_nrx3(*old(c), data),
            final(c).channel.wf(),
    {
        let freq: u16 = (c.channel.frequency() & 0xFF00) | data as u16;
        proof {
            let f = old(c).channel.frequency;
            assert(f < 2048 ==> ((f & 0xFF00) | data as u16) < 2048) by (bit_vector);
        }
        c.channel.write_frequency(freq);
    }

    /// A pulse channel's NRx4 write: frequency high bits, length enable,
    /// trigger.
    fn write_nrx4(c: &mut LengthCountedChannel<PulseChannel>, data: u8)
        requires
            old(c).channel.wf(),
        ensures
            *final(c) == spec_written_nrx4(*old(c), data),
            final(c).channel.wf(),
    {
        let freq: u16 = (c.channel.frequency() & 0xFF) | (((data & 0x07) as u16) << 8);
        proof {
            let f = old(c).channel.frequency;
            assert(((f & 0xFF) | (((data & 0x07u8) as u16) << 8u16)) < 2048) by (bit_vector);
        }
        c.channel.write_frequency(freq);
        c.write_length_enable((data >> 6) & 1 == 1);
        if data & 0x80 != 0 {
            c.restart_channel();
            c.channel.trigger();
        }
    }

    /// The wave channel's NR33 write: frequency low byte.
    fn write_nr33(c: &mut LengthCountedChannel<WaveChannel>, data: u8)
        requires
            old(c).channel.wf(),
        ensures
            *final(c) == spec_written_nr33(*old(c), data),
            final(c).channel.wf(),
    {
        let freq: u16 = (c.channel.frequency & 0xFF00) | data as u16;
        proof {
            let f = old(c).channel.frequency;
            assert(f < 2048 ==> ((f & 0xFF00) | data as u16) < 2048) by (bit_vector);
        }
        c.channel.write_frequency(freq);
    }

    /// The wave channel's NR34 write: frequency high bits, length enable,
    /// trigger.
    fn write_nr34(c: &mut LengthCountedChannel<WaveChannel>, data: u8)
        requires
            old(c).channel.wf(),
        ensures
            *final(c) == spec_written_nr34(*old(c), data),
            final(c).channel.wf(),
    {
        let freq: u16 = (c.channel.frequency & 0xFF) | (((data & 0x07) as u16) << 8);
        proof {
            let f = old(c).channel.frequency;
            assert(((f & 0xFF) | (((data & 0x07u8) as u16) << 8u16)) < 2048) by (bit_vector);
        }
        c.channel.write_frequency(freq);
        c.write_length_enable((data >> 6) & 1 == 1);
        if data & 0x80 != 0 {
            c.restart_channel();
            c.channel.trigger();
        }
    }

    /// The noise channel's NR44 write: length enable, trigger.
    fn write_nr44(c: &mut LengthCountedChannel<NoiseChannel>, data: u8)
        requires
            old(c).channel.wf(),
        ensures
            *final(c) == spec_written_nr44(*old(c), data),
            final(c).channel.wf(),
    {
        c.write_length_enable((data >> 6) & 1 == 1);
        if data & 0x80 != 0 {
            c.restart_channel();
            c.channel.trigger();
        }
    }

    /// Register write. Reads of unused addresses were masked; writes to
    /// unused or read-only addresses are dropped.
    pub fn write_register(&mut self, addr: u16, data: u8)
        requires
            old(self).wf(),
            0xFF10 <= addr <= 0xFF3F,
        ensures
            final(self).wf(),
            spec_apu_written(*old(self), *final(self), addr, data),
    {
        if addr == 0xFF10 {
            self.pulse1.channel.write_sweep_register(data);
        } else if addr == 0xFF11 {
            Self::write_nrx1(&mut self.pulse1, data);
        } else if addr == 0xFF12 {
            self.pulse1.channel.envelope.write_envelope_register(data);
        } else if addr == 0xFF13 {
            Self::write_nrx3(&mut self.pulse1, data);
        } else if addr == 0xFF14 {
            Self::write_nrx4(&mut self.pulse1, data);
        } else if addr == 0xFF16 {
            Self::write_nrx1(&mut self.pulse2, data);
        } else if addr == 0xFF17 {
            self.pulse2.channel.envelope.write_envelope_register(data);
        } else if addr == 0xFF18 {
            Self::write_nrx3(&mut self.pulse2, data);
        } else if addr == 0xFF19 {
            Self::write_nrx4(&mut self.pulse2, data);
        } else if addr == 0xFF1A {
            self.wave.channel.dac_enabled = data & 0x80 != 0;
        } else if addr == 0xFF1B {
            self.wave.write_sound_length(data as u16);
        } else if addr == 0xFF1C {
            self.wave.channel.volume_code = (data >> 5) & 0x03;
            proof {
                assert((data >> 5u8) & 0x03u8 < 4) by (bit_vector);
            }
        } else if addr == 0xFF1D {
            Self::write_nr33(&mut self.wave, data);
        } else if addr == 0xFF1E {
            Self::write_nr34(&mut self.wave, data);
        } else if addr == 0xFF20 {
            proof {
                assert(data & 0x3Fu8 <= 64) by (bit_vector);
            }
            self.noise.write_sound_length((data & 0x3F) as u16);
        } else if addr == 0xFF21 {
            self.noise.channel.envelope.write_envelope_register(data);
        } else if addr == 0xFF22 {
            self.noise.channel.write_rate_register(data);
        } else if addr == 0xFF23 {
            Self::write_nr44(&mut self.noise, data);
        } else if addr == 0xFF24 {
            self.channels_control = data;
        } else if addr == 0xFF25 {
            self.channels_selection = data;
        } else if 0xFF30 <= addr && addr <= 0xFF3F {
            self.wave.channel.write_wave_ram((addr - 0xFF30) as u8, data);
        }
    }

    /// Drain the samples accumulated since the last call.
    pub fn get_buffer(&mut self) -> (r: Vec<ApuSample>)
        ensures
            r@ == old(self).buffer@,
            *final(self) == (Apu { buffer: final(self).buffer, ..*old(self) }),
            final(self).buffer@.len() == 0,
    {
        let mut result: Vec<ApuSample> = Vec::new();
        core::mem::swap(&mut result, &mut self.buffer);
        result
    }

    /// One machine cycle: take a sample when the 44.1 kHz accumulator rolls
    /// over, clock the four channel timers, and on every 2048th cycle
    /// advance the frame sequencer one step.
    #[verifier::rlimit(60)]
    pub fn clock(&mut self)
        requires
            old(self).wf(),
        ensures
            final(self).wf(),
            final(self).channels_control == old(self).channels_control,
            final(self).channels_selection == old(self).channels_selection,
            // Sample cadence: emit exactly when the accumulator reaches one
            // machine cycle's worth of samples.
            ({
                let emitted = old(self).sample_counter + SAMPLE_RATE >= MACHINE_CYCLES_PER_SECOND;
                &&& (emitted ==> final(self).sample_counter == old(self).sample_counter
                    + SAMPLE_RATE - MACHINE_CYCLES_PER_SECOND && final(self).buffer@ == old(self).buffer@.push(spec_apu_sample(*old(self))))
                &&& (!emitted ==> final(self).sample_counter == old(self).sample_counter
                    + SAMPLE_RATE && final(self).buffer@ == old(self).buffer@)
            }),
            // Frame sequencer position.
            ({
                let wrap = old(self).cycle + 1 == 2048;
                &&& (wrap ==> final(self).cycle == 0 && final(self).sequencer_step == (old(self).sequencer_step + 1) % 8)
                &&& (!wrap ==> final(self).cycle == old(self).cycle + 1 && final(self).sequencer_step == old(self).sequencer_step)
            }),
            // Channel movement: the frequency timers every cycle, the
            // sequenced units on a step boundary.
            ({
                let p1 = LengthCountedChannel {
                    channel: spec_pulse_clocked(old(self).pulse1.channel),
                    ..old(self).pulse1
                };
                let p2 = LengthCountedChannel {
                    channel: spec_pulse_clocked(old(self).pulse2.channel),
                    ..old(self).pulse2
                };
                let wrap = old(self).cycle + 1 == 2048;
                let step = ((old(self).sequencer_step + 1) % 8) as u8;
                &&& (wrap ==> final(self).pulse1 == spec_pulse_sequenced(p1, step, true) && final(self).pulse2 == spec_pulse_sequenced(p2, step, false))
                &&& (!wrap ==> final(self).pulse1 == p1 && final(self).pulse2 == p2)
            }),
            ({
                let w = LengthCountedChannel {
                    channel: spec_wave_clocked(old(self).wave.channel),
                    ..old(self).wave
                };
                let n = LengthCountedChannel {
                    channel: spec_noise_clocked(old(self).noise.channel),
                    ..old(self).noise
                };
                let wrap = old(self).cycle + 1 == 2048;
                let step = ((old(self).sequencer_step + 1) % 8) as u8;
                &&& (wrap ==> final(self).wave == spec_wave_sequenced(w, step) && final(self).noise == spec_noise_sequenced(n, step))
                &&& (!wrap ==> final(self).wave == w && final(self).noise == n)
            }),
    {
        self.sample_counter = self.sample_counter + SAMPLE_RATE;
        if self.sample_counter >= MACHINE_CYCLES_PER_SECOND {
            let p1: u8 = self.pulse1.output();
            let p2: u8 = self.pulse2.output();
            let wave: u8 = self.wave.output();
            let noise: u8 = self.noise.output();
            let sample = ApuSample {
                pulse1: p1,
                pulse2: p2,
                wave,
                noise,
                control: self.channels_control,
                selection: self.channels_selection,
            };
            self.buffer.push(sample);
            self.sample_counter = self.sample_counter - MACHINE_CYCLES_PER_SECOND;
        }
        self.pulse1.channel.clock();
        self.pulse2.channel.clock();
        self.wave.channel.clock();
        self.noise.channel.clock();
        self.cycle = self.cycle + 1;
        if self.cycle == 2048 {
            self.cycle = 0;
            self.sequencer_step = (self.sequencer_step + 1) % 8;
            let step: u8 = self.sequencer_step;
            if step == 2 || step == 6 {
                self.pulse1.channel.clock_sweeper();
            }
            if step == 0 || step == 2 || step == 4 || step == 6 {
                self.pulse1.clock_length_counter();
                self.pulse2.clock_length_counter();
                self.wave.clock_length_counter();
                self.noise.clock_length_counter();
            }
            if step == 7 {
                self.pulse1.channel.envelope.clock();
                self.pulse2.channel.envelope.clock();
                self.noise.channel.envelope.clock();
            }
        }
    }
}

} // verus!
