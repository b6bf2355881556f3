//! APU register read-back masks, length-counter gating and envelope timing.

use gb_emu_core::apu::Apu;
use gb_emu_core::envelope::Envelope;
use gb_emu_core::length_counter::ApuChannel;

#[test]
fn register_readback_masks_after_writing_zero() {
    // Every register ORs its unreadable bits to 1 on read-back.
    let mut apu = Apu::new();
    for addr in 0xFF10..=0xFF25u16 {
        apu.write_register(addr, 0x00);
    }
    assert_eq!(apu.read_register(0xFF10), 0x80, "NR10 mask");
    assert_eq!(apu.read_register(0xFF11), 0x3F, "NR11 mask");
    assert_eq!(apu.read_register(0xFF12), 0x00, "NR12");
    assert_eq!(apu.read_register(0xFF13), 0xFF, "NR13 write-only");
    assert_eq!(apu.read_register(0xFF14), 0xBF, "NR14 mask");
    assert_eq!(apu.read_register(0xFF15), 0xFF, "unused");
    assert_eq!(apu.read_register(0xFF16), 0x3F, "NR21 mask");
    assert_eq!(apu.read_register(0xFF17), 0x00, "NR22");
    assert_eq!(apu.read_register(0xFF18), 0xFF, "NR23 write-only");
    assert_eq!(apu.read_register(0xFF19), 0xBF, "NR24 mask");
    assert_eq!(apu.read_register(0xFF1A), 0x7F, "NR30 mask");
    assert_eq!(apu.read_register(0xFF1B), 0xFF, "NR31 write-only");
    assert_eq!(apu.read_register(0xFF1C), 0x9F, "NR32 mask");
    assert_eq!(apu.read_register(0xFF1D), 0xFF, "NR33 write-only");
    assert_eq!(apu.read_register(0xFF1E), 0xBF, "NR34 mask");
    assert_eq!(apu.read_register(0xFF1F), 0xFF, "unused");
    assert_eq!(apu.read_register(0xFF20), 0xFF, "NR41 write-only");
    assert_eq!(apu.read_register(0xFF21), 0x00, "NR42");
    assert_eq!(apu.read_register(0xFF22), 0x00, "NR43");
    assert_eq!(apu.read_register(0xFF23), 0xBF, "NR44 mask");
    assert_eq!(apu.read_register(0xFF24), 0x00, "NR50");
    assert_eq!(apu.read_register(0xFF25), 0x00, "NR51");
    // Every channel but the wave (whose DAC is off) reports on; the APU
    // itself always reports on.
    assert_eq!(apu.read_register(0xFF26), 0xFB, "NR52");
    assert_eq!(apu.read_register(0xFF27), 0xFF, "unused tail");
}

#[test]
fn register_readback_masks_after_writing_ones() {
    let mut apu = Apu::new();
    for addr in 0xFF10..=0xFF25u16 {
        // Avoid the trigger bits so the length counters stay put.
        let data = if addr == 0xFF14 || addr == 0xFF19 { 0x7F } else { 0xFF };
        apu.write_register(addr, data);
    }
    assert_eq!(apu.read_register(0xFF10), 0xFF);
    assert_eq!(apu.read_register(0xFF11), 0xFF);
    assert_eq!(apu.read_register(0xFF12), 0xFF);
    assert_eq!(apu.read_register(0xFF14), 0xFF);
    assert_eq!(apu.read_register(0xFF16), 0xFF);
    assert_eq!(apu.read_register(0xFF17), 0xFF);
    assert_eq!(apu.read_register(0xFF19), 0xFF);
    assert_eq!(apu.read_register(0xFF24), 0xFF);
    assert_eq!(apu.read_register(0xFF25), 0xFF);
}

#[test]
fn wave_ram_round_trips_and_plays() {
    let mut apu = Apu::new();
    for i in 0..16u16 {
        apu.write_register(0xFF30 + i, (i as u8) << 4 | (15 - i as u8));
    }
    for i in 0..16u16 {
        assert_eq!(apu.read_register(0xFF30 + i), (i as u8) << 4 | (15 - i as u8));
    }
    // Power the DAC, full volume, trigger: the first advance plays sample 1
    // of the wave (position moves off 0 on the first step).
    apu.write_register(0xFF1A, 0x80);
    apu.write_register(0xFF1C, 0x20);
    apu.write_register(0xFF1D, 0xFF); // frequency low
    apu.write_register(0xFF1E, 0x87); // frequency high + trigger
    assert_eq!(apu.read_register(0xFF26) & 0x04, 0x04, "wave on");
    assert_eq!(apu.wave.channel.position, 0);
    assert_eq!(apu.wave.channel.frequency, 0x7FF);
}

#[test]
fn wave_volume_code_shifts_samples() {
    let mut apu = Apu::new();
    apu.write_register(0xFF30, 0xC0); // first sample 12
    apu.write_register(0xFF1A, 0x80);
    apu.wave.channel.volume_code = 1;
    assert_eq!(apu.wave.channel.output(), 12);
    apu.wave.channel.volume_code = 2;
    assert_eq!(apu.wave.channel.output(), 6);
    apu.wave.channel.volume_code = 3;
    assert_eq!(apu.wave.channel.output(), 3);
    apu.wave.channel.volume_code = 0;
    assert_eq!(apu.wave.channel.output(), 0);
}

#[test]
fn noise_register_and_lfsr_shift() {
    let mut apu = Apu::new();
    apu.write_register(0xFF22, 0x5A);
    assert_eq!(apu.read_register(0xFF22), 0x5A);
    assert_eq!(apu.noise.channel.clock_shift, 5);
    assert!(apu.noise.channel.width_7);
    assert_eq!(apu.noise.channel.divisor_code, 2);
    // A trigger refills the register with ones; the documented feedback
    // then drives bit 14 from the XOR of the two low bits.
    apu.write_register(0xFF23, 0x80);
    assert_eq!(apu.noise.channel.lfsr, 0x7FFF);
    let before = apu.noise.channel.lfsr;
    let feedback = (before ^ (before >> 1)) & 1;
    let timer = apu.noise.channel.timer;
    for _ in 0..=timer {
        apu.noise.channel.clock();
    }
    let expected = ((before >> 1) | (feedback << 14)) & 0xFFBF | (feedback << 6);
    assert_eq!(apu.noise.channel.lfsr, expected);
}

#[test]
fn noise_length_counter_gates_like_the_others() {
    let mut apu = Apu::new();
    apu.write_register(0xFF20, 63); // length counter = 1
    apu.write_register(0xFF23, 0xC0); // trigger + length enable
    assert_eq!(apu.read_register(0xFF26) & 0x08, 0x08);
    apu.noise.clock_length_counter();
    assert_eq!(apu.read_register(0xFF26) & 0x08, 0x00, "muted at 0");
}

#[test]
fn master_volume_accessors() {
    let mut apu = Apu::new();
    apu.write_register(0xFF24, 0x53);
    assert_eq!(apu.vol_left(), 5);
    assert_eq!(apu.vol_right(), 3);
}

#[test]
fn length_counter_mutes_on_the_tick_it_reaches_zero() {
    let mut apu = Apu::new();
    // NR11 low 6 bits = 62: length counter = 64 - 62 = 2.
    apu.write_register(0xFF11, 62);
    // Trigger with the length enable bit set.
    apu.write_register(0xFF14, 0xC0);
    assert_eq!(apu.read_register(0xFF26) & 0x01, 0x01, "channel on after trigger");
    apu.pulse1.clock_length_counter();
    assert_eq!(apu.read_register(0xFF26) & 0x01, 0x01, "still on at counter 1");
    apu.pulse1.clock_length_counter();
    assert_eq!(apu.read_register(0xFF26) & 0x01, 0x00, "muted exactly at 0");
}

#[test]
fn length_counter_only_counts_when_enabled() {
    let mut apu = Apu::new();
    apu.write_register(0xFF11, 62);
    // Trigger without the length enable bit.
    apu.write_register(0xFF14, 0x80);
    for _ in 0..10 {
        apu.pulse1.clock_length_counter();
    }
    assert_eq!(apu.read_register(0xFF26) & 0x01, 0x01, "never muted while disabled");
}

#[test]
fn trigger_with_expired_length_reloads_full_length() {
    let mut apu = Apu::new();
    apu.write_register(0xFF11, 63); // length counter = 1
    apu.write_register(0xFF14, 0x40); // enable counting, no trigger
    apu.pulse1.clock_length_counter();
    assert_eq!(apu.read_register(0xFF26) & 0x01, 0x00, "ran out");
    // The run-out left length 0 inside the counter; a trigger reloads the
    // full 64 and unmutes.
    assert_eq!(apu.pulse1.length, 1);
    apu.pulse1.length = 0;
    apu.write_register(0xFF14, 0x80);
    assert_eq!(apu.read_register(0xFF26) & 0x01, 0x01);
    assert_eq!(apu.pulse1.current_counter, 64);
}

#[test]
fn envelope_steps_once_every_period() {
    // Decreasing envelope, volume 10, period 3: the volume moves by exactly
    // one step on every third envelope tick.
    let mut env = Envelope::new();
    env.write_envelope_register(0xA3); // volume 10, decreasing, period 3
    env.trigger();
    let mut volume = 10;
    for tick in 1..=12 {
        env.clock();
        if tick % 3 == 0 {
            volume -= 1;
        }
        assert_eq!(env.current_volume, volume, "after tick {tick}");
    }
}

#[test]
fn envelope_increases_and_saturates() {
    let mut env = Envelope::new();
    env.write_envelope_register(0xE9); // volume 14, increasing, period 1
    env.trigger();
    env.clock();
    assert_eq!(env.current_volume, 15);
    env.clock();
    assert_eq!(env.current_volume, 15, "saturates at 15");
}

#[test]
fn envelope_frozen_with_period_zero() {
    let mut env = Envelope::new();
    env.write_envelope_register(0x70); // volume 7, decreasing, period 0
    env.trigger();
    for _ in 0..20 {
        env.clock();
    }
    assert_eq!(env.current_volume, 7);
}

#[test]
fn frame_sequencer_advances_every_2048_cycles() {
    let mut apu = Apu::new();
    for _ in 0..2048 {
        apu.clock();
    }
    assert_eq!(apu.sequencer_step, 1);
    assert_eq!(apu.cycle, 0);
    for _ in 0..2048 * 7 {
        apu.clock();
    }
    assert_eq!(apu.sequencer_step, 0, "eight steps wrap");
}

#[test]
fn sample_cadence_is_44100_per_second() {
    // One emulated second of machine cycles yields exactly 44100 samples.
    let mut apu = Apu::new();
    for _ in 0..1048576 {
        apu.clock();
    }
    let buffer = apu.get_buffer();
    assert_eq!(buffer.len(), 44100);
    let empty = apu.get_buffer();
    assert_eq!(empty.len(), 0, "draining resets the buffer");
}

#[test]
fn samples_carry_mixer_registers() {
    let mut apu = Apu::new();
    apu.write_register(0xFF24, 0x77);
    apu.write_register(0xFF25, 0xF3);
    for _ in 0..100 {
        apu.clock();
    }
    let buffer = apu.get_buffer();
    assert!(buffer.len() >= 4);
    for s in &buffer {
        assert_eq!(s.control, 0x77);
        assert_eq!(s.selection, 0xF3);
    }
}
