//! The assembled system: one CPU driving one bus, stepped a frame at a time.

use vstd::prelude::*;

use crate::apu::ApuSample;
use crate::bus::Bus;
use crate::cartridge::BatteryError;
use crate::cartridge::Cartridge;
use crate::cpu::Cpu;
use crate::cpu::CpuBusProvider;
use crate::cpu::spec_instruction_boundary;
use crate::cpu::spec_interrupt_serviced;
use crate::joypad::Joypad;
use crate::joypad::JoypadButton;
use crate::joypad::spec_button_mask;

verus! {

pub struct GameBoy {
    pub cpu: Cpu,
    pub bus: Bus,
}

/// One instruction boundary of the assembled system, as `step` performs it:
/// a stopped CPU idles, a halted CPU with nothing pending sleeps unchanged,
/// a pending interrupt under IME is serviced, and otherwise the opcode byte
/// at PC is executed per the step relation — the HALT-bug arming rule
/// included.
pub open spec fn spec_boundary_step(pre: GameBoy, post: GameBoy) -> bool {
    &&& post.wf()
    &&& (pre.cpu.stopped ==> post.cpu == pre.cpu)
    &&& (!pre.cpu.stopped && pre.cpu.halted && !pre.bus.spec_interrupt_pending() ==> post.cpu
        == pre.cpu)
    &&& (!pre.cpu.stopped && pre.cpu.ime && pre.bus.spec_interrupt_pending()
        ==> spec_interrupt_serviced(pre.cpu, post.cpu))
    &&& (!pre.cpu.stopped && (!pre.cpu.halted || pre.bus.spec_interrupt_pending()) && !(
    pre.cpu.ime && pre.bus.spec_interrupt_pending()) ==> spec_instruction_boundary(
        pre.cpu,
        post.cpu,
        pre.bus.spec_read_value(pre.cpu.pc),
    ))
    &&& (!pre.cpu.stopped && (!pre.cpu.halted || pre.bus.spec_interrupt_pending()) && !(
    pre.cpu.ime && pre.bus.spec_interrupt_pending()) && pre.bus.spec_read_value(pre.cpu.pc)
        == 0x76 && !pre.cpu.ime && pre.bus.spec_interrupt_pending() ==> post.cpu.halt_bug)
    &&& (!pre.cpu.stopped && (!pre.cpu.halted || pre.bus.spec_interrupt_pending()) && !(
    pre.cpu.ime && pre.bus.spec_interrupt_pending()) ==> (post.cpu.halt_bug
        ==> pre.bus.spec_read_value(pre.cpu.pc) == 0x76 && !pre.cpu.ime))
}

/// A run of consecutive instruction boundaries.
pub open spec fn spec_boundary_trace(trace: Seq<GameBoy>) -> bool {
    forall|i: int| 0 <= i < trace.len() - 1 ==> #[trigger] spec_boundary_step(trace[i], trace[i + 1])
}

/// What one `clock_for_frame` call did: the final state follows from the
/// starting state by a chain of instruction boundaries, at most the step
/// budget long. When the VBlank boundary was reached, the last boundary is
/// the one that moved LY onto line 144; when it was not, the whole budget
/// ran without LY ever entering 144.
pub open spec fn spec_frame_run(start: GameBoy, end: GameBoy, reached: bool) -> bool {
    exists|trace: Seq<GameBoy>|
        {
            &&& #[trigger] spec_boundary_trace(trace)
            &&& 1 <= trace.len() <= 200001
            &&& trace[0] == start
            &&& trace.last() == end
            &&& (reached ==> trace.len() >= 2 && end.bus.ppu.ly == 144 && trace[trace.len()
                - 2].bus.ppu.ly != 144)
            &&& (!reached ==> trace.len() == 200001 && (forall|i: int|
                1 <= i < trace.len() ==> !((#[trigger] trace[i]).bus.ppu.ly == 144 && trace[i
                    - 1].bus.ppu.ly != 144)))
        }
}

impl GameBoy {
    pub open spec fn wf(self) -> bool {
        &&& self.cpu.wf()
        &&& self.bus.wf()
    }

    /// A system that starts at 0x0100 with post-boot register state.
    pub fn new_without_boot_rom(cartridge: Cartridge) -> (r: GameBoy)
        requires
            cartridge.wf(),
        ensures
            r.wf(),
            r.cpu.pc == 0x100,
    {
        GameBoy { cpu: Cpu::new_skip_boot_rom(), bus: Bus::new_without_boot_rom(cartridge) }
    }

    /// A system that starts at 0x0000 inside the given 2304-byte boot ROM.
    pub fn new_with_boot_rom(cartridge: Cartridge, boot_rom: Vec<u8>) -> (r: GameBoy)
        requires
            cartridge.wf(),
            boot_rom@.len() == 0x900,
        ensures
            r.wf(),
            r.cpu.pc == 0,
    {
        GameBoy { cpu: Cpu::new(), bus: Bus::new_with_boot_rom(cartridge, boot_rom) }
    }

    /// Run one CPU instruction (or one idle or interrupt-service slot),
    /// per the instruction-boundary protocol: a stopped CPU idles, a halted
    /// CPU with nothing pending sleeps unchanged, a pending interrupt under
    /// IME is serviced, and otherwise the opcode byte at PC is executed per
    /// the step relation.
    pub fn step(&mut self)
        requires
            old(self).wf(),
        ensures
            final(self).wf(),
            spec_boundary_step(*old(self), *final(self)),
    {
        self.cpu.next_instruction(&mut self.bus);
    }

    /// Run until the PPU enters VBlank (LY reaches 144), that is until the
    /// frame just rendered is complete; returns whether that happened. The
    /// final state follows from the starting one by a chain of instruction
    /// boundaries (`spec_frame_run`); false comes back only when the
    /// 200000-step budget ran out without LY ever entering line 144, which
    /// bounds the call for hosts whose program never turns the LCD on.
    #[verifier::loop_isolation(false)]
    pub fn clock_for_frame(&mut self) -> (reached_vblank: bool)
        requires
            old(self).wf(),
        ensures
            final(self).wf(),
            reached_vblank ==> final(self).bus.ppu.ly == 144,
            spec_frame_run(*old(self), *final(self), reached_vblank),
    {
        let ghost mut trace: Seq<GameBoy> = seq![*old(self)];
        let mut budget: u32 = 200000;
        while budget > 0
            invariant
                self.cpu.wf(),
                self.bus.wf(),
                budget <= 200000,
                trace.len() == 200001 - budget,
                trace[0] == *old(self),
                trace.last() == *self,
                spec_boundary_trace(trace),
                forall|i: int|
                    1 <= i < trace.len() ==> !((#[trigger] trace[i]).bus.ppu.ly == 144 && trace[i
                        - 1].bus.ppu.ly != 144),
            decreases budget,
        {
            let ghost prev: GameBoy = *self;
            let before: u8 = self.bus.ppu.ly;
            self.cpu.next_instruction(&mut self.bus);
            let after: u8 = self.bus.ppu.ly;
            budget = budget - 1;
            proof {
                trace = trace.push(*self);
                assert(spec_boundary_step(prev, *self));
                assert forall|i: int| 0 <= i < trace.len() - 1 implies #[trigger] spec_boundary_step(
                    trace[i],
                    trace[i + 1],
                ) by {
                    if i == trace.len() - 2 {
                        assert(trace[i] == prev && trace[i + 1] == *self);
                    }
                }
            }
            if after == 144 && before != 144 {
                proof {
                    assert(spec_frame_run(*old(self), *self, true)) by {
                        assert(spec_boundary_trace(trace) && trace[0] == *old(self) && trace.last()
                            == *self && trace.len() >= 2 && trace[trace.len() - 2].bus.ppu.ly != 144);
                    }
                }
                return true;
            }
        }
        proof {
            assert(spec_frame_run(*old(self), *self, false)) by {
                assert(spec_boundary_trace(trace) && trace.len() == 200001 && trace[0] == *old(self)
                    && trace.last() == *self);
            }
        }
        false
    }

    /// The rendered 160x144 frame, one shade byte (0..4) per pixel.
    pub fn screen_buffer(&self) -> (r: &Vec<u8>)
        ensures
            r@ == self.bus.ppu.framebuffer@,
    {
        self.bus.screen_buffer()
    }

    /// Drain the digital audio samples accumulated since the last call;
    /// the internal buffer is left empty, so no sample is delivered twice.
    pub fn audio_buffer(&mut self) -> (r: Vec<ApuSample>)
        requires
            old(self).wf(),
        ensures
            final(self).wf(),
            r@ == old(self).bus.apu.buffer@,
            final(self).bus.apu.buffer@.len() == 0,
            final(self).cpu == old(self).cpu,
    {
        self.bus.audio_buffer()
    }

    /// Hold the button down: its bit latches into the pressed mask; nothing
    /// else moves.
    pub fn press_button(&mut self, button: JoypadButton)
        requires
            old(self).wf(),
        ensures
            final(self).wf(),
            *final(self) == (GameBoy {
                bus: Bus {
                    joypad: Joypad {
                        pressed: old(self).bus.joypad.pressed | spec_button_mask(button),
                        ..old(self).bus.joypad
                    },
                    ..old(self).bus
                },
                ..*old(self)
            }),
    {
        self.bus.press_joypad(button);
    }

    /// Let the button go: its bit clears from the pressed mask; nothing
    /// else moves.
    pub fn release_button(&mut self, button: JoypadButton)
        requires
            old(self).wf(),
        ensures
            final(self).wf(),
            *final(self) == (GameBoy {
                bus: Bus {
                    joypad: Joypad {
                        pressed: old(self).bus.joypad.pressed & !spec_button_mask(button),
                        ..old(self).bus.joypad
                    },
                    ..old(self).bus
                },
                ..*old(self)
            }),
    {
        self.bus.release_joypad(button);
    }

    /// The battery save image: the raw SRAM bytes.
    pub fn save_battery(&self) -> (r: Vec<u8>)
        ensures
            r@ == self.bus.cartridge.sram@,
    {
        self.bus.cartridge.save_battery()
    }

    /// Restore a battery save image; it must be exactly SRAM-sized.
    pub fn load_battery(&mut self, data: &Vec<u8>) -> (r: Result<(), BatteryError>)
        requires
            old(self).wf(),
        ensures
            final(self).wf(),
            data@.len() != old(self).bus.cartridge.sram@.len() ==> r == Err::<(), BatteryError>(
                BatteryError::SizeMismatch,
            ),
            data@.len() == old(self).bus.cartridge.sram@.len() ==> r == Ok::<(), BatteryError>(())
                && final(self).bus.cartridge.sram@ == data@,
    {
        self.bus.cartridge.load_battery(data)
    }
}

} // verus!
