//! The system bus: the unified memory map, the DMA engine and its bus
//! conflict, and the tick discipline.
//!
//! The bus owns every peripheral. Each CPU `read` and `write` performs its
//! memory effect and then advances all peripherals by exactly one machine
//! cycle, so interrupts raised during that cycle are visible to the CPU on
//! its next bus access. Address decoding is total: every 16-bit address maps
//! to some defined behavior and reads never fail.

use vstd::prelude::*;

use crate::apu::Apu;
use crate::apu::ApuSample;
use crate::apu::spec_apu_read;
use crate::apu::spec_apu_written;
use crate::cartridge::Cartridge;
use crate::cpu::CpuBusProvider;
use crate::interrupts::InterruptManager;
use crate::interrupts::InterruptType;
use crate::interrupts::Interrupts;
use crate::interrupts::lemma_and_self;
use crate::interrupts::lemma_keeps_bits_trans;
use crate::interrupts::lemma_or_keeps_bits;
use crate::interrupts::lemma_pending_monotone;
use crate::interrupts::spec_interrupt_mask;
use crate::joypad::Joypad;
use crate::joypad::JoypadButton;
use crate::joypad::spec_button_mask;
use crate::joypad::spec_joypad_lines;
use crate::mapper::Mapper;
use crate::ppu::Ppu;
use crate::ppu::spec_oam_written;
use crate::ppu::spec_ppu_read_oam;
use crate::ppu::spec_ppu_read_register;
use crate::ppu::spec_ppu_read_vram;
use crate::ppu::spec_ppu_reg_written;
use crate::serial::Serial;
use crate::serial::spec_serial_clocked;
use crate::serial::spec_serial_read;
use crate::timer::Timer;
use crate::timer::spec_falling_edge;
use crate::timer::spec_ticked_counter;
use crate::timer::spec_timer_read;
use crate::timer::spec_timer_write_rel;

verus! {

/// Which half of the memory fabric a running DMA transfer occupies.
#[derive(Clone, Copy, PartialEq, Eq, Structural, Debug)]
pub enum BusType {
    /// VRAM (0x8000..0xA000).
    Video,
    /// Cartridge ROM and SRAM, and WRAM.
    External,
}

/// The boot ROM window: 0x0000..0x0100 and 0x0200..0x0900 while enabled.
/// Any write to 0xFF50 disables it for the rest of the session.
pub struct BootRom {
    pub enabled: bool,
    pub data: Vec<u8>,
}

/// The OAM DMA engine. After a 1-M-cycle start delay it copies one byte per
/// machine cycle from source_high * 256 + offset to OAM[offset], for
/// offset = 0..160, and while it runs the bus half holding the source serves
/// the CPU the last value DMA read instead.
pub struct DMA {
    pub conflicting_bus: Option<BusType>,
    /// The byte most recently read by the DMA engine.
    pub current_value: u8,
    /// High byte of the source address, as written to 0xFF46 (0xFE/0xFF are
    /// redirected to the external bus by masking to 0xDE/0xDF).
    pub source_high: u8,
    /// Bytes copied so far, 0..=160.
    pub offset: u16,
    pub in_transfer: bool,
    /// M-cycles left before copying starts.
    pub starting_delay: u8,
}

impl DMA {
    pub open spec fn wf(self) -> bool {
        &&& self.offset <= 160
        &&& (self.in_transfer ==> self.offset < 160)
        // 0xFE and 0xFF pages are redirected at 0xFF46, so the source stays
        // below the OAM and register space.
        &&& self.source_high < 0xFE
    }

    /// The address the next DMA byte is read from.
    pub open spec fn spec_source_addr(self) -> u16 {
        (self.source_high * 256 + self.offset) as u16
    }

    /// The bus half a source page occupies.
    pub open spec fn spec_conflict_of(source_high: u8) -> BusType {
        if 0x80 <= source_high <= 0x9F {
            BusType::Video
        } else {
            BusType::External
        }
    }

    pub fn new() -> (r: DMA)
        ensures
            r == (DMA {
                conflicting_bus: None::<BusType>,
                current_value: 0,
                source_high: 0,
                offset: 0,
                in_transfer: false,
                starting_delay: 0,
            }),
            r.wf(),
    {
        DMA {
            conflicting_bus: None,
            current_value: 0,
            source_high: 0,
            offset: 0,
            in_transfer: false,
            starting_delay: 0,
        }
    }

    /// A write to 0xFF46: arm a transfer from the given source page. The
    /// delay is two half-steps (8 T-cycles) to land the block on the right
    /// machine-cycle edge.
    pub fn start_dma(&mut self, high_byte: u8)
        ensures
            *final(self) == (DMA {
                source_high: if high_byte == 0xFE || high_byte == 0xFF {
                    high_byte & 0xDFu8
                } else {
                    high_byte
                },
                offset: 0,
                starting_delay: 2,
                in_transfer: true,
                ..*old(self)
            }),
            final(self).wf(),
    {
        let masked: u8 = if high_byte == 0xFE || high_byte == 0xFF {
            high_byte & 0xDF
        } else {
            high_byte
        };
        proof {
            assert((high_byte & 0xDFu8) < 0xFE) by (bit_vector);
        }
        self.source_high = masked;
        self.offset = 0;
        self.starting_delay = 2;
        self.in_transfer = true;
    }

    /// 0xFF46 reads back the source page.
    pub fn read(&self) -> (r: u8)
        ensures
            r == self.source_high,
    {
        self.source_high
    }

    /// One machine cycle of a running transfer: count the start delay down
    /// (locking the conflicting bus when it elapses), or copy one byte into
    /// OAM; the 160th byte ends the transfer and releases the bus.
    pub fn transfer_clock(&mut self, ppu: &mut Ppu, value: u8)
        requires
            old(self).wf(),
            old(self).in_transfer,
            old(ppu).wf(),
        ensures
            final(self).wf(),
            final(ppu).wf(),
            old(self).starting_delay > 0 ==> *final(ppu) == *old(ppu) && *final(self) == (DMA {
                starting_delay: (old(self).starting_delay - 1) as u8,
                conflicting_bus: if old(self).starting_delay == 1 {
                    Some(DMA::spec_conflict_of(old(self).source_high))
                } else {
                    old(self).conflicting_bus
                },
                ..*old(self)
            }),
            old(self).starting_delay == 0 ==> ({
                &&& *final(self) == (DMA {
                    current_value: value,
                    offset: (old(self).offset + 1) as u16,
                    in_transfer: old(self).offset + 1 < 160,
                    conflicting_bus: if old(self).offset + 1 == 160 {
                        None::<BusType>
                    } else {
                        old(self).conflicting_bus
                    },
                    ..*old(self)
                })
                &&& *final(ppu) == (Ppu { oam: final(ppu).oam, ..*old(ppu) })
                &&& final(ppu).oam@ == spec_oam_written(
                    old(ppu).oam@,
                    old(self).offset as int,
                    value,
                )
            }),
    {
        if self.starting_delay > 0 {
            self.starting_delay = self.starting_delay - 1;
            if self.starting_delay == 0 {
                self.conflicting_bus = Some(
                    if 0x80 <= self.source_high && self.source_high <= 0x9F {
                        BusType::Video
                    } else {
                        BusType::External
                    },
                );
            }
        } else {
            self.current_value = value;
            ppu.write_oam_dma(0xFE00 + self.offset, value);
            self.offset = self.offset + 1;
            if self.offset == 160 {
                self.in_transfer = false;
                self.conflicting_bus = None;
            }
        }
    }
}

/// Work RAM: 8 KiB on DMG, held as 4 KiB banks. On DMG the switched bank
/// at 0xD000..0xE000 is always bank 1; the 0xFF70 register (a CGB banking
/// facility) is stored only for read-back and never changes what the
/// switched region serves.
pub struct Wram {
    pub data: Vec<u8>,
    pub bank: u8,
}

impl Wram {
    pub open spec fn wf(self) -> bool {
        &&& self.data@.len() == 0x8000
        &&& self.bank <= 3
    }

    /// Index served by the switched bank: always bank 1 on DMG.
    pub open spec fn spec_bankx_index(self, addr: u16) -> int {
        0x1000 + (addr % 0x1000) as int
    }

    pub fn new() -> (r: Wram)
        ensures
            r.wf(),
            r.bank == 1,
            r.data@ == Seq::new(0x8000, |i: int| 0u8),
    {
        let mut data: Vec<u8> = Vec::new();
        let mut i: usize = 0;
        while i < 0x8000
            invariant
                i <= 0x8000,
                data@ == Seq::new(i as nat, |j: int| 0u8),
            decreases 0x8000 - i,
        {
            data.push(0);
            proof {
                assert(data@ =~= Seq::new((i + 1) as nat, |j: int| 0u8));
            }
            i = i + 1;
        }
        Wram { data, bank: 1 }
    }

    pub fn read_wram0(&self, addr: u16) -> (r: u8)
        requires
            self.wf(),
        ensures
            r == self.data@[(addr % 0x1000) as int],
    {
        self.data[(addr % 0x1000) as usize]
    }

    pub fn read_wramx(&self, addr: u16) -> (r: u8)
        requires
            self.wf(),
        ensures
            r == self.data@[self.spec_bankx_index(addr)],
    {
        self.data[0x1000 + (addr % 0x1000) as usize]
    }

    pub fn write_wram0(&mut self, addr: u16, data: u8)
        requires
            old(self).wf(),
        ensures
            final(self).wf(),
            final(self).bank == old(self).bank,
            final(self).data@ == old(self).data@.update((addr % 0x1000) as int, data),
    {
        self.data.set((addr % 0x1000) as usize, data);
    }

    pub fn write_wramx(&mut self, addr: u16, data: u8)
        requires
            old(self).wf(),
        ensures
            final(self).wf(),
            final(self).bank == old(self).bank,
            final(self).data@ == old(self).data@.update(old(self).spec_bankx_index(addr), data),
    {
        self.data.set(0x1000 + (addr % 0x1000) as usize, data);
    }

    /// 0xFF70 write: the two bank-select bits are stored for read-back; on
    /// DMG they never move the switched region off bank 1.
    pub fn set_wram_bank(&mut self, data: u8)
        ensures
            final(self).data@ == old(self).data@,
            final(self).bank == data % 4,
    {
        self.bank = data % 4;
    }

    pub fn get_wram_bank(&self) -> (r: u8)
        ensures
            r == self.bank,
    {
        self.bank
    }
}

pub struct Bus {
    pub cartridge: Cartridge,
    pub ppu: Ppu,
    pub wram: Wram,
    pub interrupts: Interrupts,
    pub timer: Timer,
    pub joypad: Joypad,
    pub serial: Serial,
    pub dma: DMA,
    pub apu: Apu,
    /// 127 bytes at 0xFF80..0xFFFF, never blocked by DMA.
    pub hram: Vec<u8>,
    pub boot_rom: BootRom,
    /// Machine cycles since the host last drained the count.
    pub cpu_cycles: u32,
}

impl Bus {
    pub open spec fn wf(self) -> bool {
        &&& self.cartridge.wf()
        &&& self.ppu.wf()
        &&& self.apu.wf()
        &&& self.wram.wf()
        &&& self.hram@.len() == 127
        &&& self.boot_rom.data@.len() == 0x900
        &&& self.dma.wf()
    }
}

/// The byte a bus read returns, as a function of the bus state, the address
/// and the DMA conflict in force. This is the address-decoding matrix: total
/// on all 16-bit addresses.
pub open spec fn spec_bus_read_value(b: Bus, addr: u16, conflict: Option<BusType>) -> u8 {
    let dma_value = if conflict is Some {
        b.dma.current_value
    } else {
        0xFF
    };
    if b.boot_rom.enabled && (addr < 0x100 || (0x200 <= addr && addr < 0x900)) {
        b.boot_rom.data@[addr as int]
    } else if conflict == Some(BusType::External) && (addr < 0x8000 || (0xA000 <= addr
        && addr <= 0xFDFF)) {
        dma_value
    } else if addr < 0x4000 {
        b.cartridge.rom@[b.cartridge.mapper.spec_rom0_index(addr) as int]
    } else if addr < 0x8000 {
        b.cartridge.rom@[b.cartridge.mapper.spec_romx_index(addr) as int]
    } else if addr < 0xA000 {
        if conflict == Some(BusType::Video) {
            dma_value
        } else {
            spec_ppu_read_vram(b.ppu, addr)
        }
    } else if addr < 0xC000 {
        b.cartridge.spec_ram_read_value(addr)
    } else if addr < 0xD000 {
        b.wram.data@[(addr % 0x1000) as int]
    } else if addr < 0xE000 {
        b.wram.data@[b.wram.spec_bankx_index(addr)]
    } else if addr < 0xF000 {
        b.wram.data@[(addr % 0x1000) as int]
    } else if addr <= 0xFDFF {
        b.wram.data@[b.wram.spec_bankx_index(addr)]
    } else if addr < 0xFEA0 {
        if conflict is Some {
            0xFF
        } else {
            spec_ppu_read_oam(b.ppu, addr)
        }
    } else if addr < 0xFF00 {
        0
    } else if addr == 0xFF00 {
        0xC0u8 | b.joypad.select | spec_joypad_lines(b.joypad)
    } else if 0xFF01 <= addr && addr <= 0xFF02 {
        spec_serial_read(b.serial, addr)
    } else if 0xFF04 <= addr && addr <= 0xFF07 {
        spec_timer_read(b.timer, addr)
    } else if addr == 0xFF0F {
        b.interrupts.flags | 0xE0u8
    } else if 0xFF10 <= addr && addr <= 0xFF3F {
        spec_apu_read(b.apu, addr)
    } else if (0xFF40 <= addr && addr <= 0xFF45) || (0xFF47 <= addr && addr <= 0xFF4B) {
        spec_ppu_read_register(b.ppu, addr)
    } else if addr == 0xFF46 {
        b.dma.source_high
    } else if addr == 0xFF50 {
        0xFF
    } else if addr == 0xFF70 {
        b.wram.bank
    } else if 0xFF80 <= addr && addr <= 0xFFFE {
        b.hram@[(addr - 0xFF80) as int]
    } else if addr == 0xFFFF {
        b.interrupts.enable
    } else {
        0xFF
    }
}

/// How a bus write relates the state before to the state after its memory
/// effect (before the machine-cycle tick). Writes into a DMA-locked bus half
/// are dropped, as are writes to read-only or unmapped addresses.
pub open spec fn spec_bus_written(
    pre: Bus,
    post: Bus,
    addr: u16,
    data: u8,
    conflict: Option<BusType>,
) -> bool {
    if conflict == Some(BusType::External) && (addr < 0x8000 || (0xA000 <= addr
        && addr <= 0xFDFF)) {
        post == pre
    } else if addr < 0x8000 {
        &&& post == (Bus { cartridge: post.cartridge, ..pre })
        &&& post.cartridge.wf()
        &&& post.cartridge.rom@ == pre.cartridge.rom@
        &&& post.cartridge.sram@ == pre.cartridge.sram@
        &&& post.cartridge.mapper_type == pre.cartridge.mapper_type
    } else if addr < 0xA000 {
        if conflict == Some(BusType::Video) {
            post == pre
        } else {
            &&& post == (Bus { ppu: post.ppu, ..pre })
            &&& (pre.ppu.spec_mode() == 3 ==> post.ppu == pre.ppu)
            &&& (pre.ppu.spec_mode() != 3 ==> post.ppu == (Ppu { vram: post.ppu.vram, ..pre.ppu })
                && post.ppu.vram@ == pre.ppu.vram@.update((addr - 0x8000) as int, data))
        }
    } else if addr < 0xC000 {
        &&& post == (Bus { cartridge: post.cartridge, ..pre })
        &&& post.cartridge == (Cartridge { sram: post.cartridge.sram, ..pre.cartridge })
        &&& post.cartridge.sram@ == pre.cartridge.spec_ram_written(addr, data)
    } else if addr < 0xD000 {
        &&& post == (Bus { wram: post.wram, ..pre })
        &&& post.wram.bank == pre.wram.bank
        &&& post.wram.data@ == pre.wram.data@.update((addr % 0x1000) as int, data)
    } else if addr < 0xE000 {
        &&& post == (Bus { wram: post.wram, ..pre })
        &&& post.wram.bank == pre.wram.bank
        &&& post.wram.data@ == pre.wram.data@.update(pre.wram.spec_bankx_index(addr), data)
    } else if addr < 0xF000 {
        &&& post == (Bus { wram: post.wram, ..pre })
        &&& post.wram.bank == pre.wram.bank
        &&& post.wram.data@ == pre.wram.data@.update((addr % 0x1000) as int, data)
    } else if addr <= 0xFDFF {
        &&& post == (Bus { wram: post.wram, ..pre })
        &&& post.wram.bank == pre.wram.bank
        &&& post.wram.data@ == pre.wram.data@.update(pre.wram.spec_bankx_index(addr), data)
    } else if addr < 0xFEA0 {
        if conflict is Some {
            post == pre
        } else {
            &&& post == (Bus { ppu: post.ppu, ..pre })
            &&& (pre.ppu.spec_mode() == 2 || pre.ppu.spec_mode() == 3 ==> post.ppu == pre.ppu)
            &&& (!(pre.ppu.spec_mode() == 2 || pre.ppu.spec_mode() == 3) ==> post.ppu == (Ppu {
                oam: post.ppu.oam,
                ..pre.ppu
            }) && post.ppu.oam@ == spec_oam_written(pre.ppu.oam@, (addr - 0xFE00) as int, data))
        }
    } else if addr < 0xFF00 {
        post == pre
    } else if addr == 0xFF00 {
        post == (Bus { joypad: Joypad { select: data & 0x30u8, ..pre.joypad }, ..pre })
    } else if addr == 0xFF01 {
        post == (Bus { serial: Serial { data, ..pre.serial }, ..pre })
    } else if addr == 0xFF02 {
        post == (Bus { serial: Serial { control: data & 0x81u8, counter: 0, ..pre.serial }, ..pre })
    } else if 0xFF04 <= addr && addr <= 0xFF07 {
        &&& post == (Bus { timer: post.timer, interrupts: post.interrupts, ..pre })
        &&& spec_timer_write_rel(pre.timer, pre.interrupts, post.timer, post.interrupts, addr, data)
    } else if addr == 0xFF0F {
        post == (Bus { interrupts: Interrupts { flags: data & 0x1Fu8, ..pre.interrupts }, ..pre })
    } else if 0xFF10 <= addr && addr <= 0xFF3F {
        &&& post == (Bus { apu: post.apu, ..pre })
        &&& post.apu.wf()
        &&& spec_apu_written(pre.apu, post.apu, addr, data)
    } else if (0xFF40 <= addr && addr <= 0xFF45) || (0xFF47 <= addr && addr <= 0xFF4B) {
        &&& post == (Bus { ppu: post.ppu, ..pre })
        &&& spec_ppu_reg_written(pre.ppu, post.ppu, addr, data)
    } else if addr == 0xFF46 {
        post == (Bus {
            dma: DMA {
                source_high: if data == 0xFE || data == 0xFF {
                    data & 0xDFu8
                } else {
                    data
                },
                offset: 0,
                starting_delay: 2,
                in_transfer: true,
                ..pre.dma
            },
            ..pre
        })
    } else if addr == 0xFF50 {
        post == (Bus { boot_rom: BootRom { enabled: false, data: post.boot_rom.data }, ..pre })
            && post.boot_rom.data@ == pre.boot_rom.data@
    } else if addr == 0xFF70 {
        post == (Bus { wram: Wram { bank: data % 4, data: post.wram.data }, ..pre })
            && post.wram.data@ == pre.wram.data@
    } else if 0xFF80 <= addr && addr <= 0xFFFE {
        &&& post == (Bus { hram: post.hram, ..pre })
        &&& post.hram@ == pre.hram@.update((addr - 0xFF80) as int, data)
    } else if addr == 0xFFFF {
        post == (Bus { interrupts: Interrupts { enable: data, ..pre.interrupts }, ..pre })
    } else {
        post == pre
    }
}

/// How one machine cycle relates the bus state before to the bus state
/// after: memories are untouched (except OAM, which a running DMA transfer
/// writes one byte of), the timer divider gains 4 T-cycles and TIMA moves
/// exactly on a falling edge, the PPU advances 4 T-cycles of its 70224-cycle
/// frame, and the DMA engine makes exactly one step of its protocol.
pub open spec fn spec_bus_ticked(pre: Bus, post: Bus) -> bool {
    &&& post.cpu_cycles == vstd::wrapping::u32_specs::wrapping_add(pre.cpu_cycles, 1)
    &&& post.hram@ == pre.hram@
    &&& post.wram.data@ == pre.wram.data@
    &&& post.wram.bank == pre.wram.bank
    &&& post.boot_rom.enabled == pre.boot_rom.enabled
    &&& post.boot_rom.data@ == pre.boot_rom.data@
    &&& post.cartridge.rom@ == pre.cartridge.rom@
    &&& post.cartridge.sram@ == pre.cartridge.sram@
    &&& post.cartridge.mapper == pre.cartridge.mapper
    &&& post.interrupts.enable == pre.interrupts.enable
    // Interrupt requests latch: the tick can only add IF bits, never drop
    // one, so a pending interrupt stays pending until acknowledged.
    &&& post.interrupts.flags & pre.interrupts.flags == pre.interrupts.flags
    // Timer: P2's falling-edge law, per machine cycle.
    &&& post.timer.divider == vstd::wrapping::u16_specs::wrapping_add(pre.timer.divider, 4)
    &&& post.timer.timer_modulo == pre.timer.timer_modulo
    &&& post.timer.timer_control == pre.timer.timer_control
    &&& ({
        let fell = spec_falling_edge(
            pre.timer.divider,
            pre.timer.timer_control,
            post.timer.divider,
            pre.timer.timer_control,
        );
        &&& (fell ==> post.timer.timer_counter == spec_ticked_counter(
            pre.timer.timer_counter,
            pre.timer.timer_modulo,
        ))
        &&& (!fell ==> post.timer.timer_counter == pre.timer.timer_counter)
    })
    // PPU: registers and VRAM are CPU-owned; the frame position advances by
    // exactly 4 T-cycles modulo the 70224-cycle frame.
    &&& post.ppu.vram@ == pre.ppu.vram@
    &&& post.ppu.lcdc == pre.ppu.lcdc
    &&& post.ppu.stat == pre.ppu.stat
    &&& post.ppu.scy == pre.ppu.scy
    &&& post.ppu.scx == pre.ppu.scx
    &&& post.ppu.lyc == pre.ppu.lyc
    &&& post.ppu.wy == pre.ppu.wy
    &&& post.ppu.wx == pre.ppu.wx
    &&& post.ppu.bgp == pre.ppu.bgp
    &&& post.ppu.obp0 == pre.ppu.obp0
    &&& post.ppu.obp1 == pre.ppu.obp1
    &&& post.ppu.framebuffer@.len() == pre.ppu.framebuffer@.len()
    &&& (pre.ppu.spec_lcd_on() ==> post.ppu.spec_frame_dot() == (pre.ppu.spec_frame_dot() + 4)
        % 70224)
    &&& (!pre.ppu.spec_lcd_on() ==> post.ppu.ly == pre.ppu.ly && post.ppu.dot == pre.ppu.dot
        && post.ppu.oam@ == pre.ppu.oam@ || pre.dma.in_transfer)
    // APU: the mixer registers are CPU-owned.
    &&& post.apu.channels_control == pre.apu.channels_control
    &&& post.apu.channels_selection == pre.apu.channels_selection
    // Serial.
    &&& post.serial == spec_serial_clocked(pre.serial)
    // Joypad: buttons and select only move on CPU or host action.
    &&& post.joypad.pressed == pre.joypad.pressed
    &&& post.joypad.select == pre.joypad.select
    // DMA: P5's invariant, one protocol step per machine cycle.
    &&& (!pre.dma.in_transfer ==> post.dma == pre.dma && post.ppu.oam@ == pre.ppu.oam@)
    &&& (pre.dma.in_transfer && pre.dma.starting_delay > 0 ==> post.ppu.oam@ == pre.ppu.oam@
        && post.dma == (DMA {
        starting_delay: (pre.dma.starting_delay - 1) as u8,
        conflicting_bus: if pre.dma.starting_delay == 1 {
            Some(DMA::spec_conflict_of(pre.dma.source_high))
        } else {
            pre.dma.conflicting_bus
        },
        ..pre.dma
    }))
    &&& (pre.dma.in_transfer && pre.dma.starting_delay == 0 ==> ({
        let src = pre.dma.spec_source_addr();
        &&& post.dma == (DMA {
            current_value: post.dma.current_value,
            offset: (pre.dma.offset + 1) as u16,
            in_transfer: pre.dma.offset + 1 < 160,
            conflicting_bus: if pre.dma.offset + 1 == 160 {
                None::<BusType>
            } else {
                pre.dma.conflicting_bus
            },
            ..pre.dma
        })
        &&& (0x8000 <= src && src < 0xA000 ==> post.dma.current_value == spec_ppu_read_vram(
            post.ppu,
            src,
        ))
        &&& (!(0x8000 <= src && src < 0xA000) ==> post.dma.current_value == spec_bus_read_value(
            pre,
            src,
            None::<BusType>,
        ))
        &&& post.ppu.oam@ == spec_oam_written(
            pre.ppu.oam@,
            pre.dma.offset as int,
            post.dma.current_value,
        )
    }))
}

impl Bus {
    /// Read without advancing the clock: the pure address decode.
    fn read_not_ticked(&mut self, addr: u16, block_for_dma: Option<BusType>) -> (r: u8)
        requires
            old(self).wf(),
        ensures
            *final(self) == *old(self),
            r == spec_bus_read_value(*old(self), addr, block_for_dma),
    {
        let conflict_ext: bool = match block_for_dma {
            Some(BusType::External) => true,
            _ => false,
        };
        let conflict_vid: bool = match block_for_dma {
            Some(BusType::Video) => true,
            _ => false,
        };
        let dma_value: u8 = if conflict_ext || conflict_vid {
            self.dma.current_value
        } else {
            0xFF
        };
        if self.boot_rom.enabled && (addr < 0x100 || (0x200 <= addr && addr < 0x900)) {
            self.boot_rom.data[addr as usize]
        } else if conflict_ext && (addr < 0x8000 || (0xA000 <= addr && addr <= 0xFDFF)) {
            dma_value
        } else if addr < 0x4000 {
            self.cartridge.read_rom0(addr)
        } else if addr < 0x8000 {
            self.cartridge.read_romx(addr)
        } else if addr < 0xA000 {
            if conflict_vid {
                dma_value
            } else {
                self.ppu.read_vram(addr)
            }
        } else if addr < 0xC000 {
            self.cartridge.read_ram(addr)
        } else if addr < 0xD000 {
            self.wram.read_wram0(addr)
        } else if addr < 0xE000 {
            self.wram.read_wramx(addr)
        } else if addr < 0xF000 {
            self.wram.read_wram0(addr)
        } else if addr <= 0xFDFF {
            self.wram.read_wramx(addr)
        } else if addr < 0xFEA0 {
            if conflict_ext || conflict_vid {
                0xFF
            } else {
                self.ppu.read_oam(addr)
            }
        } else if addr < 0xFF00 {
            0
        } else if addr == 0xFF00 {
            self.joypad.read_joypad()
        } else if 0xFF01 <= addr && addr <= 0xFF02 {
            self.serial.read_register(addr)
        } else if 0xFF04 <= addr && addr <= 0xFF07 {
            self.timer.read_register(addr)
        } else if addr == 0xFF0F {
            self.interrupts.read_interrupt_flags()
        } else if 0xFF10 <= addr && addr <= 0xFF3F {
            self.apu.read_register(addr)
        } else if (0xFF40 <= addr && addr <= 0xFF45) || (0xFF47 <= addr && addr <= 0xFF4B) {
            self.ppu.read_register(addr)
        } else if addr == 0xFF46 {
            self.dma.read()
        } else if addr == 0xFF50 {
            0xFF
        } else if addr == 0xFF70 {
            self.wram.get_wram_bank()
        } else if 0xFF80 <= addr && addr <= 0xFFFE {
            self.hram[(addr - 0xFF80) as usize]
        } else if addr == 0xFFFF {
            self.interrupts.read_interrupt_enable()
        } else {
            0xFF
        }
    }

    /// Write without advancing the clock: the pure address decode.
    fn write_not_ticked(&mut self, addr: u16, data: u8, block_for_dma: Option<BusType>)
        requires
            old(self).wf(),
        ensures
            final(self).wf(),
            spec_bus_written(*old(self), *final(self), addr, data, block_for_dma),
    {
        let conflict_ext: bool = match block_for_dma {
            Some(BusType::External) => true,
            _ => false,
        };
        let conflict_vid: bool = match block_for_dma {
            Some(BusType::Video) => true,
            _ => false,
        };
        if conflict_ext && (addr < 0x8000 || (0xA000 <= addr && addr <= 0xFDFF)) {
        } else if addr < 0x8000 {
            self.cartridge.write_to_bank_controller(addr, data);
        } else if addr < 0xA000 {
            if !conflict_vid {
                self.ppu.write_vram(addr, data);
            }
        } else if addr < 0xC000 {
            self.cartridge.write_ram(addr, data);
        } else if addr < 0xD000 {
            self.wram.write_wram0(addr, data);
        } else if addr < 0xE000 {
            self.wram.write_wramx(addr, data);
        } else if addr < 0xF000 {
            self.wram.write_wram0(addr, data);
        } else if addr <= 0xFDFF {
            self.wram.write_wramx(addr, data);
        } else if addr < 0xFEA0 {
            if !(conflict_ext || conflict_vid) {
                self.ppu.write_oam(addr, data);
            }
        } else if addr < 0xFF00 {
        } else if addr == 0xFF00 {
            self.joypad.write_joypad(data);
        } else if 0xFF01 <= addr && addr <= 0xFF02 {
            self.serial.write_register(addr, data);
        } else if 0xFF04 <= addr && addr <= 0xFF07 {
            self.timer.write_register(addr, data, &mut self.interrupts);
        } else if addr == 0xFF0F {
            self.interrupts.write_interrupt_flags(data);
        } else if 0xFF10 <= addr && addr <= 0xFF3F {
            self.apu.write_register(addr, data);
        } else if (0xFF40 <= addr && addr <= 0xFF45) || (0xFF47 <= addr && addr <= 0xFF4B) {
            self.ppu.write_register(addr, data);
        } else if addr == 0xFF46 {
            self.dma.start_dma(data);
        } else if addr == 0xFF50 {
            self.boot_rom.enabled = false;
        } else if addr == 0xFF70 {
            self.wram.set_wram_bank(data);
        } else if 0xFF80 <= addr && addr <= 0xFFFE {
            self.hram.set((addr - 0xFF80) as usize, data);
        } else if addr == 0xFFFF {
            self.interrupts.write_interrupt_enable(data);
        }
    }

    /// Advance every peripheral by one machine cycle, in the fixed order:
    /// PPU (4 T-cycles), APU, timer, joypad edge, serial, then one DMA step.
    fn on_cpu_machine_cycle(&mut self)
        requires
            old(self).wf(),
        ensures
            final(self).wf(),
            spec_bus_ticked(*old(self), *final(self)),
    {
        self.cpu_cycles = self.cpu_cycles.wrapping_add(1);
        let ghost f0: u8 = self.interrupts.flags;
        self.ppu.clock_4_times(&mut self.interrupts);
        proof {
            lemma_and_self(f0);
            lemma_or_keeps_bits(f0, 0x01, f0);
            lemma_or_keeps_bits(f0, 0x02, f0);
            lemma_or_keeps_bits(f0 | 0x01, 0x02, f0);
            assert(self.interrupts.flags & f0 == f0);
        }
        self.apu.clock();
        let ghost f1: u8 = self.interrupts.flags;
        self.timer.clock_divider(&mut self.interrupts);
        proof {
            lemma_and_self(f1);
            lemma_or_keeps_bits(f1, 0x04, f1);
            lemma_keeps_bits_trans(self.interrupts.flags, f1, f0);
        }
        let ghost f2: u8 = self.interrupts.flags;
        self.joypad.update_interrupts(&mut self.interrupts);
        proof {
            lemma_and_self(f2);
            lemma_or_keeps_bits(f2, 0x10, f2);
            lemma_keeps_bits_trans(self.interrupts.flags, f2, f0);
        }
        let ghost f3: u8 = self.interrupts.flags;
        self.serial.clock(&mut self.interrupts);
        proof {
            lemma_and_self(f3);
            lemma_or_keeps_bits(f3, 0x08, f3);
            lemma_keeps_bits_trans(self.interrupts.flags, f3, f0);
        }
        if self.dma.in_transfer {
            if self.dma.starting_delay > 0 {
                self.dma.transfer_clock(&mut self.ppu, 0);
            } else {
                let src: u16 = (self.dma.source_high as u16) * 256 + self.dma.offset;
                let value: u8 = self.read_not_ticked(src, None);
                proof {
                    assert(src < 0xFE00);
                    assert(!(0x8000 <= src && src < 0xA000) ==> value == spec_bus_read_value(
                        *old(self),
                        src,
                        None::<BusType>,
                    ));
                }
                self.dma.transfer_clock(&mut self.ppu, value);
            }
        }
    }

    /// Each CPU read performs the memory access, then clocks the components
    /// on the bus by one machine cycle.
    pub fn read(&mut self, addr: u16) -> (r: u8)
        requires
            old(self).wf(),
        ensures
            final(self).wf(),
            r == spec_bus_read_value(*old(self), addr, old(self).dma.conflicting_bus),
            spec_bus_ticked(*old(self), *final(self)),
    {
        let conflict: Option<BusType> = self.dma.conflicting_bus;
        let result: u8 = self.read_not_ticked(addr, conflict);
        self.on_cpu_machine_cycle();
        result
    }

    /// Each CPU write performs the memory effect, then clocks the components
    /// on the bus by one machine cycle.
    pub fn write(&mut self, addr: u16, data: u8)
        requires
            old(self).wf(),
        ensures
            final(self).wf(),
            exists|mid: Bus|
                #[trigger] spec_bus_written(
                    *old(self),
                    mid,
                    addr,
                    data,
                    old(self).dma.conflicting_bus,
                ) && spec_bus_ticked(mid, *final(self)),
    {
        let conflict: Option<BusType> = self.dma.conflicting_bus;
        self.write_not_ticked(addr, data, conflict);
        let ghost mid: Bus = *self;
        self.on_cpu_machine_cycle();
        proof {
            assert(spec_bus_written(*old(self), mid, addr, data, old(self).dma.conflicting_bus)
                && spec_bus_ticked(mid, *self));
        }
    }

    /// The interrupt the CPU must service, acknowledged (its IF bit cleared).
    pub fn take_next_interrupt(&mut self) -> (r: Option<InterruptType>)
        ensures
            r == old(self).interrupts.spec_highest(),
            r is None ==> *final(self) == *old(self),
            r is Some ==> *final(self) == (Bus {
                interrupts: Interrupts {
                    flags: old(self).interrupts.flags & !spec_interrupt_mask(r->0),
                    ..old(self).interrupts
                },
                ..*old(self)
            }),
    {
        let next: Option<InterruptType> = self.interrupts.get_highest_interrupt();
        if let Some(kind) = next {
            self.interrupts.acknowledge_interrupt(kind);
        }
        next
    }

    /// The interrupt the CPU would service, left pending.
    pub fn peek_next_interrupt(&mut self) -> (r: Option<InterruptType>)
        ensures
            *final(self) == *old(self),
            r == old(self).interrupts.spec_highest(),
    {
        self.interrupts.get_highest_interrupt()
    }

    /// Whether some enabled interrupt is pending.
    pub fn check_interrupts(&self) -> (r: bool)
        ensures
            r == (self.interrupts.flags & self.interrupts.enable & 0x1Fu8 != 0),
    {
        self.interrupts.is_interrupts_available()
    }
}

/// Law: a running transfer past its start delay copies exactly one byte per
/// machine cycle, the byte lands at the OAM slot named by the running
/// offset, and the transfer ends exactly as the 160th byte lands. So a full
/// transfer copies exactly 160 bytes to OAM, never more, never fewer.
pub proof fn lemma_dma_copies_one_byte_per_cycle(pre: Bus, post: Bus)
    requires
        pre.wf(),
        spec_bus_ticked(pre, post),
        pre.dma.in_transfer,
        pre.dma.starting_delay == 0,
    ensures
        post.dma.offset == pre.dma.offset + 1,
        post.ppu.oam@ == spec_oam_written(
            pre.ppu.oam@,
            pre.dma.offset as int,
            post.dma.current_value,
        ),
        post.dma.in_transfer <==> pre.dma.offset + 1 < 160,
{
}

/// Law: over any run of machine cycles with the LCD on, the frame position
/// advances by exactly 4 T-cycles per cycle modulo 70224, so a run of
/// 17556 machine cycles — one frame of 154 lines x 456 T-cycles — returns
/// the PPU to the frame position it started from, independent of rendered
/// content. `states` is the trace: each adjacent pair one machine cycle.
pub proof fn lemma_frame_budget(states: Seq<Bus>)
    requires
        states.len() >= 1,
        states[0].ppu.wf(),
        forall|i: int|
            0 <= i < states.len() - 1 ==> #[trigger] spec_bus_ticked(states[i], states[i + 1]),
        forall|i: int| 0 <= i < states.len() - 1 ==> (#[trigger] states[i].ppu).spec_lcd_on(),
    ensures
        states.last().ppu.spec_frame_dot() == (states[0].ppu.spec_frame_dot() + 4 * (states.len()
            - 1)) % 70224,
        states.len() == 17557 ==> states.last().ppu.spec_frame_dot()
            == states[0].ppu.spec_frame_dot(),
    decreases states.len(),
{
    let d0 = states[0].ppu.spec_frame_dot();
    assert(0 <= d0 < 70224);
    if states.len() == 1 {
        vstd::arithmetic::div_mod::lemma_small_mod(d0 as nat, 70224);
    } else {
        let prefix = states.drop_last();
        lemma_frame_budget(prefix);
        let n = states.len() - 1;
        let dprev = states[n - 1].ppu.spec_frame_dot();
        assert(spec_bus_ticked(states[n - 1], states[n - 1 + 1]));
        assert(states[n].ppu.spec_frame_dot() == (dprev + 4) % 70224);
        assert(dprev == (d0 + 4 * (n - 1)) % 70224);
        vstd::arithmetic::div_mod::lemma_small_mod(4nat, 70224);
        vstd::arithmetic::div_mod::lemma_add_mod_noop(d0 + 4 * (n - 1), 4, 70224);
        assert(states[n].ppu.spec_frame_dot() == (d0 + 4 * n) % 70224);
    }
    if states.len() == 17557 {
        vstd::arithmetic::div_mod::lemma_mod_multiples_vanish(1, d0, 70224);
        vstd::arithmetic::div_mod::lemma_small_mod(d0 as nat, 70224);
    }
}

impl Bus {
    /// Law: on any bus state, a byte written to HRAM comes straight back on
    /// the next read of the same address. HRAM is never blocked by DMA and
    /// no peripheral writes it, so the round trip holds whatever else the
    /// two machine cycles did.
    pub fn hram_write_read_round_trip(&mut self, addr: u16, data: u8) -> (r: u8)
        requires
            old(self).wf(),
            0xFF80 <= addr <= 0xFFFE,
        ensures
            final(self).wf(),
            r == data,
    {
        self.write(addr, data);
        proof {
            let mid = choose|m: Bus|
                #[trigger] spec_bus_written(*old(self), m, addr, data, old(self).dma.conflicting_bus)
                    && spec_bus_ticked(m, *self);
            assert(self.hram@[addr - 0xFF80] == data);
        }
        self.read(addr)
    }
}

/// The bus as the CPU sees it: its invariant is `wf`, every access costs
/// one machine cycle, and `delay_cycle` spends an internal cycle with no
/// memory traffic.
impl CpuBusProvider for Bus {
    open spec fn inv(&self) -> bool {
        self.wf()
    }

    open spec fn spec_read_value(&self, addr: u16) -> u8 {
        spec_bus_read_value(*self, addr, self.dma.conflicting_bus)
    }

    open spec fn spec_interrupt_pending(&self) -> bool {
        self.interrupts.flags & self.interrupts.enable & 0x1F != 0
    }

    fn read(&mut self, addr: u16) -> (r: u8) {
        let value: u8 = Bus::read(self, addr);
        proof {
            if old(self).spec_interrupt_pending() {
                lemma_pending_monotone(
                    self.interrupts.flags,
                    old(self).interrupts.flags,
                    old(self).interrupts.enable,
                );
            }
        }
        value
    }

    fn write(&mut self, addr: u16, data: u8) {
        Bus::write(self, addr, data);
    }

    fn delay_cycle(&mut self) {
        self.on_cpu_machine_cycle();
    }

    fn take_next_interrupt(&mut self) -> (r: Option<InterruptType>) {
        Bus::take_next_interrupt(self)
    }

    fn check_interrupts(&self) -> bool {
        Bus::check_interrupts(self)
    }
}

/// A vector of `n` zero bytes.
fn zero_vec(n: usize) -> (v: Vec<u8>)
    ensures
        v@ == Seq::new(n as nat, |i: int| 0u8),
{
    let mut v: Vec<u8> = Vec::new();
    let mut i: usize = 0;
    while i < n
        invariant
            i <= n,
            v@ == Seq::new(i as nat, |j: int| 0u8),
        decreases n - i,
    {
        v.push(0);
        proof {
            assert(v@ =~= Seq::new((i + 1) as nat, |j: int| 0u8));
        }
        i = i + 1;
    }
    v
}

impl Bus {
    /// A system that starts past the boot ROM, with the post-boot register
    /// state in every peripheral.
    pub fn new_without_boot_rom(cartridge: Cartridge) -> (r: Bus)
        requires
            cartridge.wf(),
        ensures
            r.wf(),
            r.cartridge == cartridge,
            !r.boot_rom.enabled,
            r.timer.divider == 0xABCC,
            r.ppu.lcdc == 0x91,
            r.hram@ == Seq::new(127, |i: int| 0u8),
            r.wram.data@ == Seq::new(0x8000, |i: int| 0u8),
            r.wram.bank == 1,
            !r.dma.in_transfer,
            r.dma.conflicting_bus is None,
            r.interrupts.flags == 0,
            r.interrupts.enable == 0,
            r.cpu_cycles == 0,
    {
        Bus {
            cartridge,
            ppu: Ppu::new_skip_boot_rom(),
            wram: Wram::new(),
            interrupts: Interrupts::new(),
            timer: Timer::new_skip_boot_rom(),
            joypad: Joypad::new(),
            serial: Serial::new(),
            dma: DMA::new(),
            apu: Apu::new_skip_boot_rom(),
            hram: zero_vec(127),
            boot_rom: BootRom { enabled: false, data: zero_vec(0x900) },
            cpu_cycles: 0,
        }
    }

    /// A system that starts inside the given boot ROM (0x0000..0x0100 and
    /// 0x0200..0x0900), with every peripheral in its power-on state.
    pub fn new_with_boot_rom(cartridge: Cartridge, boot_rom_data: Vec<u8>) -> (r: Bus)
        requires
            cartridge.wf(),
            boot_rom_data@.len() == 0x900,
        ensures
            r.wf(),
            r.cartridge == cartridge,
            r.boot_rom.enabled,
            r.boot_rom.data@ == boot_rom_data@,
            r.timer == (Timer { divider: 0, timer_counter: 0, timer_modulo: 0, timer_control: 0 }),
            r.ppu.lcdc == 0,
            r.ppu.ly == 0,
            r.ppu.dot == 0,
            r.ppu.vram@ == Seq::new(0x2000, |i: int| 0u8),
            r.apu.channels_control == 0,
            r.apu.channels_selection == 0,
            r.apu.cycle == 0,
            r.apu.sequencer_step == 0,
            r.apu.sample_counter == 0,
            r.apu.buffer@.len() == 0,
            !r.apu.pulse1.muted && r.apu.pulse1.length == 0 && !r.apu.pulse1.counter_decrease_enable,
            r.apu.pulse2 == r.apu.pulse1,
            !r.apu.wave.channel.dac_enabled && !r.apu.wave.muted,
            !r.apu.noise.muted && r.apu.noise.channel.lfsr == 0x7FFF,
            r.joypad == (Joypad { pressed: 0, select: 0x30, prev_lines: 0x0F }),
            r.serial == (Serial { data: 0, control: 0, counter: 0 }),
            r.interrupts.flags == 0,
            r.interrupts.enable == 0,
            r.wram.bank == 1,
            r.wram.data@ == Seq::new(0x8000, |i: int| 0u8),
            r.hram@ == Seq::new(127, |i: int| 0u8),
            !r.dma.in_transfer,
            r.dma.conflicting_bus is None,
            r.cpu_cycles == 0,
    {
        Bus {
            cartridge,
            ppu: Ppu::new(),
            wram: Wram::new(),
            interrupts: Interrupts::new(),
            timer: Timer::new(),
            joypad: Joypad::new(),
            serial: Serial::new(),
            dma: DMA::new(),
            apu: Apu::new(),
            hram: zero_vec(127),
            boot_rom: BootRom { enabled: true, data: boot_rom_data },
            cpu_cycles: 0,
        }
    }

    /// The rendered 160x144 frame, one shade byte per pixel.
    pub fn screen_buffer(&self) -> (r: &Vec<u8>)
        ensures
            r@ == self.ppu.framebuffer@,
    {
        self.ppu.screen_buffer()
    }

    /// Drain the digital audio samples accumulated since the last call.
    pub fn audio_buffer(&mut self) -> (r: Vec<ApuSample>)
        ensures
            r@ == old(self).apu.buffer@,
            *final(self) == (Bus { apu: final(self).apu, ..*old(self) }),
            final(self).apu == (Apu { buffer: final(self).apu.buffer, ..old(self).apu }),
            final(self).apu.buffer@.len() == 0,
    {
        self.apu.get_buffer()
    }

    pub fn press_joypad(&mut self, button: JoypadButton)
        ensures
            *final(self) == (Bus {
                joypad: Joypad {
                    pressed: old(self).joypad.pressed | spec_button_mask(button),
                    ..old(self).joypad
                },
                ..*old(self)
            }),
    {
        self.joypad.press_joypad(button);
    }

    pub fn release_joypad(&mut self, button: JoypadButton)
        ensures
            *final(self) == (Bus {
                joypad: Joypad {
                    pressed: old(self).joypad.pressed & !spec_button_mask(button),
                    ..old(self).joypad
                },
                ..*old(self)
            }),
    {
        self.joypad.release_joypad(button);
    }

    /// Machine cycles since the last call; the count resets.
    pub fn elapsed_cpu_cycles(&mut self) -> (r: u32)
        ensures
            r == old(self).cpu_cycles,
            *final(self) == (Bus { cpu_cycles: 0, ..*old(self) }),
    {
        let cycles: u32 = self.cpu_cycles;
        self.cpu_cycles = 0;
        cycles
    }
}

} // verus!
