//! PPU: mode state machine, OAM scan, and scanline rendering through the
//! pixel FIFO.
//!
//! Each line is 456 T-cycles: mode 2 (OAM scan) for the first 80, mode 3
//! (drawing) for the next 172, mode 0 (HBlank) for the rest; lines 144..154
//! are mode 1 (VBlank). A frame is exactly 154 * 456 = 70224 T-cycles.

use vstd::prelude::*;

use crate::fifo::Fifo;
use crate::fifo::FifoPixel;
use crate::fifo::PixelType;
use crate::fifo::SpritePriorityMode;
use crate::interrupts::InterruptManager;
use crate::interrupts::InterruptType;
use crate::interrupts::Interrupts;
use crate::sprite::Sprite;

verus! {

/// T-cycles per scanline.
pub const DOTS_PER_LINE: u16 = 456;

/// Scanlines per frame, VBlank included.
pub const LINES_PER_FRAME: u8 = 154;

/// T-cycles per frame: 154 * 456 == 70224, independent of rendered content.
pub const DOTS_PER_FRAME: u32 = 70224;

pub struct Ppu {
    /// LCDC (0xFF40).
    pub lcdc: u8,
    /// The four writable STAT interrupt-source bits (0xFF41 bits 3..7).
    pub stat: u8,
    pub scy: u8,
    pub scx: u8,
    /// Current scanline, 0..154.
    pub ly: u8,
    pub lyc: u8,
    pub wy: u8,
    pub wx: u8,
    pub bgp: u8,
    pub obp0: u8,
    pub obp1: u8,
    /// 8 KiB of tile data and tile maps.
    pub vram: Vec<u8>,
    /// 40 sprites.
    pub oam: Vec<Sprite>,
    /// The background/window pixel FIFO (render scratch).
    pub fifo: Fifo,
    /// OAM indices of the up-to-10 sprites selected for the current line.
    pub selected_sprites: Vec<u8>,
    /// T-cycles into the current line, 0..456.
    pub dot: u16,
    /// Level of the STAT interrupt OR on the previous cycle (source blocking).
    pub stat_line: bool,
    /// The window's own line counter.
    pub window_line: u8,
    /// 160 x 144 shades, one byte each, values 0..4.
    pub framebuffer: Vec<u8>,
}

impl Ppu {
    pub open spec fn wf(self) -> bool {
        &&& self.vram@.len() == 0x2000
        &&& self.oam@.len() == 40
        &&& self.framebuffer@.len() == 160 * 144
        &&& self.selected_sprites@.len() <= 10
        &&& (forall|i: int|
            0 <= i < self.selected_sprites@.len() ==> self.selected_sprites@[i] < 40)
        &&& self.dot < DOTS_PER_LINE
        &&& self.dot % 4 == 0
        &&& self.ly < LINES_PER_FRAME
    }

    /// Whether the LCD runs at all (LCDC bit 7).
    pub open spec fn spec_lcd_on(self) -> bool {
        self.lcdc & 0x80 != 0
    }

    /// The mode the PPU is in, from line and dot position.
    pub open spec fn spec_mode(self) -> u8 {
        if !self.spec_lcd_on() {
            0
        } else if self.ly >= 144 {
            1
        } else if self.dot < 80 {
            2
        } else if self.dot < 252 {
            3
        } else {
            0
        }
    }

    /// Position within the 70224-T-cycle frame.
    pub open spec fn spec_frame_dot(self) -> int {
        self.ly * (DOTS_PER_LINE as int) + self.dot
    }

    /// The level of the STAT interrupt sources' OR; the STAT interrupt fires
    /// on its rising edge.
    pub open spec fn spec_stat_level(self) -> bool {
        ||| (self.stat & 0x40 != 0 && self.ly == self.lyc)
        ||| (self.stat & 0x08 != 0 && self.spec_mode() == 0)
        ||| (self.stat & 0x10 != 0 && self.spec_mode() == 1)
        ||| (self.stat & 0x20 != 0 && self.spec_mode() == 2)
    }

    /// Sprite height for the current LCDC (bit 2): 8 or 16.
    pub open spec fn spec_sprite_height(self) -> u16 {
        if self.lcdc & 0x04 != 0 {
            16
        } else {
            8
        }
    }

    /// Whether the sprite covers the scanline.
    pub open spec fn spec_sprite_covers(s: Sprite, ly: u8, height: u16) -> bool {
        s.y <= ly + 16 < s.y + height
    }
}

/// The byte a CPU VRAM read returns: 0xFF while drawing.
pub open spec fn spec_ppu_read_vram(p: Ppu, addr: u16) -> u8 {
    if p.spec_mode() == 3 {
        0xFF
    } else {
        p.vram@[(addr - 0x8000) as int]
    }
}

/// The byte stored at an OAM offset.
pub open spec fn spec_oam_byte(p: Ppu, off: int) -> u8 {
    let s = p.oam@[off / 4];
    if off % 4 == 0 {
        s.y
    } else if off % 4 == 1 {
        s.x
    } else if off % 4 == 2 {
        s.tile
    } else {
        s.flags
    }
}

/// The byte a CPU OAM read returns: 0xFF during OAM scan and drawing.
pub open spec fn spec_ppu_read_oam(p: Ppu, addr: u16) -> u8 {
    if p.spec_mode() == 2 || p.spec_mode() == 3 {
        0xFF
    } else {
        spec_oam_byte(p, (addr - 0xFE00) as int)
    }
}

/// OAM contents after one byte write at the given offset.
pub open spec fn spec_oam_written(oam: Seq<Sprite>, off: int, data: u8) -> Seq<Sprite> {
    let s = oam[off / 4];
    if off % 4 == 0 {
        oam.update(off / 4, Sprite { y: data, ..s })
    } else if off % 4 == 1 {
        oam.update(off / 4, Sprite { x: data, ..s })
    } else if off % 4 == 2 {
        oam.update(off / 4, Sprite { tile: data, ..s })
    } else {
        oam.update(off / 4, Sprite { flags: data, ..s })
    }
}

/// How one PPU register write changes the PPU: LY is read-only, and turning
/// the LCD off resets the line, dot and window-line counters.
pub open spec fn spec_ppu_reg_written(pre: Ppu, post: Ppu, addr: u16, data: u8) -> bool {
    if addr == 0xFF40 {
        if data & 0x80 == 0 && pre.lcdc & 0x80 != 0 {
            post == Ppu { lcdc: data, ly: 0, dot: 0, window_line: 0, ..pre }
        } else {
            post == Ppu { lcdc: data, ..pre }
        }
    } else if addr == 0xFF41 {
        post == Ppu { stat: data & 0x78, ..pre }
    } else if addr == 0xFF42 {
        post == Ppu { scy: data, ..pre }
    } else if addr == 0xFF43 {
        post == Ppu { scx: data, ..pre }
    } else if addr == 0xFF44 {
        post == pre
    } else if addr == 0xFF45 {
        post == Ppu { lyc: data, ..pre }
    } else if addr == 0xFF47 {
        post == Ppu { bgp: data, ..pre }
    } else if addr == 0xFF48 {
        post == Ppu { obp0: data, ..pre }
    } else if addr == 0xFF49 {
        post == Ppu { obp1: data, ..pre }
    } else if addr == 0xFF4A {
        post == Ppu { wy: data, ..pre }
    } else {
        post == Ppu { wx: data, ..pre }
    }
}

/// The byte a PPU register read returns.
pub open spec fn spec_ppu_read_register(p: Ppu, addr: u16) -> u8 {
    if addr == 0xFF40 {
        p.lcdc
    } else if addr == 0xFF41 {
        0x80u8 | (p.stat & 0x78u8) | (if p.ly == p.lyc {
            0x04u8
        } else {
            0u8
        }) | p.spec_mode()
    } else if addr == 0xFF42 {
        p.scy
    } else if addr == 0xFF43 {
        p.scx
    } else if addr == 0xFF44 {
        p.ly
    } else if addr == 0xFF45 {
        p.lyc
    } else if addr == 0xFF47 {
        p.bgp
    } else if addr == 0xFF48 {
        p.obp0
    } else if addr == 0xFF49 {
        p.obp1
    } else if addr == 0xFF4A {
        p.wy
    } else {
        p.wx
    }
}

/// A 2-bit tile color resolved through a palette register to a shade 0..4.
pub open spec fn spec_resolve_palette(palette: u8, color: u8) -> u8 {
    (palette >> (2 * (color & 0x03))) & 0x03
}

/// The 2-bit color of pixel `bit` (7 = leftmost) in one row of tile data.
pub open spec fn spec_tile_color(lo: u8, hi: u8, bit: u8) -> u8 {
    ((lo >> bit) & 1) | (((hi >> bit) & 1) << 1)
}

fn exec_mode(ppu: &Ppu) -> (r: u8)
    ensures
        r == ppu.spec_mode(),
{
    if ppu.lcdc & 0x80 == 0 {
        0
    } else if ppu.ly >= 144 {
        1
    } else if ppu.dot < 80 {
        2
    } else if ppu.dot < 252 {
        3
    } else {
        0
    }
}

fn exec_stat_level(ppu: &Ppu) -> (r: bool)
    ensures
        r == ppu.spec_stat_level(),
{
    (ppu.stat & 0x40 != 0 && ppu.ly == ppu.lyc) || (ppu.stat & 0x08 != 0 && exec_mode(ppu) == 0)
        || (ppu.stat & 0x10 != 0 && exec_mode(ppu) == 1) || (ppu.stat & 0x20 != 0 && exec_mode(ppu)
        == 2)
}

/// Resolve a 2-bit color through a palette register.
fn resolve_palette(palette: u8, color: u8) -> (r: u8)
    ensures
        r == spec_resolve_palette(palette, color),
        r < 4,
{
    proof {
        assert((palette >> (2 * (color & 0x03u8))) & 0x03u8 < 4 && 2 * (color & 0x03u8) < 8)
            by (bit_vector);
    }
    (palette >> (2 * (color & 0x03))) & 0x03
}

/// One pixel of one row of tile data.
fn tile_color(lo: u8, hi: u8, bit: u8) -> (r: u8)
    requires
        bit < 8,
    ensures
        r == spec_tile_color(lo, hi, bit),
        r < 4,
{
    proof {
        assert((((lo >> bit) & 1) | (((hi >> bit) & 1) << 1u8)) < 4) by (bit_vector);
    }
    ((lo >> bit) & 1) | (((hi >> bit) & 1) << 1)
}

/// The 8 colors of one tile-data row, leftmost first (or rightmost first
/// when flipped).
fn tile_row_colors(lo: u8, hi: u8, flipped: bool) -> (r: [u8; 8])
    ensures
        forall|i: int|
            0 <= i < 8 ==> r[i] == spec_tile_color(
                lo,
                hi,
                if flipped {
                    i as u8
                } else {
                    (7 - i) as u8
                },
            ),
        forall|i: int| 0 <= i < 8 ==> r[i] < 4,
{
    if flipped {
        [
            tile_color(lo, hi, 0),
            tile_color(lo, hi, 1),
            tile_color(lo, hi, 2),
            tile_color(lo, hi, 3),
            tile_color(lo, hi, 4),
            tile_color(lo, hi, 5),
            tile_color(lo, hi, 6),
            tile_color(lo, hi, 7),
        ]
    } else {
        [
            tile_color(lo, hi, 7),
            tile_color(lo, hi, 6),
            tile_color(lo, hi, 5),
            tile_color(lo, hi, 4),
            tile_color(lo, hi, 3),
            tile_color(lo, hi, 2),
            tile_color(lo, hi, 1),
            tile_color(lo, hi, 0),
        ]
    }
}

impl Ppu {
    /// Power-on state: LCD off, everything cleared.
    pub fn new() -> (r: Ppu)
        ensures
            r.wf(),
            r.lcdc == 0,
            r.ly == 0,
            r.dot == 0,
            r.vram@ == Seq::new(0x2000, |i: int| 0u8),
            r.framebuffer@ == Seq::new(160 * 144, |i: int| 0u8),
    {
        let mut vram: Vec<u8> = Vec::new();
        let mut i: usize = 0;
        while i < 0x2000
            invariant
                i <= 0x2000,
                vram@ == Seq::new(i as nat, |j: int| 0u8),
            decreases 0x2000 - i,
        {
            vram.push(0);
            proof {
                assert(vram@ =~= Seq::new((i + 1) as nat, |j: int| 0u8));
            }
            i = i + 1;
        }
        let mut oam: Vec<Sprite> = Vec::new();
        let mut j: usize = 0;
        while j < 40
            invariant
                j <= 40,
                oam@.len() == j,
            decreases 40 - j,
        {
            oam.push(Sprite::new());
            j = j + 1;
        }
        let mut framebuffer: Vec<u8> = Vec::new();
        let mut k: usize = 0;
        while k < 160 * 144
            invariant
                k <= 160 * 144,
                framebuffer@ == Seq::new(k as nat, |j: int| 0u8),
            decreases 160 * 144 - k,
        {
            framebuffer.push(0);
            proof {
                assert(framebuffer@ =~= Seq::new((k + 1) as nat, |j: int| 0u8));
            }
            k = k + 1;
        }
        Ppu {
            lcdc: 0,
            stat: 0,
            scy: 0,
            scx: 0,
            ly: 0,
            lyc: 0,
            wy: 0,
            wx: 0,
            bgp: 0,
            obp0: 0,
            obp1: 0,
            vram,
            oam,
            fifo: Fifo::new(),
            selected_sprites: Vec::new(),
            dot: 0,
            stat_line: false,
            window_line: 0,
            framebuffer,
        }
    }

    /// State after the boot ROM: LCD on, background enabled, DMG palette.
    pub fn new_skip_boot_rom() -> (r: Ppu)
        ensures
            r.wf(),
            r.lcdc == 0x91,
            r.bgp == 0xFC,
            r.ly == 0,
            r.dot == 0,
    {
        let mut ppu = Ppu::new();
        ppu.lcdc = 0x91;
        ppu.bgp = 0xFC;
        ppu.obp0 = 0xFF;
        ppu.obp1 = 0xFF;
        ppu
    }

    /// CPU-facing VRAM read (0x8000..0xA000): blocked while drawing.
    pub fn read_vram(&self, addr: u16) -> (r: u8)
        requires
            self.wf(),
            0x8000 <= addr < 0xA000,
        ensures
            r == spec_ppu_read_vram(*self, addr),
    {
        if exec_mode(self) == 3 {
            0xFF
        } else {
            self.vram[(addr - 0x8000) as usize]
        }
    }

    /// CPU-facing VRAM write: dropped while drawing.
    pub fn write_vram(&mut self, addr: u16, data: u8)
        requires
            old(self).wf(),
            0x8000 <= addr < 0xA000,
        ensures
            final(self).wf(),
            old(self).spec_mode() == 3 ==> *final(self) == *old(self),
            old(self).spec_mode() != 3 ==> *final(self) == (Ppu {
                vram: final(self).vram,
                ..*old(self)
            }) && final(self).vram@ == old(self).vram@.update((addr - 0x8000) as int, data),
    {
        if exec_mode(self) != 3 {
            self.vram.set((addr - 0x8000) as usize, data);
        }
    }

    /// CPU-facing OAM read (0xFE00..0xFEA0): blocked during OAM scan and
    /// drawing.
    pub fn read_oam(&self, addr: u16) -> (r: u8)
        requires
            self.wf(),
            0xFE00 <= addr < 0xFEA0,
        ensures
            r == spec_ppu_read_oam(*self, addr),
    {
        let mode: u8 = exec_mode(self);
        if mode == 2 || mode == 3 {
            0xFF
        } else {
            let off: u16 = addr - 0xFE00;
            self.oam[(off / 4) as usize].get_at_offset((off % 4) as u8)
        }
    }

    /// CPU-facing OAM write: dropped during OAM scan and drawing.
    pub fn write_oam(&mut self, addr: u16, data: u8)
        requires
            old(self).wf(),
            0xFE00 <= addr < 0xFEA0,
        ensures
            final(self).wf(),
            ({
                let blocked = old(self).spec_mode() == 2 || old(self).spec_mode() == 3;
                &&& (blocked ==> *final(self) == *old(self))
                &&& (!blocked ==> *final(self) == (Ppu { oam: final(self).oam, ..*old(self) })
                    && final(self).oam@ == spec_oam_written(
                    old(self).oam@,
                    (addr - 0xFE00) as int,
                    data,
                ))
            }),
    {
        let mode: u8 = exec_mode(self);
        if mode != 2 && mode != 3 {
            self.write_oam_dma(addr, data);
        }
    }

    /// OAM write from the DMA engine: never blocked.
    pub fn write_oam_dma(&mut self, addr: u16, data: u8)
        requires
            old(self).wf(),
            0xFE00 <= addr < 0xFEA0,
        ensures
            final(self).wf(),
            *final(self) == (Ppu { oam: final(self).oam, ..*old(self) }),
            final(self).oam@.len() == 40,
            final(self).oam@ == spec_oam_written(old(self).oam@, (addr - 0xFE00) as int, data),
    {
        let off: u16 = addr - 0xFE00;
        let idx: usize = (off / 4) as usize;
        let field: u8 = (off % 4) as u8;
        let mut s: Sprite = self.oam[idx];
        s.set_at_offset(field, data);
        self.oam.set(idx, s);
    }

    /// PPU register read (0xFF40..0xFF46 and 0xFF47..0xFF4C).
    pub fn read_register(&self, addr: u16) -> (r: u8)
        requires
            self.wf(),
            0xFF40 <= addr <= 0xFF45 || 0xFF47 <= addr <= 0xFF4B,
        ensures
            r == spec_ppu_read_register(*self, addr),
    {
        if addr == 0xFF40 {
            self.lcdc
        } else if addr == 0xFF41 {
            0x80 | (self.stat & 0x78) | (if self.ly == self.lyc {
                0x04
            } else {
                0
            }) | exec_mode(self)
        } else if addr == 0xFF42 {
            self.scy
        } else if addr == 0xFF43 {
            self.scx
        } else if addr == 0xFF44 {
            self.ly
        } else if addr == 0xFF45 {
            self.lyc
        } else if addr == 0xFF47 {
            self.bgp
        } else if addr == 0xFF48 {
            self.obp0
        } else if addr == 0xFF49 {
            self.obp1
        } else if addr == 0xFF4A {
            self.wy
        } else {
            self.wx
        }
    }

    /// PPU register write. LY is read-only; turning the LCD off resets the
    /// line and dot counters.
    pub fn write_register(&mut self, addr: u16, data: u8)
        requires
            old(self).wf(),
            0xFF40 <= addr <= 0xFF45 || 0xFF47 <= addr <= 0xFF4B,
        ensures
            final(self).wf(),
            spec_ppu_reg_written(*old(self), *final(self), addr, data),
    {
        if addr == 0xFF40 {
            if data & 0x80 == 0 && self.lcdc & 0x80 != 0 {
                self.ly = 0;
                self.dot = 0;
                self.window_line = 0;
            }
            self.lcdc = data;
        } else if addr == 0xFF41 {
            self.stat = data & 0x78;
        } else if addr == 0xFF42 {
            self.scy = data;
        } else if addr == 0xFF43 {
            self.scx = data;
        } else if addr == 0xFF45 {
            self.lyc = data;
        } else if addr == 0xFF47 {
            self.bgp = data;
        } else if addr == 0xFF48 {
            self.obp0 = data;
        } else if addr == 0xFF49 {
            self.obp1 = data;
        } else if addr == 0xFF4B {
            self.wx = data;
        } else if addr == 0xFF4A {
            self.wy = data;
        }
    }

    pub fn screen_buffer(&self) -> (r: &Vec<u8>)
        ensures
            r@ == self.framebuffer@,
    {
        &self.framebuffer
    }

    /// Mode-2 OAM scan: select, in OAM order, the first up to 10 sprites
    /// whose y range covers this line.
    #[verifier::loop_isolation(false)]
    fn select_line_sprites(&mut self)
        requires
            old(self).wf(),
        ensures
            final(self).wf(),
            *final(self) == (Ppu { selected_sprites: final(self).selected_sprites, ..*old(self) }),
            final(self).selected_sprites@.len() <= 10,
            forall|i: int|
                0 <= i < final(self).selected_sprites@.len() ==> final(self).selected_sprites@[i]
                    < 40 && Ppu::spec_sprite_covers(
                    old(self).oam@[final(self).selected_sprites@[i] as int],
                    old(self).ly,
                    old(self).spec_sprite_height(),
                ),
            // OAM order is preserved: the selected indices strictly climb.
            forall|j: int, k: int|
                0 <= j < k < final(self).selected_sprites@.len() ==> final(self).selected_sprites@[j] < final(self).selected_sprites@[k],
    {
        let height: u16 = if self.lcdc & 0x04 != 0 {
            16
        } else {
            8
        };
        let mut selected: Vec<u8> = Vec::new();
        let mut i: usize = 0;
        while i < 40
            invariant
                i <= 40,
                self.oam@.len() == 40,
                selected@.len() <= 10,
                height == self.spec_sprite_height(),
                forall|j: int|
                    0 <= j < selected@.len() ==> selected@[j] < 40 && Ppu::spec_sprite_covers(
                        self.oam@[selected@[j] as int],
                        self.ly,
                        height,
                    ),
                forall|j: int| 0 <= j < selected@.len() ==> selected@[j] < i,
                forall|j: int, k: int|
                    0 <= j < k < selected@.len() ==> selected@[j] < selected@[k],
            decreases 40 - i,
        {
            let s: Sprite = self.oam[i];
            let line: u16 = self.ly as u16 + 16;
            if (s.y as u16) <= line && line < s.y as u16 + height && selected.len() < 10 {
                selected.push(i as u8);
            }
            i = i + 1;
        }
        self.selected_sprites = selected;
    }

    /// One row of one background or window tile, fetched from the tile map
    /// and tile data areas that LCDC selects.
    fn fetch_tile_row(&self, tile_x: u16, fetch_y: u8, window: bool) -> (r: [u8; 8])
        requires
            self.wf(),
            tile_x < 32,
        ensures
            forall|i: int| 0 <= i < 8 ==> r[i] < 4,
    {
        let map_select: bool = if window {
            self.lcdc & 0x40 != 0
        } else {
            self.lcdc & 0x08 != 0
        };
        let map_base: u16 = if map_select {
            0x1C00
        } else {
            0x1800
        };
        let tile_y: u16 = (fetch_y as u16) / 8;
        let row: u16 = (fetch_y as u16) % 8;
        let tile_idx: u8 = self.vram[(map_base + tile_y * 32 + tile_x) as usize];
        let data_base: u16 = if self.lcdc & 0x10 != 0 {
            (tile_idx as u16) * 16
        } else if tile_idx >= 128 {
            (tile_idx as u16) * 16
        } else {
            0x1000 + (tile_idx as u16) * 16
        };
        let lo: u8 = self.vram[(data_base + row * 2) as usize];
        let hi: u8 = self.vram[(data_base + row * 2 + 1) as usize];
        tile_row_colors(lo, hi, false)
    }

    /// One row of a sprite's tile, flips applied; 8x16 sprites use the even
    /// tile pair.
    fn fetch_sprite_row(&self, s: &Sprite) -> (r: [u8; 8])
        requires
            self.wf(),
            Ppu::spec_sprite_covers(*s, self.ly, self.spec_sprite_height()),
        ensures
            forall|i: int| 0 <= i < 8 ==> r[i] < 4,
    {
        let height: u16 = if self.lcdc & 0x04 != 0 {
            16
        } else {
            8
        };
        let mut row: u16 = self.ly as u16 + 16 - s.y as u16;
        if s.y_flipped() {
            row = height - 1 - row;
        }
        let tile: u16 = if height == 16 {
            (s.tile & 0xFE) as u16
        } else {
            s.tile as u16
        };
        let lo: u8 = self.vram[(tile * 16 + row * 2) as usize];
        let hi: u8 = self.vram[(tile * 16 + row * 2 + 1) as usize];
        tile_row_colors(lo, hi, s.x_flipped())
    }

    /// Mix every still-unmixed selected sprite whose left edge sits at
    /// screen column x into the leading 8 FIFO pixels.
    #[verifier::loop_isolation(false)]
    fn mix_sprites_at(&mut self, x: u16, mixed: &mut Vec<bool>)
        requires
            old(self).wf(),
            x <= 160,
            old(self).fifo@.len() >= 8,
            old(mixed)@.len() == old(self).selected_sprites@.len(),
            forall|i: int|
                0 <= i < old(self).selected_sprites@.len() ==> Ppu::spec_sprite_covers(
                    old(self).oam@[old(self).selected_sprites@[i] as int],
                    old(self).ly,
                    old(self).spec_sprite_height(),
                ),
        ensures
            final(self).wf(),
            *final(self) == (Ppu { fifo: final(self).fifo, ..*old(self) }),
            final(self).fifo@.len() == old(self).fifo@.len(),
            final(mixed)@.len() == old(mixed)@.len(),
    {
        let count: usize = self.selected_sprites.len();
        let mut j: usize = 0;
        while j < count
            invariant
                count == self.selected_sprites@.len(),
                self.wf(),
                *self == (Ppu { fifo: self.fifo, ..*old(self) }),
                self.fifo@.len() == old(self).fifo@.len(),
                old(self).fifo@.len() >= 8,
                mixed@.len() == old(mixed)@.len(),
                old(mixed)@.len() == count,
                forall|i: int|
                    0 <= i < count ==> Ppu::spec_sprite_covers(
                        self.oam@[self.selected_sprites@[i] as int],
                        self.ly,
                        self.spec_sprite_height(),
                    ),
            decreases count - j,
        {
            let oam_index: u8 = self.selected_sprites[j];
            let s: Sprite = self.oam[oam_index as usize];
            if !mixed[j] && (s.x as u16) == x + 8 && self.lcdc & 0x02 != 0 {
                let colors: [u8; 8] = self.fetch_sprite_row(&s);
                let palette: u8 = if s.palette_selector() == 1 {
                    self.obp1
                } else {
                    self.obp0
                };
                let sprite_copy: Sprite = s;
                self.fifo.mix_sprite(
                    colors,
                    oam_index,
                    &sprite_copy,
                    palette,
                    SpritePriorityMode::ByCoord,
                    false,
                );
                mixed.set(j, true);
            }
            j = j + 1;
        }
    }

    /// Render one scanline into the framebuffer through the FIFO: the
    /// background (or, from its start column on, the window) is pushed a
    /// tile row at a time, sprites are mixed into the leading 8 pixels at
    /// their exact columns, and each popped pixel is resolved through its
    /// palette.
    #[verifier::loop_isolation(false)]
    fn render_line(&mut self)
        requires
            old(self).wf(),
            old(self).ly < 144,
            forall|i: int|
                0 <= i < old(self).selected_sprites@.len() ==> Ppu::spec_sprite_covers(
                    old(self).oam@[old(self).selected_sprites@[i] as int],
                    old(self).ly,
                    old(self).spec_sprite_height(),
                ),
        ensures
            final(self).wf(),
            *final(self) == (Ppu {
                fifo: final(self).fifo,
                framebuffer: final(self).framebuffer,
                window_line: final(self).window_line,
                ..*old(self)
            }),
            final(self).framebuffer@.len() == old(self).framebuffer@.len(),
            forall|i: int|
                0 <= i < 160 * 144 && !(old(self).ly * 160 <= i < old(self).ly * 160 + 160) ==> final(self).framebuffer@[i] == old(self).framebuffer@[i],
            forall|i: int|
                old(self).ly * 160 <= i < old(self).ly * 160 + 160 ==> final(self).framebuffer@[i]
                    < 4,
    {
        let ghost row_base: int = old(self).ly * 160;
        let mut mixed: Vec<bool> = Vec::new();
        let count: usize = self.selected_sprites.len();
        let mut mi: usize = 0;
        while mi < count
            invariant
                mixed@.len() == mi,
                mi <= count,
            decreases count - mi,
        {
            mixed.push(false);
            mi = mi + 1;
        }

        // Window activation for this whole line, decided up front: the
        // window starts at column wx - 7 when enabled and wy has been
        // reached.
        let window_active: bool = self.lcdc & 0x20 != 0 && self.wy <= self.ly && self.wx < 167;
        let window_start: u16 = if window_active {
            if self.wx < 7 {
                0
            } else {
                (self.wx - 7) as u16
            }
        } else {
            160
        };

        self.fifo.clear();
        let mut x: u16 = 0;
        let mut discard: u16 = (self.scx % 8) as u16;
        let mut fetch_x: u16 = (self.scx / 8) as u16;
        let fetch_y: u8 = self.ly.wrapping_add(self.scy);
        let mut in_window: bool = false;
        let mut window_fetch_x: u16 = 0;
        let mut batch: usize = 0;

        while x < 160 && batch < 44
            invariant
                self.wf(),
                *self == (Ppu {
                    fifo: self.fifo,
                    framebuffer: self.framebuffer,
                    ..*old(self)
                }),
                self.framebuffer@.len() == old(self).framebuffer@.len(),
                self.fifo@.len() <= 16,
                mixed@.len() == count,
                count == self.selected_sprites@.len(),
                x <= 160,
                fetch_x < 32,
                window_fetch_x < 32,
                forall|i: int|
                    0 <= i < 160 * 144 && !(row_base <= i < row_base + x) ==> self.framebuffer@[i]
                        == old(self).framebuffer@[i],
                forall|i: int| row_base <= i < row_base + x ==> self.framebuffer@[i] < 4,
            decreases 44 - batch,
        {
            // Switch to window fetching at its start column.
            if window_active && !in_window && x >= window_start {
                in_window = true;
                self.fifo.clear();
                discard = 0;
            }
            // Refill the FIFO with one tile row.
            if self.fifo.len() <= 8 {
                if in_window {
                    let colors: [u8; 8] = self.fetch_tile_row(
                        window_fetch_x,
                        self.window_line,
                        true,
                    );
                    let bg_on: bool = self.lcdc & 0x01 != 0;
                    let blanked: [u8; 8] = if bg_on {
                        colors
                    } else {
                        [0, 0, 0, 0, 0, 0, 0, 0]
                    };
                    self.fifo.push_bg(blanked, self.bgp, false);
                    window_fetch_x = (window_fetch_x + 1) % 32;
                } else {
                    let colors: [u8; 8] = self.fetch_tile_row(fetch_x, fetch_y, false);
                    let bg_on: bool = self.lcdc & 0x01 != 0;
                    let blanked: [u8; 8] = if bg_on {
                        colors
                    } else {
                        [0, 0, 0, 0, 0, 0, 0, 0]
                    };
                    self.fifo.push_bg(blanked, self.bgp, false);
                    fetch_x = (fetch_x + 1) % 32;
                }
            }
            // Drain up to 8 pixels, mixing sprites at their columns.
            let mut drained: usize = 0;
            while drained < 8 && self.fifo.len() > 8 && x < 160
                invariant
                    drained <= 8,
                    self.wf(),
                    *self == (Ppu {
                        fifo: self.fifo,
                        framebuffer: self.framebuffer,
                        ..*old(self)
                    }),
                    self.framebuffer@.len() == old(self).framebuffer@.len(),
                    self.fifo@.len() <= 16,
                    mixed@.len() == count,
                    count == self.selected_sprites@.len(),
                    x <= 160,
                    forall|i: int|
                        0 <= i < 160 * 144 && !(row_base <= i < row_base + x) ==> self.framebuffer@[i] == old(self).framebuffer@[i],
                    forall|i: int| row_base <= i < row_base + x ==> self.framebuffer@[i] < 4,
                decreases 8 - drained,
            {
                if window_active && !in_window && x >= window_start {
                    break ;
                }
                self.mix_sprites_at(x, &mut mixed);
                let pixel: FifoPixel = self.fifo.pop();
                if discard > 0 {
                    discard = discard - 1;
                } else {
                    let shade: u8 = match pixel.pixel_type {
                        PixelType::Background(_) => resolve_palette(self.bgp, pixel.color),
                        PixelType::Sprite { dmg_palette: _, index: _ } => {
                            if pixel.color == 0 {
                                resolve_palette(self.bgp, 0)
                            } else {
                                resolve_palette(pixel.palette, pixel.color)
                            }
                        },
                    };
                    let fb_index: usize = self.ly as usize * 160 + x as usize;
                    self.framebuffer.set(fb_index, shade);
                    x = x + 1;
                }
                drained = drained + 1;
            }
            batch = batch + 1;
        }

        // A line on which the window was drawn advances the window's own
        // line counter.
        if window_active && window_start < 160 {
            self.window_line = self.window_line.wrapping_add(1);
        }

        // If the batch budget ran out (it cannot, but the bound is what the
        // verifier holds), pad the rest of the row to a defined shade.
        while x < 160
            invariant
                self.wf(),
                *self == (Ppu {
                    fifo: self.fifo,
                    framebuffer: self.framebuffer,
                    window_line: self.window_line,
                    ..*old(self)
                }),
                self.framebuffer@.len() == old(self).framebuffer@.len(),
                x <= 160,
                forall|i: int|
                    0 <= i < 160 * 144 && !(row_base <= i < row_base + x) ==> self.framebuffer@[i]
                        == old(self).framebuffer@[i],
                forall|i: int| row_base <= i < row_base + x ==> self.framebuffer@[i] < 4,
            decreases 160 - x,
        {
            let fb_index: usize = self.ly as usize * 160 + x as usize;
            self.framebuffer.set(fb_index, 0);
            x = x + 1;
        }
    }

    /// Advance the PPU by one machine cycle (4 T-cycles). Sprites for a line
    /// are selected as its OAM scan ends and the line is drawn as mode 3
    /// begins; entering line 144 raises VBlank; the STAT interrupt fires on
    /// the rising edge of the OR of its enabled sources.
    pub fn clock_4_times(&mut self, interrupts: &mut Interrupts)
        requires
            old(self).wf(),
        ensures
            final(self).wf(),
            !old(self).spec_lcd_on() ==> *final(self) == *old(self) && *final(interrupts) == *old(interrupts),
            old(self).spec_lcd_on() ==> ({
                // Exactly 70224 T-cycles per frame: the frame position
                // advances by 4 and wraps at 154 * 456.
                &&& final(self).spec_frame_dot() == (old(self).spec_frame_dot() + 4) % (
                DOTS_PER_FRAME as int)
                &&& final(self).vram@ == old(self).vram@
                &&& final(self).oam@ == old(self).oam@
                &&& final(self).lcdc == old(self).lcdc
                &&& final(self).stat == old(self).stat
                &&& final(self).scy == old(self).scy
                &&& final(self).scx == old(self).scx
                &&& final(self).lyc == old(self).lyc
                &&& final(self).wy == old(self).wy
                &&& final(self).wx == old(self).wx
                &&& final(self).bgp == old(self).bgp
                &&& final(self).obp0 == old(self).obp0
                &&& final(self).obp1 == old(self).obp1
                &&& final(self).framebuffer@.len() == old(self).framebuffer@.len()
                // Interrupts: VBlank exactly on entering line 144, then a
                // STAT request exactly on the rising edge of the source OR.
                &&& ({
                    let entered_vblank = final(self).ly == 144 && final(self).dot == 0;
                    let after_vblank = if entered_vblank {
                        old(interrupts).spec_request(InterruptType::Vblank)
                    } else {
                        *old(interrupts)
                    };
                    let rising = !old(self).stat_line && final(self).spec_stat_level();
                    &&& (rising ==> *final(interrupts) == after_vblank.spec_request(
                        InterruptType::LcdStat,
                    ))
                    &&& (!rising ==> *final(interrupts) == after_vblank)
                    &&& final(self).stat_line == final(self).spec_stat_level()
                })
            }),
    {
        if self.lcdc & 0x80 == 0 {
            return ;
        }
        self.dot = self.dot + 4;
        if self.dot == DOTS_PER_LINE {
            self.dot = 0;
            self.ly = self.ly + 1;
            if self.ly == LINES_PER_FRAME {
                self.ly = 0;
                self.window_line = 0;
            }
        }
        proof {
            let oldfd = old(self).spec_frame_dot();
            assert(0 <= oldfd <= 153 * 456 + 452);
            if oldfd + 4 < 70224 {
                vstd::arithmetic::div_mod::lemma_small_mod((oldfd + 4) as nat, 70224);
            }
            assert(self.spec_frame_dot() == (oldfd + 4) % (DOTS_PER_FRAME as int));
        }
        if self.ly < 144 && self.dot == 80 {
            self.select_line_sprites();
            self.render_line();
        }
        if self.ly == 144 && self.dot == 0 {
            interrupts.request_interrupt(InterruptType::Vblank);
        }
        let level: bool = exec_stat_level(self);
        if !self.stat_line && level {
            interrupts.request_interrupt(InterruptType::LcdStat);
        }
        self.stat_line = level;
    }
}

} // verus!
