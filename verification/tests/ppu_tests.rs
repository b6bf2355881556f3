//! PPU frame timing, STAT/VBlank interrupts, mode blocking and rendering.

use gb_emu_core::interrupts::Interrupts;
use gb_emu_core::ppu::Ppu;

#[test]
fn frame_is_exactly_70224_t_cycles() {
    // 154 lines x 456 T-cycles, independent of rendered content: after
    // exactly 70224 / 4 machine cycles the PPU is back at line 0, dot 0.
    let mut ppu = Ppu::new_skip_boot_rom();
    let mut ints = Interrupts::new();
    for step in 1..=(70224 / 4) {
        ppu.clock_4_times(&mut ints);
        if step < 70224 / 4 {
            assert!(!(ppu.ly == 0 && ppu.dot == 0), "frame ended early at step {step}");
        }
    }
    assert_eq!(ppu.ly, 0);
    assert_eq!(ppu.dot, 0);
}

#[test]
fn line_is_456_t_cycles() {
    let mut ppu = Ppu::new_skip_boot_rom();
    let mut ints = Interrupts::new();
    for _ in 0..(456 / 4) {
        ppu.clock_4_times(&mut ints);
    }
    assert_eq!(ppu.ly, 1);
    assert_eq!(ppu.dot, 0);
}

#[test]
fn vblank_interrupt_on_entering_line_144() {
    let mut ppu = Ppu::new_skip_boot_rom();
    let mut ints = Interrupts::new();
    for _ in 0..(144 * 456 / 4 - 1) {
        ppu.clock_4_times(&mut ints);
    }
    assert_eq!(ints.flags & 0x01, 0, "not yet");
    ppu.clock_4_times(&mut ints);
    assert_eq!(ppu.ly, 144);
    assert_eq!(ints.flags & 0x01, 0x01, "VBlank requested on entry");
}

#[test]
fn lyc_coincidence_raises_stat_once() {
    let mut ppu = Ppu::new_skip_boot_rom();
    let mut ints = Interrupts::new();
    ppu.write_register(0xFF45, 5); // LYC
    ppu.write_register(0xFF41, 0x40); // enable the LYC=LY source
    for _ in 0..(5 * 456 / 4) {
        ppu.clock_4_times(&mut ints);
    }
    assert_eq!(ppu.ly, 5);
    assert_eq!(ints.flags & 0x02, 0x02, "STAT requested at the coincidence");
    ints.flags = 0;
    // Level stays high through the line: no second edge, no new request.
    for _ in 0..10 {
        ppu.clock_4_times(&mut ints);
    }
    assert_eq!(ints.flags & 0x02, 0, "source blocking: edge fired once");
}

#[test]
fn stat_register_reports_mode_and_coincidence() {
    let mut ppu = Ppu::new_skip_boot_rom();
    let mut ints = Interrupts::new();
    ppu.write_register(0xFF45, 0);
    // Line 0, dot 0: OAM scan, and LY == LYC.
    assert_eq!(ppu.read_register(0xFF41), 0x80 | 0x04 | 2);
    for _ in 0..(80 / 4) {
        ppu.clock_4_times(&mut ints);
    }
    assert_eq!(ppu.read_register(0xFF41) & 0x03, 3, "drawing after the OAM scan");
    for _ in 0..((252 - 80) / 4) {
        ppu.clock_4_times(&mut ints);
    }
    assert_eq!(ppu.read_register(0xFF41) & 0x03, 0, "HBlank pads the line");
}

#[test]
fn oam_and_vram_blocked_by_mode() {
    let mut ppu = Ppu::new_skip_boot_rom();
    let mut ints = Interrupts::new();
    // Mode 2: OAM blocked, VRAM open.
    ppu.write_oam(0xFE00, 0x12);
    assert_eq!(ppu.read_oam(0xFE00), 0xFF);
    ppu.write_vram(0x8000, 0x34);
    assert_eq!(ppu.read_vram(0x8000), 0x34);
    // Mode 3: both blocked.
    for _ in 0..(80 / 4) {
        ppu.clock_4_times(&mut ints);
    }
    ppu.write_vram(0x8001, 0x56);
    assert_eq!(ppu.read_vram(0x8001), 0xFF);
    assert_eq!(ppu.read_oam(0xFE00), 0xFF);
    // Mode 0: both open; the mode-3 write was dropped.
    for _ in 0..((252 - 80) / 4) {
        ppu.clock_4_times(&mut ints);
    }
    assert_eq!(ppu.read_vram(0x8001), 0x00);
    ppu.write_oam(0xFE00, 0x12);
    assert_eq!(ppu.read_oam(0xFE00), 0x12);
}

#[test]
fn lcd_off_freezes_the_counters() {
    let mut ppu = Ppu::new_skip_boot_rom();
    let mut ints = Interrupts::new();
    for _ in 0..100 {
        ppu.clock_4_times(&mut ints);
    }
    ppu.write_register(0xFF40, 0x11); // LCD off
    assert_eq!(ppu.ly, 0);
    assert_eq!(ppu.dot, 0);
    for _ in 0..100 {
        ppu.clock_4_times(&mut ints);
    }
    assert_eq!(ppu.ly, 0);
    assert_eq!(ppu.dot, 0);
}

#[test]
fn background_tile_renders_through_the_palette() {
    let mut ppu = Ppu::new_skip_boot_rom();
    let mut ints = Interrupts::new();
    // Identity palette, scroll 0. Tile 1 solid color 3; tile map entry 0
    // of the background names tile 1.
    ppu.write_register(0xFF47, 0xE4);
    for row in 0..8u16 {
        ppu.write_vram(0x8010 + row * 2, 0xFF);
        ppu.write_vram(0x8010 + row * 2 + 1, 0xFF);
    }
    ppu.write_vram(0x9800, 1);
    // Render line 0 by running it to the end of mode 3.
    for _ in 0..(252 / 4) {
        ppu.clock_4_times(&mut ints);
    }
    let fb = ppu.screen_buffer();
    for x in 0..8 {
        assert_eq!(fb[x], 3, "tile pixels resolve to shade 3 at x={x}");
    }
    for x in 8..16 {
        assert_eq!(fb[x], 0, "tile 0 is blank");
    }
}

#[test]
fn sprite_renders_over_blank_background() {
    let mut ppu = Ppu::new_skip_boot_rom();
    let mut ints = Interrupts::new();
    ppu.write_register(0xFF40, 0x93); // LCD on, background and sprites on
    ppu.write_register(0xFF47, 0xE4);
    ppu.write_register(0xFF48, 0xE4);
    // Sprite tile 2: solid color 2 (high plane only).
    for row in 0..8u16 {
        ppu.write_vram(0x8020 + row * 2 + 1, 0xFF);
    }
    // Sprite 0 at screen (10, 0): OAM y = 16, x = 18, tile 2. Written
    // through the DMA port, which no mode ever blocks.
    ppu.write_oam_dma(0xFE00, 16);
    ppu.write_oam_dma(0xFE01, 18);
    ppu.write_oam_dma(0xFE02, 2);
    for _ in 0..(252 / 4) {
        ppu.clock_4_times(&mut ints);
    }
    let fb = ppu.screen_buffer();
    assert_eq!(fb[9], 0);
    for x in 10..18 {
        assert_eq!(fb[x], 2, "sprite pixel at x={x}");
    }
    assert_eq!(fb[18], 0);
}

#[test]
fn window_supersedes_background_from_its_start_column() {
    let mut ppu = Ppu::new_skip_boot_rom();
    let mut ints = Interrupts::new();
    // LCD on, window on with its own tile map, 0x8000 tile data, bg on.
    ppu.write_register(0xFF40, 0xF1);
    ppu.write_register(0xFF47, 0xE4);
    ppu.write_register(0xFF4A, 0); // WY: window from line 0
    ppu.write_register(0xFF4B, 27); // WX: window from column 20
    // Tile 1 solid color 3; the window map names it everywhere.
    for row in 0..8u16 {
        ppu.write_vram(0x8010 + row * 2, 0xFF);
        ppu.write_vram(0x8010 + row * 2 + 1, 0xFF);
    }
    for col in 0..32u16 {
        ppu.write_vram(0x9C00 + col, 1);
    }
    for _ in 0..(252 / 4) {
        ppu.clock_4_times(&mut ints);
    }
    let fb = ppu.screen_buffer();
    for x in 0..20 {
        assert_eq!(fb[x], 0, "background before the window at x={x}");
    }
    for x in 20..160 {
        assert_eq!(fb[x], 3, "window tile from x={x}");
    }
}

#[test]
fn oam_scan_selects_at_most_ten_sprites_in_order() {
    let mut ppu = Ppu::new_skip_boot_rom();
    let mut ints = Interrupts::new();
    // Twelve sprites all covering line 0.
    for i in 0..12u16 {
        ppu.write_oam_dma(0xFE00 + i * 4, 16);
        ppu.write_oam_dma(0xFE00 + i * 4 + 1, (8 + i) as u8);
    }
    for _ in 0..(80 / 4) {
        ppu.clock_4_times(&mut ints);
    }
    assert_eq!(ppu.selected_sprites.len(), 10, "hard limit of 10 per line");
    for (j, idx) in ppu.selected_sprites.iter().enumerate() {
        assert_eq!(*idx as usize, j, "OAM order preserved");
    }
}
