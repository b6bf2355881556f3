//! CPU programs run end to end through the assembled system: loads,
//! arithmetic, stack, control flow, HRAM routines, HALT and interrupts.

use gb_emu_core::gameboy::GameBoy;
use gb_emu_core::cartridge::Cartridge;

/// A valid 32 KiB image whose entry point jumps to the program at 0x150.
fn make_gb(program: &[u8]) -> GameBoy {
    let mut rom = vec![0u8; 0x8000];
    rom[0x100] = 0xC3; // JP 0x0150
    rom[0x101] = 0x50;
    rom[0x102] = 0x01;
    rom[0x150..0x150 + program.len()].copy_from_slice(program);
    let mut x: u8 = 0;
    for i in 0x134..0x14D {
        x = x.wrapping_sub(rom[i]).wrapping_sub(1);
    }
    rom[0x14D] = x;
    let cart = Cartridge::from_bytes(rom).unwrap();
    GameBoy::new_without_boot_rom(cart)
}

#[test]
fn immediate_arithmetic_sets_flags() {
    let mut gb = make_gb(&[
        0x3E, 0x05, // LD A,5
        0xC6, 0x03, // ADD A,3
        0x3E, 0x0F, // LD A,0x0F
        0xC6, 0x01, // ADD A,1 -> half carry
        0x3E, 0xFF, // LD A,0xFF
        0xC6, 0x01, // ADD A,1 -> zero + carry + half
    ]);
    gb.step(); // the entry JP
    gb.step();
    gb.step();
    assert_eq!(gb.cpu.a, 8);
    assert_eq!(gb.cpu.f, 0x00);
    gb.step();
    gb.step();
    assert_eq!(gb.cpu.a, 0x10);
    assert_eq!(gb.cpu.f, 0x20, "half carry at bit 3");
    gb.step();
    gb.step();
    assert_eq!(gb.cpu.a, 0x00);
    assert_eq!(gb.cpu.f, 0x80 | 0x20 | 0x10);
}

#[test]
fn register_loads_and_alu_on_registers() {
    let mut gb = make_gb(&[
        0x06, 0x22, // LD B,0x22
        0x78, // LD A,B
        0x0E, 0x11, // LD C,0x11
        0x91, // SUB A,C
        0xB9, // CP C -> equal: Z set
    ]);
    for _ in 0..6 {
        gb.step();
    }
    assert_eq!(gb.cpu.a, 0x11);
    assert_eq!(gb.cpu.f & 0x80, 0x80, "CP of equal values sets Z");
    assert_eq!(gb.cpu.f & 0x40, 0x40, "CP sets N");
}

#[test]
fn stack_push_pop_round_trips() {
    let mut gb = make_gb(&[
        0x31, 0xFE, 0xFF, // LD SP,0xFFFE
        0x01, 0x34, 0x12, // LD BC,0x1234
        0xC5, // PUSH BC
        0xD1, // POP DE
    ]);
    for _ in 0..5 {
        gb.step();
    }
    assert_eq!(gb.cpu.d, 0x12);
    assert_eq!(gb.cpu.e, 0x34);
    assert_eq!(gb.cpu.sp, 0xFFFE);
}

#[test]
fn pop_af_keeps_flag_low_nibble_zero() {
    let mut gb = make_gb(&[
        0x31, 0xFE, 0xFF, // LD SP,0xFFFE
        0x01, 0xFF, 0x12, // LD BC,0x12FF
        0xC5, // PUSH BC
        0xF1, // POP AF
    ]);
    for _ in 0..5 {
        gb.step();
    }
    assert_eq!(gb.cpu.a, 0x12);
    assert_eq!(gb.cpu.f, 0xF0, "low nibble of F always zero");
}

#[test]
fn call_and_ret_link_through_the_stack() {
    let mut gb = make_gb(&[
        0x31, 0xFE, 0xFF, // 0x150: LD SP,0xFFFE
        0xCD, 0x60, 0x01, // 0x153: CALL 0x0160
        0x06, 0x77, // 0x156: LD B,0x77
        0x00, 0x00, 0x00, 0x00, 0x00, 0x00, 0x00, 0x00, // pad to 0x160
        0x3E, 0x42, // 0x160: LD A,0x42
        0xC9, // RET
    ]);
    for _ in 0..6 {
        gb.step();
    }
    assert_eq!(gb.cpu.a, 0x42, "subroutine ran");
    assert_eq!(gb.cpu.b, 0x77, "returned to the call site");
    assert_eq!(gb.cpu.sp, 0xFFFE);
}

#[test]
fn conditional_relative_jump_loops() {
    let mut gb = make_gb(&[
        0x06, 0x03, // LD B,3
        0x05, // loop: DEC B
        0x20, 0xFD, // JR NZ,loop
        0x3E, 0x99, // LD A,0x99
    ]);
    for _ in 0..9 {
        gb.step();
    }
    assert_eq!(gb.cpu.b, 0);
    assert_eq!(gb.cpu.a, 0x99);
}

#[test]
fn hl_memory_operand_reads_and_writes_wram() {
    let mut gb = make_gb(&[
        0x21, 0x00, 0xC0, // LD HL,0xC000
        0x36, 0x5A, // LD (HL),0x5A
        0x7E, // LD A,(HL)
        0x34, // INC (HL)
    ]);
    for _ in 0..5 {
        gb.step();
    }
    assert_eq!(gb.cpu.a, 0x5A);
    assert_eq!(gb.bus.read(0xC000), 0x5B);
}

#[test]
fn high_page_loads_reach_hram() {
    let mut gb = make_gb(&[
        0x3E, 0xA7, // LD A,0xA7
        0xE0, 0x85, // LDH (0x85),A
        0x3E, 0x00, // LD A,0
        0xF0, 0x85, // LDH A,(0x85)
    ]);
    for _ in 0..5 {
        gb.step();
    }
    assert_eq!(gb.cpu.a, 0xA7);
}

#[test]
fn cb_prefixed_bit_operations() {
    let mut gb = make_gb(&[
        0x06, 0x81, // LD B,0x81
        0xCB, 0x00, // RLC B -> 0x03, carry
        0xCB, 0x40, // BIT 0,B -> set: Z clear
        0xCB, 0x80, // RES 0,B -> 0x02
        0xCB, 0xF8, // SET 7,B -> 0x82
        0xCB, 0x30, // SWAP B -> 0x28
    ]);
    gb.step();
    gb.step();
    gb.step();
    assert_eq!(gb.cpu.b, 0x03);
    assert_eq!(gb.cpu.f & 0x10, 0x10);
    gb.step();
    assert_eq!(gb.cpu.f & 0x80, 0, "bit 0 is set, so Z clear");
    gb.step();
    assert_eq!(gb.cpu.b, 0x02);
    gb.step();
    assert_eq!(gb.cpu.b, 0x82);
    gb.step();
    assert_eq!(gb.cpu.b, 0x28);
}

#[test]
fn sixteen_bit_increments_and_add_hl() {
    let mut gb = make_gb(&[
        0x21, 0xFF, 0x0F, // LD HL,0x0FFF
        0x01, 0x01, 0x00, // LD BC,1
        0x09, // ADD HL,BC -> 0x1000, H set
        0x23, // INC HL -> 0x1001
    ]);
    for _ in 0..5 {
        gb.step();
    }
    assert_eq!(gb.cpu.h, 0x10);
    assert_eq!(gb.cpu.l, 0x01);
    assert_eq!(gb.cpu.f & 0x20, 0x20, "half carry at bit 11");
}

#[test]
fn ei_takes_effect_after_the_following_instruction() {
    let mut gb = make_gb(&[
        0xFB, // EI
        0x00, // NOP
        0x00, // NOP
    ]);
    gb.step(); // JP
    gb.step(); // EI
    assert!(!gb.cpu.ime, "not yet");
    gb.step(); // NOP, after which IME turns on
    assert!(gb.cpu.ime);
}

#[test]
fn halt_wakes_and_services_vblank_interrupt() {
    let mut gb = make_gb(&[
        0x31, 0xFE, 0xFF, // LD SP,0xFFFE
        0x3E, 0x01, // LD A,1
        0xE0, 0xFF, // LDH (0xFF),A: IE = VBlank
        0xFB, // EI
        0x76, // HALT
        0x00, // NOP (after the handler returns)
        0x18, 0xFE, // JR -2: park
    ]);
    // The VBlank handler at 0x40 tags A and returns.
    {
        let mut rom = vec![0u8; 0x8000];
        rom[0x100] = 0xC3;
        rom[0x101] = 0x50;
        rom[0x102] = 0x01;
        rom[0x40] = 0x3E; // LD A,0x99
        rom[0x41] = 0x99;
        rom[0x42] = 0xD9; // RETI
        rom[0x150..0x15B].copy_from_slice(&[
            0x31, 0xFE, 0xFF, 0x3E, 0x01, 0xE0, 0xFF, 0xFB, 0x76, 0x00, 0x18,
        ]);
        rom[0x15B] = 0xFE;
        let mut x: u8 = 0;
        for i in 0x134..0x14D {
            x = x.wrapping_sub(rom[i]).wrapping_sub(1);
        }
        rom[0x14D] = x;
        let cart = Cartridge::from_bytes(rom).unwrap();
        gb = GameBoy::new_without_boot_rom(cart);
    }
    // Run to VBlank: the CPU halts, wakes on the interrupt, services it.
    assert!(gb.clock_for_frame(), "reached the VBlank boundary");
    for _ in 0..10 {
        gb.step();
    }
    assert_eq!(gb.cpu.a, 0x99, "VBlank handler ran");
    assert!(gb.cpu.ime, "RETI re-enabled interrupts");
}

#[test]
fn frames_render_and_repeat() {
    let mut gb = make_gb(&[0x18, 0xFE]); // JR -2: spin forever
    assert!(gb.clock_for_frame());
    assert_eq!(gb.bus.ppu.ly, 144, "stopped at the VBlank boundary");
    let frame = gb.screen_buffer().clone();
    assert_eq!(frame.len(), 160 * 144);
    assert!(frame.iter().all(|&p| p < 4));
    assert!(gb.clock_for_frame());
    assert_eq!(gb.bus.ppu.ly, 144);
}

#[test]
fn daa_after_bcd_addition_in_program() {
    let mut gb = make_gb(&[
        0x3E, 0x19, // LD A,0x19
        0xC6, 0x28, // ADD A,0x28
        0x27, // DAA -> 0x47
    ]);
    for _ in 0..4 {
        gb.step();
    }
    assert_eq!(gb.cpu.a, 0x47);
}

#[test]
fn stack_pointer_arithmetic_and_store() {
    let mut gb = make_gb(&[
        0x31, 0xF0, 0xFF, // LD SP,0xFFF0
        0xE8, 0xF0, // ADD SP,-16
        0xF8, 0x10, // LD HL,SP+16
        0x08, 0x00, 0xC0, // LD (0xC000),SP
    ]);
    for _ in 0..3 {
        gb.step();
    }
    assert_eq!(gb.cpu.sp, 0xFFE0);
    gb.step();
    assert_eq!(gb.cpu.hl(), 0xFFF0);
    gb.step();
    assert_eq!(gb.bus.read(0xC000), 0xE0, "SP low byte first");
    assert_eq!(gb.bus.read(0xC001), 0xFF);
}

#[test]
fn jp_hl_and_rst_reach_their_targets() {
    let mut rom = vec![0u8; 0x8000];
    rom[0x100] = 0xC3;
    rom[0x101] = 0x50;
    rom[0x102] = 0x01;
    // RST 0x10 handler: LD B,0x44; RET.
    rom[0x10] = 0x06;
    rom[0x11] = 0x44;
    rom[0x12] = 0xC9;
    rom[0x150..0x158].copy_from_slice(&[
        0x31, 0xFE, 0xFF, // LD SP,0xFFFE
        0xD7, // RST 0x10
        0x21, 0x60, 0x01, // LD HL,0x0160
        0xE9, // JP HL
    ]);
    rom[0x160] = 0x3E; // LD A,0x55
    rom[0x161] = 0x55;
    let mut x: u8 = 0;
    for i in 0x134..0x14D {
        x = x.wrapping_sub(rom[i]).wrapping_sub(1);
    }
    rom[0x14D] = x;
    let cart = Cartridge::from_bytes(rom).unwrap();
    let mut gb = GameBoy::new_without_boot_rom(cart);
    for _ in 0..8 {
        gb.step();
    }
    assert_eq!(gb.cpu.b, 0x44, "RST handler ran and returned");
    assert_eq!(gb.cpu.a, 0x55, "JP HL landed");
}

#[test]
fn rotate_a_clears_zero_flag() {
    let mut gb = make_gb(&[
        0x3E, 0x80, // LD A,0x80
        0x07, // RLCA -> 0x01, carry
        0x3E, 0x00, // LD A,0
        0x07, // RLCA of zero: Z stays clear
    ]);
    for _ in 0..3 {
        gb.step();
    }
    assert_eq!(gb.cpu.a, 0x01);
    assert_eq!(gb.cpu.f, 0x10);
    gb.step();
    gb.step();
    assert_eq!(gb.cpu.a, 0x00);
    assert_eq!(gb.cpu.f, 0x00, "RLCA never sets Z");
}
