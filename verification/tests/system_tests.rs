//! Serial port, joypad, HALT behavior (bug included), STOP, and the
//! battery-save path through the assembled system.

use gb_emu_core::cartridge::Cartridge;
use gb_emu_core::gameboy::GameBoy;
use gb_emu_core::interrupts::Interrupts;
use gb_emu_core::joypad::{Joypad, JoypadButton};
use gb_emu_core::serial::Serial;

fn make_rom_with_ram(program: &[u8]) -> Vec<u8> {
    let mut rom = vec![0u8; 0x8000];
    rom[0x100] = 0xC3;
    rom[0x101] = 0x50;
    rom[0x102] = 0x01;
    rom[0x147] = 0x09;
    rom[0x149] = 0x02;
    rom[0x150..0x150 + program.len()].copy_from_slice(program);
    let mut x: u8 = 0;
    for i in 0x134..0x14D {
        x = x.wrapping_sub(rom[i]).wrapping_sub(1);
    }
    rom[0x14D] = x;
    rom
}

fn make_gb(program: &[u8]) -> GameBoy {
    let cart = Cartridge::from_bytes(make_rom_with_ram(program)).unwrap();
    GameBoy::new_without_boot_rom(cart)
}

#[test]
fn serial_transfer_without_partner_shifts_in_ones() {
    let mut serial = Serial::new();
    let mut ints = Interrupts::new();
    serial.write_register(0xFF01, 0x3C);
    serial.write_register(0xFF02, 0x81); // start, internal clock
    assert_eq!(serial.read_register(0xFF02), 0x81 | 0x7E);
    // 8 bits at 128 machine cycles each.
    for _ in 0..(8 * 128 - 1) {
        serial.clock(&mut ints);
    }
    assert_eq!(ints.flags & 0x08, 0, "not done yet");
    serial.clock(&mut ints);
    assert_eq!(serial.read_register(0xFF01), 0xFF, "no partner: all ones");
    assert_eq!(serial.read_register(0xFF02), 0x01 | 0x7E, "transfer bit cleared");
    assert_eq!(ints.flags & 0x08, 0x08, "serial interrupt on completion");
}

#[test]
fn serial_idle_without_start_bit() {
    let mut serial = Serial::new();
    let mut ints = Interrupts::new();
    serial.write_register(0xFF01, 0x42);
    for _ in 0..5000 {
        serial.clock(&mut ints);
    }
    assert_eq!(serial.read_register(0xFF01), 0x42);
    assert_eq!(ints.flags, 0);
}

#[test]
fn joypad_matrix_reads_selected_half() {
    let mut joypad = Joypad::new();
    joypad.press_joypad(JoypadButton::A);
    joypad.press_joypad(JoypadButton::Down);
    // Neither half selected: all lines read high.
    assert_eq!(joypad.read_joypad(), 0xC0 | 0x30 | 0x0F);
    // Action half selected (bit 5 low): A pulls line 0 low.
    joypad.write_joypad(0x10);
    assert_eq!(joypad.read_joypad(), 0xC0 | 0x10 | 0x0E);
    // Direction half selected (bit 4 low): Down pulls line 3 low.
    joypad.write_joypad(0x20);
    assert_eq!(joypad.read_joypad(), 0xC0 | 0x20 | 0x07);
    joypad.release_joypad(JoypadButton::A);
    joypad.write_joypad(0x10);
    assert_eq!(joypad.read_joypad(), 0xC0 | 0x10 | 0x0F);
}

#[test]
fn joypad_press_requests_interrupt_on_selected_line() {
    let mut joypad = Joypad::new();
    let mut ints = Interrupts::new();
    joypad.write_joypad(0x10); // action half selected
    joypad.update_interrupts(&mut ints);
    assert_eq!(ints.flags, 0);
    joypad.press_joypad(JoypadButton::Start);
    joypad.update_interrupts(&mut ints);
    assert_eq!(ints.flags & 0x10, 0x10, "line fell: joypad interrupt");
    ints.flags = 0;
    joypad.update_interrupts(&mut ints);
    assert_eq!(ints.flags, 0, "level held: no second edge");
}

#[test]
fn joypad_reachable_through_the_bus() {
    let mut gb = make_gb(&[0x18, 0xFE]);
    gb.press_button(JoypadButton::B);
    gb.bus.write(0xFF00, 0x10);
    assert_eq!(gb.bus.read(0xFF00), 0xC0 | 0x10 | 0x0D);
    gb.release_button(JoypadButton::B);
    assert_eq!(gb.bus.read(0xFF00), 0xC0 | 0x10 | 0x0F);
}

#[test]
fn halt_bug_replays_the_next_opcode_byte() {
    // With IME off and an interrupt already pending, HALT fails to halt and
    // the following opcode byte is fetched twice: INC A runs twice.
    let mut gb = make_gb(&[
        0x3E, 0x00, // LD A,0
        0x76, // HALT (bug arms: IME off, IF & IE != 0)
        0x3C, // INC A -> executed twice
        0x18, 0xFE, // park
    ]);
    gb.bus.interrupts.enable = 0x01;
    gb.bus.interrupts.flags = 0x01;
    gb.step(); // entry JP
    gb.step(); // LD A,0
    gb.step(); // HALT: arms the bug
    assert!(!gb.cpu.halted, "did not actually halt");
    gb.step(); // INC A at pc, pc not advanced
    assert_eq!(gb.cpu.a, 1);
    gb.step(); // the same INC A again
    assert_eq!(gb.cpu.a, 2, "one instruction byte executed twice");
    gb.step();
    assert_eq!(gb.cpu.a, 2, "then execution moves on");
}

#[test]
fn halt_with_ime_waits_for_the_interrupt() {
    let mut gb = make_gb(&[
        0x3E, 0x00, // LD A,0
        0x76, // HALT with IME on and nothing pending
        0x3C, // INC A (after wake)
        0x18, 0xFE,
    ]);
    gb.cpu.ime = true;
    gb.bus.interrupts.enable = 0x04; // timer only
    gb.step(); // JP
    gb.step(); // LD A,0
    gb.step(); // HALT
    assert!(gb.cpu.halted);
    for _ in 0..50 {
        gb.step();
    }
    assert!(gb.cpu.halted, "still asleep with nothing pending");
    assert_eq!(gb.cpu.a, 0);
    gb.bus.interrupts.flags = 0x04;
    gb.step(); // wakes, services: jumps to 0x50 with IME cleared
    assert!(!gb.cpu.halted);
    assert_eq!(gb.cpu.pc, 0x50, "timer vector");
    assert!(!gb.cpu.ime);
}

#[test]
fn stop_freezes_the_cpu() {
    let mut gb = make_gb(&[
        0x3E, 0x07, // LD A,7
        0x10, 0x00, // STOP (operand byte consumed)
        0x3C, // INC A: never reached
    ]);
    for _ in 0..10 {
        gb.step();
    }
    assert!(gb.cpu.stopped);
    assert_eq!(gb.cpu.a, 7, "no instruction ran past STOP");
}

#[test]
fn battery_save_round_trips_through_the_system() {
    let mut gb = make_gb(&[
        0x21, 0x00, 0xA0, // LD HL,0xA000
        0x36, 0x66, // LD (HL),0x66
        0x18, 0xFE,
    ]);
    for _ in 0..4 {
        gb.step();
    }
    let image = gb.save_battery();
    assert_eq!(image.len(), 0x2000);
    assert_eq!(image[0], 0x66);
    let mut fresh = make_gb(&[0x18, 0xFE]);
    assert!(fresh.load_battery(&image).is_ok());
    assert_eq!(fresh.bus.read(0xA000), 0x66);
}
