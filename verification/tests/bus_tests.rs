//! Bus decode matrix, HRAM round trips, and the DMA transfer with its bus
//! conflict.

use gb_emu_core::bus::Bus;
use gb_emu_core::cartridge::Cartridge;

fn make_rom() -> Vec<u8> {
    let mut rom = vec![0u8; 0x8000];
    rom[0x147] = 0x08;
    rom[0x149] = 0x02;
    let mut x: u8 = 0;
    for i in 0x134..0x14D {
        x = x.wrapping_sub(rom[i]).wrapping_sub(1);
    }
    rom[0x14D] = x;
    rom
}

fn make_bus() -> Bus {
    let mut rom = make_rom();
    rom[0x0000] = 0xA1;
    rom[0x4000] = 0xB2;
    let cart = Cartridge::from_bytes(rom).unwrap();
    let mut bus = Bus::new_without_boot_rom(cart);
    // Turn the LCD off so OAM and VRAM are never mode-blocked here.
    bus.write(0xFF40, 0x11);
    bus
}

#[test]
fn every_address_reads_something() {
    // Reads are total: walk the whole 16-bit space.
    let mut bus = make_bus();
    let mut a: u32 = 0;
    while a <= 0xFFFF {
        let _ = bus.read(a as u16);
        a += 97; // coprime stride covers varied regions cheaply
    }
    let _ = bus.read(0xFFFF);
}

#[test]
fn hram_round_trips_every_byte() {
    let mut bus = make_bus();
    for i in 0..0x7Fu16 {
        let addr = 0xFF80 + i;
        if addr > 0xFFFE {
            break;
        }
        bus.write(addr, i as u8 ^ 0x5A);
        assert_eq!(bus.read(addr), i as u8 ^ 0x5A);
    }
    // The same through the proved round-trip entry.
    assert_eq!(bus.hram_write_read_round_trip(0xFF90, 0x42), 0x42);
}

#[test]
fn rom_regions_read_from_the_cartridge() {
    let mut bus = make_bus();
    assert_eq!(bus.read(0x0000), 0xA1);
    assert_eq!(bus.read(0x4000), 0xB2);
}

#[test]
fn wram_and_echo_mirror_each_other() {
    let mut bus = make_bus();
    bus.write(0xC123, 0x77);
    assert_eq!(bus.read(0xC123), 0x77);
    assert_eq!(bus.read(0xE123), 0x77, "echo of wram0");
    bus.write(0xF456, 0x88);
    assert_eq!(bus.read(0xD456), 0x88, "echo write lands in wramx");
}

#[test]
fn unused_region_reads_zero() {
    let mut bus = make_bus();
    bus.write(0xFEA0, 0x99);
    assert_eq!(bus.read(0xFEA0), 0);
    assert_eq!(bus.read(0xFEFF), 0);
}

#[test]
fn interrupt_latches_read_back() {
    let mut bus = make_bus();
    bus.write(0xFFFF, 0x15);
    assert_eq!(bus.read(0xFFFF), 0x15);
    bus.write(0xFF0F, 0xFF);
    assert_eq!(bus.read(0xFF0F), 0xE0 | 0x1F, "IF: unused bits read 1");
    bus.write(0xFF0F, 0x00);
    assert_eq!(bus.read(0xFF0F), 0xE0);
}

#[test]
fn vram_and_oam_accessible_with_lcd_off() {
    let mut bus = make_bus();
    bus.write(0x8000, 0x3C);
    assert_eq!(bus.read(0x8000), 0x3C);
    bus.write(0xFE00, 40);
    assert_eq!(bus.read(0xFE00), 40);
}

#[test]
fn wram_bank_register_round_trips() {
    let mut bus = make_bus();
    assert_eq!(bus.read(0xFF70), 1, "DMG default bank");
    bus.write(0xFF70, 0xFF);
    assert_eq!(bus.read(0xFF70), 3, "two bits stored");
}

#[test]
fn boot_rom_overlays_until_disabled() {
    let mut boot = vec![0u8; 0x900];
    boot[0x0000] = 0xEE;
    boot[0x0200] = 0xDD;
    let cart = Cartridge::from_bytes(make_rom()).unwrap();
    let mut bus = Bus::new_with_boot_rom(cart, boot);
    assert_eq!(bus.read(0x0000), 0xEE);
    assert_eq!(bus.read(0x0200), 0xDD);
    assert_eq!(bus.read(0x0100), 0x00, "header gap bypasses the boot ROM");
    assert_eq!(bus.read(0xFF50), 0xFF);
    bus.write(0xFF50, 0x01);
    // Disabled permanently: the cartridge shows through.
    assert_eq!(bus.read(0x0000), 0x00);
}

#[test]
fn dma_copies_exactly_160_bytes_to_oam() {
    let mut bus = make_bus();
    for i in 0..160u16 {
        bus.write(0xC000 + i, (i as u8).wrapping_mul(3).wrapping_add(7));
    }
    bus.write(0xFF46, 0xC0);
    assert_eq!(bus.read(0xFF46), 0xC0, "DMA register reads back the page");
    // The transfer runs one byte per machine cycle; idle long enough.
    for _ in 0..200 {
        let _ = bus.read(0x0000);
    }
    assert!(!bus.dma.in_transfer);
    for i in 0..160u16 {
        assert_eq!(
            bus.read(0xFE00 + i),
            (i as u8).wrapping_mul(3).wrapping_add(7),
            "OAM byte {i}"
        );
    }
}

#[test]
fn dma_conflict_returns_last_transferred_byte() {
    // A write of 0xC0 to 0xFF46 while the CPU keeps reading 0xC000: each
    // read must return the most recent DMA-sampled byte, not the WRAM byte
    // under the address.
    let mut bus = make_bus();
    for i in 0..160u16 {
        bus.write(0xC000 + i, 100u8.wrapping_add(i as u8));
    }
    bus.write(0xFF46, 0xC0); // tick: start delay 2 -> 1
    // Delay not elapsed yet: the external bus still serves WRAM.
    assert_eq!(bus.read(0xC000), 100); // tick: delay 1 -> 0, bus locks
    // Locked, but no byte copied yet: the latch still holds its reset value.
    assert_eq!(bus.read(0xC000), 0); // tick: byte 0 copied
    for k in 0..159u16 {
        // Each read now sees the byte DMA moved on the previous cycle.
        assert_eq!(bus.read(0xC000), 100u8.wrapping_add(k as u8), "read {k}");
    }
    // The tick of the last read above moved byte 159 and ended the
    // transfer, so the bus unlocks and WRAM shows through again.
    assert_eq!(bus.read(0xC000), 100);
    assert!(!bus.dma.in_transfer);
}

#[test]
fn dma_conflict_blocks_writes_to_the_locked_bus() {
    let mut bus = make_bus();
    bus.write(0xC000, 0x55);
    bus.write(0xFF46, 0xC0);
    let _ = bus.read(0xFF80); // HRAM read; tick locks the external bus
    bus.write(0xC050, 0x99); // dropped: external bus is locked
    for _ in 0..200 {
        let _ = bus.read(0xFF80);
    }
    assert_eq!(bus.read(0xC050), 0, "write during conflict was dropped");
}

#[test]
fn hram_stays_reachable_during_dma() {
    // This is why DMA routines run from HRAM on real hardware.
    let mut bus = make_bus();
    bus.write(0xFF85, 0x5A);
    bus.write(0xFF46, 0xC0);
    let _ = bus.read(0xFF80);
    let _ = bus.read(0xFF80);
    assert_eq!(bus.read(0xFF85), 0x5A);
    bus.write(0xFFFF, 0x1F);
    assert_eq!(bus.read(0xFFFF), 0x1F, "IE stays reachable too");
}

#[test]
fn oam_reads_ff_during_dma() {
    let mut bus = make_bus();
    bus.write(0xFE00, 0x12);
    bus.write(0xFF46, 0xC0);
    let _ = bus.read(0xFF80);
    let _ = bus.read(0xFF80);
    assert_eq!(bus.read(0xFE00), 0xFF);
}

#[test]
fn elapsed_cycles_count_bus_operations() {
    let mut bus = make_bus();
    let _ = bus.elapsed_cpu_cycles();
    let _ = bus.read(0x0000);
    let _ = bus.read(0x0000);
    bus.write(0xC000, 1);
    assert_eq!(bus.elapsed_cpu_cycles(), 3);
    assert_eq!(bus.elapsed_cpu_cycles(), 0);
}

#[test]
fn take_next_interrupt_acknowledges_highest_priority() {
    let mut bus = make_bus();
    bus.write(0xFFFF, 0x1F);
    bus.write(0xFF0F, 0x0A); // LcdStat and Serial requested
    let first = bus.take_next_interrupt();
    assert_eq!(
        first,
        Some(gb_emu_core::interrupts::InterruptType::LcdStat),
        "lowest bit first"
    );
    assert!(bus.check_interrupts(), "serial still pending");
    let second = bus.take_next_interrupt();
    assert_eq!(second, Some(gb_emu_core::interrupts::InterruptType::Serial));
    assert_eq!(bus.take_next_interrupt(), None);
}

#[test]
fn wram_bank_register_never_rebanks_on_dmg() {
    // 0xFF70 is a CGB banking facility: on this DMG core the register reads
    // back, but the switched region keeps serving bank 1.
    let mut bus = make_bus();
    bus.write(0xD123, 0x42);
    bus.write(0xFF70, 0x02);
    assert_eq!(bus.read(0xFF70), 2, "register stored for read-back");
    assert_eq!(bus.read(0xD123), 0x42, "still bank 1");
    bus.write(0xFF70, 0x00);
    assert_eq!(bus.read(0xD123), 0x42, "a written 0 changes nothing either");
}
