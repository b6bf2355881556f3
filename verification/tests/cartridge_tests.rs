//! Cartridge header validation and SRAM behavior.

use gb_emu_core::cartridge::{BatteryError, Cartridge, CartridgeError};

fn make_rom(type_code: u8, rom_code: u8, ram_code: u8) -> Vec<u8> {
    let mut rom = vec![0u8; 0x8000];
    rom[0x147] = type_code;
    rom[0x148] = rom_code;
    rom[0x149] = ram_code;
    let mut x: u8 = 0;
    for i in 0x134..0x14D {
        x = x.wrapping_sub(rom[i]).wrapping_sub(1);
    }
    rom[0x14D] = x;
    rom
}

#[test]
fn plain_rom_parses() {
    let cart = Cartridge::from_bytes(make_rom(0x00, 0, 0)).unwrap();
    assert_eq!(cart.rom.len(), 0x8000);
    assert_eq!(cart.sram.len(), 0);
}

#[test]
fn rom_with_ram_gets_sized_sram() {
    let cart = Cartridge::from_bytes(make_rom(0x08, 0, 1)).unwrap();
    assert_eq!(cart.sram.len(), 0x800);
    let cart = Cartridge::from_bytes(make_rom(0x09, 0, 2)).unwrap();
    assert_eq!(cart.sram.len(), 0x2000);
}

#[test]
fn short_image_is_rejected() {
    let r = Cartridge::from_bytes(vec![0u8; 0x100]);
    assert_eq!(r.err(), Some(CartridgeError::RomTooShort));
}

#[test]
fn wrong_length_image_is_rejected() {
    let mut rom = make_rom(0x00, 0, 0);
    rom.push(0);
    let r = Cartridge::from_bytes(rom);
    assert_eq!(r.err(), Some(CartridgeError::RomTooShort));
}

#[test]
fn bad_checksum_is_rejected() {
    let mut rom = make_rom(0x00, 0, 0);
    rom[0x14D] = rom[0x14D].wrapping_add(1);
    let r = Cartridge::from_bytes(rom);
    assert_eq!(r.err(), Some(CartridgeError::HeaderChecksumMismatch));
}

#[test]
fn banked_mapper_type_is_rejected() {
    // 0x01 names MBC1, which this library does not serve.
    let r = Cartridge::from_bytes(make_rom(0x01, 0, 0));
    assert_eq!(r.err(), Some(CartridgeError::UnsupportedMapper));
}

#[test]
fn banked_rom_size_is_rejected() {
    let r = Cartridge::from_bytes(make_rom(0x00, 1, 0));
    assert_eq!(r.err(), Some(CartridgeError::UnsupportedMapper));
}

#[test]
fn oversized_ram_code_is_rejected() {
    let r = Cartridge::from_bytes(make_rom(0x08, 0, 3));
    assert_eq!(r.err(), Some(CartridgeError::RamSizeMismatch));
}

#[test]
fn rom_reads_are_identity_mapped() {
    let mut rom = make_rom(0x00, 0, 0);
    rom[0x0000] = 0x11;
    rom[0x3FFF] = 0x22;
    rom[0x4000] = 0x33;
    rom[0x7FFF] = 0x44;
    let cart = Cartridge::from_bytes(rom).unwrap();
    assert_eq!(cart.read_rom0(0x0000), 0x11);
    assert_eq!(cart.read_rom0(0x3FFF), 0x22);
    assert_eq!(cart.read_romx(0x4000), 0x33);
    assert_eq!(cart.read_romx(0x7FFF), 0x44);
}

#[test]
fn sram_round_trips_and_mirrors() {
    let mut cart = Cartridge::from_bytes(make_rom(0x08, 0, 1)).unwrap();
    cart.write_ram(0xA000, 0xAB);
    assert_eq!(cart.read_ram(0xA000), 0xAB);
    // 2 KiB SRAM repeats through the 8 KiB window.
    assert_eq!(cart.read_ram(0xA800), 0xAB);
}

#[test]
fn missing_sram_reads_ff_and_drops_writes() {
    let mut cart = Cartridge::from_bytes(make_rom(0x00, 0, 0)).unwrap();
    cart.write_ram(0xA000, 0xAB);
    assert_eq!(cart.read_ram(0xA000), 0xFF);
}

#[test]
fn battery_save_and_load_round_trip() {
    let mut cart = Cartridge::from_bytes(make_rom(0x09, 0, 2)).unwrap();
    cart.write_ram(0xA000, 0x12);
    cart.write_ram(0xBFFF, 0x34);
    let image = cart.save_battery();
    assert_eq!(image.len(), 0x2000);
    let mut fresh = Cartridge::from_bytes(make_rom(0x09, 0, 2)).unwrap();
    assert_eq!(fresh.load_battery(&image), Ok(()));
    assert_eq!(fresh.read_ram(0xA000), 0x12);
    assert_eq!(fresh.read_ram(0xBFFF), 0x34);
}

#[test]
fn battery_image_of_wrong_size_is_rejected() {
    let mut cart = Cartridge::from_bytes(make_rom(0x09, 0, 2)).unwrap();
    let image = vec![0u8; 0x800];
    assert_eq!(cart.load_battery(&image), Err(BatteryError::SizeMismatch));
}
