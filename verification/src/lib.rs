//! Core of a cycle-accurate Game Boy (DMG) emulator.
//!
//! The `Bus` owns every peripheral and advances all of them by one machine
//! cycle on each CPU bus transaction, which produces the hardware-faithful
//! interleaving of CPU, PPU, APU, timer, DMA, joypad and serial port.

pub mod alu;
pub mod apu;
pub mod bus;
pub mod cartridge;
pub mod cpu;
pub mod envelope;
pub mod fifo;
pub mod gameboy;
pub mod interrupts;
pub mod joypad;
pub mod length_counter;
pub mod mapper;
pub mod noise;
pub mod ppu;
pub mod pulse;
pub mod serial;
pub mod sprite;
pub mod timer;
pub mod wave;
