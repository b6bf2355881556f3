//! Memory bank controllers: how cartridge addresses map onto ROM and SRAM.

use vstd::prelude::*;

verus! {

/// Rate at which `Mapper::clock` is driven: half the T-cycle clock.
pub const ONE_SECOND_MAPPER_CLOCKS: u32 = 4194304 / 2;

/// The mapper families a cartridge header can name.
#[derive(Clone, Copy, PartialEq, Eq, Structural, Debug)]
pub enum MapperType {
    NoMapper,
    Mbc1 { multicart: bool },
    Mbc2,
    Mbc3 { timer: bool },
    Mbc5 { rumble: bool },
    Mmm01,
    Mbc6,
    Mbc7,
}

/// Where a cartridge RAM access lands: an index into SRAM, a value the
/// mapper itself supplies, or nothing (reads yield 0xFF, writes are dropped).
#[derive(Clone, Copy, PartialEq, Eq, Structural, Debug)]
pub enum MappingResult {
    Addr(usize),
    Value(u8),
    NotMapped,
}

/// The capability set every bank controller implements. The spec functions
/// pin each mapping decision per implementation, so the bus can reason about
/// cartridge accesses exactly.
pub trait Mapper: Sized {
    /// Internal consistency, established by `init`.
    spec fn spec_wf(&self) -> bool;

    /// Which geometry this mapper accepts at `init`.
    spec fn spec_init_ok(&self, rom_banks: u16, ram_size: usize) -> bool;

    /// ROM byte index served for a 0x0000..0x4000 read.
    spec fn spec_rom0_index(&self, addr: u16) -> usize;

    /// ROM byte index served for a 0x4000..0x8000 read.
    spec fn spec_romx_index(&self, addr: u16) -> usize;

    /// Where a 0xA000..0xC000 read lands.
    spec fn spec_ram_read(&self, addr: u16) -> MappingResult;

    /// Where a 0xA000..0xC000 write lands.
    spec fn spec_ram_write(&self, addr: u16, data: u8) -> MappingResult;

    /// How many SRAM bytes the mapper addresses.
    spec fn spec_ram_size(&self) -> usize;

    fn init(&mut self, rom_banks: u16, ram_size: usize)
        requires
            old(self).spec_init_ok(rom_banks, ram_size),
        ensures
            final(self).spec_wf(),
            final(self).spec_ram_size() == ram_size,
    ;

    fn map_read_rom0(&self, addr: u16) -> (r: usize)
        requires
            self.spec_wf(),
            addr < 0x4000,
        ensures
            r == self.spec_rom0_index(addr),
    ;

    fn map_read_romx(&self, addr: u16) -> (r: usize)
        requires
            self.spec_wf(),
            0x4000 <= addr < 0x8000,
        ensures
            r == self.spec_romx_index(addr),
    ;

    fn map_ram_read(&mut self, addr: u16) -> (r: MappingResult)
        requires
            old(self).spec_wf(),
            0xA000 <= addr < 0xC000,
        ensures
            *final(self) == *old(self),
            r == old(self).spec_ram_read(addr),
    ;

    fn map_ram_write(&mut self, addr: u16, data: u8) -> (r: MappingResult)
        requires
            old(self).spec_wf(),
            0xA000 <= addr < 0xC000,
        ensures
            *final(self) == *old(self),
            r == old(self).spec_ram_write(addr, data),
    ;

    /// Writes to 0x0000..0x8000: bank selects, RAM enable latches, mode bits.
    fn write_bank_controller_register(&mut self, addr: u16, data: u8)
        requires
            old(self).spec_wf(),
            addr < 0x8000,
        ensures
            final(self).spec_wf(),
            final(self).spec_ram_size() == old(self).spec_ram_size(),
    ;

    fn save_battery_size(&self) -> usize;

    fn save_battery(&self) -> Vec<u8>;

    fn load_battery(&mut self, data: &Vec<u8>)
        requires
            old(self).spec_wf(),
        ensures
            final(self).spec_wf(),
            final(self).spec_ram_size() == old(self).spec_ram_size(),
    ;

    /// Fixed-rate tick (ONE_SECOND_MAPPER_CLOCKS per second), for mappers
    /// with a real-time clock.
    fn clock(&mut self)
        requires
            old(self).spec_wf(),
        ensures
            final(self).spec_wf(),
            final(self).spec_ram_size() == old(self).spec_ram_size(),
    ;
}

/// The plain 32 KiB cartridge: no banking; the address is the ROM index,
/// and SRAM (when present) is addressed modulo its size.
pub struct NoMapper {
    pub ram_size: usize,
}

impl NoMapper {
    pub fn new() -> (r: NoMapper)
        ensures
            r.ram_size == 0,
            r.spec_wf(),
    {
        NoMapper { ram_size: 0 }
    }
}

impl Mapper for NoMapper {
    open spec fn spec_wf(&self) -> bool {
        self.ram_size <= 0x2000
    }

    /// Only the unbanked 32 KiB geometry (2 ROM banks, at most 8 KiB RAM).
    open spec fn spec_init_ok(&self, rom_banks: u16, ram_size: usize) -> bool {
        rom_banks == 2 && ram_size <= 0x2000
    }

    open spec fn spec_rom0_index(&self, addr: u16) -> usize {
        addr as usize
    }

    open spec fn spec_romx_index(&self, addr: u16) -> usize {
        addr as usize
    }

    open spec fn spec_ram_read(&self, addr: u16) -> MappingResult {
        if self.ram_size == 0 {
            MappingResult::NotMapped
        } else {
            MappingResult::Addr((addr as usize) & (self.ram_size - 1) as usize)
        }
    }

    open spec fn spec_ram_write(&self, addr: u16, data: u8) -> MappingResult {
        self.spec_ram_read(addr)
    }

    open spec fn spec_ram_size(&self) -> usize {
        self.ram_size
    }

    fn init(&mut self, rom_banks: u16, ram_size: usize) {
        self.ram_size = ram_size;
    }

    fn map_read_rom0(&self, addr: u16) -> (r: usize) {
        addr as usize
    }

    fn map_read_romx(&self, addr: u16) -> (r: usize) {
        addr as usize
    }

    fn map_ram_read(&mut self, addr: u16) -> (r: MappingResult) {
        if self.ram_size == 0 {
            MappingResult::NotMapped
        } else {
            MappingResult::Addr((addr as usize) & (self.ram_size - 1))
        }
    }

    fn map_ram_write(&mut self, addr: u16, data: u8) -> (r: MappingResult) {
        if self.ram_size == 0 {
            MappingResult::NotMapped
        } else {
            MappingResult::Addr((addr as usize) & (self.ram_size - 1))
        }
    }

    fn write_bank_controller_register(&mut self, addr: u16, data: u8) {
    }

    fn save_battery_size(&self) -> usize {
        0
    }

    fn save_battery(&self) -> Vec<u8> {
        Vec::new()
    }

    fn load_battery(&mut self, data: &Vec<u8>) {
    }

    fn clock(&mut self) {
    }
}

} // verus!
