//! Cartridge: ROM, optional battery-backed SRAM, and the mapper that
//! decodes accesses, built from a ROM image after its header is validated.

use vstd::prelude::*;

use crate::mapper::Mapper;
use crate::mapper::MapperType;
use crate::mapper::MappingResult;
use crate::mapper::NoMapper;

verus! {

/// Why a ROM image was rejected.
#[derive(Clone, Copy, PartialEq, Eq, Structural, Debug)]
pub enum CartridgeError {
    HeaderChecksumMismatch,
    UnsupportedMapper,
    RomTooShort,
    RamSizeMismatch,
}

/// Why a battery save image was rejected.
#[derive(Clone, Copy, PartialEq, Eq, Structural, Debug)]
pub enum BatteryError {
    SizeMismatch,
    UnknownVersion,
}

/// The header checksum folded over bytes 0x134..0x14D: starting from `acc`,
/// each byte b maps the running value x to x - b - 1, wrapping.
pub open spec fn spec_checksum_from(rom: Seq<u8>, i: int, acc: u8) -> u8
    decreases 0x14D - i,
{
    if i < 0x134 || i >= 0x14D {
        acc
    } else {
        spec_checksum_from(
            rom,
            i + 1,
            vstd::wrapping::u8_specs::wrapping_sub(
                vstd::wrapping::u8_specs::wrapping_sub(acc, rom[i]),
                1,
            ),
        )
    }
}

/// The header checksum of a ROM image, compared against byte 0x14D.
pub open spec fn spec_header_checksum(rom: Seq<u8>) -> u8 {
    spec_checksum_from(rom, 0x134, 0)
}

/// SRAM size for a header RAM-size code 0..3.
pub open spec fn spec_ram_size_of_code(code: u8) -> usize {
    if code == 0 {
        0
    } else if code == 1 {
        0x800
    } else {
        0x2000
    }
}

pub struct Cartridge {
    pub rom: Vec<u8>,
    pub sram: Vec<u8>,
    pub mapper: NoMapper,
    pub mapper_type: MapperType,
}

impl Cartridge {
    pub open spec fn wf(self) -> bool {
        &&& self.rom@.len() == 0x8000
        &&& self.mapper.spec_wf()
        &&& self.mapper.spec_ram_size() == self.sram@.len()
    }

    /// Where a cartridge RAM read lands, resolved to the byte the bus sees:
    /// unmapped accesses read 0xFF.
    pub open spec fn spec_ram_read_value(self, addr: u16) -> u8 {
        match self.mapper.spec_ram_read(addr) {
            MappingResult::Addr(i) => if i < self.sram@.len() {
                self.sram@[i as int]
            } else {
                0xFF
            },
            MappingResult::Value(v) => v,
            MappingResult::NotMapped => 0xFF,
        }
    }

    /// SRAM contents after a cartridge RAM write: unmapped writes are dropped.
    pub open spec fn spec_ram_written(self, addr: u16, data: u8) -> Seq<u8> {
        match self.mapper.spec_ram_write(addr, data) {
            MappingResult::Addr(i) => if i < self.sram@.len() {
                self.sram@.update(i as int, data)
            } else {
                self.sram@
            },
            MappingResult::Value(v) => self.sram@,
            MappingResult::NotMapped => self.sram@,
        }
    }
}

/// A vector of `n` zero bytes.
fn zero_vec(n: usize) -> (v: Vec<u8>)
    ensures
        v@ == Seq::new(n as nat, |i: int| 0u8),
{
    let mut v: Vec<u8> = Vec::new();
    let mut i: usize = 0;
    while i < n
        invariant
            i <= n,
            v@ == Seq::new(i as nat, |j: int| 0u8),
        decreases n - i,
    {
        v.push(0);
        proof {
            assert(v@ =~= Seq::new((i + 1) as nat, |j: int| 0u8));
        }
        i = i + 1;
    }
    v
}

impl Cartridge {
    /// Parse and validate a ROM image. The header checksum must match, the
    /// cartridge type must name a supported mapper (plain ROM, with or
    /// without RAM and battery), the ROM must be the unbanked 32 KiB, and
    /// the RAM size code must be one this mapper can serve.
    pub fn from_bytes(rom: Vec<u8>) -> (r: Result<Cartridge, CartridgeError>)
        ensures
            rom@.len() < 0x150 ==> r == Err::<Cartridge, CartridgeError>(CartridgeError::RomTooShort),
            rom@.len() >= 0x150 && spec_header_checksum(rom@) != rom@[0x14D] ==> r == Err::<
                Cartridge,
                CartridgeError,
            >(CartridgeError::HeaderChecksumMismatch),
            rom@.len() >= 0x150 && spec_header_checksum(rom@) == rom@[0x14D] && !(rom@[0x147] == 0x00
                || rom@[0x147] == 0x08 || rom@[0x147] == 0x09) ==> r == Err::<
                Cartridge,
                CartridgeError,
            >(CartridgeError::UnsupportedMapper),
            rom@.len() >= 0x150 && spec_header_checksum(rom@) == rom@[0x14D] && (rom@[0x147] == 0x00
                || rom@[0x147] == 0x08 || rom@[0x147] == 0x09) && rom@[0x148] != 0 ==> r == Err::<
                Cartridge,
                CartridgeError,
            >(CartridgeError::UnsupportedMapper),
            rom@.len() >= 0x150 && spec_header_checksum(rom@) == rom@[0x14D] && (rom@[0x147] == 0x00
                || rom@[0x147] == 0x08 || rom@[0x147] == 0x09) && rom@[0x148] == 0 && rom@[0x149]
                >= 3 ==> r == Err::<Cartridge, CartridgeError>(CartridgeError::RamSizeMismatch),
            rom@.len() >= 0x150 && spec_header_checksum(rom@) == rom@[0x14D] && (rom@[0x147] == 0x00
                || rom@[0x147] == 0x08 || rom@[0x147] == 0x09) && rom@[0x148] == 0 && rom@[0x149] < 3
                && rom@.len() != 0x8000 ==> r == Err::<Cartridge, CartridgeError>(
                CartridgeError::RomTooShort,
            ),
            rom@.len() == 0x8000 && spec_header_checksum(rom@) == rom@[0x14D] && (rom@[0x147] == 0x00
                || rom@[0x147] == 0x08 || rom@[0x147] == 0x09) && rom@[0x148] == 0 && rom@[0x149] < 3
                ==> ({
                &&& r is Ok
                &&& r->Ok_0.wf()
                &&& r->Ok_0.rom@ == rom@
                &&& r->Ok_0.sram@ == Seq::new(
                    spec_ram_size_of_code(rom@[0x149]) as nat,
                    |i: int| 0u8,
                )
                &&& r->Ok_0.mapper_type == MapperType::NoMapper
            }),
    {
        if rom.len() < 0x150 {
            return Err(CartridgeError::RomTooShort);
        }
        let mut acc: u8 = 0;
        let mut i: usize = 0x134;
        while i < 0x14D
            invariant
                0x134 <= i <= 0x14D,
                rom@.len() >= 0x150,
                spec_checksum_from(rom@, i as int, acc) == spec_header_checksum(rom@),
            decreases 0x14D - i,
        {
            acc = acc.wrapping_sub(rom[i]).wrapping_sub(1);
            i = i + 1;
        }
        if acc != rom[0x14D] {
            return Err(CartridgeError::HeaderChecksumMismatch);
        }
        let type_code: u8 = rom[0x147];
        if !(type_code == 0x00 || type_code == 0x08 || type_code == 0x09) {
            return Err(CartridgeError::UnsupportedMapper);
        }
        if rom[0x148] != 0 {
            return Err(CartridgeError::UnsupportedMapper);
        }
        let ram_code: u8 = rom[0x149];
        if ram_code >= 3 {
            return Err(CartridgeError::RamSizeMismatch);
        }
        if rom.len() != 0x8000 {
            return Err(CartridgeError::RomTooShort);
        }
        let ram_size: usize = if ram_code == 0 {
            0
        } else if ram_code == 1 {
            0x800
        } else {
            0x2000
        };
        let sram: Vec<u8> = zero_vec(ram_size);
        let mut mapper = NoMapper::new();
        mapper.init(2, ram_size);
        Ok(Cartridge { rom, sram, mapper, mapper_type: MapperType::NoMapper })
    }

    /// ROM bank 0 read: 0x0000..0x4000.
    pub fn read_rom0(&self, addr: u16) -> (r: u8)
        requires
            self.wf(),
            addr < 0x4000,
        ensures
            r == self.rom@[self.mapper.spec_rom0_index(addr) as int],
    {
        let idx: usize = self.mapper.map_read_rom0(addr);
        self.rom[idx]
    }

    /// Switched ROM bank read: 0x4000..0x8000.
    pub fn read_romx(&self, addr: u16) -> (r: u8)
        requires
            self.wf(),
            0x4000 <= addr < 0x8000,
        ensures
            r == self.rom@[self.mapper.spec_romx_index(addr) as int],
    {
        let idx: usize = self.mapper.map_read_romx(addr);
        self.rom[idx]
    }

    /// Cartridge RAM read: 0xA000..0xC000; unmapped accesses read 0xFF.
    pub fn read_ram(&mut self, addr: u16) -> (r: u8)
        requires
            old(self).wf(),
            0xA000 <= addr < 0xC000,
        ensures
            *final(self) == *old(self),
            r == old(self).spec_ram_read_value(addr),
    {
        match self.mapper.map_ram_read(addr) {
            MappingResult::Addr(idx) => {
                if idx < self.sram.len() {
                    self.sram[idx]
                } else {
                    0xFF
                }
            },
            MappingResult::Value(v) => v,
            MappingResult::NotMapped => 0xFF,
        }
    }

    /// Cartridge RAM write: 0xA000..0xC000; unmapped writes are dropped.
    pub fn write_ram(&mut self, addr: u16, data: u8)
        requires
            old(self).wf(),
            0xA000 <= addr < 0xC000,
        ensures
            final(self).wf(),
            *final(self) == (Cartridge { sram: final(self).sram, ..*old(self) }),
            final(self).sram@ == old(self).spec_ram_written(addr, data),
    {
        match self.mapper.map_ram_write(addr, data) {
            MappingResult::Addr(idx) => {
                if idx < self.sram.len() {
                    self.sram.set(idx, data);
                }
            },
            MappingResult::Value(_) => {},
            MappingResult::NotMapped => {},
        }
    }

    /// A write into 0x0000..0x8000 lands in the bank controller's registers;
    /// ROM and SRAM bytes never change.
    pub fn write_to_bank_controller(&mut self, addr: u16, data: u8)
        requires
            old(self).wf(),
            addr < 0x8000,
        ensures
            final(self).wf(),
            final(self).rom@ == old(self).rom@,
            final(self).sram@ == old(self).sram@,
            final(self).mapper_type == old(self).mapper_type,
    {
        self.mapper.write_bank_controller_register(addr, data);
    }

    /// The battery save image: the raw SRAM bytes.
    pub fn save_battery(&self) -> (r: Vec<u8>)
        ensures
            r@ == self.sram@,
    {
        let mut out: Vec<u8> = Vec::new();
        let mut i: usize = 0;
        while i < self.sram.len()
            invariant
                i <= self.sram@.len(),
                out@ == self.sram@.take(i as int),
            decreases self.sram@.len() - i,
        {
            out.push(self.sram[i]);
            proof {
                assert(out@ =~= self.sram@.take((i + 1) as int));
            }
            i = i + 1;
        }
        proof {
            assert(out@ =~= self.sram@);
        }
        out
    }

    /// Restore a battery save image; the image must be exactly SRAM-sized.
    pub fn load_battery(&mut self, data: &Vec<u8>) -> (r: Result<(), BatteryError>)
        requires
            old(self).wf(),
        ensures
            data@.len() != old(self).sram@.len() ==> r == Err::<(), BatteryError>(
                BatteryError::SizeMismatch,
            ) && *final(self) == *old(self),
            data@.len() == old(self).sram@.len() ==> r == Ok::<(), BatteryError>(()) && *final(self)
                == (Cartridge { sram: final(self).sram, ..*old(self) }) && final(self).sram@
                == data@,
            final(self).wf(),
    {
        if data.len() != self.sram.len() {
            return Err(BatteryError::SizeMismatch);
        }
        let mut fresh: Vec<u8> = Vec::new();
        let mut i: usize = 0;
        while i < data.len()
            invariant
                i <= data@.len(),
                fresh@ == data@.take(i as int),
            decreases data@.len() - i,
        {
            fresh.push(data[i]);
            proof {
                assert(fresh@ =~= data@.take((i + 1) as int));
            }
            i = i + 1;
        }
        proof {
            assert(fresh@ =~= data@);
        }
        self.sram = fresh;
        Ok(())
    }
}

} // verus!
