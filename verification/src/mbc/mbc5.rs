use vstd::prelude::*;
use crate::bits::lemma_byte_fields;
use crate::mbc::copy_bytes;

verus! {

/// Size of one external RAM bank (0xA000..=0xBFFF).
pub const EXTERNAL_RAM_SIZE: usize = 0x2000;

/// Number of external RAM banks of an MBC5 cartridge.
pub const EXTERNAL_RAM_BANKS: usize = 16;

/// The MBC5 memory bank controller: a 9-bit ROM bank number and sixteen
/// 8 KiB RAM banks.
pub struct MBC5 {
    pub rom: Vec<u8>,
    pub rom_bank_low: u8,
    pub rom_bank_high: u8,
    pub external_ram: Vec<u8>,
    pub ram_enabled: bool,
    pub ram_bank: u8,
    pub has_battery_saves: bool,
    pub has_data_to_save: bool,
}

proof fn lemma_and_le(x: usize, m: usize)
    ensures
        x & m <= m,
{
    assert(x & m <= m) by (bit_vector);
}

impl MBC5 {
    pub open spec fn wf(self) -> bool {
        self.external_ram.len() == EXTERNAL_RAM_SIZE * EXTERNAL_RAM_BANKS
    }

    /// The number of 16 KiB banks of the ROM.
    pub open spec fn num_banks(self) -> nat {
        self.rom.len() as nat / 0x4000
    }

    /// The ROM bank mapped at 0x4000..=0x7FFF: the 9-bit bank number masked
    /// by the bank count minus one.
    pub open spec fn rom_bank_index(self) -> nat {
        let bank = (self.rom_bank_low as usize) | ((self.rom_bank_high as usize) << 8usize);
        (bank & ((self.num_banks() - 1) as usize)) as nat
    }

    pub open spec fn ram_offset(self, address: u16) -> int {
        self.ram_bank as int * 0x2000 + address - 0xA000
    }

    /// Reads stay in range: the ROM holds at least one bank and the selected
    /// RAM bank exists.
    pub open spec fn read_ok(self, address: u16) -> bool {
        &&& address < 0x8000 ==> self.rom.len() >= 0x4000
        &&& (0xA000 <= address <= 0xBFFF && self.ram_enabled) ==> self.ram_offset(address) < self.external_ram.len()
    }

    pub open spec fn read_value(self, address: u16) -> Option<u8> {
        if address < 0x4000 {
            Some(self.rom@[address as int])
        } else if address < 0x8000 {
            Some(self.rom@[self.rom_bank_index() * 0x4000 + address - 0x4000])
        } else if 0xA000 <= address <= 0xBFFF {
            if !self.ram_enabled {
                Some(0xFF)
            } else {
                Some(self.external_ram@[self.ram_offset(address)])
            }
        } else {
            None
        }
    }

    pub open spec fn write_ok(self, address: u16) -> bool {
        (0xA000 <= address <= 0xBFFF && self.ram_enabled) ==> self.ram_offset(address) < self.external_ram.len()
    }

    pub open spec fn after_register_write(self, address: u16, value: u8) -> MBC5 {
        if address < 0x2000 {
            MBC5 { ram_enabled: value % 16 == 0x0A, ..self }
        } else if address < 0x3000 {
            MBC5 { rom_bank_low: value, ..self }
        } else if address < 0x4000 {
            MBC5 { rom_bank_high: value % 2, ..self }
        } else if address < 0x6000 {
            MBC5 { ram_bank: value % 16, ..self }
        } else {
            self
        }
    }

    /// The controller as it comes up with `rom` and saved `ram`: ROM bank 1, RAM bank 0, RAM
    /// access off, nothing to save, and `ram` at the start of its RAM (the
    /// rest cleared).
    pub open spec fn fresh(self, rom: Seq<u8>, ram: Seq<u8>, battery: bool) -> bool {
        &&& self.wf()
        &&& self.rom@ == rom
        &&& self.rom_bank_low == 1 && self.rom_bank_high == 0 && self.ram_bank == 0
        &&& !self.ram_enabled && !self.has_data_to_save && self.has_battery_saves == battery
        &&& forall|i: int|
            0 <= i < self.external_ram.len() ==> self.external_ram@[i] == (if i < ram.len() { ram[i] } else { 0u8 })
    }

    pub fn new(rom: Vec<u8>, external_ram: Vec<u8>, has_battery_saves: bool) -> (r: Self)
        requires
            external_ram.len() <= EXTERNAL_RAM_SIZE * EXTERNAL_RAM_BANKS,
        ensures
            r.fresh(rom@, external_ram@, has_battery_saves),
            r.wf(),
            r.rom == rom,
            r.rom_bank_low == 1 && r.rom_bank_high == 0 && r.ram_bank == 0,
            !r.ram_enabled && !r.has_data_to_save && r.has_battery_saves == has_battery_saves,
            forall|i: int| 0 <= i < r.external_ram.len() ==> r.external_ram@[i] == (if i < external_ram.len() {
                external_ram@[i]
            } else {
                0u8
            }),
    {
        let ram = copy_bytes(&external_ram, EXTERNAL_RAM_SIZE * EXTERNAL_RAM_BANKS);
        Self {
            rom,
            rom_bank_low: 1,
            rom_bank_high: 0,
            external_ram: ram,
            ram_enabled: false,
            ram_bank: 0,
            has_battery_saves,
            has_data_to_save: false,
        }
    }

    pub fn read(&self, address: u16) -> (r: Option<u8>)
        requires
            self.read_ok(address),
        ensures
            r == self.read_value(address),
    {
        match address {
            0x0000..=0x3FFF => Some(self.rom[address as usize]),
            0x4000..=0x7FFF => {
                let bank = self.rom_bank();
                proof {
                    assert(bank * 0x4000 + 0x4000 <= self.rom.len()) by (nonlinear_arith)
                        requires
                            bank < self.rom.len() as nat / 0x4000,
                    ;
                }
                Some(self.rom[bank * 0x4000 + address as usize - 0x4000])
            },
            0xA000..=0xBFFF => {
                if !self.ram_enabled {
                    return Some(0xFF);
                }
                Some(self.external_ram[self.ram_bank() * EXTERNAL_RAM_SIZE + address as usize - 0xA000])
            },
            _ => None,
        }
    }

    pub fn write(&mut self, address: u16, value: u8) -> (r: bool)
        requires
            old(self).write_ok(address),
        ensures
            r == (address < 0x8000 || 0xA000 <= address <= 0xBFFF),
            address < 0x8000 ==> *final(self) == old(self).after_register_write(address, value),
            0xA000 <= address <= 0xBFFF && !old(self).ram_enabled ==> *final(self) == *old(self),
            0xA000 <= address <= 0xBFFF && old(self).ram_enabled ==> {
                &&& final(self).external_ram@ == old(self).external_ram@.update(old(self).ram_offset(address), value)
                &&& *final(self) == (MBC5 {
                    external_ram: final(self).external_ram,
                    has_data_to_save: old(self).has_battery_saves,
                    ..*old(self)
                })
            },
            !r ==> *final(self) == *old(self),
    {
        match address {
            0x0000..=0x1FFF => {
                assert(value & 0x0F == value % 16) by { lemma_byte_fields(); }
                self.ram_enabled = (value & 0x0F) == 0x0A;
            },
            0x2000..=0x2FFF => {
                self.rom_bank_low = value;
            },
            0x3000..=0x3FFF => {
                assert(value & 0x01 == value % 2) by { lemma_byte_fields(); }
                self.rom_bank_high = value & 0x01;
            },
            0x4000..=0x5FFF => {
                assert(value & 0x0F == value % 16) by { lemma_byte_fields(); }
                self.ram_bank = value & 0x0F;
            },
            0x6000..=0x7FFF => {},
            0xA000..=0xBFFF => {
                if self.ram_enabled {
                    let offset = self.ram_bank() * EXTERNAL_RAM_SIZE + address as usize - 0xA000;
                    self.external_ram.set(offset, value);
                    self.has_data_to_save = self.has_battery_saves;
                }
            },
            _ => {
                return false;
            },
        }
        true
    }

    /// Hands out a copy of external RAM and whether it changed since the
    /// last call (only battery-backed cartridges report changes).
    pub fn save_data(&mut self) -> (r: (Vec<u8>, bool))
        ensures
            r.0@ == old(self).external_ram@,
            r.1 == old(self).has_data_to_save,
            *final(self) == (MBC5 { has_data_to_save: false, ..*old(self) }),
    {
        let data = copy_bytes(&self.external_ram, self.external_ram.len());
        let changed = self.has_data_to_save;
        self.has_data_to_save = false;
        (data, changed)
    }

    pub fn rom_bank(&self) -> (r: usize)
        requires
            self.rom.len() >= 0x4000,
        ensures
            r == self.rom_bank_index(),
            r < self.num_banks(),
    {
        let bank = (self.rom_bank_low as usize) | ((self.rom_bank_high as usize) << 8);
        let num_banks = self.rom.len() / 0x4000;
        proof {
            lemma_and_le(bank, (num_banks - 1) as usize);
        }
        bank & (num_banks - 1)
    }

    pub fn ram_bank(&self) -> (r: usize)
        ensures
            r == self.ram_bank,
    {
        self.ram_bank as usize
    }
}

} // verus!

verus! {

/// Reading external RAM right after writing it (RAM enabled) gives back the
/// byte written, and leaves every other RAM address as it was.
pub proof fn lemma_mbc5_ram_read_after_write(m: MBC5, after: MBC5, address: u16, other: u16, value: u8)
    requires
        m.wf(),
        m.ram_enabled,
        0xA000 <= address <= 0xBFFF,
        0xA000 <= other <= 0xBFFF,
        m.write_ok(address),
        after.external_ram@ == m.external_ram@.update(m.ram_offset(address), value),
        after == (MBC5 { external_ram: after.external_ram, has_data_to_save: m.has_battery_saves, ..m }),
    ensures
        after.read_value(address) == Some(value),
        other != address ==> after.read_value(other) == m.read_value(other),
{
}

} // verus!
