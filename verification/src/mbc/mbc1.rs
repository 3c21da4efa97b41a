use vstd::prelude::*;
use crate::bits::lemma_byte_fields;
use crate::mbc::copy_bytes;

verus! {

/// Size of one external RAM bank (0xA000..=0xBFFF).
pub const EXTERNAL_RAM_SIZE: usize = 0x2000;

/// Number of external RAM banks of an MBC1 cartridge.
pub const EXTERNAL_RAM_BANKS: usize = 4;

/// The MBC1 memory bank controller: up to 2 MiB of ROM in 16 KiB banks and
/// 32 KiB of RAM in four 8 KiB banks.
pub struct MBC1 {
    pub rom: Vec<u8>,
    pub rom_bank_low: u8,
    pub rom_bank_high: u8,
    pub external_ram: Vec<u8>,
    pub ram_enabled: bool,
    pub banking_mode: u8,
    pub has_battery_saves: bool,
    pub has_data_to_save: bool,
}

impl MBC1 {
    /// External RAM holds its four banks.
    pub open spec fn wf(self) -> bool {
        self.external_ram.len() == EXTERNAL_RAM_SIZE * EXTERNAL_RAM_BANKS
    }

    /// The ROM bank mapped at 0x4000..=0x7FFF: the two high bits joined to
    /// the five low bits in mode 0, the low bits alone in mode 1; bank 0
    /// maps as bank 1.
    pub open spec fn rom_bank_index(self) -> nat {
        let bank = if self.banking_mode == 0 {
            ((self.rom_bank_high << 5u8) | self.rom_bank_low) as nat
        } else {
            self.rom_bank_low as nat
        };
        if bank == 0 {
            1
        } else {
            bank
        }
    }

    /// The ROM bank mapped at 0x0000..=0x3FFF: bank 0 in mode 0, the high
    /// bits times 32 in mode 1.
    pub open spec fn low_bank_index(self) -> nat {
        if self.banking_mode == 0 {
            0
        } else {
            (self.rom_bank_high << 5u8) as nat
        }
    }

    /// The RAM bank mapped at 0xA000..=0xBFFF.
    pub open spec fn ram_bank_index(self) -> nat {
        if self.banking_mode == 0 {
            0
        } else {
            self.rom_bank_high as nat
        }
    }

    /// The offset into external RAM that `address` (in 0xA000..=0xBFFF) reaches.
    pub open spec fn ram_offset(self, address: u16) -> int {
        self.ram_bank_index() * 0x2000 + address - 0xA000
    }

    /// The offset into ROM that `address` (below 0x8000) reaches.
    pub open spec fn rom_offset(self, address: u16) -> int {
        if address < 0x4000 {
            self.low_bank_index() * 0x4000 + address
        } else {
            self.rom_bank_index() * 0x4000 + address - 0x4000
        }
    }

    /// A read of `address` stays inside ROM and RAM.
    pub open spec fn read_ok(self, address: u16) -> bool {
        &&& address < 0x8000 ==> self.rom_offset(address) < self.rom.len()
        &&& (0xA000 <= address <= 0xBFFF && self.ram_enabled) ==> self.ram_offset(address) < self.external_ram.len()
    }

    /// What a read gives back: ROM through the bank registers, RAM while it
    /// is enabled (0xFF otherwise), `None` outside the cartridge's ranges.
    pub open spec fn read_value(self, address: u16) -> Option<u8> {
        if address < 0x8000 {
            Some(self.rom@[self.rom_offset(address)])
        } else if 0xA000 <= address <= 0xBFFF {
            if !self.ram_enabled {
                Some(0xFF)
            } else {
                Some(self.external_ram@[self.ram_offset(address)])
            }
        } else {
            None
        }
    }

    /// A write stays inside RAM.
    pub open spec fn write_ok(self, address: u16) -> bool {
        (0xA000 <= address <= 0xBFFF && self.ram_enabled) ==> self.ram_offset(address) < self.external_ram.len()
    }

    /// The controller registers after a write below 0x8000 (ROM and RAM
    /// contents untouched).
    pub open spec fn after_register_write(self, address: u16, value: u8) -> MBC1 {
        if address < 0x2000 {
            MBC1 { ram_enabled: value % 16 == 0x0A, ..self }
        } else if address < 0x4000 {
            MBC1 { rom_bank_low: if value % 32 == 0 { 1 } else { value % 32 }, ..self }
        } else if address < 0x6000 {
            MBC1 { rom_bank_high: value % 4, ..self }
        } else {
            MBC1 { banking_mode: value % 2, ..self }
        }
    }

    /// The controller as it comes up with `rom` and saved `ram`: ROM bank 1, banking mode 0, RAM
    /// access off, nothing to save, and `ram` at the start of its RAM (the
    /// rest cleared).
    pub open spec fn fresh(self, rom: Seq<u8>, ram: Seq<u8>, battery: bool) -> bool {
        &&& self.wf()
        &&& self.rom@ == rom
        &&& self.rom_bank_low == 1 && self.rom_bank_high == 0 && self.banking_mode == 0
        &&& !self.ram_enabled && !self.has_data_to_save && self.has_battery_saves == battery
        &&& forall|i: int|
            0 <= i < self.external_ram.len() ==> self.external_ram@[i] == (if i < ram.len() { ram[i] } else { 0u8 })
    }

    pub fn new(rom: Vec<u8>, external_ram: Vec<u8>, has_battery_saves: bool) -> (r: Self)
        requires
            external_ram.len() <= EXTERNAL_RAM_SIZE * EXTERNAL_RAM_BANKS,
        ensures
            r.fresh(rom@, external_ram@, has_battery_saves),
            r.wf(),
            r.rom == rom,
            r.rom_bank_low == 1 && r.rom_bank_high == 0 && r.banking_mode == 0,
            !r.ram_enabled && !r.has_data_to_save && r.has_battery_saves == has_battery_saves,
            forall|i: int| 0 <= i < r.external_ram.len() ==> r.external_ram@[i] == (if i < external_ram.len() {
                external_ram@[i]
            } else {
                0u8
            }),
    {
        let ram = copy_bytes(&external_ram, EXTERNAL_RAM_SIZE * EXTERNAL_RAM_BANKS);
        Self {
            rom,
            rom_bank_low: 1,
            rom_bank_high: 0,
            external_ram: ram,
            ram_enabled: false,
            banking_mode: 0,
            has_battery_saves,
            has_data_to_save: false,
        }
    }

    pub fn read(&self, address: u16) -> (r: Option<u8>)
        requires
            self.read_ok(address),
        ensures
            r == self.read_value(address),
    {
        match address {
            0x0000..=0x3FFF => {
                let bank: usize = if self.banking_mode == 0 { 0 } else { (self.rom_bank_high << 5) as usize };
                Some(self.rom[bank * 0x4000 + address as usize])
            },
            0x4000..=0x7FFF => Some(self.rom[self.rom_bank() * 0x4000 + address as usize - 0x4000]),
            0xA000..=0xBFFF => {
                if !self.ram_enabled {
                    return Some(0xFF);
                }
                Some(self.external_ram[self.ram_bank() * EXTERNAL_RAM_SIZE + address as usize - 0xA000])
            },
            _ => None,
        }
    }

    pub fn write(&mut self, address: u16, value: u8) -> (r: bool)
        requires
            old(self).write_ok(address),
        ensures
            r == (address < 0x8000 || 0xA000 <= address <= 0xBFFF),
            address < 0x8000 ==> *final(self) == old(self).after_register_write(address, value),
            0xA000 <= address <= 0xBFFF && !old(self).ram_enabled ==> *final(self) == *old(self),
            0xA000 <= address <= 0xBFFF && old(self).ram_enabled ==> {
                &&& final(self).external_ram@ == old(self).external_ram@.update(old(self).ram_offset(address), value)
                &&& *final(self) == (MBC1 {
                    external_ram: final(self).external_ram,
                    has_data_to_save: old(self).has_battery_saves,
                    ..*old(self)
                })
            },
            !r ==> *final(self) == *old(self),
    {
        match address {
            0x0000..=0x1FFF => {
                assert(value & 0x0F == value % 16) by { lemma_byte_fields(); }
                self.ram_enabled = (value & 0x0F) == 0x0A;
            },
            0x2000..=0x3FFF => {
                assert(value & 0x1F == value % 32) by { lemma_byte_fields(); }
                let mut bank = value & 0x1F;
                if bank == 0 {
                    bank = 1;
                }
                self.rom_bank_low = bank;
            },
            0x4000..=0x5FFF => {
                assert(value & 0x03 == value % 4) by { lemma_byte_fields(); }
                self.rom_bank_high = value & 0x03;
            },
            0x6000..=0x7FFF => {
                assert(value & 1 == value % 2) by { lemma_byte_fields(); }
                self.banking_mode = value & 1;
            },
            0xA000..=0xBFFF => {
                if self.ram_enabled {
                    let offset = self.ram_bank() * EXTERNAL_RAM_SIZE + address as usize - 0xA000;
                    self.external_ram.set(offset, value);
                    self.has_data_to_save = self.has_battery_saves;
                }
            },
            _ => {
                return false;
            },
        }
        true
    }

    /// Hands out a copy of external RAM and whether it changed since the
    /// last call (only battery-backed cartridges report changes).
    pub fn save_data(&mut self) -> (r: (Vec<u8>, bool))
        ensures
            r.0@ == old(self).external_ram@,
            r.1 == old(self).has_data_to_save,
            *final(self) == (MBC1 { has_data_to_save: false, ..*old(self) }),
    {
        let data = copy_bytes(&self.external_ram, self.external_ram.len());
        let changed = self.has_data_to_save;
        self.has_data_to_save = false;
        (data, changed)
    }

    pub fn rom_bank(&self) -> (r: usize)
        ensures
            r == self.rom_bank_index(),
            r < 256,
    {
        let h = self.rom_bank_high;
        let l = self.rom_bank_low;
        let mut bank: usize = if self.banking_mode == 0 { ((h << 5) | l) as usize } else { l as usize };
        if bank == 0 {
            bank = 1;
        }
        bank
    }

    pub fn ram_bank(&self) -> (r: usize)
        ensures
            r == self.ram_bank_index(),
    {
        if self.banking_mode == 0 {
            0
        } else {
            self.rom_bank_high as usize
        }
    }
}

} // verus!

verus! {

/// Reading external RAM right after writing it (RAM enabled) gives back the
/// byte written, and leaves every other RAM address as it was.
pub proof fn lemma_mbc1_ram_read_after_write(m: MBC1, after: MBC1, address: u16, other: u16, value: u8)
    requires
        m.wf(),
        m.ram_enabled,
        0xA000 <= address <= 0xBFFF,
        0xA000 <= other <= 0xBFFF,
        m.write_ok(address),
        after.external_ram@ == m.external_ram@.update(m.ram_offset(address), value),
        after == (MBC1 { external_ram: after.external_ram, has_data_to_save: m.has_battery_saves, ..m }),
    ensures
        after.read_value(address) == Some(value),
        other != address ==> after.read_value(other) == m.read_value(other),
{
}


/// Which ROM bank a read of 0x4000..=0x7FFF reaches: in banking mode 0 the
/// bank is the upper register times 32 plus the lower one, in mode 1 the
/// lower register alone (registers as the controller holds them: lower
/// 1..=31, upper 0..=3).
pub proof fn lemma_mbc1_switchable_bank(m: MBC1, o: int)
    requires
        1 <= m.rom_bank_low < 32,
        m.rom_bank_high < 4,
        m.banking_mode <= 1,
        0 <= o < 0x4000,
    ensures
        m.banking_mode == 0 ==> m.read_value((0x4000 + o) as u16) == Some(
            m.rom@[(m.rom_bank_high * 32 + m.rom_bank_low) * 0x4000 + o],
        ),
        m.banking_mode == 1 ==> m.read_value((0x4000 + o) as u16) == Some(m.rom@[m.rom_bank_low * 0x4000 + o]),
{
    let h = m.rom_bank_high;
    let l = m.rom_bank_low;
    assert(h < 4 && l < 32 ==> (h << 5u8) | l == h * 32 + l) by (bit_vector);
}

/// Selecting a bank in mode 0: after the upper bits (a write to
/// 0x4000..=0x5FFF) and the lower bits (a write to 0x2000..=0x3FFF), in
/// either order, a read of 0x4000 + `o` gives byte `o` of bank
/// `(upper % 4) * 32 + lower % 32`, a lower value of 0 counting as 1.
pub proof fn lemma_mbc1_select_bank(m: MBC1, upper: u8, lower: u8, o: int)
    requires
        m.banking_mode == 0,
        0 <= o < 0x4000,
    ensures
        ({
            let low: int = if lower % 32 == 0 { 1 } else { (lower % 32) as int };
            let expected = Some(m.rom@[((upper % 4) * 32 + low) * 0x4000 + o]);
            &&& m.after_register_write(0x4000, upper).after_register_write(0x2000, lower).read_value(
                (0x4000 + o) as u16,
            ) == expected
            &&& m.after_register_write(0x2000, lower).after_register_write(0x4000, upper).read_value(
                (0x4000 + o) as u16,
            ) == expected
        }),
{
    let m1 = m.after_register_write(0x4000, upper).after_register_write(0x2000, lower);
    let m2 = m.after_register_write(0x2000, lower).after_register_write(0x4000, upper);
    lemma_mbc1_switchable_bank(m1, o);
    lemma_mbc1_switchable_bank(m2, o);
}


/// The fixed area and RAM: a read of 0x0000..=0x3FFF reaches bank 0 in mode
/// 0 and bank `upper * 32` in mode 1; a read of 0xA000..=0xBFFF gives 0xFF
/// while RAM is off, otherwise byte `o` of RAM bank 0 in mode 0 or of bank
/// `upper` in mode 1.
pub proof fn lemma_mbc1_fixed_bank_and_ram(m: MBC1, o: int)
    requires
        m.rom_bank_high < 4,
        m.banking_mode <= 1,
        0 <= o < 0x2000,
    ensures
        m.read_value(o as u16) == Some(m.rom@[(if m.banking_mode == 1 { m.rom_bank_high * 32 } else { 0int }) * 0x4000 + o]),
        m.read_value((o + 0x2000) as u16) == Some(
            m.rom@[(if m.banking_mode == 1 { m.rom_bank_high * 32 } else { 0int }) * 0x4000 + o + 0x2000],
        ),
        !m.ram_enabled ==> m.read_value((0xA000 + o) as u16) == Some(0xFFu8),
        m.ram_enabled ==> m.read_value((0xA000 + o) as u16) == Some(
            m.external_ram@[(if m.banking_mode == 1 { m.rom_bank_high as int } else { 0int }) * 0x2000 + o],
        ),
{
    let h = m.rom_bank_high;
    assert(h < 4 ==> (h << 5u8) == h * 32) by (bit_vector);
}

} // verus!
