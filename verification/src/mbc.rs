use vstd::prelude::*;

pub mod mbc1;
pub mod mbc3;
pub mod mbc5;
pub mod no_rom;

use crate::mbc::mbc1::MBC1;
use crate::mbc::mbc3::MBC3;
use crate::mbc::mbc5::MBC5;
use crate::mbc::no_rom::NoROM;

verus! {

/// The bank controller a cartridge uses, selected by its header's cartridge
/// type byte (ROM offset 0x0147).
pub enum MBC {
    NoROM(NoROM),
    MBC1(MBC1),
    MBC3(MBC3),
    MBC5(MBC5),
}

/// The controller family of a cartridge type byte: 0 none, 1 MBC1, 3 MBC3,
/// 5 MBC5, or `None` for types this emulator does not support.
pub open spec fn cartridge_family(cartridge_type: u8) -> Option<u8> {
    if cartridge_type == 0x00 {
        Some(0)
    } else if 0x01 <= cartridge_type <= 0x03 {
        Some(1)
    } else if cartridge_type == 0x0F || cartridge_type == 0x10 || cartridge_type == 0x11 || cartridge_type == 0x12
        || cartridge_type == 0x13 {
        Some(3)
    } else if 0x19 <= cartridge_type <= 0x1E {
        Some(5)
    } else {
        None
    }
}

/// Whether a cartridge type has a battery that keeps its RAM.
pub open spec fn cartridge_has_battery(cartridge_type: u8) -> bool {
    cartridge_type == 0x03 || cartridge_type == 0x0F || cartridge_type == 0x10 || cartridge_type == 0x13
        || cartridge_type == 0x1B || cartridge_type == 0x1E
}

/// The most save data a cartridge family can take back.
pub open spec fn save_capacity(family: u8) -> nat {
    if family == 1 {
        0x8000
    } else if family == 3 {
        mbc3::SAVE_SIZE as nat
    } else if family == 5 {
        0x20000
    } else {
        0
    }
}

/// Whether this emulator supports a cartridge type.
pub fn is_supported_cartridge_type(cartridge_type: u8) -> (r: bool)
    ensures
        r == cartridge_family(cartridge_type).is_some(),
{
    match cartridge_type {
        0x00 | 0x01..=0x03 | 0x0F | 0x10 | 0x11 | 0x12 | 0x13 | 0x19..=0x1E => true,
        _ => false,
    }
}

impl MBC {
    /// The controller family of this value (see `cartridge_family`).
    pub open spec fn family(self) -> u8 {
        match self {
            MBC::NoROM(_) => 0,
            MBC::MBC1(_) => 1,
            MBC::MBC3(_) => 3,
            MBC::MBC5(_) => 5,
        }
    }

    pub open spec fn wf(self) -> bool {
        match self {
            MBC::NoROM(m) => m.wf(),
            MBC::MBC1(m) => m.wf(),
            MBC::MBC3(m) => m.wf(),
            MBC::MBC5(m) => m.wf(),
        }
    }

    pub open spec fn read_ok(self, address: u16) -> bool {
        match self {
            MBC::NoROM(m) => m.read_ok(address),
            MBC::MBC1(m) => m.read_ok(address),
            MBC::MBC3(m) => m.read_ok(address),
            MBC::MBC5(m) => m.read_ok(address),
        }
    }

    pub open spec fn read_value(self, address: u16) -> Option<u8> {
        match self {
            MBC::NoROM(m) => m.read_value(address),
            MBC::MBC1(m) => m.read_value(address),
            MBC::MBC3(m) => m.read_value(address),
            MBC::MBC5(m) => m.read_value(address),
        }
    }

    pub open spec fn write_ok(self, address: u16) -> bool {
        match self {
            MBC::NoROM(_) => true,
            MBC::MBC1(m) => m.write_ok(address),
            MBC::MBC3(_) => true,
            MBC::MBC5(m) => m.write_ok(address),
        }
    }

    pub open spec fn tick_ok(self, cycles: u32) -> bool {
        match self {
            MBC::MBC3(m) => m.stored_cycles() + cycles <= u32::MAX,
            _ => true,
        }
    }

    /// The ROM the controller maps.
    pub open spec fn rom(self) -> Seq<u8> {
        match self {
            MBC::NoROM(m) => m.rom@,
            MBC::MBC1(m) => m.rom@,
            MBC::MBC3(m) => m.rom@,
            MBC::MBC5(m) => m.rom@,
        }
    }

    /// Builds the controller named by the cartridge header, handing it the
    /// saved RAM.
    pub fn new(rom: Vec<u8>, external_ram: Vec<u8>) -> (r: MBC)
        requires
            rom.len() > 0x0147,
            cartridge_family(rom@[0x0147]).is_some(),
            cartridge_family(rom@[0x0147]) != Some(0u8) ==> external_ram.len() <= save_capacity(
                cartridge_family(rom@[0x0147]).unwrap(),
            ),
        ensures
            r.wf(),
            r.family() == cartridge_family(rom@[0x0147]).unwrap(),
            r.rom() == rom@,
            match r {
                MBC::NoROM(m) => m.fresh(rom@),
                MBC::MBC1(m) => m.fresh(rom@, external_ram@, cartridge_has_battery(rom@[0x0147])),
                MBC::MBC3(m) => m.fresh(rom@, external_ram@, cartridge_has_battery(rom@[0x0147])),
                MBC::MBC5(m) => m.fresh(rom@, external_ram@, cartridge_has_battery(rom@[0x0147])),
            },
    {
        let t = rom[0x0147];
        match t {
            0x00 => MBC::NoROM(NoROM::new(rom)),
            0x01..=0x02 => MBC::MBC1(MBC1::new(rom, external_ram, false)),
            0x03 => MBC::MBC1(MBC1::new(rom, external_ram, true)),
            0x0F | 0x10 | 0x13 => MBC::MBC3(MBC3::new(rom, external_ram, true)),
            0x11 | 0x12 => MBC::MBC3(MBC3::new(rom, external_ram, false)),
            0x1B | 0x1E => MBC::MBC5(MBC5::new(rom, external_ram, true)),
            _ => MBC::MBC5(MBC5::new(rom, external_ram, false)),
        }
    }

    pub fn read(&self, address: u16) -> (r: Option<u8>)
        requires
            self.wf(),
            self.read_ok(address),
        ensures
            r == self.read_value(address),
    {
        match self {
            MBC::NoROM(mbc) => mbc.read(address),
            MBC::MBC1(mbc) => mbc.read(address),
            MBC::MBC3(mbc) => mbc.read(address),
            MBC::MBC5(mbc) => mbc.read(address),
        }
    }

    /// Whether the controller takes a write to `address` (its `write`
    /// returns true): the ROM area and the RAM area, but for an MBC3 not
    /// while RAM is enabled with a bank number above 0x0C.
    pub open spec fn claims_write(self, address: u16) -> bool {
        match self {
            MBC::NoROM(_) => false,
            MBC::MBC3(m) => address < 0x8000 || (0xA000 <= address <= 0xBFFF && (!m.ram_enabled || m.ram_bank
                <= 0x0C)),
            _ => address < 0x8000 || 0xA000 <= address <= 0xBFFF,
        }
    }

    /// A write of `value` to `address` took the controller from `self` to
    /// `after`, `r` telling whether the controller handled it.
    pub open spec fn written(self, after: MBC, address: u16, value: u8, r: bool) -> bool {
        &&& after.wf()
        &&& after.family() == self.family()
        &&& after.rom() == self.rom()
        &&& match (self, after) {
            (MBC::NoROM(a), MBC::NoROM(b)) => !r && b == a,
            (MBC::MBC1(a), MBC::MBC1(b)) => {
                &&& r == (address < 0x8000 || 0xA000 <= address <= 0xBFFF)
                &&& address < 0x8000 ==> b == a.after_register_write(address, value)
                &&& 0xA000 <= address <= 0xBFFF && a.ram_enabled ==> b.external_ram@ == a.external_ram@.update(
                    a.ram_offset(address),
                    value,
                ) && b == (MBC1 { external_ram: b.external_ram, has_data_to_save: a.has_battery_saves, ..a })
                &&& !(address < 0x8000) && !(0xA000 <= address <= 0xBFFF && a.ram_enabled) ==> b == a
            },
            (MBC::MBC3(a), MBC::MBC3(b)) => {
                &&& r == (address < 0x8000 || (0xA000 <= address <= 0xBFFF && (!a.ram_enabled || a.ram_bank
                    <= 0x0C)))
                &&& address < 0x8000 && !a.latches(address, value) ==> b == a.after_register_write(
                    address,
                    value,
                )
                &&& address < 0x8000 && a.latches(address, value) ==> b.external_ram@ == mbc3::ram_with_rtc(
                    a.external_ram@,
                    mbc3::LATCHED_RTC_OFFSET as int,
                    a.rtc(),
                ) && b == (MBC3 { external_ram: b.external_ram, latch_state: 0, ..a })
                &&& 0xA000 <= address <= 0xBFFF && a.ram_enabled && a.ram_bank <= 0x0C ==> b.external_ram@
                    == a.external_ram@.update(a.ram_store(address, value).0, a.ram_store(address, value).1)
                    && b == (MBC3 { external_ram: b.external_ram, has_data_to_save: a.has_battery_saves, ..a })
                &&& !(address < 0x8000) && !(0xA000 <= address <= 0xBFFF && a.ram_enabled && a.ram_bank
                    <= 0x0C) ==> b == a
            },
            (MBC::MBC5(a), MBC::MBC5(b)) => {
                &&& r == (address < 0x8000 || 0xA000 <= address <= 0xBFFF)
                &&& address < 0x8000 ==> b == a.after_register_write(address, value)
                &&& 0xA000 <= address <= 0xBFFF && a.ram_enabled ==> b.external_ram@ == a.external_ram@.update(
                    a.ram_offset(address),
                    value,
                ) && b == (MBC5 { external_ram: b.external_ram, has_data_to_save: a.has_battery_saves, ..a })
                &&& !(address < 0x8000) && !(0xA000 <= address <= 0xBFFF && a.ram_enabled) ==> b == a
            },
            _ => false,
        }
    }

    pub fn write(&mut self, address: u16, value: u8) -> (r: bool)
        requires
            old(self).wf(),
            old(self).write_ok(address),
        ensures
            old(self).written(*final(self), address, value, r),
    {
        match self {
            MBC::NoROM(mbc) => mbc.write(address, value),
            MBC::MBC1(mbc) => mbc.write(address, value),
            MBC::MBC3(mbc) => mbc.write(address, value),
            MBC::MBC5(mbc) => mbc.write(address, value),
        }
    }

    /// `after` is this controller with its clock run for `cycles` machine
    /// cycles: only an MBC3 whose clock is not halted moves on, by the whole
    /// seconds in its stored cycles plus `cycles`, keeping the remainder.
    pub open spec fn clocked(self, after: MBC, cycles: u32) -> bool {
        &&& after.wf()
        &&& after.family() == self.family()
        &&& after.rom() == self.rom()
        &&& !(self is MBC3) ==> after == self
        &&& match (self, after) {
            (MBC::MBC3(a), MBC::MBC3(b)) => {
                &&& (a.rtc().days_high / 64) % 2 == 1 ==> b == a
                &&& (a.rtc().days_high / 64) % 2 == 0 ==> {
                    let total = (a.stored_cycles() + cycles) as nat;
                    &&& b.external_ram@ == mbc3::ram_with_u32(
                        mbc3::ram_with_rtc(
                            a.external_ram@,
                            mbc3::RTC_OFFSET as int,
                            mbc3::rtc_advance(a.rtc(), total / mbc3::CYCLES_PER_SECOND as nat),
                        ),
                        mbc3::CYCLES_OFFSET as int,
                        (total % mbc3::CYCLES_PER_SECOND as nat) as u32,
                    )
                    &&& b == (MBC3 { external_ram: b.external_ram, has_data_to_save: a.has_battery_saves, ..a })
                }
            },
            _ => true,
        }
    }

    /// Advances the cartridge clock (only MBC3 cartridges have one).
    pub fn tick(&mut self, cycles: u32)
        requires
            old(self).wf(),
            old(self).tick_ok(cycles),
        ensures
            old(self).clocked(*final(self), cycles),
    {
        match self {
            MBC::MBC3(mbc) => mbc.tick(cycles),
            _ => {},
        }
    }

    /// The cartridge's saved RAM and whether it changed since the last call;
    /// a cartridge without a controller has nothing to save.
    pub fn save_data(&mut self) -> (r: (Vec<u8>, bool))
        ensures
            final(self).family() == old(self).family(),
            final(self).rom() == old(self).rom(),
            match (*old(self), *final(self)) {
                (MBC::NoROM(a), MBC::NoROM(b)) => b == a && r.0@.len() == 0 && !r.1,
                (MBC::MBC1(a), MBC::MBC1(b)) => r.0@ == a.external_ram@ && r.1 == a.has_data_to_save && b == (MBC1 {
                    has_data_to_save: false,
                    ..a
                }),
                (MBC::MBC3(a), MBC::MBC3(b)) => r.0@ == a.external_ram@ && r.1 == a.has_data_to_save && b == (MBC3 {
                    has_data_to_save: false,
                    ..a
                }),
                (MBC::MBC5(a), MBC::MBC5(b)) => r.0@ == a.external_ram@ && r.1 == a.has_data_to_save && b == (MBC5 {
                    has_data_to_save: false,
                    ..a
                }),
                _ => false,
            },
    {
        match self {
            MBC::NoROM(_) => (Vec::new(), false),
            MBC::MBC1(mbc) => mbc.save_data(),
            MBC::MBC3(mbc) => mbc.save_data(),
            MBC::MBC5(mbc) => mbc.save_data(),
        }
    }
}

/// A buffer of `len` bytes that starts with a copy of `src` and is zero
/// after it (bytes of `src` past `len` are not copied).
pub fn copy_bytes(src: &Vec<u8>, len: usize) -> (r: Vec<u8>)
    ensures
        r.len() == len,
        forall|i: int| 0 <= i < len ==> r@[i] == (if i < src.len() { src@[i] } else { 0u8 }),
{
    let mut r: Vec<u8> = Vec::new();
    let mut i: usize = 0;
    while i < len
        invariant
            i <= len,
            r.len() == i,
            forall|j: int| 0 <= j < i ==> r@[j] == (if j < src.len() { src@[j] } else { 0u8 }),
        decreases len - i,
    {
        if i < src.len() {
            r.push(src[i]);
        } else {
            r.push(0);
        }
        i = i + 1;
    }
    r
}


/// A 32-bit number stored little endian reads back as itself.
proof fn lemma_u32_roundtrip(ram: Seq<u8>, offset: int, v: u32)
    requires
        0 <= offset,
        offset + 3 < ram.len(),
    ensures
        mbc3::le_u32(mbc3::ram_with_u32(ram, offset, v), offset) == v,
{
    let r = mbc3::ram_with_u32(ram, offset, v);
    assert(r[offset] == v % 0x100);
    assert(r[offset + 1] == (v / 0x100) % 0x100);
    assert(r[offset + 2] == (v / 0x10000) % 0x100);
    assert(r[offset + 3] == v / 0x1000000);
    assert(v % 0x100 + (v / 0x100) % 0x100 * 0x100 + (v / 0x10000) % 0x100 * 0x10000 + v / 0x1000000 * 0x1000000 == v)
        by (bit_vector);
}

impl MBC {
    /// After its clock has run for `c` cycles the cartridge has room for
    /// `d` more if it had room for `c + d`.
    pub proof fn lemma_clock_room(self, after: MBC, c: u32, d: u32)
        requires
            self.wf(),
            self.clocked(after, c),
            self.tick_ok((c + d) as u32),
            c + d <= u32::MAX,
            d <= 255,
        ensures
            after.tick_ok(d),
    {
        match (self, after) {
            (MBC::MBC3(a), MBC::MBC3(b)) => {
                if (a.rtc().days_high / 64) % 2 == 0 {
                    let total = (a.stored_cycles() + c) as nat;
                    let v = (total % mbc3::CYCLES_PER_SECOND as nat) as u32;
                    lemma_u32_roundtrip(
                        mbc3::ram_with_rtc(
                            a.external_ram@,
                            mbc3::RTC_OFFSET as int,
                            mbc3::rtc_advance(a.rtc(), total / mbc3::CYCLES_PER_SECOND as nat),
                        ),
                        mbc3::CYCLES_OFFSET as int,
                        v,
                    );
                }
            },
            _ => {},
        }
    }
}


impl MBC {
    /// Whether a read of `address` stays inside the cartridge's ROM and RAM
    /// (see `read_ok`).
    pub fn can_read(&self, address: u16) -> (r: bool)
        requires
            self.wf(),
        ensures
            r == self.read_ok(address),
    {
        match self {
            MBC::NoROM(m) => address >= 0x8000 || (address as usize) < m.rom.len(),
            MBC::MBC1(m) => {
                let rom_ok = if address >= 0x8000 {
                    true
                } else if address < 0x4000 {
                    let bank: usize = if m.banking_mode == 0 { 0 } else { (m.rom_bank_high << 5) as usize };
                    bank * 0x4000 + (address as usize) < m.rom.len()
                } else {
                    m.rom_bank() * 0x4000 + (address as usize) - 0x4000 < m.rom.len()
                };
                let ram_ok = if 0xA000 <= address && address <= 0xBFFF && m.ram_enabled {
                    let bank = m.ram_bank();
                    proof {
                        assert(m.rom_bank_high as nat <= 255);
                    }
                    bank * 0x2000 + (address as usize) - 0xA000 < m.external_ram.len()
                } else {
                    true
                };
                rom_ok && ram_ok
            },
            MBC::MBC3(m) => address >= 0x8000 || m.rom.len() >= 0x4000,
            MBC::MBC5(m) => {
                let rom_ok = address >= 0x8000 || m.rom.len() >= 0x4000;
                let ram_ok = if 0xA000 <= address && address <= 0xBFFF && m.ram_enabled {
                    (m.ram_bank as usize) * 0x2000 + (address as usize) - 0xA000 < m.external_ram.len()
                } else {
                    true
                };
                rom_ok && ram_ok
            },
        }
    }

    /// Whether the cartridge accepts a write of `address` (see `write_ok`).
    pub fn can_write(&self, address: u16) -> (r: bool)
        requires
            self.wf(),
        ensures
            r == self.write_ok(address),
    {
        match self {
            MBC::NoROM(_) => true,
            MBC::MBC1(m) => {
                if 0xA000 <= address && address <= 0xBFFF && m.ram_enabled {
                    let bank = m.ram_bank();
                    bank * 0x2000 + (address as usize) - 0xA000 < m.external_ram.len()
                } else {
                    true
                }
            },
            MBC::MBC3(_) => true,
            MBC::MBC5(m) => {
                if 0xA000 <= address && address <= 0xBFFF && m.ram_enabled {
                    (m.ram_bank as usize) * 0x2000 + (address as usize) - 0xA000 < m.external_ram.len()
                } else {
                    true
                }
            },
        }
    }

    /// Whether the cartridge clock can take `cycles` more (see `tick_ok`).
    pub fn can_tick(&self, cycles: u32) -> (r: bool)
        requires
            self.wf(),
        ensures
            r == self.tick_ok(cycles),
    {
        match self {
            MBC::MBC3(m) => {
                let stored = m.load_u32(mbc3::CYCLES_OFFSET);
                stored <= u32::MAX - cycles
            },
            _ => true,
        }
    }

    /// Whether the controller takes a write of `address` (see
    /// `claims_write`).
    pub fn claims(&self, address: u16) -> (r: bool)
        ensures
            r == self.claims_write(address),
    {
        match self {
            MBC::NoROM(_) => false,
            MBC::MBC3(m) => address < 0x8000 || (0xA000 <= address && address <= 0xBFFF && (!m.ram_enabled
                || m.ram_bank <= 0x0C)),
            _ => address < 0x8000 || (0xA000 <= address && address <= 0xBFFF),
        }
    }
}

} // verus!
