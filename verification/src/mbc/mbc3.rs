use vstd::prelude::*;
use crate::bits::lemma_byte_fields;
use crate::mbc::copy_bytes;

verus! {

pub const EXTERNAL_RAM_SIZE: usize = 0x2000;
pub const EXTERNAL_RAM_BANKS: usize = 8;
/// CPU cycles in one second of the real-time clock.
pub const CYCLES_PER_SECOND: u32 = 4_194_304;
/// Where the running clock registers are kept, after the RAM banks, so that
/// they are saved with the RAM.
pub const RTC_OFFSET: usize = 0x10000;
/// Where the latched clock registers are kept.
pub const LATCHED_RTC_OFFSET: usize = 0x10005;
/// Where the cycles not yet counted as a second are kept (4 bytes, little endian).
pub const CYCLES_OFFSET: usize = 0x1000A;
/// Total size of the saved RAM: eight banks, two sets of clock registers
/// and the cycle count.
pub const SAVE_SIZE: usize = 0x1000F;

/// The five clock registers: seconds, minutes, hours, the low 8 bits of the
/// day counter, and a byte holding day bit 8 (bit 0), halt (bit 6) and the
/// day-counter carry (bit 7).
#[derive(Clone, Copy, Debug, PartialEq, Eq, Structural)]
pub struct RtcRegisters {
    pub seconds: u8,
    pub minutes: u8,
    pub hours: u8,
    pub days_low: u8,
    pub days_high: u8,
}

/// The clock registers after one second.
pub open spec fn rtc_increment(r: RtcRegisters) -> RtcRegisters {
    let seconds = ((r.seconds + 1) % 256) as u8;
    if seconds < 60 {
        RtcRegisters { seconds, ..r }
    } else {
        let minutes = ((r.minutes + 1) % 256) as u8;
        if minutes < 60 {
            RtcRegisters { seconds: 0, minutes, ..r }
        } else {
            let hours = ((r.hours + 1) % 256) as u8;
            if hours < 24 {
                RtcRegisters { seconds: 0, minutes: 0, hours, ..r }
            } else {
                let days = (r.days_high % 2) as nat * 256 + r.days_low as nat;
                let new_days = days + 1;
                if new_days >= 512 {
                    RtcRegisters {
                        seconds: 0,
                        minutes: 0,
                        hours: 0,
                        days_low: 0,
                        days_high: ((r.days_high / 2) * 2 + 0x80 - (if (r.days_high / 0x80) % 2 == 1 { 0x80int } else { 0 }))
                            as u8,
                    }
                } else {
                    RtcRegisters {
                        seconds: 0,
                        minutes: 0,
                        hours: 0,
                        days_low: (new_days % 256) as u8,
                        days_high: ((r.days_high / 2) * 2 + new_days / 256) as u8,
                    }
                }
            }
        }
    }
}

/// The clock registers after `n` seconds.
pub open spec fn rtc_advance(r: RtcRegisters, n: nat) -> RtcRegisters
    decreases n,
{
    if n == 0 {
        r
    } else {
        rtc_increment(rtc_advance(r, (n - 1) as nat))
    }
}

/// The clock as a number of seconds within its 512-day range.
pub open spec fn rtc_total_seconds(r: RtcRegisters) -> nat {
    ((r.days_high % 2) as nat * 256 + r.days_low as nat) * 86400 + r.hours as nat * 3600 + r.minutes as nat * 60
        + r.seconds as nat
}

/// Clock registers in their normal ranges.
pub open spec fn rtc_in_range(r: RtcRegisters) -> bool {
    r.seconds < 60 && r.minutes < 60 && r.hours < 24
}

/// The clock registers stored at `offset` in a RAM image.
pub open spec fn rtc_at(ram: Seq<u8>, offset: int) -> RtcRegisters {
    RtcRegisters {
        seconds: ram[offset],
        minutes: ram[offset + 1],
        hours: ram[offset + 2],
        days_low: ram[offset + 3],
        days_high: ram[offset + 4],
    }
}


/// Seconds in the clock's 512-day range.
pub open spec fn rtc_period() -> nat {
    512 * 86400
}

/// One second on the clock: a clock with its registers in range moves on by
/// exactly one second modulo 512 days, stays in range, and sets the
/// day-counter carry (day-high bit 7) when it wraps.
pub proof fn lemma_rtc_increment_is_one_second(r: RtcRegisters)
    requires
        rtc_in_range(r),
    ensures
        rtc_in_range(rtc_increment(r)),
        rtc_total_seconds(rtc_increment(r)) == (rtc_total_seconds(r) + 1) % rtc_period(),
        rtc_total_seconds(r) + 1 == rtc_period() ==> (rtc_increment(r).days_high / 0x80) % 2 == 1,
        (rtc_increment(r).days_high / 0x40) % 2 == (r.days_high / 0x40) % 2,
{
    let t = rtc_total_seconds(r);
    let days = (r.days_high % 2) as nat * 256 + r.days_low as nat;
    assert(days < 512);
    assert(t < rtc_period()) by (nonlinear_arith)
        requires
            t == days * 86400 + r.hours as nat * 3600 + r.minutes as nat * 60 + r.seconds as nat,
            days < 512,
            r.hours < 24,
            r.minutes < 60,
            r.seconds < 60,
    ;
    let n = rtc_increment(r);
    if r.seconds + 1 < 60 {
        assert(t + 1 < rtc_period()) by (nonlinear_arith)
            requires
                t == days * 86400 + r.hours as nat * 3600 + r.minutes as nat * 60 + r.seconds as nat,
                days < 512,
                r.hours < 24,
                r.minutes < 60,
                r.seconds + 1 < 60,
        ;
    } else if r.minutes + 1 < 60 {
        assert(t + 1 < rtc_period()) by (nonlinear_arith)
            requires
                t == days * 86400 + r.hours as nat * 3600 + r.minutes as nat * 60 + r.seconds as nat,
                days < 512,
                r.hours < 24,
                r.minutes + 1 < 60,
                r.seconds < 60,
        ;
    } else if r.hours + 1 < 24 {
        assert(t + 1 < rtc_period()) by (nonlinear_arith)
            requires
                t == days * 86400 + r.hours as nat * 3600 + r.minutes as nat * 60 + r.seconds as nat,
                days < 512,
                r.hours + 1 < 24,
                r.minutes < 60,
                r.seconds < 60,
        ;
    } else {
        if days + 1 >= 512 {
            assert(t + 1 == rtc_period());
        } else {
            let nd = days + 1;
            assert(((r.days_high / 2) * 2 + nd / 256) % 2 == nd / 256);
            assert((nd / 256) * 256 + nd % 256 == nd);
            assert(t + 1 < rtc_period()) by (nonlinear_arith)
                requires
                    t + 1 == (days + 1) * 86400,
                    days + 1 < 512,
            ;
            let dh = r.days_high;
            assert((((dh / 2) * 2 + nd / 256) / 0x40) % 2 == (dh / 0x40) % 2);
        }
    }
}

/// The clock advanced by `n` seconds reads `n` seconds later, modulo 512
/// days, and stays in range (halt bit untouched).
pub proof fn lemma_rtc_advance_counts_seconds(r: RtcRegisters, n: nat)
    requires
        rtc_in_range(r),
    ensures
        rtc_in_range(rtc_advance(r, n)),
        rtc_total_seconds(rtc_advance(r, n)) == (rtc_total_seconds(r) + n) % rtc_period(),
        (rtc_advance(r, n).days_high / 0x40) % 2 == (r.days_high / 0x40) % 2,
    decreases n,
{
    if n == 0 {
        let days = (r.days_high % 2) as nat * 256 + r.days_low as nat;
        let t = rtc_total_seconds(r);
        assert(t < rtc_period()) by (nonlinear_arith)
            requires
                t == days * 86400 + r.hours as nat * 3600 + r.minutes as nat * 60 + r.seconds as nat,
                days < 512,
                r.hours < 24,
                r.minutes < 60,
                r.seconds < 60,
        ;
        vstd::arithmetic::div_mod::lemma_small_mod(t, rtc_period());
    } else {
        lemma_rtc_advance_counts_seconds(r, (n - 1) as nat);
        let prev = rtc_advance(r, (n - 1) as nat);
        lemma_rtc_increment_is_one_second(prev);
        vstd::arithmetic::div_mod::lemma_add_mod_noop(
            (rtc_total_seconds(r) + n - 1) as int,
            1,
            rtc_period() as int,
        );
        vstd::arithmetic::div_mod::lemma_mod_twice((rtc_total_seconds(r) + n - 1) as int, rtc_period() as int);
        vstd::arithmetic::div_mod::lemma_small_mod(1, rtc_period());
        let x = (rtc_total_seconds(r) + n - 1) as int;
        let p = rtc_period() as int;
        assert(rtc_total_seconds(prev) == x % p);
        assert(rtc_total_seconds(rtc_advance(r, n)) == (x % p + 1) % p);
        assert((x % p + 1int % p) % p == (x + 1) % p);
        assert(x + 1 == rtc_total_seconds(r) + n);
        assert(rtc_total_seconds(rtc_advance(r, n)) == (x + 1) % p);
        assert(rtc_in_range(rtc_advance(r, n)));
    }
}

/// A RAM image with clock registers stored at `offset`.
pub open spec fn ram_with_rtc(ram: Seq<u8>, offset: int, r: RtcRegisters) -> Seq<u8> {
    ram.update(offset, r.seconds).update(offset + 1, r.minutes).update(offset + 2, r.hours).update(
        offset + 3,
        r.days_low,
    ).update(offset + 4, r.days_high)
}

proof fn lemma_rtc_roundtrip(ram: Seq<u8>, offset: int, r: RtcRegisters, r2: RtcRegisters)
    requires
        0 <= offset,
        offset + 5 <= ram.len(),
    ensures
        rtc_at(ram_with_rtc(ram, offset, r), offset) == r,
        ram_with_rtc(ram_with_rtc(ram, offset, r), offset, r2) =~= ram_with_rtc(ram, offset, r2),
        ram_with_rtc(ram, offset, r).len() == ram.len(),
{
}

/// A little-endian 32-bit number stored at `offset`.
pub open spec fn le_u32(ram: Seq<u8>, offset: int) -> nat {
    ram[offset] as nat + ram[offset + 1] as nat * 0x100 + ram[offset + 2] as nat * 0x10000 + ram[offset + 3] as nat
        * 0x1000000
}

/// A RAM image with a 32-bit number stored at `offset`, little endian.
pub open spec fn ram_with_u32(ram: Seq<u8>, offset: int, v: u32) -> Seq<u8> {
    ram.update(offset, (v % 0x100) as u8).update(offset + 1, ((v / 0x100) % 0x100) as u8).update(
        offset + 2,
        ((v / 0x10000) % 0x100) as u8,
    ).update(offset + 3, (v / 0x1000000) as u8)
}

/// The MBC3 memory bank controller: 7-bit ROM bank number, four RAM banks
/// (eight are kept) and a real-time clock whose registers are mapped in
/// place of RAM banks 0x08..=0x0C.
pub struct MBC3 {
    pub rom: Vec<u8>,
    pub rom_bank: u8,
    pub external_ram: Vec<u8>,
    pub ram_enabled: bool,
    pub ram_bank: u8,
    pub latch_state: u8,
    pub has_battery_saves: bool,
    pub has_data_to_save: bool,
}

impl MBC3 {
    pub open spec fn wf(self) -> bool {
        self.external_ram.len() == SAVE_SIZE
    }

    pub open spec fn rtc(self) -> RtcRegisters {
        rtc_at(self.external_ram@, RTC_OFFSET as int)
    }

    pub open spec fn latched_rtc(self) -> RtcRegisters {
        rtc_at(self.external_ram@, LATCHED_RTC_OFFSET as int)
    }

    pub open spec fn stored_cycles(self) -> nat {
        le_u32(self.external_ram@, CYCLES_OFFSET as int)
    }

    pub open spec fn num_banks(self) -> nat {
        self.rom.len() as nat / 0x4000
    }

    /// The ROM bank mapped at 0x4000..=0x7FFF: the bank register masked by
    /// the bank count minus one.
    pub open spec fn rom_bank_index(self) -> nat {
        (self.rom_bank as usize & ((self.num_banks() - 1) as usize)) as nat
    }

    pub open spec fn ram_offset(self, address: u16) -> int {
        self.ram_bank as int * 0x2000 + address - 0xA000
    }

    pub open spec fn read_ok(self, address: u16) -> bool {
        address < 0x8000 ==> self.rom.len() >= 0x4000
    }

    /// What a read gives back: RAM banks 0..=7, the latched clock registers
    /// for banks 8..=0x0C, and 0xFF for other banks or while RAM is disabled.
    pub open spec fn read_value(self, address: u16) -> Option<u8> {
        if address < 0x4000 {
            Some(self.rom@[address as int])
        } else if address < 0x8000 {
            Some(self.rom@[self.rom_bank_index() * 0x4000 + address - 0x4000])
        } else if 0xA000 <= address <= 0xBFFF {
            if !self.ram_enabled {
                Some(0xFF)
            } else if self.ram_bank <= 7 {
                Some(self.external_ram@[self.ram_offset(address)])
            } else if self.ram_bank <= 0x0C {
                Some(self.external_ram@[LATCHED_RTC_OFFSET + self.ram_bank - 8])
            } else {
                Some(0xFF)
            }
        } else {
            None
        }
    }

    /// The controller after a write below 0x8000. A write of 0x00 then 0x01
    /// to 0x6000..=0x7FFF copies the running clock into the latched registers.
    pub open spec fn after_register_write(self, address: u16, value: u8) -> MBC3 {
        if address < 0x2000 {
            MBC3 { ram_enabled: value % 16 == 0x0A, ..self }
        } else if address < 0x4000 {
            MBC3 { rom_bank: if value % 128 == 0 { 1 } else { value % 128 }, ..self }
        } else if address < 0x6000 {
            MBC3 { ram_bank: value, ..self }
        } else if self.latch_state == 0 && value == 0 {
            MBC3 { latch_state: 1, ..self }
        } else {
            MBC3 { latch_state: 0, ..self }
        }
    }

    /// Whether a write below 0x8000 latches the clock.
    pub open spec fn latches(self, address: u16, value: u8) -> bool {
        0x6000 <= address < 0x8000 && self.latch_state == 1 && value == 1
    }

    /// The byte stored and its offset for a RAM-range write while RAM is
    /// enabled and the bank is a RAM bank or a clock register; clock
    /// registers keep only their implemented bits.
    pub open spec fn ram_store(self, address: u16, value: u8) -> (int, u8) {
        if self.ram_bank <= 7 {
            (self.ram_offset(address), value)
        } else if self.ram_bank == 8 {
            (RTC_OFFSET as int, value & 0x3F)
        } else if self.ram_bank == 9 {
            (RTC_OFFSET + 1, value & 0x3F)
        } else if self.ram_bank == 0x0A {
            (RTC_OFFSET + 2, value & 0x1F)
        } else if self.ram_bank == 0x0B {
            (RTC_OFFSET + 3, value)
        } else {
            (RTC_OFFSET + 4, value & 0xC1)
        }
    }

    /// The controller as it comes up with `rom` and saved `ram`: ROM bank 1, RAM bank 0, no latch under way, RAM
    /// access off, nothing to save, and `ram` at the start of its RAM (the
    /// rest cleared).
    pub open spec fn fresh(self, rom: Seq<u8>, ram: Seq<u8>, battery: bool) -> bool {
        &&& self.wf()
        &&& self.rom@ == rom
        &&& self.rom_bank == 1 && self.ram_bank == 0 && self.latch_state == 0
        &&& !self.ram_enabled && !self.has_data_to_save && self.has_battery_saves == battery
        &&& forall|i: int|
            0 <= i < self.external_ram.len() ==> self.external_ram@[i] == (if i < ram.len() { ram[i] } else { 0u8 })
    }

    pub fn new(rom: Vec<u8>, external_ram: Vec<u8>, has_battery_saves: bool) -> (r: Self)
        requires
            external_ram.len() <= SAVE_SIZE,
        ensures
            r.fresh(rom@, external_ram@, has_battery_saves),
            r.wf(),
            r.rom == rom,
            r.rom_bank == 1 && r.ram_bank == 0 && r.latch_state == 0,
            !r.ram_enabled && !r.has_data_to_save && r.has_battery_saves == has_battery_saves,
            forall|i: int| 0 <= i < r.external_ram.len() ==> r.external_ram@[i] == (if i < external_ram.len() {
                external_ram@[i]
            } else {
                0u8
            }),
    {
        let ram = copy_bytes(&external_ram, SAVE_SIZE);
        Self {
            rom,
            rom_bank: 1,
            external_ram: ram,
            ram_enabled: false,
            ram_bank: 0,
            latch_state: 0,
            has_battery_saves,
            has_data_to_save: false,
        }
    }

    pub fn load_u32(&self, offset: usize) -> (r: u32)
        requires
            offset + 4 <= self.external_ram.len(),
        ensures
            r as nat == le_u32(self.external_ram@, offset as int),
    {
        let b0 = self.external_ram[offset] as u32;
        let b1 = self.external_ram[offset + 1] as u32;
        let b2 = self.external_ram[offset + 2] as u32;
        let b3 = self.external_ram[offset + 3] as u32;
        assert(b0 < 256 && b1 < 256 && b2 < 256 && b3 < 256 ==> b0 | (b1 << 8u32) | (b2 << 16u32) | (b3 << 24u32)
            == b0 + b1 * 0x100 + b2 * 0x10000 + b3 * 0x1000000) by (bit_vector);
        b0 | (b1 << 8) | (b2 << 16) | (b3 << 24)
    }

    pub fn store_u32(&mut self, offset: usize, value: u32)
        requires
            offset + 4 <= old(self).external_ram.len(),
        ensures
            final(self).external_ram@ == ram_with_u32(old(self).external_ram@, offset as int, value),
            *final(self) == (MBC3 { external_ram: final(self).external_ram, ..*old(self) }),
    {
        assert((value & 0xFF) as u8 == value % 0x100 && ((value >> 8u32) & 0xFF) as u8 == (value / 0x100) % 0x100 && ((value
            >> 16u32) & 0xFF) as u8 == (value / 0x10000) % 0x100 && (value >> 24u32) as u8 == value / 0x1000000 && value
            / 0x1000000 < 256) by (bit_vector);
        self.external_ram.set(offset, (value & 0xFF) as u8);
        self.external_ram.set(offset + 1, ((value >> 8) & 0xFF) as u8);
        self.external_ram.set(offset + 2, ((value >> 16) & 0xFF) as u8);
        self.external_ram.set(offset + 3, (value >> 24) as u8);
    }

    pub fn rtc_seconds(&self) -> (r: u8)
        requires
            self.wf(),
        ensures
            r == self.rtc().seconds,
    {
        self.external_ram[RTC_OFFSET]
    }

    pub fn set_rtc_seconds(&mut self, value: u8)
        requires
            old(self).wf(),
        ensures
            final(self).external_ram@ == old(self).external_ram@.update(RTC_OFFSET as int, value),
            *final(self) == (MBC3 { external_ram: final(self).external_ram, ..*old(self) }),
    {
        self.external_ram.set(RTC_OFFSET, value);
    }

    pub fn rtc_minutes(&self) -> (r: u8)
        requires
            self.wf(),
        ensures
            r == self.rtc().minutes,
    {
        self.external_ram[RTC_OFFSET + 1]
    }

    pub fn set_rtc_minutes(&mut self, value: u8)
        requires
            old(self).wf(),
        ensures
            final(self).external_ram@ == old(self).external_ram@.update(RTC_OFFSET + 1, value),
            *final(self) == (MBC3 { external_ram: final(self).external_ram, ..*old(self) }),
    {
        self.external_ram.set(RTC_OFFSET + 1, value);
    }

    pub fn rtc_hours(&self) -> (r: u8)
        requires
            self.wf(),
        ensures
            r == self.rtc().hours,
    {
        self.external_ram[RTC_OFFSET + 2]
    }

    pub fn set_rtc_hours(&mut self, value: u8)
        requires
            old(self).wf(),
        ensures
            final(self).external_ram@ == old(self).external_ram@.update(RTC_OFFSET + 2, value),
            *final(self) == (MBC3 { external_ram: final(self).external_ram, ..*old(self) }),
    {
        self.external_ram.set(RTC_OFFSET + 2, value);
    }

    pub fn rtc_days_low(&self) -> (r: u8)
        requires
            self.wf(),
        ensures
            r == self.rtc().days_low,
    {
        self.external_ram[RTC_OFFSET + 3]
    }

    pub fn set_rtc_days_low(&mut self, value: u8)
        requires
            old(self).wf(),
        ensures
            final(self).external_ram@ == old(self).external_ram@.update(RTC_OFFSET + 3, value),
            *final(self) == (MBC3 { external_ram: final(self).external_ram, ..*old(self) }),
    {
        self.external_ram.set(RTC_OFFSET + 3, value);
    }

    pub fn rtc_days_high(&self) -> (r: u8)
        requires
            self.wf(),
        ensures
            r == self.rtc().days_high,
    {
        self.external_ram[RTC_OFFSET + 4]
    }

    pub fn set_rtc_days_high(&mut self, value: u8)
        requires
            old(self).wf(),
        ensures
            final(self).external_ram@ == old(self).external_ram@.update(RTC_OFFSET + 4, value),
            *final(self) == (MBC3 { external_ram: final(self).external_ram, ..*old(self) }),
    {
        self.external_ram.set(RTC_OFFSET + 4, value);
    }

    pub fn rtc_latched_seconds(&self) -> (r: u8)
        requires
            self.wf(),
        ensures
            r == self.latched_rtc().seconds,
    {
        self.external_ram[LATCHED_RTC_OFFSET]
    }

    pub fn set_rtc_latched_seconds(&mut self, value: u8)
        requires
            old(self).wf(),
        ensures
            final(self).external_ram@ == old(self).external_ram@.update(LATCHED_RTC_OFFSET as int, value),
            *final(self) == (MBC3 { external_ram: final(self).external_ram, ..*old(self) }),
    {
        self.external_ram.set(LATCHED_RTC_OFFSET, value);
    }

    pub fn rtc_latched_minutes(&self) -> (r: u8)
        requires
            self.wf(),
        ensures
            r == self.latched_rtc().minutes,
    {
        self.external_ram[LATCHED_RTC_OFFSET + 1]
    }

    pub fn set_rtc_latched_minutes(&mut self, value: u8)
        requires
            old(self).wf(),
        ensures
            final(self).external_ram@ == old(self).external_ram@.update(LATCHED_RTC_OFFSET + 1, value),
            *final(self) == (MBC3 { external_ram: final(self).external_ram, ..*old(self) }),
    {
        self.external_ram.set(LATCHED_RTC_OFFSET + 1, value);
    }

    pub fn rtc_latched_hours(&self) -> (r: u8)
        requires
            self.wf(),
        ensures
            r == self.latched_rtc().hours,
    {
        self.external_ram[LATCHED_RTC_OFFSET + 2]
    }

    pub fn set_rtc_latched_hours(&mut self, value: u8)
        requires
            old(self).wf(),
        ensures
            final(self).external_ram@ == old(self).external_ram@.update(LATCHED_RTC_OFFSET + 2, value),
            *final(self) == (MBC3 { external_ram: final(self).external_ram, ..*old(self) }),
    {
        self.external_ram.set(LATCHED_RTC_OFFSET + 2, value);
    }

    pub fn rtc_latched_days_low(&self) -> (r: u8)
        requires
            self.wf(),
        ensures
            r == self.latched_rtc().days_low,
    {
        self.external_ram[LATCHED_RTC_OFFSET + 3]
    }

    pub fn set_rtc_latched_days_low(&mut self, value: u8)
        requires
            old(self).wf(),
        ensures
            final(self).external_ram@ == old(self).external_ram@.update(LATCHED_RTC_OFFSET + 3, value),
            *final(self) == (MBC3 { external_ram: final(self).external_ram, ..*old(self) }),
    {
        self.external_ram.set(LATCHED_RTC_OFFSET + 3, value);
    }

    pub fn rtc_latched_days_high(&self) -> (r: u8)
        requires
            self.wf(),
        ensures
            r == self.latched_rtc().days_high,
    {
        self.external_ram[LATCHED_RTC_OFFSET + 4]
    }

    pub fn set_rtc_latched_days_high(&mut self, value: u8)
        requires
            old(self).wf(),
        ensures
            final(self).external_ram@ == old(self).external_ram@.update(LATCHED_RTC_OFFSET + 4, value),
            *final(self) == (MBC3 { external_ram: final(self).external_ram, ..*old(self) }),
    {
        self.external_ram.set(LATCHED_RTC_OFFSET + 4, value);
    }
}

impl MBC3 {
    pub fn read(&self, address: u16) -> (r: Option<u8>)
        requires
            self.wf(),
            self.read_ok(address),
        ensures
            r == self.read_value(address),
    {
        match address {
            0x0000..=0x3FFF => Some(self.rom[address as usize]),
            0x4000..=0x7FFF => {
                let bank = self.rom_bank();
                proof {
                    assert(bank * 0x4000 + 0x4000 <= self.rom.len()) by (nonlinear_arith)
                        requires
                            bank < self.rom.len() as nat / 0x4000,
                    ;
                }
                Some(self.rom[bank * 0x4000 + address as usize - 0x4000])
            },
            0xA000..=0xBFFF => {
                if !self.ram_enabled {
                    return Some(0xFF);
                }
                match self.ram_bank {
                    0x00..=0x07 => {
                        let offset = self.ram_bank as usize * EXTERNAL_RAM_SIZE + (address as usize - 0xA000);
                        Some(self.external_ram[offset])
                    },
                    0x08 => Some(self.rtc_latched_seconds()),
                    0x09 => Some(self.rtc_latched_minutes()),
                    0x0A => Some(self.rtc_latched_hours()),
                    0x0B => Some(self.rtc_latched_days_low()),
                    0x0C => Some(self.rtc_latched_days_high()),
                    _ => Some(0xFF),
                }
            },
            _ => None,
        }
    }

    pub fn write(&mut self, address: u16, value: u8) -> (r: bool)
        requires
            old(self).wf(),
        ensures
            final(self).wf(),
            r == (address < 0x8000 || (0xA000 <= address <= 0xBFFF && (!old(self).ram_enabled || old(self).ram_bank
                <= 0x0C))),
            address < 0x8000 && !old(self).latches(address, value) ==> *final(self) == old(self).after_register_write(
                address,
                value,
            ),
            address < 0x8000 && old(self).latches(address, value) ==> {
                &&& final(self).external_ram@ == ram_with_rtc(
                    old(self).external_ram@,
                    LATCHED_RTC_OFFSET as int,
                    old(self).rtc(),
                )
                &&& *final(self) == (MBC3 {
                    external_ram: final(self).external_ram,
                    latch_state: 0,
                    ..*old(self)
                })
            },
            0xA000 <= address <= 0xBFFF && old(self).ram_enabled && old(self).ram_bank <= 0x0C ==> {
                let (offset, byte) = old(self).ram_store(address, value);
                &&& final(self).external_ram@ == old(self).external_ram@.update(offset, byte)
                &&& *final(self) == (MBC3 {
                    external_ram: final(self).external_ram,
                    has_data_to_save: old(self).has_battery_saves,
                    ..*old(self)
                })
            },
            !(address < 0x8000) && !(0xA000 <= address <= 0xBFFF && old(self).ram_enabled && old(self).ram_bank
                <= 0x0C) ==> *final(self) == *old(self),
    {
        match address {
            0x0000..=0x1FFF => {
                assert(value & 0x0F == value % 16) by { lemma_byte_fields(); }
                self.ram_enabled = (value & 0x0F) == 0x0A;
            },
            0x2000..=0x3FFF => {
                assert(value & 0x7F == value % 128) by { lemma_byte_fields(); }
                let mut bank = value & 0x7F;
                if bank == 0 {
                    bank = 1;
                }
                self.rom_bank = bank;
            },
            0x4000..=0x5FFF => {
                self.ram_bank = value;
            },
            0x6000..=0x7FFF => {
                if self.latch_state == 0 && value == 0x00 {
                    self.latch_state = 1;
                } else if self.latch_state == 1 && value == 0x01 {
                    let s = self.rtc_seconds();
                    self.set_rtc_latched_seconds(s);
                    let m = self.rtc_minutes();
                    self.set_rtc_latched_minutes(m);
                    let h = self.rtc_hours();
                    self.set_rtc_latched_hours(h);
                    let dl = self.rtc_days_low();
                    self.set_rtc_latched_days_low(dl);
                    let dh = self.rtc_days_high();
                    self.set_rtc_latched_days_high(dh);
                    self.latch_state = 0;
                } else {
                    self.latch_state = 0;
                }
            },
            0xA000..=0xBFFF => {
                if !self.ram_enabled {
                    return true;
                }
                match self.ram_bank {
                    0x00..=0x07 => {
                        let offset = self.ram_bank as usize * EXTERNAL_RAM_SIZE + (address as usize - 0xA000);
                        self.external_ram.set(offset, value);
                    },
                    0x08 => self.set_rtc_seconds(value & 0x3F),
                    0x09 => self.set_rtc_minutes(value & 0x3F),
                    0x0A => self.set_rtc_hours(value & 0x1F),
                    0x0B => self.set_rtc_days_low(value),
                    0x0C => self.set_rtc_days_high(value & 0xC1),
                    _ => {
                        return false;
                    },
                }
                self.has_data_to_save = self.has_battery_saves;
            },
            _ => {
                return false;
            },
        }
        true
    }

    pub fn rom_bank(&self) -> (r: usize)
        requires
            self.rom.len() >= 0x4000,
        ensures
            r == self.rom_bank_index(),
            r < self.num_banks(),
    {
        let num_banks = self.rom.len() / 0x4000;
        let bank = self.rom_bank as usize;
        let mask = num_banks - 1;
        assert(bank & mask <= mask) by (bit_vector);
        bank & mask
    }

    /// Hands out a copy of the saved RAM (RAM banks, clock registers and
    /// pending cycles) and whether it changed since the last call.
    pub fn save_data(&mut self) -> (r: (Vec<u8>, bool))
        ensures
            r.0@ == old(self).external_ram@,
            r.1 == old(self).has_data_to_save,
            *final(self) == (MBC3 { has_data_to_save: false, ..*old(self) }),
    {
        let data = copy_bytes(&self.external_ram, self.external_ram.len());
        let changed = self.has_data_to_save;
        self.has_data_to_save = false;
        (data, changed)
    }

    /// `after` is this controller once its clock has counted `cycles` (see
    /// `tick`): unchanged while the clock is halted (day-high bit 6);
    /// otherwise the cycles join those pending, the whole seconds among them
    /// advance the clock and the rest stay pending.
    pub open spec fn ticked_to(self, cycles: nat, after: MBC3) -> bool {
        if (self.rtc().days_high / 64) % 2 == 1 {
            after == self
        } else {
            let total = self.stored_cycles() + cycles;
            &&& after.external_ram@ == ram_with_u32(
                ram_with_rtc(
                    self.external_ram@,
                    RTC_OFFSET as int,
                    rtc_advance(self.rtc(), total / CYCLES_PER_SECOND as nat),
                ),
                CYCLES_OFFSET as int,
                (total % CYCLES_PER_SECOND as nat) as u32,
            )
            &&& after == (MBC3 { external_ram: after.external_ram, has_data_to_save: self.has_battery_saves, ..self })
        }
    }

    /// Counts `cycles` CPU cycles on the real-time clock unless it is halted
    /// (day-high bit 6): the cycles join those pending, every whole second
    /// among them advances the clock by one second, and the rest stay pending.
    pub fn tick(&mut self, cycles: u32)
        requires
            old(self).wf(),
            old(self).stored_cycles() + cycles <= u32::MAX,
        ensures
            final(self).wf(),
            old(self).ticked_to(cycles as nat, *final(self)),
    {
        let dh = self.rtc_days_high();
        assert((dh & 0x40 != 0) == ((dh / 64) % 2 == 1)) by { lemma_byte_fields(); }
        if dh & 0x40 != 0 {
            return;
        }
        let ghost start = *self;
        let mut stored_cycles = self.load_u32(CYCLES_OFFSET);
        stored_cycles += cycles;
        let ghost total = stored_cycles as nat;
        let mut n: u32 = 0;
        proof {
            assert(start.external_ram@ =~= ram_with_rtc(start.external_ram@, RTC_OFFSET as int, start.rtc()));
        }
        while stored_cycles >= CYCLES_PER_SECOND
            invariant
                self.wf(),
                stored_cycles as nat + n as nat * CYCLES_PER_SECOND as nat == total,
                total <= u32::MAX,
                n <= 1024,
                start.wf(),
                self.external_ram@ == ram_with_rtc(start.external_ram@, RTC_OFFSET as int, rtc_advance(start.rtc(), n as nat)),
                *self == (MBC3 { external_ram: self.external_ram, ..start }),
            decreases stored_cycles,
        {
            stored_cycles -= CYCLES_PER_SECOND;
            proof {
                assert((n + 1) as nat * CYCLES_PER_SECOND as nat <= total);
                assert(n + 1 <= 1024) by (nonlinear_arith)
                    requires
                        (n + 1) as nat * 4194304 <= total,
                        total <= 0xFFFF_FFFF,
                ;
                lemma_rtc_roundtrip(start.external_ram@, RTC_OFFSET as int, rtc_advance(start.rtc(), n as nat), rtc_advance(start.rtc(), (n + 1) as nat));
            }
            self.increment_rtc();
            proof {
                assert(self.external_ram@ =~= ram_with_rtc(start.external_ram@, RTC_OFFSET as int, rtc_advance(start.rtc(), (n + 1) as nat)));
            }
            n = n + 1;
        }
        proof {
            vstd::arithmetic::div_mod::lemma_fundamental_div_mod_converse(
                total as int,
                CYCLES_PER_SECOND as int,
                n as int,
                stored_cycles as int,
            );
        }
        self.store_u32(CYCLES_OFFSET, stored_cycles);
        self.has_data_to_save = self.has_battery_saves;
    }

    /// Advances the running clock by one second.
    pub fn increment_rtc(&mut self)
        requires
            old(self).wf(),
        ensures
            final(self).external_ram@ == ram_with_rtc(old(self).external_ram@, RTC_OFFSET as int, rtc_increment(old(self).rtc())),
            *final(self) == (MBC3 { external_ram: final(self).external_ram, ..*old(self) }),
    {
        let ghost r0 = self.rtc();
        let seconds = self.rtc_seconds().wrapping_add(1);
        if seconds >= 60 {
            self.set_rtc_seconds(0);
            let minutes = self.rtc_minutes().wrapping_add(1);
            if minutes >= 60 {
                self.set_rtc_minutes(0);
                let hours = self.rtc_hours().wrapping_add(1);
                if hours >= 24 {
                    self.set_rtc_hours(0);
                    let days_high = self.rtc_days_high();
                    let days_low = self.rtc_days_low();
                    let days = ((days_high & 0x01) as u16) << 8 | days_low as u16;
                    assert((((days_high & 0x01) as u16) << 8u16) | (days_low as u16) == (days_high % 2) as u16 * 256
                        + days_low as u16) by (bit_vector);
                    let new_days = days + 1;
                    let lo = (new_days & 0xFF) as u8;
                    assert(new_days <= 512 ==> (new_days & 0xFF) as u8 == new_days % 256) by (bit_vector);
                    self.set_rtc_days_low(lo);
                    let hi = (days_high & 0xFE) | ((new_days >> 8) as u8 & 0x01);
                    assert(new_days <= 512 ==> (days_high & 0xFE) | ((new_days >> 8u16) as u8 & 0x01) == (days_high / 2)
                        * 2 + (if new_days < 512 { new_days / 256 } else { 0 })) by (bit_vector);
                    self.set_rtc_days_high(hi);
                    if new_days >= 512 {
                        let wrapped = (days_high | 0x80) & !0x01;
                        assert((days_high | 0x80) & !0x01u8 == (days_high / 2) * 2 + 0x80 - (if (days_high / 0x80) % 2 == 1 {
                            0x80u8
                        } else {
                            0u8
                        })) by (bit_vector);
                        self.set_rtc_days_high(wrapped);
                        self.set_rtc_days_low(0);
                    }
                } else {
                    self.set_rtc_hours(hours);
                }
            } else {
                self.set_rtc_minutes(minutes);
            }
        } else {
            self.set_rtc_seconds(seconds);
        }
        proof {
            assert(self.external_ram@ =~= ram_with_rtc(old(self).external_ram@, RTC_OFFSET as int, rtc_increment(r0)));
        }
    }
}

} // verus!

verus! {

/// Reading a RAM bank (0..=7) right after writing it gives back the byte
/// written, and leaves every other address of the bank as it was.
pub proof fn lemma_mbc3_ram_read_after_write(m: MBC3, after: MBC3, address: u16, other: u16, value: u8)
    requires
        m.wf(),
        m.ram_enabled,
        m.ram_bank <= 7,
        0xA000 <= address <= 0xBFFF,
        0xA000 <= other <= 0xBFFF,
        after.external_ram@ == m.external_ram@.update(m.ram_store(address, value).0, m.ram_store(address, value).1),
        after == (MBC3 { external_ram: after.external_ram, has_data_to_save: m.has_battery_saves, ..m }),
    ensures
        after.read_value(address) == Some(value),
        other != address ==> after.read_value(other) == m.read_value(other),
{
}

/// After a latch (0x00 then 0x01 written to 0x6000..=0x7FFF), the clock
/// registers read through banks 0x08..=0x0C are the running clock's values
/// at the time of the latch.
pub proof fn lemma_mbc3_latch_shows_clock(m: MBC3, after: MBC3, address: u16, value: u8, read_at: u16)
    requires
        m.wf(),
        m.latches(address, value),
        after.external_ram@ == ram_with_rtc(m.external_ram@, LATCHED_RTC_OFFSET as int, m.rtc()),
        after == (MBC3 { external_ram: after.external_ram, latch_state: 0, ..m }),
        m.ram_enabled,
        0xA000 <= read_at <= 0xBFFF,
    ensures
        after.latched_rtc() == m.rtc(),
        m.ram_bank == 8 ==> after.read_value(read_at) == Some(m.rtc().seconds),
        m.ram_bank == 9 ==> after.read_value(read_at) == Some(m.rtc().minutes),
        m.ram_bank == 0x0A ==> after.read_value(read_at) == Some(m.rtc().hours),
        m.ram_bank == 0x0B ==> after.read_value(read_at) == Some(m.rtc().days_low),
        m.ram_bank == 0x0C ==> after.read_value(read_at) == Some(m.rtc().days_high),
{
}


/// One second on the clock leaves its halt bit (day-high bit 6) as it was.
proof fn lemma_rtc_increment_keeps_halt(r: RtcRegisters)
    ensures
        (rtc_increment(r).days_high / 64) % 2 == (r.days_high / 64) % 2,
{
    let dh = r.days_high as int;
    assert(((dh / 2) * 2 / 64) % 2 == (dh / 64) % 2);
    assert(((dh / 2) * 2 + 1) / 64 % 2 == (dh / 64) % 2);
    assert(dh / 0x80 % 2 == 0 ==> ((dh / 2) * 2 + 0x80) / 64 % 2 == (dh / 64) % 2);
}

/// Any number of seconds on the clock leaves its halt bit as it was.
proof fn lemma_rtc_advance_keeps_halt(r: RtcRegisters, n: nat)
    ensures
        (rtc_advance(r, n).days_high / 64) % 2 == (r.days_high / 64) % 2,
    decreases n,
{
    if n > 0 {
        lemma_rtc_advance_keeps_halt(r, (n - 1) as nat);
        lemma_rtc_increment_keeps_halt(rtc_advance(r, (n - 1) as nat));
    }
}

/// Advancing the clock `x` seconds and then `y` is advancing it `x + y`.
proof fn lemma_rtc_advance_adds(r: RtcRegisters, x: nat, y: nat)
    ensures
        rtc_advance(rtc_advance(r, x), y) == rtc_advance(r, x + y),
    decreases y,
{
    if y > 0 {
        lemma_rtc_advance_adds(r, x, (y - 1) as nat);
    }
}

/// Two runs of the clock, `a` cycles and then `b`, leave the controller as
/// one run of `a + b` cycles does: the part of a second left over from the
/// first run is carried into the second.
pub proof fn lemma_ticks_add(m: MBC3, m1: MBC3, m2: MBC3, m3: MBC3, a: nat, b: nat)
    requires
        m.wf(),
        m.stored_cycles() + a + b <= u32::MAX,
        m.ticked_to(a, m1),
        m1.ticked_to(b, m2),
        m.ticked_to(a + b, m3),
    ensures
        m2.external_ram@ == m3.external_ram@,
        m2 == (MBC3 { external_ram: m2.external_ram, ..m3 }),
{
    if (m.rtc().days_high / 64) % 2 == 0 {
        let c = CYCLES_PER_SECOND as nat;
        let t1 = m.stored_cycles() + a;
        let r1 = rtc_advance(m.rtc(), t1 / c);
        let x1 = ram_with_rtc(m.external_ram@, RTC_OFFSET as int, r1);
        lemma_rtc_roundtrip(m.external_ram@, RTC_OFFSET as int, r1, r1);
        assert(rtc_at(m1.external_ram@, RTC_OFFSET as int) == rtc_at(x1, RTC_OFFSET as int));
        assert(m1.rtc() == r1);
        lemma_rtc_advance_keeps_halt(m.rtc(), t1 / c);
        crate::mbc::lemma_u32_roundtrip(x1, CYCLES_OFFSET as int, (t1 % c) as u32);
        assert(m1.stored_cycles() == t1 % c);
        let t2 = t1 % c + b;
        let t = m.stored_cycles() + a + b;
        vstd::arithmetic::div_mod::lemma_fundamental_div_mod(t1 as int, c as int);
        vstd::arithmetic::div_mod::lemma_fundamental_div_mod(t2 as int, c as int);
        vstd::arithmetic::div_mod::lemma_mod_bound(t2 as int, c as int);
        vstd::arithmetic::mul::lemma_mul_is_distributive_add(c as int, (t1 / c) as int, (t2 / c) as int);
        assert(t == c * (t1 / c + t2 / c) + t2 % c);
        vstd::arithmetic::div_mod::lemma_fundamental_div_mod_converse(
            t as int,
            c as int,
            (t1 / c + t2 / c) as int,
            (t2 % c) as int,
        );
        lemma_rtc_advance_adds(m.rtc(), t1 / c, t2 / c);
        let r = rtc_advance(m.rtc(), t / c);
        lemma_rtc_roundtrip(x1, RTC_OFFSET as int, r1, r);
        assert(m2.external_ram@ =~= m3.external_ram@);
    }
}

} // verus!
