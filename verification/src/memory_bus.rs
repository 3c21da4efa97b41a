use vstd::prelude::*;
use crate::audio::apu::Audio;
use crate::mbc::{cartridge_family, MBC};
use crate::model::ModelType;
use crate::ppu::PPU;
use crate::ppu::timing::dots_ticked;
use crate::timer::{timer_tick, Timer};

verus! {

/// Size of one bank of work RAM.
pub const WRAM_SIZE: usize = 0x1000;
/// Number of switchable work RAM banks (1..=7) besides bank 0.
pub const WRAM_TOTAL_BANKS: usize = 7;
/// Size of high RAM (0xFF80..=0xFFFE).
pub const HIGH_RAM_SIZE: usize = 127;
/// The two serial transfer registers (0xFF01, 0xFF02).
pub const SERIAL_TRANSFER_SIZE: usize = 2;

/// The OAM DMA engine: `init_delay` cycles after a write of 0xFF46 it
/// becomes active and copies one byte every four cycles from `source` to
/// OAM, `byte` counting the bytes copied.
#[derive(Clone, Copy, Debug, PartialEq, Eq, Structural)]
pub struct DMA {
    pub active: bool,
    pub init_delay: u8,
    pub pause: u8,
    pub byte: u8,
    pub source: u16,
}

/// The address space the CPU sees: the cartridge, the PPU, the audio unit,
/// the timer, banked work RAM, high RAM and the I/O registers; every access
/// through `read` and `write` runs the hardware for four cycles.
pub struct MemoryBus {
    pub mbc: MBC,
    pub ppu: PPU,
    pub audio: Audio,
    pub timer: Timer,
    pub dma: DMA,
    pub wram: Vec<u8>,
    pub wram_bank: u8,
    pub high_ram: Vec<u8>,
    pub joypad_selection: u8,
    pub joypad_pressed_directions: u8,
    pub joypad_pressed_buttons: u8,
    pub serial_transfer: Vec<u8>,
    pub if_flag: u8,
    pub ie_flag: u8,
    pub key0: u8,
    pub key1: u8,
    pub boot_rom_mapping_control: u8,
    pub ir_port: u8,
    pub oam_dma_transfer: u8,
    pub total_cycles: u8,
    pub model_type: ModelType,
    /// Set when the PPU completes a frame; cleared by whoever shows it.
    pub frame_ready: bool,
}

/// Echo RAM (0xE000..=0xFDFF) mirrors 0xC000..=0xDDFF.
pub open spec fn echo(address: u16) -> u16 {
    if 0xE000 <= address <= 0xFDFF {
        (address - 0x2000) as u16
    } else {
        address
    }
}

/// The addresses the bus answers (after the echo mapping); any other
/// access stops the emulator.
pub open spec fn mapped(a: u16) -> bool {
    ||| a <= 0xDFFF
    ||| 0xFE00 <= a <= 0xFF02
    ||| 0xFF04 <= a <= 0xFF07
    ||| a == 0xFF0F
    ||| 0xFF10 <= a <= 0xFF3F
    ||| (0xFF40 <= a <= 0xFF4D && a != 0xFF4E)
    ||| a == 0xFF4F
    ||| a == 0xFF50
    ||| a == 0xFF56
    ||| 0xFF68 <= a <= 0xFF6C
    ||| a == 0xFF70
    ||| a >= 0xFF80
}

impl MemoryBus {
    /// The bank seen at 0xD000..=0xDFFF: the selected one on a Color model,
    /// bank 1 on a DMG.
    pub open spec fn d_bank(self) -> int {
        if self.model_type == ModelType::Color {
            self.wram_bank as int
        } else {
            1
        }
    }

    /// The joypad register: the selection in bits 5..4, the selected
    /// group's pressed keys (active low) in bits 3..0.
    pub open spec fn joypad_value(self) -> u8 {
        let base = 0xC0u8 | (self.joypad_selection << 4u8);
        if self.joypad_selection == 1 {
            base | self.joypad_pressed_buttons
        } else if self.joypad_selection == 2 {
            base | self.joypad_pressed_directions
        } else {
            base | 0x0F
        }
    }

    /// What the bus itself holds at `a` (work RAM, high RAM, I/O).
    pub open spec fn io_value(self, a: u16) -> Option<u8> {
        if 0xC000 <= a <= 0xCFFF {
            Some(self.wram@[a - 0xC000])
        } else if 0xD000 <= a <= 0xDFFF {
            Some(self.wram@[self.d_bank() * 0x1000 + a - 0xD000])
        } else if 0xFEA0 <= a <= 0xFEFF {
            Some(0)
        } else if a == 0xFF00 {
            Some(self.joypad_value())
        } else if 0xFF01 <= a <= 0xFF02 {
            Some(self.serial_transfer@[a - 0xFF01])
        } else if a == 0xFF04 {
            Some((self.timer.counter / 256) as u8)
        } else if a == 0xFF05 {
            Some(self.timer.tima)
        } else if a == 0xFF06 {
            Some(self.timer.tma)
        } else if a == 0xFF07 {
            Some(self.timer.tac)
        } else if a == 0xFF0F {
            Some(self.if_flag)
        } else if a == 0xFF46 {
            Some(self.oam_dma_transfer)
        } else if a == 0xFF4C {
            Some(self.key0)
        } else if a == 0xFF4D {
            Some(self.key1)
        } else if a == 0xFF50 {
            Some(self.boot_rom_mapping_control)
        } else if a == 0xFF56 {
            Some(self.ir_port)
        } else if a == 0xFF70 {
            Some(if self.model_type == ModelType::Color { self.wram_bank } else { 0xFF })
        } else if 0xFF80 <= a <= 0xFFFE {
            Some(self.high_ram@[a - 0xFF80])
        } else if a == 0xFFFF {
            Some(self.ie_flag)
        } else {
            None
        }
    }

    /// What a read of `address` gives back: the cartridge first, then the
    /// PPU, the audio unit and the bus's own memory and registers.
    pub open spec fn read_value(self, address: u16) -> Option<u8> {
        let a = echo(address);
        if self.mbc.read_value(a) is Some {
            self.mbc.read_value(a)
        } else if self.ppu.read_value(a) is Some {
            self.ppu.read_value(a)
        } else if self.audio.read_value(a) is Some {
            self.audio.read_value(a)
        } else {
            self.io_value(a)
        }
    }

    /// A read of `address` is answered (the emulator stops otherwise).
    pub open spec fn read_ok(self, address: u16) -> bool {
        self.mbc.read_ok(echo(address)) && mapped(echo(address))
    }

    /// Sizes of the memories, the selected banks, the joypad selection and
    /// a DMA transfer under way that has bytes left to copy.
    pub open spec fn wf(self) -> bool {
        &&& self.mbc.wf()
        &&& self.ppu.can_tick()
        &&& self.ppu.access_ok()
        &&& self.audio.wf()
        &&& self.wram.len() == WRAM_SIZE * (WRAM_TOTAL_BANKS + 1)
        &&& self.high_ram.len() == HIGH_RAM_SIZE
        &&& self.serial_transfer.len() == SERIAL_TRANSFER_SIZE
        &&& 1 <= self.wram_bank <= 7
        &&& self.joypad_selection <= 3
        &&& (self.dma.active || self.dma.init_delay > 0) ==> self.dma.byte < 160 && self.dma.pause <= 4
        &&& self.dma.source <= 0xFF00
    }
}

/// The cartridge answers every read it is asked for in its ranges.
proof fn lemma_mbc_answers(m: MBC, a: u16)
    requires
        m.wf(),
        a < 0x8000 || 0xA000 <= a <= 0xBFFF,
    ensures
        m.read_value(a) is Some,
{
}

/// The PPU answers every address it owns.
proof fn lemma_ppu_answers(p: PPU, a: u16)
    requires
        PPU::owns(a),
    ensures
        p.read_value(a) is Some,
{
}

/// The audio unit answers 0xFF10..=0xFF3F.
proof fn lemma_audio_answers(s: Audio, a: u16)
    requires
        0xFF10 <= a <= 0xFF3F,
    ensures
        s.read_value(a) is Some,
{
}

impl MemoryBus {
    /// Every address that can be read is answered.
    pub proof fn lemma_read_answered(self, address: u16)
        requires
            self.wf(),
            self.read_ok(address),
        ensures
            self.read_value(address) is Some,
    {
        let a = echo(address);
        if a < 0x8000 || 0xA000 <= a <= 0xBFFF {
            lemma_mbc_answers(self.mbc, a);
        } else if PPU::owns(a) {
            lemma_ppu_answers(self.ppu, a);
        } else if 0xFF10 <= a <= 0xFF3F {
            lemma_audio_answers(self.audio, a);
        }
    }

    /// A bus for `rom`: the model named by the header (0x0143), the
    /// cartridge's controller with empty RAM, and every register at its
    /// power-up value.
    pub fn new(rom: Vec<u8>) -> (r: Self)
        requires
            rom.len() > 0x0147,
            cartridge_family(rom@[0x0147]).is_some(),
        ensures
            r.wf(),
            r.model_type == (if rom@[0x0143] == 0xC0 { ModelType::Color } else { ModelType::DMG }),
            r.mbc.family() == cartridge_family(rom@[0x0147]).unwrap(),
            r.mbc.rom() == rom@,
            r.wram@ == Seq::new(0x8000, |i: int| 0u8),
            r.high_ram@ == Seq::new(127, |i: int| 0u8),
            r.serial_transfer@ == seq![0u8, 0u8],
            r.dma == (DMA { active: false, init_delay: 0, pause: 0, byte: 0, source: 0 }),
            r.wram_bank == 1,
            r.joypad_selection == 0,
            r.joypad_pressed_directions == 0x0F,
            r.joypad_pressed_buttons == 0x0F,
            r.if_flag == 0xE1,
            r.ie_flag == 0 && r.key0 == 0 && r.key1 == 0,
            r.boot_rom_mapping_control == 0 && r.ir_port == 0 && r.oam_dma_transfer == 0,
            r.total_cycles == 0,
            !r.frame_ready,
            r.timer == (Timer { counter: 0, tima: 0, tma: 0, tac: 0, previous_tma: 0, reload_delay: 0 }),
            r.ppu.model_type == r.model_type && r.ppu.mode == 2 && r.ppu.lcdc == 0x91 && r.ppu.ly == 0,
            r.ppu.vram@ == Seq::new(0x4000, |i: int| 0u8),
            r.ppu.oam@ == Seq::new(0xA0, |i: int| 0u8),
            r.audio.nr50 == 0x77 && r.audio.nr51 == 0xF3 && r.audio.nr52 == 0xF1,
    {
        let model_type = if rom[0x0143] == 0xC0 { ModelType::Color } else { ModelType::DMG };
        MemoryBus {
            mbc: MBC::new(rom, Vec::new()),
            ppu: PPU::new(model_type),
            audio: Audio::new(model_type),
            timer: Timer::new(),
            dma: DMA { active: false, init_delay: 0, pause: 0, byte: 0, source: 0 },
            wram: vec![0u8; 0x8000],
            wram_bank: 1,
            high_ram: vec![0u8; 127],
            joypad_selection: 0,
            joypad_pressed_directions: 0x0F,
            joypad_pressed_buttons: 0x0F,
            serial_transfer: vec![0u8; 2],
            if_flag: 0xE1,
            ie_flag: 0,
            key0: 0,
            key1: 0,
            boot_rom_mapping_control: 0,
            ir_port: 0,
            oam_dma_transfer: 0,
            total_cycles: 0,
            model_type,
            frame_ready: false,
        }
    }

    /// The byte at `address`, without running the hardware.
    pub fn read_without_tick(&self, address: u16) -> (r: u8)
        requires
            self.wf(),
            self.read_ok(address),
        ensures
            self.read_value(address) == Some(r),
    {
        proof {
            self.lemma_read_answered(address);
        }
        let a = if 0xE000 <= address && address <= 0xFDFF { address - 0x2000 } else { address };
        match self.mbc.read(a) {
            Some(v) => {
                return v;
            },
            None => {},
        }
        match self.ppu.read(a) {
            Some(v) => {
                return v;
            },
            None => {},
        }
        match self.audio.read(a) {
            Some(v) => {
                return v;
            },
            None => {},
        }
        if 0xC000 <= a && a <= 0xCFFF {
            self.wram[(a - 0xC000) as usize]
        } else if 0xD000 <= a && a <= 0xDFFF {
            let bank: usize = if self.model_type == ModelType::Color { self.wram_bank as usize } else { 1 };
            self.wram[bank * WRAM_SIZE + (a - 0xD000) as usize]
        } else if 0xFEA0 <= a && a <= 0xFEFF {
            0
        } else if a == 0xFF00 {
            let mut value: u8 = 0xC0 | (self.joypad_selection << 4u8);
            if self.joypad_selection == 1 {
                value = value | self.joypad_pressed_buttons;
            } else if self.joypad_selection == 2 {
                value = value | self.joypad_pressed_directions;
            } else {
                value = value | 0x0F;
            }
            value
        } else if 0xFF01 <= a && a <= 0xFF02 {
            self.serial_transfer[(a - 0xFF01) as usize]
        } else if a == 0xFF04 {
            self.timer.div()
        } else if a == 0xFF05 {
            self.timer.tima()
        } else if a == 0xFF06 {
            self.timer.tma()
        } else if a == 0xFF07 {
            self.timer.tac()
        } else if a == 0xFF0F {
            self.if_flag
        } else if a == 0xFF46 {
            self.oam_dma_transfer
        } else if a == 0xFF4C {
            self.key0
        } else if a == 0xFF4D {
            self.key1
        } else if a == 0xFF50 {
            self.boot_rom_mapping_control
        } else if a == 0xFF56 {
            self.ir_port
        } else if a == 0xFF70 {
            if self.model_type == ModelType::Color {
                self.wram_bank
            } else {
                0xFF
            }
        } else if 0xFF80 <= a && a <= 0xFFFE {
            self.high_ram[(a - 0xFF80) as usize]
        } else {
            self.ie_flag
        }
    }
}


/// The addresses the bus's own memory and registers take writes for.
pub open spec fn bus_writable(a: u16) -> bool {
    ||| 0xC000 <= a <= 0xDFFF
    ||| 0xFEA0 <= a <= 0xFF02
    ||| 0xFF04 <= a <= 0xFF07
    ||| a == 0xFF0F
    ||| a == 0xFF46
    ||| a == 0xFF4C
    ||| a == 0xFF4D
    ||| a == 0xFF50
    ||| a == 0xFF56
    ||| a == 0xFF70
    ||| a >= 0xFF80
}

impl MemoryBus {
    /// A write of `value` to `a` (already mapped out of echo RAM) that none
    /// of the devices took, landing in the bus's own memory or registers.
    pub open spec fn io_written(self, after: MemoryBus, a: u16, value: u8) -> bool {
        if 0xC000 <= a <= 0xCFFF {
            after.wram@ == self.wram@.update(a - 0xC000, value) && after == (MemoryBus { wram: after.wram, ..self })
        } else if 0xD000 <= a <= 0xDFFF {
            after.wram@ == self.wram@.update(self.d_bank() * 0x1000 + a - 0xD000, value) && after == (MemoryBus {
                wram: after.wram,
                ..self
            })
        } else if 0xFEA0 <= a <= 0xFEFF {
            after == self
        } else if a == 0xFF00 {
            after == (MemoryBus { joypad_selection: (value & 0x30) >> 4u8, ..self })
        } else if 0xFF01 <= a <= 0xFF02 {
            after.serial_transfer@ == self.serial_transfer@.update(a - 0xFF01, value) && after == (MemoryBus {
                serial_transfer: after.serial_transfer,
                ..self
            })
        } else if a == 0xFF04 {
            after == (MemoryBus { timer: Timer { counter: 0, ..self.timer }, ..self })
        } else if a == 0xFF05 {
            after == (MemoryBus { timer: Timer { tima: value, reload_delay: 0, ..self.timer }, ..self })
        } else if a == 0xFF06 {
            after == (MemoryBus { timer: Timer { tma: value, ..self.timer }, ..self })
        } else if a == 0xFF07 {
            after == (MemoryBus { timer: Timer { tac: value, ..self.timer }, ..self })
        } else if a == 0xFF0F {
            after == (MemoryBus { if_flag: value, ..self })
        } else if a == 0xFF46 {
            after == (MemoryBus {
                oam_dma_transfer: value,
                dma: DMA { active: false, init_delay: 8, pause: 0, byte: 0, source: (value as u16) << 8u16 },
                ..self
            })
        } else if a == 0xFF4C {
            after == (MemoryBus { key0: value, ..self })
        } else if a == 0xFF4D {
            after == (MemoryBus { key1: value, ..self })
        } else if a == 0xFF50 {
            after == (MemoryBus { boot_rom_mapping_control: value, ..self })
        } else if a == 0xFF56 {
            after == (MemoryBus { ir_port: value, ..self })
        } else if a == 0xFF70 {
            if self.model_type == ModelType::Color {
                after == (MemoryBus { wram_bank: if value & 7 == 0 { 1 } else { value & 7 }, ..self })
            } else {
                after == self
            }
        } else if 0xFF80 <= a <= 0xFFFE {
            after.high_ram@ == self.high_ram@.update(a - 0xFF80, value) && after == (MemoryBus {
                high_ram: after.high_ram,
                ..self
            })
        } else if a == 0xFFFF {
            after == (MemoryBus { ie_flag: value, ..self })
        } else {
            false
        }
    }

    /// A write of `value` to `address` reached the device it belongs to and
    /// took the bus from `self` to `after` (before the hardware runs): the
    /// cartridge first, then the PPU, the audio unit and the bus itself.
    pub open spec fn routed(self, after: MemoryBus, address: u16, value: u8) -> bool {
        self.routed_at(after, echo(address), value)
    }

    /// `routed` for an address already mapped out of echo RAM.
    pub open spec fn routed_at(self, after: MemoryBus, a: u16, value: u8) -> bool {
        if self.mbc.claims_write(a) {
            self.mbc.written(after.mbc, a, value, true) && after == (MemoryBus { mbc: after.mbc, ..self })
        } else if PPU::owns(a) {
            &&& self.ppu.written(after.ppu, self.if_flag, after.if_flag, a, value, true)
            &&& after == (MemoryBus { ppu: after.ppu, if_flag: after.if_flag, ..self })
        } else if 0xFF10 <= a <= 0xFF3F {
            &&& after.audio.wf()
            &&& self.audio.written(after.audio, a, value, true)
            &&& after == (MemoryBus { audio: after.audio, ..self })
        } else {
            self.io_written(after, a, value)
        }
    }

    /// Some device takes a write to `address`.
    pub open spec fn write_handled(self, a: u16) -> bool {
        self.mbc.claims_write(a) || PPU::owns(a) || (0xFF10 <= a <= 0xFF3F) || bus_writable(a)
    }

    /// The remaining bytes of a DMA transfer under way can all be read.
    /// Whether a DMA transfer from the current source can copy a byte of
    /// the cartridge's ROM or RAM (only those reads depend on the cartridge).
    pub open spec fn dma_touches_cartridge(self) -> bool {
        !((0x8000 <= self.dma.source && self.dma.source + 160 <= 0xA000) || self.dma.source >= 0xC000)
    }

    pub open spec fn dma_reads_ok(self) -> bool {
        (self.dma.active || self.dma.init_delay > 0) ==> forall|b: int|
            self.dma.byte <= b < 160 ==> #[trigger] self.read_ok((self.dma.source + b) as u16)
    }

    /// The hardware can run `cycles` cycles: the cycle counter does not
    /// overflow, the cartridge clock can take them, and a DMA transfer
    /// reads only mapped memory.
    pub open spec fn tick_ok(self, cycles: u8) -> bool {
        &&& self.total_cycles + cycles <= 255
        &&& self.mbc.tick_ok(cycles as u32)
        &&& self.dma_reads_ok()
    }

    /// The rate of the PPU and cartridge clock: half the cycles in a Color
    /// model's double-speed mode (KEY1 bit 7).
    pub open spec fn real_speed(self, cycles: u8) -> u8 {
        if self.model_type == ModelType::Color && self.key1 & 0x80 != 0 {
            (cycles / 2) as u8
        } else {
            cycles
        }
    }

    /// The timer ran `cycles` cycles, the PPU and the cartridge clock the
    /// real-speed share of them, and the cycle counter moved on.
    pub open spec fn clocks_ran(self, mid: MemoryBus, cycles: u8) -> bool {
        let (t, f1) = timer_tick(self.timer, self.if_flag, cycles as nat);
        let speed = self.real_speed(cycles);
        &&& mid.timer == t
        &&& exists|fr: bool|
            #[trigger] dots_ticked(self.ppu, f1, speed as nat, mid.ppu, mid.if_flag, fr) && mid.frame_ready == (
            self.frame_ready || fr)
        &&& self.mbc.clocked(mid.mbc, speed as u32)
        &&& mid == (MemoryBus {
            timer: mid.timer,
            ppu: mid.ppu,
            if_flag: mid.if_flag,
            mbc: mid.mbc,
            frame_ready: mid.frame_ready,
            total_cycles: (self.total_cycles + cycles) as u8,
            ..self
        })
    }

    /// One cycle of the DMA engine: the start-up delay counts down, then
    /// every fourth cycle one byte is copied from the source to OAM.
    pub open spec fn dma_cycle(self, after: MemoryBus) -> bool {
        let d = self.dma;
        if !d.active && d.init_delay == 0 {
            after == self
        } else if d.init_delay > 1 {
            after == (MemoryBus { dma: DMA { init_delay: (d.init_delay - 1) as u8, ..d }, ..self })
        } else {
            let d1 = if d.init_delay == 1 { DMA { init_delay: 0, active: true, ..d } } else { d };
            if d1.pause > 1 {
                after == (MemoryBus { dma: DMA { pause: (d1.pause - 1) as u8, ..d1 }, ..self })
            } else {
                let byte = d1.byte;
                let v = self.read_value((d1.source + byte) as u16).unwrap();
                let next = (byte + 1) as u8;
                &&& self.ppu.written(after.ppu, self.if_flag, after.if_flag, (0xFE00 + byte) as u16, v, true)
                &&& after == (MemoryBus {
                    ppu: after.ppu,
                    if_flag: after.if_flag,
                    dma: DMA {
                        byte: next,
                        active: next != 160,
                        pause: if next == 160 { 0 } else { 4 },
                        ..d1
                    },
                    ..self
                })
            }
        }
    }

    /// `n` cycles of the DMA engine took the bus from `self` to `after`.
    pub open spec fn dma_ran(self, n: nat, after: MemoryBus) -> bool
        decreases n,
    {
        if n == 0 {
            after == self
        } else {
            exists|m: MemoryBus| #[trigger] m.dma_cycle(after) && self.dma_ran((n - 1) as nat, m)
        }
    }

    /// `cycles` cycles of hardware took the bus from `self` to `after`.
    pub open spec fn ticked(self, after: MemoryBus, cycles: u8) -> bool {
        exists|mid: MemoryBus| #[trigger] self.clocks_ran(mid, cycles) && mid.dma_ran(cycles as nat, after)
    }

    /// A write the emulator can carry out: none outside high RAM during a
    /// DMA transfer, none the cartridge or the bus refuses, the four cycles
    /// that follow can run, the PPU's dot clock can go on after a write of
    /// LCDC or LY, and a DMA transfer it starts or leaves under way reads
    /// only mapped memory.
    pub open spec fn write_ok(self, address: u16, value: u8) -> bool {
        self.write_ok_at(echo(address), value)
    }

    /// `write_ok` for an address already mapped out of echo RAM.
    pub open spec fn write_ok_at(self, a: u16, value: u8) -> bool {
        &&& !(self.dma.active && (a < 0xFF80 || a > 0xFFFE))
        &&& self.mbc.write_ok(a)
        &&& self.write_handled(a)
        &&& self.tick_ok(4)
        &&& a == 0xFF40 ==> self.ppu.after_plain_write(0xFF40, value).can_tick()
        &&& a == 0xFF44 ==> (PPU { ly: value, ..self.ppu }).can_tick()
        &&& a == 0xFF46 ==> forall|b: int| 0 <= b < 160 ==> #[trigger] self.read_ok((((value as u16) << 8u16) + b) as u16)
        &&& self.mbc.claims_write(a) ==> forall|m: MBC| #[trigger] self.mbc.written(m, a, value, true) ==> (MemoryBus {
            mbc: m,
            ..self
        }).dma_reads_ok()
    }

    /// A write of `value` to `address` followed by four cycles of hardware
    /// took the bus from `self` to `after`.
    pub open spec fn written(self, after: MemoryBus, address: u16, value: u8) -> bool {
        self.written_at(after, echo(address), value)
    }

    /// `written` for an address already mapped out of echo RAM.
    pub open spec fn written_at(self, after: MemoryBus, a: u16, value: u8) -> bool {
        exists|mid: MemoryBus| #[trigger] self.routed_at(mid, a, value) && mid.ticked(after, 4)
    }
}

/// Running the cartridge clock changes nothing a read can depend on.
proof fn lemma_clock_keeps_read_ok(m: MBC, after: MBC, cycles: u32, a: u16)
    requires
        m.clocked(after, cycles),
    ensures
        after.read_ok(a) == m.read_ok(a),
{
}


/// A PPU whose dot clock could run still can after a change that keeps
/// everything the dot clock depends on.
proof fn lemma_can_tick_same_timing(p: PPU, q: PPU)
    requires
        p.can_tick(),
        q.wf(),
        q.dots == p.dots,
        q.ly == p.ly,
        q.sprites == p.sprites,
        q.window_line == p.window_line,
        q.mode == p.mode,
        q.skip_frame == p.skip_frame,
        q.lcdc == p.lcdc,
    ensures
        q.can_tick(),
{
    if q.lcdc & 0x80 != 0 && 1 <= q.dots <= 79 && q.mode != 1 && !q.skip_frame {
        assert forall|j: int|
            0 <= j < q.sprites@.len() && #[trigger] q.sprites@[j].attributes & 0x40 != 0 implies crate::ppu::sprite_line(
            q,
            q.sprites@[j],
        ) < crate::ppu::sprite_height(q.lcdc) by {
            assert(p.sprites@[j] == q.sprites@[j]);
        }
    }
}

/// A CPU write the PPU takes keeps its dot clock able to run, but for
/// LCDC and LY (see `write_ok`).
proof fn lemma_ppu_write_keeps_tick(p: PPU, q: PPU, f0: u8, f1: u8, a: u16, v: u8)
    requires
        p.can_tick(),
        p.written(q, f0, f1, a, v, true),
        a == 0xFF40 ==> p.after_plain_write(0xFF40, v).can_tick(),
        a == 0xFF44 ==> (PPU { ly: v, ..p }).can_tick(),
    ensures
        q.can_tick(),
{
    if a == 0xFF40 {
    } else if a == 0xFF44 {
        lemma_can_tick_same_timing(PPU { ly: v, ..p }, q);
    } else {
        lemma_can_tick_same_timing(p, q);
    }
}

/// Writes to the cartridge leave its stored clock cycles alone.
proof fn lemma_mbc_write_keeps_clock(m: MBC, after: MBC, a: u16, v: u8)
    requires
        m.wf(),
        m.written(after, a, v, true),
        m.tick_ok(4),
    ensures
        after.tick_ok(4),
{
    match (m, after) {
        (MBC::MBC3(x), MBC::MBC3(y)) => {
            let o = crate::mbc::mbc3::CYCLES_OFFSET as int;
            assert(y.external_ram@[o] == x.external_ram@[o]);
            assert(y.external_ram@[o + 1] == x.external_ram@[o + 1]);
            assert(y.external_ram@[o + 2] == x.external_ram@[o + 2]);
            assert(y.external_ram@[o + 3] == x.external_ram@[o + 3]);
        },
        _ => {},
    }
}

impl MemoryBus {
    /// A write that `write_ok` admits leaves a sound bus that can run the
    /// four cycles that follow.
    proof fn lemma_routed_sound(self, mid: MemoryBus, a: u16, value: u8)
        requires
            self.wf(),
            self.write_ok_at(a, value),
            self.routed_at(mid, a, value),
        ensures
            mid.wf(),
            mid.tick_ok(4),
    {
        if self.mbc.claims_write(a) {
            lemma_mbc_write_keeps_clock(self.mbc, mid.mbc, a, value);
        } else if PPU::owns(a) {
            lemma_ppu_write_keeps_tick(self.ppu, mid.ppu, self.if_flag, mid.if_flag, a, value);
            self.lemma_dma_reads_kept(mid);
        } else if 0xFF10 <= a <= 0xFF3F {
            self.lemma_dma_reads_kept(mid);
        } else {
            assert((value & 0x30) >> 4u8 <= 3 && value & 7 <= 7 && ((value as u16) << 8u16) <= 0xFF00) by (bit_vector);
            if a != 0xFF46 {
                self.lemma_dma_reads_kept(mid);
            } else {
                assert forall|b: int| mid.dma.byte <= b < 160 implies #[trigger] mid.read_ok(
                    (mid.dma.source + b) as u16,
                ) by {
                    assert(self.read_ok((((value as u16) << 8u16) + b) as u16));
                }
            }
        }
    }

    /// The DMA reads stay possible while the cartridge is untouched and the
    /// transfer only moves on.
    proof fn lemma_dma_reads_kept(self, t: MemoryBus)
        requires
            self.dma_reads_ok(),
            t.mbc == self.mbc,
            t.dma.source == self.dma.source,
            t.dma.byte >= self.dma.byte,
            (t.dma.active || t.dma.init_delay > 0) ==> (self.dma.active || self.dma.init_delay > 0),
        ensures
            t.dma_reads_ok(),
    {
        assert forall|b: int| t.dma.byte <= b < 160 && (t.dma.active || t.dma.init_delay > 0) implies #[trigger] t.read_ok(
            (t.dma.source + b) as u16,
        ) by {
            assert(self.read_ok((self.dma.source + b) as u16));
        }
    }

    /// Echo RAM reads and writes 0xC000..=0xDDFF.
    pub proof fn lemma_echo_mirrors(self, address: u16, value: u8, after: MemoryBus)
        requires
            0xE000 <= address <= 0xFDFF,
        ensures
            self.read_ok(address) == self.read_ok((address - 0x2000) as u16),
            self.read_value(address) == self.read_value((address - 0x2000) as u16),
            self.write_ok(address, value) == self.write_ok((address - 0x2000) as u16, value),
            self.routed(after, address, value) == self.routed(after, (address - 0x2000) as u16, value),
            self.written(after, address, value) == self.written(after, (address - 0x2000) as u16, value),
    {
        assert(echo(address) == echo((address - 0x2000) as u16));
    }

    fn route_io(&mut self, a: u16, value: u8)
        requires
            old(self).wf(),
            bus_writable(a),
        ensures
            old(self).io_written(*final(self), a, value),
    {
        if 0xC000 <= a && a <= 0xCFFF {
            self.wram.set((a - 0xC000) as usize, value);
        } else if 0xD000 <= a && a <= 0xDFFF {
            let bank: usize = if self.model_type == ModelType::Color { self.wram_bank as usize } else { 1 };
            self.wram.set(bank * WRAM_SIZE + (a - 0xD000) as usize, value);
        } else if 0xFEA0 <= a && a <= 0xFEFF {
        } else if a == 0xFF00 {
            self.joypad_selection = (value & 0x30) >> 4u8;
        } else if 0xFF01 <= a && a <= 0xFF02 {
            self.serial_transfer.set((a - 0xFF01) as usize, value);
        } else if a == 0xFF04 {
            self.timer.reset_div();
        } else if a == 0xFF05 {
            self.timer.set_tima(value);
        } else if a == 0xFF06 {
            self.timer.set_tma(value);
        } else if a == 0xFF07 {
            self.timer.set_tac(value);
        } else if a == 0xFF0F {
            self.if_flag = value;
        } else if a == 0xFF46 {
            self.oam_dma_transfer = value;
            self.dma = DMA { active: false, init_delay: 8, pause: 0, byte: 0, source: (value as u16) << 8u16 };
        } else if a == 0xFF4C {
            self.key0 = value;
        } else if a == 0xFF4D {
            self.key1 = value;
        } else if a == 0xFF50 {
            self.boot_rom_mapping_control = value;
        } else if a == 0xFF56 {
            self.ir_port = value;
        } else if a == 0xFF70 {
            if self.model_type == ModelType::Color {
                let b = value & 7;
                self.wram_bank = if b == 0 { 1 } else { b };
            }
        } else if 0xFF80 <= a && a <= 0xFFFE {
            self.high_ram.set((a - 0xFF80) as usize, value);
        } else {
            self.ie_flag = value;
        }
    }

    fn route_write(&mut self, address: u16, value: u8)
        requires
            old(self).wf(),
            old(self).mbc.write_ok(echo(address)),
            old(self).write_handled(echo(address)),
        ensures
            old(self).routed(*final(self), address, value),
    {
        let a = if 0xE000 <= address && address <= 0xFDFF { address - 0x2000 } else { address };
        if self.mbc.write(a, value) {
            return;
        }
        if self.ppu.write(a, value, &mut self.if_flag) {
            return;
        }
        if self.audio.write(a, value) {
            return;
        }
        self.route_io(a, value);
    }

    /// One cycle of the DMA engine.
    fn dma_step(&mut self)
        requires
            old(self).wf(),
            old(self).dma_reads_ok(),
        ensures
            final(self).wf(),
            final(self).dma_reads_ok(),
            old(self).dma_cycle(*final(self)),
            final(self).total_cycles == old(self).total_cycles,
    {
        let ghost start = *self;
        if !self.dma.active && self.dma.init_delay == 0 {
            return;
        }
        if self.dma.init_delay > 0 {
            self.dma.init_delay = self.dma.init_delay - 1;
            if self.dma.init_delay == 0 {
                self.dma.active = true;
            } else {
                proof {
                    start.lemma_dma_reads_kept(*self);
                }
                return;
            }
        }
        if self.dma.pause > 0 {
            self.dma.pause = self.dma.pause - 1;
            if self.dma.pause > 0 {
                proof {
                    start.lemma_dma_reads_kept(*self);
                }
                return;
            }
        }
        proof {
            start.lemma_dma_reads_kept(*self);
            assert(self.read_ok((self.dma.source + self.dma.byte as int) as u16));
        }
        let source = self.dma.source + self.dma.byte as u16;
        let destination = 0xFE00 + self.dma.byte as u16;
        let value = self.read_without_tick(source);
        self.ppu.write(destination, value, &mut self.if_flag);
        self.dma.byte = self.dma.byte + 1;
        if self.dma.byte == 160 {
            self.dma.active = false;
        } else {
            self.dma.pause = 4;
        }
        proof {
            start.lemma_dma_reads_kept(*self);
        }
    }

    /// Runs the DMA engine for `cycles` cycles.
    fn tick_dma(&mut self, cycles: u8)
        requires
            old(self).wf(),
            old(self).dma_reads_ok(),
        ensures
            final(self).wf(),
            old(self).dma_ran(cycles as nat, *final(self)),
            final(self).total_cycles == old(self).total_cycles,
    {
        let ghost start = *self;
        let mut i: u8 = 0;
        while i < cycles
            invariant
                i <= cycles,
                self.wf(),
                self.dma_reads_ok(),
                start.dma_ran(i as nat, *self),
                self.total_cycles == start.total_cycles,
            decreases cycles - i,
        {
            let ghost before = *self;
            self.dma_step();
            proof {
                assert(before.dma_cycle(*self) && start.dma_ran(i as nat, before));
            }
            i = i + 1;
        }
    }
}


impl MemoryBus {
    /// Runs the hardware for `cycles` cycles: the timer, the PPU and the
    /// cartridge clock (at half rate in double-speed mode), then the DMA
    /// engine.
    pub fn tick(&mut self, cycles: u8)
        requires
            old(self).wf(),
            old(self).tick_ok(cycles),
        ensures
            final(self).wf(),
            old(self).ticked(*final(self), cycles),
            final(self).total_cycles == old(self).total_cycles + cycles,
    {
        let ghost start = *self;
        self.total_cycles = self.total_cycles + cycles;
        self.timer.tick(&mut self.if_flag, cycles);
        let real_speed: u8 = if self.model_type == ModelType::Color && (self.key1 & 0x80) != 0 {
            cycles / 2
        } else {
            cycles
        };
        let ghost f1 = self.if_flag;
        let frame = self.ppu.tick(&mut self.if_flag, real_speed);
        self.frame_ready = self.frame_ready || frame;
        self.mbc.tick(real_speed as u32);
        let ghost mid = *self;
        proof {
            assert(dots_ticked(start.ppu, f1, real_speed as nat, mid.ppu, mid.if_flag, frame));
            assert(real_speed == start.real_speed(cycles));
            assert(mid.timer == timer_tick(start.timer, start.if_flag, cycles as nat).0);
            assert(f1 == timer_tick(start.timer, start.if_flag, cycles as nat).1);
            assert(start.mbc.clocked(mid.mbc, real_speed as u32));
            assert(mid == (MemoryBus {
                timer: mid.timer,
                ppu: mid.ppu,
                if_flag: mid.if_flag,
                mbc: mid.mbc,
                frame_ready: mid.frame_ready,
                total_cycles: (start.total_cycles + cycles) as u8,
                ..start
            }));
            assert(start.clocks_ran(mid, cycles));
            assert forall|b: int| mid.dma.byte <= b < 160 implies #[trigger] mid.read_ok((mid.dma.source + b) as u16)
                == start.read_ok((start.dma.source + b) as u16) by {
                lemma_clock_keeps_read_ok(start.mbc, mid.mbc, real_speed as u32, echo((mid.dma.source + b) as u16));
            }
        }
        self.tick_dma(cycles);
    }

    /// Writes `value` to `address`, then runs the hardware for four cycles.
    pub fn write(&mut self, address: u16, value: u8)
        requires
            old(self).wf(),
            old(self).write_ok(address, value),
        ensures
            final(self).wf(),
            old(self).written(*final(self), address, value),
            final(self).total_cycles == old(self).total_cycles + 4,
    {
        let ghost start = *self;
        self.route_write(address, value);
        let ghost mid = *self;
        proof {
            assert(start.routed(mid, address, value));
            start.lemma_routed_sound(mid, echo(address), value);
        }
        self.tick(4);
    }

    /// Reads the byte at `address`, then runs the hardware for four cycles.
    pub fn read(&mut self, address: u16) -> (r: u8)
        requires
            old(self).wf(),
            old(self).read_ok(address),
            !(old(self).dma.active && (address < 0xFF80 || address > 0xFFFE)),
            old(self).tick_ok(4),
        ensures
            final(self).wf(),
            old(self).read_value(address) == Some(r),
            old(self).ticked(*final(self), 4),
            final(self).total_cycles == old(self).total_cycles + 4,
    {
        let result = self.read_without_tick(address);
        self.tick(4);
        result
    }

    pub fn model_type(&self) -> (r: ModelType)
        ensures
            r == self.model_type,
    {
        self.model_type
    }

    pub fn if_flag(&self) -> (r: u8)
        ensures
            r == self.if_flag,
    {
        self.if_flag
    }

    pub fn set_if_flag(&mut self, value: u8)
        ensures
            *final(self) == (MemoryBus { if_flag: value, ..*old(self) }),
    {
        self.if_flag = value;
    }

    pub fn ie_flag(&self) -> (r: u8)
        ensures
            r == self.ie_flag,
    {
        self.ie_flag
    }

    pub fn set_ie_flag(&mut self, value: u8)
        ensures
            *final(self) == (MemoryBus { ie_flag: value, ..*old(self) }),
    {
        self.ie_flag = value;
    }

    pub fn key1(&self) -> (r: u8)
        ensures
            r == self.key1,
    {
        self.key1
    }

    pub fn set_key1(&mut self, value: u8)
        ensures
            *final(self) == (MemoryBus { key1: value, ..*old(self) }),
    {
        self.key1 = value;
    }

    pub fn set_joypad_pressed_directions(&mut self, joypad_pressed_directions: u8)
        ensures
            *final(self) == (MemoryBus { joypad_pressed_directions, ..*old(self) }),
    {
        self.joypad_pressed_directions = joypad_pressed_directions;
    }

    pub fn set_joypad_pressed_buttons(&mut self, joypad_pressed_buttons: u8)
        ensures
            *final(self) == (MemoryBus { joypad_pressed_buttons, ..*old(self) }),
    {
        self.joypad_pressed_buttons = joypad_pressed_buttons;
    }

    pub fn reset_total_cycles(&mut self)
        ensures
            *final(self) == (MemoryBus { total_cycles: 0, ..*old(self) }),
    {
        self.total_cycles = 0;
    }

    pub fn total_cycles(&self) -> (r: u8)
        ensures
            r == self.total_cycles,
    {
        self.total_cycles
    }
}


/// The DMA engine touches only the PPU, the interrupt flag and itself.
proof fn lemma_dma_ran_keeps_memory(s: MemoryBus, n: nat, t: MemoryBus)
    requires
        s.dma_ran(n, t),
    ensures
        t.wram == s.wram,
        t.high_ram == s.high_ram,
        t.wram_bank == s.wram_bank,
        t.model_type == s.model_type,
        t.mbc == s.mbc,
        t.total_cycles == s.total_cycles,
    decreases n,
{
    if n > 0 {
        let m = choose|m: MemoryBus| #[trigger] m.dma_cycle(t) && s.dma_ran((n - 1) as nat, m);
        lemma_dma_ran_keeps_memory(s, (n - 1) as nat, m);
    }
}

impl MemoryBus {
    /// Running the hardware leaves work RAM, high RAM, the selected bank
    /// and the model alone, and counts the cycles.
    pub proof fn lemma_tick_keeps_memory(self, after: MemoryBus, cycles: u8)
        requires
            self.ticked(after, cycles),
        ensures
            after.wram == self.wram,
            after.high_ram == self.high_ram,
            after.wram_bank == self.wram_bank,
            after.model_type == self.model_type,
            after.total_cycles == (self.total_cycles + cycles) as u8,
    {
        let mid = choose|mid: MemoryBus| #[trigger] self.clocks_ran(mid, cycles) && mid.dma_ran(cycles as nat, after);
        lemma_dma_ran_keeps_memory(mid, cycles as nat, after);
    }

    /// What a read gives back of a write: after a write to work RAM (or its
    /// echo) or high RAM, a read of the address, or of its mirror, gives
    /// the value written.
    pub proof fn lemma_read_after_write(self, after: MemoryBus, address: u16, value: u8)
        requires
            self.wf(),
            self.written(after, address, value),
            0xC000 <= address <= 0xFDFF || 0xFF80 <= address <= 0xFFFE,
        ensures
            after.read_value(address) == Some(value),
            after.read_value(echo(address)) == Some(value),
    {
        let a = echo(address);
        let mid = choose|mid: MemoryBus| #[trigger] self.routed_at(mid, a, value) && mid.ticked(after, 4);
        mid.lemma_tick_keeps_memory(after, 4);
        assert(!self.mbc.claims_write(a));
        assert(after.mbc.read_value(a) is None);
        assert(after.ppu.read_value(a) is None);
        assert(after.audio.read_value(a) is None);
        assert(mid.io_value(a) == Some(value));
        assert(after.io_value(a) == Some(value));
        assert(echo(a) == a);
    }
}


/// Work RAM or high RAM, where the CPU keeps its stack.
pub open spec fn stack_address(a: u16) -> bool {
    0xC000 <= a <= 0xDFFF || 0xFF80 <= a <= 0xFFFE
}

/// An idle DMA engine stays idle and changes nothing.
proof fn lemma_dma_ran_idle(s: MemoryBus, n: nat, t: MemoryBus)
    requires
        s.dma_ran(n, t),
        !s.dma.active && s.dma.init_delay == 0,
    ensures
        t == s,
    decreases n,
{
    if n > 0 {
        let m = choose|m: MemoryBus| #[trigger] m.dma_cycle(t) && s.dma_ran((n - 1) as nat, m);
        lemma_dma_ran_idle(s, (n - 1) as nat, m);
    }
}

impl MemoryBus {
    /// A sound bus with no DMA transfer pending that can run `budget` more
    /// cycles (cycle counter and cartridge clock).
    pub open spec fn calm(self, budget: u8) -> bool {
        &&& self.wf()
        &&& !self.dma.active && self.dma.init_delay == 0
        &&& self.total_cycles + budget <= 255
        &&& self.mbc.tick_ok(budget as u32)
    }

    /// Running `c` cycles of a calm bus leaves it calm for the rest of its
    /// budget.
    pub proof fn lemma_tick_calm(self, after: MemoryBus, c: u8, budget: u8)
        requires
            self.calm(budget),
            c <= budget,
            self.ticked(after, c),
            after.wf(),
        ensures
            after.calm((budget - c) as u8),
    {
        let mid = choose|mid: MemoryBus| #[trigger] self.clocks_ran(mid, c) && mid.dma_ran(c as nat, after);
        lemma_dma_ran_idle(mid, c as nat, after);
        let speed = self.real_speed(c);
        self.mbc.lemma_clock_room(mid.mbc, speed as u32, (budget - c) as u32);
    }

    /// A write to the stack area of a calm bus is one the emulator can
    /// carry out.
    pub proof fn lemma_stack_write_ok(self, a: u16, v: u8, budget: u8)
        requires
            self.calm(budget),
            4 <= budget,
            stack_address(a),
        ensures
            self.write_ok(a, v),
    {
        assert(echo(a) == a);
    }

    /// A write to the stack area of a calm bus leaves it calm for the rest
    /// of its budget.
    pub proof fn lemma_stack_write_calm(self, after: MemoryBus, a: u16, v: u8, budget: u8)
        requires
            self.calm(budget),
            4 <= budget,
            stack_address(a),
            self.written(after, a, v),
            after.wf(),
        ensures
            after.calm((budget - 4) as u8),
    {
        assert(echo(a) == a);
        let mid = choose|mid: MemoryBus| #[trigger] self.routed_at(mid, a, v) && mid.ticked(after, 4);
        self.lemma_stack_write_ok(a, v, budget);
        self.lemma_routed_sound(mid, a, v);
        mid.lemma_tick_calm(after, 4, budget);
    }
}


impl MemoryBus {
    /// The stack area reads what work RAM and high RAM hold.
    pub open spec fn stack_value(self, a: u16) -> u8 {
        if a <= 0xDFFF {
            self.wram@[if a <= 0xCFFF { a - 0xC000 } else { self.d_bank() * 0x1000 + a - 0xD000 }]
        } else {
            self.high_ram@[a - 0xFF80]
        }
    }

    /// A read of the stack area of a calm bus is one the emulator can
    /// carry out, and it gives back what the stack area holds.
    pub proof fn lemma_stack_read(self, a: u16, budget: u8)
        requires
            self.calm(budget),
            4 <= budget,
            stack_address(a),
        ensures
            self.read_ok(a),
            !(self.dma.active && (a < 0xFF80 || a > 0xFFFE)),
            self.tick_ok(4),
            self.read_value(a) == Some(self.stack_value(a)),
    {
        assert(echo(a) == a);
        assert(self.mbc.read_value(a) is None);
        assert(self.ppu.read_value(a) is None);
        assert(self.audio.read_value(a) is None);
    }

    /// Running the hardware leaves the stack area as it was.
    pub proof fn lemma_tick_keeps_stack(self, after: MemoryBus, cycles: u8, a: u16)
        requires
            self.ticked(after, cycles),
            stack_address(a),
        ensures
            after.stack_value(a) == self.stack_value(a),
    {
        self.lemma_tick_keeps_memory(after, cycles);
    }
}


impl MemoryBus {
    /// A write to the stack area stores its value there and leaves every
    /// other stack address as it was.
    pub proof fn lemma_stack_write_effect(self, after: MemoryBus, a: u16, v: u8, other: u16)
        requires
            self.wram.len() == WRAM_SIZE * (WRAM_TOTAL_BANKS + 1),
            self.high_ram.len() == HIGH_RAM_SIZE,
            1 <= self.wram_bank <= 7,
            stack_address(a),
            stack_address(other),
            self.written(after, a, v),
        ensures
            after.wram.len() == self.wram.len(),
            after.high_ram.len() == self.high_ram.len(),
            after.wram_bank == self.wram_bank,
            after.model_type == self.model_type,
            after.stack_value(a) == v,
            other != a ==> after.stack_value(other) == self.stack_value(other),
    {
        assert(echo(a) == a);
        let mid = choose|mid: MemoryBus| #[trigger] self.routed_at(mid, a, v) && mid.ticked(after, 4);
        mid.lemma_tick_keeps_memory(after, 4);
        assert(!self.mbc.claims_write(a));
    }
}


/// The echo mapping, computed.
fn echo_of(address: u16) -> (r: u16)
    ensures
        r == echo(address),
{
    if 0xE000 <= address && address <= 0xFDFF {
        address - 0x2000
    } else {
        address
    }
}

/// Whether the bus answers `a`, computed (see `mapped`).
fn is_mapped(a: u16) -> (r: bool)
    ensures
        r == mapped(a),
{
    a <= 0xDFFF || (0xFE00 <= a && a <= 0xFF02) || (0xFF04 <= a && a <= 0xFF07) || a == 0xFF0F || (0xFF10 <= a && a
        <= 0xFF3F) || (0xFF40 <= a && a <= 0xFF4D && a != 0xFF4E) || a == 0xFF4F || a == 0xFF50 || a == 0xFF56 || (
    0xFF68 <= a && a <= 0xFF6C) || a == 0xFF70 || a >= 0xFF80
}

/// Whether the bus's own memory or registers take a write of `a`,
/// computed (see `bus_writable`).
fn is_bus_writable(a: u16) -> (r: bool)
    ensures
        r == bus_writable(a),
{
    (0xC000 <= a && a <= 0xDFFF) || (0xFEA0 <= a && a <= 0xFF02) || (0xFF04 <= a && a <= 0xFF07) || a == 0xFF0F
        || a == 0xFF46 || a == 0xFF4C || a == 0xFF4D || a == 0xFF50 || a == 0xFF56 || a == 0xFF70 || a >= 0xFF80
}

/// Whether the PPU owns `a`, computed (see `PPU::owns`).
fn is_ppu_address(a: u16) -> (r: bool)
    ensures
        r == PPU::owns(a),
{
    (0x8000 <= a && a <= 0x9FFF) || (0xFE00 <= a && a <= 0xFE9F) || (0xFF40 <= a && a <= 0xFF4B && a != 0xFF46)
        || a == 0xFF4F || (0xFF68 <= a && a <= 0xFF6C)
}

impl MemoryBus {
    /// Whether a read of `address` is answered (see `read_ok`).
    pub fn readable(&self, address: u16) -> (r: bool)
        requires
            self.wf(),
        ensures
            r == self.read_ok(address),
    {
        let a = echo_of(address);
        self.mbc.can_read(a) && is_mapped(a)
    }

    /// Whether the remaining bytes of a DMA transfer can all be read (see
    /// `dma_reads_ok`).
    pub fn dma_reads_possible(&self) -> (r: bool)
        requires
            self.wf(),
        ensures
            r == self.dma_reads_ok(),
    {
        if !self.dma.active && self.dma.init_delay == 0 {
            return true;
        }
        let mut b: u8 = self.dma.byte;
        while b < 160
            invariant
                self.wf(),
                self.dma.active || self.dma.init_delay > 0,
                self.dma.byte <= b <= 160,
                forall|k: int| self.dma.byte <= k < b ==> #[trigger] self.read_ok((self.dma.source + k) as u16),
            decreases 160 - b,
        {
            if !self.readable(self.dma.source + b as u16) {
                return false;
            }
            b = b + 1;
        }
        true
    }

    /// Whether the hardware can run `cycles` cycles (see `tick_ok`).
    pub fn can_tick(&self, cycles: u8) -> (r: bool)
        requires
            self.wf(),
        ensures
            r == self.tick_ok(cycles),
    {
        self.total_cycles <= 255 - cycles && self.mbc.can_tick(cycles as u32) && self.dma_reads_possible()
    }

    /// Whether `read` can be called for `address`: the address is answered,
    /// no DMA transfer forbids it, and the four cycles can run.
    pub fn can_read(&self, address: u16) -> (r: bool)
        requires
            self.wf(),
        ensures
            r == (self.read_ok(address) && !(self.dma.active && (address < 0xFF80 || address > 0xFFFE))
                && self.tick_ok(4)),
    {
        self.readable(address) && !(self.dma.active && (address < 0xFF80 || address > 0xFFFE)) && self.can_tick(4)
    }

    /// Whether `write` can be called for `address` and `value`: exactly
    /// `write_ok`, except that a write the cartridge takes is refused while
    /// a DMA transfer that copies cartridge ROM or RAM waits to start (its
    /// bank registers decide whether those reads can be made).
    pub fn can_write(&self, address: u16, value: u8) -> (r: bool)
        requires
            self.wf(),
        ensures
            r == (self.write_ok(address, value) && !(self.mbc.claims_write(echo(address)) && self.dma.init_delay > 0
                && self.dma_touches_cartridge())),
    {
        let a = echo_of(address);
        if self.dma.active && (a < 0xFF80 || a > 0xFFFE) {
            return false;
        }
        if !self.mbc.can_write(a) {
            return false;
        }
        let claims = self.mbc.claims(a);
        let handled = claims || is_ppu_address(a) || (0xFF10 <= a && a <= 0xFF3F) || is_bus_writable(a);
        if !handled {
            return false;
        }
        if !self.can_tick(4) {
            return false;
        }
        if claims && self.dma.init_delay > 0 && self.dma_reaches_cartridge() {
            return false;
        }
        let p = &self.ppu;
        if a == 0xFF40 {
            let ok = if p.lcdc & 0x80 != 0 && value & 0x80 == 0 {
                p.can_tick_as(value, p.ly, p.dots, p.window_line, 0, p.skip_frame)
            } else if p.lcdc & 0x80 == 0 && value & 0x80 != 0 {
                p.can_tick_as(value, 0, 0, 0, p.mode, true)
            } else {
                p.can_tick_as(value, p.ly, p.dots, p.window_line, p.mode, p.skip_frame)
            };
            if !ok {
                return false;
            }
        }
        if a == 0xFF44 {
            if !p.can_tick_as(p.lcdc, value, p.dots, p.window_line, p.mode, p.skip_frame) {
                return false;
            }
        }
        if a == 0xFF46 {
            let source: u16 = (value as u16) << 8u16;
            proof {
                assert(((value as u16) << 8u16) <= 0xFF00) by (bit_vector);
            }
            let mut b: u16 = 0;
            while b < 160
                invariant
                    self.wf(),
                    a == 0xFF46,
                    a == echo(address),
                    source == (value as u16) << 8u16,
                    source <= 0xFF00,
                    b <= 160,
                    forall|k: int| 0 <= k < b ==> #[trigger] self.read_ok((source + k) as u16),
                decreases 160 - b,
            {
                if !self.readable(source + b) {
                    proof {
                        let bi = b as int;
                        assert(!self.read_ok((((value as u16) << 8u16) + bi) as u16));
                        assert(!(forall|k: int|
                            0 <= k < 160 ==> #[trigger] self.read_ok((((value as u16) << 8u16) + k) as u16)));
                        assert(!self.write_ok_at(a, value));
                    }
                    return false;
                }
                b = b + 1;
            }
        }
        proof {
            if claims {
                assert forall|m: MBC| #[trigger] self.mbc.written(m, a, value, true) implies (MemoryBus {
                    mbc: m,
                    ..*self
                }).dma_reads_ok() by {
                    if self.dma.active || self.dma.init_delay > 0 {
                        assert forall|b: int| self.dma.byte <= b < 160 implies #[trigger] (MemoryBus {
                            mbc: m,
                            ..*self
                        }).read_ok((self.dma.source + b) as u16) by {
                            assert(self.read_ok((self.dma.source + b) as u16));
                            lemma_mbc_reads_outside(m, echo((self.dma.source + b) as u16));
                        }
                    }
                }
            }
        }
        true
    }

    /// Whether some byte a DMA transfer copies lies in the cartridge's ROM
    /// or RAM ranges.
    pub fn dma_reaches_cartridge(&self) -> (r: bool)
        ensures
            r == self.dma_touches_cartridge(),
    {
        let source = self.dma.source;
        !((0x8000 <= source && source <= 0x9F60) || source >= 0xC000)
    }
}

/// The cartridge takes every read outside its ROM and RAM ranges.
proof fn lemma_mbc_reads_outside(m: MBC, a: u16)
    requires
        a >= 0x8000,
        !(0xA000 <= a <= 0xBFFF),
    ensures
        m.read_ok(a),
{
}


/// The DMA engine never touches the timer.
proof fn lemma_dma_keeps_timer(b: MemoryBus, n: nat, after: MemoryBus)
    requires
        b.dma_ran(n, after),
    ensures
        after.timer == b.timer,
    decreases n,
{
    if n > 0 {
        let m = choose|m: MemoryBus| #[trigger] m.dma_cycle(after) && b.dma_ran((n - 1) as nat, m);
        lemma_dma_keeps_timer(b, (n - 1) as nat, m);
    }
}

/// Writing DIV (0xFF04), whatever the value, resets the timer's system
/// counter: once the write's four cycles have run the counter is 4, so DIV
/// reads 0.
pub proof fn lemma_div_write_resets(b: MemoryBus, after: MemoryBus, value: u8)
    requires
        b.written(after, 0xFF04, value),
    ensures
        after.timer.counter == 4,
        after.read_value(0xFF04) == Some(0u8),
{
    let mid = choose|mid: MemoryBus| #[trigger] b.routed_at(mid, 0xFF04, value) && mid.ticked(after, 4);
    assert(mid.timer.counter == 0);
    let mid2 = choose|mid2: MemoryBus| #[trigger] mid.clocks_ran(mid2, 4) && mid2.dma_ran(4, after);
    crate::timer::lemma_counter_advances(mid.timer, 4);
    lemma_dma_keeps_timer(mid2, 4, after);
    assert(after.timer.counter == 4);
}

} // verus!
