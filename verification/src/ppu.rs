use vstd::prelude::*;
use crate::bits::lemma_byte_fields;
use crate::model::ModelType;

pub mod oam;
pub mod timing;

verus! {

pub const VRAM_TOTAL_BANKS: usize = 2;
/// Size of one VRAM bank (0x8000..=0x9FFF).
pub const VRAM_SIZE: usize = 0x2000;
/// Size of object attribute memory (0xFE00..=0xFE9F).
pub const OAM_SIZE: usize = 0xA0;
pub const CGB_BG_PALETTE_DATA_SIZE: usize = 64;
pub const CGB_OBJ_PALETTE_DATA_SIZE: usize = 64;
/// Pixels per line.
pub const FRAME_BUFFER_ROWS: usize = 160;
/// Visible lines.
pub const FRAME_BUFFER_COLS: usize = 144;
/// Bytes of the RGBA frame buffer.
pub const FRAME_BUFFER_SIZE: usize = 92160;
/// Pixels of the frame.
pub const FRAME_PIXELS: usize = 23040;

/// An object found on the current line by the OAM scan; `priority` is its
/// OAM index.
#[derive(Clone, Copy, Debug, PartialEq, Eq, Structural)]
pub struct Sprite {
    pub x: u8,
    pub y: u8,
    pub tile_index: u8,
    pub attributes: u8,
    pub priority: u8,
}

/// How a background pixel lets objects through: never (`BG`), only objects
/// without their behind-background flag (`BGIfSpriteDisabled`), or always
/// (`Sprite`).
#[derive(Clone, Copy, Debug, PartialEq, Eq, Structural)]
pub enum PixelPriority {
    BG,
    BGIfSpriteDisabled,
    Sprite,
}

/// The picture processing unit: VRAM, OAM, the LCD registers and the
/// scanline renderer.
pub struct PPU {
    pub vram: Vec<u8>,
    pub vram_bank: u8,
    pub oam: Vec<u8>,
    pub lcdc: u8,
    pub stat: u8,
    pub scy: u8,
    pub scx: u8,
    pub ly: u8,
    pub lyc: u8,
    pub dmg_bgp: u8,
    pub obp0: u8,
    pub obp1: u8,
    pub wy: u8,
    pub wx: u8,
    pub bg_palette_spec: u8,
    pub bg_palette_data: Vec<u8>,
    pub obj_palette_spec: u8,
    pub obj_palette_data: Vec<u8>,
    pub object_priority_mode: u8,
    pub model_type: ModelType,
    pub dots: u16,
    pub window_line: u8,
    pub mode: u8,
    pub sprites: Vec<Sprite>,
    pub frame_buffer: Vec<u8>,
    pub frame_buffer_pixel_priorities: Vec<PixelPriority>,
    pub skip_frame: bool,
}

/// Whether a STAT value requests the STAT interrupt line: one of the
/// enabled sources (LYC=LY in bit 6, modes 2, 1, 0 in bits 5, 4, 3) holds.
pub open spec fn stat_line(stat: u8) -> bool {
    ||| (stat & 0x40 != 0 && stat & 0x04 != 0)
    ||| (stat & 0x20 != 0 && stat & 0x03 == 2)
    ||| (stat & 0x10 != 0 && stat & 0x03 == 1)
    ||| (stat & 0x08 != 0 && stat & 0x03 == 0)
}

/// The interrupt flag after the STAT line may have risen: bit 1 is set on a
/// rising edge while the LCD is on.
pub open spec fn stat_edge(if_flag: u8, before: bool, after: bool, lcd_on: bool) -> u8 {
    if !before && after && lcd_on {
        if_flag | 0x02
    } else {
        if_flag
    }
}

/// The palette index register after a data write: with auto-increment
/// (bit 7) the 6-bit index moves on by one, wrapping.
pub open spec fn palette_spec_after_write(spec: u8) -> u8 {
    if spec / 128 == 1 {
        (128 + ((spec % 64) + 1) % 64) as u8
    } else {
        spec
    }
}

impl PPU {
    pub open spec fn wf(self) -> bool {
        &&& self.vram.len() == VRAM_SIZE * VRAM_TOTAL_BANKS
        &&& self.oam.len() == OAM_SIZE
        &&& self.bg_palette_data.len() == CGB_BG_PALETTE_DATA_SIZE
        &&& self.obj_palette_data.len() == CGB_OBJ_PALETTE_DATA_SIZE
        &&& self.frame_buffer.len() == FRAME_BUFFER_SIZE
        &&& self.frame_buffer_pixel_priorities.len() == FRAME_PIXELS
        &&& self.mode <= 3
        &&& (self.model_type == ModelType::Color ==> self.vram_bank <= 1)
    }

    /// The VRAM bank the CPU sees: the selected bank on a Color model, bank 0 on a DMG.
    pub open spec fn cpu_vram_bank(self) -> nat {
        if self.model_type == ModelType::Color {
            self.vram_bank as nat
        } else {
            0
        }
    }

    /// CPU accesses reach existing VRAM (the bank register holds 0 or 1).
    pub open spec fn access_ok(self) -> bool {
        self.cpu_vram_bank() <= 1
    }

    pub open spec fn vram_index(self, address: u16) -> int {
        self.cpu_vram_bank() * VRAM_SIZE + address - 0x8000
    }

    /// What a CPU read gives back; VRAM and OAM read 0xFF while the PPU is
    /// drawing (mode 3).
    pub open spec fn read_value(self, address: u16) -> Option<u8> {
        if 0x8000 <= address <= 0x9FFF {
            if self.mode == 3 {
                Some(0xFF)
            } else {
                Some(self.vram@[self.vram_index(address)])
            }
        } else if 0xFE00 <= address <= 0xFE9F {
            if self.mode == 3 {
                Some(0xFF)
            } else {
                Some(self.oam@[address - 0xFE00])
            }
        } else if address == 0xFF40 {
            Some(self.lcdc)
        } else if address == 0xFF41 {
            Some(self.stat)
        } else if address == 0xFF42 {
            Some(self.scy)
        } else if address == 0xFF43 {
            Some(self.scx)
        } else if address == 0xFF44 {
            Some(self.ly)
        } else if address == 0xFF45 {
            Some(self.lyc)
        } else if address == 0xFF47 {
            Some(self.dmg_bgp)
        } else if address == 0xFF48 {
            Some(self.obp0)
        } else if address == 0xFF49 {
            Some(self.obp1)
        } else if address == 0xFF4A {
            Some(self.wy)
        } else if address == 0xFF4B {
            Some(self.wx)
        } else if address == 0xFF4F {
            if self.model_type == ModelType::Color {
                Some(0xFE | self.vram_bank)
            } else {
                Some(0xFF)
            }
        } else if address == 0xFF68 {
            Some(self.bg_palette_spec)
        } else if address == 0xFF69 {
            Some(self.bg_palette_data@[(self.bg_palette_spec % 64) as int])
        } else if address == 0xFF6A {
            Some(self.obj_palette_spec)
        } else if address == 0xFF6B {
            Some(self.obj_palette_data@[(self.obj_palette_spec % 64) as int])
        } else if address == 0xFF6C {
            Some(self.object_priority_mode)
        } else {
            None
        }
    }

    /// The state after the STAT register has been brought up to date with
    /// LY == LYC (bit 2) and the mode (bits 1..0).
    pub open spec fn stat_refreshed(self) -> u8 {
        let s = if self.ly == self.lyc { self.stat | 0x04 } else { self.stat & !0x04u8 };
        (s & !0x03u8) | self.mode
    }

    /// The interrupt flag after refreshing STAT.
    pub open spec fn stat_refresh_flag(self, if_flag: u8) -> u8 {
        stat_edge(if_flag, stat_line(self.stat), stat_line(self.stat_refreshed()), self.lcdc & 0x80 != 0)
    }

    /// STAT with its four interrupt-source enables replaced by bits 6..3 of `value`.
    pub open spec fn stat_with_sources(self, value: u8) -> u8 {
        (self.stat & 0x87) | (value & 0x78)
    }

    /// The registers (and VRAM/OAM) after a write of a register other than
    /// STAT, LY and LYC, which also refresh the interrupt flag.
    pub open spec fn after_plain_write(self, address: u16, value: u8) -> PPU {
        if address == 0xFF40 {
            let s = if self.lcdc & 0x80 != 0 && value & 0x80 == 0 {
                PPU { mode: 0, ..self }
            } else if self.lcdc & 0x80 == 0 && value & 0x80 != 0 {
                PPU { ly: 0, dots: 0, window_line: 0, skip_frame: true, ..self }
            } else {
                self
            };
            PPU { lcdc: value, ..s }
        } else if address == 0xFF42 {
            PPU { scy: value, ..self }
        } else if address == 0xFF43 {
            PPU { scx: value, ..self }
        } else if address == 0xFF47 {
            PPU { dmg_bgp: value, ..self }
        } else if address == 0xFF48 {
            PPU { obp0: value, ..self }
        } else if address == 0xFF49 {
            PPU { obp1: value, ..self }
        } else if address == 0xFF4A {
            PPU { wy: value, ..self }
        } else if address == 0xFF4B {
            PPU { wx: value, ..self }
        } else if address == 0xFF4F {
            if self.model_type == ModelType::Color {
                PPU { vram_bank: value % 2, ..self }
            } else {
                self
            }
        } else if address == 0xFF68 {
            PPU { bg_palette_spec: value, ..self }
        } else if address == 0xFF6A {
            PPU { obj_palette_spec: value, ..self }
        } else if address == 0xFF6C {
            PPU { object_priority_mode: value, ..self }
        } else {
            self
        }
    }

    /// Whether the PPU owns `address` (VRAM, OAM or one of its registers).
    pub open spec fn owns(address: u16) -> bool {
        ||| 0x8000 <= address <= 0x9FFF
        ||| 0xFE00 <= address <= 0xFE9F
        ||| (0xFF40 <= address <= 0xFF4B && address != 0xFF46)
        ||| address == 0xFF4F
        ||| (0xFF68 <= address <= 0xFF6C)
    }
}

} // verus!

verus! {

impl PPU {
    pub fn new(model_type: ModelType) -> (r: Self)
        ensures
            r.wf(),
            r.vram@ == Seq::new(0x4000, |i: int| 0u8),
            r.oam@ == Seq::new(0xA0, |i: int| 0u8),
            r.bg_palette_data@ == Seq::new(64, |i: int| 0u8),
            r.obj_palette_data@ == Seq::new(64, |i: int| 0u8),
            r.frame_buffer@ == Seq::new(92160, |i: int| 0u8),
            r.frame_buffer_pixel_priorities@ == Seq::new(23040, |i: int| PixelPriority::Sprite),
            r.sprites@.len() == 0,
            r == (PPU {
                vram: r.vram,
                vram_bank: 0,
                oam: r.oam,
                lcdc: 0x91,
                stat: 0x85,
                scy: 0,
                scx: 0,
                ly: 0,
                lyc: 0,
                dmg_bgp: 0xFC,
                obp0: 0xFF,
                obp1: 0xFF,
                wy: 0,
                wx: 0,
                bg_palette_spec: 0,
                bg_palette_data: r.bg_palette_data,
                obj_palette_spec: 0,
                obj_palette_data: r.obj_palette_data,
                object_priority_mode: 0,
                model_type,
                dots: 0,
                window_line: 0,
                mode: 2,
                sprites: r.sprites,
                frame_buffer: r.frame_buffer,
                frame_buffer_pixel_priorities: r.frame_buffer_pixel_priorities,
                skip_frame: false,
            }),
    {
        Self {
            vram: vec![0u8; 0x4000],
            vram_bank: 0,
            oam: vec![0u8; 0xA0],
            lcdc: 0x91,
            stat: 0x85,
            scy: 0,
            scx: 0,
            ly: 0,
            lyc: 0,
            dmg_bgp: 0xFC,
            obp0: 0xFF,
            obp1: 0xFF,
            wy: 0,
            wx: 0,
            bg_palette_spec: 0,
            bg_palette_data: vec![0u8; 64],
            obj_palette_spec: 0,
            obj_palette_data: vec![0u8; 64],
            object_priority_mode: 0,
            model_type,
            dots: 0,
            window_line: 0,
            mode: 2,
            sprites: Vec::new(),
            frame_buffer: vec![0u8; 92160],
            frame_buffer_pixel_priorities: vec![PixelPriority::Sprite; 23040],
            skip_frame: false,
        }
    }

    pub fn mode(&self) -> (r: u8)
        ensures
            r == self.mode,
            self.wf() ==> r <= 3,
    {
        self.mode
    }

    pub fn read(&self, address: u16) -> (r: Option<u8>)
        requires
            self.wf(),
            self.access_ok(),
        ensures
            r == self.read_value(address),
    {
        match address {
            0x8000..=0x9FFF => {
                if self.mode == 3 {
                    return Some(0xFF);
                }
                let bank: usize = if self.model_type == ModelType::Color { self.vram_bank as usize } else { 0 };
                Some(self.vram[bank * VRAM_SIZE + address as usize - 0x8000])
            },
            0xFE00..=0xFE9F => {
                if self.mode == 3 {
                    return Some(0xFF);
                }
                Some(self.oam[(address - 0xFE00) as usize])
            },
            0xFF40 => Some(self.lcdc),
            0xFF41 => Some(self.stat),
            0xFF42 => Some(self.scy),
            0xFF43 => Some(self.scx),
            0xFF44 => Some(self.ly),
            0xFF45 => Some(self.lyc),
            0xFF47 => Some(self.dmg_bgp),
            0xFF48 => Some(self.obp0),
            0xFF49 => Some(self.obp1),
            0xFF4A => Some(self.wy),
            0xFF4B => Some(self.wx),
            0xFF4F => {
                if self.model_type == ModelType::Color {
                    return Some(0xFE | self.vram_bank);
                }
                Some(0xFF)
            },
            0xFF68 => Some(self.bg_palette_spec),
            0xFF69 => {
                let s = self.bg_palette_spec;
                assert(s & 0x3F == s % 64) by { lemma_byte_fields(); }
                Some(self.bg_palette_data[(s & 0x3F) as usize])
            },
            0xFF6A => Some(self.obj_palette_spec),
            0xFF6B => {
                let s = self.obj_palette_spec;
                assert(s & 0x3F == s % 64) by { lemma_byte_fields(); }
                Some(self.obj_palette_data[(s & 0x3F) as usize])
            },
            0xFF6C => Some(self.object_priority_mode),
            _ => None,
        }
    }

    /// A write of `value` to `address` took the PPU from `self` (interrupt
    /// flag `f0`) to `after` (flag `f1`), `r` telling whether the PPU owns the
    /// address.
    pub open spec fn written(self, after: PPU, f0: u8, f1: u8, address: u16, value: u8, r: bool) -> bool {
        &&& after.wf()
        &&& r == PPU::owns(address)
        &&& 0x8000 <= address <= 0x9FFF ==> f1 == f0 && if self.mode == 3 {
            after == self
        } else {
            after.vram@ == self.vram@.update(self.vram_index(address), value) && after == (PPU { vram: after.vram, ..self })
        }
        &&& 0xFE00 <= address <= 0xFE9F ==> f1 == f0 && if self.mode == 3 {
            after == self
        } else {
            after.oam@ == self.oam@.update(address - 0xFE00, value) && after == (PPU { oam: after.oam, ..self })
        }
        &&& address == 0xFF41 ==> after == (PPU { stat: self.stat_with_sources(value), ..self }) && f1 == stat_edge(
            f0,
            stat_line(self.stat),
            stat_line(self.stat_with_sources(value)),
            self.lcdc & 0x80 != 0,
        )
        &&& address == 0xFF44 ==> ({
            let s = PPU { ly: value, ..self };
            after == (PPU { stat: s.stat_refreshed(), ..s }) && f1 == s.stat_refresh_flag(f0)
        })
        &&& address == 0xFF45 ==> ({
            let s = PPU { lyc: value, ..self };
            after == (PPU { stat: s.stat_refreshed(), ..s }) && f1 == s.stat_refresh_flag(f0)
        })
        &&& address == 0xFF69 ==> f1 == f0 && after.bg_palette_data@ == self.bg_palette_data@.update(
            (self.bg_palette_spec % 64) as int,
            value,
        ) && after == (PPU {
            bg_palette_data: after.bg_palette_data,
            bg_palette_spec: palette_spec_after_write(self.bg_palette_spec),
            ..self
        })
        &&& address == 0xFF6B ==> f1 == f0 && after.obj_palette_data@ == self.obj_palette_data@.update(
            (self.obj_palette_spec % 64) as int,
            value,
        ) && after == (PPU {
            obj_palette_data: after.obj_palette_data,
            obj_palette_spec: palette_spec_after_write(self.obj_palette_spec),
            ..self
        })
        &&& !(0x8000 <= address <= 0x9FFF) && !(0xFE00 <= address <= 0xFE9F) && address != 0xFF41 && address != 0xFF44
            && address != 0xFF45 && address != 0xFF69 && address != 0xFF6B ==> f1 == f0 && after
            == self.after_plain_write(address, value)
    }

    pub fn write(&mut self, address: u16, value: u8, if_flag: &mut u8) -> (r: bool)
        requires
            old(self).wf(),
            old(self).access_ok(),
        ensures
            old(self).written(*final(self), *old(if_flag), *final(if_flag), address, value, r),
    {
        match address {
            0x8000..=0x9FFF => {
                if self.mode != 3 {
                    let bank: usize = if self.model_type == ModelType::Color { self.vram_bank as usize } else { 0 };
                    self.vram.set(bank * VRAM_SIZE + address as usize - 0x8000, value);
                }
            },
            0xFE00..=0xFE9F => {
                if self.mode != 3 {
                    self.oam.set((address - 0xFE00) as usize, value);
                }
            },
            0xFF40 => {
                if self.lcdc & 0x80 != 0 && value & 0x80 == 0 {
                    self.mode = 0;
                } else if self.lcdc & 0x80 == 0 && value & 0x80 != 0 {
                    self.ly = 0;
                    self.dots = 0;
                    self.window_line = 0;
                    self.skip_frame = true;
                }
                self.lcdc = value;
            },
            0xFF41 => {
                self.update_stat_triggers(
                    if_flag,
                    value & 0x40 != 0,
                    value & 0x20 != 0,
                    value & 0x10 != 0,
                    value & 0x08 != 0,
                );
                proof {
                    let st = old(self).stat;
                    assert((if value & 0x08 != 0 { (if value & 0x10 != 0 { (if value & 0x20 != 0 {
                        (if value & 0x40 != 0 { st | 0x40 } else { st & !0x40u8 }) | 0x20
                    } else {
                        (if value & 0x40 != 0 { st | 0x40 } else { st & !0x40u8 }) & !0x20u8
                    }) | 0x10 } else { (if value & 0x20 != 0 {
                        (if value & 0x40 != 0 { st | 0x40 } else { st & !0x40u8 }) | 0x20
                    } else {
                        (if value & 0x40 != 0 { st | 0x40 } else { st & !0x40u8 }) & !0x20u8
                    }) & !0x10u8 }) | 0x08 } else { (if value & 0x10 != 0 { (if value & 0x20 != 0 {
                        (if value & 0x40 != 0 { st | 0x40 } else { st & !0x40u8 }) | 0x20
                    } else {
                        (if value & 0x40 != 0 { st | 0x40 } else { st & !0x40u8 }) & !0x20u8
                    }) | 0x10 } else { (if value & 0x20 != 0 {
                        (if value & 0x40 != 0 { st | 0x40 } else { st & !0x40u8 }) | 0x20
                    } else {
                        (if value & 0x40 != 0 { st | 0x40 } else { st & !0x40u8 }) & !0x20u8
                    }) & !0x10u8 }) & !0x08u8 }) == (st & 0x87) | (value & 0x78)) by (bit_vector);
                }
            },
            0xFF42 => {
                self.scy = value;
            },
            0xFF43 => {
                self.scx = value;
            },
            0xFF44 => {
                self.ly = value;
                self.update_stat_state(if_flag);
            },
            0xFF45 => {
                self.lyc = value;
                self.update_stat_state(if_flag);
            },
            0xFF47 => {
                self.dmg_bgp = value;
            },
            0xFF48 => {
                self.obp0 = value;
            },
            0xFF49 => {
                self.obp1 = value;
            },
            0xFF4A => {
                self.wy = value;
            },
            0xFF4B => {
                self.wx = value;
            },
            0xFF4F => {
                if self.model_type == ModelType::Color {
                    assert(value & 0x01 == value % 2) by { lemma_byte_fields(); }
                    self.vram_bank = value & 0x01;
                }
            },
            0xFF68 => {
                self.bg_palette_spec = value;
            },
            0xFF69 => {
                let spec = self.bg_palette_spec;
                let index = spec & 0x3F;
                assert(spec & 0x3F == spec % 64) by { lemma_byte_fields(); }
                self.bg_palette_data.set(index as usize, value);
                if spec & 0x80 != 0 {
                    let new_index = (index + 1) & 0x3F;
                    self.bg_palette_spec = (spec & 0x80) | new_index;
                }
                proof {
                    lemma_palette_spec_step(spec);
                }
            },
            0xFF6A => {
                self.obj_palette_spec = value;
            },
            0xFF6B => {
                let spec = self.obj_palette_spec;
                let index = spec & 0x3F;
                assert(spec & 0x3F == spec % 64) by { lemma_byte_fields(); }
                self.obj_palette_data.set(index as usize, value);
                if spec & 0x80 != 0 {
                    let new_index = (index + 1) & 0x3F;
                    self.obj_palette_spec = (spec & 0x80) | new_index;
                }
                proof {
                    lemma_palette_spec_step(spec);
                }
            },
            0xFF6C => {
                self.object_priority_mode = value;
            },
            _ => {
                return false;
            },
        }
        true
    }

    /// Writes a byte at an offset into the CPU-visible VRAM bank.
    pub fn write_to_vram(&mut self, address: u16, value: u8)
        requires
            old(self).wf(),
            old(self).access_ok(),
            old(self).cpu_vram_bank() * VRAM_SIZE + address < VRAM_SIZE * VRAM_TOTAL_BANKS,
        ensures
            final(self).wf(),
            final(self).vram@ == old(self).vram@.update(old(self).cpu_vram_bank() * VRAM_SIZE + address, value),
            *final(self) == (PPU { vram: final(self).vram, ..*old(self) }),
    {
        let bank: usize = if self.model_type == ModelType::Color { self.vram_bank as usize } else { 0 };
        self.vram.set(bank * VRAM_SIZE + address as usize, value);
    }

    pub fn update_stat_state(&mut self, if_flag: &mut u8)
        ensures
            *final(self) == (PPU { stat: old(self).stat_refreshed(), ..*old(self) }),
            *final(if_flag) == old(self).stat_refresh_flag(*old(if_flag)),
    {
        let previous_value = self.stat_on();
        if self.ly == self.lyc {
            self.stat = self.stat | 0x04;
        } else {
            self.stat = self.stat & !0x04;
        }
        self.stat = (self.stat & !0x03) | self.mode;
        let new_value = self.stat_on();
        if !previous_value && new_value && self.lcdc & 0x80 != 0 {
            *if_flag = *if_flag | 0x02;
        }
    }

    pub fn update_stat_triggers(
        &mut self,
        if_flag: &mut u8,
        ly_trigger: bool,
        mode2_tigger: bool,
        mode1_trigger: bool,
        mode0_trigger: bool,
    )
        ensures
            ({
                let s0 = old(self).stat;
                let s1 = if ly_trigger { s0 | 0x40 } else { s0 & !0x40u8 };
                let s2 = if mode2_tigger { s1 | 0x20 } else { s1 & !0x20u8 };
                let s3 = if mode1_trigger { s2 | 0x10 } else { s2 & !0x10u8 };
                let s4 = if mode0_trigger { s3 | 0x08 } else { s3 & !0x08u8 };
                &&& *final(self) == (PPU { stat: s4, ..*old(self) })
                &&& *final(if_flag) == stat_edge(*old(if_flag), stat_line(s0), stat_line(s4), old(self).lcdc & 0x80 != 0)
            }),
    {
        let previous_value = self.stat_on();
        self.stat = if ly_trigger { self.stat | 0x40 } else { self.stat & !0x40 };
        self.stat = if mode2_tigger { self.stat | 0x20 } else { self.stat & !0x20 };
        self.stat = if mode1_trigger { self.stat | 0x10 } else { self.stat & !0x10 };
        self.stat = if mode0_trigger { self.stat | 0x08 } else { self.stat & !0x08 };
        let new_value = self.stat_on();
        if !previous_value && new_value && self.lcdc & 0x80 != 0 {
            *if_flag = *if_flag | 0x02;
        }
    }

    pub fn stat_on(&self) -> (r: bool)
        ensures
            r == stat_line(self.stat),
    {
        if self.stat & 0x40 != 0 && self.stat & 0x04 != 0 {
            return true;
        }
        if self.stat & 0x20 != 0 && self.stat & 0x03 == 2 {
            return true;
        }
        if self.stat & 0x10 != 0 && self.stat & 0x03 == 1 {
            return true;
        }
        if self.stat & 0x08 != 0 && self.stat & 0x03 == 0 {
            return true;
        }
        false
    }
}

proof fn lemma_palette_spec_step(spec: u8)
    ensures
        (if spec & 0x80 != 0 { (spec & 0x80) | ((((spec & 0x3F) + 1) as u8) & 0x3F) } else { spec }) == palette_spec_after_write(
            spec,
        ),
{
    assert((spec & 0x80 != 0) == (spec / 128 == 1) && (spec & 0x80 != 0 ==> (spec & 0x80) | ((((spec & 0x3F) + 1) as u8)
        & 0x3F) == 128 + ((spec % 64) + 1) % 64)) by (bit_vector);
}

} // verus!

verus! {

/// An RGBA colour.
pub type Rgba = (u8, u8, u8, u8);

/// The four DMG shades (lightest first).
pub open spec fn dmg_shade_rgba(shade: u8) -> Rgba {
    if shade == 0 {
        (0x9B, 0xBC, 0x0F, 0xFF)
    } else if shade == 1 {
        (0x8B, 0xAC, 0x0F, 0xFF)
    } else if shade == 2 {
        (0x30, 0x62, 0x30, 0xFF)
    } else {
        (0x0F, 0x38, 0x0F, 0xFF)
    }
}

/// The DMG colour of a colour index through a palette register: the
/// index selects a 2-bit shade field (index 0 in bits 1..0).
pub open spec fn dmg_rgba(palette: u8, color_index: u8) -> Rgba {
    let shade = if color_index == 0 {
        palette % 4
    } else if color_index == 1 {
        (palette / 4) % 4
    } else if color_index == 2 {
        (palette / 16) % 4
    } else {
        palette / 64
    };
    dmg_shade_rgba(shade)
}

/// A 5-bit channel widened to 8 bits (the top bits repeated at the bottom).
pub open spec fn widen5(c: nat) -> u8 {
    (c * 8 + c / 4) as u8
}

/// The Color-model colour of a little-endian RGB555 palette entry.
pub open spec fn cgb_rgba(low: u8, high: u8) -> Rgba {
    let r5 = low as nat % 32;
    let g5 = low as nat / 32 + (high as nat % 4) * 8;
    let b5 = (high as nat / 4) % 32;
    (widen5(r5), widen5(g5), widen5(b5), 255)
}

/// Bit `k` (0..=7) of a byte.
pub open spec fn bit(b: u8, k: u8) -> u8 {
    (b >> k) & 1
}

/// The colour index (0..=3) of pixel `x` (0 = leftmost) of a tile row whose
/// two bit planes are at `row_address` and `row_address + 1`.
pub open spec fn color_index_at(vram: Seq<u8>, row_address: int, x: u8) -> u8 {
    (bit(vram[row_address + 1], (7 - x) as u8) * 2 + bit(vram[row_address], (7 - x) as u8)) as u8
}

/// Where the background/window pixel of column `i` of line `ly` comes from:
/// the address of its tile row's bit planes in VRAM, its column inside the
/// tile (after flipping) and the tile's attributes (0 on a DMG).
pub open spec fn bg_fetch(p: PPU, i: u8) -> (int, u8, u8) {
    let color = p.model_type == ModelType::Color;
    let window_enabled = p.lcdc & 0x20 != 0 && p.ly >= p.wy;
    let use_window = window_enabled && i + 7 >= p.wx;
    let map_bit: u8 = if use_window { 0x40 } else { 0x08 };
    let map_base: int = if p.lcdc & map_bit != 0 { 0x1C00 } else { 0x1800 };
    let x: int = if use_window { i + 7 - p.wx } else { (i + p.scx) % 256 };
    let y: int = if use_window { p.window_line as int } else { (p.ly + p.scy) % 256 };
    let map_address = map_base + (y / 8) * 32 + x / 8;
    let tile_index = p.vram@[map_address];
    let tile_data: int = if p.lcdc & 0x10 != 0 {
        tile_index * 16
    } else {
        0x1000 + (if tile_index < 128 { tile_index as int } else { tile_index - 256 }) * 16
    };
    let attributes: u8 = if color { p.vram@[VRAM_SIZE + map_address] } else { 0 };
    let bank: int = if attributes & 0x08 != 0 { 1 } else { 0 };
    let row: int = if attributes & 0x40 != 0 { 7 - y % 8 } else { y % 8 };
    let col: int = if attributes & 0x20 != 0 { 7 - x % 8 } else { x % 8 };
    (VRAM_SIZE * bank + tile_data + row * 2, col as u8, attributes)
}

/// The background/window pixel of column `i` of line `ly`: its colour and
/// how it lets objects through.
pub open spec fn bg_pixel(p: PPU, i: u8) -> (Rgba, PixelPriority) {
    let color = p.model_type == ModelType::Color;
    if p.lcdc & 0x01 == 0 && !color {
        ((0x9B, 0xBC, 0x0F, 0xFF), PixelPriority::Sprite)
    } else {
        let (row_address, col, attributes) = bg_fetch(p, i);
        let ci = color_index_at(p.vram@, row_address, col);
        let rgba = if color {
            let base = (attributes % 8) * 8 + ci * 2;
            cgb_rgba(p.bg_palette_data@[base as int], p.bg_palette_data@[base + 1])
        } else {
            dmg_rgba(p.dmg_bgp, ci)
        };
        let prio = if p.lcdc & 0x01 == 0 {
            PixelPriority::Sprite
        } else if attributes & 0x80 != 0 && ci > 0 {
            PixelPriority::BG
        } else if ci > 0 {
            PixelPriority::BGIfSpriteDisabled
        } else {
            PixelPriority::Sprite
        };
        (rgba, prio)
    }
}

/// Whether the window covers some pixel of the current line.
pub open spec fn window_drawn(p: PPU) -> bool {
    p.lcdc & 0x20 != 0 && p.ly >= p.wy && p.wx <= 166
}

impl PPU {
    pub fn calculate_pixel_color_index(&self, row_address: u16, x: u16) -> (r: u8)
        requires
            self.wf(),
            row_address + 1 < self.vram.len(),
            x <= 7,
        ensures
            r == color_index_at(self.vram@, row_address as int, x as u8),
            r <= 3,
    {
        let byte0 = self.vram[row_address as usize];
        let byte1 = self.vram[row_address as usize + 1];
        let k = (7 - x) as u8;
        let low_bit = (byte0 >> k) & 0x01;
        let high_bit = (byte1 >> k) & 0x01;
        assert((k < 8 ==> ((byte1 >> k) & 1) * 2 + ((byte0 >> k) & 1) <= 3) && (high_bit <= 1 && low_bit <= 1 ==> (high_bit
            << 1u8) | low_bit == high_bit * 2 + low_bit) && ((byte1 >> k) & 1) <= 1 && ((byte0 >> k) & 1) <= 1)
            by (bit_vector);
        (high_bit << 1) | low_bit
    }

    pub fn calculate_dmg_color(&self, palette: u8, color_index: u8) -> (r: Rgba)
        requires
            color_index <= 3,
        ensures
            r == dmg_rgba(palette, color_index),
    {
        let shade = (palette >> (color_index * 2)) & 0x03;
        assert(palette >> 0u8 & 3 == palette % 4 && (palette >> 2u8) & 3 == (palette / 4) % 4 && (palette >> 4u8) & 3
            == (palette / 16) % 4 && (palette >> 6u8) & 3 == palette / 64) by (bit_vector);
        assert(shade <= 3) by (bit_vector)
            requires
                shade == (palette >> (color_index * 2)) & 0x03,
        ;
        match shade {
            0 => (0x9B, 0xBC, 0x0F, 0xFF),
            1 => (0x8B, 0xAC, 0x0F, 0xFF),
            2 => (0x30, 0x62, 0x30, 0xFF),
            _ => (0x0F, 0x38, 0x0F, 0xFF),
        }
    }

    pub fn calculate_cgb_color(&self, low: u8, high: u8) -> (r: Rgba)
        ensures
            r == cgb_rgba(low, high),
    {
        let r5 = (low & 0x1F) as u16;
        let g5 = (((low >> 5) | (high << 3)) & 0x1F) as u16;
        let b5 = ((high >> 2) & 0x1F) as u16;
        assert((low & 0x1F) == low % 32 && ((low >> 5u8) | (high << 3u8)) & 0x1F == low / 32 + (high % 4) * 8 && (high
            >> 2u8) & 0x1F == (high / 4) % 32 && (r5 < 32 ==> ((r5 << 3u16) | (r5 >> 2u16)) == r5 * 8 + r5 / 4) && (g5
            < 32 ==> ((g5 << 3u16) | (g5 >> 2u16)) == g5 * 8 + g5 / 4) && (b5 < 32 ==> ((b5 << 3u16) | (b5 >> 2u16))
            == b5 * 8 + b5 / 4)) by (bit_vector);
        let r8 = ((r5 << 3) | (r5 >> 2)) as u8;
        let g8 = ((g5 << 3) | (g5 >> 2)) as u8;
        let b8 = ((b5 << 3) | (b5 >> 2)) as u8;
        (r8, g8, b8, 255)
    }
}

} // verus!

verus! {

impl PPU {
    /// Locates the tile data of the background/window pixel of column `i`.
    pub fn background_fetch(&self, i: u8) -> (r: (u16, u16, u8))
        requires
            self.wf(),
            i < 160,
        ensures
            r.0 as int == bg_fetch(*self, i).0,
            r.1 as int == bg_fetch(*self, i).1,
            r.2 == bg_fetch(*self, i).2,
            r.0 + 1 < 0x4000,
            r.1 <= 7,
    {
        let color = self.model_type == ModelType::Color;
        let window_enabled = self.lcdc & 0x20 != 0 && self.ly >= self.wy;
        let use_window = window_enabled && i + 7 >= self.wx;
        let timemap_base_bit: u8 = if use_window { 0x40 } else { 0x08 };
        let timemap_base: u16 = if self.lcdc & timemap_base_bit != 0 { 0x1C00 } else { 0x1800 };
        let x: u16 = if use_window { (i + 7 - self.wx) as u16 } else { i.wrapping_add(self.scx) as u16 };
        let y: u16 = if use_window { self.window_line as u16 } else { self.ly.wrapping_add(self.scy) as u16 };
        let tile_row = y / 8;
        let tile_col = x / 8;
        let tilemap_address = timemap_base + tile_row * 32 + tile_col;
        let tile_index = self.vram[tilemap_address as usize];
        let tile_data_address: u16 = if self.lcdc & 0x10 != 0 {
            (tile_index as u16) * 16
        } else {
            let signed: i16 = if tile_index < 128 { tile_index as i16 } else { tile_index as i16 - 256 };
            (0x1000 + signed * 16) as u16
        };
        let tile_attributes: u8 = if color { self.vram[VRAM_SIZE + tilemap_address as usize] } else { 0x00 };
        let tile_bank: u16 = if tile_attributes & 0x08 != 0 { 1 } else { 0 };
        let x_flip = tile_attributes & 0x20 != 0;
        let y_flip = tile_attributes & 0x40 != 0;
        let inner_tile_row: u16 = if y_flip { 7 - (y % 8) } else { y % 8 };
        let inner_tile_col: u16 = if x_flip { 7 - (x % 8) } else { x % 8 };
        let inner_row_address = VRAM_SIZE as u16 * tile_bank + tile_data_address + inner_tile_row * 2;
        (inner_row_address, inner_tile_col, tile_attributes)
    }

    /// Computes the background/window pixel of column `i` of the current line.
    pub fn background_pixel(&self, i: u8) -> (r: (Rgba, PixelPriority))
        requires
            self.wf(),
            i < 160,
        ensures
            r == bg_pixel(*self, i),
    {
        let color = self.model_type == ModelType::Color;
        if self.lcdc & 0x01 == 0 && !color {
            return ((0x9B, 0xBC, 0x0F, 0xFF), PixelPriority::Sprite);
        }
        let (inner_row_address, inner_tile_col, tile_attributes) = self.background_fetch(i);
        assert(tile_attributes & 0x07 == tile_attributes % 8) by { lemma_byte_fields(); }
        let palette_num = (tile_attributes & 0x07) as usize;
        let bg_priority = tile_attributes & 0x80 != 0;
        let color_index = self.calculate_pixel_color_index(inner_row_address, inner_tile_col);
        let rgba = if color {
            let base = palette_num * 8 + color_index as usize * 2;
            let low = self.bg_palette_data[base];
            let high = self.bg_palette_data[base + 1];
            self.calculate_cgb_color(low, high)
        } else {
            self.calculate_dmg_color(self.dmg_bgp, color_index)
        };
        let prio = if self.lcdc & 0x01 == 0 {
            PixelPriority::Sprite
        } else if bg_priority && color_index > 0 {
            PixelPriority::BG
        } else if color_index > 0 {
            PixelPriority::BGIfSpriteDisabled
        } else {
            PixelPriority::Sprite
        };
        (rgba, prio)
    }
}

} // verus!

verus! {

/// The height in pixels of objects (8, or 16 with LCDC bit 2).
pub open spec fn sprite_height(lcdc: u8) -> int {
    if lcdc & 0x04 != 0 {
        16
    } else {
        8
    }
}

/// The line of an object that the current line shows (0 = its top line).
pub open spec fn sprite_line(p: PPU, s: Sprite) -> int {
    (p.ly - s.y) % 256
}

/// The two bit planes of the object's row on the current line: after a
/// vertical flip, and in 8x16 mode from the top tile (index with bit 0
/// cleared) or the bottom one (bit 0 set).
pub open spec fn sprite_row_address(p: PPU, s: Sprite) -> int {
    let h = sprite_height(p.lcdc);
    let line = sprite_line(p, s);
    let row = if s.attributes & 0x40 != 0 { h - 1 - line } else { line };
    let (tile, r) = if h == 16 {
        if row < 8 {
            ((s.tile_index & 0xFE) as int, row)
        } else {
            ((s.tile_index | 0x01) as int, row - 8)
        }
    } else {
        (s.tile_index as int, row)
    };
    let bank: int = if p.model_type == ModelType::Color && s.attributes & 0x08 != 0 { 1 } else { 0 };
    VRAM_SIZE * bank + tile * 16 + r * 2
}

/// Which column of the object covers screen column `x`, if any (0 = its
/// left edge; objects may wrap past column 255).
pub open spec fn sprite_column(s: Sprite, x: int) -> int {
    (x - s.x) % 256
}

/// The pixel an object draws at screen column `x` of the current line,
/// given how the background there lets objects through: `None` where the
/// object does not cover `x`, is transparent (colour 0) or is hidden.
pub open spec fn sprite_pixel(p: PPU, s: Sprite, x: int, prio: PixelPriority) -> Option<Rgba> {
    let b = sprite_column(s, x);
    let k: u8 = (if s.attributes & 0x20 != 0 { b } else { 7 - b }) as u8;
    let a = sprite_row_address(p, s);
    let ci = (bit(p.vram@[a + 1], k) * 2 + bit(p.vram@[a], k)) as u8;
    if !(0 <= x < 160) || b >= 8 || ci == 0 {
        None
    } else if prio == PixelPriority::BG {
        None
    } else if prio == PixelPriority::BGIfSpriteDisabled && s.attributes & 0x80 != 0 {
        None
    } else if p.model_type == ModelType::Color {
        let base = (s.attributes % 8) as int * 8 + ci * 2;
        Some(cgb_rgba(p.obj_palette_data@[base], p.obj_palette_data@[base + 1]))
    } else {
        Some(dmg_rgba(if s.attributes & 0x10 != 0 { p.obp1 } else { p.obp0 }, ci))
    }
}

/// What a list of objects draws at column `x`: the last object in the list
/// that draws a pixel there wins.
pub open spec fn sprites_pixel(p: PPU, sprites: Seq<Sprite>, x: int, prio: PixelPriority) -> Option<Rgba>
    decreases sprites.len(),
{
    if sprites.len() == 0 {
        None
    } else {
        match sprite_pixel(p, sprites.last(), x, prio) {
            Some(c) => Some(c),
            None => sprites_pixel(p, sprites.drop_last(), x, prio),
        }
    }
}

/// Every vertically flipped object on the list lies on the current line
/// (its flipped row is inside the object).
pub open spec fn sprites_fit(p: PPU) -> bool {
    forall|j: int|
        0 <= j < p.sprites@.len() && #[trigger] p.sprites@[j].attributes & 0x40 != 0 ==> sprite_line(
            p,
            p.sprites@[j],
        ) < sprite_height(p.lcdc)
}

/// Byte `k` (0..=3) of an RGBA colour.
pub open spec fn rgba_byte(c: Rgba, k: int) -> u8 {
    if k == 0 {
        c.0
    } else if k == 1 {
        c.1
    } else if k == 2 {
        c.2
    } else {
        c.3
    }
}

impl PPU {
    /// Fetches the two bit planes of an object's row on the current line.
    pub fn sprite_row_bytes(&self, sprite: Sprite) -> (r: (u8, u8))
        requires
            self.wf(),
            sprite.attributes & 0x40 != 0 ==> sprite_line(*self, sprite) < sprite_height(self.lcdc),
        ensures
            0 <= sprite_row_address(*self, sprite),
            sprite_row_address(*self, sprite) + 1 < 0x4000,
            r.0 == self.vram@[sprite_row_address(*self, sprite)],
            r.1 == self.vram@[sprite_row_address(*self, sprite) + 1],
    {
        let sprite_height: u16 = if self.lcdc & 0x04 != 0 { 16 } else { 8 };
        let mut tile_row = self.ly.wrapping_sub(sprite.y) as u16;
        if sprite.attributes & 0x40 != 0 {
            tile_row = sprite_height - 1 - tile_row;
        }
        let tile_index: u16 = if sprite_height == 16 {
            if tile_row < 8 {
                (sprite.tile_index & !0x01) as u16
            } else {
                tile_row -= 8;
                (sprite.tile_index | 0x01) as u16
            }
        } else {
            sprite.tile_index as u16
        };
        assert(sprite.tile_index & !0x01u8 == sprite.tile_index & 0xFE) by { lemma_byte_fields(); }
        let tile_bank: u16 = if self.model_type == ModelType::Color && sprite.attributes & 0x08 != 0 { 1 } else { 0 };
        let tile_address = VRAM_SIZE as u16 * tile_bank + tile_index * 16 + tile_row * 2;
        let byte0 = self.vram[tile_address as usize];
        let byte1 = self.vram[tile_address as usize + 1];
        (byte0, byte1)
    }

    /// The pixel an object draws at its column `bit`, from its row's bit planes.
    pub fn sprite_color(&self, sprite: Sprite, bit: u8, byte0: u8, byte1: u8, prio: PixelPriority) -> (r: Option<Rgba>)
        requires
            self.wf(),
            bit < 8,
            sprite_row_address(*self, sprite) + 1 < 0x4000,
            0 <= sprite_row_address(*self, sprite),
            byte0 == self.vram@[sprite_row_address(*self, sprite)],
            byte1 == self.vram@[sprite_row_address(*self, sprite) + 1],
        ensures
            r == sprite_pixel(*self, sprite, (sprite.x + bit) % 256, prio),
    {
        let screen_x = sprite.x.wrapping_add(bit);
        proof {
            assert(sprite_column(sprite, (sprite.x + bit) % 256) == bit) by {
                let sx = (sprite.x + bit) % 256;
                assert((sx - sprite.x) % 256 == bit as int);
            }
        }
        if screen_x >= 160 {
            return None;
        }
        let flipped_bit = if sprite.attributes & 0x20 != 0 { bit } else { 7 - bit };
        let low = (byte0 >> flipped_bit) & 0x01;
        let high = (byte1 >> flipped_bit) & 0x01;
        assert(((byte1 >> flipped_bit) & 1) <= 1 && ((byte0 >> flipped_bit) & 1) <= 1 && (high <= 1 && low <= 1 ==> (high
            << 1u8) | low == high * 2 + low)) by (bit_vector);
        let color_index = (high << 1) | low;
        if color_index == 0 {
            return None;
        }
        if prio == PixelPriority::BG {
            return None;
        }
        if prio == PixelPriority::BGIfSpriteDisabled && sprite.attributes & 0x80 != 0 {
            return None;
        }
        if self.model_type == ModelType::Color {
            let a = sprite.attributes;
            assert(a & 0x07 == a % 8) by { lemma_byte_fields(); }
            let palette_num = (sprite.attributes & 0x07) as usize;
            let base = palette_num * 8 + color_index as usize * 2;
            let low = self.obj_palette_data[base];
            let high = self.obj_palette_data[base + 1];
            Some(self.calculate_cgb_color(low, high))
        } else {
            let palette = if sprite.attributes & 0x10 != 0 { self.obp1 } else { self.obp0 };
            Some(self.calculate_dmg_color(palette, color_index))
        }
    }
}

} // verus!

verus! {

proof fn lemma_sprite_column(s: Sprite, x: int, b: int)
    requires
        0 <= x < 256,
        0 <= b < 8,
    ensures
        (sprite_column(s, x) == b) == (x == (s.x + b) % 256),
{
}

proof fn lemma_sprites_pixel_take(p: PPU, sprites: Seq<Sprite>, j: int, x: int, prio: PixelPriority)
    requires
        0 <= j < sprites.len(),
    ensures
        sprites_pixel(p, sprites.take(j + 1), x, prio) == match sprite_pixel(p, sprites[j], x, prio) {
            Some(c) => Some(c),
            None => sprites_pixel(p, sprites.take(j), x, prio),
        },
{
    assert(sprites.take(j + 1).last() == sprites[j]);
    assert(sprites.take(j + 1).drop_last() =~= sprites.take(j));
}

/// The frame-buffer byte for column `x`, channel `k`: the colour drawn there if any, else the old byte.
pub open spec fn overlay_byte(c: Option<Rgba>, k: int, old_byte: u8) -> u8 {
    match c {
        Some(col) => rgba_byte(col, k),
        None => old_byte,
    }
}

impl PPU {
    /// Draws the objects selected for the current line over the background,
    /// in list order, so later objects cover earlier ones.
    #[verifier::rlimit(40)]
    pub fn render_sprites(&mut self)
        requires
            old(self).wf(),
            old(self).ly < 144,
            sprites_fit(*old(self)),
        ensures
            final(self).wf(),
            *final(self) == (PPU { frame_buffer: final(self).frame_buffer, ..*old(self) }),
            old(self).lcdc & 0x02 == 0 ==> final(self).frame_buffer@ == old(self).frame_buffer@,
            old(self).lcdc & 0x02 != 0 ==> forall|x: int, k: int|
                0 <= x < 160 && 0 <= k < 4 ==> #[trigger] final(self).frame_buffer@[old(self).ly * 640 + x * 4 + k]
                    == overlay_byte(
                    sprites_pixel(
                        *old(self),
                        old(self).sprites@,
                        x,
                        old(self).frame_buffer_pixel_priorities@[old(self).ly * 160 + x],
                    ),
                    k,
                    old(self).frame_buffer@[old(self).ly * 640 + x * 4 + k],
                ),
            forall|j: int|
                0 <= j < FRAME_BUFFER_SIZE && !(old(self).ly * 640 <= j < old(self).ly * 640 + 640)
                    ==> #[trigger] final(self).frame_buffer@[j] == old(self).frame_buffer@[j],
    {
        if self.lcdc & 0x02 == 0 {
            return;
        }
        let ghost start = *self;
        let ghost row: int = self.ly as int * 640;
        let ghost prow: int = self.ly as int * 160;
        let n = self.sprites.len();
        let mut j: usize = 0;
        while j < n
            invariant
                self.wf(),
                0 <= j <= n,
                n == self.sprites.len(),
                start.ly < 144,
                row == start.ly as int * 640,
                prow == start.ly as int * 160,
                sprites_fit(start),
                *self == (PPU { frame_buffer: self.frame_buffer, ..start }),
                forall|x: int, k: int|
                    0 <= x < 160 && 0 <= k < 4 ==> #[trigger] self.frame_buffer@[row + x * 4 + k] == overlay_byte(
                        sprites_pixel(start, start.sprites@.take(j as int), x, start.frame_buffer_pixel_priorities@[prow + x]),
                        k,
                        start.frame_buffer@[row + x * 4 + k],
                    ),
                forall|i: int|
                    0 <= i < FRAME_BUFFER_SIZE && !(row <= i < row + 640) ==> #[trigger] self.frame_buffer@[i]
                        == start.frame_buffer@[i],
            decreases n - j,
        {
            let sprite = self.sprites[j];
            let (byte0, byte1) = self.sprite_row_bytes(sprite);
            let ghost before = self.frame_buffer@;
            let mut b: u8 = 0;
            while b < 8
                invariant
                    self.wf(),
                    0 <= b <= 8,
                    j < n,
                    n == self.sprites.len(),
                    start.ly < 144,
                    row == start.ly as int * 640,
                    prow == start.ly as int * 160,
                    sprite == start.sprites@[j as int],
                    0 <= sprite_row_address(start, sprite),
                    sprite_row_address(start, sprite) + 1 < 0x4000,
                    byte0 == start.vram@[sprite_row_address(start, sprite)],
                    byte1 == start.vram@[sprite_row_address(start, sprite) + 1],
                    *self == (PPU { frame_buffer: self.frame_buffer, ..start }),
                    forall|x: int, k: int|
                        0 <= x < 160 && 0 <= k < 4 ==> #[trigger] self.frame_buffer@[row + x * 4 + k] == (if sprite_column(
                            sprite,
                            x,
                        ) < b {
                            overlay_byte(
                                sprite_pixel(start, sprite, x, start.frame_buffer_pixel_priorities@[prow + x]),
                                k,
                                before[row + x * 4 + k],
                            )
                        } else {
                            before[row + x * 4 + k]
                        }),
                    forall|i: int|
                        0 <= i < FRAME_BUFFER_SIZE && !(row <= i < row + 640) ==> #[trigger] self.frame_buffer@[i]
                            == before[i],
                    before.len() == FRAME_BUFFER_SIZE,
                decreases 8 - b,
            {
                let screen_x = sprite.x.wrapping_add(b);
                if screen_x < 160 {
                    let pidx = self.ly as usize * 160 + screen_x as usize;
                    let prio = self.frame_buffer_pixel_priorities[pidx];
                    let color = self.sprite_color(sprite, b, byte0, byte1, prio);
                    if let Some((r, g, bl, a)) = color {
                        let i = pidx * 4;
                        self.frame_buffer.set(i, r);
                        self.frame_buffer.set(i + 1, g);
                        self.frame_buffer.set(i + 2, bl);
                        self.frame_buffer.set(i + 3, a);
                    }
                }
                proof {
                    assert forall|x: int, k: int| 0 <= x < 160 && 0 <= k < 4 implies #[trigger] self.frame_buffer@[row + x
                        * 4 + k] == (if sprite_column(sprite, x) < b + 1 {
                        overlay_byte(
                            sprite_pixel(start, sprite, x, start.frame_buffer_pixel_priorities@[prow + x]),
                            k,
                            before[row + x * 4 + k],
                        )
                    } else {
                        before[row + x * 4 + k]
                    }) by {
                        lemma_sprite_column(sprite, x, b as int);
                    }
                }
                b = b + 1;
            }
            proof {
                assert forall|x: int, k: int| 0 <= x < 160 && 0 <= k < 4 implies #[trigger] self.frame_buffer@[row + x * 4
                    + k] == overlay_byte(
                    sprites_pixel(start, start.sprites@.take(j + 1), x, start.frame_buffer_pixel_priorities@[prow + x]),
                    k,
                    start.frame_buffer@[row + x * 4 + k],
                ) by {
                    lemma_sprites_pixel_take(start, start.sprites@, j as int, x, start.frame_buffer_pixel_priorities@[prow + x]);
                    assert(0 <= sprite_column(sprite, x) < 256);
                }
            }
            j = j + 1;
        }
        proof {
            assert(start.sprites@.take(n as int) =~= start.sprites@);
        }
    }
}

} // verus!

verus! {

/// `after` is `before` with its current line drawn: the background and
/// window pixels with the priorities they give objects, the objects over
/// them, the rest of the frame as it was, and the window line counter
/// moved on when the window showed on this line.
pub open spec fn scanline_drawn(before: PPU, after: PPU) -> bool {
    &&& after.wf()
    &&& after == (PPU {
        frame_buffer: after.frame_buffer,
        frame_buffer_pixel_priorities: after.frame_buffer_pixel_priorities,
        window_line: if window_drawn(before) { (before.window_line + 1) as u8 } else { before.window_line },
        ..before
    })
    &&& forall|x: int|
        0 <= x < 160 ==> #[trigger] after.frame_buffer_pixel_priorities@[before.ly * 160 + x] == bg_pixel(
            before,
            x as u8,
        ).1
    &&& forall|x: int, k: int|
        0 <= x < 160 && 0 <= k < 4 ==> #[trigger] after.frame_buffer@[before.ly * 640 + x * 4 + k] == overlay_byte(
            if before.lcdc & 0x02 != 0 {
                sprites_pixel(before, before.sprites@, x, bg_pixel(before, x as u8).1)
            } else {
                None
            },
            k,
            rgba_byte(bg_pixel(before, x as u8).0, k),
        )
    &&& forall|j: int|
        0 <= j < FRAME_BUFFER_SIZE && !(before.ly * 640 <= j < before.ly * 640 + 640) ==> #[trigger] after.frame_buffer@[j]
            == before.frame_buffer@[j]
    &&& forall|j: int|
        0 <= j < FRAME_PIXELS && !(before.ly * 160 <= j < before.ly * 160 + 160)
            ==> #[trigger] after.frame_buffer_pixel_priorities@[j] == before.frame_buffer_pixel_priorities@[j]
}

impl PPU {
    /// Renders the current line: the background/window pixels with their
    /// object priorities, then the objects over them. The window line
    /// counter moves on when the window showed on this line.
    #[verifier::rlimit(40)]
    pub fn render_scanline(&mut self)
        requires
            old(self).wf(),
            old(self).ly < 144,
            sprites_fit(*old(self)),
            window_drawn(*old(self)) ==> old(self).window_line < 255,
        ensures
            scanline_drawn(*old(self), *final(self)),
    {
        let ghost start = *self;
        let ghost row: int = self.ly as int * 640;
        let ghost prow: int = self.ly as int * 160;
        let window_enabled = self.lcdc & 0x20 != 0 && self.ly >= self.wy;
        let mut window_drawn = false;
        let mut i: u8 = 0;
        while i < 160
            invariant
                self.wf(),
                0 <= i <= 160,
                start.ly < 144,
                row == start.ly as int * 640,
                prow == start.ly as int * 160,
                window_enabled == (start.lcdc & 0x20 != 0 && start.ly >= start.wy),
                window_drawn == (window_enabled && i > 0 && start.wx <= i + 6),
                *self == (PPU {
                    frame_buffer: self.frame_buffer,
                    frame_buffer_pixel_priorities: self.frame_buffer_pixel_priorities,
                    ..start
                }),
                forall|x: int, k: int|
                    0 <= x < i && 0 <= k < 4 ==> #[trigger] self.frame_buffer@[row + x * 4 + k] == rgba_byte(
                        bg_pixel(start, x as u8).0,
                        k,
                    ),
                forall|x: int| 0 <= x < i ==> #[trigger] self.frame_buffer_pixel_priorities@[prow + x] == bg_pixel(start, x as u8).1,
                forall|j: int|
                    0 <= j < FRAME_BUFFER_SIZE && !(row <= j < row + i * 4) ==> #[trigger] self.frame_buffer@[j]
                        == start.frame_buffer@[j],
                forall|j: int|
                    0 <= j < FRAME_PIXELS && !(prow <= j < prow + i) ==> #[trigger] self.frame_buffer_pixel_priorities@[j]
                        == start.frame_buffer_pixel_priorities@[j],
            decreases 160 - i,
        {
            let use_window = window_enabled && i + 7 >= self.wx;
            if use_window {
                window_drawn = true;
            }
            let ((r, g, b, a), prio) = self.background_pixel(i);
            let pidx = self.ly as usize * 160 + i as usize;
            let fidx = pidx * 4;
            self.frame_buffer.set(fidx, r);
            self.frame_buffer.set(fidx + 1, g);
            self.frame_buffer.set(fidx + 2, b);
            self.frame_buffer.set(fidx + 3, a);
            self.frame_buffer_pixel_priorities.set(pidx, prio);
            i = i + 1;
        }
        if window_drawn {
            self.window_line += 1;
        }
        let ghost mid = *self;
        proof {
            assert(sprites_fit(mid));
            assert forall|x: int| 0 <= x < 160 implies #[trigger] mid.frame_buffer_pixel_priorities@[prow + x] == bg_pixel(start, x as u8).1 by {}
        }
        self.render_sprites();
        proof {
            assert forall|x: int| 0 <= x < 160 implies #[trigger] sprites_pixel(mid, mid.sprites@, x, bg_pixel(start, x as u8).1)
                == sprites_pixel(start, start.sprites@, x, bg_pixel(start, x as u8).1) by {
                lemma_sprites_pixel_same_inputs(mid, start, start.sprites@, x, bg_pixel(start, x as u8).1);
            }
        }
    }
}

/// Objects draw the same pixels in two PPU states that agree on what
/// object drawing reads (line, LCDC, VRAM, palettes, model).
proof fn lemma_sprites_pixel_same_inputs(p: PPU, q: PPU, sprites: Seq<Sprite>, x: int, prio: PixelPriority)
    requires
        p.ly == q.ly,
        p.lcdc == q.lcdc,
        p.vram == q.vram,
        p.obj_palette_data == q.obj_palette_data,
        p.obp0 == q.obp0,
        p.obp1 == q.obp1,
        p.model_type == q.model_type,
    ensures
        sprites_pixel(p, sprites, x, prio) == sprites_pixel(q, sprites, x, prio),
    decreases sprites.len(),
{
    if sprites.len() > 0 {
        lemma_sprites_pixel_same_inputs(p, q, sprites.drop_last(), x, prio);
    }
}

} // verus!

verus! {

/// Outside the drawing period, reading VRAM right after writing it gives
/// back the byte written, and every other VRAM address reads as before.
pub proof fn lemma_vram_read_after_write(p: PPU, after: PPU, address: u16, other: u16, value: u8)
    requires
        p.wf(),
        p.access_ok(),
        p.mode != 3,
        0x8000 <= address <= 0x9FFF,
        0x8000 <= other <= 0x9FFF,
        after.vram@ == p.vram@.update(p.vram_index(address), value),
        after == (PPU { vram: after.vram, ..p }),
    ensures
        after.read_value(address) == Some(value),
        other != address ==> after.read_value(other) == p.read_value(other),
{
}

/// Outside the drawing period, reading OAM right after writing it gives
/// back the byte written, and every other OAM address reads as before.
pub proof fn lemma_oam_read_after_write(p: PPU, after: PPU, address: u16, other: u16, value: u8)
    requires
        p.wf(),
        p.mode != 3,
        0xFE00 <= address <= 0xFE9F,
        0xFE00 <= other <= 0xFE9F,
        after.oam@ == p.oam@.update(address - 0xFE00, value),
        after == (PPU { oam: after.oam, ..p }),
    ensures
        after.read_value(address) == Some(value),
        other != address ==> after.read_value(other) == p.read_value(other),
{
}

/// After a STAT refresh, bit 2 tells whether LY equals LYC, bits 1..0 hold
/// the mode, and the interrupt-source enables (bits 6..3) are kept.
pub proof fn lemma_stat_refresh_reports(p: PPU)
    requires
        p.mode <= 3,
    ensures
        (p.stat_refreshed() & 0x04 != 0) == (p.ly == p.lyc),
        p.stat_refreshed() & 0x03 == p.mode,
        p.stat_refreshed() & 0x78 == p.stat & 0x78,
{
    let st = p.stat;
    let m = p.mode;
    assert(((st | 0x04) & !0x03u8 | m) & 0x04 != 0 && ((st & !0x04u8) & !0x03u8 | m) & 0x04 == 0 && ((st | 0x04)
        & !0x03u8 | m) & 0x03 == m && ((st & !0x04u8) & !0x03u8 | m) & 0x03 == m && ((st | 0x04) & !0x03u8 | m) & 0x78
        == st & 0x78 && ((st & !0x04u8) & !0x03u8 | m) & 0x78 == st & 0x78) by (bit_vector)
        requires
            m <= 3,
    ;
}


/// How an object's tile row is laid out on screen: the pixel an object
/// draws at its column `b` (0 = leftmost on screen) is taken from bit `7 - b`
/// of the row's two bit planes, or from bit `b` when the object is flipped
/// horizontally (attribute bit 5); colour 0 is transparent, other colours go
/// through the object's palette (OBP0/OBP1 on a DMG, the object palette RAM
/// on a Color).
pub proof fn lemma_sprite_pixel_columns(p: PPU, s: Sprite, b: int)
    requires
        0 <= b < 8,
        s.x + b < 160,
    ensures
        ({
            let a = sprite_row_address(p, s);
            let lo = p.vram@[a];
            let hi = p.vram@[a + 1];
            let shown: u8 = if s.attributes & 0x20 == 0 {
                (((hi >> ((7 - b) as u8)) & 1) * 2 + ((lo >> ((7 - b) as u8)) & 1)) as u8
            } else {
                (((hi >> (b as u8)) & 1) * 2 + ((lo >> (b as u8)) & 1)) as u8
            };
            let r = sprite_pixel(p, s, s.x + b, PixelPriority::Sprite);
            &&& shown == 0 ==> r is None
            &&& shown != 0 && p.model_type != ModelType::Color ==> r == Some(
                dmg_rgba(if s.attributes & 0x10 != 0 { p.obp1 } else { p.obp0 }, shown),
            )
            &&& shown != 0 && p.model_type == ModelType::Color ==> r == Some(
                cgb_rgba(
                    p.obj_palette_data@[(s.attributes % 8) * 8 + shown * 2],
                    p.obj_palette_data@[(s.attributes % 8) * 8 + shown * 2 + 1],
                ),
            )
        }),
{
    assert(sprite_column(s, s.x + b) == b);
}

/// A column the window covers (window on in LCDC bit 5, LY at or below WY,
/// the column at or right of WX - 7) takes its tile from the window's tile
/// map, the one LCDC bit 6 selects (0x9C00 when set, 0x9800 otherwise), at
/// the window's own line and column; LCDC bit 3, the background's map
/// select, plays no part.
pub proof fn lemma_window_tile_map(p: PPU, i: u8)
    requires
        p.model_type != ModelType::Color,
        p.lcdc & 0x20 != 0,
        p.ly >= p.wy,
        i + 7 >= p.wx,
    ensures
        ({
            let map: int = if p.lcdc & 0x40 != 0 { 0x1C00 } else { 0x1800 };
            let col: int = i + 7 - p.wx;
            let line: int = p.window_line as int;
            let t = p.vram@[map + (line / 8) * 32 + col / 8];
            let data: int = if p.lcdc & 0x10 != 0 {
                t * 16
            } else {
                0x1000 + (if t < 128 { t as int } else { t - 256 }) * 16
            };
            bg_fetch(p, i) == (data + (line % 8) * 2, (col % 8) as u8, 0u8)
        }),
        bg_fetch(PPU { lcdc: p.lcdc ^ 0x08, ..p }, i) == bg_fetch(p, i),
{
    let l = p.lcdc;
    assert((l ^ 0x08) & 0x20 == l & 0x20 && (l ^ 0x08) & 0x40 == l & 0x40 && (l ^ 0x08) & 0x10 == l & 0x10)
        by (bit_vector);
    lemma_no_attributes();
}

/// A DMG tile has no attributes: no bank, no flips.
proof fn lemma_no_attributes()
    ensures
        0u8 & 0x08 == 0,
        0u8 & 0x20 == 0,
        0u8 & 0x40 == 0,
{
    assert(0u8 & 0x08 == 0 && 0u8 & 0x20 == 0 && 0u8 & 0x40 == 0) by (bit_vector);
}

/// A column the window does not cover takes its tile from the background's
/// tile map, the one LCDC bit 3 selects (0x9C00 when set, 0x9800
/// otherwise), at the line and column scrolled by SCY and SCX.
pub proof fn lemma_background_tile_map(p: PPU, i: u8)
    requires
        p.model_type != ModelType::Color,
        !(p.lcdc & 0x20 != 0 && p.ly >= p.wy && i + 7 >= p.wx),
    ensures
        ({
            let map: int = if p.lcdc & 0x08 != 0 { 0x1C00 } else { 0x1800 };
            let col: int = (i + p.scx) % 256;
            let line: int = (p.ly + p.scy) % 256;
            let t = p.vram@[map + (line / 8) * 32 + col / 8];
            let data: int = if p.lcdc & 0x10 != 0 {
                t * 16
            } else {
                0x1000 + (if t < 128 { t as int } else { t - 256 }) * 16
            };
            bg_fetch(p, i) == (data + (line % 8) * 2, (col % 8) as u8, 0u8)
        }),
{
    lemma_no_attributes();
}


/// Which tile row an object shows on its `line`-th line (0 = top): line
/// `line`, or `height - 1 - line` when flipped vertically (attribute bit 6);
/// 8x8 objects use their tile, 8x16 objects (LCDC bit 2) the tile with bit 0
/// cleared for rows 0..=7 and the one with bit 0 set for rows 8..=15; on a
/// Color the tile data come from VRAM bank 1 when attribute bit 3 is set.
pub proof fn lemma_sprite_rows(p: PPU, s: Sprite, line: int)
    requires
        0 <= line < (if p.lcdc & 0x04 != 0 { 16int } else { 8int }),
        p.ly == (s.y + line) % 256,
    ensures
        ({
            let bank: int = if p.model_type == ModelType::Color && s.attributes & 0x08 != 0 { 0x2000 } else { 0 };
            let t = s.tile_index as int;
            let a = sprite_row_address(p, s);
            &&& p.lcdc & 0x04 == 0 ==> a == bank + t * 16 + (if s.attributes & 0x40 != 0 { 7 - line } else { line }) * 2
            &&& p.lcdc & 0x04 != 0 ==> {
                let r: int = if s.attributes & 0x40 != 0 { 15 - line } else { line };
                a == bank + (t - t % 2 + (if r < 8 { 0int } else { 1int })) * 16 + (r % 8) * 2
            }
        }),
{
    let y = s.y as int;
    let ly = p.ly as int;
    if y + line < 256 {
        assert(ly == y + line);
    } else {
        assert(ly == y + line - 256);
    }
    assert(sprite_line(p, s) == line);
    let ti = s.tile_index;
    assert(ti & 0xFE == ti - ti % 2 && ti | 0x01 == ti - ti % 2 + 1) by (bit_vector);
}

/// What the background lets through: behind a background pixel with
/// priority (`BG`) no object shows; behind a coloured background pixel
/// (`BGIfSpriteDisabled`) only objects without attribute bit 7 show, exactly
/// as they would over colour 0.
pub proof fn lemma_sprite_priority(p: PPU, s: Sprite, x: int)
    ensures
        sprite_pixel(p, s, x, PixelPriority::BG) is None,
        s.attributes & 0x80 != 0 ==> sprite_pixel(p, s, x, PixelPriority::BGIfSpriteDisabled) is None,
        s.attributes & 0x80 == 0 ==> sprite_pixel(p, s, x, PixelPriority::BGIfSpriteDisabled) == sprite_pixel(
            p,
            s,
            x,
            PixelPriority::Sprite,
        ),
{
}

/// On a Color the background tile's attributes sit in VRAM bank 1 at the
/// same tile map entry: bit 3 takes the tile data from bank 1, bit 6 flips
/// the tile vertically and bit 5 horizontally.
pub proof fn lemma_cgb_background_attributes(p: PPU, i: u8)
    requires
        p.model_type == ModelType::Color,
        !(p.lcdc & 0x20 != 0 && p.ly >= p.wy && i + 7 >= p.wx),
    ensures
        ({
            let map: int = if p.lcdc & 0x08 != 0 { 0x1C00 } else { 0x1800 };
            let col: int = (i + p.scx) % 256;
            let line: int = (p.ly + p.scy) % 256;
            let entry = map + (line / 8) * 32 + col / 8;
            let t = p.vram@[entry];
            let attr = p.vram@[0x2000 + entry];
            let data: int = if p.lcdc & 0x10 != 0 {
                t * 16
            } else {
                0x1000 + (if t < 128 { t as int } else { t - 256 }) * 16
            };
            let bank: int = if attr & 0x08 != 0 { 0x2000 } else { 0 };
            let row: int = if attr & 0x40 != 0 { 7 - line % 8 } else { line % 8 };
            let c: int = if attr & 0x20 != 0 { 7 - col % 8 } else { col % 8 };
            bg_fetch(p, i) == (bank + data + row * 2, c as u8, attr)
        }),
{
}

} // verus!
