use vstd::prelude::*;
use crate::bits::lemma_word_fields;
use crate::bits::lemma_byte_fields;
use crate::model::ModelType;
use crate::audio::{envelope_clock, envelope_step, envelope_underflows, length_step, nr4_length, length_nr4};

verus! {

/// Sound channel 4: white noise from a linear-feedback shift register, with
/// a volume envelope and a length counter (NR41..NR44 at 0xFF20..0xFF23).
pub struct NoiseChannel {
    pub lfsr: u16,
    pub period_timer: u16,
    pub enabled: bool,
    pub dac_enabled: bool,
    pub volume: u8,
    pub envelope_timer: u8,
    pub envelope_enabled: bool,
    pub length_counter: u16,
    pub length_enabled: bool,
    pub nr1: u8,
    pub nr2: u8,
    pub nr3: u8,
    pub nr4: u8,
    pub model_type: ModelType,
}

/// The noise clock divider of NR43 bits 2..0: 8 for 0, otherwise 16 times the code.
pub open spec fn noise_divider(nr3: u8) -> u16 {
    let r = nr3 % 8;
    if r == 0 {
        8
    } else {
        (r * 16) as u16
    }
}

/// The timer period of the noise channel: the divider shifted left by
/// NR43 bits 7..4 (in 16 bits, as the hardware counter holds it).
pub open spec fn noise_period(nr3: u8) -> u16 {
    noise_divider(nr3) << ((nr3 / 16) as u16)
}

/// One shift of the LFSR: bit 0 xor bit 1 is shifted in at bit 14, and in
/// short (7-bit) mode also copied into bit 6.
pub open spec fn lfsr_step(lfsr: u16, short_mode: bool) -> u16 {
    let x: u16 = (lfsr & 1) ^ ((lfsr >> 1) & 1);
    let l = (lfsr >> 1) | (x << 14);
    if short_mode {
        (l & !(1u16 << 6)) | (x << 6)
    } else {
        l
    }
}

impl NoiseChannel {
    /// The registers and counters as the hardware can hold them: the DAC
    /// follows NR42 bits 7..3, the channel plays only with its DAC on, the
    /// length counter holds at most 64 and the volume at most 15.
    pub open spec fn in_range(self) -> bool {
        &&& self.dac_enabled == (self.nr2 / 8 != 0)
        &&& self.enabled ==> self.dac_enabled
        &&& self.length_counter <= 64
        &&& self.volume <= 15
    }

    pub open spec fn after_nr1(self, value: u8) -> NoiseChannel {
        NoiseChannel { nr1: value, length_counter: (64 - value % 64) as u16, ..self }
    }

    pub open spec fn after_nr2(self, value: u8) -> NoiseChannel {
        let dac = value / 8 != 0;
        NoiseChannel { nr2: value, dac_enabled: dac, enabled: if dac { self.enabled } else { false }, ..self }
    }

    pub open spec fn after_nr4(self, step: u8, value: u8) -> NoiseChannel {
        let (c, e) = nr4_length(self.length_enabled, value, step, self.length_counter, self.enabled, 64);
        let s = NoiseChannel {
            length_counter: c,
            enabled: e,
            nr4: value,
            length_enabled: value / 64 % 2 == 1,
            ..self
        };
        if value / 128 == 1 {
            NoiseChannel {
                enabled: s.dac_enabled,
                lfsr: 0x7FFF,
                volume: s.nr2 / 16,
                envelope_timer: s.nr2 % 8,
                envelope_enabled: true,
                period_timer: noise_period(s.nr3),
                ..s
            }
        } else {
            s
        }
    }

    pub open spec fn cleared(self) -> NoiseChannel {
        let s = NoiseChannel {
            lfsr: 0,
            period_timer: 0,
            enabled: false,
            dac_enabled: false,
            volume: 0,
            envelope_timer: 0,
            envelope_enabled: false,
            length_counter: 0,
            length_enabled: false,
            ..self
        };
        let s1 = if s.model_type == ModelType::Color {
            s.after_nr1(0)
        } else {
            s.after_nr1(s.nr1 % 64)
        };
        NoiseChannel { nr3: 0, ..s1.after_nr2(0) }.after_nr4(0, 0)
    }

    pub open spec fn read_value(self, address: u16) -> Option<u8> {
        if address == 0xFF20 {
            Some(0xFF)
        } else if address == 0xFF21 {
            Some(self.nr2)
        } else if address == 0xFF22 {
            Some(self.nr3)
        } else if address == 0xFF23 {
            Some(self.nr4 | 0xBF)
        } else {
            None
        }
    }

    /// The state after a write and whether the address belongs to this
    /// channel. While the APU is off only NR41's length bits can be written,
    /// and only on a DMG.
    pub open spec fn after_write(self, audio_enabled: bool, step: u8, address: u16, value: u8) -> (NoiseChannel, bool) {
        if !audio_enabled && (self.model_type == ModelType::Color || address != 0xFF20) {
            (self, 0xFF20 <= address <= 0xFF23)
        } else if address == 0xFF20 {
            (self.after_nr1(if !audio_enabled { (self.nr1 / 64 * 64 + value % 64) as u8 } else { value }), true)
        } else if address == 0xFF21 {
            (self.after_nr2(value), true)
        } else if address == 0xFF22 {
            (NoiseChannel { nr3: value, ..self }, true)
        } else if address == 0xFF23 {
            (self.after_nr4(step, value), true)
        } else {
            (self, false)
        }
    }

    pub open spec fn after_tick(self) -> NoiseChannel {
        if self.period_timer == 0 {
            NoiseChannel {
                period_timer: noise_period(self.nr3),
                lfsr: lfsr_step(self.lfsr, self.nr3 / 8 % 2 == 1),
                ..self
            }
        } else {
            NoiseChannel { period_timer: (self.period_timer - 1) as u16, ..self }
        }
    }

    /// The level (0..=15) fed to the DAC: the volume while LFSR bit 0 is 0 and
    /// the channel and DAC are on.
    pub open spec fn level(self) -> u8 {
        if !self.enabled || !self.dac_enabled {
            0
        } else if self.lfsr % 2 == 0 {
            self.volume
        } else {
            0
        }
    }

    /// The channel's start-up state.
    pub open spec fn new_state(model_type: ModelType) -> NoiseChannel {
        (NoiseChannel {
            lfsr: 0,
            period_timer: 0,
            enabled: false,
            dac_enabled: false,
            volume: 0,
            envelope_timer: 0,
            envelope_enabled: false,
            length_counter: 0,
            length_enabled: false,
            nr1: 0xFF,
            nr2: 0x00,
            nr3: 0x00,
            nr4: 0xBF,
            model_type,
        }).after_nr1(0xFF).after_nr2(0x00).after_nr4(0, 0xBF)
    }

    pub fn new(model_type: ModelType) -> (r: Self)
        ensures
            r == NoiseChannel::new_state(model_type),
    {
        let mut result = Self {
            lfsr: 0,
            period_timer: 0,
            enabled: false,
            dac_enabled: false,
            volume: 0,
            envelope_timer: 0,
            envelope_enabled: false,
            length_counter: 0,
            length_enabled: false,
            nr1: 0xFF,
            nr2: 0x00,
            nr3: 0x00,
            nr4: 0xBF,
            model_type,
        };
        result.write_nr1(0xFF);
        result.write_nr2(0x00);
        result.write_nr4(0, 0xBF);
        result
    }

    pub fn clear(&mut self)
        ensures
            *final(self) == old(self).cleared(),
    {
        self.lfsr = 0;
        self.period_timer = 0;
        self.enabled = false;
        self.dac_enabled = false;
        self.volume = 0;
        self.envelope_timer = 0;
        self.envelope_enabled = false;
        self.length_counter = 0;
        self.length_enabled = false;
        if self.model_type == ModelType::Color {
            self.write_nr1(0);
        } else {
            let n1 = self.nr1;
            assert(n1 & 0x3F == n1 % 64) by { lemma_byte_fields(); }
            self.write_nr1(n1 & 0x3F);
        }
        self.write_nr2(0);
        self.nr3 = 0;
        self.write_nr4(0, 0);
    }

    pub fn enabled(&self) -> (r: bool)
        ensures
            r == self.enabled,
    {
        self.enabled
    }

    pub fn read(&self, address: u16) -> (r: Option<u8>)
        ensures
            r == self.read_value(address),
    {
        match address {
            0xFF20 => Some(0xFF),
            0xFF21 => Some(self.nr2),
            0xFF22 => Some(self.nr3),
            0xFF23 => Some(self.nr4 | 0xBF),
            _ => None,
        }
    }

    pub fn write(&mut self, audio_enabled: bool, frame_sequencer_step: u8, address: u16, value: u8) -> (r: bool)
        ensures
            (*final(self), r) == old(self).after_write(audio_enabled, frame_sequencer_step, address, value),
    {
        if !audio_enabled && (self.model_type == ModelType::Color || address != 0xFF20) {
            return 0xFF20 <= address && address <= 0xFF23;
        }
        match address {
            0xFF20 => {
                if !audio_enabled {
                    let n = self.nr1;
                    assert((n & !0x3Fu8) | (value & 0x3F) == n / 64 * 64 + value % 64) by { lemma_byte_fields(); }
                    self.write_nr1((n & !0x3F) | (value & 0x3F));
                } else {
                    self.write_nr1(value);
                }
            },
            0xFF21 => self.write_nr2(value),
            0xFF22 => self.nr3 = value,
            0xFF23 => self.write_nr4(frame_sequencer_step, value),
            _ => return false,
        }
        true
    }

    pub fn write_nr1(&mut self, value: u8)
        ensures
            *final(self) == old(self).after_nr1(value),
    {
        self.nr1 = value;
        assert(value & 0x3F == value % 64) by { lemma_byte_fields(); }
        self.length_counter = 64 - (value & 0x3F) as u16;
    }

    pub fn write_nr2(&mut self, value: u8)
        ensures
            *final(self) == old(self).after_nr2(value),
    {
        self.nr2 = value;
        assert((value & 0xF8 != 0) == (value / 8 != 0)) by { lemma_byte_fields(); }
        self.dac_enabled = value & 0xF8 != 0;
        if !self.dac_enabled {
            self.enabled = false;
        }
    }

    pub fn write_nr4(&mut self, frame_sequencer_step: u8, value: u8)
        ensures
            *final(self) == old(self).after_nr4(frame_sequencer_step, value),
    {
        let (c, e) = length_nr4(self.length_enabled, value, frame_sequencer_step, self.length_counter, self.enabled, 64);
        self.length_counter = c;
        self.enabled = e;
        assert((value & 0x40 != 0) == (value / 64 % 2 == 1)) by { lemma_byte_fields(); }
        assert((value & 0x80 != 0) == (value / 128 == 1)) by { lemma_byte_fields(); }
        self.nr4 = value;
        self.length_enabled = value & 0x40 != 0;
        if value & 0x80 != 0 {
            self.enabled = self.dac_enabled;
            self.lfsr = 0x7FFF;
            let n2 = self.nr2;
            assert((n2 >> 4u8) & 0x0F == n2 / 16) by { lemma_byte_fields(); }
            assert(n2 & 0x07 == n2 % 8) by { lemma_byte_fields(); }
            self.volume = (self.nr2 >> 4) & 0x0F;
            self.envelope_timer = self.nr2 & 0x07;
            self.envelope_enabled = true;
            self.period_timer = self.period();
        }
    }

    pub fn period(&self) -> (p: u16)
        ensures
            p == noise_period(self.nr3),
    {
        let n3 = self.nr3;
        assert(((n3 >> 4u8) as u16) == (n3 / 16) as u16 && n3 / 16 < 16) by { lemma_byte_fields(); }
        assert(n3 & 0x07 == n3 % 8) by { lemma_byte_fields(); }
        let s = (self.nr3 >> 4) as u16;
        let r = (self.nr3 & 0x07) as u16;
        let divider: u16 = if r == 0 { 8 } else { r * 16 };
        divider << s
    }

    pub fn envelope_tick(&mut self)
        requires
            !envelope_underflows(old(self).envelope_timer, old(self).envelope_enabled, old(self).nr2),
        ensures
            ({
                let (v, t, e) = envelope_step(
                    old(self).volume,
                    old(self).envelope_timer,
                    old(self).envelope_enabled,
                    old(self).nr2,
                );
                *final(self) == (NoiseChannel { volume: v, envelope_timer: t, envelope_enabled: e, ..*old(self) })
            }),
    {
        let (v, t, e) = envelope_clock(self.volume, self.envelope_timer, self.envelope_enabled, self.nr2);
        self.volume = v;
        self.envelope_timer = t;
        self.envelope_enabled = e;
    }

    pub fn length_tick(&mut self)
        ensures
            ({
                let (c, e) = length_step(old(self).length_enabled, old(self).length_counter, old(self).enabled);
                *final(self) == (NoiseChannel { length_counter: c, enabled: e, ..*old(self) })
            }),
    {
        if self.length_enabled && self.length_counter > 0 {
            self.length_counter -= 1;
            if self.length_counter == 0 {
                self.enabled = false;
            }
        }
    }

    pub fn tick(&mut self)
        ensures
            *final(self) == old(self).after_tick(),
    {
        if self.period_timer == 0 {
            self.period_timer = self.period();
            let lfsr = self.lfsr;
            let xor = (lfsr & 0x01) ^ ((lfsr >> 1) & 0x01);
            self.lfsr = (lfsr >> 1) | (xor << 14);
            let n3 = self.nr3;
            assert((n3 & 0x08 != 0) == (n3 / 8 % 2 == 1)) by { lemma_byte_fields(); }
            if self.nr3 & 0x08 != 0 {
                self.lfsr = (self.lfsr & !(1 << 6)) | (xor << 6);
            }
        } else {
            self.period_timer -= 1;
        }
    }

    /// The level fed to the DAC (see `level`).
    pub fn dac_level(&self) -> (r: u8)
        ensures
            r == self.level(),
            r <= self.volume,
    {
        if !self.enabled || !self.dac_enabled {
            return 0;
        }
        let l = self.lfsr;
        assert((l & 0x01 == 0) == (l % 2 == 0)) by { lemma_word_fields(); }
        if self.lfsr & 0x01 == 0 {
            self.volume
        } else {
            0
        }
    }
}

/// The shift register keeps 15 bits: a 15-bit state stays a 15-bit state.
pub proof fn lemma_lfsr_stays_15_bits(lfsr: u16, short_mode: bool)
    requires
        lfsr < 0x8000,
    ensures
        lfsr_step(lfsr, short_mode) < 0x8000,
{
    let x: u16 = (lfsr & 1) ^ ((lfsr >> 1) & 1);
    assert((lfsr & 1) ^ ((lfsr >> 1) & 1) <= 1) by (bit_vector);
    assert(lfsr < 0x8000 && x <= 1 ==> (lfsr >> 1) | (x << 14) < 0x8000) by (bit_vector);
    let l = (lfsr >> 1) | (x << 14);
    assert(l < 0x8000 && x <= 1 ==> (l & !(1u16 << 6)) | (x << 6) < 0x8000) by (bit_vector);
}

} // verus!
