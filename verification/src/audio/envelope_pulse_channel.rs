use vstd::prelude::*;
use crate::bits::lemma_byte_fields;
use crate::audio::{period_of, period_value, envelope_clock, envelope_step, envelope_underflows};
use crate::audio::pulse_channel::{duty_high, duty_pattern};

verus! {

/// Cycles between two clocks of this channel's own volume envelope.
pub const ENVELOPE_TICK_CYCLES: u16 = 8192;

/// Sound channel 2: a square wave with a volume envelope that it clocks
/// itself (registers NR21..NR24 at 0xFF16..0xFF19).
pub struct EnvelopePulseChannel {
    pub nr1: u8,
    pub nr2: u8,
    pub nr3: u8,
    pub nr4: u8,
    pub enabled: bool,
    pub duty_step: u8,
    pub period_timer: u16,
    pub volume: u8,
    pub envelope_enabled: bool,
    pub envelope_timer: u8,
    pub envelope_counter: u16,
}

impl EnvelopePulseChannel {
    /// The volume as the hardware can hold it: at most 15.
    pub open spec fn in_range(self) -> bool {
        self.volume <= 15
    }

    /// The state after writing NR24: bit 7 triggers the channel, which then
    /// stays off if the DAC (NR22 bits 7..3) is off.
    pub open spec fn after_nr14(self, value: u8) -> EnvelopePulseChannel {
        let s = EnvelopePulseChannel { nr4: value, ..self };
        if value / 128 == 1 {
            EnvelopePulseChannel {
                enabled: s.nr2 / 8 != 0,
                duty_step: 0,
                volume: s.nr2 / 16,
                envelope_timer: s.nr2 % 8,
                envelope_enabled: true,
                period_timer: ((2048 - period_value(s.nr3, s.nr4)) * 4) as u16,
                ..s
            }
        } else {
            s
        }
    }

    pub open spec fn read_value(self, address: u16) -> Option<u8> {
        if address == 0xFF16 {
            Some(self.nr1 | 0x3F)
        } else if address == 0xFF17 {
            Some(self.nr2)
        } else if address == 0xFF18 {
            Some(0xFF)
        } else if address == 0xFF19 {
            Some(self.nr4 | 0xBF)
        } else {
            None
        }
    }

    pub open spec fn after_write(self, address: u16, value: u8) -> (EnvelopePulseChannel, bool) {
        if address == 0xFF16 {
            (EnvelopePulseChannel { nr1: value, ..self }, true)
        } else if address == 0xFF17 {
            (EnvelopePulseChannel { nr2: value, ..self }, true)
        } else if address == 0xFF18 {
            (EnvelopePulseChannel { nr3: value, ..self }, true)
        } else if address == 0xFF19 {
            (self.after_nr14(value), true)
        } else {
            (self, false)
        }
    }

    pub open spec fn after_envelope_tick(self) -> EnvelopePulseChannel {
        let (v, t, e) = envelope_step(self.volume, self.envelope_timer, self.envelope_enabled, self.nr2);
        EnvelopePulseChannel { volume: v, envelope_timer: t, envelope_enabled: e, ..self }
    }

    /// One clock: the period timer as for channel 1, and every 8192 clocks
    /// an envelope clock.
    pub open spec fn after_tick(self) -> EnvelopePulseChannel {
        let s = if self.period_timer == 0 {
            EnvelopePulseChannel {
                period_timer: ((2048 - period_value(self.nr3, self.nr4)) * 4) as u16,
                duty_step: ((self.duty_step + 1) % 8) as u8,
                ..self
            }
        } else {
            EnvelopePulseChannel { period_timer: (self.period_timer - 1) as u16, ..self }
        };
        let c = s.envelope_counter + 1;
        if c >= 8192 {
            EnvelopePulseChannel { envelope_counter: 0, ..s }.after_envelope_tick()
        } else {
            EnvelopePulseChannel { envelope_counter: c as u16, ..s }
        }
    }

    /// A tick does not overflow the envelope counter and, when it clocks the
    /// envelope, the envelope timer does not underflow.
    pub open spec fn tick_ok(self) -> bool {
        &&& self.envelope_counter < 0xFFFF
        &&& self.envelope_counter + 1 >= 8192 ==> !envelope_underflows(
            self.envelope_timer,
            self.envelope_enabled,
            self.nr2,
        )
    }

    pub open spec fn level(self) -> u8 {
        if !self.enabled {
            0
        } else if duty_high(self.nr1 / 64, self.duty_step) {
            self.volume
        } else {
            0
        }
    }

    /// The channel's start-up state.
    pub open spec fn new_state() -> EnvelopePulseChannel {
        (EnvelopePulseChannel {
            nr1: 0x3F,
            nr2: 0x00,
            nr3: 0xFF,
            nr4: 0xBF,
            enabled: false,
            duty_step: 0,
            period_timer: 0,
            volume: 0,
            envelope_enabled: false,
            envelope_timer: 0,
            envelope_counter: 0,
        }).after_nr14(0xBF)
    }

    pub fn new() -> (r: Self)
        ensures
            r == EnvelopePulseChannel::new_state(),
    {
        let mut result = Self {
            nr1: 0x3F,
            nr2: 0x00,
            nr3: 0xFF,
            nr4: 0xBF,
            enabled: false,
            duty_step: 0,
            period_timer: 0,
            volume: 0,
            envelope_enabled: false,
            envelope_timer: 0,
            envelope_counter: 0,
        };
        result.write_nr14(0xBF);
        result
    }

    pub fn read(&self, address: u16) -> (r: Option<u8>)
        ensures
            r == self.read_value(address),
    {
        match address {
            0xFF16 => Some(self.nr1 | 0x3F),
            0xFF17 => Some(self.nr2),
            0xFF18 => Some(0xFF),
            0xFF19 => Some(self.nr4 | 0xBF),
            _ => None,
        }
    }

    pub fn write(&mut self, address: u16, value: u8) -> (r: bool)
        ensures
            (*final(self), r) == old(self).after_write(address, value),
    {
        match address {
            0xFF16 => self.nr1 = value,
            0xFF17 => self.nr2 = value,
            0xFF18 => self.nr3 = value,
            0xFF19 => self.write_nr14(value),
            _ => return false,
        }
        true
    }

    pub fn tick(&mut self)
        requires
            old(self).tick_ok(),
        ensures
            *final(self) == old(self).after_tick(),
    {
        if self.period_timer == 0 {
            let period = period_of(self.nr3, self.nr4);
            self.period_timer = (2048 - period) * 4;
            self.duty_step = ((self.duty_step as u16 + 1) % 8) as u8;
        } else {
            self.period_timer -= 1;
        }
        self.envelope_counter += 1;
        if self.envelope_counter >= ENVELOPE_TICK_CYCLES {
            self.envelope_counter = 0;
            self.envelope_tick();
        }
    }

    pub fn envelope_tick(&mut self)
        requires
            !envelope_underflows(old(self).envelope_timer, old(self).envelope_enabled, old(self).nr2),
        ensures
            *final(self) == old(self).after_envelope_tick(),
    {
        let (v, t, e) = envelope_clock(self.volume, self.envelope_timer, self.envelope_enabled, self.nr2);
        self.volume = v;
        self.envelope_timer = t;
        self.envelope_enabled = e;
    }

    /// The level fed to the DAC: the volume while the duty waveform is high.
    pub fn dac_level(&self) -> (r: u8)
        requires
            self.duty_step < 8,
        ensures
            r == self.level(),
            r <= self.volume,
    {
        if !self.enabled {
            return 0;
        }
        let n1 = self.nr1;
        assert(n1 >> 6u8 == n1 / 64 && n1 / 64 < 4) by { lemma_byte_fields(); }
        if duty_pattern(self.nr1 >> 6, self.duty_step) {
            self.volume
        } else {
            0
        }
    }

    pub fn write_nr14(&mut self, value: u8)
        ensures
            *final(self) == old(self).after_nr14(value),
    {
        self.nr4 = value;
        assert((value & 0x80 != 0) == (value / 128 == 1)) by { lemma_byte_fields(); }
        if value & 0x80 != 0 {
            self.enabled = true;
            self.duty_step = 0;
            let n2 = self.nr2;
            assert((n2 >> 4u8) & 0x0F == n2 / 16) by { lemma_byte_fields(); }
            assert(n2 & 0x07 == n2 % 8) by { lemma_byte_fields(); }
            assert((n2 & 0xF8 == 0) == (n2 / 8 == 0)) by { lemma_byte_fields(); }
            self.volume = (self.nr2 >> 4) & 0x0F;
            self.envelope_timer = self.nr2 & 0x07;
            self.envelope_enabled = true;
            let period = period_of(self.nr3, self.nr4);
            self.period_timer = (2048 - period) * 4;
            if self.nr2 & 0xF8 == 0 {
                self.enabled = false;
            }
        }
    }
}

} // verus!
