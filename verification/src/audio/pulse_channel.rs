use vstd::prelude::*;
use crate::bits::lemma_word_fields;
use crate::bits::lemma_byte_fields;
use vstd::arithmetic::power2::pow2;
use crate::model::ModelType;
use crate::audio::{
    period_of, period_value, envelope_clock, envelope_step, envelope_underflows, length_step,
    nr4_length, length_nr4,
};

verus! {

/// The eight-step waveforms of the four duty settings: high on 1, 2, 5 and
/// 6 of the 8 steps.
pub open spec fn duty_high(duty: u8, step: u8) -> bool {
    if duty == 0 {
        step == 7
    } else if duty == 1 {
        step == 0 || step == 7
    } else if duty == 2 {
        step == 0 || step >= 4
    } else {
        1 <= step <= 6
    }
}

/// Looks up one step of a duty waveform.
pub fn duty_pattern(duty: u8, step: u8) -> (high: bool)
    requires
        duty < 4,
        step < 8,
    ensures
        high == duty_high(duty, step),
{
    if duty == 0 {
        step == 7
    } else if duty == 1 {
        step == 0 || step == 7
    } else if duty == 2 {
        step == 0 || step >= 4
    } else {
        1 <= step && step <= 6
    }
}

/// Sound channel 1: a square wave with a volume envelope, a length counter
/// and a frequency sweep (registers NR10..NR14 at 0xFF10..0xFF14).
pub struct PulseChannel {
    pub nr0: u8,
    pub nr1: u8,
    pub nr2: u8,
    pub nr3: u8,
    pub nr4: u8,
    pub enabled: bool,
    pub dac_enabled: bool,
    pub duty_step: u8,
    pub period_timer: u16,
    pub volume: u8,
    pub envelope_enabled: bool,
    pub envelope_timer: u8,
    pub length_enabled: bool,
    pub length_counter: u16,
    pub sweep_enabled: bool,
    pub sweep_timer: u8,
    pub sweep_period: u16,
    pub sweep_negate_used: bool,
    pub model_type: ModelType,
}

impl PulseChannel {
    /// The registers and counters as the hardware can hold them: the DAC
    /// follows NR12 bits 7..3, the channel plays only with its DAC on, the
    /// length counter holds at most 64 and the volume at most 15.
    pub open spec fn in_range(self) -> bool {
        &&& self.dac_enabled == (self.nr2 / 8 != 0)
        &&& self.enabled ==> self.dac_enabled
        &&& self.length_counter <= 64
        &&& self.volume <= 15
    }

    /// The sweep's shift amount (NR10 bits 2..0).
    pub open spec fn sweep_shift(self) -> nat {
        (self.nr0 % 8) as nat
    }

    /// Whether the sweep subtracts (NR10 bit 3).
    pub open spec fn sweep_negate(self) -> bool {
        (self.nr0 / 8) % 2 == 1
    }

    /// The sweep pace (NR10 bits 6..4).
    pub open spec fn sweep_pace(self) -> u8 {
        ((self.nr0 / 16) % 8) as u8
    }

    /// The next period the sweep unit computes: the shadow period plus or
    /// minus itself shifted right by the sweep shift (not below 0).
    pub open spec fn sweep_candidate(self) -> int {
        let delta = self.sweep_period as nat / pow2(self.sweep_shift());
        if self.sweep_negate() {
            if (self.sweep_period as nat) < delta {
                0
            } else {
                self.sweep_period - delta
            }
        } else {
            self.sweep_period + delta
        }
    }

    /// The sweep computation does not overflow 16 bits (always true while
    /// the shadow period holds an 11-bit value, as every operation keeps it).
    pub open spec fn sweep_fits(self) -> bool {
        self.sweep_candidate() < 0x10000
    }

    /// The state after the sweep computation and its result: a candidate
    /// above 2047 switches the channel off and gives `None`; a subtraction
    /// marks that negate mode has been used.
    pub open spec fn after_sweep_check(self) -> (PulseChannel, Option<u16>) {
        let s = PulseChannel {
            sweep_negate_used: if self.sweep_negate() { true } else { self.sweep_negate_used },
            ..self
        };
        if self.sweep_candidate() > 2047 {
            (PulseChannel { enabled: false, ..s }, None)
        } else {
            (s, Some(self.sweep_candidate() as u16))
        }
    }

    /// The state after writing NR10: clearing negate mode after a
    /// subtraction has been computed switches the channel off.
    pub open spec fn after_nr0(self, value: u8) -> PulseChannel {
        let old_negate = (self.nr0 / 8) % 2 == 1;
        let new_negate = (value / 8) % 2 == 1;
        PulseChannel {
            enabled: if old_negate && !new_negate && self.sweep_negate_used { false } else { self.enabled },
            nr0: value,
            ..self
        }
    }

    /// The state after writing NR11: duty and length load (64 minus bits 5..0).
    pub open spec fn after_nr1(self, value: u8) -> PulseChannel {
        PulseChannel { nr1: value, length_counter: (64 - value % 64) as u16, ..self }
    }

    /// The state after writing NR12: the DAC is on while bits 7..3 are not all
    /// zero, and switching it off switches the channel off.
    pub open spec fn after_nr2(self, value: u8) -> PulseChannel {
        let dac = value / 8 != 0;
        PulseChannel { nr2: value, dac_enabled: dac, enabled: if dac { self.enabled } else { false }, ..self }
    }

    /// The state right after a trigger has reloaded the channel, before the
    /// initial sweep computation.
    pub open spec fn reloaded(self) -> PulseChannel {
        let pace = self.sweep_pace();
        PulseChannel {
            sweep_negate_used: false,
            enabled: self.dac_enabled,
            duty_step: 0,
            volume: self.nr2 / 16,
            envelope_timer: self.nr2 % 8,
            envelope_enabled: true,
            period_timer: ((2048 - period_value(self.nr3, self.nr4)) * 4) as u16,
            sweep_period: period_value(self.nr3, self.nr4),
            sweep_timer: if pace == 0 { 8 } else { pace },
            sweep_enabled: pace != 0 || self.sweep_shift() != 0,
            ..self
        }
    }

    /// The state after writing NR14 during frame-sequencer step `step`.
    pub open spec fn after_nr4(self, step: u8, value: u8) -> PulseChannel {
        let (c, e) = nr4_length(self.length_enabled, value, step, self.length_counter, self.enabled, 64);
        let s = PulseChannel {
            length_counter: c,
            enabled: e,
            nr4: value,
            length_enabled: value / 64 % 2 == 1,
            ..self
        };
        if value / 128 == 1 {
            let r = s.reloaded();
            if r.sweep_shift() != 0 {
                r.after_sweep_check().0
            } else {
                r
            }
        } else {
            s
        }
    }

    /// The state after one sweep clock.
    pub open spec fn after_sweep_tick(self) -> PulseChannel {
        let t: u8 = if self.sweep_timer > 0 { (self.sweep_timer - 1) as u8 } else { 0 };
        let s = PulseChannel { sweep_timer: t, ..self };
        if t != 0 {
            s
        } else {
            let pace = self.sweep_pace();
            let s1 = PulseChannel { sweep_timer: if pace == 0 { 8 } else { pace }, ..s };
            if s1.sweep_enabled && pace != 0 {
                let (s2, r) = s1.after_sweep_check();
                match r {
                    Some(np) => if s1.sweep_shift() != 0 {
                        let s3 = PulseChannel {
                            sweep_period: np,
                            nr3: (np % 256) as u8,
                            nr4: ((s2.nr4 / 8) * 8 + np / 256) as u8,
                            ..s2
                        };
                        s3.after_sweep_check().0
                    } else {
                        s2
                    },
                    None => s2,
                }
            } else {
                s1
            }
        }
    }

    /// The state after one clock of the period timer: when it expires it is
    /// reloaded from the period and the duty position advances.
    pub open spec fn after_tick(self) -> PulseChannel {
        if self.period_timer == 0 {
            PulseChannel {
                period_timer: ((2048 - period_value(self.nr3, self.nr4)) * 4) as u16,
                duty_step: ((self.duty_step + 1) % 8) as u8,
                ..self
            }
        } else {
            PulseChannel { period_timer: (self.period_timer - 1) as u16, ..self }
        }
    }

    /// The state after switching the APU off.
    pub open spec fn cleared(self) -> PulseChannel {
        let s = PulseChannel {
            enabled: false,
            duty_step: 0,
            period_timer: 0,
            volume: 0,
            envelope_enabled: false,
            envelope_timer: 0,
            length_enabled: false,
            length_counter: 0,
            sweep_enabled: false,
            sweep_timer: 0,
            sweep_period: 0,
            ..self
        };
        let s1 = s.after_nr0(0);
        let s2 = if s1.model_type == ModelType::Color {
            s1.after_nr1(0)
        } else {
            s1.after_nr1(s1.nr1 % 64)
        };
        let s3 = PulseChannel { nr3: 0, ..s2.after_nr2(0) };
        s3.after_nr4(0, 0)
    }

    /// What reading an address gives back (`None` outside 0xFF10..0xFF14).
    pub open spec fn read_value(self, address: u16) -> Option<u8> {
        if address == 0xFF10 {
            Some(self.nr0 | 0x80)
        } else if address == 0xFF11 {
            Some(self.nr1 | 0x3F)
        } else if address == 0xFF12 {
            Some(self.nr2)
        } else if address == 0xFF13 {
            Some(0xFF)
        } else if address == 0xFF14 {
            Some(self.nr4 | 0xBF)
        } else {
            None
        }
    }

    /// The state after a write and whether the address belongs to this
    /// channel. While the APU is off only NR11's length bits can be written,
    /// and only on a DMG.
    pub open spec fn after_write(self, audio_enabled: bool, step: u8, address: u16, value: u8) -> (PulseChannel, bool) {
        if !audio_enabled && (self.model_type == ModelType::Color || address != 0xFF11) {
            (self, 0xFF10 <= address <= 0xFF14)
        } else if address == 0xFF10 {
            (self.after_nr0(value), true)
        } else if address == 0xFF11 {
            (self.after_nr1(if !audio_enabled { (self.nr1 / 64 * 64 + value % 64) as u8 } else { value }), true)
        } else if address == 0xFF12 {
            (self.after_nr2(value), true)
        } else if address == 0xFF13 {
            (PulseChannel { nr3: value, ..self }, true)
        } else if address == 0xFF14 {
            (self.after_nr4(step, value), true)
        } else {
            (self, false)
        }
    }

    /// The level (0..=15) the channel feeds its DAC: the volume while the
    /// duty waveform is high and the channel and DAC are on, 0 otherwise.
    pub open spec fn level(self) -> u8 {
        if !self.enabled || !self.dac_enabled {
            0
        } else if duty_high(self.nr1 / 64, self.duty_step) {
            self.volume
        } else {
            0
        }
    }

    /// The channel's start-up state.
    pub open spec fn new_state(model_type: ModelType) -> PulseChannel {
        (PulseChannel {
            nr0: 0x80,
            nr1: 0xBF,
            nr2: 0xF3,
            nr3: 0xFF,
            nr4: 0xBF,
            enabled: false,
            dac_enabled: false,
            duty_step: 0,
            period_timer: 0,
            volume: 0,
            envelope_enabled: false,
            envelope_timer: 0,
            length_enabled: false,
            length_counter: 0,
            sweep_enabled: false,
            sweep_timer: 0,
            sweep_period: 0,
            sweep_negate_used: false,
            model_type,
        }).after_nr1(0xBF).after_nr2(0xF3).after_nr4(0, 0xBF)
    }

    pub fn new(model_type: ModelType) -> (r: Self)
        ensures
            r == PulseChannel::new_state(model_type),
    {
        let mut result = Self {
            nr0: 0x80,
            nr1: 0xBF,
            nr2: 0xF3,
            nr3: 0xFF,
            nr4: 0xBF,
            enabled: false,
            dac_enabled: false,
            duty_step: 0,
            period_timer: 0,
            volume: 0,
            envelope_enabled: false,
            envelope_timer: 0,
            length_enabled: false,
            length_counter: 0,
            sweep_enabled: false,
            sweep_timer: 0,
            sweep_period: 0,
            sweep_negate_used: false,
            model_type,
        };
        result.write_nr1(0xBF);
        result.write_nr2(0xF3);
        result.write_nr4(0, 0xBF);
        result
    }

    pub fn clear(&mut self)
        ensures
            *final(self) == old(self).cleared(),
    {
        self.enabled = false;
        self.duty_step = 0;
        self.period_timer = 0;
        self.volume = 0;
        self.envelope_enabled = false;
        self.envelope_timer = 0;
        self.length_enabled = false;
        self.length_counter = 0;
        self.sweep_enabled = false;
        self.sweep_timer = 0;
        self.sweep_period = 0;
        self.write_nr0(0);
        if self.model_type == ModelType::Color {
            self.write_nr1(0);
        } else {
            let n1 = self.nr1;
            let v = n1 & 0x3F;
            assert(n1 & 0x3F == n1 % 64) by { lemma_byte_fields(); }
            self.write_nr1(v);
        }
        self.write_nr2(0);
        self.nr3 = 0;
        self.write_nr4(0, 0);
    }

    pub fn enabled(&self) -> (r: bool)
        ensures
            r == self.enabled,
    {
        self.enabled
    }

    pub fn read(&self, address: u16) -> (r: Option<u8>)
        ensures
            r == self.read_value(address),
    {
        match address {
            0xFF10 => Some(self.nr0 | 0x80),
            0xFF11 => Some(self.nr1 | 0x3F),
            0xFF12 => Some(self.nr2),
            0xFF13 => Some(0xFF),
            0xFF14 => Some(self.nr4 | 0xBF),
            _ => None,
        }
    }

    pub fn write(&mut self, audio_enabled: bool, frame_sequencer_step: u8, address: u16, value: u8) -> (r: bool)
        requires
            old(self).sweep_period < 2048,
        ensures
            (*final(self), r) == old(self).after_write(audio_enabled, frame_sequencer_step, address, value),
            final(self).sweep_period < 2048,
    {
        if !audio_enabled && (self.model_type == ModelType::Color || address != 0xFF11) {
            return 0xFF10 <= address && address <= 0xFF14;
        }
        match address {
            0xFF10 => self.write_nr0(value),
            0xFF11 => {
                if !audio_enabled {
                    let v = (self.nr1 & !0x3F) | (value & 0x3F);
                    let n = self.nr1;
                    assert((n & !0x3Fu8) | (value & 0x3F) == n / 64 * 64 + value % 64) by { lemma_byte_fields(); }
                    self.write_nr1(v);
                } else {
                    self.write_nr1(value);
                }
            },
            0xFF12 => self.write_nr2(value),
            0xFF13 => self.nr3 = value,
            0xFF14 => self.write_nr4(frame_sequencer_step, value),
            _ => return false,
        }
        true
    }

    pub fn write_nr1(&mut self, value: u8)
        ensures
            *final(self) == old(self).after_nr1(value),
    {
        self.nr1 = value;
        assert(value & 0x3F == value % 64) by { lemma_byte_fields(); }
        self.length_counter = 64 - (value & 0x3F) as u16;
    }

    pub fn write_nr2(&mut self, value: u8)
        ensures
            *final(self) == old(self).after_nr2(value),
    {
        self.nr2 = value;
        assert((value & 0xF8 != 0) == (value / 8 != 0)) by { lemma_byte_fields(); }
        self.dac_enabled = value & 0xF8 != 0;
        if !self.dac_enabled {
            self.enabled = false;
        }
    }

    pub fn tick(&mut self)
        ensures
            *final(self) == old(self).after_tick(),
    {
        if self.period_timer == 0 {
            let period = period_of(self.nr3, self.nr4);
            self.period_timer = (2048 - period) * 4;
            self.duty_step = ((self.duty_step as u16 + 1) % 8) as u8;
        } else {
            self.period_timer -= 1;
        }
    }

    pub fn envelope_tick(&mut self)
        requires
            !envelope_underflows(old(self).envelope_timer, old(self).envelope_enabled, old(self).nr2),
        ensures
            ({
                let (v, t, e) = envelope_step(
                    old(self).volume,
                    old(self).envelope_timer,
                    old(self).envelope_enabled,
                    old(self).nr2,
                );
                *final(self) == (PulseChannel { volume: v, envelope_timer: t, envelope_enabled: e, ..*old(self) })
            }),
    {
        let (v, t, e) = envelope_clock(self.volume, self.envelope_timer, self.envelope_enabled, self.nr2);
        self.volume = v;
        self.envelope_timer = t;
        self.envelope_enabled = e;
    }

    pub fn length_tick(&mut self)
        ensures
            ({
                let (c, e) = length_step(old(self).length_enabled, old(self).length_counter, old(self).enabled);
                *final(self) == (PulseChannel { length_counter: c, enabled: e, ..*old(self) })
            }),
    {
        if self.length_enabled && self.length_counter > 0 {
            self.length_counter -= 1;
            if self.length_counter == 0 {
                self.enabled = false;
            }
        }
    }

    pub fn sweep_tick(&mut self)
        requires
            old(self).sweep_period < 2048,
        ensures
            *final(self) == old(self).after_sweep_tick(),
            final(self).sweep_period < 2048,
    {
        if self.sweep_timer > 0 {
            self.sweep_timer -= 1;
        }
        if self.sweep_timer == 0 {
            let pace = (self.nr0 >> 4) & 0x07;
            let n0 = self.nr0;
            assert((n0 >> 4u8) & 0x07 == (n0 / 16) % 8) by { lemma_byte_fields(); }
            self.sweep_timer = if pace == 0 { 8 } else { pace };
            if self.sweep_enabled && pace != 0 {
                if let Some(new_period) = self.calculate_new_period() {
                    let shift = self.nr0 & 0x07;
                    assert(n0 & 0x07 == n0 % 8) by { lemma_byte_fields(); }
                    if shift != 0 {
                        self.sweep_period = new_period;
                        self.nr3 = (new_period & 0xFF) as u8;
                        let n4 = self.nr4;
                        let hi = ((new_period >> 8) as u8) & 0x07;
                        assert(new_period < 2048 ==> ((new_period >> 8u16) as u8) & 0x07 == new_period / 256) by { lemma_byte_fields(); lemma_word_fields(); }
                        assert(new_period & 0xFF == new_period % 256) by { lemma_word_fields(); }
                        assert(hi < 8 ==> (n4 & 0xF8) | hi == (n4 / 8) * 8 + hi) by { lemma_byte_fields(); }
                        self.nr4 = (self.nr4 & 0xF8) | hi;
                        self.calculate_new_period();
                    }
                }
            }
        }
    }

    /// The level fed to the DAC (see `level`).
    pub fn dac_level(&self) -> (r: u8)
        requires
            self.duty_step < 8,
        ensures
            r == self.level(),
            r <= self.volume,
    {
        if !self.enabled || !self.dac_enabled {
            return 0;
        }
        let duty = self.nr1 >> 6;
        let n1 = self.nr1;
        assert(n1 >> 6u8 == n1 / 64 && n1 / 64 < 4) by { lemma_byte_fields(); }
        if duty_pattern(duty, self.duty_step) {
            self.volume
        } else {
            0
        }
    }

    pub fn write_nr0(&mut self, value: u8)
        ensures
            *final(self) == old(self).after_nr0(value),
    {
        let n0 = self.nr0;
        assert((n0 & 0x08 != 0) == ((n0 / 8) % 2 == 1)) by { lemma_byte_fields(); }
        assert((value & 0x08 != 0) == ((value / 8) % 2 == 1)) by { lemma_byte_fields(); }
        let old_negate = self.nr0 & 0x08 != 0;
        let new_negate = value & 0x08 != 0;
        if old_negate && !new_negate && self.sweep_negate_used {
            self.enabled = false;
        }
        self.nr0 = value;
    }

    pub fn write_nr4(&mut self, frame_sequencer_step: u8, value: u8)
        ensures
            *final(self) == old(self).after_nr4(frame_sequencer_step, value),
            final(self).sweep_period < 2048 || (value / 128 != 1 && final(self).sweep_period == old(self).sweep_period),
    {
        let (c, e) = length_nr4(self.length_enabled, value, frame_sequencer_step, self.length_counter, self.enabled, 64);
        self.length_counter = c;
        self.enabled = e;
        assert((value & 0x40 != 0) == (value / 64 % 2 == 1)) by { lemma_byte_fields(); }
        assert((value & 0x80 != 0) == (value / 128 == 1)) by { lemma_byte_fields(); }
        self.nr4 = value;
        self.length_enabled = value & 0x40 != 0;
        if value & 0x80 != 0 {
            self.sweep_negate_used = false;
            self.enabled = self.dac_enabled;
            self.duty_step = 0;
            let n2 = self.nr2;
            assert((n2 >> 4u8) & 0x0F == n2 / 16) by { lemma_byte_fields(); }
            assert(n2 & 0x07 == n2 % 8) by { lemma_byte_fields(); }
            self.volume = (self.nr2 >> 4) & 0x0F;
            self.envelope_timer = self.nr2 & 0x07;
            self.envelope_enabled = true;
            let period = period_of(self.nr3, self.nr4);
            self.period_timer = (2048 - period) * 4;
            let n0 = self.nr0;
            assert((n0 >> 4u8) & 0x07 == (n0 / 16) % 8) by { lemma_byte_fields(); }
            assert(n0 & 0x07 == n0 % 8) by { lemma_byte_fields(); }
            let pace = (self.nr0 >> 4) & 0x07;
            let shift = self.nr0 & 0x07;
            self.sweep_period = period;
            self.sweep_timer = if pace == 0 { 8 } else { pace };
            self.sweep_enabled = pace != 0 || shift != 0;
            if shift != 0 {
                self.calculate_new_period();
            }
        }
    }

    pub fn calculate_new_period(&mut self) -> (r: Option<u16>)
        requires
            old(self).sweep_period < 2048,
        ensures
            (*final(self), r) == old(self).after_sweep_check(),
            r matches Some(p) ==> p <= 2047,
    {
        let n0 = self.nr0;
        assert(n0 & 0x07 == n0 % 8) by { lemma_byte_fields(); }
        assert(((n0 >> 3u8) & 0x01 == 1) == ((n0 / 8) % 2 == 1)) by { lemma_byte_fields(); }
        let shift = (self.nr0 & 0x07) as u16;
        let direction = (self.nr0 >> 3) & 0x01;
        let sp = self.sweep_period;
        proof {
            vstd::bits::lemma_u16_shr_is_div(sp, shift);
            vstd::arithmetic::power2::lemma_pow2_pos(shift as nat);
            vstd::arithmetic::div_mod::lemma_div_is_ordered_by_denominator(sp as int, 1, pow2(shift as nat) as int);
        }
        let delta = self.sweep_period >> shift;
        let new_period = if direction == 1 {
            self.sweep_negate_used = true;
            if self.sweep_period < delta {
                0
            } else {
                self.sweep_period - delta
            }
        } else {
            self.sweep_period + delta
        };
        if new_period > 2047 {
            self.enabled = false;
            None
        } else {
            Some(new_period)
        }
    }
}

} // verus!

verus! {

/// Switching the DAC off (NR12 bits 7..3 all zero) switches the channel off
/// and silences it.
pub proof fn lemma_pulse_dac_off_silences(ch: PulseChannel, value: u8)
    requires
        value / 8 == 0,
    ensures
        !ch.after_nr2(value).enabled,
        ch.after_nr2(value).level() == 0,
{
}

/// A trigger can only switch the channel on while its DAC is on.
pub proof fn lemma_pulse_trigger_needs_dac(ch: PulseChannel, step: u8, value: u8)
    ensures
        ch.after_nr4(step, value).enabled ==> ch.dac_enabled || (value / 128 != 1 && ch.enabled),
{
}

/// When a sweep clock changes the shadow period, the new period is also
/// written back to NR13 and the low bits of NR14, so the channel plays it;
/// the shadow period always stays an 11-bit value.
pub proof fn lemma_sweep_writes_back_period(ch: PulseChannel)
    requires
        ch.sweep_period < 2048,
    ensures
        ch.after_sweep_tick().sweep_period < 2048,
        ch.after_sweep_tick().sweep_period != ch.sweep_period ==> period_value(
            ch.after_sweep_tick().nr3,
            ch.after_sweep_tick().nr4,
        ) == ch.after_sweep_tick().sweep_period,
{
    let t: u8 = if ch.sweep_timer > 0 { (ch.sweep_timer - 1) as u8 } else { 0 };
    let pace = ch.sweep_pace();
    if t == 0 && ch.sweep_enabled && pace != 0 {
        let s1 = PulseChannel { sweep_timer: if pace == 0 { 8 } else { pace }, ..ch };
        let (s2, r) = s1.after_sweep_check();
        if let Some(np) = r {
            if s1.sweep_shift() != 0 {
                vstd::arithmetic::power2::lemma_pow2_pos(s1.sweep_shift());
                assert(s1.sweep_candidate() >= 0);
                assert(s1.sweep_candidate() <= 2047);
                assert(np == s1.sweep_candidate() as u16);
                assert(np <= 2047);
                let hi = np / 256;
                assert(hi < 8);
                let n4 = ((s2.nr4 / 8) * 8 + hi) as u8;
                assert(n4 % 8 == hi);
            }
        }
    }
}

} // verus!
