use vstd::prelude::*;
use crate::bits::lemma_byte_fields;
use crate::model::ModelType;
use crate::audio::{period_of, period_value, length_step, nr4_length, length_nr4};

verus! {

/// Sound channel 3: plays 32 four-bit samples from wave RAM (0xFF30..0xFF3F),
/// with a length counter and an output-level shift (NR30..NR34 at
/// 0xFF1A..0xFF1E).
pub struct WaveChannel {
    pub wave_ram: Vec<u8>,
    pub wave_pos: u8,
    pub period_timer: u16,
    pub enabled: bool,
    pub dac_enabled: bool,
    pub nr0: u8,
    pub nr1: u8,
    pub nr2: u8,
    pub nr3: u8,
    pub nr4: u8,
    pub length_enabled: bool,
    pub length_counter: u16,
    pub model_type: ModelType,
}

impl WaveChannel {
    /// The registers and counters as the hardware can hold them: the DAC
    /// follows NR30 bit 7, the channel plays only with its DAC on and the
    /// length counter holds at most 256.
    pub open spec fn in_range(self) -> bool {
        &&& self.dac_enabled == (self.nr0 / 128 == 1)
        &&& self.enabled ==> self.dac_enabled
        &&& self.length_counter <= 256
    }

    /// The wave RAM byte an access to `address` (in 0xFF30..=0xFF3F) reaches:
    /// while the channel plays, the CPU only reaches the byte being played.
    pub open spec fn ram_index(self, address: u16) -> int {
        if self.enabled {
            self.wave_pos as int / 2
        } else {
            address - 0xFF30
        }
    }

    pub open spec fn after_nr0(self, value: u8) -> WaveChannel {
        let dac = value / 128 == 1;
        WaveChannel { nr0: value, dac_enabled: dac, enabled: if dac { self.enabled } else { false }, ..self }
    }

    pub open spec fn after_nr1(self, value: u8) -> WaveChannel {
        WaveChannel { nr1: value, length_counter: (256 - value) as u16, ..self }
    }

    pub open spec fn after_nr4(self, step: u8, value: u8) -> WaveChannel {
        let (c, e) = nr4_length(self.length_enabled, value, step, self.length_counter, self.enabled, 256);
        let s = WaveChannel {
            length_counter: c,
            enabled: e,
            nr4: value,
            length_enabled: value / 64 % 2 == 1,
            ..self
        };
        if value / 128 == 1 {
            WaveChannel {
                enabled: s.dac_enabled,
                wave_pos: 0,
                period_timer: ((2048 - period_value(s.nr3, s.nr4)) * 2) as u16,
                ..s
            }
        } else {
            s
        }
    }

    /// The state after switching the APU off (the wave position and wave RAM
    /// are kept; the length load survives on a DMG).
    pub open spec fn cleared(self) -> WaveChannel {
        let s = WaveChannel {
            period_timer: 0,
            enabled: false,
            dac_enabled: false,
            length_enabled: false,
            length_counter: 0,
            ..self
        };
        let s1 = s.after_nr0(0);
        let s2 = if s1.model_type == ModelType::Color { s1.after_nr1(0) } else { s1 };
        WaveChannel { nr2: 0, nr3: 0, ..s2 }.after_nr4(0, 0)
    }

    pub open spec fn read_value(self, address: u16) -> Option<u8> {
        if address == 0xFF1A {
            Some(self.nr0 | 0x7F)
        } else if address == 0xFF1B {
            Some(0xFF)
        } else if address == 0xFF1C {
            Some(self.nr2 | 0x9F)
        } else if address == 0xFF1D {
            Some(0xFF)
        } else if address == 0xFF1E {
            Some(self.nr4 | 0xBF)
        } else if 0xFF30 <= address <= 0xFF3F {
            Some(self.wave_ram@[self.ram_index(address)])
        } else {
            None
        }
    }

    /// An access to wave RAM stays inside it (the wave position is one of the
    /// 32 sample positions whenever the channel plays).
    pub open spec fn ram_access_ok(self, address: u16) -> bool {
        0xFF30 <= address <= 0xFF3F && self.enabled ==> self.wave_pos < 32
    }

    /// The state after a write to a register (not wave RAM) and whether the
    /// address belongs to this channel. While the APU is off, only wave RAM
    /// and, on a DMG, NR31 stay writable.
    pub open spec fn after_write(self, audio_enabled: bool, step: u8, address: u16, value: u8) -> (WaveChannel, bool) {
        if !audio_enabled && (self.model_type == ModelType::Color || address
            != 0xFF1B) {
            (self, 0xFF1A <= address <= 0xFF1E)
        } else if address == 0xFF1A {
            (self.after_nr0(value), true)
        } else if address == 0xFF1B {
            (self.after_nr1(value), true)
        } else if address == 0xFF1C {
            (WaveChannel { nr2: value, ..self }, true)
        } else if address == 0xFF1D {
            (WaveChannel { nr3: value, ..self }, true)
        } else if address == 0xFF1E {
            (self.after_nr4(step, value), true)
        } else {
            (self, false)
        }
    }

    /// Wave RAM holds its 16 bytes.
    pub open spec fn wf(self) -> bool {
        self.wave_ram.len() == 16
    }

    pub open spec fn after_tick(self) -> WaveChannel {
        if self.period_timer == 0 {
            WaveChannel {
                period_timer: ((2048 - period_value(self.nr3, self.nr4)) * 2) as u16,
                wave_pos: ((self.wave_pos + 1) % 32) as u8,
                ..self
            }
        } else {
            WaveChannel { period_timer: (self.period_timer - 1) as u16, ..self }
        }
    }

    /// The 4-bit sample at the wave position: high nibble first.
    pub open spec fn sample(self) -> u8 {
        let byte = self.wave_ram@[self.wave_pos as int / 2];
        if self.wave_pos % 2 == 0 {
            byte / 16
        } else {
            byte % 16
        }
    }

    /// The level fed to the DAC: the sample shifted by the output level of
    /// NR32 bits 6..5 (mute, 100 %, 50 %, 25 %).
    pub open spec fn level(self) -> u8 {
        if !self.enabled || !self.dac_enabled {
            0
        } else {
            let code = (self.nr2 / 32) % 4;
            if code == 0 {
                0
            } else if code == 1 {
                self.sample()
            } else if code == 2 {
                self.sample() / 2
            } else {
                self.sample() / 4
            }
        }
    }

    /// The channel's start-up state.
    pub open spec fn new_state(model_type: ModelType, wave_ram: Vec<u8>) -> WaveChannel {
        (WaveChannel {
            wave_ram: wave_ram,
            wave_pos: 0,
            period_timer: 0,
            enabled: false,
            dac_enabled: false,
            nr0: 0x7F,
            nr1: 0xFF,
            nr2: 0x9F,
            nr3: 0xFF,
            nr4: 0xBF,
            length_enabled: false,
            length_counter: 0,
            model_type,
        }).after_nr0(0x7F).after_nr1(0xFF).after_nr4(0, 0xBF)
    }

    pub fn new(model_type: ModelType) -> (r: Self)
        ensures
            r.wave_ram@ == Seq::new(16, |i: int| 0u8),
            r == WaveChannel::new_state(model_type, r.wave_ram),
    {
        let mut result = Self {
            wave_ram: vec![0u8; 16],
            wave_pos: 0,
            period_timer: 0,
            enabled: false,
            dac_enabled: false,
            nr0: 0x7F,
            nr1: 0xFF,
            nr2: 0x9F,
            nr3: 0xFF,
            nr4: 0xBF,
            length_enabled: false,
            length_counter: 0,
            model_type,
        };
        result.write_nr0(0x7F);
        result.write_nr1(0xFF);
        result.write_nr4(0, 0xBF);
        result
    }

    pub fn clear(&mut self)
        ensures
            *final(self) == old(self).cleared(),
    {
        self.period_timer = 0;
        self.enabled = false;
        self.dac_enabled = false;
        self.length_enabled = false;
        self.length_counter = 0;
        self.write_nr0(0);
        if self.model_type == ModelType::Color {
            self.write_nr1(0);
        }
        self.nr2 = 0;
        self.nr3 = 0;
        self.write_nr4(0, 0);
    }

    pub fn enabled(&self) -> (r: bool)
        ensures
            r == self.enabled,
    {
        self.enabled
    }

    pub fn read(&self, address: u16) -> (r: Option<u8>)
        requires
            self.wf(),
            self.ram_access_ok(address),
        ensures
            r == self.read_value(address),
    {
        match address {
            0xFF1A => Some(self.nr0 | 0x7F),
            0xFF1B => Some(0xFF),
            0xFF1C => Some(self.nr2 | 0x9F),
            0xFF1D => Some(0xFF),
            0xFF1E => Some(self.nr4 | 0xBF),
            0xFF30..=0xFF3F => {
                if self.enabled {
                    Some(self.wave_ram[(self.wave_pos / 2) as usize])
                } else {
                    Some(self.wave_ram[(address - 0xFF30) as usize])
                }
            },
            _ => None,
        }
    }

    pub fn write(&mut self, audio_enabled: bool, frame_sequencer_step: u8, address: u16, value: u8) -> (r: bool)
        requires
            old(self).wf(),
            old(self).ram_access_ok(address),
        ensures
            final(self).wf(),
            0xFF30 <= address <= 0xFF3F ==> r && final(self).wave_ram@ == old(self).wave_ram@.update(
                old(self).ram_index(address),
                value,
            ) && *final(self) == (WaveChannel { wave_ram: final(self).wave_ram, ..*old(self) }),
            !(0xFF30 <= address <= 0xFF3F) ==> (*final(self), r) == old(self).after_write(
                audio_enabled,
                frame_sequencer_step,
                address,
                value,
            ),
    {
        if !audio_enabled && (address < 0xFF30 || address > 0xFF3F) {
            if self.model_type == ModelType::Color || address != 0xFF1B {
                return 0xFF1A <= address && address <= 0xFF1E;
            }
        }
        match address {
            0xFF1A => self.write_nr0(value),
            0xFF1B => self.write_nr1(value),
            0xFF1C => self.nr2 = value,
            0xFF1D => self.nr3 = value,
            0xFF1E => self.write_nr4(frame_sequencer_step, value),
            0xFF30..=0xFF3F => {
                let index: usize = if self.enabled { (self.wave_pos / 2) as usize } else { (address - 0xFF30) as usize };
                self.wave_ram.set(index, value);
            },
            _ => return false,
        }
        true
    }

    pub fn length_tick(&mut self)
        ensures
            ({
                let (c, e) = length_step(old(self).length_enabled, old(self).length_counter, old(self).enabled);
                *final(self) == (WaveChannel { length_counter: c, enabled: e, ..*old(self) })
            }),
    {
        if self.length_enabled && self.length_counter > 0 {
            self.length_counter -= 1;
            if self.length_counter == 0 {
                self.enabled = false;
            }
        }
    }

    pub fn tick(&mut self)
        requires
            old(self).period_timer == 0 ==> old(self).wave_pos < 255,
        ensures
            *final(self) == old(self).after_tick(),
    {
        if self.period_timer == 0 {
            let period = period_of(self.nr3, self.nr4);
            self.period_timer = (2048 - period) * 2;
            self.wave_pos = (self.wave_pos + 1) % 32;
        } else {
            self.period_timer -= 1;
        }
    }

    pub fn write_nr0(&mut self, val: u8)
        ensures
            *final(self) == old(self).after_nr0(val),
    {
        self.nr0 = val;
        assert((val & 0x80 != 0) == (val / 128 == 1)) by { lemma_byte_fields(); }
        self.dac_enabled = val & 0x80 != 0;
        if !self.dac_enabled {
            self.enabled = false;
        }
    }

    pub fn write_nr1(&mut self, value: u8)
        ensures
            *final(self) == old(self).after_nr1(value),
    {
        self.nr1 = value;
        self.length_counter = 256 - value as u16;
    }

    pub fn write_nr4(&mut self, frame_sequencer_step: u8, value: u8)
        ensures
            *final(self) == old(self).after_nr4(frame_sequencer_step, value),
    {
        let (c, e) = length_nr4(self.length_enabled, value, frame_sequencer_step, self.length_counter, self.enabled, 256);
        self.length_counter = c;
        self.enabled = e;
        assert((value & 0x40 != 0) == (value / 64 % 2 == 1)) by { lemma_byte_fields(); }
        assert((value & 0x80 != 0) == (value / 128 == 1)) by { lemma_byte_fields(); }
        self.nr4 = value;
        self.length_enabled = value & 0x40 != 0;
        if value & 0x80 != 0 {
            self.enabled = self.dac_enabled;
            self.wave_pos = 0;
            let period = period_of(self.nr3, self.nr4);
            self.period_timer = (2048 - period) * 2;
        }
    }

    pub fn current_sample(&self) -> (r: u8)
        requires
            self.wf(),
            self.wave_pos < 32,
        ensures
            r == self.sample(),
            r < 16,
    {
        let byte = self.wave_ram[(self.wave_pos / 2) as usize];
        assert((byte >> 4u8) & 0x0F == byte / 16 && byte & 0x0F == byte % 16) by { lemma_byte_fields(); }
        if self.wave_pos % 2 == 0 {
            (byte >> 4) & 0x0F
        } else {
            byte & 0x0F
        }
    }

    /// The level fed to the DAC (see `level`).
    pub fn dac_level(&self) -> (r: u8)
        requires
            self.wf(),
            self.wave_pos < 32,
        ensures
            r == self.level(),
            r < 16,
    {
        if !self.enabled || !self.dac_enabled {
            return 0;
        }
        let sample = self.current_sample();
        let n2 = self.nr2;
        assert((n2 >> 5u8) & 0x03 == (n2 / 32) % 4) by { lemma_byte_fields(); }
        assert(sample >> 1u8 == sample / 2 && sample >> 2u8 == sample / 4) by { lemma_byte_fields(); }
        match (self.nr2 >> 5) & 0x03 {
            0 => 0,
            1 => sample,
            2 => sample >> 1,
            _ => sample >> 2,
        }
    }
}


/// The channel after `n` ticks of its period timer.
pub open spec fn wave_ticked(c: WaveChannel, n: nat) -> WaveChannel
    decreases n,
{
    if n == 0 {
        c
    } else {
        wave_ticked(c, (n - 1) as nat).after_tick()
    }
}

/// `a + b` ticks are `a` ticks and then `b`.
proof fn lemma_wave_ticked_split(c: WaveChannel, a: nat, b: nat)
    ensures
        wave_ticked(c, a + b) == wave_ticked(wave_ticked(c, a), b),
    decreases b,
{
    if b > 0 {
        lemma_wave_ticked_split(c, a, (b - 1) as nat);
        assert((a + b - 1) as nat == a + (b - 1) as nat);
    }
}

/// While the period timer has not run out, each tick only counts it down.
proof fn lemma_wave_countdown(c: WaveChannel, k: nat)
    requires
        k <= c.period_timer,
    ensures
        wave_ticked(c, k) == (WaveChannel { period_timer: (c.period_timer - k) as u16, ..c }),
    decreases k,
{
    if k > 0 {
        lemma_wave_countdown(c, (k - 1) as nat);
    }
}

/// The wave channel's pitch: when its period timer runs out, the next tick
/// moves to the next of the 32 samples and reloads the timer with
/// `(2048 - period) * 2`, the period being NR34 bits 2..0 above NR33; the
/// sample then plays for exactly `(2048 - period) * 2 + 1` ticks before the
/// position moves on again (half as long as a pulse channel's duty step).
pub proof fn lemma_wave_step_length(c: WaveChannel)
    requires
        c.period_timer == 0,
    ensures
        ({
            let d: int = 2 * (2048 - ((c.nr4 % 8) as int * 256 + c.nr3 as int));
            &&& wave_ticked(c, 1).period_timer == d
            &&& forall|k: nat| 1 <= k <= d + 1 ==> #[trigger] wave_ticked(c, k).wave_pos == (c.wave_pos + 1) % 32
            &&& wave_ticked(c, (d + 2) as nat).wave_pos == (c.wave_pos + 2) % 32
        }),
{
    let d: int = 2 * (2048 - ((c.nr4 % 8) as int * 256 + c.nr3 as int));
    let c1 = c.after_tick();
    assert(wave_ticked(c, 0) == c);
    assert(wave_ticked(c, 1) == c1);
    assert(c1.period_timer == d);
    assert forall|k: nat| 1 <= k <= d + 1 implies #[trigger] wave_ticked(c, k).wave_pos == (c.wave_pos + 1) % 32 by {
        lemma_wave_ticked_split(c, 1, (k - 1) as nat);
        lemma_wave_countdown(c1, (k - 1) as nat);
        assert(1 + (k - 1) as nat == k);
    }
    lemma_wave_ticked_split(c, 1, d as nat);
    lemma_wave_countdown(c1, d as nat);
    assert(wave_ticked(c, (d + 1) as nat).period_timer == 0);
    assert(wave_ticked(c, (d + 2) as nat) == wave_ticked(c, (d + 1) as nat).after_tick());
}

} // verus!
