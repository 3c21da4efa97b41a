use vstd::prelude::*;
use crate::model::ModelType;
use crate::audio::{envelope_step, envelope_underflows, length_step};
use crate::audio::envelope_pulse_channel::EnvelopePulseChannel;
use crate::audio::noise_channel::NoiseChannel;
use crate::audio::pulse_channel::PulseChannel;
use crate::audio::wave_channel::WaveChannel;

verus! {

/// Clocks between two frame-sequencer steps (512 Hz).
pub const FREQUENCER_TICK_CYCLES: u16 = 8192;

/// The audio unit's registers and timing: master volume (NR50), panning
/// (NR51), power (NR52 bit 7), the four channels and the 512 Hz frame
/// sequencer that clocks their length counters, sweep and envelopes.
pub struct Audio {
    pub nr50: u8,
    pub nr51: u8,
    pub nr52: u8,
    pub pulse_channel: PulseChannel,
    pub envelope_pulse_channel: EnvelopePulseChannel,
    pub wave_channel: WaveChannel,
    pub noise_channel: NoiseChannel,
    pub frame_sequencer_counter: u16,
    pub frame_sequencer_step: u8,
}

/// Channel 1 after a length clock.
pub open spec fn pulse_length_ticked(c: PulseChannel) -> PulseChannel {
    let (n, e) = length_step(c.length_enabled, c.length_counter, c.enabled);
    PulseChannel { length_counter: n, enabled: e, ..c }
}

/// Channel 3 after a length clock.
pub open spec fn wave_length_ticked(c: WaveChannel) -> WaveChannel {
    let (n, e) = length_step(c.length_enabled, c.length_counter, c.enabled);
    WaveChannel { length_counter: n, enabled: e, ..c }
}

/// Channel 4 after a length clock.
pub open spec fn noise_length_ticked(c: NoiseChannel) -> NoiseChannel {
    let (n, e) = length_step(c.length_enabled, c.length_counter, c.enabled);
    NoiseChannel { length_counter: n, enabled: e, ..c }
}

/// Channel 1 after an envelope clock.
pub open spec fn pulse_envelope_ticked(c: PulseChannel) -> PulseChannel {
    let (v, t, e) = envelope_step(c.volume, c.envelope_timer, c.envelope_enabled, c.nr2);
    PulseChannel { volume: v, envelope_timer: t, envelope_enabled: e, ..c }
}

/// Channel 4 after an envelope clock.
pub open spec fn noise_envelope_ticked(c: NoiseChannel) -> NoiseChannel {
    let (v, t, e) = envelope_step(c.volume, c.envelope_timer, c.envelope_enabled, c.nr2);
    NoiseChannel { volume: v, envelope_timer: t, envelope_enabled: e, ..c }
}

impl Audio {
    /// The unit is powered (NR52 bit 7).
    pub open spec fn powered(self) -> bool {
        self.nr52 / 128 == 1
    }

    /// Wave RAM holds its 16 bytes and the wave position is one of its 32
    /// samples, each channel's DAC flag, length counter and volume are as
    /// its registers allow (`in_range`), channel 1's shadow period is an
    /// 11-bit value, and the frame sequencer is between two of its eight
    /// steps.
    pub open spec fn wf(self) -> bool {
        &&& self.wave_channel.wf()
        &&& self.wave_channel.in_range()
        &&& self.pulse_channel.in_range()
        &&& self.envelope_pulse_channel.in_range()
        &&& self.noise_channel.in_range()
        &&& self.wave_channel.wave_pos < 32
        &&& self.pulse_channel.sweep_period < 2048
        &&& self.frame_sequencer_step < 8
        &&& self.frame_sequencer_counter < 8192
    }

    /// No envelope can be clocked with an empty timer: the states from which
    /// the unit may run (an envelope clock on such a timer underflows it).
    pub open spec fn envelopes_ok(self) -> bool {
        &&& !envelope_underflows(self.pulse_channel.envelope_timer, self.pulse_channel.envelope_enabled, self.pulse_channel.nr2)
        &&& !envelope_underflows(self.noise_channel.envelope_timer, self.noise_channel.envelope_enabled, self.noise_channel.nr2)
        &&& !envelope_underflows(
            self.envelope_pulse_channel.envelope_timer,
            self.envelope_pulse_channel.envelope_enabled,
            self.envelope_pulse_channel.nr2,
        )
        &&& self.envelope_pulse_channel.envelope_counter < 8192
    }

    /// What a read gives back: the channels' registers first, then the
    /// unit's own; unused addresses of 0xFF10..=0xFF3F read 0xFF.
    pub open spec fn read_value(self, address: u16) -> Option<u8> {
        if self.pulse_channel.read_value(address) is Some {
            self.pulse_channel.read_value(address)
        } else if self.envelope_pulse_channel.read_value(address) is Some {
            self.envelope_pulse_channel.read_value(address)
        } else if self.wave_channel.read_value(address) is Some {
            self.wave_channel.read_value(address)
        } else if self.noise_channel.read_value(address) is Some {
            self.noise_channel.read_value(address)
        } else if 0xFF10 <= address <= 0xFF23 {
            Some(0xFF)
        } else if address == 0xFF24 {
            Some(self.nr50)
        } else if address == 0xFF25 {
            Some(self.nr51)
        } else if address == 0xFF26 {
            Some(
                (self.nr52 & 0x80) | (if self.pulse_channel.enabled { 0x01u8 } else { 0u8 }) | (
                if self.envelope_pulse_channel.enabled {
                    0x02u8
                } else {
                    0u8
                }) | (if self.wave_channel.enabled { 0x04u8 } else { 0u8 }) | (if self.noise_channel.enabled {
                    0x08u8
                } else {
                    0u8
                }) | 0x70,
            )
        } else if 0xFF27 <= address <= 0xFF3F {
            Some(0xFF)
        } else {
            None
        }
    }

    /// The unit after a write of NR52: switching the power off clears NR50,
    /// NR51, channels 1, 3 and 4 and the sequencer step; only bit 7 is kept.
    pub open spec fn after_nr52(self, value: u8) -> Audio {
        let s = if value / 128 == 0 && self.powered() {
            Audio {
                nr50: 0,
                nr51: 0,
                pulse_channel: self.pulse_channel.cleared(),
                wave_channel: self.wave_channel.cleared(),
                noise_channel: self.noise_channel.cleared(),
                frame_sequencer_step: 0,
                ..self
            }
        } else {
            self
        };
        Audio { nr52: (value / 128 * 128) as u8, ..s }
    }

    /// A write of `value` to `address` took the unit from `self` to `after`,
    /// `r` telling whether the address belongs to the audio unit. The
    /// channels are offered the write in turn; while the unit is off, the
    /// rest of its registers but NR52 ignore writes.
    pub open spec fn written(self, after: Audio, address: u16, value: u8, r: bool) -> bool {
        let en = self.powered();
        let step = self.frame_sequencer_step;
        let (p, rp) = self.pulse_channel.after_write(en, step, address, value);
        let (c2, r2) = self.envelope_pulse_channel.after_write(address, value);
        let (w, rw) = self.wave_channel.after_write(en, step, address, value);
        let (n, rn) = self.noise_channel.after_write(en, step, address, value);
        if address < 0xFF10 || address > 0xFF3F {
            after == self && !r
        } else if rp {
            r && after == (Audio { pulse_channel: p, ..self })
        } else if r2 {
            r && after == (Audio { envelope_pulse_channel: c2, ..self })
        } else if 0xFF30 <= address <= 0xFF3F {
            &&& r
            &&& after.wave_channel.wave_ram@ == self.wave_channel.wave_ram@.update(self.wave_channel.ram_index(address), value)
            &&& after == (Audio {
                wave_channel: WaveChannel { wave_ram: after.wave_channel.wave_ram, ..self.wave_channel },
                ..self
            })
        } else if rw {
            r && after == (Audio { wave_channel: w, ..self })
        } else if rn {
            r && after == (Audio { noise_channel: n, ..self })
        } else if !en && address != 0xFF26 {
            r && after == self
        } else if address == 0xFF24 {
            r && after == (Audio { nr50: value, ..self })
        } else if address == 0xFF25 {
            r && after == (Audio { nr51: value, ..self })
        } else if address == 0xFF26 {
            r && after == self.after_nr52(value)
        } else {
            r && after == self
        }
    }

    /// The unit after a length clock (channels 1, 3 and 4).
    pub open spec fn length_clocked(self) -> Audio {
        Audio {
            pulse_channel: pulse_length_ticked(self.pulse_channel),
            wave_channel: wave_length_ticked(self.wave_channel),
            noise_channel: noise_length_ticked(self.noise_channel),
            ..self
        }
    }

    /// The unit after a sweep clock (channel 1).
    pub open spec fn sweep_clocked(self) -> Audio {
        Audio { pulse_channel: self.pulse_channel.after_sweep_tick(), ..self }
    }

    /// The unit after an envelope clock (channels 1, 2 and 4).
    pub open spec fn envelope_clocked(self) -> Audio {
        Audio {
            pulse_channel: pulse_envelope_ticked(self.pulse_channel),
            envelope_pulse_channel: self.envelope_pulse_channel.after_envelope_tick(),
            noise_channel: noise_envelope_ticked(self.noise_channel),
            ..self
        }
    }

    /// One clock of the frame sequencer's current step: steps 0, 2, 4 and 6
    /// clock the length counters, steps 2 and 6 also the sweep, step 7 the
    /// envelopes; channel 2 has no length counter here.
    pub open spec fn sequencer_clocked(self) -> Audio {
        let step = self.frame_sequencer_step;
        if step == 0 || step == 4 {
            self.length_clocked()
        } else if step == 2 || step == 6 {
            self.length_clocked().sweep_clocked()
        } else if step == 7 {
            self.envelope_clocked()
        } else {
            self
        }
    }

    /// The sequencer counter moved on by one clock; every 8192 clocks a
    /// powered unit runs its current step and moves to the next.
    pub open spec fn sequencer_ticked(self) -> Audio {
        let c = self.frame_sequencer_counter + 1;
        if c >= 8192 {
            let s = Audio { frame_sequencer_counter: (c - 8192) as u16, ..self };
            if self.powered() {
                let s1 = s.sequencer_clocked();
                Audio { frame_sequencer_step: ((self.frame_sequencer_step + 1) % 8) as u8, ..s1 }
            } else {
                s
            }
        } else {
            Audio { frame_sequencer_counter: c as u16, ..self }
        }
    }

    /// One clock of the unit: a powered unit clocks its four channels, then
    /// the frame sequencer moves on.
    pub open spec fn ticked(self) -> Audio {
        let s = if self.powered() {
            Audio {
                pulse_channel: self.pulse_channel.after_tick(),
                envelope_pulse_channel: self.envelope_pulse_channel.after_tick(),
                wave_channel: self.wave_channel.after_tick(),
                noise_channel: self.noise_channel.after_tick(),
                ..self
            }
        } else {
            self
        };
        s.sequencer_ticked()
    }

    /// `n` clocks in a row.
    pub open spec fn ticked_n(self, n: nat) -> Audio
        decreases n,
    {
        if n == 0 {
            self
        } else {
            self.ticked_n((n - 1) as nat).ticked()
        }
    }
}

/// An envelope clock never leaves an empty timer behind while its pace is
/// nonzero.
proof fn lemma_envelope_step_ok(volume: u8, timer: u8, enabled: bool, nr2: u8)
    requires
        !envelope_underflows(timer, enabled, nr2),
    ensures
        ({
            let (v, t, e) = envelope_step(volume, timer, enabled, nr2);
            !envelope_underflows(t, e, nr2)
        }),
{
}

impl Audio {
    /// The unit at power-up: NR50 0x77, NR51 0xF3, NR52 0xF1 and the four
    /// channels in their start-up states.
    pub fn new(model_type: ModelType) -> (r: Self)
        ensures
            r.wf(),
            r.nr50 == 0x77 && r.nr51 == 0xF3 && r.nr52 == 0xF1,
            r.frame_sequencer_counter == 0 && r.frame_sequencer_step == 0,
            r.pulse_channel == PulseChannel::new_state(model_type),
            r.envelope_pulse_channel == EnvelopePulseChannel::new_state(),
            r.wave_channel.wave_ram@ == Seq::new(16, |i: int| 0u8),
            r.wave_channel == WaveChannel::new_state(model_type, r.wave_channel.wave_ram),
            r.noise_channel == NoiseChannel::new_state(model_type),
    {
        Self {
            nr50: 0x77,
            nr51: 0xF3,
            nr52: 0xF1,
            pulse_channel: PulseChannel::new(model_type),
            envelope_pulse_channel: EnvelopePulseChannel::new(),
            wave_channel: WaveChannel::new(model_type),
            noise_channel: NoiseChannel::new(model_type),
            frame_sequencer_counter: 0,
            frame_sequencer_step: 0,
        }
    }
}

impl Audio {
    pub fn read(&self, address: u16) -> (r: Option<u8>)
        requires
            self.wf(),
        ensures
            r == self.read_value(address),
    {
        match self.pulse_channel.read(address) {
            Some(result) => return Some(result),
            _ => {},
        }
        match self.envelope_pulse_channel.read(address) {
            Some(result) => return Some(result),
            _ => {},
        }
        match self.wave_channel.read(address) {
            Some(result) => return Some(result),
            _ => {},
        }
        match self.noise_channel.read(address) {
            Some(result) => return Some(result),
            _ => {},
        }
        match address {
            0xFF10..=0xFF23 => Some(0xFF),
            0xFF24 => Some(self.nr50),
            0xFF25 => Some(self.nr51),
            0xFF26 => Some(
                (self.nr52 & 0x80) | (if self.pulse_channel.enabled() { 0x01u8 } else { 0u8 }) | (
                if self.envelope_pulse_channel.enabled {
                    0x02u8
                } else {
                    0u8
                }) | (if self.wave_channel.enabled() { 0x04u8 } else { 0u8 }) | (if self.noise_channel.enabled() {
                    0x08u8
                } else {
                    0u8
                }) | 0x70,
            ),
            0xFF27..=0xFF3F => Some(0xFF),
            _ => None,
        }
    }

    pub fn write(&mut self, address: u16, value: u8) -> (r: bool)
        requires
            old(self).wf(),
        ensures
            final(self).wf(),
            old(self).written(*final(self), address, value, r),
    {
        if address < 0xFF10 || address > 0xFF3F {
            return false;
        }
        let enabled = self.nr52 & 0x80 != 0;
        proof {
            crate::bits::lemma_byte_fields();
        }
        if self.pulse_channel.write(enabled, self.frame_sequencer_step, address, value) {
            return true;
        }
        if self.envelope_pulse_channel.write(address, value) {
            return true;
        }
        if self.wave_channel.write(enabled, self.frame_sequencer_step, address, value) {
            return true;
        }
        if self.noise_channel.write(enabled, self.frame_sequencer_step, address, value) {
            return true;
        }
        if !enabled && address != 0xFF26 {
            return true;
        }
        match address {
            0xFF24 => self.nr50 = value,
            0xFF25 => self.nr51 = value,
            0xFF26 => self.write_nr52(value),
            _ => {},
        }
        true
    }

    /// Resets the sequencer's clock divider (a write to DIV does this).
    pub fn reset_frame_sequencer_counter(&mut self)
        ensures
            *final(self) == (Audio { frame_sequencer_counter: 0, ..*old(self) }),
    {
        self.frame_sequencer_counter = 0;
    }

    pub fn write_nr52(&mut self, value: u8)
        requires
            old(self).wf(),
        ensures
            final(self).wf(),
            *final(self) == old(self).after_nr52(value),
    {
        proof {
            crate::bits::lemma_byte_fields();
        }
        if value & 0x80 == 0 && self.nr52 & 0x80 != 0 {
            self.nr50 = 0;
            self.nr51 = 0;
            self.pulse_channel.clear();
            self.wave_channel.clear();
            self.noise_channel.clear();
            self.frame_sequencer_step = 0;
        }
        self.nr52 = value & 0x80;
    }

    pub fn length_tick(&mut self)
        ensures
            *final(self) == old(self).length_clocked(),
    {
        self.pulse_channel.length_tick();
        self.wave_channel.length_tick();
        self.noise_channel.length_tick();
    }

    pub fn envelope_tick(&mut self)
        requires
            old(self).envelopes_ok(),
        ensures
            *final(self) == old(self).envelope_clocked(),
    {
        self.pulse_channel.envelope_tick();
        self.envelope_pulse_channel.envelope_tick();
        self.noise_channel.envelope_tick();
    }

    pub fn sweep_tick(&mut self)
        requires
            old(self).pulse_channel.sweep_period < 2048,
        ensures
            *final(self) == old(self).sweep_clocked(),
            final(self).pulse_channel.sweep_period < 2048,
    {
        self.pulse_channel.sweep_tick();
    }

    /// Runs the sequencer's current step and moves to the next one.
    #[verifier::rlimit(60)]
    pub fn clock_sequencer_step(&mut self)
        requires
            old(self).wf(),
            old(self).envelopes_ok(),
        ensures
            final(self).wf(),
            final(self).envelopes_ok(),
            *final(self) == (Audio {
                frame_sequencer_step: ((old(self).frame_sequencer_step + 1) % 8) as u8,
                ..old(self).sequencer_clocked()
            }),
    {
        let ghost start = *self;
        let step = self.frame_sequencer_step;
        if step == 0 || step == 4 {
            self.length_tick();
        } else if step == 2 || step == 6 {
            self.length_tick();
            self.sweep_tick();
        } else if step == 7 {
            self.envelope_tick();
        }
        assert(*self == start.sequencer_clocked());
        self.frame_sequencer_step = (self.frame_sequencer_step + 1) % 8;
        proof {
            lemma_envelope_step_ok(start.pulse_channel.volume, start.pulse_channel.envelope_timer, start.pulse_channel.envelope_enabled, start.pulse_channel.nr2);
            lemma_envelope_step_ok(start.noise_channel.volume, start.noise_channel.envelope_timer, start.noise_channel.envelope_enabled, start.noise_channel.nr2);
            lemma_envelope_step_ok(start.envelope_pulse_channel.volume, start.envelope_pulse_channel.envelope_timer, start.envelope_pulse_channel.envelope_enabled, start.envelope_pulse_channel.nr2);
        }
    }

    pub fn tick_frame_sequencer(&mut self)
        requires
            old(self).wf(),
            old(self).envelopes_ok(),
        ensures
            final(self).wf(),
            final(self).envelopes_ok(),
            *final(self) == old(self).sequencer_ticked(),
    {
        let ghost start = *self;
        self.frame_sequencer_counter = self.frame_sequencer_counter + 1;
        proof {
            crate::bits::lemma_byte_fields();
        }
        while self.frame_sequencer_counter >= FREQUENCER_TICK_CYCLES
            invariant
                start.wf(),
                start.envelopes_ok(),
                self.frame_sequencer_counter <= 8192,
                self.frame_sequencer_counter == 8192 ==> *self == (Audio { frame_sequencer_counter: 8192, ..start })
                    && start.frame_sequencer_counter == 8191,
                self.frame_sequencer_counter < 8192 ==> *self == start.sequencer_ticked() && self.wf()
                    && self.envelopes_ok(),
            decreases self.frame_sequencer_counter,
        {
            proof {
                crate::bits::lemma_byte_fields();
            }
            self.frame_sequencer_counter = self.frame_sequencer_counter - FREQUENCER_TICK_CYCLES;
            if self.nr52 & 0x80 != 0 {
                self.clock_sequencer_step();
            }
        }
    }

    /// One clock of the unit (the sample mixing happens outside).
    pub fn single_tick(&mut self)
        requires
            old(self).wf(),
            old(self).envelopes_ok(),
        ensures
            final(self).wf(),
            final(self).envelopes_ok(),
            *final(self) == old(self).ticked(),
    {
        let ghost start = *self;
        if self.nr52 & 0x80 != 0 {
            self.pulse_channel.tick();
            self.envelope_pulse_channel.tick();
            self.wave_channel.tick();
            self.noise_channel.tick();
        }
        proof {
            crate::bits::lemma_byte_fields();
            let c2 = start.envelope_pulse_channel;
            lemma_envelope_step_ok(c2.volume, c2.envelope_timer, c2.envelope_enabled, c2.nr2);
        }
        self.tick_frame_sequencer();
    }

    /// Runs the unit for `cycles` clocks.
    pub fn tick(&mut self, cycles: u8)
        requires
            old(self).wf(),
            old(self).envelopes_ok(),
        ensures
            final(self).wf(),
            final(self).envelopes_ok(),
            *final(self) == old(self).ticked_n(cycles as nat),
    {
        let ghost start = *self;
        let mut i: u8 = 0;
        while i < cycles
            invariant
                i <= cycles,
                self.wf(),
                self.envelopes_ok(),
                *self == start.ticked_n(i as nat),
            decreases cycles - i,
        {
            self.single_tick();
            i = i + 1;
        }
    }
}


/// Whether an envelope would be clocked with an empty timer.
fn envelope_would_underflow(timer: u8, enabled: bool, nr2: u8) -> (r: bool)
    ensures
        r == envelope_underflows(timer, enabled, nr2),
{
    proof {
        crate::bits::lemma_byte_fields();
    }
    (nr2 & 0x07) != 0 && enabled && timer == 0
}

impl Audio {
    /// Whether the unit may run from this state (see `wf` and
    /// `envelopes_ok`).
    pub fn ready_to_tick(&self) -> (r: bool)
        ensures
            r == (self.wf() && self.envelopes_ok()),
    {
        if self.wave_channel.wave_ram.len() != 16 || self.wave_channel.wave_pos >= 32
            || self.pulse_channel.sweep_period >= 2048 || self.frame_sequencer_step >= 8
            || self.frame_sequencer_counter >= 8192 || self.envelope_pulse_channel.envelope_counter >= 8192 {
            return false;
        }
        let pc = &self.pulse_channel;
        let nc = &self.noise_channel;
        let wc = &self.wave_channel;
        if pc.dac_enabled != (pc.nr2 >= 8) || (pc.enabled && !pc.dac_enabled) || pc.length_counter > 64 || pc.volume > 15 {
            return false;
        }
        if nc.dac_enabled != (nc.nr2 >= 8) || (nc.enabled && !nc.dac_enabled) || nc.length_counter > 64 || nc.volume > 15 {
            return false;
        }
        if wc.dac_enabled != (wc.nr0 >= 128) || (wc.enabled && !wc.dac_enabled) || wc.length_counter > 256
            || self.envelope_pulse_channel.volume > 15 {
            return false;
        }
        let p = envelope_would_underflow(
            self.pulse_channel.envelope_timer,
            self.pulse_channel.envelope_enabled,
            self.pulse_channel.nr2,
        );
        let n = envelope_would_underflow(
            self.noise_channel.envelope_timer,
            self.noise_channel.envelope_enabled,
            self.noise_channel.nr2,
        );
        let e = envelope_would_underflow(
            self.envelope_pulse_channel.envelope_timer,
            self.envelope_pulse_channel.envelope_enabled,
            self.envelope_pulse_channel.nr2,
        );
        !p && !n && !e
    }
}

} // verus!
