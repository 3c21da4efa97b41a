use vstd::prelude::*;
use crate::bits::lemma_word_fields;
use crate::bits::lemma_byte_fields;

pub mod apu;
pub mod envelope_pulse_channel;
pub mod noise_channel;
pub mod pulse_channel;
pub mod wave_channel;

verus! {

/// The 11-bit period held in the low three bits of NRx4 and all of NRx3.
pub open spec fn period_value(nr3: u8, nr4: u8) -> u16 {
    ((nr4 % 8) as nat * 256 + nr3 as nat) as u16
}

/// Computes the 11-bit channel period from NRx3 and NRx4.
pub fn period_of(nr3: u8, nr4: u8) -> (p: u16)
    ensures
        p == period_value(nr3, nr4),
        p < 2048,
{
    let hi = (nr4 & 0x07) as u16;
    let lo = nr3 as u16;
    assert(nr4 & 0x07 == nr4 % 8) by { lemma_byte_fields(); }
    assert(hi < 8 && lo < 256 ==> (hi << 8u16) | lo == hi * 256 + lo) by { lemma_word_fields(); }
    (hi << 8) | lo
}

/// One step of a volume envelope: `(volume, timer, enabled)` after an
/// envelope clock, for an NRx2 value holding the initial volume in bits 7..4,
/// the direction in bit 3 and the pace in bits 2..0.
pub open spec fn envelope_step(volume: u8, timer: u8, enabled: bool, nr2: u8) -> (u8, u8, bool) {
    let pace = nr2 % 8;
    if pace == 0 || !enabled {
        (volume, timer, enabled)
    } else if timer - 1 != 0 {
        (volume, (timer - 1) as u8, enabled)
    } else {
        let up = (nr2 / 8) % 2 == 1;
        if up && volume < 15 {
            ((volume + 1) as u8, pace, enabled)
        } else if !up && volume > 0 {
            ((volume - 1) as u8, pace, enabled)
        } else {
            (volume, pace, false)
        }
    }
}

/// An envelope clock would decrement a zero timer (the hardware counter
/// underflows): the envelope is running with a nonzero pace while its timer is 0.
pub open spec fn envelope_underflows(timer: u8, enabled: bool, nr2: u8) -> bool {
    nr2 % 8 != 0 && enabled && timer == 0
}

/// One envelope clock, shared by the channels that have a volume envelope.
pub fn envelope_clock(volume: u8, timer: u8, enabled: bool, nr2: u8) -> (r: (u8, u8, bool))
    requires
        !envelope_underflows(timer, enabled, nr2),
    ensures
        r == envelope_step(volume, timer, enabled, nr2),
{
    let pace = nr2 & 0x07;
    assert(nr2 & 0x07 == nr2 % 8) by { lemma_byte_fields(); }
    if pace == 0 || !enabled {
        return (volume, timer, enabled);
    }
    let t = timer - 1;
    if t != 0 {
        return (volume, t, enabled);
    }
    let direction = (nr2 >> 3) & 0x01;
    assert(((nr2 >> 3u8) & 0x01 == 1) == ((nr2 / 8) % 2 == 1)) by { lemma_byte_fields(); }
    if direction == 1 && volume < 15 {
        (volume + 1, pace, enabled)
    } else if direction == 0 && volume > 0 {
        (volume - 1, pace, enabled)
    } else {
        proof {
            assert((nr2 >> 3u8) & 0x01 == 0 || (nr2 >> 3u8) & 0x01 == 1) by { lemma_byte_fields(); }
        }
        (volume, pace, false)
    }
}

/// One length clock: `(counter, channel enabled)` after the clock. An enabled
/// length counter counts down and switches the channel off when it reaches zero.
pub open spec fn length_step(length_enabled: bool, counter: u16, enabled: bool) -> (u16, bool) {
    if length_enabled && counter > 0 {
        let c = (counter - 1) as u16;
        (c, if c == 0 { false } else { enabled })
    } else {
        (counter, enabled)
    }
}

/// The effect on the length counter of writing NRx4: enabling the length
/// counter during the first half of a frame-sequencer period (odd step)
/// clocks it once more; a trigger then reloads an empty counter with the
/// full length, or one less under the same odd-step condition.
/// Returns `(counter, enabled)`; `enabled` is only cleared here, a trigger
/// sets it separately.
pub open spec fn nr4_length(
    was_enabled: bool,
    value: u8,
    step: u8,
    counter: u16,
    enabled: bool,
    full: u16,
) -> (u16, bool) {
    let new_enabled = value / 64 % 2 == 1;
    let (c1, e1) = if !was_enabled && new_enabled && step % 2 == 1 && counter > 0 {
        let c = (counter - 1) as u16;
        (c, if c == 0 { false } else { enabled })
    } else {
        (counter, enabled)
    };
    if value / 128 == 1 && c1 == 0 {
        (if new_enabled && step % 2 == 1 { (full - 1) as u16 } else { full }, e1)
    } else {
        (c1, e1)
    }
}

pub fn length_nr4(was_enabled: bool, value: u8, step: u8, counter: u16, enabled: bool, full: u16) -> (r: (
    u16,
    bool,
))
    requires
        full > 0,
    ensures
        r == nr4_length(was_enabled, value, step, counter, enabled, full),
{
    let new_enabled = value & 0x40 != 0;
    assert((value & 0x40 != 0) == (value / 64 % 2 == 1)) by { lemma_byte_fields(); }
    assert((value & 0x80 != 0) == (value / 128 == 1)) by { lemma_byte_fields(); }
    let mut c = counter;
    let mut e = enabled;
    if !was_enabled && new_enabled {
        if step % 2 == 1 && c > 0 {
            c -= 1;
            if c == 0 {
                e = false;
            }
        }
    }
    if value & 0x80 != 0 {
        if c == 0 {
            c = if new_enabled && step % 2 == 1 { full - 1 } else { full };
        }
    }
    (c, e)
}

} // verus!

verus! {

/// `n` length clocks in a row.
pub open spec fn length_steps(length_enabled: bool, counter: u16, enabled: bool, n: nat) -> (u16, bool)
    decreases n,
{
    if n == 0 {
        (counter, enabled)
    } else {
        let (c, e) = length_steps(length_enabled, counter, enabled, (n - 1) as nat);
        length_step(length_enabled, c, e)
    }
}

/// With its length counter enabled and loaded with `counter`, a channel keeps
/// playing for `counter - 1` length clocks and is switched off by the
/// `counter`-th; the counter then stays at zero.
pub proof fn lemma_length_counter_expires(counter: u16, k: nat)
    requires
        counter > 0,
    ensures
        k < counter ==> length_steps(true, counter, true, k) == ((counter - k) as u16, true),
        k >= counter ==> length_steps(true, counter, true, k) == (0u16, false),
    decreases k,
{
    if k > 0 {
        lemma_length_counter_expires(counter, (k - 1) as nat);
    }
}

/// With the length counter disabled, length clocks change nothing.
pub proof fn lemma_length_disabled_keeps_channel(counter: u16, enabled: bool, k: nat)
    ensures
        length_steps(false, counter, enabled, k) == (counter, enabled),
    decreases k,
{
    if k > 0 {
        lemma_length_disabled_keeps_channel(counter, enabled, (k - 1) as nat);
    }
}

/// The envelope keeps the volume within 0..=15 and never moves it by more
/// than one step; once it reaches the end of its range it stops.
pub proof fn lemma_envelope_bounded(volume: u8, timer: u8, enabled: bool, nr2: u8)
    requires
        volume <= 15,
    ensures
        ({
            let (v, t, e) = envelope_step(volume, timer, enabled, nr2);
            &&& v <= 15
            &&& v == volume || v == volume + 1 || v == volume - 1
            &&& (e && !enabled) == false
        }),
{
}

} // verus!
