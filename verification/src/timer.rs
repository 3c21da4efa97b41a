use vstd::prelude::*;
use crate::bits::lemma_word_fields;
use crate::bits::lemma_byte_fields;

verus! {

/// The DIV/TIMA/TMA/TAC timer block.
///
/// `counter` is the free-running 16-bit system counter whose upper byte is DIV.
/// TIMA counts falling edges of one bit of that counter, selected by TAC; when
/// it overflows it reads 0 for four cycles and is then reloaded from TMA (the
/// value TMA had at the end of the previous `tick`) and a timer interrupt is
/// requested.
pub struct Timer {
    pub counter: u16,
    pub tima: u8,
    pub tma: u8,
    pub tac: u8,
    pub previous_tma: u8,
    pub reload_delay: u8,
}

/// The bit of the system counter that clocks TIMA for a TAC value.
pub open spec fn tac_bit_index(tac: u8) -> nat {
    let sel = tac % 4;
    if sel == 0 {
        9
    } else if sel == 1 {
        3
    } else if sel == 2 {
        5
    } else {
        7
    }
}

/// The number of system-counter cycles between two TIMA increments
/// (1024, 16, 64 or 256), that is `2^(bit + 1)`.
pub open spec fn tac_period(tac: u8) -> nat {
    let sel = tac % 4;
    if sel == 0 {
        1024
    } else if sel == 1 {
        16
    } else if sel == 2 {
        64
    } else {
        256
    }
}

/// TAC bit 2 enables TIMA.
pub open spec fn tac_enabled(tac: u8) -> bool {
    (tac / 4) % 2 == 1
}

/// The system counter after one cycle.
pub open spec fn next_counter(counter: u16) -> u16 {
    ((counter + 1) % 0x10000) as u16
}

/// One machine cycle of the timer: the new state and whether the timer
/// interrupt fires on this cycle.
pub open spec fn timer_step(t: Timer) -> (Timer, bool) {
    let counter = next_counter(t.counter);
    let fired = t.reload_delay == 1;
    let reload_delay: u8 = if t.reload_delay > 0 { (t.reload_delay - 1) as u8 } else { 0 };
    let tima: u8 = if fired { t.previous_tma } else { t.tima };
    let edge = tac_enabled(t.tac) && counter as nat % tac_period(t.tac) == 0;
    let (tima2, reload2): (u8, u8) = if !edge {
        (tima, reload_delay)
    } else if tima == 0xFF {
        (0u8, 4u8)
    } else {
        ((tima + 1) as u8, reload_delay)
    };
    (Timer { counter, tima: tima2, reload_delay: reload2, ..t }, fired)
}

/// `n` timer cycles: the final state and whether the interrupt fired on any of them.
pub open spec fn timer_steps(t: Timer, n: nat) -> (Timer, bool)
    decreases n,
{
    if n == 0 {
        (t, false)
    } else {
        let (t1, f1) = timer_steps(t, (n - 1) as nat);
        let (t2, f2) = timer_step(t1);
        (t2, f1 || f2)
    }
}

/// The whole effect of `tick`: the state after the cycles, with TMA latched
/// for the next reload, and the interrupt flag with bit 2 set if the timer
/// interrupt fired.
pub open spec fn timer_tick(t: Timer, if_flag: u8, cycles: nat) -> (Timer, u8) {
    let (t1, fired) = timer_steps(t, cycles);
    (Timer { previous_tma: t1.tma, ..t1 }, if fired { if_flag | 0x04 } else { if_flag })
}


/// The system counter (and so DIV) advances by exactly one per cycle,
/// wrapping at 16 bits, whatever TAC, TIMA or TMA hold.
pub proof fn lemma_counter_advances(t: Timer, n: nat)
    ensures
        timer_steps(t, n).0.counter as nat == (t.counter as nat + n) % 0x10000,
    decreases n,
{
    if n > 0 {
        lemma_counter_advances(t, (n - 1) as nat);
    }
}

/// With TIMA disabled in TAC and no reload pending, TIMA holds its value and
/// the timer never requests an interrupt.
pub proof fn lemma_disabled_timer_holds_tima(t: Timer, n: nat)
    requires
        !tac_enabled(t.tac),
        t.reload_delay == 0,
    ensures
        timer_steps(t, n).0.tima == t.tima,
        timer_steps(t, n).0.reload_delay == 0,
        timer_steps(t, n).0.tac == t.tac,
        !timer_steps(t, n).1,
    decreases n,
{
    if n > 0 {
        lemma_disabled_timer_holds_tima(t, (n - 1) as nat);
    }
}

/// A tick only ever sets the timer bit (bit 2) of the interrupt flag: the
/// other bits are unchanged and no bit is cleared.
pub proof fn lemma_tick_only_requests_timer_interrupt(t: Timer, if_flag: u8, cycles: nat)
    ensures
        timer_tick(t, if_flag, cycles).1 & !0x04u8 == if_flag & !0x04u8,
        timer_tick(t, if_flag, cycles).1 & if_flag == if_flag,
{
    assert((if_flag | 0x04) & !0x04u8 == if_flag & !0x04u8 && (if_flag | 0x04) & if_flag == if_flag && if_flag & if_flag
        == if_flag) by (bit_vector);
}

proof fn lemma_no_edge_soon(c: nat, p: nat, k: nat)
    requires
        p == 16 || p == 64 || p == 256 || p == 1024,
        c % p == 0,
        1 <= k <= 4,
    ensures
        ((c + k) % 0x10000) % p != 0,
{
    assert(0x10000nat == p * (0x10000nat / p));
    vstd::arithmetic::div_mod::lemma_mod_mod((c + k) as int, p as int, (0x10000nat / p) as int);
    vstd::arithmetic::div_mod::lemma_add_mod_noop(c as int, k as int, p as int);
    vstd::arithmetic::div_mod::lemma_small_mod(k, p);
}

/// When TIMA overflows, it reads 0 for the next three cycles and on the fourth
/// it is reloaded from the latched TMA and the timer interrupt fires.
pub proof fn lemma_overflow_reloads_after_four_cycles(t: Timer)
    requires
        tac_enabled(t.tac),
        t.reload_delay == 0,
        t.tima == 0xFF,
        next_counter(t.counter) as nat % tac_period(t.tac) == 0,
    ensures
        ({
            let t1 = timer_step(t).0;
            &&& t1.tima == 0 && t1.reload_delay == 4
            &&& timer_steps(t1, 3).0.tima == 0
            &&& !timer_steps(t1, 3).1
            &&& timer_steps(t1, 4).0.tima == t.previous_tma
            &&& timer_steps(t1, 4).1
            &&& timer_steps(t1, 4).0.reload_delay == 0
        }),
{
    let t1 = timer_step(t).0;
    let p = tac_period(t.tac);
    let c = t1.counter as nat;
    assert(c % p == 0);
    assert(p == 16 || p == 64 || p == 256 || p == 1024);
    lemma_no_edge_soon(c, p, 1);
    lemma_no_edge_soon(c, p, 2);
    lemma_no_edge_soon(c, p, 3);
    lemma_no_edge_soon(c, p, 4);
    reveal_with_fuel(timer_steps, 5);
    let s1 = timer_steps(t1, 1);
    let s2 = timer_steps(t1, 2);
    let s3 = timer_steps(t1, 3);
    let s4 = timer_steps(t1, 4);
    assert(s1.0.counter as nat == (c + 1) % 0x10000);
    assert(s2.0.counter as nat == (c + 2) % 0x10000) by {
        lemma_counter_advances(t1, 2);
    }
    assert(s3.0.counter as nat == (c + 3) % 0x10000) by {
        lemma_counter_advances(t1, 3);
    }
    assert(s4.0.counter as nat == (c + 4) % 0x10000) by {
        lemma_counter_advances(t1, 4);
    }
}

proof fn lemma_falling_edge(old: u16, b: u16)
    requires
        b == 3 || b == 5 || b == 7 || b == 9,
    ensures
        ({
            let new = ((old + 1) % 0x10000) as u16;
            ((old >> b) & 1 == 1 && (new >> b) & 1 == 0) <==> (new as nat) % pow2_16(b) == 0
        }),
{
    let new = ((old + 1) % 0x10000) as u16;
    assert(new == old.wrapping_add(1) && new == (if old == 0xFFFF { 0u16 } else { (old + 1) as u16 }));
    assert((((old >> 3u16) & 1 == 1 && (new >> 3u16) & 1 == 0) <==> new % 16 == 0) && (((old >> 5u16) & 1 == 1 && (new
        >> 5u16) & 1 == 0) <==> new % 64 == 0) && (((old >> 7u16) & 1 == 1 && (new >> 7u16) & 1 == 0) <==> new % 256 == 0)
        && (((old >> 9u16) & 1 == 1 && (new >> 9u16) & 1 == 0) <==> new % 1024 == 0)) by (bit_vector)
        requires
            new == (if old == 0xFFFF { 0u16 } else { (old + 1) as u16 }),
    ;
}

/// `2^(b+1)` for the four clock bits.
pub open spec fn pow2_16(b: u16) -> nat {
    if b == 3 {
        16
    } else if b == 5 {
        64
    } else if b == 7 {
        256
    } else {
        1024
    }
}

impl Timer {
    pub fn new() -> (t: Timer)
        ensures
            t == (Timer { counter: 0, tima: 0, tma: 0, tac: 0, previous_tma: 0, reload_delay: 0 }),
    {
        Timer { counter: 0, tima: 0, tma: 0, tac: 0, previous_tma: 0, reload_delay: 0 }
    }

    /// DIV is the upper byte of the system counter.
    pub fn div(&self) -> (r: u8)
        ensures
            r == self.counter / 256,
    {
        let c = self.counter;
        assert((c >> 8u16) == c / 256 && c / 256 < 256) by { lemma_word_fields(); }
        (c >> 8) as u8
    }

    pub fn reset_div(&mut self)
        ensures
            *final(self) == (Timer { counter: 0, ..*old(self) }),
    {
        self.counter = 0;
    }

    pub fn tima(&self) -> (r: u8)
        ensures
            r == self.tima,
    {
        self.tima
    }

    /// Writing TIMA cancels a pending reload.
    pub fn set_tima(&mut self, value: u8)
        ensures
            *final(self) == (Timer { tima: value, reload_delay: 0, ..*old(self) }),
    {
        self.tima = value;
        self.reload_delay = 0;
    }

    pub fn tma(&self) -> (r: u8)
        ensures
            r == self.tma,
    {
        self.tma
    }

    pub fn set_tma(&mut self, value: u8)
        ensures
            *final(self) == (Timer { tma: value, ..*old(self) }),
    {
        self.tma = value;
    }

    pub fn tac(&self) -> (r: u8)
        ensures
            r == self.tac,
    {
        self.tac
    }

    pub fn set_tac(&mut self, value: u8)
        ensures
            *final(self) == (Timer { tac: value, ..*old(self) }),
    {
        self.tac = value;
    }

    /// Runs the timer for `cycles` machine cycles, setting bit 2 of `if_flag`
    /// when the timer interrupt fires.
    pub fn tick(&mut self, if_flag: &mut u8, cycles: u8)
        ensures
            (*final(self), *final(if_flag)) == timer_tick(*old(self), *old(if_flag), cycles as nat),
    {
        let ghost start = *self;
        let ghost start_flag = *if_flag;
        let mut i: u8 = 0;
        while i < cycles
            invariant
                i <= cycles,
                (*self, *if_flag == (if timer_steps(start, i as nat).1 { start_flag | 0x04 } else { start_flag }))
                    == (timer_steps(start, i as nat).0, true),
            decreases cycles - i,
        {
            let fired = self.single_tick();
            if fired {
                *if_flag |= 0x04;
            }
            proof {
                let prev = timer_steps(start, i as nat);
                assert(timer_steps(start, (i + 1) as nat) == (timer_step(prev.0).0, prev.1 || timer_step(prev.0).1));
                if prev.1 {
                    assert(start_flag | 0x04 | 0x04 == start_flag | 0x04) by (bit_vector);
                }
            }
            i = i + 1;
        }
        self.previous_tma = self.tma;
    }

    /// One machine cycle; returns whether the timer interrupt fires.
    pub fn single_tick(&mut self) -> (fired: bool)
        ensures
            (*final(self), fired) == timer_step(*old(self)),
    {
        let mut result = false;

        let old_counter = self.counter;
        self.counter = self.counter.wrapping_add(1);

        if self.reload_delay > 0 {
            self.reload_delay -= 1;
            if self.reload_delay == 0 {
                self.tima = self.previous_tma;
                result = true;
            }
        }

        if self.tac & 0x04 == 0 {
            proof {
                let tac = self.tac;
                assert((tac & 0x04 == 0) == ((tac / 4) % 2 == 0)) by { lemma_byte_fields(); }
            }
            return result;
        }

        let bit_index: u16 = match self.tac & 0b11 {
            0b00 => 9,
            0b01 => 3,
            0b10 => 5,
            _ => 7,
        };

        proof {
            let tac = self.tac;
            assert((tac & 0x04 == 0) == ((tac / 4) % 2 == 0)) by { lemma_byte_fields(); }
            assert(tac & 3 == tac % 4) by { lemma_byte_fields(); }
            assert(self.counter == ((old_counter + 1) % 0x10000) as u16);
            lemma_falling_edge(old_counter, bit_index);
        }

        let old_bit = (old_counter >> bit_index) & 0x01;
        let new_bit = (self.counter >> bit_index) & 0x01;

        if old_bit == 1 && new_bit == 0 {
            let (new_value, overflow) = if self.tima == 0xFF { (0u8, true) } else { (self.tima + 1, false) };
            self.tima = new_value;

            if overflow {
                self.reload_delay = 4;
            }
        }

        result
    }
}


/// The edges of the selected counter bit in the `n` cycles after
/// `counter`: the cycles whose new counter value is a multiple of the
/// period.
pub open spec fn tima_edges(counter: u16, n: nat, period: nat) -> nat
    decreases n,
{
    if n == 0 {
        0
    } else {
        tima_edges(counter, (n - 1) as nat, period) + if ((counter + n) % 0x10000) % (period as int) == 0 {
            1nat
        } else {
            0nat
        }
    }
}

/// With TIMA enabled, no reload pending and no overflow on the way, `n`
/// cycles add one to TIMA per edge of the counter bit TAC selects, keep
/// TAC, and request no interrupt.
pub proof fn lemma_enabled_timer_counts_edges(t: Timer, n: nat)
    requires
        tac_enabled(t.tac),
        t.reload_delay == 0,
        t.tima + tima_edges(t.counter, n, tac_period(t.tac)) <= 255,
    ensures
        timer_steps(t, n).0.tima == t.tima + tima_edges(t.counter, n, tac_period(t.tac)),
        timer_steps(t, n).0.reload_delay == 0,
        timer_steps(t, n).0.tac == t.tac,
        !timer_steps(t, n).1,
    decreases n,
{
    if n > 0 {
        let m = (n - 1) as nat;
        lemma_enabled_timer_counts_edges(t, m);
        lemma_counter_advances(t, m);
        vstd::arithmetic::div_mod::lemma_add_mod_noop((t.counter + m) as int, 1, 0x10000);
        vstd::arithmetic::div_mod::lemma_small_mod(1, 0x10000);
    }
}

/// One more value counts one more multiple of `p` exactly when it is one.
proof fn lemma_div_step(x: int, p: int)
    requires
        x >= 0,
        p > 0,
    ensures
        (x + 1) / p == x / p + if (x + 1) % p == 0 { 1int } else { 0int },
{
    vstd::arithmetic::div_mod::lemma_fundamental_div_mod(x, p);
    vstd::arithmetic::div_mod::lemma_mod_bound(x, p);
    let q = x / p;
    let r = x % p;
    assert(q * p == p * q) by (nonlinear_arith);
    if r + 1 < p {
        vstd::arithmetic::div_mod::lemma_fundamental_div_mod_converse(x + 1, p, q, r + 1);
    } else {
        assert((q + 1) * p == q * p + p) by (nonlinear_arith);
        vstd::arithmetic::div_mod::lemma_fundamental_div_mod_converse(x + 1, p, q + 1, 0);
    }
}

/// Before the counter wraps, the edges in `n` cycles are the multiples of
/// the period passed: `(counter + n) / p - counter / p`.
pub proof fn lemma_edges_count(counter: u16, n: nat, p: nat)
    requires
        p > 0,
        counter + n < 0x10000,
    ensures
        tima_edges(counter, n, p) == (counter + n) / (p as int) - (counter as int) / (p as int),
    decreases n,
{
    if n > 0 {
        lemma_edges_count(counter, (n - 1) as nat, p);
        vstd::arithmetic::div_mod::lemma_small_mod((counter + n) as nat, 0x10000);
        lemma_div_step(counter + n - 1, p as int);
    }
}

} // verus!
