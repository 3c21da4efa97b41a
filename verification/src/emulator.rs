use vstd::prelude::*;
use crate::cpu::CPU;
use crate::memory_bus::MemoryBus;
use crate::mbc::cartridge_family;

verus! {

/// The emulator: the core and the cycles it still owes from the last call
/// (negative when the last instruction ran past the budget).
pub struct Emulator {
    pub cpu: CPU,
    pub remaining_cycles: i32,
}

/// Whether each core in `trace` is one step (`CPU::stepped`) on from the one
/// before it.
pub open spec fn is_run(trace: Seq<CPU>) -> bool {
    forall|i: int| 0 <= i < trace.len() - 1 ==> #[trigger] trace[i].stepped(trace[i + 1])
}

/// The machine cycles the steps of `trace` took: each step reports the
/// bus's cycle count at its end.
pub open spec fn run_cycles(trace: Seq<CPU>) -> int
    decreases trace.len(),
{
    if trace.len() <= 1 {
        0
    } else {
        run_cycles(trace.drop_last()) + trace.last().memory_bus.total_cycles
    }
}

impl Emulator {
    /// An emulator for `rom`.
    pub fn new(rom: Vec<u8>) -> (r: Self)
        requires
            rom.len() > 0x0147,
            cartridge_family(rom@[0x0147]).is_some(),
        ensures
            r.cpu.started(rom@),
            r.remaining_cycles == 0,
    {
        Emulator { cpu: CPU::new(rom), remaining_cycles: 0 }
    }

    /// Hands the joypad state to the core, adds `cycles` to the budget and
    /// runs instructions while the budget is positive, taking each
    /// instruction's cycles off it; stops early if the core stops. The
    /// steps taken form a run (`is_run`) from the core with the new joypad
    /// state, and the budget loses exactly the cycles they report; the core
    /// ends as the last step left it, or stopped after a step that reported
    /// no cycles.
    pub fn execute(&mut self, cycles: i32, joypad_pressed_directions: u8, joypad_pressed_buttons: u8)
        requires
            old(self).cpu.memory_bus.wf(),
            old(self).remaining_cycles + cycles <= i32::MAX,
            old(self).remaining_cycles + cycles >= i32::MIN,
        ensures
            final(self).cpu.memory_bus.wf(),
            final(self).remaining_cycles <= 0 || final(self).cpu.faulted,
            final(self).remaining_cycles <= old(self).remaining_cycles + cycles,
            old(self).remaining_cycles + cycles > 0 ==> final(self).remaining_cycles > -256,
            exists|trace: Seq<CPU>|
                {
                    &&& is_run(trace)
                    &&& trace.len() >= 1
                    &&& trace[0] == (CPU {
                        memory_bus: MemoryBus {
                            joypad_pressed_directions,
                            joypad_pressed_buttons,
                            ..old(self).cpu.memory_bus
                        },
                        ..old(self).cpu
                    })
                    &&& (final(self).cpu == trace.last() || (trace.len() >= 2
                        && trace.last().memory_bus.total_cycles == 0 && final(self).cpu == trace.last().stopped()))
                    &&& final(self).remaining_cycles == old(self).remaining_cycles + cycles - #[trigger] run_cycles(trace)
                },
    {
        self.cpu.memory_bus.set_joypad_pressed_directions(joypad_pressed_directions);
        self.cpu.memory_bus.set_joypad_pressed_buttons(joypad_pressed_buttons);
        self.remaining_cycles = self.remaining_cycles + cycles;
        let ghost start = self.remaining_cycles;
        let ghost low: int = if start < -255 { start as int } else { -255 };
        let ghost mut trace: Seq<CPU> = seq![self.cpu];
        while self.remaining_cycles > 0 && !self.cpu.faulted
            invariant
                self.cpu.memory_bus.wf(),
                self.remaining_cycles >= low,
                self.remaining_cycles <= start,
                start > 0 ==> self.remaining_cycles > -256,
                low == (if start < -255 { start as int } else { -255 }),
                is_run(trace),
                trace.len() >= 1,
                trace[0] == (CPU {
                    memory_bus: MemoryBus {
                        joypad_pressed_directions,
                        joypad_pressed_buttons,
                        ..old(self).cpu.memory_bus
                    },
                    ..old(self).cpu
                }),
                self.cpu == trace.last() || (trace.len() >= 2 && trace.last().memory_bus.total_cycles == 0
                    && self.cpu == trace.last().stopped()),
                self.remaining_cycles == start - run_cycles(trace),
            decreases (if self.cpu.faulted { 0int } else { 1int }), self.remaining_cycles - low,
        {
            assert(self.cpu == trace.last());
            let result = self.cpu.execute_instruction();
            proof {
                let t2 = trace.push(self.cpu);
                assert(t2.drop_last() =~= trace);
                assert forall|i: int| 0 <= i < t2.len() - 1 implies #[trigger] t2[i].stepped(t2[i + 1]) by {
                    if i < trace.len() - 1 {
                        assert(t2[i] == trace[i] && t2[i + 1] == trace[i + 1]);
                    }
                }
                trace = t2;
            }
            if result.cycles == 0 {
                self.cpu.faulted = true;
            } else {
                self.remaining_cycles = self.remaining_cycles - result.cycles as i32;
            }
        }
    }
}

} // verus!
