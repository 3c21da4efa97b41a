use vstd::prelude::*;
pub mod instructions;
use crate::mbc::cartridge_family;
use crate::memory_bus::{echo, stack_address, MemoryBus, DMA};
use crate::cpu::instructions::{cb_instruction_of, decode, decode_cb, instruction_of, Condition, Instruction, Mnemonic, Operand};
use crate::model::ModelType;
use crate::registers::{Register, Registers};

verus! {

/// What executing one instruction reports: the machine cycles it took.
pub struct InstructionResult {
    pub cycles: u8,
}

/// The SM83 core: its registers, the bus it reaches memory through, the
/// interrupt master enable (IME), an EI waiting to take effect and the HALT
/// state.
pub struct CPU {
    pub registers: Registers,
    pub memory_bus: MemoryBus,
    pub ime: bool,
    pub pending_ime_set: bool,
    pub halted: bool,
    /// Set when the core reached a step the emulator cannot carry out (a
    /// refused bus access, an address or stack pointer running past the
    /// end of the address space, an undefined opcode); the core then does
    /// nothing more.
    pub faulted: bool,
}

/// The interrupts both requested (IF) and enabled (IE).
pub open spec fn pending_interrupts(if_flag: u8, ie_flag: u8) -> u8 {
    if_flag & ie_flag & 0x1F
}

/// The interrupt served first and its number: the lowest pending bit
/// (V-blank, LCD STAT, timer, serial, joypad); V-blank when none is.
pub open spec fn interrupt_choice(pending: u8) -> (u8, u8) {
    if pending & 0x01 != 0 {
        (0x01, 0)
    } else if pending & 0x02 != 0 {
        (0x02, 1)
    } else if pending & 0x04 != 0 {
        (0x04, 2)
    } else if pending & 0x08 != 0 {
        (0x08, 3)
    } else if pending & 0x10 != 0 {
        (0x10, 4)
    } else {
        (0x01, 0)
    }
}

/// `value` pushed on the stack below `sp`: its high byte written at
/// `sp - 1`, then its low byte at `sp - 2`, each write running the
/// hardware for four cycles.
pub open spec fn pushed(b0: MemoryBus, b2: MemoryBus, sp: u16, value: u16) -> bool {
    exists|b1: MemoryBus| #[trigger] push_steps(b0, b1, b2, sp, value)
}

/// The two writes of a push, through `b1`.
pub open spec fn push_steps(b0: MemoryBus, b1: MemoryBus, b2: MemoryBus, sp: u16, value: u16) -> bool {
    &&& b0.written(b1, (sp - 1) as u16, (value / 256) as u8)
    &&& b1.written(b2, (sp - 2) as u16, (value % 256) as u8)
}

/// The bus side of serving an interrupt: its request bit (`mask`) is
/// cleared, eight cycles pass, the program counter is pushed and four more
/// cycles pass.
pub open spec fn interrupt_served(b0: MemoryBus, b3: MemoryBus, mask: u8, sp: u16, pc: u16) -> bool {
    exists|b1: MemoryBus, b2: MemoryBus| #[trigger] serve_steps(b0, b1, b2, b3, mask, sp, pc)
}

/// The steps of `interrupt_served`, through `b1` and `b2`.
pub open spec fn serve_steps(
    b0: MemoryBus,
    b1: MemoryBus,
    b2: MemoryBus,
    b3: MemoryBus,
    mask: u8,
    sp: u16,
    pc: u16,
) -> bool {
    &&& (MemoryBus { if_flag: b0.if_flag & !mask, ..b0 }).ticked(b1, 8)
    &&& pushed(b1, b2, sp, pc)
    &&& b2.ticked(b3, 4)
}

/// A read `read` can carry out (see `MemoryBus::can_read`).
pub open spec fn read_allowed(b: MemoryBus, a: u16) -> bool {
    b.read_ok(a) && !(b.dma.active && (a < 0xFF80 || a > 0xFFFE)) && b.tick_ok(4)
}

/// A write `write` can carry out (see `MemoryBus::can_write`).
pub open spec fn write_allowed(b: MemoryBus, a: u16, v: u8) -> bool {
    b.write_ok(a, v) && !(b.mbc.claims_write(echo(a)) && b.dma.init_delay > 0 && b.dma_touches_cartridge())
}

/// Whether a branch condition holds for the flags.
pub open spec fn condition_holds(r: Registers, c: Condition) -> bool {
    match c {
        Condition::NZ => !r.zero,
        Condition::Z => r.zero,
        Condition::NC => !r.carry,
        Condition::C => r.carry,
    }
}

impl CPU {
    /// Everything but the bus and the fault flag is as in `other`.
    pub open spec fn same_core(self, other: CPU) -> bool {
        &&& self.registers == other.registers
        &&& self.ime == other.ime
        &&& self.pending_ime_set == other.pending_ime_set
        &&& self.halted == other.halted
    }
}

/// An address as an LDH-style access sees it: 0xFF00 plus the low byte
/// when `high` is set.
pub open spec fn sanitized(address: u16, high: bool) -> u16 {
    if high {
        (0xFF00 + address % 256) as u16
    } else {
        address
    }
}

/// A 16-bit register value's width: one byte for the 8-bit registers.
pub open spec fn width_of(reg: Register) -> u8 {
    if crate::registers::is_8bit(reg) {
        1
    } else {
        2
    }
}

impl CPU {
    /// The core with the fault flag set and nothing else changed.
    pub open spec fn stopped(self) -> CPU {
        CPU { faulted: true, ..self }
    }

    /// `c1` is this core after reading `v` at `a` (see `read8`): a read the
    /// bus refuses, or any read of a stopped core, stops it and reads 0xFF.
    #[verifier::opaque]
    pub open spec fn read8_to(self, a: u16, v: u8, c1: CPU) -> bool {
        &&& c1.same_core(self)
        &&& c1.faulted == (self.faulted || !read_allowed(self.memory_bus, a))
        &&& c1.faulted ==> c1.memory_bus == self.memory_bus && v == 0xFF
        &&& !c1.faulted ==> self.memory_bus.read_value(a) == Some(v) && self.memory_bus.ticked(c1.memory_bus, 4)
    }

    /// `c1` is this core after writing `v` at `a` (see `write8`).
    #[verifier::opaque]
    pub open spec fn write8_to(self, a: u16, v: u8, c1: CPU) -> bool {
        &&& c1.same_core(self)
        &&& c1.faulted == (self.faulted || !write_allowed(self.memory_bus, a, v))
        &&& c1.faulted ==> c1.memory_bus == self.memory_bus
        &&& !c1.faulted ==> self.memory_bus.written(c1.memory_bus, a, v)
    }

    /// `c1` is this core after `n` cycles of hardware (see `tick`).
    #[verifier::opaque]
    pub open spec fn tick_to(self, n: u8, c1: CPU) -> bool {
        &&& c1.same_core(self)
        &&& c1.faulted == (self.faulted || !self.memory_bus.tick_ok(n))
        &&& c1.faulted ==> c1.memory_bus == self.memory_bus
        &&& !c1.faulted ==> self.memory_bus.ticked(c1.memory_bus, n)
    }

    /// `c1` is this core with PC moved `bytes` past `pc` (stopped if that
    /// passes 0xFFFF).
    pub open spec fn advance_to(self, pc: u16, bytes: u8, c1: CPU) -> bool {
        if pc + bytes > 0xFFFF {
            c1 == self.stopped()
        } else {
            c1 == (CPU { registers: self.registers.after_set(Register::PC, (pc + bytes) as u16), ..self })
        }
    }

    /// `c1` is this core after reading the byte `v` after the opcode.
    pub open spec fn n8_to(self, v: u8, c1: CPU) -> bool {
        if self.registers.pc == 0xFFFF {
            c1 == self.stopped() && v == 0xFF
        } else {
            self.read8_to((self.registers.pc + 1) as u16, v, c1)
        }
    }

    /// `c2` is this core after reading the word `v` after the opcode (low
    /// byte first) through `c1`.
    pub open spec fn n16_steps(self, lo: u8, c1: CPU, hi: u8, c2: CPU) -> bool {
        &&& self.read8_to((self.registers.pc + 1) as u16, lo, c1)
        &&& c1.read8_to((self.registers.pc + 2) as u16, hi, c2)
    }

    /// `c2` is this core after reading the word `v` after the opcode.
    #[verifier::opaque]
    pub open spec fn n16_to(self, v: u16, c2: CPU) -> bool {
        if self.registers.pc >= 0xFFFE {
            c2 == self.stopped() && v == 0xFFFF
        } else {
            exists|lo: u8, c1: CPU, hi: u8| #[trigger] self.n16_steps(lo, c1, hi, c2) && v == hi * 256 + lo
        }
    }

    /// `c1` is this core after reading the signed byte after the opcode,
    /// sign-extended to `v`.
    #[verifier::opaque]
    pub open spec fn e8_to(self, v: u16, c1: CPU) -> bool {
        exists|b: u8| #[trigger] self.n8_to(b, c1) && v == (if b < 0x80 { b as u16 } else { (0xFF00 + b) as u16 })
    }

    /// `c1` is this core after reading operand `op` as `value`, `bytes`
    /// wide.
    #[verifier::opaque]
    pub open spec fn operand_read_to(self, op: Operand, high: bool, value: u16, bytes: u8, c1: CPU) -> bool {
        match op {
            Operand::Reg(reg) => c1 == self && value == self.registers.value(reg) && bytes == width_of(reg),
            Operand::Ind(reg) => bytes == 1 && value < 256 && self.read8_to(
                sanitized(self.registers.value(reg), high),
                value as u8,
                c1,
            ),
            Operand::IndInc | Operand::IndDec => bytes == 1 && value < 256 && self.read8_to(
                sanitized(self.registers.value(Register::HL), high),
                value as u8,
                c1,
            ),
            Operand::A8 => bytes == 1 && value < 256 && exists|n: u8, m: CPU|
                #[trigger] self.n8_to(n, m) && m.read8_to(sanitized(n as u16, high), value as u8, c1),
            Operand::A16 => bytes == 1 && value < 256 && exists|n: u16, m: CPU|
                #[trigger] self.n16_to(n, m) && m.read8_to(sanitized(n, high), value as u8, c1),
            Operand::E8 => bytes == 1 && self.e8_to(value, c1),
            Operand::N8 => bytes == 1 && exists|n: u8| #[trigger] self.n8_to(n, c1) && value == sanitized(n as u16, high),
            Operand::N16 => bytes == 2 && exists|n: u16| #[trigger] self.n16_to(n, c1) && value == sanitized(n, high),
            _ => c1 == self.stopped() && value == 0 && bytes == 1,
        }
    }

    /// `c1` is this core after storing `value` (`rb` bytes wide) into
    /// operand `op`.
    #[verifier::opaque]
    pub open spec fn operand_write_to(self, op: Operand, value: u16, rb: u8, high: bool, c1: CPU) -> bool {
        match op {
            Operand::Reg(reg) => c1 == (CPU { registers: self.registers.after_set(reg, value), ..self }),
            Operand::Ind(reg) => self.write8_to(
                sanitized(self.registers.value(reg), high),
                (value % 256) as u8,
                c1,
            ),
            Operand::IndInc | Operand::IndDec => self.write8_to(
                sanitized(self.registers.value(Register::HL), high),
                (value % 256) as u8,
                c1,
            ),
            Operand::A8 | Operand::A16 => exists|n: u16, m: CPU|
                #[trigger] self.address_operand_to(op, n, m) && m.store_to(sanitized(n, high), value, rb, c1),
            _ => c1 == self.stopped(),
        }
    }

    /// `m` is this core after reading the address of an A8 or A16 operand.
    #[verifier::opaque]
    pub open spec fn address_operand_to(self, op: Operand, n: u16, m: CPU) -> bool {
        if op == Operand::A8 {
            n < 256 && self.n8_to(n as u8, m)
        } else {
            self.n16_to(n, m)
        }
    }

    /// `c1` is this core after storing `value` at `a`: one byte when `rb`
    /// is 1, else the low byte at `a` and the high byte at `a + 1`.
    #[verifier::opaque]
    pub open spec fn store_to(self, a: u16, value: u16, rb: u8, c1: CPU) -> bool {
        if rb == 1 {
            self.write8_to(a, (value % 256) as u8, c1)
        } else {
            exists|m: CPU|
                #[trigger] self.write8_to(a, (value % 256) as u8, m) && if a == 0xFFFF {
                    c1 == m.stopped()
                } else {
                    m.write8_to((a + 1) as u16, (value / 256) as u8, c1)
                }
        }
    }
}

impl CPU {
    /// This core with its registers replaced.
    pub open spec fn with_registers(self, r: Registers) -> CPU {
        CPU { registers: r, ..self }
    }

    /// `c2` is this core after the condition of `ins` (if any) failed and PC
    /// moved past the instruction, or `taken` when it held.
    pub open spec fn branch_taken(self, ins: Instruction) -> bool {
        ins.total_operands != 2 || (ins.op0 matches Operand::Cond(c) && condition_holds(self.registers, c))
    }

    /// JP through `c1` (after reading the target) to `c`.
    pub open spec fn jp_steps(self, ins: Instruction, target: u16, c1: CPU, c2: CPU) -> bool {
        if ins.total_operands == 2 {
            &&& self.n16_to(target, c1)
            &&& if self.branch_taken(ins) {
                c1.with_registers(c1.registers.after_set(Register::PC, target)).tick_to(4, c2)
            } else {
                c1.advance_to(self.registers.pc, ins.bytes, c2)
            }
        } else {
            match ins.op0 {
                Operand::Reg(reg) => c1 == self && target == self.registers.value(reg) && c2 == self.with_registers(
                    self.registers.after_set(Register::PC, target),
                ),
                _ => {
                    &&& self.n16_to(target, c1)
                    &&& c1.with_registers(c1.registers.after_set(Register::PC, target)).tick_to(4, c2)
                },
            }
        }
    }

    /// JP from this core to `c`.
    pub open spec fn jp_to(self, ins: Instruction, c: CPU) -> bool {
        exists|t: u16, c1: CPU| #[trigger] self.jp_steps(ins, t, c1, c)
    }

    /// CALL through `c1` (after reading the target) and `c2` (after the
    /// push) to `c`.
    pub open spec fn call_steps(self, ins: Instruction, target: u16, c1: CPU, c2: CPU, c: CPU) -> bool {
        let pc = self.registers.pc;
        &&& self.n16_to(target, c1)
        &&& if !self.branch_taken(ins) {
            c1.advance_to(pc, ins.bytes, c)
        } else if pc + ins.bytes > 0xFFFF {
            c == c1.stopped()
        } else {
            &&& c1.push_to((pc + ins.bytes) as u16, c2)
            &&& c2.with_registers(c2.registers.after_set(Register::PC, target)).tick_to(4, c)
        }
    }

    /// CALL from this core to `c`.
    pub open spec fn call_to(self, ins: Instruction, c: CPU) -> bool {
        exists|t: u16, c1: CPU, c2: CPU| #[trigger] self.call_steps(ins, t, c1, c2, c)
    }

    /// `c` is this core after pushing `value` (see `stack16`).
    pub open spec fn push_to(self, value: u16, c: CPU) -> bool {
        let sp = self.registers.sp;
        if sp < 2 {
            c == self.stopped()
        } else {
            exists|c1: CPU| #[trigger] self.write8_to((sp - 1) as u16, (value / 256) as u8, c1) && c1.write8_to(
                (sp - 2) as u16,
                (value % 256) as u8,
                CPU { registers: self.registers, ..c },
            ) && c.registers == self.registers.after_set(Register::SP, (sp - 2) as u16)
        }
    }

    /// `c` is this core after popping `value` (see `pop16`).
    pub open spec fn pop_to(self, value: u16, c: CPU) -> bool {
        let sp = self.registers.sp;
        if sp >= 0xFFFE {
            c == self.stopped() && value == 0xFFFF
        } else {
            exists|lo: u8, c1: CPU, hi: u8| #[trigger] self.pop_steps(lo, c1, hi, c) && value == hi * 256 + lo
        }
    }

    /// The two reads of a pop, low byte through `c1`.
    pub open spec fn pop_steps(self, lo: u8, c1: CPU, hi: u8, c: CPU) -> bool {
        let sp = self.registers.sp;
        &&& self.read8_to(sp, lo, c1)
        &&& c1.read8_to((sp + 1) as u16, hi, CPU { registers: self.registers, ..c })
        &&& c.registers == self.registers.after_set(Register::SP, (sp + 2) as u16)
    }

    /// RST through `c1` (after the push) and `c2` (after reading the opcode
    /// back) to `c`.
    pub open spec fn rst_steps(self, ins: Instruction, c1: CPU, opcode: u8, c2: CPU, c: CPU) -> bool {
        let pc = self.registers.pc;
        if pc + ins.bytes > 0xFFFF {
            c == self.stopped()
        } else {
            &&& self.push_to((pc + ins.bytes) as u16, c1)
            &&& c1.read8_to(pc, opcode, c2)
            &&& if opcode < 0xC7 {
                c == c2.stopped()
            } else {
                c == c2.with_registers(c2.registers.after_set(Register::PC, (opcode - 0xC7) as u16))
            }
        }
    }

    /// RST from this core to `c`.
    pub open spec fn rst_to(self, ins: Instruction, c: CPU) -> bool {
        exists|c1: CPU, opcode: u8, c2: CPU| #[trigger] self.rst_steps(ins, c1, opcode, c2, c)
    }

    /// JR through `c1` (after reading the offset) to `c`.
    pub open spec fn jr_steps(self, ins: Instruction, offset: u16, c1: CPU, c: CPU) -> bool {
        let pc = self.registers.pc;
        &&& self.e8_to(offset, c1)
        &&& if self.branch_taken(ins) {
            c1.with_registers(c1.registers.after_set(Register::PC, pc.wrapping_add(ins.bytes as u16).wrapping_add(offset))).tick_to(
                4,
                c,
            )
        } else {
            c1.advance_to(pc, ins.bytes, c)
        }
    }

    /// JR from this core to `c`.
    pub open spec fn jr_to(self, ins: Instruction, c: CPU) -> bool {
        exists|o: u16, c1: CPU| #[trigger] self.jr_steps(ins, o, c1, c)
    }

    /// RET through `c1` (after the condition test) and `c2` (after the pop)
    /// to `c`.
    pub open spec fn ret_steps(self, ins: Instruction, c1: CPU, value: u16, c2: CPU, c: CPU) -> bool {
        &&& (if ins.total_operands == 1 { self.tick_to(4, c1) } else { c1 == self })
        &&& if ins.total_operands == 1 && !(ins.op0 matches Operand::Cond(k) && condition_holds(self.registers, k)) {
            c1.advance_to(self.registers.pc, ins.bytes, c)
        } else {
            &&& c1.pop_to(value, c2)
            &&& c2.with_registers(c2.registers.after_set(Register::PC, value)).tick_to(4, c)
        }
    }

    /// RET from this core to `c`.
    pub open spec fn ret_to(self, ins: Instruction, c: CPU) -> bool {
        exists|c1: CPU, v: u16, c2: CPU| #[trigger] self.ret_steps(ins, c1, v, c2, c)
    }

    /// RETI from this core to `c`: a return that also asks for IME.
    pub open spec fn reti_to(self, c: CPU) -> bool {
        exists|v: u16, c1: CPU|
            #[trigger] self.pop_to(v, c1) && (CPU {
                registers: c1.registers.after_set(Register::PC, v),
                pending_ime_set: true,
                ..c1
            }).tick_to(4, c)
    }

    /// PUSH from this core to `c`.
    pub open spec fn push_op_to(self, ins: Instruction, c: CPU) -> bool {
        match ins.op0 {
            Operand::Reg(reg) => exists|c1: CPU, c2: CPU|
                #![trigger self.tick_to(4, c1), c1.push_to(self.registers.value(reg), c2)]
                self.tick_to(4, c1) && c1.push_to(self.registers.value(reg), c2) && c2.advance_to(
                    self.registers.pc,
                    ins.bytes,
                    c,
                ),
            _ => c == self.stopped(),
        }
    }

    /// POP from this core to `c`.
    pub open spec fn pop_op_to(self, ins: Instruction, c: CPU) -> bool {
        match ins.op0 {
            Operand::Reg(reg) => exists|v: u16, c1: CPU|
                #[trigger] self.pop_to(v, c1) && c1.with_registers(c1.registers.after_set(reg, v)).advance_to(
                    self.registers.pc,
                    ins.bytes,
                    c,
                ),
            _ => c == self.stopped(),
        }
    }

    /// The instructions that touch only registers and flags, from this core
    /// to `c` (PC already known to fit).
    pub open spec fn register_only_to(self, ins: Instruction, c: CPU) -> bool {
        let r = self.registers;
        let adv = self.advanced(ins.bytes);
        let (da, dc) = daa_result(r.a, r.subtract, r.half_carry, r.carry);
        match ins.mnemonic {
            Mnemonic::NOP | Mnemonic::STOP => c == self.with_registers(adv),
            Mnemonic::DAA => c == self.with_registers(Registers { a: da, zero: da == 0, half_carry: false, carry: dc, ..adv }),
            Mnemonic::HALT => c == (CPU { registers: adv, halted: true, ..self }),
            Mnemonic::CPL => c == self.with_registers(
                Registers { a: (255 - r.a) as u8, subtract: true, half_carry: true, ..adv },
            ),
            Mnemonic::SCF => c == self.with_registers(Registers { subtract: false, half_carry: false, carry: true, ..adv }),
            Mnemonic::CCF => c == self.with_registers(
                Registers { subtract: false, half_carry: false, carry: !r.carry, ..adv },
            ),
            Mnemonic::DI => c == (CPU { registers: adv, ime: false, pending_ime_set: false, ..self }),
            _ => c == (CPU { registers: adv, pending_ime_set: true, ..self }),
        }
    }

    /// A decoded instruction took this core to `c`: each operation as its
    /// handler does it; PREFIX and the undefined opcodes stop the core.
    pub open spec fn executes(self, ins: Instruction, c: CPU) -> bool {
        match ins.mnemonic {
            Mnemonic::NOP | Mnemonic::DAA | Mnemonic::HALT | Mnemonic::CPL | Mnemonic::SCF | Mnemonic::CCF
            | Mnemonic::DI | Mnemonic::EI | Mnemonic::STOP => if self.registers.pc + ins.bytes <= 0xFFFF {
                self.register_only_to(ins, c)
            } else {
                c == self.stopped()
            },
            Mnemonic::JP => self.jp_to(ins, c),
            Mnemonic::LD => self.ld_to(ins, c),
            Mnemonic::LDH => self.ldh_to(ins, c),
            Mnemonic::INC => self.step_to(ins, true, c),
            Mnemonic::DEC => self.step_to(ins, false, c),
            Mnemonic::JR => self.jr_to(ins, c),
            Mnemonic::CALL => self.call_to(ins, c),
            Mnemonic::PUSH => self.push_op_to(ins, c),
            Mnemonic::POP => self.pop_op_to(ins, c),
            Mnemonic::RET => self.ret_to(ins, c),
            Mnemonic::RETI => self.reti_to(c),
            Mnemonic::RST => self.rst_to(ins, c),
            Mnemonic::OR | Mnemonic::AND | Mnemonic::XOR => self.logic_to(ins, c),
            Mnemonic::ADD => self.add_to(ins, c),
            Mnemonic::ADC | Mnemonic::SUB | Mnemonic::SBC | Mnemonic::CP => self.arith_to(ins, c),
            Mnemonic::RLCA | Mnemonic::RRCA | Mnemonic::RLA | Mnemonic::RRA | Mnemonic::RLC | Mnemonic::RRC
            | Mnemonic::RL | Mnemonic::RR | Mnemonic::SLA | Mnemonic::SRA | Mnemonic::SRL | Mnemonic::SWAP => self.shift_to(
                ins,
                c,
            ),
            Mnemonic::BIT | Mnemonic::RES | Mnemonic::SET => self.bit_to(ins, c),
            _ => c == self.stopped(),
        }
    }

    /// The EI delay after an instruction: IME is set if an EI was waiting,
    /// unless the instruction itself was EI or RETI (always after a
    /// CB-prefixed one).
    pub open spec fn ei_applied(self, ins: Instruction, cb: bool) -> CPU {
        if self.pending_ime_set && (cb || (ins.mnemonic != Mnemonic::EI && ins.mnemonic != Mnemonic::RETI)) {
            CPU { ime: true, pending_ime_set: false, ..self }
        } else {
            self
        }
    }

    /// Fetch, decode and execute from this core (its cycle count already
    /// reset) to `c`: the opcode at PC read through `c1`; after 0xCB the
    /// next byte read through `c2` selects a CB instruction.
    pub open spec fn fetch_steps(self, opcode: u8, c1: CPU, cb: u8, c2: CPU, c3: CPU, c: CPU) -> bool {
        let pc = self.registers.pc;
        &&& self.read8_to(pc, opcode, c1)
        &&& if c1.faulted {
            c == c1
        } else if opcode != 0xCB {
            c1.executes(instruction_of(opcode), c3) && c == c3.ei_applied(instruction_of(opcode), false)
        } else if pc == 0xFFFF {
            c == c1.stopped()
        } else {
            &&& c1.read8_to((pc + 1) as u16, cb, c2)
            &&& if c2.faulted {
                c == c2
            } else {
                c2.executes(cb_instruction_of(cb), c3) && c == c3.ei_applied(cb_instruction_of(cb), true)
            }
        }
    }

    /// One step of the core from `self` to `c` (see `execute_instruction`).
    pub open spec fn stepped(self, c: CPU) -> bool {
        let c0 = CPU { memory_bus: MemoryBus { total_cycles: 0, ..self.memory_bus }, ..self };
        let woken = CPU { halted: self.halted && !self.interrupt_pending(), ..c0 };
        if self.faulted {
            c == self
        } else if self.ime && self.interrupt_pending() {
            let (mask, number) = interrupt_choice(pending_interrupts(self.memory_bus.if_flag, self.memory_bus.ie_flag));
            &&& woken.interrupt_to(c)
            &&& !c.ime && !c.halted && c.pending_ime_set == self.pending_ime_set
            &&& !c.faulted ==> c.registers == self.registers.after_set(Register::SP, (self.registers.sp - 2) as u16).after_set(
                Register::PC,
                (0x40 + number * 8) as u16,
            ) && interrupt_served(c0.memory_bus, c.memory_bus, mask, self.registers.sp, self.registers.pc)
        } else if woken.halted {
            woken.tick_to(4, c)
        } else {
            woken.fetched(c)
        }
    }

    /// Serving the chosen interrupt from this core to `c`, through `c1`
    /// (after the eight cycles) and `c2` (after the push of PC): IME and the
    /// interrupt's request bit are cleared, eight cycles pass, PC is pushed,
    /// PC moves to the vector and four more cycles pass. Each step stops the
    /// core exactly when the bus refuses it, and a stopped core does nothing
    /// further.
    pub open spec fn serve_core_steps(self, c1: CPU, c2: CPU, c: CPU) -> bool {
        let (mask, number) = interrupt_choice(pending_interrupts(self.memory_bus.if_flag, self.memory_bus.ie_flag));
        let c0 = CPU {
            ime: false,
            memory_bus: MemoryBus { if_flag: self.memory_bus.if_flag & !mask, ..self.memory_bus },
            ..self
        };
        &&& c0.tick_to(8, c1)
        &&& c1.push_to(self.registers.pc, c2)
        &&& (CPU { registers: c2.registers.after_set(Register::PC, (0x40 + number * 8) as u16), ..c2 }).tick_to(4, c)
    }

    /// Serving the chosen interrupt takes this core to `c` (see
    /// `serve_core_steps`).
    pub open spec fn interrupt_to(self, c: CPU) -> bool {
        exists|c1: CPU, c2: CPU| #[trigger] self.serve_core_steps(c1, c2, c)
    }

    /// Some fetch, decode and execute (see `fetch_steps`) takes this core to `c`.
    pub open spec fn fetched(self, c: CPU) -> bool {
        exists|opcode: u8, c1: CPU, cb: u8, c2: CPU, c3: CPU| #[trigger] self.fetch_steps(opcode, c1, cb, c2, c3, c)
    }

    /// Whether an operand is a 16-bit register pair or SP, whose increment
    /// and decrement take four more cycles.
    pub open spec fn wide_register(op: Operand) -> bool {
        op == Operand::Reg(Register::AF) || op == Operand::Reg(Register::BC) || op == Operand::Reg(Register::DE) || op
            == Operand::Reg(Register::HL) || op == Operand::Reg(Register::SP)
    }

    /// `c` is this core after `n` cycles when `wide`, or this core itself.
    pub open spec fn maybe_tick_to(self, wide: bool, n: u8, c: CPU) -> bool {
        if wide {
            self.tick_to(n, c)
        } else {
            c == self
        }
    }

    /// INC or DEC (`up`) through the read operand `v` (`rb` wide) and the
    /// cores between.
    pub open spec fn step_steps(self, ins: Instruction, up: bool, v: u16, rb: u8, c1: CPU, c3: CPU, c4: CPU, c: CPU) -> bool {
        let r = c1.registers;
        let r2 = if rb != 1 {
            r
        } else if up {
            Registers { zero: (v + 1) % 256 == 0, subtract: false, half_carry: v % 16 + 1 > 15, ..r }
        } else {
            Registers { zero: (v - 1) % 256 == 0, subtract: true, half_carry: v % 16 < 1, ..r }
        };
        let nv = if up { v.wrapping_add(1) } else { v.wrapping_sub(1) };
        &&& self.operand_read_to(ins.op0, false, v, rb, c1)
        &&& c1.with_registers(r2).maybe_tick_to(CPU::wide_register(ins.op0), 4, c3)
        &&& c3.operand_write_to(ins.op0, nv, rb, false, c4)
        &&& c4.advance_to(self.registers.pc, ins.bytes, c)
    }

    /// INC (`up`) or DEC from this core to `c`.
    pub open spec fn step_to(self, ins: Instruction, up: bool, c: CPU) -> bool {
        exists|v: u16, rb: u8, c1: CPU, c3: CPU, c4: CPU| #[trigger] self.step_steps(ins, up, v, rb, c1, c3, c4, c)
    }

    /// OR, AND, XOR through the second operand `v2`.
    pub open spec fn logic_steps(self, ins: Instruction, v2: u16, rb: u8, c1: CPU, c3: CPU, c: CPU) -> bool {
        let a = self.registers.a as u16;
        let nv = if ins.mnemonic == Mnemonic::AND {
            a & v2
        } else if ins.mnemonic == Mnemonic::XOR {
            a ^ v2
        } else {
            a | v2
        };
        &&& self.operand_read_to(ins.op1, false, v2, rb, c1)
        &&& c1.with_registers(c1.registers.after_set(Register::A, nv)).advance_to(self.registers.pc, ins.bytes, c3)
        &&& c == c3.with_registers(
            Registers {
                zero: c3.registers.a == 0,
                subtract: false,
                half_carry: ins.mnemonic == Mnemonic::AND,
                carry: false,
                ..c3.registers
            },
        )
    }

    /// OR, AND, XOR from this core to `c`.
    pub open spec fn logic_to(self, ins: Instruction, c: CPU) -> bool {
        exists|v2: u16, rb: u8, c1: CPU, c3: CPU| #[trigger] self.logic_steps(ins, v2, rb, c1, c3, c)
    }

    /// The flags of ADD for operands `v1`, `v2` read as `rb` wide.
    pub open spec fn add_flags(r: Registers, ins: Instruction, v1: u16, v2: u16, rb: u8) -> Registers {
        if rb == 1 {
            Registers {
                zero: if ins.op1 != Operand::E8 { (v1 + v2 + 0) % 256 == 0 } else { false },
                subtract: false,
                half_carry: v1 % 16 + v2 % 16 + 0 > 0xF,
                carry: v1 % 256 + v2 % 256 + 0 > 0xFF,
                ..r
            }
        } else {
            Registers {
                subtract: false,
                half_carry: v1 % 4096 + v2 % 4096 > 0x0FFF,
                carry: v1 + v2 > 0xFFFF,
                ..r
            }
        }
    }

    /// ADD through its operands `v1` and `v2`.
    pub open spec fn add_steps(self, ins: Instruction, v1: u16, b1: u8, c1: CPU, v2: u16, rb: u8, c2: CPU, c3: CPU, c4: CPU, c: CPU) -> bool {
        let c2f = c2.with_registers(CPU::add_flags(c2.registers, ins, v1, v2, rb));
        &&& self.operand_read_to(ins.op0, false, v1, b1, c1)
        &&& c1.operand_read_to(ins.op1, false, v2, rb, c2)
        &&& (if ins.op0 == Operand::Reg(Register::SP) {
            c2f.tick_to(8, c3)
        } else {
            c2f.maybe_tick_to(CPU::wide_register(ins.op0), 4, c3)
        })
        &&& c3.operand_write_to(ins.op0, v1.wrapping_add(v2), rb, false, c4)
        &&& c4.advance_to(self.registers.pc, ins.bytes, c)
    }

    /// ADD from this core to `c`.
    pub open spec fn add_to(self, ins: Instruction, c: CPU) -> bool {
        exists|v1: u16, b1: u8, c1: CPU, v2: u16, rb: u8, c2: CPU, c3: CPU, c4: CPU|
            #[trigger] self.add_steps(ins, v1, b1, c1, v2, rb, c2, c3, c4, c)
    }

    /// ADC, SUB, SBC, CP through their operands `v1` and `v2`.
    pub open spec fn arith_steps(self, ins: Instruction, v1: u16, b1: u8, c1: CPU, v2: u16, b2: u8, c2: CPU, c3: CPU, c: CPU) -> bool {
        let m = ins.mnemonic;
        let carry: u16 = if (m == Mnemonic::ADC || m == Mnemonic::SBC) && self.registers.carry { 1 } else { 0 };
        let r = c2.registers;
        &&& self.operand_read_to(ins.op0, false, v1, b1, c1)
        &&& c1.operand_read_to(ins.op1, false, v2, b2, c2)
        &&& if m == Mnemonic::ADC {
            c2.with_registers(
                Registers {
                    zero: (v1 + v2 + carry) % 256 == 0,
                    subtract: false,
                    half_carry: v1 % 16 + v2 % 16 + carry % 16 > 0xF,
                    carry: v1 % 256 + v2 % 256 + carry % 256 > 0xFF,
                    ..r
                },
            ).operand_write_to(ins.op0, v1.wrapping_add(v2).wrapping_add(carry), 1, false, c3)
        } else {
            let c2f = c2.with_registers(
                Registers {
                    zero: (v1 - v2 - carry) % 256 == 0,
                    subtract: true,
                    half_carry: v1 % 16 < v2 % 16 + carry % 16,
                    carry: v1 % 256 < v2 % 256 + carry % 256,
                    ..r
                },
            );
            if m != Mnemonic::CP {
                c2f.operand_write_to(ins.op0, v1.wrapping_sub(v2).wrapping_sub(carry), 1, false, c3)
            } else {
                c3 == c2f
            }
        }
        &&& c3.advance_to(self.registers.pc, ins.bytes, c)
    }

    /// ADC, SUB, SBC, CP from this core to `c`.
    pub open spec fn arith_to(self, ins: Instruction, c: CPU) -> bool {
        exists|v1: u16, b1: u8, c1: CPU, v2: u16, b2: u8, c2: CPU, c3: CPU|
            #[trigger] self.arith_steps(ins, v1, b1, c1, v2, b2, c2, c3, c)
    }

    /// A shift or rotate of the byte `value` with the carry in: the result,
    /// Z and C.
    pub open spec fn shift_result(m: Mnemonic, value: u16, carry_in: bool) -> (u16, bool, bool) {
        if m == Mnemonic::RLC || m == Mnemonic::RLCA {
            let n = (value * 2) % 256 + value / 128;
            ((n) as u16, n == 0 && m != Mnemonic::RLCA, value >= 128)
        } else if m == Mnemonic::RRC || m == Mnemonic::RRCA {
            let n = value / 2 + (value % 2) * 128;
            (n as u16, n == 0 && m != Mnemonic::RRCA, value % 2 == 1)
        } else if m == Mnemonic::RL || m == Mnemonic::RLA {
            let n = (value * 2) % 256 + if carry_in { 1int } else { 0int };
            (n as u16, n == 0 && m != Mnemonic::RLA, value >= 128)
        } else if m == Mnemonic::RR || m == Mnemonic::RRA {
            let n = value / 2 + if carry_in { 128int } else { 0int };
            (n as u16, n == 0 && m != Mnemonic::RRA, value % 2 == 1)
        } else if m == Mnemonic::SLA {
            let n = (value * 2) % 256;
            (n as u16, n == 0, value >= 128)
        } else if m == Mnemonic::SRA {
            let n = value / 2 + (value / 128) * 128;
            (n as u16, value / 2 == 0, value % 2 == 1)
        } else if m == Mnemonic::SRL {
            ((value / 2) as u16, value / 2 == 0, value % 2 == 1)
        } else {
            let n = (value % 16) * 16 + value / 16;
            (n as u16, n == 0, false)
        }
    }

    /// A shift or rotate through the operand value `v` (a byte).
    pub open spec fn shift_steps(self, ins: Instruction, raw: u16, rb: u8, c1: CPU, c2: CPU, c: CPU) -> bool {
        let value = (raw % 256) as u16;
        let (nv, z, cy) = CPU::shift_result(ins.mnemonic, value, self.registers.carry);
        let cf = c1.with_registers(Registers { zero: z, subtract: false, half_carry: false, carry: cy, ..c1.registers });
        &&& (if ins.total_operands == 1 {
            self.operand_read_to(ins.op0, false, raw, rb, c1)
        } else {
            c1 == self && raw == self.registers.a as u16
        })
        &&& (if ins.total_operands == 1 {
            cf.operand_write_to(ins.op0, nv, 1, false, c2)
        } else {
            c2 == cf.with_registers(cf.registers.after_set(Register::A, nv))
        })
        &&& c2.advance_to(self.registers.pc, ins.bytes, c)
    }

    /// A shift or rotate from this core to `c`.
    pub open spec fn shift_to(self, ins: Instruction, c: CPU) -> bool {
        exists|raw: u16, rb: u8, c1: CPU, c2: CPU| #[trigger] self.shift_steps(ins, raw, rb, c1, c2, c)
    }

    /// The bit BIT, RES and SET work on.
    pub open spec fn bit_index(op: Operand) -> u8 {
        match op {
            Operand::Bit(k) => if k < 8 { k } else { 7 },
            _ => 0,
        }
    }

    /// BIT, RES, SET through the operand value `v`.
    pub open spec fn bit_steps(self, ins: Instruction, v: u16, rb: u8, c1: CPU, c2: CPU, c: CPU) -> bool {
        let mask = (1u16 << CPU::bit_index(ins.op0) as u16) as u16;
        &&& self.operand_read_to(ins.op1, false, v, rb, c1)
        &&& if ins.mnemonic == Mnemonic::BIT {
            c2 == c1.with_registers(
                Registers { zero: v & mask == 0, subtract: false, half_carry: true, ..c1.registers },
            )
        } else if ins.mnemonic == Mnemonic::RES {
            c1.operand_write_to(ins.op1, v & !mask, rb, false, c2)
        } else {
            c1.operand_write_to(ins.op1, v | mask, rb, false, c2)
        }
        &&& c2.advance_to(self.registers.pc, ins.bytes, c)
    }

    /// BIT, RES, SET from this core to `c`.
    pub open spec fn bit_to(self, ins: Instruction, c: CPU) -> bool {
        exists|v: u16, rb: u8, c1: CPU, c2: CPU| #[trigger] self.bit_steps(ins, v, rb, c1, c2, c)
    }

    /// LD through the value read, the cores between and HL's move.
    pub open spec fn ld_steps(self, ins: Instruction, v: u16, rb: u8, c1: CPU, offset: u16, c2: CPU, c3: CPU, c4: CPU, c: CPU) -> bool {
        let value = if ins.total_operands == 3 { v.wrapping_add(offset) } else { v };
        let hl = c4.registers.value(Register::HL);
        let c5 = if ins.op0 == Operand::IndInc || ins.op1 == Operand::IndInc {
            c4.with_registers(c4.registers.after_set(Register::HL, hl.wrapping_add(1)))
        } else if ins.op0 == Operand::IndDec || ins.op1 == Operand::IndDec {
            c4.with_registers(c4.registers.after_set(Register::HL, hl.wrapping_sub(1)))
        } else {
            c4
        };
        &&& self.operand_read_to(ins.op1, false, v, rb, c1)
        &&& if ins.total_operands == 3 {
            &&& c1.e8_to(offset, c2)
            &&& c2.with_registers(
                Registers {
                    zero: false,
                    subtract: false,
                    half_carry: v % 16 + offset % 16 + 0 > 0xF,
                    carry: v % 256 + offset % 256 + 0 > 0xFF,
                    ..c2.registers
                },
            ).tick_to(4, c3)
        } else {
            &&& c2 == c1
            &&& c1.maybe_tick_to(ins.op0 == Operand::Reg(Register::SP) && ins.op1 is Reg, 4, c3)
        }
        &&& c3.operand_write_to(ins.op0, value, rb, false, c4)
        &&& c5.advance_to(self.registers.pc, ins.bytes, c)
    }

    /// LD from this core to `c`.
    pub open spec fn ld_to(self, ins: Instruction, c: CPU) -> bool {
        exists|v: u16, rb: u8, c1: CPU, o: u16, c2: CPU, c3: CPU, c4: CPU|
            #[trigger] self.ld_steps(ins, v, rb, c1, o, c2, c3, c4, c)
    }

    /// LDH through the value read.
    pub open spec fn ldh_steps(self, ins: Instruction, v: u16, rb: u8, c1: CPU, c2: CPU, c: CPU) -> bool {
        &&& self.operand_read_to(ins.op1, true, v, rb, c1)
        &&& c1.operand_write_to(ins.op0, v, rb, true, c2)
        &&& c2.advance_to(self.registers.pc, ins.bytes, c)
    }

    /// LDH from this core to `c`.
    pub open spec fn ldh_to(self, ins: Instruction, c: CPU) -> bool {
        exists|v: u16, rb: u8, c1: CPU, c2: CPU| #[trigger] self.ldh_steps(ins, v, rb, c1, c2, c)
    }
}

impl CPU {
    /// A core as it starts on `rom`: the model from the header's Color byte,
    /// the cartridge controller the header names, holding `rom`, the
    /// registers as the model's boot ROM leaves them, interrupts disabled
    /// and none requested but the boot ROM's, no DMA, not halted.
    pub open spec fn started(self, rom: Seq<u8>) -> bool {
        &&& self.memory_bus.wf()
        &&& self.memory_bus.model_type == (if rom[0x0143] == 0xC0 { ModelType::Color } else { ModelType::DMG })
        &&& self.memory_bus.mbc.family() == cartridge_family(rom[0x0147]).unwrap()
        &&& self.memory_bus.mbc.rom() == rom
        &&& self.memory_bus.if_flag == 0xE1 && self.memory_bus.ie_flag == 0
        &&& self.memory_bus.total_cycles == 0
        &&& self.memory_bus.dma == (DMA { active: false, init_delay: 0, pause: 0, byte: 0, source: 0 })
        &&& self.memory_bus.model_type == ModelType::DMG ==> self.registers == Registers::new_spec()
        &&& self.memory_bus.model_type == ModelType::Color ==> self.registers.a == 0x11 && self.registers.pc == 0x0100
            && self.registers.sp == 0xFFFE && self.registers.zero && !self.registers.carry
        &&& !self.ime && !self.pending_ime_set && !self.halted && !self.faulted
    }

    /// A core for `rom`: the registers as the model's boot ROM leaves them,
    /// interrupts disabled, not halted.
    pub fn new(rom: Vec<u8>) -> (r: Self)
        requires
            rom.len() > 0x0147,
            cartridge_family(rom@[0x0147]).is_some(),
        ensures
            r.started(rom@),
    {
        let memory_bus = MemoryBus::new(rom);
        let registers = Registers::for_model(memory_bus.model_type());
        CPU { registers, memory_bus, ime: false, pending_ime_set: false, halted: false, faulted: false }
    }

    /// Reads a byte through the bus (four cycles), or stops the core when
    /// the read cannot be made; a stopped core reads 0xFF and touches
    /// nothing.
    fn read8(&mut self, address: u16) -> (r: u8)
        requires
            old(self).memory_bus.wf(),
        ensures
            final(self).memory_bus.wf(),
            old(self).read8_to(address, r, *final(self)),
            old(self).faulted ==> final(self).faulted,
            final(self).same_core(*old(self)),
    {
        proof {
            reveal(CPU::read8_to);
        }
        if self.faulted || !self.memory_bus.can_read(address) {
            self.faulted = true;
            return 0xFF;
        }
        self.memory_bus.read(address)
    }

    /// Writes a byte through the bus (four cycles), or stops the core when
    /// the write cannot be made.
    fn write8(&mut self, address: u16, value: u8)
        requires
            old(self).memory_bus.wf(),
        ensures
            final(self).memory_bus.wf(),
            old(self).write8_to(address, value, *final(self)),
            old(self).faulted ==> final(self).faulted,
            final(self).same_core(*old(self)),
    {
        proof {
            reveal(CPU::write8_to);
        }
        if self.faulted || !self.memory_bus.can_write(address, value) {
            self.faulted = true;
            return;
        }
        self.memory_bus.write(address, value);
    }

    /// Runs the hardware for `cycles` cycles, or stops the core when it
    /// cannot.
    fn tick(&mut self, cycles: u8)
        requires
            old(self).memory_bus.wf(),
        ensures
            final(self).memory_bus.wf(),
            old(self).tick_to(cycles, *final(self)),
            old(self).faulted ==> final(self).faulted,
            final(self).same_core(*old(self)),
    {
        proof {
            reveal(CPU::tick_to);
        }
        if self.faulted || !self.memory_bus.can_tick(cycles) {
            self.faulted = true;
            return;
        }
        self.memory_bus.tick(cycles);
    }

    /// Moves PC past `instruction`, stopping the core if PC would run past
    /// 0xFFFF.
    fn advance_pc(&mut self, pc: u16, instruction: &Instruction)
        ensures
            old(self).advance_to(pc, instruction.bytes, *final(self)),
    {
        if pc > 0xFFFF - instruction.bytes as u16 {
            self.faulted = true;
            return;
        }
        self.registers.set(Register::PC, pc + instruction.bytes as u16);
    }

    /// The byte after the opcode.
    fn read_n8(&mut self) -> (r: u8)
        requires
            old(self).memory_bus.wf(),
        ensures
            final(self).memory_bus.wf(),
            old(self).n8_to(r, *final(self)),
            old(self).faulted ==> final(self).faulted,
            final(self).same_core(*old(self)),
    {
        let pc = self.registers.get(Register::PC);
        if pc == 0xFFFF {
            self.faulted = true;
            return 0xFF;
        }
        self.read8(pc + 1)
    }

    /// The little-endian word after the opcode.
    fn read_n16(&mut self) -> (r: u16)
        requires
            old(self).memory_bus.wf(),
        ensures
            final(self).memory_bus.wf(),
            old(self).n16_to(r, *final(self)),
            old(self).faulted ==> final(self).faulted,
            final(self).same_core(*old(self)),
    {
        proof {
            reveal(CPU::n16_to);
        }
        let pc = self.registers.get(Register::PC);
        if pc >= 0xFFFE {
            self.faulted = true;
            return 0xFFFF;
        }
        let ghost c0 = *self;
        let low8 = self.read8(pc + 1);
        let ghost c1 = *self;
        let high8 = self.read8(pc + 2);
        proof {
            assert(c0.n16_steps(low8, c1, high8, *self));
        }
        (high8 as u16) * 256 + low8 as u16
    }

    /// The signed byte after the opcode, sign-extended to 16 bits.
    fn read_e8(&mut self) -> (r: u16)
        requires
            old(self).memory_bus.wf(),
        ensures
            final(self).memory_bus.wf(),
            old(self).e8_to(r, *final(self)),
            old(self).faulted ==> final(self).faulted,
            final(self).same_core(*old(self)),
    {
        proof {
            reveal(CPU::e8_to);
        }
        let b = self.read_n8();
        if b < 0x80 {
            b as u16
        } else {
            0xFF00 + b as u16
        }
    }

    /// Whether a branch condition holds.
    fn is_condition_true(&self, operand: Operand) -> (r: bool)
        ensures
            operand matches Operand::Cond(c) ==> r == condition_holds(self.registers, c),
            !(operand is Cond) ==> !r,
    {
        match operand {
            Operand::Cond(Condition::NZ) => !self.registers.zero(),
            Operand::Cond(Condition::Z) => self.registers.zero(),
            Operand::Cond(Condition::NC) => !self.registers.carry(),
            Operand::Cond(Condition::C) => self.registers.carry(),
            _ => false,
        }
    }

    /// The value of an operand and its width in bytes; `high` maps
    /// addresses into 0xFF00..=0xFFFF (LDH).
    fn read_operand(&mut self, operand: Operand, high: bool) -> (r: (u16, u8))
        requires
            old(self).memory_bus.wf(),
        ensures
            final(self).memory_bus.wf(),
            old(self).operand_read_to(operand, high, r.0, r.1, *final(self)),
            old(self).faulted ==> final(self).faulted,
            final(self).same_core(*old(self)),
    {
        proof {
            reveal(CPU::operand_read_to);
        }
        match operand {
            Operand::Reg(reg) => (self.registers.get(reg), crate::registers::register_bytes(reg)),
            Operand::Ind(reg) => {
                let address = self.sanitize_address(self.registers.get(reg), high);
                (self.read8(address) as u16, 1)
            },
            Operand::IndInc | Operand::IndDec => {
                let address = self.sanitize_address(self.registers.get(Register::HL), high);
                (self.read8(address) as u16, 1)
            },
            Operand::A8 => {
                let n = self.read_n8() as u16;
                let address = self.sanitize_address(n, high);
                (self.read8(address) as u16, 1)
            },
            Operand::E8 => (self.read_e8(), 1),
            Operand::A16 => {
                let n = self.read_n16();
                let address = self.sanitize_address(n, high);
                (self.read8(address) as u16, 1)
            },
            Operand::N8 => {
                let n = self.read_n8() as u16;
                (self.sanitize_address(n, high), 1)
            },
            Operand::N16 => {
                let n = self.read_n16();
                (self.sanitize_address(n, high), 2)
            },
            _ => {
                self.faulted = true;
                (0, 1)
            },
        }
    }

    /// Stores `value` into an operand (`register_bytes` wide); an immediate
    /// operand cannot be written and stops the core.
    fn write_operand(&mut self, operand: Operand, value: u16, register_bytes: u8, high: bool)
        requires
            old(self).memory_bus.wf(),
        ensures
            final(self).memory_bus.wf(),
            old(self).operand_write_to(operand, value, register_bytes, high, *final(self)),
            old(self).faulted ==> final(self).faulted,
    {
        proof {
            reveal(CPU::operand_write_to);
            reveal(CPU::address_operand_to);
            reveal(CPU::store_to);
        }
        match operand {
            Operand::Reg(reg) => {
                self.registers.set(reg, value);
            },
            Operand::Ind(reg) => {
                let address = self.sanitize_address(self.registers.get(reg), high);
                self.write8(address, (value % 256) as u8);
            },
            Operand::IndInc | Operand::IndDec => {
                let address = self.sanitize_address(self.registers.get(Register::HL), high);
                self.write8(address, (value % 256) as u8);
            },
            Operand::A8 | Operand::A16 => {
                let ghost c0 = *self;
                let address = if operand == Operand::A8 {
                    self.read_n8() as u16
                } else {
                    self.read_n16()
                };
                let ghost m = *self;
                proof {
                    assert(c0.address_operand_to(operand, address, m));
                }
                let sanitized = self.sanitize_address(address, high);
                if register_bytes == 1 {
                    self.write8(sanitized, (value % 256) as u8);
                } else {
                    self.write8(sanitized, (value % 256) as u8);
                    let ghost m2 = *self;
                    if sanitized == 0xFFFF {
                        self.faulted = true;
                    } else {
                        self.write8(sanitized + 1, (value / 256) as u8);
                    }
                    proof {
                        assert(m.write8_to(sanitized, (value % 256) as u8, m2));
                    }
                }
                proof {
                    assert(m.store_to(sanitized, value, register_bytes, *self));
                }
            },
            _ => {
                self.faulted = true;
            },
        }
    }

    /// Pushes `value` (high byte first) and moves SP down by two.
    pub fn stack16(&mut self, value: u16)
        requires
            old(self).memory_bus.wf(),
        ensures
            final(self).memory_bus.wf(),
            old(self).push_to(value, *final(self)),
            old(self).faulted ==> final(self).faulted,
            final(self).ime == old(self).ime && final(self).pending_ime_set == old(self).pending_ime_set,
            final(self).halted == old(self).halted,
            !final(self).faulted ==> old(self).registers.sp >= 2 && final(self).registers
                == old(self).registers.after_set(Register::SP, (old(self).registers.sp - 2) as u16) && pushed(
                old(self).memory_bus,
                final(self).memory_bus,
                old(self).registers.sp,
                value,
            ),
    {
        proof {
            reveal(CPU::write8_to);
        }
        let ghost b0 = self.memory_bus;
        let sp = self.registers.get(Register::SP);
        if sp < 2 {
            self.faulted = true;
            return;
        }
        let ghost c0 = *self;
        self.write8(sp - 1, (value / 256) as u8);
        let ghost b1 = self.memory_bus;
        let ghost c1 = *self;
        self.write8(sp - 2, (value % 256) as u8);
        proof {
            if !self.faulted {
                assert(push_steps(b0, b1, self.memory_bus, sp, value));
            }
        }
        self.registers.set(Register::SP, sp - 2);
        assert(c0.write8_to((sp - 1) as u16, (value / 256) as u8, c1));
    }

    /// Pops a 16-bit value (low byte first) and moves SP up by two; SP at
    /// 0xFFFE or above stops the core.
    #[verifier::rlimit(40)]
    pub fn pop16(&mut self) -> (r: u16)
        requires
            old(self).memory_bus.wf(),
        ensures
            final(self).memory_bus.wf(),
            old(self).pop_to(r, *final(self)),
            old(self).faulted ==> final(self).faulted,
            final(self).ime == old(self).ime && final(self).pending_ime_set == old(self).pending_ime_set,
            final(self).halted == old(self).halted,
    {
        proof {
            reveal(CPU::read8_to);
        }
        let ghost b0 = self.memory_bus;
        let sp = self.registers.get(Register::SP);
        if sp >= 0xFFFE {
            self.faulted = true;
            return 0xFFFF;
        }
        let ghost c0 = *self;
        let low = self.read8(sp);
        let ghost c1 = *self;
        let high = self.read8(sp + 1);
        self.registers.set(Register::SP, sp + 2);
        assert(c0.pop_steps(low, c1, high, *self));
        (high as u16) * 256 + low as u16
    }

    /// Serves the highest-priority pending interrupt: IME is cleared, the
    /// interrupt's request bit is cleared, and after eight cycles the
    /// program counter is pushed and execution moves to the interrupt's
    /// vector (0x40, 0x48, 0x50, 0x58 or 0x60); four more cycles pass.
    pub fn interrupt(&mut self)
        requires
            old(self).memory_bus.wf(),
            !old(self).faulted,
        ensures
            final(self).memory_bus.wf(),
            old(self).interrupt_to(*final(self)),
            !final(self).ime,
            final(self).pending_ime_set == old(self).pending_ime_set,
            final(self).halted == old(self).halted,
            !final(self).faulted ==> ({
                let (mask, number) = interrupt_choice(
                    pending_interrupts(old(self).memory_bus.if_flag, old(self).memory_bus.ie_flag),
                );
                &&& final(self).registers == old(self).registers.after_set(
                    Register::SP,
                    (old(self).registers.sp - 2) as u16,
                ).after_set(Register::PC, (0x40 + number * 8) as u16)
                &&& interrupt_served(
                    old(self).memory_bus,
                    final(self).memory_bus,
                    mask,
                    old(self).registers.sp,
                    old(self).registers.pc,
                )
            }),
    {
        proof {
            reveal(CPU::tick_to);
        }
        let ghost b0 = self.memory_bus;
        self.ime = false;
        let pending = self.memory_bus.if_flag() & self.memory_bus.ie_flag() & 0x1F;
        let (interrupt_num, interrupt_bit): (u8, u8) = if pending & 0x01 != 0 {
            (0x01, 0)
        } else if pending & 0x02 != 0 {
            (0x02, 1)
        } else if pending & 0x04 != 0 {
            (0x04, 2)
        } else if pending & 0x08 != 0 {
            (0x08, 3)
        } else if pending & 0x10 != 0 {
            (0x10, 4)
        } else {
            (0x01, 0)
        };
        let flag = self.memory_bus.if_flag();
        self.memory_bus.set_if_flag(flag & !interrupt_num);
        let ghost c0 = *self;
        self.tick(8);
        let ghost b1 = self.memory_bus;
        let ghost c1 = *self;
        let pc = self.registers.get(Register::PC);
        self.stack16(pc);
        let ghost b2 = self.memory_bus;
        let ghost c2 = *self;
        self.registers.set(Register::PC, 0x0040 + (interrupt_bit as u16) * 8);
        self.tick(4);
        proof {
            if !self.faulted {
                let b3 = self.memory_bus;
                assert(serve_steps(b0, b1, b2, b3, interrupt_num, old(self).registers.sp, old(self).registers.pc));
            }
            let (mask, number) = interrupt_choice(
                pending_interrupts(old(self).memory_bus.if_flag, old(self).memory_bus.ie_flag),
            );
            assert(mask == interrupt_num && number == interrupt_bit);
            assert(c0 == (CPU {
                ime: false,
                memory_bus: MemoryBus { if_flag: old(self).memory_bus.if_flag & !mask, ..old(self).memory_bus },
                ..*old(self)
            }));
            assert(old(self).serve_core_steps(c1, c2, *self));
        }
    }
}

/// Decimal adjustment of A after a BCD addition or subtraction: the
/// correction (0x06 for the low digit, 0x60 for the high one) is chosen
/// from the flags and, after an addition, from the digits of A; returns the
/// adjusted A and the new carry.
pub open spec fn daa_result(a: u8, subtract: bool, half_carry: bool, carry: bool) -> (u8, bool) {
    if !subtract {
        let low: u8 = if half_carry || a % 16 > 9 { 0x06 } else { 0 };
        let c = carry || a > 0x99;
        let adjust: u8 = (low + if c { 0x60u8 } else { 0u8 }) as u8;
        (a.wrapping_add(adjust), c)
    } else {
        let adjust: u8 = ((if half_carry { 0x06u8 } else { 0u8 }) + (if carry { 0x60u8 } else { 0u8 })) as u8;
        (a.wrapping_sub(adjust), carry)
    }
}

impl CPU {
    /// The registers with PC moved past an instruction of `bytes` bytes.
    pub open spec fn advanced(self, bytes: u8) -> Registers {
        Registers { pc: (self.registers.pc + bytes) as u16, ..self.registers }
    }

    /// DAA: decimal-adjusts A (see `daa_result`); Z follows the result, H
    /// is cleared, C is the adjusted carry, N is kept.
    pub fn daa(&mut self, instruction: &Instruction)
        requires
            old(self).registers.pc + instruction.bytes <= 0xFFFF,
        ensures
            ({
                let r = old(self).registers;
                let (a, c) = daa_result(r.a, r.subtract, r.half_carry, r.carry);
                final(self).registers == (Registers {
                    a,
                    zero: a == 0,
                    half_carry: false,
                    carry: c,
                    ..old(self).advanced(instruction.bytes)
                })
            }),
            final(self).memory_bus == old(self).memory_bus && final(self).faulted == old(self).faulted,
            final(self).ime == old(self).ime && final(self).pending_ime_set == old(self).pending_ime_set,
            final(self).halted == old(self).halted,
    {
        let mut a = self.registers.get(Register::A) as u8;
        let mut adjust: u8 = 0;
        let mut carry = self.registers.carry();
        proof {
            crate::bits::lemma_byte_fields();
            assert((0u8 | 0x06u8) == 0x06u8 && (0u8 | 0x60u8) == 0x60u8 && (0x06u8 | 0x60u8) == 0x66u8) by (bit_vector);
        }
        if !self.registers.subtract() {
            if self.registers.half_carry() || (a & 0x0F) > 0x9 {
                adjust |= 0x06;
            }
            if carry || a > 0x99 {
                adjust |= 0x60;
                carry = true;
            }
            a = a.wrapping_add(adjust);
        } else {
            if self.registers.half_carry() {
                adjust |= 0x06;
            }
            if carry {
                adjust |= 0x60;
            }
            a = a.wrapping_sub(adjust);
        }
        self.registers.set_zero(a == 0);
        self.registers.set_half_carry(false);
        self.registers.set_carry(carry);
        self.registers.set(Register::A, a as u16);
        let pc = self.registers.get(Register::PC);
        self.registers.set(Register::PC, pc + instruction.bytes as u16);
    }

    /// HALT: the core stops until an interrupt is pending.
    pub fn halt(&mut self, instruction: &Instruction)
        requires
            old(self).registers.pc + instruction.bytes <= 0xFFFF,
        ensures
            final(self).registers == old(self).advanced(instruction.bytes),
            final(self).halted,
            final(self).memory_bus == old(self).memory_bus && final(self).faulted == old(self).faulted,
            final(self).ime == old(self).ime && final(self).pending_ime_set == old(self).pending_ime_set,
    {
        self.halted = true;
        let pc = self.registers.get(Register::PC);
        self.registers.set(Register::PC, pc + instruction.bytes as u16);
    }

    /// CPL: complements A; sets N and H.
    pub fn cpl(&mut self, instruction: &Instruction)
        requires
            old(self).registers.pc + instruction.bytes <= 0xFFFF,
        ensures
            final(self).registers == (Registers {
                a: (255 - old(self).registers.a) as u8,
                subtract: true,
                half_carry: true,
                ..old(self).advanced(instruction.bytes)
            }),
            final(self).memory_bus == old(self).memory_bus && final(self).faulted == old(self).faulted,
            final(self).ime == old(self).ime && final(self).pending_ime_set == old(self).pending_ime_set,
            final(self).halted == old(self).halted,
    {
        let pc = self.registers.get(Register::PC);
        let a = self.registers.get(Register::A);
        proof {
            assert(!a == 0xFFFF - a) by (bit_vector);
        }
        self.registers.set(Register::A, !a);
        self.registers.set(Register::PC, pc + instruction.bytes as u16);
        self.registers.set_subtract(true);
        self.registers.set_half_carry(true);
    }

    /// SCF: sets the carry; clears N and H.
    pub fn scf(&mut self, instruction: &Instruction)
        requires
            old(self).registers.pc + instruction.bytes <= 0xFFFF,
        ensures
            final(self).registers == (Registers {
                subtract: false,
                half_carry: false,
                carry: true,
                ..old(self).advanced(instruction.bytes)
            }),
            final(self).memory_bus == old(self).memory_bus && final(self).faulted == old(self).faulted,
            final(self).ime == old(self).ime && final(self).pending_ime_set == old(self).pending_ime_set,
            final(self).halted == old(self).halted,
    {
        let pc = self.registers.get(Register::PC);
        self.registers.set_subtract(false);
        self.registers.set_half_carry(false);
        self.registers.set_carry(true);
        self.registers.set(Register::PC, pc + instruction.bytes as u16);
    }

    /// CCF: complements the carry; clears N and H.
    pub fn ccf(&mut self, instruction: &Instruction)
        requires
            old(self).registers.pc + instruction.bytes <= 0xFFFF,
        ensures
            final(self).registers == (Registers {
                subtract: false,
                half_carry: false,
                carry: !old(self).registers.carry,
                ..old(self).advanced(instruction.bytes)
            }),
            final(self).memory_bus == old(self).memory_bus && final(self).faulted == old(self).faulted,
            final(self).ime == old(self).ime && final(self).pending_ime_set == old(self).pending_ime_set,
            final(self).halted == old(self).halted,
    {
        let pc = self.registers.get(Register::PC);
        self.registers.set_subtract(false);
        self.registers.set_half_carry(false);
        let c = self.registers.carry();
        self.registers.set_carry(!c);
        self.registers.set(Register::PC, pc + instruction.bytes as u16);
    }

    /// DI: interrupts are disabled at once, cancelling a pending EI.
    pub fn di(&mut self, instruction: &Instruction)
        requires
            old(self).registers.pc + instruction.bytes <= 0xFFFF,
        ensures
            final(self).registers == old(self).advanced(instruction.bytes),
            !final(self).ime && !final(self).pending_ime_set,
            final(self).memory_bus == old(self).memory_bus && final(self).faulted == old(self).faulted,
            final(self).halted == old(self).halted,
    {
        self.ime = false;
        self.pending_ime_set = false;
        let pc = self.registers.get(Register::PC);
        self.registers.set(Register::PC, pc + instruction.bytes as u16);
    }

    /// EI: interrupts are enabled after the next instruction.
    pub fn ei(&mut self, instruction: &Instruction)
        requires
            old(self).registers.pc + instruction.bytes <= 0xFFFF,
        ensures
            final(self).registers == old(self).advanced(instruction.bytes),
            final(self).pending_ime_set,
            final(self).ime == old(self).ime,
            final(self).memory_bus == old(self).memory_bus && final(self).faulted == old(self).faulted,
            final(self).halted == old(self).halted,
    {
        self.pending_ime_set = true;
        let pc = self.registers.get(Register::PC);
        self.registers.set(Register::PC, pc + instruction.bytes as u16);
    }

    /// NOP: only PC moves on.
    pub fn noop(&mut self, instruction: &Instruction)
        requires
            old(self).registers.pc + instruction.bytes <= 0xFFFF,
        ensures
            final(self).registers == old(self).advanced(instruction.bytes),
            final(self).memory_bus == old(self).memory_bus && final(self).faulted == old(self).faulted,
            final(self).ime == old(self).ime && final(self).pending_ime_set == old(self).pending_ime_set,
            final(self).halted == old(self).halted,
    {
        let pc = self.registers.get(Register::PC);
        self.registers.set(Register::PC, pc + instruction.bytes as u16);
    }
}


/// What a pop gives back of a push: after `value` is pushed below `sp`, the
/// two bytes below `sp` hold it, low byte at `sp - 2` and high byte at
/// `sp - 1`, so a pop from `sp - 2` gives `value` back.
pub proof fn lemma_push_then_pop(b0: MemoryBus, b2: MemoryBus, sp: u16, value: u16)
    requires
        b0.wf(),
        sp >= 2,
        stack_address((sp - 1) as u16),
        stack_address((sp - 2) as u16),
        pushed(b0, b2, sp, value),
    ensures
        b2.stack_value((sp - 2) as u16) + 256 * b2.stack_value((sp - 1) as u16) == value,
{
    let b1 = choose|b1: MemoryBus| #[trigger] push_steps(b0, b1, b2, sp, value);
    b0.lemma_stack_write_effect(b1, (sp - 1) as u16, (value / 256) as u8, (sp - 2) as u16);
    b1.lemma_stack_write_effect(b2, (sp - 2) as u16, (value % 256) as u8, (sp - 1) as u16);
}


impl CPU {
    /// The address an LDH-style access reaches: 0xFF00 plus the low byte
    /// when `high` is set, the address itself otherwise.
    pub fn sanitize_address(&self, address: u16, high: bool) -> (r: u16)
        ensures
            r == if high { 0xFF00 + address % 256 } else { address as int },
    {
        if high {
            assert(0xFF00u16 | (address & 0x00FFu16) == 0xFF00 + address % 256) by (bit_vector);
            0xFF00 | (address & 0x00FF)
        } else {
            address
        }
    }

    /// H after an 8-bit addition of `offset` and `carry` to `old_value`:
    /// a carry out of the low nibble.
    pub fn set_add8_half_carry_flag(&mut self, old_value: u16, offset: u16, carry: u16)
        ensures
            final(self).registers == (Registers {
                half_carry: old_value % 16 + offset % 16 + carry % 16 > 0xF,
                ..old(self).registers
            }),
            final(self).memory_bus == old(self).memory_bus && final(self).faulted == old(self).faulted,
            final(self).ime == old(self).ime && final(self).pending_ime_set == old(self).pending_ime_set,
            final(self).halted == old(self).halted,
    {
        proof {
            assert(old_value & 0xF == old_value % 16 && offset & 0xF == offset % 16 && carry & 0xF == carry % 16) by (bit_vector);
        }
        self.registers.set_half_carry((old_value & 0xF) + (offset & 0xF) + (carry & 0xF) > 0xF);
    }

    /// C after an 8-bit addition: a carry out of the low byte.
    pub fn set_add8_carry_flag(&mut self, old_value: u16, offset: u16, carry: u16)
        ensures
            final(self).registers == (Registers {
                carry: old_value % 256 + offset % 256 + carry % 256 > 0xFF,
                ..old(self).registers
            }),
            final(self).memory_bus == old(self).memory_bus && final(self).faulted == old(self).faulted,
            final(self).ime == old(self).ime && final(self).pending_ime_set == old(self).pending_ime_set,
            final(self).halted == old(self).halted,
    {
        proof {
            crate::bits::lemma_word_fields();
        }
        self.registers.set_carry((old_value & 0xFF) + (offset & 0xFF) + (carry & 0xFF) > 0xFF);
    }

    /// H after an 8-bit subtraction of `offset` and `carry`: a borrow from
    /// the high nibble.
    pub fn set_sub8_half_carry_flag(&mut self, old_value: u16, offset: u16, carry: u16)
        ensures
            final(self).registers == (Registers {
                half_carry: old_value % 16 < offset % 16 + carry % 16,
                ..old(self).registers
            }),
            final(self).memory_bus == old(self).memory_bus && final(self).faulted == old(self).faulted,
            final(self).ime == old(self).ime && final(self).pending_ime_set == old(self).pending_ime_set,
            final(self).halted == old(self).halted,
    {
        proof {
            assert(old_value & 0xF == old_value % 16 && offset & 0xF == offset % 16 && carry & 0xF == carry % 16) by (bit_vector);
        }
        self.registers.set_half_carry((old_value & 0xF) < (offset & 0xF) + (carry & 0xF));
    }

    /// C after an 8-bit subtraction: a borrow out of the low byte.
    pub fn set_sub8_carry_flag(&mut self, old_value: u16, offset: u16, carry: u16)
        ensures
            final(self).registers == (Registers {
                carry: old_value % 256 < offset % 256 + carry % 256,
                ..old(self).registers
            }),
            final(self).memory_bus == old(self).memory_bus && final(self).faulted == old(self).faulted,
            final(self).ime == old(self).ime && final(self).pending_ime_set == old(self).pending_ime_set,
            final(self).halted == old(self).halted,
    {
        proof {
            crate::bits::lemma_word_fields();
        }
        self.registers.set_carry((old_value & 0xFF) < (offset & 0xFF) + (carry & 0xFF));
    }

    /// H after a 16-bit addition: a carry out of bit 11.
    pub fn set_add16_half_carry_flag(&mut self, old_value: u16, offset: u16)
        ensures
            final(self).registers == (Registers {
                half_carry: old_value % 4096 + offset % 4096 > 0x0FFF,
                ..old(self).registers
            }),
            final(self).memory_bus == old(self).memory_bus && final(self).faulted == old(self).faulted,
            final(self).ime == old(self).ime && final(self).pending_ime_set == old(self).pending_ime_set,
            final(self).halted == old(self).halted,
    {
        assert(old_value & 0x0FFF == old_value % 4096 && offset & 0x0FFF == offset % 4096) by (bit_vector);
        self.registers.set_half_carry((old_value & 0x0FFF) + (offset & 0x0FFF) > 0x0FFF);
    }

    /// C after a 16-bit addition: a carry out of bit 15.
    pub fn set_add16_carry_flag(&mut self, old_value: u16, offset: u16)
        ensures
            final(self).registers == (Registers { carry: old_value + offset > 0xFFFF, ..old(self).registers }),
            final(self).memory_bus == old(self).memory_bus && final(self).faulted == old(self).faulted,
            final(self).ime == old(self).ime && final(self).pending_ime_set == old(self).pending_ime_set,
            final(self).halted == old(self).halted,
    {
        self.registers.set_carry(old_value.checked_add(offset).is_none());
    }
}


impl CPU {
    /// Z after an 8-bit addition: the low byte of the sum is zero.
    pub fn set_add8_zero_flag(&mut self, old_value: u16, offset: u16, carry: u16)
        ensures
            final(self).registers == (Registers {
                zero: (old_value + offset + carry) % 256 == 0,
                ..old(self).registers
            }),
            final(self).memory_bus == old(self).memory_bus && final(self).faulted == old(self).faulted,
            final(self).ime == old(self).ime && final(self).pending_ime_set == old(self).pending_ime_set,
            final(self).halted == old(self).halted,
    {
        let sum = old_value.wrapping_add(offset).wrapping_add(carry);
        proof {
            crate::bits::lemma_word_fields();
            assert(sum == (old_value + offset + carry) % 65536);
            assert(((old_value + offset + carry) % 65536) % 256 == (old_value + offset + carry) % 256) by {
                vstd::arithmetic::div_mod::lemma_mod_mod((old_value + offset + carry) as int, 256, 256);
            }
        }
        self.registers.set_zero(sum & 0xFF == 0);
    }

    /// Z after an 8-bit subtraction: the low byte of the difference is zero.
    pub fn set_sub8_zero_flag(&mut self, old_value: u16, offset: u16, carry: u16)
        ensures
            final(self).registers == (Registers {
                zero: (old_value - offset - carry) % 256 == 0,
                ..old(self).registers
            }),
            final(self).memory_bus == old(self).memory_bus && final(self).faulted == old(self).faulted,
            final(self).ime == old(self).ime && final(self).pending_ime_set == old(self).pending_ime_set,
            final(self).halted == old(self).halted,
    {
        let diff = old_value.wrapping_sub(offset).wrapping_sub(carry);
        proof {
            crate::bits::lemma_word_fields();
            assert(diff == (old_value - offset - carry) % 65536);
            assert(((old_value - offset - carry) % 65536) % 256 == (old_value - offset - carry) % 256) by {
                vstd::arithmetic::div_mod::lemma_mod_mod((old_value - offset - carry) as int, 256, 256);
            }
        }
        self.registers.set_zero(diff & 0xFF == 0);
    }

    /// JP: to an immediate address (optionally on a condition) or to HL.
    fn jp(&mut self, instruction: &Instruction)
        requires
            old(self).memory_bus.wf(),
        ensures
            final(self).memory_bus.wf(),
            old(self).jp_to(*instruction, *final(self)),
    {
        let ghost c0 = *self;
        let pc = self.registers.get(Register::PC);
        if instruction.total_operands == 2 {
            let address = self.read_n16();
            let ghost c1 = *self;
            if !self.is_condition_true(instruction.op0) {
                self.advance_pc(pc, instruction);
                assert(c0.jp_steps(*instruction, address, c1, *self));
                return;
            }
            self.registers.set(Register::PC, address);
            self.tick(4);
            assert(c0.jp_steps(*instruction, address, c1, *self));
            return;
        }
        match instruction.op0 {
            Operand::Reg(register) => {
                let target = self.registers.get(register);
                self.registers.set(Register::PC, target);
                assert(c0.jp_steps(*instruction, target, c0, *self));
            },
            _ => {
                let target = self.read_n16();
                let ghost c1 = *self;
                self.registers.set(Register::PC, target);
                self.tick(4);
                assert(c0.jp_steps(*instruction, target, c1, *self));
            },
        }
    }

    /// CALL: pushes the address after the instruction and jumps
    /// (optionally on a condition).
    fn call(&mut self, instruction: &Instruction)
        requires
            old(self).memory_bus.wf(),
        ensures
            final(self).memory_bus.wf(),
            old(self).call_to(*instruction, *final(self)),
    {
        let ghost c0 = *self;
        let pc = self.registers.get(Register::PC);
        let address = self.read_n16();
        let ghost c1 = *self;
        if instruction.total_operands == 2 {
            if !self.is_condition_true(instruction.op0) {
                self.advance_pc(pc, instruction);
                assert(c0.call_steps(*instruction, address, c1, c1, *self));
                return;
            }
        }
        if pc > 0xFFFF - instruction.bytes as u16 {
            self.faulted = true;
            assert(c0.call_steps(*instruction, address, c1, c1, *self));
            return;
        }
        self.stack16(pc + instruction.bytes as u16);
        let ghost c2 = *self;
        self.registers.set(Register::PC, address);
        self.tick(4);
        assert(c0.call_steps(*instruction, address, c1, c2, *self));
    }

    /// RST: pushes the address after the instruction and jumps to the
    /// vector the opcode names.
    fn rst(&mut self, instruction: &Instruction)
        requires
            old(self).memory_bus.wf(),
        ensures
            final(self).memory_bus.wf(),
            old(self).rst_to(*instruction, *final(self)),
    {
        let ghost c0 = *self;
        let pc = self.registers.get(Register::PC);
        if pc > 0xFFFF - instruction.bytes as u16 {
            self.faulted = true;
            assert(c0.rst_steps(*instruction, c0, 0, c0, *self));
            return;
        }
        self.stack16(pc + instruction.bytes as u16);
        let ghost c1 = *self;
        let opcode = self.read8(pc);
        let ghost c2 = *self;
        if opcode < 0xC7 {
            self.faulted = true;
            assert(c0.rst_steps(*instruction, c1, opcode, c2, *self));
            return;
        }
        self.registers.set(Register::PC, (opcode - 0xC7) as u16);
        assert(c0.rst_steps(*instruction, c1, opcode, c2, *self));
    }

    /// JR: a relative jump (optionally on a condition).
    fn jr(&mut self, instruction: &Instruction)
        requires
            old(self).memory_bus.wf(),
        ensures
            final(self).memory_bus.wf(),
            old(self).jr_to(*instruction, *final(self)),
    {
        let ghost c0 = *self;
        let pc = self.registers.get(Register::PC);
        let offset = self.read_e8();
        let ghost c1 = *self;
        if instruction.total_operands == 2 {
            if !self.is_condition_true(instruction.op0) {
                self.advance_pc(pc, instruction);
                assert(c0.jr_steps(*instruction, offset, c1, *self));
                return;
            }
        }
        self.registers.set(Register::PC, pc.wrapping_add(instruction.bytes as u16).wrapping_add(offset));
        self.tick(4);
        assert(c0.jr_steps(*instruction, offset, c1, *self));
    }

    /// LD: copies the second operand into the first; LD HL,SP+e8 adds the
    /// signed offset; HL moves on or back for (HL+) and (HL-).
    fn ld(&mut self, instruction: &Instruction)
        requires
            old(self).memory_bus.wf(),
        ensures
            final(self).memory_bus.wf(),
            old(self).ld_to(*instruction, *final(self)),
    {
        let ghost c0 = *self;
        let pc = self.registers.get(Register::PC);
        let (v, register_bytes) = self.read_operand(instruction.op1, false);
        let ghost c1 = *self;
        let ghost mut c2 = c1;
        let mut value = v;
        let mut offset: u16 = 0;
        if instruction.total_operands == 3 {
            offset = self.read_e8();
            proof {
                c2 = *self;
            }
            self.registers.set_zero(false);
            self.registers.set_subtract(false);
            self.set_add8_half_carry_flag(value, offset, 0);
            self.set_add8_carry_flag(value, offset, 0);
            value = value.wrapping_add(offset);
            self.tick(4);
        } else if instruction.op0 == Operand::Reg(Register::SP) && (instruction.op1 matches Operand::Reg(_)) {
            self.tick(4);
        }
        let ghost c3 = *self;
        self.write_operand(instruction.op0, value, register_bytes, false);
        let ghost c4 = *self;
        if instruction.op0 == Operand::IndInc || instruction.op1 == Operand::IndInc {
            let hl = self.registers.get(Register::HL);
            self.registers.set(Register::HL, hl.wrapping_add(1));
        } else if instruction.op0 == Operand::IndDec || instruction.op1 == Operand::IndDec {
            let hl = self.registers.get(Register::HL);
            self.registers.set(Register::HL, hl.wrapping_sub(1));
        }
        self.advance_pc(pc, instruction);
        assert(c0.ld_steps(*instruction, v, register_bytes, c1, offset, c2, c3, c4, *self));
    }

    /// LDH: LD with addresses in 0xFF00..=0xFFFF.
    fn ldh(&mut self, instruction: &Instruction)
        requires
            old(self).memory_bus.wf(),
        ensures
            final(self).memory_bus.wf(),
            old(self).ldh_to(*instruction, *final(self)),
    {
        let ghost c0 = *self;
        let pc = self.registers.get(Register::PC);
        let (value, register_bytes) = self.read_operand(instruction.op1, true);
        let ghost c1 = *self;
        self.write_operand(instruction.op0, value, register_bytes, true);
        let ghost c2 = *self;
        self.advance_pc(pc, instruction);
        assert(c0.ldh_steps(*instruction, value, register_bytes, c1, c2, *self));
    }

    /// Whether an operand is a 16-bit register pair or SP.
    fn is_wide_register(operand: Operand) -> (r: bool)
        ensures
            r == CPU::wide_register(operand),
    {
        match operand {
            Operand::Reg(Register::AF) | Operand::Reg(Register::BC) | Operand::Reg(Register::DE) | Operand::Reg(
                Register::HL,
            ) | Operand::Reg(Register::SP) => true,
            _ => false,
        }
    }

    /// INC (`up`) or DEC: adds or subtracts one; 8-bit operands set Z, N
    /// (for DEC) and H from the low nibble; C is kept.
    /// INC: adds one; 8-bit operands set Z, clear N and set H from the low
    /// nibble; C is kept.
    #[verifier::rlimit(100)]
    fn inc(&mut self, instruction: &Instruction)
        requires
            old(self).memory_bus.wf(),
        ensures
            final(self).memory_bus.wf(),
            old(self).step_to(*instruction, true, *final(self)),
    {
        let ghost c0 = *self;
        let pc = self.registers.get(Register::PC);
        let (value, register_bytes) = self.read_operand(instruction.op0, false);
        let ghost c1 = *self;
        let new_value = value.wrapping_add(1);
        if register_bytes == 1 {
            self.set_add8_zero_flag(value, 1, 0);
            self.registers.set_subtract(false);
            self.set_add8_half_carry_flag(value, 1, 0);
        }
        if Self::is_wide_register(instruction.op0) {
            self.tick(4);
        }
        let ghost c3 = *self;
        self.write_operand(instruction.op0, new_value, register_bytes, false);
        let ghost c4 = *self;
        self.advance_pc(pc, instruction);
        assert(c0.step_steps(*instruction, true, value, register_bytes, c1, c3, c4, *self));
    }

    /// DEC: subtracts one; 8-bit operands set Z, set N and set H from the
    /// low nibble; C is kept.
    #[verifier::rlimit(100)]
    fn dec(&mut self, instruction: &Instruction)
        requires
            old(self).memory_bus.wf(),
        ensures
            final(self).memory_bus.wf(),
            old(self).step_to(*instruction, false, *final(self)),
    {
        let ghost c0 = *self;
        let pc = self.registers.get(Register::PC);
        let (value, register_bytes) = self.read_operand(instruction.op0, false);
        let ghost c1 = *self;
        let new_value = value.wrapping_sub(1);
        if register_bytes == 1 {
            self.set_sub8_zero_flag(value, 1, 0);
            self.registers.set_subtract(true);
            self.set_sub8_half_carry_flag(value, 1, 0);
        }
        if Self::is_wide_register(instruction.op0) {
            self.tick(4);
        }
        let ghost c3 = *self;
        self.write_operand(instruction.op0, new_value, register_bytes, false);
        let ghost c4 = *self;
        self.advance_pc(pc, instruction);
        assert(c0.step_steps(*instruction, false, value, register_bytes, c1, c3, c4, *self));
    }

    /// PUSH: four cycles, then the register pair goes on the stack.
    fn push(&mut self, instruction: &Instruction)
        requires
            old(self).memory_bus.wf(),
        ensures
            final(self).memory_bus.wf(),
            old(self).push_op_to(*instruction, *final(self)),
    {
        let ghost c0 = *self;
        let pc = self.registers.get(Register::PC);
        match instruction.op0 {
            Operand::Reg(register) => {
                self.tick(4);
                let ghost c1 = *self;
                let value = self.registers.get(register);
                self.stack16(value);
                let ghost c2 = *self;
                self.advance_pc(pc, instruction);
                assert(c0.tick_to(4, c1) && c1.push_to(c0.registers.value(register), c2));
            },
            _ => {
                self.faulted = true;
            },
        }
    }

    /// POP: the register pair comes off the stack.
    fn pop(&mut self, instruction: &Instruction)
        requires
            old(self).memory_bus.wf(),
        ensures
            final(self).memory_bus.wf(),
            old(self).pop_op_to(*instruction, *final(self)),
    {
        let ghost c0 = *self;
        let pc = self.registers.get(Register::PC);
        match instruction.op0 {
            Operand::Reg(register) => {
                let value = self.pop16();
                let ghost c1 = *self;
                self.registers.set(register, value);
                self.advance_pc(pc, instruction);
                assert(c0.pop_to(value, c1));
            },
            _ => {
                self.faulted = true;
            },
        }
    }

    /// RET: returns (optionally on a condition, which takes four cycles to
    /// test).
    fn ret(&mut self, instruction: &Instruction)
        requires
            old(self).memory_bus.wf(),
        ensures
            final(self).memory_bus.wf(),
            old(self).ret_to(*instruction, *final(self)),
    {
        let ghost c0 = *self;
        let pc = self.registers.get(Register::PC);
        if instruction.total_operands == 1 {
            self.tick(4);
            if !self.is_condition_true(instruction.op0) {
                let ghost c1 = *self;
                self.advance_pc(pc, instruction);
                assert(c0.ret_steps(*instruction, c1, 0, c1, *self));
                return;
            }
        }
        let ghost c1 = *self;
        let value = self.pop16();
        let ghost c2 = *self;
        self.registers.set(Register::PC, value);
        self.tick(4);
        assert(c0.ret_steps(*instruction, c1, value, c2, *self));
    }

    /// RETI: returns and enables interrupts after this instruction.
    fn reti(&mut self)
        requires
            old(self).memory_bus.wf(),
        ensures
            final(self).memory_bus.wf(),
            old(self).reti_to(*final(self)),
    {
        let ghost c0 = *self;
        let value = self.pop16();
        let ghost c1 = *self;
        self.registers.set(Register::PC, value);
        self.pending_ime_set = true;
        self.tick(4);
        assert(c0.pop_to(value, c1));
    }

    /// OR, AND, XOR: the logical operation into A; Z from the result, N and
    /// C cleared, H set only for AND.
    fn logic(&mut self, instruction: &Instruction)
        requires
            old(self).memory_bus.wf(),
        ensures
            final(self).memory_bus.wf(),
            old(self).logic_to(*instruction, *final(self)),
    {
        let ghost c0 = *self;
        let pc = self.registers.get(Register::PC);
        let value1 = self.registers.get(Register::A);
        let (value2, rb) = self.read_operand(instruction.op1, false);
        let ghost c1 = *self;
        let new_value = if instruction.mnemonic == Mnemonic::AND {
            value1 & value2
        } else if instruction.mnemonic == Mnemonic::XOR {
            value1 ^ value2
        } else {
            value1 | value2
        };
        self.registers.set(Register::A, new_value);
        self.advance_pc(pc, instruction);
        let ghost c3 = *self;
        let a = self.registers.get(Register::A);
        self.registers.set_zero(a == 0);
        self.registers.set_subtract(false);
        self.registers.set_half_carry(instruction.mnemonic == Mnemonic::AND);
        self.registers.set_carry(false);
        assert(c0.logic_steps(*instruction, value2, rb, c1, c3, *self));
    }

    /// ADD: 8-bit into A (Z, H, C from the sum), 16-bit into HL (H and C
    /// from bits 11 and 15, Z kept) or a signed byte into SP (Z cleared, H
    /// and C from the low byte).
    #[verifier::rlimit(100)]
    fn add(&mut self, instruction: &Instruction)
        requires
            old(self).memory_bus.wf(),
        ensures
            final(self).memory_bus.wf(),
            old(self).add_to(*instruction, *final(self)),
    {
        let ghost c0 = *self;
        let pc = self.registers.get(Register::PC);
        let (value1, b1) = self.read_operand(instruction.op0, false);
        let ghost c1 = *self;
        let (value2, register_bytes) = self.read_operand(instruction.op1, false);
        let ghost c2 = *self;
        let new_value = value1.wrapping_add(value2);
        self.registers.set_subtract(false);
        if register_bytes == 1 {
            if instruction.op1 != Operand::E8 {
                self.set_add8_zero_flag(value1, value2, 0);
            } else {
                self.registers.set_zero(false);
            }
            self.set_add8_half_carry_flag(value1, value2, 0);
            self.set_add8_carry_flag(value1, value2, 0);
        } else {
            self.set_add16_half_carry_flag(value1, value2);
            self.set_add16_carry_flag(value1, value2);
        }
        if instruction.op0 == Operand::Reg(Register::SP) {
            self.tick(8);
        } else if Self::is_wide_register(instruction.op0) {
            self.tick(4);
        }
        let ghost c3 = *self;
        self.write_operand(instruction.op0, new_value, register_bytes, false);
        let ghost c4 = *self;
        self.advance_pc(pc, instruction);
        assert(c0.add_steps(*instruction, value1, b1, c1, value2, register_bytes, c2, c3, c4, *self));
    }

    /// ADC, SUB, SBC, CP: 8-bit arithmetic on A with the carry in (ADC,
    /// SBC); CP only sets the flags.
    #[verifier::rlimit(100)]
    fn arith(&mut self, instruction: &Instruction)
        requires
            old(self).memory_bus.wf(),
        ensures
            final(self).memory_bus.wf(),
            old(self).arith_to(*instruction, *final(self)),
    {
        let ghost c0 = *self;
        let pc = self.registers.get(Register::PC);
        let (value1, b1) = self.read_operand(instruction.op0, false);
        let ghost c1 = *self;
        let (value2, b2) = self.read_operand(instruction.op1, false);
        let ghost c2 = *self;
        let m = instruction.mnemonic;
        let carry: u16 = if (m == Mnemonic::ADC || m == Mnemonic::SBC) && self.registers.carry() { 1 } else { 0 };
        if m == Mnemonic::ADC {
            let new_value = value1.wrapping_add(value2).wrapping_add(carry);
            self.set_add8_zero_flag(value1, value2, carry);
            self.registers.set_subtract(false);
            self.set_add8_half_carry_flag(value1, value2, carry);
            self.set_add8_carry_flag(value1, value2, carry);
            self.write_operand(instruction.op0, new_value, 1, false);
        } else {
            let new_value = value1.wrapping_sub(value2).wrapping_sub(carry);
            self.set_sub8_zero_flag(value1, value2, carry);
            self.registers.set_subtract(true);
            self.set_sub8_half_carry_flag(value1, value2, carry);
            self.set_sub8_carry_flag(value1, value2, carry);
            if m != Mnemonic::CP {
                self.write_operand(instruction.op0, new_value, 1, false);
            }
        }
        let ghost c3 = *self;
        self.advance_pc(pc, instruction);
        assert(c0.arith_steps(*instruction, value1, b1, c1, value2, b2, c2, c3, *self));
    }

    /// The shifts and rotates: RLC, RRC, RL, RR (and their A-only forms,
    /// which always clear Z), SLA, SRA, SRL and SWAP.
    #[verifier::rlimit(100)]
    fn shift(&mut self, instruction: &Instruction)
        requires
            old(self).memory_bus.wf(),
        ensures
            final(self).memory_bus.wf(),
            old(self).shift_to(*instruction, *final(self)),
    {
        let ghost c0 = *self;
        let pc = self.registers.get(Register::PC);
        let m = instruction.mnemonic;
        let (raw, rb) = if instruction.total_operands == 1 {
            self.read_operand(instruction.op0, false)
        } else {
            (self.registers.get(Register::A), 1)
        };
        let ghost c1 = *self;
        let value = raw % 256;
        let carry_in = self.registers.carry();
        let (new_value, zero, carry): (u16, bool, bool) = if m == Mnemonic::RLC || m == Mnemonic::RLCA {
            let n = (value * 2) % 256 + value / 128;
            (n, n == 0 && m != Mnemonic::RLCA, value >= 128)
        } else if m == Mnemonic::RRC || m == Mnemonic::RRCA {
            let n = value / 2 + (value % 2) * 128;
            (n, n == 0 && m != Mnemonic::RRCA, value % 2 == 1)
        } else if m == Mnemonic::RL || m == Mnemonic::RLA {
            let n = (value * 2) % 256 + if carry_in { 1 } else { 0 };
            (n, n == 0 && m != Mnemonic::RLA, value >= 128)
        } else if m == Mnemonic::RR || m == Mnemonic::RRA {
            let n = value / 2 + if carry_in { 128 } else { 0 };
            (n, n == 0 && m != Mnemonic::RRA, value % 2 == 1)
        } else if m == Mnemonic::SLA {
            let n = (value * 2) % 256;
            (n, n == 0, value >= 128)
        } else if m == Mnemonic::SRA {
            let n = value / 2 + (value / 128) * 128;
            (n, value / 2 == 0, value % 2 == 1)
        } else if m == Mnemonic::SRL {
            (value / 2, value / 2 == 0, value % 2 == 1)
        } else {
            let n = (value % 16) * 16 + value / 16;
            (n, n == 0, false)
        };
        assert((new_value, zero, carry) == CPU::shift_result(m, value, c0.registers.carry));
        self.registers.set_zero(zero);
        self.registers.set_subtract(false);
        self.registers.set_half_carry(false);
        self.registers.set_carry(carry);
        if instruction.total_operands == 1 {
            self.write_operand(instruction.op0, new_value, 1, false);
        } else {
            self.registers.set(Register::A, new_value);
        }
        let ghost c2 = *self;
        self.advance_pc(pc, instruction);
        assert(c0.shift_steps(*instruction, raw, rb, c1, c2, *self));
    }

    /// BIT, RES, SET on bit `n` of the second operand.
    fn bit_op(&mut self, instruction: &Instruction)
        requires
            old(self).memory_bus.wf(),
        ensures
            final(self).memory_bus.wf(),
            old(self).bit_to(*instruction, *final(self)),
    {
        let ghost c0 = *self;
        let pc = self.registers.get(Register::PC);
        let n: u8 = match instruction.op0 {
            Operand::Bit(k) => if k < 8 { k } else { 7 },
            _ => 0,
        };
        let mask: u16 = 1u16 << n as u16;
        let (value, register_bytes) = self.read_operand(instruction.op1, false);
        let ghost c1 = *self;
        if instruction.mnemonic == Mnemonic::BIT {
            self.registers.set_zero(value & mask == 0);
            self.registers.set_subtract(false);
            self.registers.set_half_carry(true);
        } else if instruction.mnemonic == Mnemonic::RES {
            self.write_operand(instruction.op1, value & !mask, register_bytes, false);
        } else {
            self.write_operand(instruction.op1, value | mask, register_bytes, false);
        }
        let ghost c2 = *self;
        self.advance_pc(pc, instruction);
        assert(c0.bit_steps(*instruction, value, register_bytes, c1, c2, *self));
    }

    /// The instructions that touch only registers and flags.
    fn register_only(&mut self, instruction: &Instruction)
        requires
            old(self).registers.pc + instruction.bytes <= 0xFFFF,
        ensures
            old(self).register_only_to(*instruction, *final(self)),
    {
        match instruction.mnemonic {
            Mnemonic::NOP | Mnemonic::STOP => self.noop(instruction),
            Mnemonic::DAA => self.daa(instruction),
            Mnemonic::HALT => self.halt(instruction),
            Mnemonic::CPL => self.cpl(instruction),
            Mnemonic::SCF => self.scf(instruction),
            Mnemonic::CCF => self.ccf(instruction),
            Mnemonic::DI => self.di(instruction),
            _ => self.ei(instruction),
        }
    }

    /// Runs a decoded unprefixed instruction.
    fn dispatch(&mut self, instruction: &Instruction)
        requires
            old(self).memory_bus.wf(),
        ensures
            final(self).memory_bus.wf(),
            old(self).executes(*instruction, *final(self)),
    {
        let pc = self.registers.get(Register::PC);
        let fits = pc <= 0xFFFF - instruction.bytes as u16;
        match instruction.mnemonic {
            Mnemonic::NOP | Mnemonic::DAA | Mnemonic::HALT | Mnemonic::CPL | Mnemonic::SCF | Mnemonic::CCF
            | Mnemonic::DI | Mnemonic::EI | Mnemonic::STOP => {
                if fits {
                    self.register_only(instruction);
                } else {
                    self.faulted = true;
                }
            },
            Mnemonic::JP => self.jp(instruction),
            Mnemonic::LD => self.ld(instruction),
            Mnemonic::LDH => self.ldh(instruction),
            Mnemonic::INC => self.inc(instruction),
            Mnemonic::DEC => self.dec(instruction),
            Mnemonic::JR => self.jr(instruction),
            Mnemonic::CALL => self.call(instruction),
            Mnemonic::PUSH => self.push(instruction),
            Mnemonic::POP => self.pop(instruction),
            Mnemonic::RET => self.ret(instruction),
            Mnemonic::RETI => self.reti(),
            Mnemonic::RST => self.rst(instruction),
            Mnemonic::OR | Mnemonic::AND | Mnemonic::XOR => self.logic(instruction),
            Mnemonic::ADD => self.add(instruction),
            Mnemonic::ADC | Mnemonic::SUB | Mnemonic::SBC | Mnemonic::CP => self.arith(instruction),
            Mnemonic::RLCA | Mnemonic::RRCA | Mnemonic::RLA | Mnemonic::RRA | Mnemonic::RLC | Mnemonic::RRC
            | Mnemonic::RL | Mnemonic::RR | Mnemonic::SLA | Mnemonic::SRA | Mnemonic::SRL | Mnemonic::SWAP => self.shift(
                instruction,
            ),
            Mnemonic::BIT | Mnemonic::RES | Mnemonic::SET => self.bit_op(instruction),
            _ => {
                self.faulted = true;
            },
        }
    }

    /// Whether an interrupt is both requested and enabled.
    pub open spec fn interrupt_pending(self) -> bool {
        pending_interrupts(self.memory_bus.if_flag, self.memory_bus.ie_flag) != 0
    }

    /// Runs one step of the core and reports the machine cycles it took
    /// (the bus's cycle count, which the step starts from zero): a pending
    /// interrupt wakes the core from HALT; with IME set it is served;
    /// otherwise a halted core idles four cycles; otherwise the opcode at
    /// PC (and after 0xCB the next byte) is fetched, decoded and executed,
    /// and an EI waiting from an earlier instruction takes effect, unless
    /// this one is EI or RETI.
    #[verifier::spinoff_prover]
    #[verifier::rlimit(80)]
    pub fn execute_instruction(&mut self) -> (r: InstructionResult)
        requires
            old(self).memory_bus.wf(),
        ensures
            final(self).memory_bus.wf(),
            r.cycles == final(self).memory_bus.total_cycles,
            old(self).stepped(*final(self)),
    {
        if self.faulted {
            return InstructionResult { cycles: self.memory_bus.total_cycles() };
        }
        self.memory_bus.reset_total_cycles();
        let ghost c0 = *self;
        assert(c0 == (CPU { memory_bus: MemoryBus { total_cycles: 0, ..old(self).memory_bus }, ..*old(self) }));
        let interrupt_pending = (self.memory_bus.if_flag() & self.memory_bus.ie_flag() & 0x1F) != 0;
        assert(interrupt_pending == old(self).interrupt_pending());
        if interrupt_pending && self.halted {
            self.halted = false;
        }
        let ghost woken = *self;
        assert(woken == (CPU { halted: old(self).halted && !old(self).interrupt_pending(), ..c0 }));
        if self.ime && interrupt_pending {
            self.interrupt();
            return InstructionResult { cycles: self.memory_bus.total_cycles() };
        }
        if self.halted {
            self.tick(4);
            return InstructionResult { cycles: self.memory_bus.total_cycles() };
        }
        let pc = self.registers.get(Register::PC);
        let opcode = self.read8(pc);
        let ghost c1 = *self;
        if self.faulted {
            assert(woken.fetch_steps(opcode, c1, 0, c1, c1, *self));
            assert(woken.fetched(*self));
            return InstructionResult { cycles: self.memory_bus.total_cycles() };
        }
        if opcode == 0xCB {
            if pc == 0xFFFF {
                self.faulted = true;
                assert(woken.fetch_steps(opcode, c1, 0, c1, c1, *self));
                assert(woken.fetched(*self));
                return InstructionResult { cycles: self.memory_bus.total_cycles() };
            }
            let cb_opcode = self.read8(pc + 1);
            let ghost c2 = *self;
            if self.faulted {
                assert(woken.fetch_steps(opcode, c1, cb_opcode, c2, c2, *self));
                assert(woken.fetched(*self));
                return InstructionResult { cycles: self.memory_bus.total_cycles() };
            }
            let cb_instruction = decode_cb(cb_opcode);
            self.dispatch(&cb_instruction);
            let ghost c3 = *self;
            if self.pending_ime_set {
                self.ime = true;
                self.pending_ime_set = false;
            }
            assert(woken.fetch_steps(opcode, c1, cb_opcode, c2, c3, *self));
            assert(woken.fetched(*self));
        } else {
            let instruction = decode(opcode);
            self.dispatch(&instruction);
            let ghost c3 = *self;
            if self.pending_ime_set && instruction.mnemonic != Mnemonic::EI && instruction.mnemonic
                != Mnemonic::RETI {
                self.ime = true;
                self.pending_ime_set = false;
            }
            assert(woken.fetch_steps(opcode, c1, 0, c1, c3, *self));
            assert(woken.fetched(*self));
        }
        InstructionResult { cycles: self.memory_bus.total_cycles() }
    }
}

} // verus!
