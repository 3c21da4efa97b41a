use vstd::prelude::*;
use crate::bits::lemma_byte_fields;
use crate::registers::{flags_byte, pair, high_byte, low_byte, join, lemma_flag_bits, lemma_flags_of_byte};

verus! {

/// One of the eight 8-bit registers.
#[derive(Clone, Copy)]
pub enum Register8 {
    A,
    B,
    C,
    D,
    E,
    F,
    H,
    L,
}

/// One of the 16-bit registers: the program counter, the stack pointer and
/// the four register pairs.
#[derive(Clone, Copy)]
pub enum Register16 {
    PC,
    SP,
    AF,
    BC,
    DE,
    HL,
}

/// The 3-bit register operands of the instruction set name B, C, D, E, H,
/// L and A (6 stands for memory at HL, which is no register).
pub open spec fn register8_index_ok(index: u8) -> bool {
    index <= 5 || index == 7
}

/// The 8-bit register a 3-bit operand names.
pub open spec fn register8_of(index: u8) -> Register8 {
    if index == 0 {
        Register8::B
    } else if index == 1 {
        Register8::C
    } else if index == 2 {
        Register8::D
    } else if index == 3 {
        Register8::E
    } else if index == 4 {
        Register8::H
    } else if index == 5 {
        Register8::L
    } else {
        Register8::A
    }
}

/// Decodes a 3-bit register operand.
pub fn register8(index: u8) -> (r: Register8)
    requires
        register8_index_ok(index),
    ensures
        r == register8_of(index),
{
    match index {
        0x00 => Register8::B,
        0x01 => Register8::C,
        0x02 => Register8::D,
        0x03 => Register8::E,
        0x04 => Register8::H,
        0x05 => Register8::L,
        _ => Register8::A,
    }
}

/// Decodes a 2-bit operand naming BC, DE, HL or SP.
pub fn register16(index: u8) -> (r: Register16)
    requires
        index <= 3,
    ensures
        r == (if index == 0 {
            Register16::BC
        } else if index == 1 {
            Register16::DE
        } else if index == 2 {
            Register16::HL
        } else {
            Register16::SP
        }),
{
    match index {
        0x00 => Register16::BC,
        0x01 => Register16::DE,
        0x02 => Register16::HL,
        _ => Register16::SP,
    }
}

/// Decodes a 2-bit stack operand (PUSH/POP): BC, DE, HL or AF.
pub fn register16_stk(index: u8) -> (r: Register16)
    requires
        index <= 3,
    ensures
        r == (if index == 0 {
            Register16::BC
        } else if index == 1 {
            Register16::DE
        } else if index == 2 {
            Register16::HL
        } else {
            Register16::AF
        }),
{
    match index {
        0x00 => Register16::BC,
        0x01 => Register16::DE,
        0x02 => Register16::HL,
        _ => Register16::AF,
    }
}

/// Decodes a 2-bit memory operand: the pair that holds the address, and how
/// HL moves after the access ((HL+) adds one, (HL-) takes one away).
pub fn register16_mem(index: u8) -> (r: (Register16, i8))
    requires
        index <= 3,
    ensures
        r == (if index == 0 {
            (Register16::BC, 0i8)
        } else if index == 1 {
            (Register16::DE, 0i8)
        } else if index == 2 {
            (Register16::HL, 1i8)
        } else {
            (Register16::HL, -1i8)
        }),
{
    match index {
        0x00 => (Register16::BC, 0),
        0x01 => (Register16::DE, 0),
        0x02 => (Register16::HL, 1),
        _ => (Register16::HL, -1),
    }
}

/// The register file, addressed by 8-bit and 16-bit register names. The
/// flag register F is kept as four booleans; its low nibble reads as zero.
#[derive(Debug)]
pub struct Registers {
    pub a: u8,
    pub b: u8,
    pub c: u8,
    pub d: u8,
    pub e: u8,
    pub h: u8,
    pub l: u8,
    pub pc: u16,
    pub sp: u16,
    pub zero: bool,
    pub subtract: bool,
    pub half_carry: bool,
    pub carry: bool,
}

impl Registers {
    /// The flag register as a byte.
    pub open spec fn f_byte(self) -> u8 {
        flags_byte(self.zero, self.subtract, self.half_carry, self.carry)
    }

    /// What `get8` returns.
    pub open spec fn value8(self, name: Register8) -> u8 {
        match name {
            Register8::A => self.a,
            Register8::B => self.b,
            Register8::C => self.c,
            Register8::D => self.d,
            Register8::E => self.e,
            Register8::F => self.f_byte(),
            Register8::H => self.h,
            Register8::L => self.l,
        }
    }

    /// What `get16` returns: pairs read high register first.
    pub open spec fn value16(self, name: Register16) -> u16 {
        match name {
            Register16::PC => self.pc,
            Register16::SP => self.sp,
            Register16::AF => pair(self.a, self.f_byte()),
            Register16::BC => pair(self.b, self.c),
            Register16::DE => pair(self.d, self.e),
            Register16::HL => pair(self.h, self.l),
        }
    }

    /// The flags taken from bits 7..4 of a byte.
    pub open spec fn with_f(self, value: u8) -> Registers {
        Registers {
            zero: (value / 0x80) % 2 == 1,
            subtract: (value / 0x40) % 2 == 1,
            half_carry: (value / 0x20) % 2 == 1,
            carry: (value / 0x10) % 2 == 1,
            ..self
        }
    }

    /// The register file after `set8(name, value)`.
    pub open spec fn after_set8(self, name: Register8, value: u8) -> Registers {
        match name {
            Register8::A => Registers { a: value, ..self },
            Register8::B => Registers { b: value, ..self },
            Register8::C => Registers { c: value, ..self },
            Register8::D => Registers { d: value, ..self },
            Register8::E => Registers { e: value, ..self },
            Register8::F => self.with_f(value),
            Register8::H => Registers { h: value, ..self },
            Register8::L => Registers { l: value, ..self },
        }
    }

    /// The register file after `set16(name, value)`: a pair takes the high
    /// byte into its first register and the low byte into its second.
    pub open spec fn after_set16(self, name: Register16, value: u16) -> Registers {
        let hi = (value / 256) as u8;
        let lo = (value % 256) as u8;
        match name {
            Register16::PC => Registers { pc: value, ..self },
            Register16::SP => Registers { sp: value, ..self },
            Register16::AF => Registers { a: hi, ..self }.with_f(lo),
            Register16::BC => Registers { b: hi, c: lo, ..self },
            Register16::DE => Registers { d: hi, e: lo, ..self },
            Register16::HL => Registers { h: hi, l: lo, ..self },
        }
    }

    /// The register values after reset on a DMG.
    pub fn new() -> (r: Self)
        ensures
            r == (Registers {
                a: 0x01,
                b: 0,
                c: 0x13,
                d: 0,
                e: 0xD8,
                h: 0x01,
                l: 0x4D,
                pc: 0x0100,
                sp: 0xFFFE,
                zero: true,
                subtract: false,
                half_carry: true,
                carry: true,
            }),
    {
        Self {
            a: 0x01,
            b: 0,
            c: 0x13,
            d: 0,
            e: 0xD8,
            h: 0x01,
            l: 0x4D,
            pc: 0x0100,
            sp: 0xFFFE,
            zero: true,
            subtract: false,
            half_carry: true,
            carry: true,
        }
    }

    pub fn get8(&self, name: Register8) -> (r: u8)
        ensures
            r == self.value8(name),
    {
        match name {
            Register8::A => self.a,
            Register8::B => self.b,
            Register8::C => self.c,
            Register8::D => self.d,
            Register8::E => self.e,
            Register8::F => self.f(),
            Register8::H => self.h,
            Register8::L => self.l,
        }
    }

    pub fn set8(&mut self, name: Register8, value: u8)
        ensures
            *final(self) == old(self).after_set8(name, value),
    {
        match name {
            Register8::A => self.a = value,
            Register8::B => self.b = value,
            Register8::C => self.c = value,
            Register8::D => self.d = value,
            Register8::E => self.e = value,
            Register8::F => self.set_f(value),
            Register8::H => self.h = value,
            Register8::L => self.l = value,
        }
    }

    pub fn get16(&self, name: Register16) -> (r: u16)
        ensures
            r == self.value16(name),
    {
        match name {
            Register16::PC => self.pc,
            Register16::SP => self.sp,
            Register16::AF => join(self.a, self.f()),
            Register16::BC => join(self.b, self.c),
            Register16::DE => join(self.d, self.e),
            Register16::HL => join(self.h, self.l),
        }
    }

    pub fn set16(&mut self, name: Register16, value: u16)
        ensures
            *final(self) == old(self).after_set16(name, value),
    {
        match name {
            Register16::PC => self.pc = value,
            Register16::SP => self.sp = value,
            Register16::AF => {
                self.a = high_byte(value);
                self.set_f(low_byte(value));
            },
            Register16::BC => {
                self.b = high_byte(value);
                self.c = low_byte(value);
            },
            Register16::DE => {
                self.d = high_byte(value);
                self.e = low_byte(value);
            },
            Register16::HL => {
                self.h = high_byte(value);
                self.l = low_byte(value);
            },
        }
    }

    /// Adds `value` to an 8-bit register (wrapping): Z when the sum is 0,
    /// N cleared, H on a carry out of bit 3, C on a carry out of bit 7. The
    /// sum is stored last, so adding to F leaves F holding the sum's flags.
    pub fn add8(&mut self, name: Register8, value: u8)
        ensures
            ({
                let x = old(self).value8(name);
                let sum = ((x + value) % 256) as u8;
                *final(self) == (Registers {
                    zero: sum == 0,
                    subtract: false,
                    half_carry: x % 16 + value % 16 > 15,
                    carry: x + value > 255,
                    ..*old(self)
                }).after_set8(name, sum)
            }),
    {
        let old_value = self.get8(name);
        let sum: u16 = old_value as u16 + value as u16;
        let new_value = low_byte(sum);
        let overflowing = sum > 0xFF;
        assert(old_value & 0xF == old_value % 16 && value & 0xF == value % 16) by { lemma_byte_fields(); }
        self.zero = new_value == 0;
        self.subtract = false;
        self.half_carry = (old_value & 0xF) + (value & 0xF) > 0xF;
        self.carry = overflowing;
        self.set8(name, new_value);
    }

    /// Adds one to an 8-bit register (wrapping): Z when the result is 0, N
    /// cleared, H on a carry out of bit 3; C is kept.
    pub fn inc8(&mut self, name: Register8)
        ensures
            ({
                let x = old(self).value8(name);
                let sum = ((x + 1) % 256) as u8;
                *final(self) == (Registers {
                    zero: sum == 0,
                    subtract: false,
                    half_carry: x % 16 + 1 > 15,
                    ..*old(self)
                }).after_set8(name, sum)
            }),
    {
        let old_value = self.get8(name);
        let new_value = old_value.wrapping_add(1);
        assert(old_value & 0xF == old_value % 16) by { lemma_byte_fields(); }
        self.zero = new_value == 0;
        self.subtract = false;
        self.half_carry = (old_value & 0xF) + 1 > 0xF;
        self.set8(name, new_value);
    }

    /// Adds one to a 16-bit register (wrapping); no flag changes.
    pub fn inc16(&mut self, name: Register16)
        ensures
            *final(self) == old(self).after_set16(name, ((old(self).value16(name) + 1) % 65536) as u16),
    {
        let old_value = self.get16(name);
        let new_value = old_value.wrapping_add(1);
        self.set16(name, new_value);
    }

    /// ORs a second register into the first: Z when the result is 0; N, H
    /// and C cleared.
    pub fn or8(&mut self, name1: Register8, name2: Register8)
        ensures
            ({
                let v = old(self).value8(name1) | old(self).value8(name2);
                *final(self) == (Registers {
                    zero: v == 0,
                    subtract: false,
                    half_carry: false,
                    carry: false,
                    ..*old(self)
                }).after_set8(name1, v)
            }),
    {
        let value1 = self.get8(name1);
        let value2 = self.get8(name2);
        let new_value = value1 | value2;
        self.zero = new_value == 0;
        self.subtract = false;
        self.half_carry = false;
        self.carry = false;
        self.set8(name1, new_value);
    }

    pub fn zero(&self) -> (r: bool)
        ensures
            r == self.zero,
    {
        self.zero
    }

    pub fn subtract(&self) -> (r: bool)
        ensures
            r == self.subtract,
    {
        self.subtract
    }

    pub fn half_carry(&self) -> (r: bool)
        ensures
            r == self.half_carry,
    {
        self.half_carry
    }

    pub fn carry(&self) -> (r: bool)
        ensures
            r == self.carry,
    {
        self.carry
    }

    fn f(&self) -> (r: u8)
        ensures
            r == self.f_byte(),
    {
        let mut num: u8 = 0;
        if self.zero {
            num = num + 0x80;
        }
        if self.subtract {
            num = num + 0x40;
        }
        if self.half_carry {
            num = num + 0x20;
        }
        if self.carry {
            num = num + 0x10;
        }
        num
    }

    fn set_f(&mut self, value: u8)
        ensures
            *final(self) == old(self).with_f(value),
    {
        proof {
            lemma_flag_bits(value);
        }
        self.zero = (value & (1 << 7)) != 0;
        self.subtract = (value & (1 << 6)) != 0;
        self.half_carry = (value & (1 << 5)) != 0;
        self.carry = (value & (1 << 4)) != 0;
    }
}

/// The register pair (or 16-bit register) that holds an 8-bit register.
pub open spec fn holds(pair_name: Register16, name: Register8) -> bool {
    match pair_name {
        Register16::AF => name == Register8::A || name == Register8::F,
        Register16::BC => name == Register8::B || name == Register8::C,
        Register16::DE => name == Register8::D || name == Register8::E,
        Register16::HL => name == Register8::H || name == Register8::L,
        _ => false,
    }
}

/// Reading an 8-bit register right after writing it gives back the byte
/// written (F keeps only its high nibble); every other 8-bit register and
/// every pair that does not hold it read as before.
pub proof fn lemma_set8_read_back(regs: Registers, name: Register8, other: Register8, other16: Register16, value: u8)
    ensures
        regs.after_set8(name, value).value8(name) == (if name == Register8::F { value / 16 * 16 } else { value as int }),
        other != name ==> regs.after_set8(name, value).value8(other) == regs.value8(other),
        !holds(other16, name) ==> regs.after_set8(name, value).value16(other16) == regs.value16(other16),
{
    lemma_flags_of_byte(value);
}

/// Reading a 16-bit register right after writing it gives back the value
/// written (AF keeps only the high nibble of its low byte); every 8-bit
/// register it does not hold and every other 16-bit register read as before.
pub proof fn lemma_set16_read_back(regs: Registers, name: Register16, other: Register16, other8: Register8, value: u16)
    ensures
        regs.after_set16(name, value).value16(name) == (if name == Register16::AF { value / 16 * 16 } else { value as int }),
        other != name ==> regs.after_set16(name, value).value16(other) == regs.value16(other),
        !holds(name, other8) ==> regs.after_set16(name, value).value8(other8) == regs.value8(other8),
{
    let lo = (value % 256) as u8;
    lemma_flags_of_byte(lo);
    assert((value / 256) as nat * 256 + (lo / 16 * 16) as nat == value / 16 * 16) by {
        assert(value == (value / 256) * 256 + value % 256);
        assert(lo as nat == value % 256);
    }
}

/// A pair reads as its two 8-bit halves, high register first.
pub proof fn lemma_pairs_are_halves8(regs: Registers)
    ensures
        regs.value16(Register16::AF) as nat == regs.value8(Register8::A) as nat * 256 + regs.value8(Register8::F) as nat,
        regs.value16(Register16::BC) as nat == regs.value8(Register8::B) as nat * 256 + regs.value8(Register8::C) as nat,
        regs.value16(Register16::DE) as nat == regs.value8(Register8::D) as nat * 256 + regs.value8(Register8::E) as nat,
        regs.value16(Register16::HL) as nat == regs.value8(Register8::H) as nat * 256 + regs.value8(Register8::L) as nat,
{
}

/// Adding to a register other than F leaves it holding the sum modulo 256,
/// with the carry flag telling whether the sum overflowed and the zero flag
/// whether it wrapped to 0.
pub proof fn lemma_add8_sum(regs: Registers, name: Register8, value: u8)
    requires
        name != Register8::F,
    ensures
        ({
            let x = regs.value8(name);
            let sum = ((x + value) % 256) as u8;
            let after = (Registers {
                zero: sum == 0,
                subtract: false,
                half_carry: x % 16 + value % 16 > 15,
                carry: x + value > 255,
                ..regs
            }).after_set8(name, sum);
            &&& after.value8(name) as int == (x + value) % 256
            &&& after.carry == (x + value > 255)
            &&& after.zero == ((x + value) % 256 == 0)
            &&& after.value8(name) as int + (if after.carry { 256int } else { 0int }) == x + value
        }),
{
}

} // verus!
