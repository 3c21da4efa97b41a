use vstd::prelude::*;
use crate::model::ModelType;
use crate::bits::lemma_word_fields;

verus! {

/// A name of one of the CPU registers: the 8-bit registers, the 16-bit
/// program counter and stack pointer, and the four 8-bit pairs.
#[derive(Clone, Copy, Debug, PartialEq, Eq, Structural)]
pub enum Register {
    A,
    B,
    C,
    D,
    E,
    F,
    H,
    L,
    PC,
    SP,
    AF,
    BC,
    DE,
    HL,
}

/// The register file of the SM83 CPU. The flag register F is kept as four
/// booleans; its low nibble always reads as zero.
#[derive(Debug)]
pub struct Registers {
    pub a: u8,
    pub b: u8,
    pub c: u8,
    pub d: u8,
    pub e: u8,
    pub h: u8,
    pub l: u8,
    pub pc: u16,
    pub sp: u16,
    pub zero: bool,
    pub subtract: bool,
    pub half_carry: bool,
    pub carry: bool,
}

/// Whether a register name denotes an 8-bit register.
pub open spec fn is_8bit(name: Register) -> bool {
    match name {
        Register::A | Register::B | Register::C | Register::D | Register::E | Register::F
        | Register::H | Register::L => true,
        _ => false,
    }
}

/// The width in bytes of a register.
pub fn register_bytes(name: Register) -> (n: u8)
    ensures
        n == (if is_8bit(name) { 1u8 } else { 2u8 }),
{
    match name {
        Register::A | Register::B | Register::C | Register::D | Register::E | Register::F
        | Register::H | Register::L => 1,
        Register::PC | Register::SP | Register::AF | Register::BC | Register::DE | Register::HL => 2,
    }
}

/// The byte F reads as: Z, N, H, C in bits 7..4.
pub open spec fn flags_byte(zero: bool, subtract: bool, half_carry: bool, carry: bool) -> u8 {
    ((if zero { 0x80u8 } else { 0u8 }) + (if subtract { 0x40u8 } else { 0u8 }) + (if half_carry {
        0x20u8
    } else {
        0u8
    }) + (if carry { 0x10u8 } else { 0u8 })) as u8
}

/// A register pair as a 16-bit number: high byte first.
pub open spec fn pair(high: u8, low: u8) -> u16 {
    (high as nat * 256 + low as nat) as u16
}

impl Registers {
    /// The flag register as a byte.
    pub open spec fn f_byte(self) -> u8 {
        flags_byte(self.zero, self.subtract, self.half_carry, self.carry)
    }

    /// What `get` returns for each register.
    pub open spec fn value(self, name: Register) -> u16 {
        match name {
            Register::A => self.a as u16,
            Register::B => self.b as u16,
            Register::C => self.c as u16,
            Register::D => self.d as u16,
            Register::E => self.e as u16,
            Register::F => self.f_byte() as u16,
            Register::H => self.h as u16,
            Register::L => self.l as u16,
            Register::PC => self.pc,
            Register::SP => self.sp,
            Register::AF => pair(self.a, self.f_byte()),
            Register::BC => pair(self.b, self.c),
            Register::DE => pair(self.d, self.e),
            Register::HL => pair(self.h, self.l),
        }
    }

    /// The register file with the flags set from the bits 7..4 of a byte.
    pub open spec fn with_f(self, value: u8) -> Registers {
        Registers {
            zero: (value / 0x80) % 2 == 1,
            subtract: (value / 0x40) % 2 == 1,
            half_carry: (value / 0x20) % 2 == 1,
            carry: (value / 0x10) % 2 == 1,
            ..self
        }
    }

    /// The register file after `set(name, value)`: an 8-bit register takes
    /// the low byte of `value`; a pair takes the high byte into its first
    /// register and the low byte into its second.
    pub open spec fn after_set(self, name: Register, value: u16) -> Registers {
        let hi = (value / 256) as u8;
        let lo = (value % 256) as u8;
        match name {
            Register::A => Registers { a: lo, ..self },
            Register::B => Registers { b: lo, ..self },
            Register::C => Registers { c: lo, ..self },
            Register::D => Registers { d: lo, ..self },
            Register::E => Registers { e: lo, ..self },
            Register::F => self.with_f(lo),
            Register::H => Registers { h: lo, ..self },
            Register::L => Registers { l: lo, ..self },
            Register::PC => Registers { pc: value, ..self },
            Register::SP => Registers { sp: value, ..self },
            Register::AF => Registers { a: hi, ..self }.with_f(lo),
            Register::BC => Registers { b: hi, c: lo, ..self },
            Register::DE => Registers { d: hi, e: lo, ..self },
            Register::HL => Registers { h: hi, l: lo, ..self },
        }
    }

    /// The DMG register values after the boot ROM has run.
    pub open spec fn new_spec() -> Registers {
        Registers {
            a: 0x01,
            b: 0,
            c: 0x13,
            d: 0,
            e: 0xD8,
            h: 0x01,
            l: 0x4D,
            pc: 0x0100,
            sp: 0xFFFE,
            zero: true,
            subtract: false,
            half_carry: true,
            carry: true,
        }
    }

    /// The register values after reset on a DMG.
    pub fn new() -> (r: Self)
        ensures
            r == (Registers {
                a: 0x01,
                b: 0,
                c: 0x13,
                d: 0,
                e: 0xD8,
                h: 0x01,
                l: 0x4D,
                pc: 0x0100,
                sp: 0xFFFE,
                zero: true,
                subtract: false,
                half_carry: true,
                carry: true,
            }),
    {
        Self {
            a: 0x01,
            b: 0,
            c: 0x13,
            d: 0,
            e: 0xD8,
            h: 0x01,
            l: 0x4D,
            pc: 0x0100,
            sp: 0xFFFE,
            zero: true,
            subtract: false,
            half_carry: true,
            carry: true,
        }
    }

    /// The register values after the boot ROM of a model has run: the DMG
    /// values of `new`, or on a Game Boy Color A = 0x11, F = 0x80 (Z set),
    /// BC = 0x0000, DE = 0xFF56, HL = 0x000D.
    pub fn for_model(model_type: ModelType) -> (r: Self)
        ensures
            model_type == ModelType::DMG ==> r == Registers::new_spec(),
            model_type == ModelType::Color ==> r == (Registers {
                a: 0x11,
                b: 0,
                c: 0,
                d: 0xFF,
                e: 0x56,
                h: 0,
                l: 0x0D,
                pc: 0x0100,
                sp: 0xFFFE,
                zero: true,
                subtract: false,
                half_carry: false,
                carry: false,
            }),
    {
        match model_type {
            ModelType::DMG => Registers::new(),
            ModelType::Color => Self {
                a: 0x11,
                b: 0,
                c: 0,
                d: 0xFF,
                e: 0x56,
                h: 0,
                l: 0x0D,
                pc: 0x0100,
                sp: 0xFFFE,
                zero: true,
                subtract: false,
                half_carry: false,
                carry: false,
            },
        }
    }

    pub fn get(&self, name: Register) -> (v: u16)
        ensures
            v == self.value(name),
    {
        match name {
            Register::A => self.a as u16,
            Register::B => self.b as u16,
            Register::C => self.c as u16,
            Register::D => self.d as u16,
            Register::E => self.e as u16,
            Register::F => self.f() as u16,
            Register::H => self.h as u16,
            Register::L => self.l as u16,
            Register::PC => self.pc,
            Register::SP => self.sp,
            Register::AF => join(self.a, self.f()),
            Register::BC => join(self.b, self.c),
            Register::DE => join(self.d, self.e),
            Register::HL => join(self.h, self.l),
        }
    }

    pub fn set(&mut self, name: Register, value: u16)
        ensures
            *final(self) == old(self).after_set(name, value),
    {
        let hi = high_byte(value);
        let lo = low_byte(value);
        match name {
            Register::A => self.a = lo,
            Register::B => self.b = lo,
            Register::C => self.c = lo,
            Register::D => self.d = lo,
            Register::E => self.e = lo,
            Register::F => self.set_f(lo),
            Register::H => self.h = lo,
            Register::L => self.l = lo,
            Register::PC => self.pc = value,
            Register::SP => self.sp = value,
            Register::AF => {
                self.a = hi;
                self.set_f(lo);
            },
            Register::BC => {
                self.b = hi;
                self.c = lo;
            },
            Register::DE => {
                self.d = hi;
                self.e = lo;
            },
            Register::HL => {
                self.h = hi;
                self.l = lo;
            },
        }
    }

    pub fn zero(&self) -> (r: bool)
        ensures
            r == self.zero,
    {
        self.zero
    }

    pub fn set_zero(&mut self, value: bool)
        ensures
            *final(self) == (Registers { zero: value, ..*old(self) }),
    {
        self.zero = value;
    }

    pub fn subtract(&self) -> (r: bool)
        ensures
            r == self.subtract,
    {
        self.subtract
    }

    pub fn set_subtract(&mut self, value: bool)
        ensures
            *final(self) == (Registers { subtract: value, ..*old(self) }),
    {
        self.subtract = value;
    }

    pub fn half_carry(&self) -> (r: bool)
        ensures
            r == self.half_carry,
    {
        self.half_carry
    }

    pub fn set_half_carry(&mut self, value: bool)
        ensures
            *final(self) == (Registers { half_carry: value, ..*old(self) }),
    {
        self.half_carry = value;
    }

    pub fn carry(&self) -> (r: bool)
        ensures
            r == self.carry,
    {
        self.carry
    }

    pub fn set_carry(&mut self, value: bool)
        ensures
            *final(self) == (Registers { carry: value, ..*old(self) }),
    {
        self.carry = value;
    }

    fn f(&self) -> (r: u8)
        ensures
            r == self.f_byte(),
    {
        let mut num: u8 = 0;
        if self.zero {
            num = num + 0x80;
        }
        if self.subtract {
            num = num + 0x40;
        }
        if self.half_carry {
            num = num + 0x20;
        }
        if self.carry {
            num = num + 0x10;
        }
        num
    }

    fn set_f(&mut self, value: u8)
        ensures
            *final(self) == old(self).with_f(value),
    {
        proof {
            lemma_flag_bits(value);
        }
        self.zero = (value & (1 << 7)) != 0;
        self.subtract = (value & (1 << 6)) != 0;
        self.half_carry = (value & (1 << 5)) != 0;
        self.carry = (value & (1 << 4)) != 0;
    }
}


/// Whether two register names share storage (the same register, or a pair
/// and one of its halves).
pub open spec fn storage_overlaps(x: Register, y: Register) -> bool {
    ||| x == y
    ||| (x == Register::AF && (y == Register::A || y == Register::F))
    ||| (y == Register::AF && (x == Register::A || x == Register::F))
    ||| (x == Register::BC && (y == Register::B || y == Register::C))
    ||| (y == Register::BC && (x == Register::B || x == Register::C))
    ||| (x == Register::DE && (y == Register::D || y == Register::E))
    ||| (y == Register::DE && (x == Register::D || x == Register::E))
    ||| (x == Register::HL && (y == Register::H || y == Register::L))
    ||| (y == Register::HL && (x == Register::H || x == Register::L))
}

/// What reading a register gives back right after writing `value` to it:
/// 8-bit registers keep the low byte, and the low nibble of F reads as zero.
pub open spec fn read_back(name: Register, value: u16) -> u16 {
    match name {
        Register::F => ((value % 256) / 16 * 16) as u16,
        Register::AF => (value / 16 * 16) as u16,
        Register::PC | Register::SP | Register::BC | Register::DE | Register::HL => value,
        _ => (value % 256) as u16,
    }
}

pub(crate) proof fn lemma_flags_of_byte(v: u8)
    ensures
        flags_byte((v / 0x80) % 2 == 1, (v / 0x40) % 2 == 1, (v / 0x20) % 2 == 1, (v / 0x10) % 2 == 1)
            == v / 16 * 16,
{
    let z = (v / 0x80) % 2 == 1;
    let n = (v / 0x40) % 2 == 1;
    let h = (v / 0x20) % 2 == 1;
    let c = (v / 0x10) % 2 == 1;
    assert(v / 16 * 16 == (if (v / 0x80) % 2 == 1 { 0x80u8 } else { 0u8 }) + (if (v / 0x40) % 2 == 1 { 0x40u8 } else { 0u8 })
        + (if (v / 0x20) % 2 == 1 { 0x20u8 } else { 0u8 }) + (if (v / 0x10) % 2 == 1 { 0x10u8 } else { 0u8 })) by (bit_vector);
}

/// Reading a register right after writing it gives back the value written,
/// up to the register's width and the always-zero low nibble of F.
pub proof fn lemma_read_after_write(regs: Registers, name: Register, value: u16)
    ensures
        regs.after_set(name, value).value(name) == read_back(name, value),
{
    let lo = (value % 256) as u8;
    lemma_flags_of_byte(lo);
    assert((value / 256) as nat * 256 + (lo / 16 * 16) as nat == value / 16 * 16) by {
        assert(value == (value / 256) * 256 + value % 256);
        assert(lo as nat == value % 256);
    }
}

/// Writing a register leaves every register that shares no storage with it unchanged.
pub proof fn lemma_write_leaves_others(regs: Registers, name: Register, other: Register, value: u16)
    requires
        !storage_overlaps(name, other),
    ensures
        regs.after_set(name, value).value(other) == regs.value(other),
{
}

/// A pair reads as its two halves, high byte first, and F's low nibble is zero.
pub proof fn lemma_pairs_are_halves(regs: Registers)
    ensures
        regs.value(Register::AF) as nat == regs.value(Register::A) as nat * 256 + regs.value(Register::F) as nat,
        regs.value(Register::BC) as nat == regs.value(Register::B) as nat * 256 + regs.value(Register::C) as nat,
        regs.value(Register::DE) as nat == regs.value(Register::D) as nat * 256 + regs.value(Register::E) as nat,
        regs.value(Register::HL) as nat == regs.value(Register::H) as nat * 256 + regs.value(Register::L) as nat,
        regs.value(Register::F) % 16 == 0,
{
    let f = regs.f_byte();
    assert(f % 16 == 0);
}

/// Bits 7..4 of a byte, read by masking and by division.
pub(crate) proof fn lemma_flag_bits(value: u8)
    ensures
        ((value & (1u8 << 7u8)) != 0) == ((value / 0x80) % 2 == 1),
        ((value & (1u8 << 6u8)) != 0) == ((value / 0x40) % 2 == 1),
        ((value & (1u8 << 5u8)) != 0) == ((value / 0x20) % 2 == 1),
        ((value & (1u8 << 4u8)) != 0) == ((value / 0x10) % 2 == 1),
{
    assert(((value & (1u8 << 7u8)) != 0) == ((value / 0x80) % 2 == 1) && ((value & (1u8 << 6u8)) != 0) == ((value / 0x40)
        % 2 == 1) && ((value & (1u8 << 5u8)) != 0) == ((value / 0x20) % 2 == 1) && ((value & (1u8 << 4u8)) != 0) == ((
    value / 0x10) % 2 == 1)) by (bit_vector);
}

/// The high byte of a 16-bit value.
pub fn high_byte(value: u16) -> (r: u8)
    ensures
        r == value / 256,
{
    assert((value >> 8u16) == value / 256 && value / 256 < 256) by { lemma_word_fields(); }
    (value >> 8) as u8
}

/// The low byte of a 16-bit value.
pub fn low_byte(value: u16) -> (r: u8)
    ensures
        r == value % 256,
{
    assert((value & 0xFFu16) == value % 256) by { lemma_word_fields(); }
    (value & 0xFF) as u8
}

/// Two bytes joined into a 16-bit value, high byte first.
pub fn join(high: u8, low: u8) -> (r: u16)
    ensures
        r == pair(high, low),
        r as nat == high as nat * 256 + low as nat,
{
    let h = high as u16;
    let l = low as u16;
    assert(h < 256 && l < 256 ==> (h << 8u16) | l == h * 256 + l) by { lemma_word_fields(); }
    (h << 8) | l
}

} // verus!
