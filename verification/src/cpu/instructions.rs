use vstd::prelude::*;
use crate::registers::Register;

verus! {

/// The operation of an SM83 instruction.
#[derive(Clone, Copy, Debug, PartialEq, Eq, Structural)]
pub enum Mnemonic {
    NOP, LD, LDH, INC, DEC, ADD, ADC, SUB, SBC, AND, XOR, OR, CP, JP, JR, CALL, RET, RETI, RST, PUSH, POP, DI, EI,
    HALT, STOP, DAA, CPL, SCF, CCF, RLCA, RRCA, RLA, RRA, PREFIX, ILLEGAL, RLC, RRC, RL, RR, SLA, SRA, SWAP, SRL,
    BIT, RES, SET,
}

/// A branch condition: zero clear or set, carry clear or set.
#[derive(Clone, Copy, Debug, PartialEq, Eq, Structural)]
pub enum Condition {
    NZ,
    Z,
    NC,
    C,
}

/// An operand: a register's value, the byte at the address a register
/// holds (`IndInc`/`IndDec`: at HL, which then moves on or back), an
/// immediate byte or word after the opcode, a byte at 0xFF00 plus an
/// immediate byte (`A8`) or at an immediate address (`A16`), a signed
/// immediate byte (`E8`), a condition or a bit number.
#[derive(Clone, Copy, Debug, PartialEq, Eq, Structural)]
pub enum Operand {
    Absent,
    Reg(Register),
    Ind(Register),
    IndInc,
    IndDec,
    N8,
    N16,
    A8,
    A16,
    E8,
    Cond(Condition),
    Bit(u8),
}

/// A decoded instruction: its operation, length in bytes and operands.
#[derive(Clone, Copy, Debug, PartialEq, Eq, Structural)]
pub struct Instruction {
    pub mnemonic: Mnemonic,
    pub bytes: u8,
    pub total_operands: u8,
    pub op0: Operand,
    pub op1: Operand,
    pub op2: Operand,
}

/// The unprefixed opcode table.
pub open spec fn instruction_of(opcode: u8) -> Instruction {
    match opcode {
        0x00u8 => Instruction { mnemonic: Mnemonic::NOP, bytes: 1, total_operands: 0, op0: Operand::Absent, op1: Operand::Absent, op2: Operand::Absent },
        0x01u8 => Instruction { mnemonic: Mnemonic::LD, bytes: 3, total_operands: 2, op0: Operand::Reg(Register::BC), op1: Operand::N16, op2: Operand::Absent },
        0x02u8 => Instruction { mnemonic: Mnemonic::LD, bytes: 1, total_operands: 2, op0: Operand::Ind(Register::BC), op1: Operand::Reg(Register::A), op2: Operand::Absent },
        0x03u8 => Instruction { mnemonic: Mnemonic::INC, bytes: 1, total_operands: 1, op0: Operand::Reg(Register::BC), op1: Operand::Absent, op2: Operand::Absent },
        0x04u8 => Instruction { mnemonic: Mnemonic::INC, bytes: 1, total_operands: 1, op0: Operand::Reg(Register::B), op1: Operand::Absent, op2: Operand::Absent },
        0x05u8 => Instruction { mnemonic: Mnemonic::DEC, bytes: 1, total_operands: 1, op0: Operand::Reg(Register::B), op1: Operand::Absent, op2: Operand::Absent },
        0x06u8 => Instruction { mnemonic: Mnemonic::LD, bytes: 2, total_operands: 2, op0: Operand::Reg(Register::B), op1: Operand::N8, op2: Operand::Absent },
        0x07u8 => Instruction { mnemonic: Mnemonic::RLCA, bytes: 1, total_operands: 0, op0: Operand::Absent, op1: Operand::Absent, op2: Operand::Absent },
        0x08u8 => Instruction { mnemonic: Mnemonic::LD, bytes: 3, total_operands: 2, op0: Operand::A16, op1: Operand::Reg(Register::SP), op2: Operand::Absent },
        0x09u8 => Instruction { mnemonic: Mnemonic::ADD, bytes: 1, total_operands: 2, op0: Operand::Reg(Register::HL), op1: Operand::Reg(Register::BC), op2: Operand::Absent },
        0x0Au8 => Instruction { mnemonic: Mnemonic::LD, bytes: 1, total_operands: 2, op0: Operand::Reg(Register::A), op1: Operand::Ind(Register::BC), op2: Operand::Absent },
        0x0Bu8 => Instruction { mnemonic: Mnemonic::DEC, bytes: 1, total_operands: 1, op0: Operand::Reg(Register::BC), op1: Operand::Absent, op2: Operand::Absent },
        0x0Cu8 => Instruction { mnemonic: Mnemonic::INC, bytes: 1, total_operands: 1, op0: Operand::Reg(Register::C), op1: Operand::Absent, op2: Operand::Absent },
        0x0Du8 => Instruction { mnemonic: Mnemonic::DEC, bytes: 1, total_operands: 1, op0: Operand::Reg(Register::C), op1: Operand::Absent, op2: Operand::Absent },
        0x0Eu8 => Instruction { mnemonic: Mnemonic::LD, bytes: 2, total_operands: 2, op0: Operand::Reg(Register::C), op1: Operand::N8, op2: Operand::Absent },
        0x0Fu8 => Instruction { mnemonic: Mnemonic::RRCA, bytes: 1, total_operands: 0, op0: Operand::Absent, op1: Operand::Absent, op2: Operand::Absent },
        0x10u8 => Instruction { mnemonic: Mnemonic::STOP, bytes: 2, total_operands: 1, op0: Operand::N8, op1: Operand::Absent, op2: Operand::Absent },
        0x11u8 => Instruction { mnemonic: Mnemonic::LD, bytes: 3, total_operands: 2, op0: Operand::Reg(Register::DE), op1: Operand::N16, op2: Operand::Absent },
        0x12u8 => Instruction { mnemonic: Mnemonic::LD, bytes: 1, total_operands: 2, op0: Operand::Ind(Register::DE), op1: Operand::Reg(Register::A), op2: Operand::Absent },
        0x13u8 => Instruction { mnemonic: Mnemonic::INC, bytes: 1, total_operands: 1, op0: Operand::Reg(Register::DE), op1: Operand::Absent, op2: Operand::Absent },
        0x14u8 => Instruction { mnemonic: Mnemonic::INC, bytes: 1, total_operands: 1, op0: Operand::Reg(Register::D), op1: Operand::Absent, op2: Operand::Absent },
        0x15u8 => Instruction { mnemonic: Mnemonic::DEC, bytes: 1, total_operands: 1, op0: Operand::Reg(Register::D), op1: Operand::Absent, op2: Operand::Absent },
        0x16u8 => Instruction { mnemonic: Mnemonic::LD, bytes: 2, total_operands: 2, op0: Operand::Reg(Register::D), op1: Operand::N8, op2: Operand::Absent },
        0x17u8 => Instruction { mnemonic: Mnemonic::RLA, bytes: 1, total_operands: 0, op0: Operand::Absent, op1: Operand::Absent, op2: Operand::Absent },
        0x18u8 => Instruction { mnemonic: Mnemonic::JR, bytes: 2, total_operands: 1, op0: Operand::E8, op1: Operand::Absent, op2: Operand::Absent },
        0x19u8 => Instruction { mnemonic: Mnemonic::ADD, bytes: 1, total_operands: 2, op0: Operand::Reg(Register::HL), op1: Operand::Reg(Register::DE), op2: Operand::Absent },
        0x1Au8 => Instruction { mnemonic: Mnemonic::LD, bytes: 1, total_operands: 2, op0: Operand::Reg(Register::A), op1: Operand::Ind(Register::DE), op2: Operand::Absent },
        0x1Bu8 => Instruction { mnemonic: Mnemonic::DEC, bytes: 1, total_operands: 1, op0: Operand::Reg(Register::DE), op1: Operand::Absent, op2: Operand::Absent },
        0x1Cu8 => Instruction { mnemonic: Mnemonic::INC, bytes: 1, total_operands: 1, op0: Operand::Reg(Register::E), op1: Operand::Absent, op2: Operand::Absent },
        0x1Du8 => Instruction { mnemonic: Mnemonic::DEC, bytes: 1, total_operands: 1, op0: Operand::Reg(Register::E), op1: Operand::Absent, op2: Operand::Absent },
        0x1Eu8 => Instruction { mnemonic: Mnemonic::LD, bytes: 2, total_operands: 2, op0: Operand::Reg(Register::E), op1: Operand::N8, op2: Operand::Absent },
        0x1Fu8 => Instruction { mnemonic: Mnemonic::RRA, bytes: 1, total_operands: 0, op0: Operand::Absent, op1: Operand::Absent, op2: Operand::Absent },
        0x20u8 => Instruction { mnemonic: Mnemonic::JR, bytes: 2, total_operands: 2, op0: Operand::Cond(Condition::NZ), op1: Operand::E8, op2: Operand::Absent },
        0x21u8 => Instruction { mnemonic: Mnemonic::LD, bytes: 3, total_operands: 2, op0: Operand::Reg(Register::HL), op1: Operand::N16, op2: Operand::Absent },
        0x22u8 => Instruction { mnemonic: Mnemonic::LD, bytes: 1, total_operands: 2, op0: Operand::IndInc, op1: Operand::Reg(Register::A), op2: Operand::Absent },
        0x23u8 => Instruction { mnemonic: Mnemonic::INC, bytes: 1, total_operands: 1, op0: Operand::Reg(Register::HL), op1: Operand::Absent, op2: Operand::Absent },
        0x24u8 => Instruction { mnemonic: Mnemonic::INC, bytes: 1, total_operands: 1, op0: Operand::Reg(Register::H), op1: Operand::Absent, op2: Operand::Absent },
        0x25u8 => Instruction { mnemonic: Mnemonic::DEC, bytes: 1, total_operands: 1, op0: Operand::Reg(Register::H), op1: Operand::Absent, op2: Operand::Absent },
        0x26u8 => Instruction { mnemonic: Mnemonic::LD, bytes: 2, total_operands: 2, op0: Operand::Reg(Register::H), op1: Operand::N8, op2: Operand::Absent },
        0x27u8 => Instruction { mnemonic: Mnemonic::DAA, bytes: 1, total_operands: 0, op0: Operand::Absent, op1: Operand::Absent, op2: Operand::Absent },
        0x28u8 => Instruction { mnemonic: Mnemonic::JR, bytes: 2, total_operands: 2, op0: Operand::Cond(Condition::Z), op1: Operand::E8, op2: Operand::Absent },
        0x29u8 => Instruction { mnemonic: Mnemonic::ADD, bytes: 1, total_operands: 2, op0: Operand::Reg(Register::HL), op1: Operand::Reg(Register::HL), op2: Operand::Absent },
        0x2Au8 => Instruction { mnemonic: Mnemonic::LD, bytes: 1, total_operands: 2, op0: Operand::Reg(Register::A), op1: Operand::IndInc, op2: Operand::Absent },
        0x2Bu8 => Instruction { mnemonic: Mnemonic::DEC, bytes: 1, total_operands: 1, op0: Operand::Reg(Register::HL), op1: Operand::Absent, op2: Operand::Absent },
        0x2Cu8 => Instruction { mnemonic: Mnemonic::INC, bytes: 1, total_operands: 1, op0: Operand::Reg(Register::L), op1: Operand::Absent, op2: Operand::Absent },
        0x2Du8 => Instruction { mnemonic: Mnemonic::DEC, bytes: 1, total_operands: 1, op0: Operand::Reg(Register::L), op1: Operand::Absent, op2: Operand::Absent },
        0x2Eu8 => Instruction { mnemonic: Mnemonic::LD, bytes: 2, total_operands: 2, op0: Operand::Reg(Register::L), op1: Operand::N8, op2: Operand::Absent },
        0x2Fu8 => Instruction { mnemonic: Mnemonic::CPL, bytes: 1, total_operands: 0, op0: Operand::Absent, op1: Operand::Absent, op2: Operand::Absent },
        0x30u8 => Instruction { mnemonic: Mnemonic::JR, bytes: 2, total_operands: 2, op0: Operand::Cond(Condition::NC), op1: Operand::E8, op2: Operand::Absent },
        0x31u8 => Instruction { mnemonic: Mnemonic::LD, bytes: 3, total_operands: 2, op0: Operand::Reg(Register::SP), op1: Operand::N16, op2: Operand::Absent },
        0x32u8 => Instruction { mnemonic: Mnemonic::LD, bytes: 1, total_operands: 2, op0: Operand::IndDec, op1: Operand::Reg(Register::A), op2: Operand::Absent },
        0x33u8 => Instruction { mnemonic: Mnemonic::INC, bytes: 1, total_operands: 1, op0: Operand::Reg(Register::SP), op1: Operand::Absent, op2: Operand::Absent },
        0x34u8 => Instruction { mnemonic: Mnemonic::INC, bytes: 1, total_operands: 1, op0: Operand::Ind(Register::HL), op1: Operand::Absent, op2: Operand::Absent },
        0x35u8 => Instruction { mnemonic: Mnemonic::DEC, bytes: 1, total_operands: 1, op0: Operand::Ind(Register::HL), op1: Operand::Absent, op2: Operand::Absent },
        0x36u8 => Instruction { mnemonic: Mnemonic::LD, bytes: 2, total_operands: 2, op0: Operand::Ind(Register::HL), op1: Operand::N8, op2: Operand::Absent },
        0x37u8 => Instruction { mnemonic: Mnemonic::SCF, bytes: 1, total_operands: 0, op0: Operand::Absent, op1: Operand::Absent, op2: Operand::Absent },
        0x38u8 => Instruction { mnemonic: Mnemonic::JR, bytes: 2, total_operands: 2, op0: Operand::Cond(Condition::C), op1: Operand::E8, op2: Operand::Absent },
        0x39u8 => Instruction { mnemonic: Mnemonic::ADD, bytes: 1, total_operands: 2, op0: Operand::Reg(Register::HL), op1: Operand::Reg(Register::SP), op2: Operand::Absent },
        0x3Au8 => Instruction { mnemonic: Mnemonic::LD, bytes: 1, total_operands: 2, op0: Operand::Reg(Register::A), op1: Operand::IndDec, op2: Operand::Absent },
        0x3Bu8 => Instruction { mnemonic: Mnemonic::DEC, bytes: 1, total_operands: 1, op0: Operand::Reg(Register::SP), op1: Operand::Absent, op2: Operand::Absent },
        0x3Cu8 => Instruction { mnemonic: Mnemonic::INC, bytes: 1, total_operands: 1, op0: Operand::Reg(Register::A), op1: Operand::Absent, op2: Operand::Absent },
        0x3Du8 => Instruction { mnemonic: Mnemonic::DEC, bytes: 1, total_operands: 1, op0: Operand::Reg(Register::A), op1: Operand::Absent, op2: Operand::Absent },
        0x3Eu8 => Instruction { mnemonic: Mnemonic::LD, bytes: 2, total_operands: 2, op0: Operand::Reg(Register::A), op1: Operand::N8, op2: Operand::Absent },
        0x3Fu8 => Instruction { mnemonic: Mnemonic::CCF, bytes: 1, total_operands: 0, op0: Operand::Absent, op1: Operand::Absent, op2: Operand::Absent },
        0x40u8 => Instruction { mnemonic: Mnemonic::LD, bytes: 1, total_operands: 2, op0: Operand::Reg(Register::B), op1: Operand::Reg(Register::B), op2: Operand::Absent },
        0x41u8 => Instruction { mnemonic: Mnemonic::LD, bytes: 1, total_operands: 2, op0: Operand::Reg(Register::B), op1: Operand::Reg(Register::C), op2: Operand::Absent },
        0x42u8 => Instruction { mnemonic: Mnemonic::LD, bytes: 1, total_operands: 2, op0: Operand::Reg(Register::B), op1: Operand::Reg(Register::D), op2: Operand::Absent },
        0x43u8 => Instruction { mnemonic: Mnemonic::LD, bytes: 1, total_operands: 2, op0: Operand::Reg(Register::B), op1: Operand::Reg(Register::E), op2: Operand::Absent },
        0x44u8 => Instruction { mnemonic: Mnemonic::LD, bytes: 1, total_operands: 2, op0: Operand::Reg(Register::B), op1: Operand::Reg(Register::H), op2: Operand::Absent },
        0x45u8 => Instruction { mnemonic: Mnemonic::LD, bytes: 1, total_operands: 2, op0: Operand::Reg(Register::B), op1: Operand::Reg(Register::L), op2: Operand::Absent },
        0x46u8 => Instruction { mnemonic: Mnemonic::LD, bytes: 1, total_operands: 2, op0: Operand::Reg(Register::B), op1: Operand::Ind(Register::HL), op2: Operand::Absent },
        0x47u8 => Instruction { mnemonic: Mnemonic::LD, bytes: 1, total_operands: 2, op0: Operand::Reg(Register::B), op1: Operand::Reg(Register::A), op2: Operand::Absent },
        0x48u8 => Instruction { mnemonic: Mnemonic::LD, bytes: 1, total_operands: 2, op0: Operand::Reg(Register::C), op1: Operand::Reg(Register::B), op2: Operand::Absent },
        0x49u8 => Instruction { mnemonic: Mnemonic::LD, bytes: 1, total_operands: 2, op0: Operand::Reg(Register::C), op1: Operand::Reg(Register::C), op2: Operand::Absent },
        0x4Au8 => Instruction { mnemonic: Mnemonic::LD, bytes: 1, total_operands: 2, op0: Operand::Reg(Register::C), op1: Operand::Reg(Register::D), op2: Operand::Absent },
        0x4Bu8 => Instruction { mnemonic: Mnemonic::LD, bytes: 1, total_operands: 2, op0: Operand::Reg(Register::C), op1: Operand::Reg(Register::E), op2: Operand::Absent },
        0x4Cu8 => Instruction { mnemonic: Mnemonic::LD, bytes: 1, total_operands: 2, op0: Operand::Reg(Register::C), op1: Operand::Reg(Register::H), op2: Operand::Absent },
        0x4Du8 => Instruction { mnemonic: Mnemonic::LD, bytes: 1, total_operands: 2, op0: Operand::Reg(Register::C), op1: Operand::Reg(Register::L), op2: Operand::Absent },
        0x4Eu8 => Instruction { mnemonic: Mnemonic::LD, bytes: 1, total_operands: 2, op0: Operand::Reg(Register::C), op1: Operand::Ind(Register::HL), op2: Operand::Absent },
        0x4Fu8 => Instruction { mnemonic: Mnemonic::LD, bytes: 1, total_operands: 2, op0: Operand::Reg(Register::C), op1: Operand::Reg(Register::A), op2: Operand::Absent },
        0x50u8 => Instruction { mnemonic: Mnemonic::LD, bytes: 1, total_operands: 2, op0: Operand::Reg(Register::D), op1: Operand::Reg(Register::B), op2: Operand::Absent },
        0x51u8 => Instruction { mnemonic: Mnemonic::LD, bytes: 1, total_operands: 2, op0: Operand::Reg(Register::D), op1: Operand::Reg(Register::C), op2: Operand::Absent },
        0x52u8 => Instruction { mnemonic: Mnemonic::LD, bytes: 1, total_operands: 2, op0: Operand::Reg(Register::D), op1: Operand::Reg(Register::D), op2: Operand::Absent },
        0x53u8 => Instruction { mnemonic: Mnemonic::LD, bytes: 1, total_operands: 2, op0: Operand::Reg(Register::D), op1: Operand::Reg(Register::E), op2: Operand::Absent },
        0x54u8 => Instruction { mnemonic: Mnemonic::LD, bytes: 1, total_operands: 2, op0: Operand::Reg(Register::D), op1: Operand::Reg(Register::H), op2: Operand::Absent },
        0x55u8 => Instruction { mnemonic: Mnemonic::LD, bytes: 1, total_operands: 2, op0: Operand::Reg(Register::D), op1: Operand::Reg(Register::L), op2: Operand::Absent },
        0x56u8 => Instruction { mnemonic: Mnemonic::LD, bytes: 1, total_operands: 2, op0: Operand::Reg(Register::D), op1: Operand::Ind(Register::HL), op2: Operand::Absent },
        0x57u8 => Instruction { mnemonic: Mnemonic::LD, bytes: 1, total_operands: 2, op0: Operand::Reg(Register::D), op1: Operand::Reg(Register::A), op2: Operand::Absent },
        0x58u8 => Instruction { mnemonic: Mnemonic::LD, bytes: 1, total_operands: 2, op0: Operand::Reg(Register::E), op1: Operand::Reg(Register::B), op2: Operand::Absent },
        0x59u8 => Instruction { mnemonic: Mnemonic::LD, bytes: 1, total_operands: 2, op0: Operand::Reg(Register::E), op1: Operand::Reg(Register::C), op2: Operand::Absent },
        0x5Au8 => Instruction { mnemonic: Mnemonic::LD, bytes: 1, total_operands: 2, op0: Operand::Reg(Register::E), op1: Operand::Reg(Register::D), op2: Operand::Absent },
        0x5Bu8 => Instruction { mnemonic: Mnemonic::LD, bytes: 1, total_operands: 2, op0: Operand::Reg(Register::E), op1: Operand::Reg(Register::E), op2: Operand::Absent },
        0x5Cu8 => Instruction { mnemonic: Mnemonic::LD, bytes: 1, total_operands: 2, op0: Operand::Reg(Register::E), op1: Operand::Reg(Register::H), op2: Operand::Absent },
        0x5Du8 => Instruction { mnemonic: Mnemonic::LD, bytes: 1, total_operands: 2, op0: Operand::Reg(Register::E), op1: Operand::Reg(Register::L), op2: Operand::Absent },
        0x5Eu8 => Instruction { mnemonic: Mnemonic::LD, bytes: 1, total_operands: 2, op0: Operand::Reg(Register::E), op1: Operand::Ind(Register::HL), op2: Operand::Absent },
        0x5Fu8 => Instruction { mnemonic: Mnemonic::LD, bytes: 1, total_operands: 2, op0: Operand::Reg(Register::E), op1: Operand::Reg(Register::A), op2: Operand::Absent },
        0x60u8 => Instruction { mnemonic: Mnemonic::LD, bytes: 1, total_operands: 2, op0: Operand::Reg(Register::H), op1: Operand::Reg(Register::B), op2: Operand::Absent },
        0x61u8 => Instruction { mnemonic: Mnemonic::LD, bytes: 1, total_operands: 2, op0: Operand::Reg(Register::H), op1: Operand::Reg(Register::C), op2: Operand::Absent },
        0x62u8 => Instruction { mnemonic: Mnemonic::LD, bytes: 1, total_operands: 2, op0: Operand::Reg(Register::H), op1: Operand::Reg(Register::D), op2: Operand::Absent },
        0x63u8 => Instruction { mnemonic: Mnemonic::LD, bytes: 1, total_operands: 2, op0: Operand::Reg(Register::H), op1: Operand::Reg(Register::E), op2: Operand::Absent },
        0x64u8 => Instruction { mnemonic: Mnemonic::LD, bytes: 1, total_operands: 2, op0: Operand::Reg(Register::H), op1: Operand::Reg(Register::H), op2: Operand::Absent },
        0x65u8 => Instruction { mnemonic: Mnemonic::LD, bytes: 1, total_operands: 2, op0: Operand::Reg(Register::H), op1: Operand::Reg(Register::L), op2: Operand::Absent },
        0x66u8 => Instruction { mnemonic: Mnemonic::LD, bytes: 1, total_operands: 2, op0: Operand::Reg(Register::H), op1: Operand::Ind(Register::HL), op2: Operand::Absent },
        0x67u8 => Instruction { mnemonic: Mnemonic::LD, bytes: 1, total_operands: 2, op0: Operand::Reg(Register::H), op1: Operand::Reg(Register::A), op2: Operand::Absent },
        0x68u8 => Instruction { mnemonic: Mnemonic::LD, bytes: 1, total_operands: 2, op0: Operand::Reg(Register::L), op1: Operand::Reg(Register::B), op2: Operand::Absent },
        0x69u8 => Instruction { mnemonic: Mnemonic::LD, bytes: 1, total_operands: 2, op0: Operand::Reg(Register::L), op1: Operand::Reg(Register::C), op2: Operand::Absent },
        0x6Au8 => Instruction { mnemonic: Mnemonic::LD, bytes: 1, total_operands: 2, op0: Operand::Reg(Register::L), op1: Operand::Reg(Register::D), op2: Operand::Absent },
        0x6Bu8 => Instruction { mnemonic: Mnemonic::LD, bytes: 1, total_operands: 2, op0: Operand::Reg(Register::L), op1: Operand::Reg(Register::E), op2: Operand::Absent },
        0x6Cu8 => Instruction { mnemonic: Mnemonic::LD, bytes: 1, total_operands: 2, op0: Operand::Reg(Register::L), op1: Operand::Reg(Register::H), op2: Operand::Absent },
        0x6Du8 => Instruction { mnemonic: Mnemonic::LD, bytes: 1, total_operands: 2, op0: Operand::Reg(Register::L), op1: Operand::Reg(Register::L), op2: Operand::Absent },
        0x6Eu8 => Instruction { mnemonic: Mnemonic::LD, bytes: 1, total_operands: 2, op0: Operand::Reg(Register::L), op1: Operand::Ind(Register::HL), op2: Operand::Absent },
        0x6Fu8 => Instruction { mnemonic: Mnemonic::LD, bytes: 1, total_operands: 2, op0: Operand::Reg(Register::L), op1: Operand::Reg(Register::A), op2: Operand::Absent },
        0x70u8 => Instruction { mnemonic: Mnemonic::LD, bytes: 1, total_operands: 2, op0: Operand::Ind(Register::HL), op1: Operand::Reg(Register::B), op2: Operand::Absent },
        0x71u8 => Instruction { mnemonic: Mnemonic::LD, bytes: 1, total_operands: 2, op0: Operand::Ind(Register::HL), op1: Operand::Reg(Register::C), op2: Operand::Absent },
        0x72u8 => Instruction { mnemonic: Mnemonic::LD, bytes: 1, total_operands: 2, op0: Operand::Ind(Register::HL), op1: Operand::Reg(Register::D), op2: Operand::Absent },
        0x73u8 => Instruction { mnemonic: Mnemonic::LD, bytes: 1, total_operands: 2, op0: Operand::Ind(Register::HL), op1: Operand::Reg(Register::E), op2: Operand::Absent },
        0x74u8 => Instruction { mnemonic: Mnemonic::LD, bytes: 1, total_operands: 2, op0: Operand::Ind(Register::HL), op1: Operand::Reg(Register::H), op2: Operand::Absent },
        0x75u8 => Instruction { mnemonic: Mnemonic::LD, bytes: 1, total_operands: 2, op0: Operand::Ind(Register::HL), op1: Operand::Reg(Register::L), op2: Operand::Absent },
        0x76u8 => Instruction { mnemonic: Mnemonic::HALT, bytes: 1, total_operands: 0, op0: Operand::Absent, op1: Operand::Absent, op2: Operand::Absent },
        0x77u8 => Instruction { mnemonic: Mnemonic::LD, bytes: 1, total_operands: 2, op0: Operand::Ind(Register::HL), op1: Operand::Reg(Register::A), op2: Operand::Absent },
        0x78u8 => Instruction { mnemonic: Mnemonic::LD, bytes: 1, total_operands: 2, op0: Operand::Reg(Register::A), op1: Operand::Reg(Register::B), op2: Operand::Absent },
        0x79u8 => Instruction { mnemonic: Mnemonic::LD, bytes: 1, total_operands: 2, op0: Operand::Reg(Register::A), op1: Operand::Reg(Register::C), op2: Operand::Absent },
        0x7Au8 => Instruction { mnemonic: Mnemonic::LD, bytes: 1, total_operands: 2, op0: Operand::Reg(Register::A), op1: Operand::Reg(Register::D), op2: Operand::Absent },
        0x7Bu8 => Instruction { mnemonic: Mnemonic::LD, bytes: 1, total_operands: 2, op0: Operand::Reg(Register::A), op1: Operand::Reg(Register::E), op2: Operand::Absent },
        0x7Cu8 => Instruction { mnemonic: Mnemonic::LD, bytes: 1, total_operands: 2, op0: Operand::Reg(Register::A), op1: Operand::Reg(Register::H), op2: Operand::Absent },
        0x7Du8 => Instruction { mnemonic: Mnemonic::LD, bytes: 1, total_operands: 2, op0: Operand::Reg(Register::A), op1: Operand::Reg(Register::L), op2: Operand::Absent },
        0x7Eu8 => Instruction { mnemonic: Mnemonic::LD, bytes: 1, total_operands: 2, op0: Operand::Reg(Register::A), op1: Operand::Ind(Register::HL), op2: Operand::Absent },
        0x7Fu8 => Instruction { mnemonic: Mnemonic::LD, bytes: 1, total_operands: 2, op0: Operand::Reg(Register::A), op1: Operand::Reg(Register::A), op2: Operand::Absent },
        0x80u8 => Instruction { mnemonic: Mnemonic::ADD, bytes: 1, total_operands: 2, op0: Operand::Reg(Register::A), op1: Operand::Reg(Register::B), op2: Operand::Absent },
        0x81u8 => Instruction { mnemonic: Mnemonic::ADD, bytes: 1, total_operands: 2, op0: Operand::Reg(Register::A), op1: Operand::Reg(Register::C), op2: Operand::Absent },
        0x82u8 => Instruction { mnemonic: Mnemonic::ADD, bytes: 1, total_operands: 2, op0: Operand::Reg(Register::A), op1: Operand::Reg(Register::D), op2: Operand::Absent },
        0x83u8 => Instruction { mnemonic: Mnemonic::ADD, bytes: 1, total_operands: 2, op0: Operand::Reg(Register::A), op1: Operand::Reg(Register::E), op2: Operand::Absent },
        0x84u8 => Instruction { mnemonic: Mnemonic::ADD, bytes: 1, total_operands: 2, op0: Operand::Reg(Register::A), op1: Operand::Reg(Register::H), op2: Operand::Absent },
        0x85u8 => Instruction { mnemonic: Mnemonic::ADD, bytes: 1, total_operands: 2, op0: Operand::Reg(Register::A), op1: Operand::Reg(Register::L), op2: Operand::Absent },
        0x86u8 => Instruction { mnemonic: Mnemonic::ADD, bytes: 1, total_operands: 2, op0: Operand::Reg(Register::A), op1: Operand::Ind(Register::HL), op2: Operand::Absent },
        0x87u8 => Instruction { mnemonic: Mnemonic::ADD, bytes: 1, total_operands: 2, op0: Operand::Reg(Register::A), op1: Operand::Reg(Register::A), op2: Operand::Absent },
        0x88u8 => Instruction { mnemonic: Mnemonic::ADC, bytes: 1, total_operands: 2, op0: Operand::Reg(Register::A), op1: Operand::Reg(Register::B), op2: Operand::Absent },
        0x89u8 => Instruction { mnemonic: Mnemonic::ADC, bytes: 1, total_operands: 2, op0: Operand::Reg(Register::A), op1: Operand::Reg(Register::C), op2: Operand::Absent },
        0x8Au8 => Instruction { mnemonic: Mnemonic::ADC, bytes: 1, total_operands: 2, op0: Operand::Reg(Register::A), op1: Operand::Reg(Register::D), op2: Operand::Absent },
        0x8Bu8 => Instruction { mnemonic: Mnemonic::ADC, bytes: 1, total_operands: 2, op0: Operand::Reg(Register::A), op1: Operand::Reg(Register::E), op2: Operand::Absent },
        0x8Cu8 => Instruction { mnemonic: Mnemonic::ADC, bytes: 1, total_operands: 2, op0: Operand::Reg(Register::A), op1: Operand::Reg(Register::H), op2: Operand::Absent },
        0x8Du8 => Instruction { mnemonic: Mnemonic::ADC, bytes: 1, total_operands: 2, op0: Operand::Reg(Register::A), op1: Operand::Reg(Register::L), op2: Operand::Absent },
        0x8Eu8 => Instruction { mnemonic: Mnemonic::ADC, bytes: 1, total_operands: 2, op0: Operand::Reg(Register::A), op1: Operand::Ind(Register::HL), op2: Operand::Absent },
        0x8Fu8 => Instruction { mnemonic: Mnemonic::ADC, bytes: 1, total_operands: 2, op0: Operand::Reg(Register::A), op1: Operand::Reg(Register::A), op2: Operand::Absent },
        0x90u8 => Instruction { mnemonic: Mnemonic::SUB, bytes: 1, total_operands: 2, op0: Operand::Reg(Register::A), op1: Operand::Reg(Register::B), op2: Operand::Absent },
        0x91u8 => Instruction { mnemonic: Mnemonic::SUB, bytes: 1, total_operands: 2, op0: Operand::Reg(Register::A), op1: Operand::Reg(Register::C), op2: Operand::Absent },
        0x92u8 => Instruction { mnemonic: Mnemonic::SUB, bytes: 1, total_operands: 2, op0: Operand::Reg(Register::A), op1: Operand::Reg(Register::D), op2: Operand::Absent },
        0x93u8 => Instruction { mnemonic: Mnemonic::SUB, bytes: 1, total_operands: 2, op0: Operand::Reg(Register::A), op1: Operand::Reg(Register::E), op2: Operand::Absent },
        0x94u8 => Instruction { mnemonic: Mnemonic::SUB, bytes: 1, total_operands: 2, op0: Operand::Reg(Register::A), op1: Operand::Reg(Register::H), op2: Operand::Absent },
        0x95u8 => Instruction { mnemonic: Mnemonic::SUB, bytes: 1, total_operands: 2, op0: Operand::Reg(Register::A), op1: Operand::Reg(Register::L), op2: Operand::Absent },
        0x96u8 => Instruction { mnemonic: Mnemonic::SUB, bytes: 1, total_operands: 2, op0: Operand::Reg(Register::A), op1: Operand::Ind(Register::HL), op2: Operand::Absent },
        0x97u8 => Instruction { mnemonic: Mnemonic::SUB, bytes: 1, total_operands: 2, op0: Operand::Reg(Register::A), op1: Operand::Reg(Register::A), op2: Operand::Absent },
        0x98u8 => Instruction { mnemonic: Mnemonic::SBC, bytes: 1, total_operands: 2, op0: Operand::Reg(Register::A), op1: Operand::Reg(Register::B), op2: Operand::Absent },
        0x99u8 => Instruction { mnemonic: Mnemonic::SBC, bytes: 1, total_operands: 2, op0: Operand::Reg(Register::A), op1: Operand::Reg(Register::C), op2: Operand::Absent },
        0x9Au8 => Instruction { mnemonic: Mnemonic::SBC, bytes: 1, total_operands: 2, op0: Operand::Reg(Register::A), op1: Operand::Reg(Register::D), op2: Operand::Absent },
        0x9Bu8 => Instruction { mnemonic: Mnemonic::SBC, bytes: 1, total_operands: 2, op0: Operand::Reg(Register::A), op1: Operand::Reg(Register::E), op2: Operand::Absent },
        0x9Cu8 => Instruction { mnemonic: Mnemonic::SBC, bytes: 1, total_operands: 2, op0: Operand::Reg(Register::A), op1: Operand::Reg(Register::H), op2: Operand::Absent },
        0x9Du8 => Instruction { mnemonic: Mnemonic::SBC, bytes: 1, total_operands: 2, op0: Operand::Reg(Register::A), op1: Operand::Reg(Register::L), op2: Operand::Absent },
        0x9Eu8 => Instruction { mnemonic: Mnemonic::SBC, bytes: 1, total_operands: 2, op0: Operand::Reg(Register::A), op1: Operand::Ind(Register::HL), op2: Operand::Absent },
        0x9Fu8 => Instruction { mnemonic: Mnemonic::SBC, bytes: 1, total_operands: 2, op0: Operand::Reg(Register::A), op1: Operand::Reg(Register::A), op2: Operand::Absent },
        0xA0u8 => Instruction { mnemonic: Mnemonic::AND, bytes: 1, total_operands: 2, op0: Operand::Reg(Register::A), op1: Operand::Reg(Register::B), op2: Operand::Absent },
        0xA1u8 => Instruction { mnemonic: Mnemonic::AND, bytes: 1, total_operands: 2, op0: Operand::Reg(Register::A), op1: Operand::Reg(Register::C), op2: Operand::Absent },
        0xA2u8 => Instruction { mnemonic: Mnemonic::AND, bytes: 1, total_operands: 2, op0: Operand::Reg(Register::A), op1: Operand::Reg(Register::D), op2: Operand::Absent },
        0xA3u8 => Instruction { mnemonic: Mnemonic::AND, bytes: 1, total_operands: 2, op0: Operand::Reg(Register::A), op1: Operand::Reg(Register::E), op2: Operand::Absent },
        0xA4u8 => Instruction { mnemonic: Mnemonic::AND, bytes: 1, total_operands: 2, op0: Operand::Reg(Register::A), op1: Operand::Reg(Register::H), op2: Operand::Absent },
        0xA5u8 => Instruction { mnemonic: Mnemonic::AND, bytes: 1, total_operands: 2, op0: Operand::Reg(Register::A), op1: Operand::Reg(Register::L), op2: Operand::Absent },
        0xA6u8 => Instruction { mnemonic: Mnemonic::AND, bytes: 1, total_operands: 2, op0: Operand::Reg(Register::A), op1: Operand::Ind(Register::HL), op2: Operand::Absent },
        0xA7u8 => Instruction { mnemonic: Mnemonic::AND, bytes: 1, total_operands: 2, op0: Operand::Reg(Register::A), op1: Operand::Reg(Register::A), op2: Operand::Absent },
        0xA8u8 => Instruction { mnemonic: Mnemonic::XOR, bytes: 1, total_operands: 2, op0: Operand::Reg(Register::A), op1: Operand::Reg(Register::B), op2: Operand::Absent },
        0xA9u8 => Instruction { mnemonic: Mnemonic::XOR, bytes: 1, total_operands: 2, op0: Operand::Reg(Register::A), op1: Operand::Reg(Register::C), op2: Operand::Absent },
        0xAAu8 => Instruction { mnemonic: Mnemonic::XOR, bytes: 1, total_operands: 2, op0: Operand::Reg(Register::A), op1: Operand::Reg(Register::D), op2: Operand::Absent },
        0xABu8 => Instruction { mnemonic: Mnemonic::XOR, bytes: 1, total_operands: 2, op0: Operand::Reg(Register::A), op1: Operand::Reg(Register::E), op2: Operand::Absent },
        0xACu8 => Instruction { mnemonic: Mnemonic::XOR, bytes: 1, total_operands: 2, op0: Operand::Reg(Register::A), op1: Operand::Reg(Register::H), op2: Operand::Absent },
        0xADu8 => Instruction { mnemonic: Mnemonic::XOR, bytes: 1, total_operands: 2, op0: Operand::Reg(Register::A), op1: Operand::Reg(Register::L), op2: Operand::Absent },
        0xAEu8 => Instruction { mnemonic: Mnemonic::XOR, bytes: 1, total_operands: 2, op0: Operand::Reg(Register::A), op1: Operand::Ind(Register::HL), op2: Operand::Absent },
        0xAFu8 => Instruction { mnemonic: Mnemonic::XOR, bytes: 1, total_operands: 2, op0: Operand::Reg(Register::A), op1: Operand::Reg(Register::A), op2: Operand::Absent },
        0xB0u8 => Instruction { mnemonic: Mnemonic::OR, bytes: 1, total_operands: 2, op0: Operand::Reg(Register::A), op1: Operand::Reg(Register::B), op2: Operand::Absent },
        0xB1u8 => Instruction { mnemonic: Mnemonic::OR, bytes: 1, total_operands: 2, op0: Operand::Reg(Register::A), op1: Operand::Reg(Register::C), op2: Operand::Absent },
        0xB2u8 => Instruction { mnemonic: Mnemonic::OR, bytes: 1, total_operands: 2, op0: Operand::Reg(Register::A), op1: Operand::Reg(Register::D), op2: Operand::Absent },
        0xB3u8 => Instruction { mnemonic: Mnemonic::OR, bytes: 1, total_operands: 2, op0: Operand::Reg(Register::A), op1: Operand::Reg(Register::E), op2: Operand::Absent },
        0xB4u8 => Instruction { mnemonic: Mnemonic::OR, bytes: 1, total_operands: 2, op0: Operand::Reg(Register::A), op1: Operand::Reg(Register::H), op2: Operand::Absent },
        0xB5u8 => Instruction { mnemonic: Mnemonic::OR, bytes: 1, total_operands: 2, op0: Operand::Reg(Register::A), op1: Operand::Reg(Register::L), op2: Operand::Absent },
        0xB6u8 => Instruction { mnemonic: Mnemonic::OR, bytes: 1, total_operands: 2, op0: Operand::Reg(Register::A), op1: Operand::Ind(Register::HL), op2: Operand::Absent },
        0xB7u8 => Instruction { mnemonic: Mnemonic::OR, bytes: 1, total_operands: 2, op0: Operand::Reg(Register::A), op1: Operand::Reg(Register::A), op2: Operand::Absent },
        0xB8u8 => Instruction { mnemonic: Mnemonic::CP, bytes: 1, total_operands: 2, op0: Operand::Reg(Register::A), op1: Operand::Reg(Register::B), op2: Operand::Absent },
        0xB9u8 => Instruction { mnemonic: Mnemonic::CP, bytes: 1, total_operands: 2, op0: Operand::Reg(Register::A), op1: Operand::Reg(Register::C), op2: Operand::Absent },
        0xBAu8 => Instruction { mnemonic: Mnemonic::CP, bytes: 1, total_operands: 2, op0: Operand::Reg(Register::A), op1: Operand::Reg(Register::D), op2: Operand::Absent },
        0xBBu8 => Instruction { mnemonic: Mnemonic::CP, bytes: 1, total_operands: 2, op0: Operand::Reg(Register::A), op1: Operand::Reg(Register::E), op2: Operand::Absent },
        0xBCu8 => Instruction { mnemonic: Mnemonic::CP, bytes: 1, total_operands: 2, op0: Operand::Reg(Register::A), op1: Operand::Reg(Register::H), op2: Operand::Absent },
        0xBDu8 => Instruction { mnemonic: Mnemonic::CP, bytes: 1, total_operands: 2, op0: Operand::Reg(Register::A), op1: Operand::Reg(Register::L), op2: Operand::Absent },
        0xBEu8 => Instruction { mnemonic: Mnemonic::CP, bytes: 1, total_operands: 2, op0: Operand::Reg(Register::A), op1: Operand::Ind(Register::HL), op2: Operand::Absent },
        0xBFu8 => Instruction { mnemonic: Mnemonic::CP, bytes: 1, total_operands: 2, op0: Operand::Reg(Register::A), op1: Operand::Reg(Register::A), op2: Operand::Absent },
        0xC0u8 => Instruction { mnemonic: Mnemonic::RET, bytes: 1, total_operands: 1, op0: Operand::Cond(Condition::NZ), op1: Operand::Absent, op2: Operand::Absent },
        0xC1u8 => Instruction { mnemonic: Mnemonic::POP, bytes: 1, total_operands: 1, op0: Operand::Reg(Register::BC), op1: Operand::Absent, op2: Operand::Absent },
        0xC2u8 => Instruction { mnemonic: Mnemonic::JP, bytes: 3, total_operands: 2, op0: Operand::Cond(Condition::NZ), op1: Operand::N16, op2: Operand::Absent },
        0xC3u8 => Instruction { mnemonic: Mnemonic::JP, bytes: 3, total_operands: 1, op0: Operand::N16, op1: Operand::Absent, op2: Operand::Absent },
        0xC4u8 => Instruction { mnemonic: Mnemonic::CALL, bytes: 3, total_operands: 2, op0: Operand::Cond(Condition::NZ), op1: Operand::N16, op2: Operand::Absent },
        0xC5u8 => Instruction { mnemonic: Mnemonic::PUSH, bytes: 1, total_operands: 1, op0: Operand::Reg(Register::BC), op1: Operand::Absent, op2: Operand::Absent },
        0xC6u8 => Instruction { mnemonic: Mnemonic::ADD, bytes: 2, total_operands: 2, op0: Operand::Reg(Register::A), op1: Operand::N8, op2: Operand::Absent },
        0xC7u8 => Instruction { mnemonic: Mnemonic::RST, bytes: 1, total_operands: 0, op0: Operand::Absent, op1: Operand::Absent, op2: Operand::Absent },
        0xC8u8 => Instruction { mnemonic: Mnemonic::RET, bytes: 1, total_operands: 1, op0: Operand::Cond(Condition::Z), op1: Operand::Absent, op2: Operand::Absent },
        0xC9u8 => Instruction { mnemonic: Mnemonic::RET, bytes: 1, total_operands: 0, op0: Operand::Absent, op1: Operand::Absent, op2: Operand::Absent },
        0xCAu8 => Instruction { mnemonic: Mnemonic::JP, bytes: 3, total_operands: 2, op0: Operand::Cond(Condition::Z), op1: Operand::N16, op2: Operand::Absent },
        0xCBu8 => Instruction { mnemonic: Mnemonic::PREFIX, bytes: 1, total_operands: 0, op0: Operand::Absent, op1: Operand::Absent, op2: Operand::Absent },
        0xCCu8 => Instruction { mnemonic: Mnemonic::CALL, bytes: 3, total_operands: 2, op0: Operand::Cond(Condition::Z), op1: Operand::N16, op2: Operand::Absent },
        0xCDu8 => Instruction { mnemonic: Mnemonic::CALL, bytes: 3, total_operands: 1, op0: Operand::N16, op1: Operand::Absent, op2: Operand::Absent },
        0xCEu8 => Instruction { mnemonic: Mnemonic::ADC, bytes: 2, total_operands: 2, op0: Operand::Reg(Register::A), op1: Operand::N8, op2: Operand::Absent },
        0xCFu8 => Instruction { mnemonic: Mnemonic::RST, bytes: 1, total_operands: 0, op0: Operand::Absent, op1: Operand::Absent, op2: Operand::Absent },
        0xD0u8 => Instruction { mnemonic: Mnemonic::RET, bytes: 1, total_operands: 1, op0: Operand::Cond(Condition::NC), op1: Operand::Absent, op2: Operand::Absent },
        0xD1u8 => Instruction { mnemonic: Mnemonic::POP, bytes: 1, total_operands: 1, op0: Operand::Reg(Register::DE), op1: Operand::Absent, op2: Operand::Absent },
        0xD2u8 => Instruction { mnemonic: Mnemonic::JP, bytes: 3, total_operands: 2, op0: Operand::Cond(Condition::NC), op1: Operand::N16, op2: Operand::Absent },
        0xD3u8 => Instruction { mnemonic: Mnemonic::ILLEGAL, bytes: 1, total_operands: 0, op0: Operand::Absent, op1: Operand::Absent, op2: Operand::Absent },
        0xD4u8 => Instruction { mnemonic: Mnemonic::CALL, bytes: 3, total_operands: 2, op0: Operand::Cond(Condition::NC), op1: Operand::N16, op2: Operand::Absent },
        0xD5u8 => Instruction { mnemonic: Mnemonic::PUSH, bytes: 1, total_operands: 1, op0: Operand::Reg(Register::DE), op1: Operand::Absent, op2: Operand::Absent },
        0xD6u8 => Instruction { mnemonic: Mnemonic::SUB, bytes: 2, total_operands: 2, op0: Operand::Reg(Register::A), op1: Operand::N8, op2: Operand::Absent },
        0xD7u8 => Instruction { mnemonic: Mnemonic::RST, bytes: 1, total_operands: 0, op0: Operand::Absent, op1: Operand::Absent, op2: Operand::Absent },
        0xD8u8 => Instruction { mnemonic: Mnemonic::RET, bytes: 1, total_operands: 1, op0: Operand::Cond(Condition::C), op1: Operand::Absent, op2: Operand::Absent },
        0xD9u8 => Instruction { mnemonic: Mnemonic::RETI, bytes: 1, total_operands: 0, op0: Operand::Absent, op1: Operand::Absent, op2: Operand::Absent },
        0xDAu8 => Instruction { mnemonic: Mnemonic::JP, bytes: 3, total_operands: 2, op0: Operand::Cond(Condition::C), op1: Operand::N16, op2: Operand::Absent },
        0xDBu8 => Instruction { mnemonic: Mnemonic::ILLEGAL, bytes: 1, total_operands: 0, op0: Operand::Absent, op1: Operand::Absent, op2: Operand::Absent },
        0xDCu8 => Instruction { mnemonic: Mnemonic::CALL, bytes: 3, total_operands: 2, op0: Operand::Cond(Condition::C), op1: Operand::N16, op2: Operand::Absent },
        0xDDu8 => Instruction { mnemonic: Mnemonic::ILLEGAL, bytes: 1, total_operands: 0, op0: Operand::Absent, op1: Operand::Absent, op2: Operand::Absent },
        0xDEu8 => Instruction { mnemonic: Mnemonic::SBC, bytes: 2, total_operands: 2, op0: Operand::Reg(Register::A), op1: Operand::N8, op2: Operand::Absent },
        0xDFu8 => Instruction { mnemonic: Mnemonic::RST, bytes: 1, total_operands: 0, op0: Operand::Absent, op1: Operand::Absent, op2: Operand::Absent },
        0xE0u8 => Instruction { mnemonic: Mnemonic::LDH, bytes: 2, total_operands: 2, op0: Operand::A8, op1: Operand::Reg(Register::A), op2: Operand::Absent },
        0xE1u8 => Instruction { mnemonic: Mnemonic::POP, bytes: 1, total_operands: 1, op0: Operand::Reg(Register::HL), op1: Operand::Absent, op2: Operand::Absent },
        0xE2u8 => Instruction { mnemonic: Mnemonic::LDH, bytes: 1, total_operands: 2, op0: Operand::Ind(Register::C), op1: Operand::Reg(Register::A), op2: Operand::Absent },
        0xE3u8 => Instruction { mnemonic: Mnemonic::ILLEGAL, bytes: 1, total_operands: 0, op0: Operand::Absent, op1: Operand::Absent, op2: Operand::Absent },
        0xE4u8 => Instruction { mnemonic: Mnemonic::ILLEGAL, bytes: 1, total_operands: 0, op0: Operand::Absent, op1: Operand::Absent, op2: Operand::Absent },
        0xE5u8 => Instruction { mnemonic: Mnemonic::PUSH, bytes: 1, total_operands: 1, op0: Operand::Reg(Register::HL), op1: Operand::Absent, op2: Operand::Absent },
        0xE6u8 => Instruction { mnemonic: Mnemonic::AND, bytes: 2, total_operands: 2, op0: Operand::Reg(Register::A), op1: Operand::N8, op2: Operand::Absent },
        0xE7u8 => Instruction { mnemonic: Mnemonic::RST, bytes: 1, total_operands: 0, op0: Operand::Absent, op1: Operand::Absent, op2: Operand::Absent },
        0xE8u8 => Instruction { mnemonic: Mnemonic::ADD, bytes: 2, total_operands: 2, op0: Operand::Reg(Register::SP), op1: Operand::E8, op2: Operand::Absent },
        0xE9u8 => Instruction { mnemonic: Mnemonic::JP, bytes: 1, total_operands: 1, op0: Operand::Reg(Register::HL), op1: Operand::Absent, op2: Operand::Absent },
        0xEAu8 => Instruction { mnemonic: Mnemonic::LD, bytes: 3, total_operands: 2, op0: Operand::A16, op1: Operand::Reg(Register::A), op2: Operand::Absent },
        0xEBu8 => Instruction { mnemonic: Mnemonic::ILLEGAL, bytes: 1, total_operands: 0, op0: Operand::Absent, op1: Operand::Absent, op2: Operand::Absent },
        0xECu8 => Instruction { mnemonic: Mnemonic::ILLEGAL, bytes: 1, total_operands: 0, op0: Operand::Absent, op1: Operand::Absent, op2: Operand::Absent },
        0xEDu8 => Instruction { mnemonic: Mnemonic::ILLEGAL, bytes: 1, total_operands: 0, op0: Operand::Absent, op1: Operand::Absent, op2: Operand::Absent },
        0xEEu8 => Instruction { mnemonic: Mnemonic::XOR, bytes: 2, total_operands: 2, op0: Operand::Reg(Register::A), op1: Operand::N8, op2: Operand::Absent },
        0xEFu8 => Instruction { mnemonic: Mnemonic::RST, bytes: 1, total_operands: 0, op0: Operand::Absent, op1: Operand::Absent, op2: Operand::Absent },
        0xF0u8 => Instruction { mnemonic: Mnemonic::LDH, bytes: 2, total_operands: 2, op0: Operand::Reg(Register::A), op1: Operand::A8, op2: Operand::Absent },
        0xF1u8 => Instruction { mnemonic: Mnemonic::POP, bytes: 1, total_operands: 1, op0: Operand::Reg(Register::AF), op1: Operand::Absent, op2: Operand::Absent },
        0xF2u8 => Instruction { mnemonic: Mnemonic::LDH, bytes: 1, total_operands: 2, op0: Operand::Reg(Register::A), op1: Operand::Ind(Register::C), op2: Operand::Absent },
        0xF3u8 => Instruction { mnemonic: Mnemonic::DI, bytes: 1, total_operands: 0, op0: Operand::Absent, op1: Operand::Absent, op2: Operand::Absent },
        0xF4u8 => Instruction { mnemonic: Mnemonic::ILLEGAL, bytes: 1, total_operands: 0, op0: Operand::Absent, op1: Operand::Absent, op2: Operand::Absent },
        0xF5u8 => Instruction { mnemonic: Mnemonic::PUSH, bytes: 1, total_operands: 1, op0: Operand::Reg(Register::AF), op1: Operand::Absent, op2: Operand::Absent },
        0xF6u8 => Instruction { mnemonic: Mnemonic::OR, bytes: 2, total_operands: 2, op0: Operand::Reg(Register::A), op1: Operand::N8, op2: Operand::Absent },
        0xF7u8 => Instruction { mnemonic: Mnemonic::RST, bytes: 1, total_operands: 0, op0: Operand::Absent, op1: Operand::Absent, op2: Operand::Absent },
        0xF8u8 => Instruction { mnemonic: Mnemonic::LD, bytes: 2, total_operands: 3, op0: Operand::Reg(Register::HL), op1: Operand::Reg(Register::SP), op2: Operand::E8 },
        0xF9u8 => Instruction { mnemonic: Mnemonic::LD, bytes: 1, total_operands: 2, op0: Operand::Reg(Register::SP), op1: Operand::Reg(Register::HL), op2: Operand::Absent },
        0xFAu8 => Instruction { mnemonic: Mnemonic::LD, bytes: 3, total_operands: 2, op0: Operand::Reg(Register::A), op1: Operand::A16, op2: Operand::Absent },
        0xFBu8 => Instruction { mnemonic: Mnemonic::EI, bytes: 1, total_operands: 0, op0: Operand::Absent, op1: Operand::Absent, op2: Operand::Absent },
        0xFCu8 => Instruction { mnemonic: Mnemonic::ILLEGAL, bytes: 1, total_operands: 0, op0: Operand::Absent, op1: Operand::Absent, op2: Operand::Absent },
        0xFDu8 => Instruction { mnemonic: Mnemonic::ILLEGAL, bytes: 1, total_operands: 0, op0: Operand::Absent, op1: Operand::Absent, op2: Operand::Absent },
        0xFEu8 => Instruction { mnemonic: Mnemonic::CP, bytes: 2, total_operands: 2, op0: Operand::Reg(Register::A), op1: Operand::N8, op2: Operand::Absent },
        0xFFu8 => Instruction { mnemonic: Mnemonic::RST, bytes: 1, total_operands: 0, op0: Operand::Absent, op1: Operand::Absent, op2: Operand::Absent },
    }
}

/// Decodes an unprefixed opcode.
pub fn decode(opcode: u8) -> (r: Instruction)
    ensures
        r == instruction_of(opcode),
{
    match opcode {
        0x00u8 => Instruction { mnemonic: Mnemonic::NOP, bytes: 1, total_operands: 0, op0: Operand::Absent, op1: Operand::Absent, op2: Operand::Absent },
        0x01u8 => Instruction { mnemonic: Mnemonic::LD, bytes: 3, total_operands: 2, op0: Operand::Reg(Register::BC), op1: Operand::N16, op2: Operand::Absent },
        0x02u8 => Instruction { mnemonic: Mnemonic::LD, bytes: 1, total_operands: 2, op0: Operand::Ind(Register::BC), op1: Operand::Reg(Register::A), op2: Operand::Absent },
        0x03u8 => Instruction { mnemonic: Mnemonic::INC, bytes: 1, total_operands: 1, op0: Operand::Reg(Register::BC), op1: Operand::Absent, op2: Operand::Absent },
        0x04u8 => Instruction { mnemonic: Mnemonic::INC, bytes: 1, total_operands: 1, op0: Operand::Reg(Register::B), op1: Operand::Absent, op2: Operand::Absent },
        0x05u8 => Instruction { mnemonic: Mnemonic::DEC, bytes: 1, total_operands: 1, op0: Operand::Reg(Register::B), op1: Operand::Absent, op2: Operand::Absent },
        0x06u8 => Instruction { mnemonic: Mnemonic::LD, bytes: 2, total_operands: 2, op0: Operand::Reg(Register::B), op1: Operand::N8, op2: Operand::Absent },
        0x07u8 => Instruction { mnemonic: Mnemonic::RLCA, bytes: 1, total_operands: 0, op0: Operand::Absent, op1: Operand::Absent, op2: Operand::Absent },
        0x08u8 => Instruction { mnemonic: Mnemonic::LD, bytes: 3, total_operands: 2, op0: Operand::A16, op1: Operand::Reg(Register::SP), op2: Operand::Absent },
        0x09u8 => Instruction { mnemonic: Mnemonic::ADD, bytes: 1, total_operands: 2, op0: Operand::Reg(Register::HL), op1: Operand::Reg(Register::BC), op2: Operand::Absent },
        0x0Au8 => Instruction { mnemonic: Mnemonic::LD, bytes: 1, total_operands: 2, op0: Operand::Reg(Register::A), op1: Operand::Ind(Register::BC), op2: Operand::Absent },
        0x0Bu8 => Instruction { mnemonic: Mnemonic::DEC, bytes: 1, total_operands: 1, op0: Operand::Reg(Register::BC), op1: Operand::Absent, op2: Operand::Absent },
        0x0Cu8 => Instruction { mnemonic: Mnemonic::INC, bytes: 1, total_operands: 1, op0: Operand::Reg(Register::C), op1: Operand::Absent, op2: Operand::Absent },
        0x0Du8 => Instruction { mnemonic: Mnemonic::DEC, bytes: 1, total_operands: 1, op0: Operand::Reg(Register::C), op1: Operand::Absent, op2: Operand::Absent },
        0x0Eu8 => Instruction { mnemonic: Mnemonic::LD, bytes: 2, total_operands: 2, op0: Operand::Reg(Register::C), op1: Operand::N8, op2: Operand::Absent },
        0x0Fu8 => Instruction { mnemonic: Mnemonic::RRCA, bytes: 1, total_operands: 0, op0: Operand::Absent, op1: Operand::Absent, op2: Operand::Absent },
        0x10u8 => Instruction { mnemonic: Mnemonic::STOP, bytes: 2, total_operands: 1, op0: Operand::N8, op1: Operand::Absent, op2: Operand::Absent },
        0x11u8 => Instruction { mnemonic: Mnemonic::LD, bytes: 3, total_operands: 2, op0: Operand::Reg(Register::DE), op1: Operand::N16, op2: Operand::Absent },
        0x12u8 => Instruction { mnemonic: Mnemonic::LD, bytes: 1, total_operands: 2, op0: Operand::Ind(Register::DE), op1: Operand::Reg(Register::A), op2: Operand::Absent },
        0x13u8 => Instruction { mnemonic: Mnemonic::INC, bytes: 1, total_operands: 1, op0: Operand::Reg(Register::DE), op1: Operand::Absent, op2: Operand::Absent },
        0x14u8 => Instruction { mnemonic: Mnemonic::INC, bytes: 1, total_operands: 1, op0: Operand::Reg(Register::D), op1: Operand::Absent, op2: Operand::Absent },
        0x15u8 => Instruction { mnemonic: Mnemonic::DEC, bytes: 1, total_operands: 1, op0: Operand::Reg(Register::D), op1: Operand::Absent, op2: Operand::Absent },
        0x16u8 => Instruction { mnemonic: Mnemonic::LD, bytes: 2, total_operands: 2, op0: Operand::Reg(Register::D), op1: Operand::N8, op2: Operand::Absent },
        0x17u8 => Instruction { mnemonic: Mnemonic::RLA, bytes: 1, total_operands: 0, op0: Operand::Absent, op1: Operand::Absent, op2: Operand::Absent },
        0x18u8 => Instruction { mnemonic: Mnemonic::JR, bytes: 2, total_operands: 1, op0: Operand::E8, op1: Operand::Absent, op2: Operand::Absent },
        0x19u8 => Instruction { mnemonic: Mnemonic::ADD, bytes: 1, total_operands: 2, op0: Operand::Reg(Register::HL), op1: Operand::Reg(Register::DE), op2: Operand::Absent },
        0x1Au8 => Instruction { mnemonic: Mnemonic::LD, bytes: 1, total_operands: 2, op0: Operand::Reg(Register::A), op1: Operand::Ind(Register::DE), op2: Operand::Absent },
        0x1Bu8 => Instruction { mnemonic: Mnemonic::DEC, bytes: 1, total_operands: 1, op0: Operand::Reg(Register::DE), op1: Operand::Absent, op2: Operand::Absent },
        0x1Cu8 => Instruction { mnemonic: Mnemonic::INC, bytes: 1, total_operands: 1, op0: Operand::Reg(Register::E), op1: Operand::Absent, op2: Operand::Absent },
        0x1Du8 => Instruction { mnemonic: Mnemonic::DEC, bytes: 1, total_operands: 1, op0: Operand::Reg(Register::E), op1: Operand::Absent, op2: Operand::Absent },
        0x1Eu8 => Instruction { mnemonic: Mnemonic::LD, bytes: 2, total_operands: 2, op0: Operand::Reg(Register::E), op1: Operand::N8, op2: Operand::Absent },
        0x1Fu8 => Instruction { mnemonic: Mnemonic::RRA, bytes: 1, total_operands: 0, op0: Operand::Absent, op1: Operand::Absent, op2: Operand::Absent },
        0x20u8 => Instruction { mnemonic: Mnemonic::JR, bytes: 2, total_operands: 2, op0: Operand::Cond(Condition::NZ), op1: Operand::E8, op2: Operand::Absent },
        0x21u8 => Instruction { mnemonic: Mnemonic::LD, bytes: 3, total_operands: 2, op0: Operand::Reg(Register::HL), op1: Operand::N16, op2: Operand::Absent },
        0x22u8 => Instruction { mnemonic: Mnemonic::LD, bytes: 1, total_operands: 2, op0: Operand::IndInc, op1: Operand::Reg(Register::A), op2: Operand::Absent },
        0x23u8 => Instruction { mnemonic: Mnemonic::INC, bytes: 1, total_operands: 1, op0: Operand::Reg(Register::HL), op1: Operand::Absent, op2: Operand::Absent },
        0x24u8 => Instruction { mnemonic: Mnemonic::INC, bytes: 1, total_operands: 1, op0: Operand::Reg(Register::H), op1: Operand::Absent, op2: Operand::Absent },
        0x25u8 => Instruction { mnemonic: Mnemonic::DEC, bytes: 1, total_operands: 1, op0: Operand::Reg(Register::H), op1: Operand::Absent, op2: Operand::Absent },
        0x26u8 => Instruction { mnemonic: Mnemonic::LD, bytes: 2, total_operands: 2, op0: Operand::Reg(Register::H), op1: Operand::N8, op2: Operand::Absent },
        0x27u8 => Instruction { mnemonic: Mnemonic::DAA, bytes: 1, total_operands: 0, op0: Operand::Absent, op1: Operand::Absent, op2: Operand::Absent },
        0x28u8 => Instruction { mnemonic: Mnemonic::JR, bytes: 2, total_operands: 2, op0: Operand::Cond(Condition::Z), op1: Operand::E8, op2: Operand::Absent },
        0x29u8 => Instruction { mnemonic: Mnemonic::ADD, bytes: 1, total_operands: 2, op0: Operand::Reg(Register::HL), op1: Operand::Reg(Register::HL), op2: Operand::Absent },
        0x2Au8 => Instruction { mnemonic: Mnemonic::LD, bytes: 1, total_operands: 2, op0: Operand::Reg(Register::A), op1: Operand::IndInc, op2: Operand::Absent },
        0x2Bu8 => Instruction { mnemonic: Mnemonic::DEC, bytes: 1, total_operands: 1, op0: Operand::Reg(Register::HL), op1: Operand::Absent, op2: Operand::Absent },
        0x2Cu8 => Instruction { mnemonic: Mnemonic::INC, bytes: 1, total_operands: 1, op0: Operand::Reg(Register::L), op1: Operand::Absent, op2: Operand::Absent },
        0x2Du8 => Instruction { mnemonic: Mnemonic::DEC, bytes: 1, total_operands: 1, op0: Operand::Reg(Register::L), op1: Operand::Absent, op2: Operand::Absent },
        0x2Eu8 => Instruction { mnemonic: Mnemonic::LD, bytes: 2, total_operands: 2, op0: Operand::Reg(Register::L), op1: Operand::N8, op2: Operand::Absent },
        0x2Fu8 => Instruction { mnemonic: Mnemonic::CPL, bytes: 1, total_operands: 0, op0: Operand::Absent, op1: Operand::Absent, op2: Operand::Absent },
        0x30u8 => Instruction { mnemonic: Mnemonic::JR, bytes: 2, total_operands: 2, op0: Operand::Cond(Condition::NC), op1: Operand::E8, op2: Operand::Absent },
        0x31u8 => Instruction { mnemonic: Mnemonic::LD, bytes: 3, total_operands: 2, op0: Operand::Reg(Register::SP), op1: Operand::N16, op2: Operand::Absent },
        0x32u8 => Instruction { mnemonic: Mnemonic::LD, bytes: 1, total_operands: 2, op0: Operand::IndDec, op1: Operand::Reg(Register::A), op2: Operand::Absent },
        0x33u8 => Instruction { mnemonic: Mnemonic::INC, bytes: 1, total_operands: 1, op0: Operand::Reg(Register::SP), op1: Operand::Absent, op2: Operand::Absent },
        0x34u8 => Instruction { mnemonic: Mnemonic::INC, bytes: 1, total_operands: 1, op0: Operand::Ind(Register::HL), op1: Operand::Absent, op2: Operand::Absent },
        0x35u8 => Instruction { mnemonic: Mnemonic::DEC, bytes: 1, total_operands: 1, op0: Operand::Ind(Register::HL), op1: Operand::Absent, op2: Operand::Absent },
        0x36u8 => Instruction { mnemonic: Mnemonic::LD, bytes: 2, total_operands: 2, op0: Operand::Ind(Register::HL), op1: Operand::N8, op2: Operand::Absent },
        0x37u8 => Instruction { mnemonic: Mnemonic::SCF, bytes: 1, total_operands: 0, op0: Operand::Absent, op1: Operand::Absent, op2: Operand::Absent },
        0x38u8 => Instruction { mnemonic: Mnemonic::JR, bytes: 2, total_operands: 2, op0: Operand::Cond(Condition::C), op1: Operand::E8, op2: Operand::Absent },
        0x39u8 => Instruction { mnemonic: Mnemonic::ADD, bytes: 1, total_operands: 2, op0: Operand::Reg(Register::HL), op1: Operand::Reg(Register::SP), op2: Operand::Absent },
        0x3Au8 => Instruction { mnemonic: Mnemonic::LD, bytes: 1, total_operands: 2, op0: Operand::Reg(Register::A), op1: Operand::IndDec, op2: Operand::Absent },
        0x3Bu8 => Instruction { mnemonic: Mnemonic::DEC, bytes: 1, total_operands: 1, op0: Operand::Reg(Register::SP), op1: Operand::Absent, op2: Operand::Absent },
        0x3Cu8 => Instruction { mnemonic: Mnemonic::INC, bytes: 1, total_operands: 1, op0: Operand::Reg(Register::A), op1: Operand::Absent, op2: Operand::Absent },
        0x3Du8 => Instruction { mnemonic: Mnemonic::DEC, bytes: 1, total_operands: 1, op0: Operand::Reg(Register::A), op1: Operand::Absent, op2: Operand::Absent },
        0x3Eu8 => Instruction { mnemonic: Mnemonic::LD, bytes: 2, total_operands: 2, op0: Operand::Reg(Register::A), op1: Operand::N8, op2: Operand::Absent },
        0x3Fu8 => Instruction { mnemonic: Mnemonic::CCF, bytes: 1, total_operands: 0, op0: Operand::Absent, op1: Operand::Absent, op2: Operand::Absent },
        0x40u8 => Instruction { mnemonic: Mnemonic::LD, bytes: 1, total_operands: 2, op0: Operand::Reg(Register::B), op1: Operand::Reg(Register::B), op2: Operand::Absent },
        0x41u8 => Instruction { mnemonic: Mnemonic::LD, bytes: 1, total_operands: 2, op0: Operand::Reg(Register::B), op1: Operand::Reg(Register::C), op2: Operand::Absent },
        0x42u8 => Instruction { mnemonic: Mnemonic::LD, bytes: 1, total_operands: 2, op0: Operand::Reg(Register::B), op1: Operand::Reg(Register::D), op2: Operand::Absent },
        0x43u8 => Instruction { mnemonic: Mnemonic::LD, bytes: 1, total_operands: 2, op0: Operand::Reg(Register::B), op1: Operand::Reg(Register::E), op2: Operand::Absent },
        0x44u8 => Instruction { mnemonic: Mnemonic::LD, bytes: 1, total_operands: 2, op0: Operand::Reg(Register::B), op1: Operand::Reg(Register::H), op2: Operand::Absent },
        0x45u8 => Instruction { mnemonic: Mnemonic::LD, bytes: 1, total_operands: 2, op0: Operand::Reg(Register::B), op1: Operand::Reg(Register::L), op2: Operand::Absent },
        0x46u8 => Instruction { mnemonic: Mnemonic::LD, bytes: 1, total_operands: 2, op0: Operand::Reg(Register::B), op1: Operand::Ind(Register::HL), op2: Operand::Absent },
        0x47u8 => Instruction { mnemonic: Mnemonic::LD, bytes: 1, total_operands: 2, op0: Operand::Reg(Register::B), op1: Operand::Reg(Register::A), op2: Operand::Absent },
        0x48u8 => Instruction { mnemonic: Mnemonic::LD, bytes: 1, total_operands: 2, op0: Operand::Reg(Register::C), op1: Operand::Reg(Register::B), op2: Operand::Absent },
        0x49u8 => Instruction { mnemonic: Mnemonic::LD, bytes: 1, total_operands: 2, op0: Operand::Reg(Register::C), op1: Operand::Reg(Register::C), op2: Operand::Absent },
        0x4Au8 => Instruction { mnemonic: Mnemonic::LD, bytes: 1, total_operands: 2, op0: Operand::Reg(Register::C), op1: Operand::Reg(Register::D), op2: Operand::Absent },
        0x4Bu8 => Instruction { mnemonic: Mnemonic::LD, bytes: 1, total_operands: 2, op0: Operand::Reg(Register::C), op1: Operand::Reg(Register::E), op2: Operand::Absent },
        0x4Cu8 => Instruction { mnemonic: Mnemonic::LD, bytes: 1, total_operands: 2, op0: Operand::Reg(Register::C), op1: Operand::Reg(Register::H), op2: Operand::Absent },
        0x4Du8 => Instruction { mnemonic: Mnemonic::LD, bytes: 1, total_operands: 2, op0: Operand::Reg(Register::C), op1: Operand::Reg(Register::L), op2: Operand::Absent },
        0x4Eu8 => Instruction { mnemonic: Mnemonic::LD, bytes: 1, total_operands: 2, op0: Operand::Reg(Register::C), op1: Operand::Ind(Register::HL), op2: Operand::Absent },
        0x4Fu8 => Instruction { mnemonic: Mnemonic::LD, bytes: 1, total_operands: 2, op0: Operand::Reg(Register::C), op1: Operand::Reg(Register::A), op2: Operand::Absent },
        0x50u8 => Instruction { mnemonic: Mnemonic::LD, bytes: 1, total_operands: 2, op0: Operand::Reg(Register::D), op1: Operand::Reg(Register::B), op2: Operand::Absent },
        0x51u8 => Instruction { mnemonic: Mnemonic::LD, bytes: 1, total_operands: 2, op0: Operand::Reg(Register::D), op1: Operand::Reg(Register::C), op2: Operand::Absent },
        0x52u8 => Instruction { mnemonic: Mnemonic::LD, bytes: 1, total_operands: 2, op0: Operand::Reg(Register::D), op1: Operand::Reg(Register::D), op2: Operand::Absent },
        0x53u8 => Instruction { mnemonic: Mnemonic::LD, bytes: 1, total_operands: 2, op0: Operand::Reg(Register::D), op1: Operand::Reg(Register::E), op2: Operand::Absent },
        0x54u8 => Instruction { mnemonic: Mnemonic::LD, bytes: 1, total_operands: 2, op0: Operand::Reg(Register::D), op1: Operand::Reg(Register::H), op2: Operand::Absent },
        0x55u8 => Instruction { mnemonic: Mnemonic::LD, bytes: 1, total_operands: 2, op0: Operand::Reg(Register::D), op1: Operand::Reg(Register::L), op2: Operand::Absent },
        0x56u8 => Instruction { mnemonic: Mnemonic::LD, bytes: 1, total_operands: 2, op0: Operand::Reg(Register::D), op1: Operand::Ind(Register::HL), op2: Operand::Absent },
        0x57u8 => Instruction { mnemonic: Mnemonic::LD, bytes: 1, total_operands: 2, op0: Operand::Reg(Register::D), op1: Operand::Reg(Register::A), op2: Operand::Absent },
        0x58u8 => Instruction { mnemonic: Mnemonic::LD, bytes: 1, total_operands: 2, op0: Operand::Reg(Register::E), op1: Operand::Reg(Register::B), op2: Operand::Absent },
        0x59u8 => Instruction { mnemonic: Mnemonic::LD, bytes: 1, total_operands: 2, op0: Operand::Reg(Register::E), op1: Operand::Reg(Register::C), op2: Operand::Absent },
        0x5Au8 => Instruction { mnemonic: Mnemonic::LD, bytes: 1, total_operands: 2, op0: Operand::Reg(Register::E), op1: Operand::Reg(Register::D), op2: Operand::Absent },
        0x5Bu8 => Instruction { mnemonic: Mnemonic::LD, bytes: 1, total_operands: 2, op0: Operand::Reg(Register::E), op1: Operand::Reg(Register::E), op2: Operand::Absent },
        0x5Cu8 => Instruction { mnemonic: Mnemonic::LD, bytes: 1, total_operands: 2, op0: Operand::Reg(Register::E), op1: Operand::Reg(Register::H), op2: Operand::Absent },
        0x5Du8 => Instruction { mnemonic: Mnemonic::LD, bytes: 1, total_operands: 2, op0: Operand::Reg(Register::E), op1: Operand::Reg(Register::L), op2: Operand::Absent },
        0x5Eu8 => Instruction { mnemonic: Mnemonic::LD, bytes: 1, total_operands: 2, op0: Operand::Reg(Register::E), op1: Operand::Ind(Register::HL), op2: Operand::Absent },
        0x5Fu8 => Instruction { mnemonic: Mnemonic::LD, bytes: 1, total_operands: 2, op0: Operand::Reg(Register::E), op1: Operand::Reg(Register::A), op2: Operand::Absent },
        0x60u8 => Instruction { mnemonic: Mnemonic::LD, bytes: 1, total_operands: 2, op0: Operand::Reg(Register::H), op1: Operand::Reg(Register::B), op2: Operand::Absent },
        0x61u8 => Instruction { mnemonic: Mnemonic::LD, bytes: 1, total_operands: 2, op0: Operand::Reg(Register::H), op1: Operand::Reg(Register::C), op2: Operand::Absent },
        0x62u8 => Instruction { mnemonic: Mnemonic::LD, bytes: 1, total_operands: 2, op0: Operand::Reg(Register::H), op1: Operand::Reg(Register::D), op2: Operand::Absent },
        0x63u8 => Instruction { mnemonic: Mnemonic::LD, bytes: 1, total_operands: 2, op0: Operand::Reg(Register::H), op1: Operand::Reg(Register::E), op2: Operand::Absent },
        0x64u8 => Instruction { mnemonic: Mnemonic::LD, bytes: 1, total_operands: 2, op0: Operand::Reg(Register::H), op1: Operand::Reg(Register::H), op2: Operand::Absent },
        0x65u8 => Instruction { mnemonic: Mnemonic::LD, bytes: 1, total_operands: 2, op0: Operand::Reg(Register::H), op1: Operand::Reg(Register::L), op2: Operand::Absent },
        0x66u8 => Instruction { mnemonic: Mnemonic::LD, bytes: 1, total_operands: 2, op0: Operand::Reg(Register::H), op1: Operand::Ind(Register::HL), op2: Operand::Absent },
        0x67u8 => Instruction { mnemonic: Mnemonic::LD, bytes: 1, total_operands: 2, op0: Operand::Reg(Register::H), op1: Operand::Reg(Register::A), op2: Operand::Absent },
        0x68u8 => Instruction { mnemonic: Mnemonic::LD, bytes: 1, total_operands: 2, op0: Operand::Reg(Register::L), op1: Operand::Reg(Register::B), op2: Operand::Absent },
        0x69u8 => Instruction { mnemonic: Mnemonic::LD, bytes: 1, total_operands: 2, op0: Operand::Reg(Register::L), op1: Operand::Reg(Register::C), op2: Operand::Absent },
        0x6Au8 => Instruction { mnemonic: Mnemonic::LD, bytes: 1, total_operands: 2, op0: Operand::Reg(Register::L), op1: Operand::Reg(Register::D), op2: Operand::Absent },
        0x6Bu8 => Instruction { mnemonic: Mnemonic::LD, bytes: 1, total_operands: 2, op0: Operand::Reg(Register::L), op1: Operand::Reg(Register::E), op2: Operand::Absent },
        0x6Cu8 => Instruction { mnemonic: Mnemonic::LD, bytes: 1, total_operands: 2, op0: Operand::Reg(Register::L), op1: Operand::Reg(Register::H), op2: Operand::Absent },
        0x6Du8 => Instruction { mnemonic: Mnemonic::LD, bytes: 1, total_operands: 2, op0: Operand::Reg(Register::L), op1: Operand::Reg(Register::L), op2: Operand::Absent },
        0x6Eu8 => Instruction { mnemonic: Mnemonic::LD, bytes: 1, total_operands: 2, op0: Operand::Reg(Register::L), op1: Operand::Ind(Register::HL), op2: Operand::Absent },
        0x6Fu8 => Instruction { mnemonic: Mnemonic::LD, bytes: 1, total_operands: 2, op0: Operand::Reg(Register::L), op1: Operand::Reg(Register::A), op2: Operand::Absent },
        0x70u8 => Instruction { mnemonic: Mnemonic::LD, bytes: 1, total_operands: 2, op0: Operand::Ind(Register::HL), op1: Operand::Reg(Register::B), op2: Operand::Absent },
        0x71u8 => Instruction { mnemonic: Mnemonic::LD, bytes: 1, total_operands: 2, op0: Operand::Ind(Register::HL), op1: Operand::Reg(Register::C), op2: Operand::Absent },
        0x72u8 => Instruction { mnemonic: Mnemonic::LD, bytes: 1, total_operands: 2, op0: Operand::Ind(Register::HL), op1: Operand::Reg(Register::D), op2: Operand::Absent },
        0x73u8 => Instruction { mnemonic: Mnemonic::LD, bytes: 1, total_operands: 2, op0: Operand::Ind(Register::HL), op1: Operand::Reg(Register::E), op2: Operand::Absent },
        0x74u8 => Instruction { mnemonic: Mnemonic::LD, bytes: 1, total_operands: 2, op0: Operand::Ind(Register::HL), op1: Operand::Reg(Register::H), op2: Operand::Absent },
        0x75u8 => Instruction { mnemonic: Mnemonic::LD, bytes: 1, total_operands: 2, op0: Operand::Ind(Register::HL), op1: Operand::Reg(Register::L), op2: Operand::Absent },
        0x76u8 => Instruction { mnemonic: Mnemonic::HALT, bytes: 1, total_operands: 0, op0: Operand::Absent, op1: Operand::Absent, op2: Operand::Absent },
        0x77u8 => Instruction { mnemonic: Mnemonic::LD, bytes: 1, total_operands: 2, op0: Operand::Ind(Register::HL), op1: Operand::Reg(Register::A), op2: Operand::Absent },
        0x78u8 => Instruction { mnemonic: Mnemonic::LD, bytes: 1, total_operands: 2, op0: Operand::Reg(Register::A), op1: Operand::Reg(Register::B), op2: Operand::Absent },
        0x79u8 => Instruction { mnemonic: Mnemonic::LD, bytes: 1, total_operands: 2, op0: Operand::Reg(Register::A), op1: Operand::Reg(Register::C), op2: Operand::Absent },
        0x7Au8 => Instruction { mnemonic: Mnemonic::LD, bytes: 1, total_operands: 2, op0: Operand::Reg(Register::A), op1: Operand::Reg(Register::D), op2: Operand::Absent },
        0x7Bu8 => Instruction { mnemonic: Mnemonic::LD, bytes: 1, total_operands: 2, op0: Operand::Reg(Register::A), op1: Operand::Reg(Register::E), op2: Operand::Absent },
        0x7Cu8 => Instruction { mnemonic: Mnemonic::LD, bytes: 1, total_operands: 2, op0: Operand::Reg(Register::A), op1: Operand::Reg(Register::H), op2: Operand::Absent },
        0x7Du8 => Instruction { mnemonic: Mnemonic::LD, bytes: 1, total_operands: 2, op0: Operand::Reg(Register::A), op1: Operand::Reg(Register::L), op2: Operand::Absent },
        0x7Eu8 => Instruction { mnemonic: Mnemonic::LD, bytes: 1, total_operands: 2, op0: Operand::Reg(Register::A), op1: Operand::Ind(Register::HL), op2: Operand::Absent },
        0x7Fu8 => Instruction { mnemonic: Mnemonic::LD, bytes: 1, total_operands: 2, op0: Operand::Reg(Register::A), op1: Operand::Reg(Register::A), op2: Operand::Absent },
        0x80u8 => Instruction { mnemonic: Mnemonic::ADD, bytes: 1, total_operands: 2, op0: Operand::Reg(Register::A), op1: Operand::Reg(Register::B), op2: Operand::Absent },
        0x81u8 => Instruction { mnemonic: Mnemonic::ADD, bytes: 1, total_operands: 2, op0: Operand::Reg(Register::A), op1: Operand::Reg(Register::C), op2: Operand::Absent },
        0x82u8 => Instruction { mnemonic: Mnemonic::ADD, bytes: 1, total_operands: 2, op0: Operand::Reg(Register::A), op1: Operand::Reg(Register::D), op2: Operand::Absent },
        0x83u8 => Instruction { mnemonic: Mnemonic::ADD, bytes: 1, total_operands: 2, op0: Operand::Reg(Register::A), op1: Operand::Reg(Register::E), op2: Operand::Absent },
        0x84u8 => Instruction { mnemonic: Mnemonic::ADD, bytes: 1, total_operands: 2, op0: Operand::Reg(Register::A), op1: Operand::Reg(Register::H), op2: Operand::Absent },
        0x85u8 => Instruction { mnemonic: Mnemonic::ADD, bytes: 1, total_operands: 2, op0: Operand::Reg(Register::A), op1: Operand::Reg(Register::L), op2: Operand::Absent },
        0x86u8 => Instruction { mnemonic: Mnemonic::ADD, bytes: 1, total_operands: 2, op0: Operand::Reg(Register::A), op1: Operand::Ind(Register::HL), op2: Operand::Absent },
        0x87u8 => Instruction { mnemonic: Mnemonic::ADD, bytes: 1, total_operands: 2, op0: Operand::Reg(Register::A), op1: Operand::Reg(Register::A), op2: Operand::Absent },
        0x88u8 => Instruction { mnemonic: Mnemonic::ADC, bytes: 1, total_operands: 2, op0: Operand::Reg(Register::A), op1: Operand::Reg(Register::B), op2: Operand::Absent },
        0x89u8 => Instruction { mnemonic: Mnemonic::ADC, bytes: 1, total_operands: 2, op0: Operand::Reg(Register::A), op1: Operand::Reg(Register::C), op2: Operand::Absent },
        0x8Au8 => Instruction { mnemonic: Mnemonic::ADC, bytes: 1, total_operands: 2, op0: Operand::Reg(Register::A), op1: Operand::Reg(Register::D), op2: Operand::Absent },
        0x8Bu8 => Instruction { mnemonic: Mnemonic::ADC, bytes: 1, total_operands: 2, op0: Operand::Reg(Register::A), op1: Operand::Reg(Register::E), op2: Operand::Absent },
        0x8Cu8 => Instruction { mnemonic: Mnemonic::ADC, bytes: 1, total_operands: 2, op0: Operand::Reg(Register::A), op1: Operand::Reg(Register::H), op2: Operand::Absent },
        0x8Du8 => Instruction { mnemonic: Mnemonic::ADC, bytes: 1, total_operands: 2, op0: Operand::Reg(Register::A), op1: Operand::Reg(Register::L), op2: Operand::Absent },
        0x8Eu8 => Instruction { mnemonic: Mnemonic::ADC, bytes: 1, total_operands: 2, op0: Operand::Reg(Register::A), op1: Operand::Ind(Register::HL), op2: Operand::Absent },
        0x8Fu8 => Instruction { mnemonic: Mnemonic::ADC, bytes: 1, total_operands: 2, op0: Operand::Reg(Register::A), op1: Operand::Reg(Register::A), op2: Operand::Absent },
        0x90u8 => Instruction { mnemonic: Mnemonic::SUB, bytes: 1, total_operands: 2, op0: Operand::Reg(Register::A), op1: Operand::Reg(Register::B), op2: Operand::Absent },
        0x91u8 => Instruction { mnemonic: Mnemonic::SUB, bytes: 1, total_operands: 2, op0: Operand::Reg(Register::A), op1: Operand::Reg(Register::C), op2: Operand::Absent },
        0x92u8 => Instruction { mnemonic: Mnemonic::SUB, bytes: 1, total_operands: 2, op0: Operand::Reg(Register::A), op1: Operand::Reg(Register::D), op2: Operand::Absent },
        0x93u8 => Instruction { mnemonic: Mnemonic::SUB, bytes: 1, total_operands: 2, op0: Operand::Reg(Register::A), op1: Operand::Reg(Register::E), op2: Operand::Absent },
        0x94u8 => Instruction { mnemonic: Mnemonic::SUB, bytes: 1, total_operands: 2, op0: Operand::Reg(Register::A), op1: Operand::Reg(Register::H), op2: Operand::Absent },
        0x95u8 => Instruction { mnemonic: Mnemonic::SUB, bytes: 1, total_operands: 2, op0: Operand::Reg(Register::A), op1: Operand::Reg(Register::L), op2: Operand::Absent },
        0x96u8 => Instruction { mnemonic: Mnemonic::SUB, bytes: 1, total_operands: 2, op0: Operand::Reg(Register::A), op1: Operand::Ind(Register::HL), op2: Operand::Absent },
        0x97u8 => Instruction { mnemonic: Mnemonic::SUB, bytes: 1, total_operands: 2, op0: Operand::Reg(Register::A), op1: Operand::Reg(Register::A), op2: Operand::Absent },
        0x98u8 => Instruction { mnemonic: Mnemonic::SBC, bytes: 1, total_operands: 2, op0: Operand::Reg(Register::A), op1: Operand::Reg(Register::B), op2: Operand::Absent },
        0x99u8 => Instruction { mnemonic: Mnemonic::SBC, bytes: 1, total_operands: 2, op0: Operand::Reg(Register::A), op1: Operand::Reg(Register::C), op2: Operand::Absent },
        0x9Au8 => Instruction { mnemonic: Mnemonic::SBC, bytes: 1, total_operands: 2, op0: Operand::Reg(Register::A), op1: Operand::Reg(Register::D), op2: Operand::Absent },
        0x9Bu8 => Instruction { mnemonic: Mnemonic::SBC, bytes: 1, total_operands: 2, op0: Operand::Reg(Register::A), op1: Operand::Reg(Register::E), op2: Operand::Absent },
        0x9Cu8 => Instruction { mnemonic: Mnemonic::SBC, bytes: 1, total_operands: 2, op0: Operand::Reg(Register::A), op1: Operand::Reg(Register::H), op2: Operand::Absent },
        0x9Du8 => Instruction { mnemonic: Mnemonic::SBC, bytes: 1, total_operands: 2, op0: Operand::Reg(Register::A), op1: Operand::Reg(Register::L), op2: Operand::Absent },
        0x9Eu8 => Instruction { mnemonic: Mnemonic::SBC, bytes: 1, total_operands: 2, op0: Operand::Reg(Register::A), op1: Operand::Ind(Register::HL), op2: Operand::Absent },
        0x9Fu8 => Instruction { mnemonic: Mnemonic::SBC, bytes: 1, total_operands: 2, op0: Operand::Reg(Register::A), op1: Operand::Reg(Register::A), op2: Operand::Absent },
        0xA0u8 => Instruction { mnemonic: Mnemonic::AND, bytes: 1, total_operands: 2, op0: Operand::Reg(Register::A), op1: Operand::Reg(Register::B), op2: Operand::Absent },
        0xA1u8 => Instruction { mnemonic: Mnemonic::AND, bytes: 1, total_operands: 2, op0: Operand::Reg(Register::A), op1: Operand::Reg(Register::C), op2: Operand::Absent },
        0xA2u8 => Instruction { mnemonic: Mnemonic::AND, bytes: 1, total_operands: 2, op0: Operand::Reg(Register::A), op1: Operand::Reg(Register::D), op2: Operand::Absent },
        0xA3u8 => Instruction { mnemonic: Mnemonic::AND, bytes: 1, total_operands: 2, op0: Operand::Reg(Register::A), op1: Operand::Reg(Register::E), op2: Operand::Absent },
        0xA4u8 => Instruction { mnemonic: Mnemonic::AND, bytes: 1, total_operands: 2, op0: Operand::Reg(Register::A), op1: Operand::Reg(Register::H), op2: Operand::Absent },
        0xA5u8 => Instruction { mnemonic: Mnemonic::AND, bytes: 1, total_operands: 2, op0: Operand::Reg(Register::A), op1: Operand::Reg(Register::L), op2: Operand::Absent },
        0xA6u8 => Instruction { mnemonic: Mnemonic::AND, bytes: 1, total_operands: 2, op0: Operand::Reg(Register::A), op1: Operand::Ind(Register::HL), op2: Operand::Absent },
        0xA7u8 => Instruction { mnemonic: Mnemonic::AND, bytes: 1, total_operands: 2, op0: Operand::Reg(Register::A), op1: Operand::Reg(Register::A), op2: Operand::Absent },
        0xA8u8 => Instruction { mnemonic: Mnemonic::XOR, bytes: 1, total_operands: 2, op0: Operand::Reg(Register::A), op1: Operand::Reg(Register::B), op2: Operand::Absent },
        0xA9u8 => Instruction { mnemonic: Mnemonic::XOR, bytes: 1, total_operands: 2, op0: Operand::Reg(Register::A), op1: Operand::Reg(Register::C), op2: Operand::Absent },
        0xAAu8 => Instruction { mnemonic: Mnemonic::XOR, bytes: 1, total_operands: 2, op0: Operand::Reg(Register::A), op1: Operand::Reg(Register::D), op2: Operand::Absent },
        0xABu8 => Instruction { mnemonic: Mnemonic::XOR, bytes: 1, total_operands: 2, op0: Operand::Reg(Register::A), op1: Operand::Reg(Register::E), op2: Operand::Absent },
        0xACu8 => Instruction { mnemonic: Mnemonic::XOR, bytes: 1, total_operands: 2, op0: Operand::Reg(Register::A), op1: Operand::Reg(Register::H), op2: Operand::Absent },
        0xADu8 => Instruction { mnemonic: Mnemonic::XOR, bytes: 1, total_operands: 2, op0: Operand::Reg(Register::A), op1: Operand::Reg(Register::L), op2: Operand::Absent },
        0xAEu8 => Instruction { mnemonic: Mnemonic::XOR, bytes: 1, total_operands: 2, op0: Operand::Reg(Register::A), op1: Operand::Ind(Register::HL), op2: Operand::Absent },
        0xAFu8 => Instruction { mnemonic: Mnemonic::XOR, bytes: 1, total_operands: 2, op0: Operand::Reg(Register::A), op1: Operand::Reg(Register::A), op2: Operand::Absent },
        0xB0u8 => Instruction { mnemonic: Mnemonic::OR, bytes: 1, total_operands: 2, op0: Operand::Reg(Register::A), op1: Operand::Reg(Register::B), op2: Operand::Absent },
        0xB1u8 => Instruction { mnemonic: Mnemonic::OR, bytes: 1, total_operands: 2, op0: Operand::Reg(Register::A), op1: Operand::Reg(Register::C), op2: Operand::Absent },
        0xB2u8 => Instruction { mnemonic: Mnemonic::OR, bytes: 1, total_operands: 2, op0: Operand::Reg(Register::A), op1: Operand::Reg(Register::D), op2: Operand::Absent },
        0xB3u8 => Instruction { mnemonic: Mnemonic::OR, bytes: 1, total_operands: 2, op0: Operand::Reg(Register::A), op1: Operand::Reg(Register::E), op2: Operand::Absent },
        0xB4u8 => Instruction { mnemonic: Mnemonic::OR, bytes: 1, total_operands: 2, op0: Operand::Reg(Register::A), op1: Operand::Reg(Register::H), op2: Operand::Absent },
        0xB5u8 => Instruction { mnemonic: Mnemonic::OR, bytes: 1, total_operands: 2, op0: Operand::Reg(Register::A), op1: Operand::Reg(Register::L), op2: Operand::Absent },
        0xB6u8 => Instruction { mnemonic: Mnemonic::OR, bytes: 1, total_operands: 2, op0: Operand::Reg(Register::A), op1: Operand::Ind(Register::HL), op2: Operand::Absent },
        0xB7u8 => Instruction { mnemonic: Mnemonic::OR, bytes: 1, total_operands: 2, op0: Operand::Reg(Register::A), op1: Operand::Reg(Register::A), op2: Operand::Absent },
        0xB8u8 => Instruction { mnemonic: Mnemonic::CP, bytes: 1, total_operands: 2, op0: Operand::Reg(Register::A), op1: Operand::Reg(Register::B), op2: Operand::Absent },
        0xB9u8 => Instruction { mnemonic: Mnemonic::CP, bytes: 1, total_operands: 2, op0: Operand::Reg(Register::A), op1: Operand::Reg(Register::C), op2: Operand::Absent },
        0xBAu8 => Instruction { mnemonic: Mnemonic::CP, bytes: 1, total_operands: 2, op0: Operand::Reg(Register::A), op1: Operand::Reg(Register::D), op2: Operand::Absent },
        0xBBu8 => Instruction { mnemonic: Mnemonic::CP, bytes: 1, total_operands: 2, op0: Operand::Reg(Register::A), op1: Operand::Reg(Register::E), op2: Operand::Absent },
        0xBCu8 => Instruction { mnemonic: Mnemonic::CP, bytes: 1, total_operands: 2, op0: Operand::Reg(Register::A), op1: Operand::Reg(Register::H), op2: Operand::Absent },
        0xBDu8 => Instruction { mnemonic: Mnemonic::CP, bytes: 1, total_operands: 2, op0: Operand::Reg(Register::A), op1: Operand::Reg(Register::L), op2: Operand::Absent },
        0xBEu8 => Instruction { mnemonic: Mnemonic::CP, bytes: 1, total_operands: 2, op0: Operand::Reg(Register::A), op1: Operand::Ind(Register::HL), op2: Operand::Absent },
        0xBFu8 => Instruction { mnemonic: Mnemonic::CP, bytes: 1, total_operands: 2, op0: Operand::Reg(Register::A), op1: Operand::Reg(Register::A), op2: Operand::Absent },
        0xC0u8 => Instruction { mnemonic: Mnemonic::RET, bytes: 1, total_operands: 1, op0: Operand::Cond(Condition::NZ), op1: Operand::Absent, op2: Operand::Absent },
        0xC1u8 => Instruction { mnemonic: Mnemonic::POP, bytes: 1, total_operands: 1, op0: Operand::Reg(Register::BC), op1: Operand::Absent, op2: Operand::Absent },
        0xC2u8 => Instruction { mnemonic: Mnemonic::JP, bytes: 3, total_operands: 2, op0: Operand::Cond(Condition::NZ), op1: Operand::N16, op2: Operand::Absent },
        0xC3u8 => Instruction { mnemonic: Mnemonic::JP, bytes: 3, total_operands: 1, op0: Operand::N16, op1: Operand::Absent, op2: Operand::Absent },
        0xC4u8 => Instruction { mnemonic: Mnemonic::CALL, bytes: 3, total_operands: 2, op0: Operand::Cond(Condition::NZ), op1: Operand::N16, op2: Operand::Absent },
        0xC5u8 => Instruction { mnemonic: Mnemonic::PUSH, bytes: 1, total_operands: 1, op0: Operand::Reg(Register::BC), op1: Operand::Absent, op2: Operand::Absent },
        0xC6u8 => Instruction { mnemonic: Mnemonic::ADD, bytes: 2, total_operands: 2, op0: Operand::Reg(Register::A), op1: Operand::N8, op2: Operand::Absent },
        0xC7u8 => Instruction { mnemonic: Mnemonic::RST, bytes: 1, total_operands: 0, op0: Operand::Absent, op1: Operand::Absent, op2: Operand::Absent },
        0xC8u8 => Instruction { mnemonic: Mnemonic::RET, bytes: 1, total_operands: 1, op0: Operand::Cond(Condition::Z), op1: Operand::Absent, op2: Operand::Absent },
        0xC9u8 => Instruction { mnemonic: Mnemonic::RET, bytes: 1, total_operands: 0, op0: Operand::Absent, op1: Operand::Absent, op2: Operand::Absent },
        0xCAu8 => Instruction { mnemonic: Mnemonic::JP, bytes: 3, total_operands: 2, op0: Operand::Cond(Condition::Z), op1: Operand::N16, op2: Operand::Absent },
        0xCBu8 => Instruction { mnemonic: Mnemonic::PREFIX, bytes: 1, total_operands: 0, op0: Operand::Absent, op1: Operand::Absent, op2: Operand::Absent },
        0xCCu8 => Instruction { mnemonic: Mnemonic::CALL, bytes: 3, total_operands: 2, op0: Operand::Cond(Condition::Z), op1: Operand::N16, op2: Operand::Absent },
        0xCDu8 => Instruction { mnemonic: Mnemonic::CALL, bytes: 3, total_operands: 1, op0: Operand::N16, op1: Operand::Absent, op2: Operand::Absent },
        0xCEu8 => Instruction { mnemonic: Mnemonic::ADC, bytes: 2, total_operands: 2, op0: Operand::Reg(Register::A), op1: Operand::N8, op2: Operand::Absent },
        0xCFu8 => Instruction { mnemonic: Mnemonic::RST, bytes: 1, total_operands: 0, op0: Operand::Absent, op1: Operand::Absent, op2: Operand::Absent },
        0xD0u8 => Instruction { mnemonic: Mnemonic::RET, bytes: 1, total_operands: 1, op0: Operand::Cond(Condition::NC), op1: Operand::Absent, op2: Operand::Absent },
        0xD1u8 => Instruction { mnemonic: Mnemonic::POP, bytes: 1, total_operands: 1, op0: Operand::Reg(Register::DE), op1: Operand::Absent, op2: Operand::Absent },
        0xD2u8 => Instruction { mnemonic: Mnemonic::JP, bytes: 3, total_operands: 2, op0: Operand::Cond(Condition::NC), op1: Operand::N16, op2: Operand::Absent },
        0xD3u8 => Instruction { mnemonic: Mnemonic::ILLEGAL, bytes: 1, total_operands: 0, op0: Operand::Absent, op1: Operand::Absent, op2: Operand::Absent },
        0xD4u8 => Instruction { mnemonic: Mnemonic::CALL, bytes: 3, total_operands: 2, op0: Operand::Cond(Condition::NC), op1: Operand::N16, op2: Operand::Absent },
        0xD5u8 => Instruction { mnemonic: Mnemonic::PUSH, bytes: 1, total_operands: 1, op0: Operand::Reg(Register::DE), op1: Operand::Absent, op2: Operand::Absent },
        0xD6u8 => Instruction { mnemonic: Mnemonic::SUB, bytes: 2, total_operands: 2, op0: Operand::Reg(Register::A), op1: Operand::N8, op2: Operand::Absent },
        0xD7u8 => Instruction { mnemonic: Mnemonic::RST, bytes: 1, total_operands: 0, op0: Operand::Absent, op1: Operand::Absent, op2: Operand::Absent },
        0xD8u8 => Instruction { mnemonic: Mnemonic::RET, bytes: 1, total_operands: 1, op0: Operand::Cond(Condition::C), op1: Operand::Absent, op2: Operand::Absent },
        0xD9u8 => Instruction { mnemonic: Mnemonic::RETI, bytes: 1, total_operands: 0, op0: Operand::Absent, op1: Operand::Absent, op2: Operand::Absent },
        0xDAu8 => Instruction { mnemonic: Mnemonic::JP, bytes: 3, total_operands: 2, op0: Operand::Cond(Condition::C), op1: Operand::N16, op2: Operand::Absent },
        0xDBu8 => Instruction { mnemonic: Mnemonic::ILLEGAL, bytes: 1, total_operands: 0, op0: Operand::Absent, op1: Operand::Absent, op2: Operand::Absent },
        0xDCu8 => Instruction { mnemonic: Mnemonic::CALL, bytes: 3, total_operands: 2, op0: Operand::Cond(Condition::C), op1: Operand::N16, op2: Operand::Absent },
        0xDDu8 => Instruction { mnemonic: Mnemonic::ILLEGAL, bytes: 1, total_operands: 0, op0: Operand::Absent, op1: Operand::Absent, op2: Operand::Absent },
        0xDEu8 => Instruction { mnemonic: Mnemonic::SBC, bytes: 2, total_operands: 2, op0: Operand::Reg(Register::A), op1: Operand::N8, op2: Operand::Absent },
        0xDFu8 => Instruction { mnemonic: Mnemonic::RST, bytes: 1, total_operands: 0, op0: Operand::Absent, op1: Operand::Absent, op2: Operand::Absent },
        0xE0u8 => Instruction { mnemonic: Mnemonic::LDH, bytes: 2, total_operands: 2, op0: Operand::A8, op1: Operand::Reg(Register::A), op2: Operand::Absent },
        0xE1u8 => Instruction { mnemonic: Mnemonic::POP, bytes: 1, total_operands: 1, op0: Operand::Reg(Register::HL), op1: Operand::Absent, op2: Operand::Absent },
        0xE2u8 => Instruction { mnemonic: Mnemonic::LDH, bytes: 1, total_operands: 2, op0: Operand::Ind(Register::C), op1: Operand::Reg(Register::A), op2: Operand::Absent },
        0xE3u8 => Instruction { mnemonic: Mnemonic::ILLEGAL, bytes: 1, total_operands: 0, op0: Operand::Absent, op1: Operand::Absent, op2: Operand::Absent },
        0xE4u8 => Instruction { mnemonic: Mnemonic::ILLEGAL, bytes: 1, total_operands: 0, op0: Operand::Absent, op1: Operand::Absent, op2: Operand::Absent },
        0xE5u8 => Instruction { mnemonic: Mnemonic::PUSH, bytes: 1, total_operands: 1, op0: Operand::Reg(Register::HL), op1: Operand::Absent, op2: Operand::Absent },
        0xE6u8 => Instruction { mnemonic: Mnemonic::AND, bytes: 2, total_operands: 2, op0: Operand::Reg(Register::A), op1: Operand::N8, op2: Operand::Absent },
        0xE7u8 => Instruction { mnemonic: Mnemonic::RST, bytes: 1, total_operands: 0, op0: Operand::Absent, op1: Operand::Absent, op2: Operand::Absent },
        0xE8u8 => Instruction { mnemonic: Mnemonic::ADD, bytes: 2, total_operands: 2, op0: Operand::Reg(Register::SP), op1: Operand::E8, op2: Operand::Absent },
        0xE9u8 => Instruction { mnemonic: Mnemonic::JP, bytes: 1, total_operands: 1, op0: Operand::Reg(Register::HL), op1: Operand::Absent, op2: Operand::Absent },
        0xEAu8 => Instruction { mnemonic: Mnemonic::LD, bytes: 3, total_operands: 2, op0: Operand::A16, op1: Operand::Reg(Register::A), op2: Operand::Absent },
        0xEBu8 => Instruction { mnemonic: Mnemonic::ILLEGAL, bytes: 1, total_operands: 0, op0: Operand::Absent, op1: Operand::Absent, op2: Operand::Absent },
        0xECu8 => Instruction { mnemonic: Mnemonic::ILLEGAL, bytes: 1, total_operands: 0, op0: Operand::Absent, op1: Operand::Absent, op2: Operand::Absent },
        0xEDu8 => Instruction { mnemonic: Mnemonic::ILLEGAL, bytes: 1, total_operands: 0, op0: Operand::Absent, op1: Operand::Absent, op2: Operand::Absent },
        0xEEu8 => Instruction { mnemonic: Mnemonic::XOR, bytes: 2, total_operands: 2, op0: Operand::Reg(Register::A), op1: Operand::N8, op2: Operand::Absent },
        0xEFu8 => Instruction { mnemonic: Mnemonic::RST, bytes: 1, total_operands: 0, op0: Operand::Absent, op1: Operand::Absent, op2: Operand::Absent },
        0xF0u8 => Instruction { mnemonic: Mnemonic::LDH, bytes: 2, total_operands: 2, op0: Operand::Reg(Register::A), op1: Operand::A8, op2: Operand::Absent },
        0xF1u8 => Instruction { mnemonic: Mnemonic::POP, bytes: 1, total_operands: 1, op0: Operand::Reg(Register::AF), op1: Operand::Absent, op2: Operand::Absent },
        0xF2u8 => Instruction { mnemonic: Mnemonic::LDH, bytes: 1, total_operands: 2, op0: Operand::Reg(Register::A), op1: Operand::Ind(Register::C), op2: Operand::Absent },
        0xF3u8 => Instruction { mnemonic: Mnemonic::DI, bytes: 1, total_operands: 0, op0: Operand::Absent, op1: Operand::Absent, op2: Operand::Absent },
        0xF4u8 => Instruction { mnemonic: Mnemonic::ILLEGAL, bytes: 1, total_operands: 0, op0: Operand::Absent, op1: Operand::Absent, op2: Operand::Absent },
        0xF5u8 => Instruction { mnemonic: Mnemonic::PUSH, bytes: 1, total_operands: 1, op0: Operand::Reg(Register::AF), op1: Operand::Absent, op2: Operand::Absent },
        0xF6u8 => Instruction { mnemonic: Mnemonic::OR, bytes: 2, total_operands: 2, op0: Operand::Reg(Register::A), op1: Operand::N8, op2: Operand::Absent },
        0xF7u8 => Instruction { mnemonic: Mnemonic::RST, bytes: 1, total_operands: 0, op0: Operand::Absent, op1: Operand::Absent, op2: Operand::Absent },
        0xF8u8 => Instruction { mnemonic: Mnemonic::LD, bytes: 2, total_operands: 3, op0: Operand::Reg(Register::HL), op1: Operand::Reg(Register::SP), op2: Operand::E8 },
        0xF9u8 => Instruction { mnemonic: Mnemonic::LD, bytes: 1, total_operands: 2, op0: Operand::Reg(Register::SP), op1: Operand::Reg(Register::HL), op2: Operand::Absent },
        0xFAu8 => Instruction { mnemonic: Mnemonic::LD, bytes: 3, total_operands: 2, op0: Operand::Reg(Register::A), op1: Operand::A16, op2: Operand::Absent },
        0xFBu8 => Instruction { mnemonic: Mnemonic::EI, bytes: 1, total_operands: 0, op0: Operand::Absent, op1: Operand::Absent, op2: Operand::Absent },
        0xFCu8 => Instruction { mnemonic: Mnemonic::ILLEGAL, bytes: 1, total_operands: 0, op0: Operand::Absent, op1: Operand::Absent, op2: Operand::Absent },
        0xFDu8 => Instruction { mnemonic: Mnemonic::ILLEGAL, bytes: 1, total_operands: 0, op0: Operand::Absent, op1: Operand::Absent, op2: Operand::Absent },
        0xFEu8 => Instruction { mnemonic: Mnemonic::CP, bytes: 2, total_operands: 2, op0: Operand::Reg(Register::A), op1: Operand::N8, op2: Operand::Absent },
        0xFFu8 => Instruction { mnemonic: Mnemonic::RST, bytes: 1, total_operands: 0, op0: Operand::Absent, op1: Operand::Absent, op2: Operand::Absent },
    }
}

/// The table of opcodes after the 0xCB prefix.
pub open spec fn cb_instruction_of(opcode: u8) -> Instruction {
    match opcode {
        0x00u8 => Instruction { mnemonic: Mnemonic::RLC, bytes: 2, total_operands: 1, op0: Operand::Reg(Register::B), op1: Operand::Absent, op2: Operand::Absent },
        0x01u8 => Instruction { mnemonic: Mnemonic::RLC, bytes: 2, total_operands: 1, op0: Operand::Reg(Register::C), op1: Operand::Absent, op2: Operand::Absent },
        0x02u8 => Instruction { mnemonic: Mnemonic::RLC, bytes: 2, total_operands: 1, op0: Operand::Reg(Register::D), op1: Operand::Absent, op2: Operand::Absent },
        0x03u8 => Instruction { mnemonic: Mnemonic::RLC, bytes: 2, total_operands: 1, op0: Operand::Reg(Register::E), op1: Operand::Absent, op2: Operand::Absent },
        0x04u8 => Instruction { mnemonic: Mnemonic::RLC, bytes: 2, total_operands: 1, op0: Operand::Reg(Register::H), op1: Operand::Absent, op2: Operand::Absent },
        0x05u8 => Instruction { mnemonic: Mnemonic::RLC, bytes: 2, total_operands: 1, op0: Operand::Reg(Register::L), op1: Operand::Absent, op2: Operand::Absent },
        0x06u8 => Instruction { mnemonic: Mnemonic::RLC, bytes: 2, total_operands: 1, op0: Operand::Ind(Register::HL), op1: Operand::Absent, op2: Operand::Absent },
        0x07u8 => Instruction { mnemonic: Mnemonic::RLC, bytes: 2, total_operands: 1, op0: Operand::Reg(Register::A), op1: Operand::Absent, op2: Operand::Absent },
        0x08u8 => Instruction { mnemonic: Mnemonic::RRC, bytes: 2, total_operands: 1, op0: Operand::Reg(Register::B), op1: Operand::Absent, op2: Operand::Absent },
        0x09u8 => Instruction { mnemonic: Mnemonic::RRC, bytes: 2, total_operands: 1, op0: Operand::Reg(Register::C), op1: Operand::Absent, op2: Operand::Absent },
        0x0Au8 => Instruction { mnemonic: Mnemonic::RRC, bytes: 2, total_operands: 1, op0: Operand::Reg(Register::D), op1: Operand::Absent, op2: Operand::Absent },
        0x0Bu8 => Instruction { mnemonic: Mnemonic::RRC, bytes: 2, total_operands: 1, op0: Operand::Reg(Register::E), op1: Operand::Absent, op2: Operand::Absent },
        0x0Cu8 => Instruction { mnemonic: Mnemonic::RRC, bytes: 2, total_operands: 1, op0: Operand::Reg(Register::H), op1: Operand::Absent, op2: Operand::Absent },
        0x0Du8 => Instruction { mnemonic: Mnemonic::RRC, bytes: 2, total_operands: 1, op0: Operand::Reg(Register::L), op1: Operand::Absent, op2: Operand::Absent },
        0x0Eu8 => Instruction { mnemonic: Mnemonic::RRC, bytes: 2, total_operands: 1, op0: Operand::Ind(Register::HL), op1: Operand::Absent, op2: Operand::Absent },
        0x0Fu8 => Instruction { mnemonic: Mnemonic::RRC, bytes: 2, total_operands: 1, op0: Operand::Reg(Register::A), op1: Operand::Absent, op2: Operand::Absent },
        0x10u8 => Instruction { mnemonic: Mnemonic::RL, bytes: 2, total_operands: 1, op0: Operand::Reg(Register::B), op1: Operand::Absent, op2: Operand::Absent },
        0x11u8 => Instruction { mnemonic: Mnemonic::RL, bytes: 2, total_operands: 1, op0: Operand::Reg(Register::C), op1: Operand::Absent, op2: Operand::Absent },
        0x12u8 => Instruction { mnemonic: Mnemonic::RL, bytes: 2, total_operands: 1, op0: Operand::Reg(Register::D), op1: Operand::Absent, op2: Operand::Absent },
        0x13u8 => Instruction { mnemonic: Mnemonic::RL, bytes: 2, total_operands: 1, op0: Operand::Reg(Register::E), op1: Operand::Absent, op2: Operand::Absent },
        0x14u8 => Instruction { mnemonic: Mnemonic::RL, bytes: 2, total_operands: 1, op0: Operand::Reg(Register::H), op1: Operand::Absent, op2: Operand::Absent },
        0x15u8 => Instruction { mnemonic: Mnemonic::RL, bytes: 2, total_operands: 1, op0: Operand::Reg(Register::L), op1: Operand::Absent, op2: Operand::Absent },
        0x16u8 => Instruction { mnemonic: Mnemonic::RL, bytes: 2, total_operands: 1, op0: Operand::Ind(Register::HL), op1: Operand::Absent, op2: Operand::Absent },
        0x17u8 => Instruction { mnemonic: Mnemonic::RL, bytes: 2, total_operands: 1, op0: Operand::Reg(Register::A), op1: Operand::Absent, op2: Operand::Absent },
        0x18u8 => Instruction { mnemonic: Mnemonic::RR, bytes: 2, total_operands: 1, op0: Operand::Reg(Register::B), op1: Operand::Absent, op2: Operand::Absent },
        0x19u8 => Instruction { mnemonic: Mnemonic::RR, bytes: 2, total_operands: 1, op0: Operand::Reg(Register::C), op1: Operand::Absent, op2: Operand::Absent },
        0x1Au8 => Instruction { mnemonic: Mnemonic::RR, bytes: 2, total_operands: 1, op0: Operand::Reg(Register::D), op1: Operand::Absent, op2: Operand::Absent },
        0x1Bu8 => Instruction { mnemonic: Mnemonic::RR, bytes: 2, total_operands: 1, op0: Operand::Reg(Register::E), op1: Operand::Absent, op2: Operand::Absent },
        0x1Cu8 => Instruction { mnemonic: Mnemonic::RR, bytes: 2, total_operands: 1, op0: Operand::Reg(Register::H), op1: Operand::Absent, op2: Operand::Absent },
        0x1Du8 => Instruction { mnemonic: Mnemonic::RR, bytes: 2, total_operands: 1, op0: Operand::Reg(Register::L), op1: Operand::Absent, op2: Operand::Absent },
        0x1Eu8 => Instruction { mnemonic: Mnemonic::RR, bytes: 2, total_operands: 1, op0: Operand::Ind(Register::HL), op1: Operand::Absent, op2: Operand::Absent },
        0x1Fu8 => Instruction { mnemonic: Mnemonic::RR, bytes: 2, total_operands: 1, op0: Operand::Reg(Register::A), op1: Operand::Absent, op2: Operand::Absent },
        0x20u8 => Instruction { mnemonic: Mnemonic::SLA, bytes: 2, total_operands: 1, op0: Operand::Reg(Register::B), op1: Operand::Absent, op2: Operand::Absent },
        0x21u8 => Instruction { mnemonic: Mnemonic::SLA, bytes: 2, total_operands: 1, op0: Operand::Reg(Register::C), op1: Operand::Absent, op2: Operand::Absent },
        0x22u8 => Instruction { mnemonic: Mnemonic::SLA, bytes: 2, total_operands: 1, op0: Operand::Reg(Register::D), op1: Operand::Absent, op2: Operand::Absent },
        0x23u8 => Instruction { mnemonic: Mnemonic::SLA, bytes: 2, total_operands: 1, op0: Operand::Reg(Register::E), op1: Operand::Absent, op2: Operand::Absent },
        0x24u8 => Instruction { mnemonic: Mnemonic::SLA, bytes: 2, total_operands: 1, op0: Operand::Reg(Register::H), op1: Operand::Absent, op2: Operand::Absent },
        0x25u8 => Instruction { mnemonic: Mnemonic::SLA, bytes: 2, total_operands: 1, op0: Operand::Reg(Register::L), op1: Operand::Absent, op2: Operand::Absent },
        0x26u8 => Instruction { mnemonic: Mnemonic::SLA, bytes: 2, total_operands: 1, op0: Operand::Ind(Register::HL), op1: Operand::Absent, op2: Operand::Absent },
        0x27u8 => Instruction { mnemonic: Mnemonic::SLA, bytes: 2, total_operands: 1, op0: Operand::Reg(Register::A), op1: Operand::Absent, op2: Operand::Absent },
        0x28u8 => Instruction { mnemonic: Mnemonic::SRA, bytes: 2, total_operands: 1, op0: Operand::Reg(Register::B), op1: Operand::Absent, op2: Operand::Absent },
        0x29u8 => Instruction { mnemonic: Mnemonic::SRA, bytes: 2, total_operands: 1, op0: Operand::Reg(Register::C), op1: Operand::Absent, op2: Operand::Absent },
        0x2Au8 => Instruction { mnemonic: Mnemonic::SRA, bytes: 2, total_operands: 1, op0: Operand::Reg(Register::D), op1: Operand::Absent, op2: Operand::Absent },
        0x2Bu8 => Instruction { mnemonic: Mnemonic::SRA, bytes: 2, total_operands: 1, op0: Operand::Reg(Register::E), op1: Operand::Absent, op2: Operand::Absent },
        0x2Cu8 => Instruction { mnemonic: Mnemonic::SRA, bytes: 2, total_operands: 1, op0: Operand::Reg(Register::H), op1: Operand::Absent, op2: Operand::Absent },
        0x2Du8 => Instruction { mnemonic: Mnemonic::SRA, bytes: 2, total_operands: 1, op0: Operand::Reg(Register::L), op1: Operand::Absent, op2: Operand::Absent },
        0x2Eu8 => Instruction { mnemonic: Mnemonic::SRA, bytes: 2, total_operands: 1, op0: Operand::Ind(Register::HL), op1: Operand::Absent, op2: Operand::Absent },
        0x2Fu8 => Instruction { mnemonic: Mnemonic::SRA, bytes: 2, total_operands: 1, op0: Operand::Reg(Register::A), op1: Operand::Absent, op2: Operand::Absent },
        0x30u8 => Instruction { mnemonic: Mnemonic::SWAP, bytes: 2, total_operands: 1, op0: Operand::Reg(Register::B), op1: Operand::Absent, op2: Operand::Absent },
        0x31u8 => Instruction { mnemonic: Mnemonic::SWAP, bytes: 2, total_operands: 1, op0: Operand::Reg(Register::C), op1: Operand::Absent, op2: Operand::Absent },
        0x32u8 => Instruction { mnemonic: Mnemonic::SWAP, bytes: 2, total_operands: 1, op0: Operand::Reg(Register::D), op1: Operand::Absent, op2: Operand::Absent },
        0x33u8 => Instruction { mnemonic: Mnemonic::SWAP, bytes: 2, total_operands: 1, op0: Operand::Reg(Register::E), op1: Operand::Absent, op2: Operand::Absent },
        0x34u8 => Instruction { mnemonic: Mnemonic::SWAP, bytes: 2, total_operands: 1, op0: Operand::Reg(Register::H), op1: Operand::Absent, op2: Operand::Absent },
        0x35u8 => Instruction { mnemonic: Mnemonic::SWAP, bytes: 2, total_operands: 1, op0: Operand::Reg(Register::L), op1: Operand::Absent, op2: Operand::Absent },
        0x36u8 => Instruction { mnemonic: Mnemonic::SWAP, bytes: 2, total_operands: 1, op0: Operand::Ind(Register::HL), op1: Operand::Absent, op2: Operand::Absent },
        0x37u8 => Instruction { mnemonic: Mnemonic::SWAP, bytes: 2, total_operands: 1, op0: Operand::Reg(Register::A), op1: Operand::Absent, op2: Operand::Absent },
        0x38u8 => Instruction { mnemonic: Mnemonic::SRL, bytes: 2, total_operands: 1, op0: Operand::Reg(Register::B), op1: Operand::Absent, op2: Operand::Absent },
        0x39u8 => Instruction { mnemonic: Mnemonic::SRL, bytes: 2, total_operands: 1, op0: Operand::Reg(Register::C), op1: Operand::Absent, op2: Operand::Absent },
        0x3Au8 => Instruction { mnemonic: Mnemonic::SRL, bytes: 2, total_operands: 1, op0: Operand::Reg(Register::D), op1: Operand::Absent, op2: Operand::Absent },
        0x3Bu8 => Instruction { mnemonic: Mnemonic::SRL, bytes: 2, total_operands: 1, op0: Operand::Reg(Register::E), op1: Operand::Absent, op2: Operand::Absent },
        0x3Cu8 => Instruction { mnemonic: Mnemonic::SRL, bytes: 2, total_operands: 1, op0: Operand::Reg(Register::H), op1: Operand::Absent, op2: Operand::Absent },
        0x3Du8 => Instruction { mnemonic: Mnemonic::SRL, bytes: 2, total_operands: 1, op0: Operand::Reg(Register::L), op1: Operand::Absent, op2: Operand::Absent },
        0x3Eu8 => Instruction { mnemonic: Mnemonic::SRL, bytes: 2, total_operands: 1, op0: Operand::Ind(Register::HL), op1: Operand::Absent, op2: Operand::Absent },
        0x3Fu8 => Instruction { mnemonic: Mnemonic::SRL, bytes: 2, total_operands: 1, op0: Operand::Reg(Register::A), op1: Operand::Absent, op2: Operand::Absent },
        0x40u8 => Instruction { mnemonic: Mnemonic::BIT, bytes: 2, total_operands: 2, op0: Operand::Bit(0), op1: Operand::Reg(Register::B), op2: Operand::Absent },
        0x41u8 => Instruction { mnemonic: Mnemonic::BIT, bytes: 2, total_operands: 2, op0: Operand::Bit(0), op1: Operand::Reg(Register::C), op2: Operand::Absent },
        0x42u8 => Instruction { mnemonic: Mnemonic::BIT, bytes: 2, total_operands: 2, op0: Operand::Bit(0), op1: Operand::Reg(Register::D), op2: Operand::Absent },
        0x43u8 => Instruction { mnemonic: Mnemonic::BIT, bytes: 2, total_operands: 2, op0: Operand::Bit(0), op1: Operand::Reg(Register::E), op2: Operand::Absent },
        0x44u8 => Instruction { mnemonic: Mnemonic::BIT, bytes: 2, total_operands: 2, op0: Operand::Bit(0), op1: Operand::Reg(Register::H), op2: Operand::Absent },
        0x45u8 => Instruction { mnemonic: Mnemonic::BIT, bytes: 2, total_operands: 2, op0: Operand::Bit(0), op1: Operand::Reg(Register::L), op2: Operand::Absent },
        0x46u8 => Instruction { mnemonic: Mnemonic::BIT, bytes: 2, total_operands: 2, op0: Operand::Bit(0), op1: Operand::Ind(Register::HL), op2: Operand::Absent },
        0x47u8 => Instruction { mnemonic: Mnemonic::BIT, bytes: 2, total_operands: 2, op0: Operand::Bit(0), op1: Operand::Reg(Register::A), op2: Operand::Absent },
        0x48u8 => Instruction { mnemonic: Mnemonic::BIT, bytes: 2, total_operands: 2, op0: Operand::Bit(1), op1: Operand::Reg(Register::B), op2: Operand::Absent },
        0x49u8 => Instruction { mnemonic: Mnemonic::BIT, bytes: 2, total_operands: 2, op0: Operand::Bit(1), op1: Operand::Reg(Register::C), op2: Operand::Absent },
        0x4Au8 => Instruction { mnemonic: Mnemonic::BIT, bytes: 2, total_operands: 2, op0: Operand::Bit(1), op1: Operand::Reg(Register::D), op2: Operand::Absent },
        0x4Bu8 => Instruction { mnemonic: Mnemonic::BIT, bytes: 2, total_operands: 2, op0: Operand::Bit(1), op1: Operand::Reg(Register::E), op2: Operand::Absent },
        0x4Cu8 => Instruction { mnemonic: Mnemonic::BIT, bytes: 2, total_operands: 2, op0: Operand::Bit(1), op1: Operand::Reg(Register::H), op2: Operand::Absent },
        0x4Du8 => Instruction { mnemonic: Mnemonic::BIT, bytes: 2, total_operands: 2, op0: Operand::Bit(1), op1: Operand::Reg(Register::L), op2: Operand::Absent },
        0x4Eu8 => Instruction { mnemonic: Mnemonic::BIT, bytes: 2, total_operands: 2, op0: Operand::Bit(1), op1: Operand::Ind(Register::HL), op2: Operand::Absent },
        0x4Fu8 => Instruction { mnemonic: Mnemonic::BIT, bytes: 2, total_operands: 2, op0: Operand::Bit(1), op1: Operand::Reg(Register::A), op2: Operand::Absent },
        0x50u8 => Instruction { mnemonic: Mnemonic::BIT, bytes: 2, total_operands: 2, op0: Operand::Bit(2), op1: Operand::Reg(Register::B), op2: Operand::Absent },
        0x51u8 => Instruction { mnemonic: Mnemonic::BIT, bytes: 2, total_operands: 2, op0: Operand::Bit(2), op1: Operand::Reg(Register::C), op2: Operand::Absent },
        0x52u8 => Instruction { mnemonic: Mnemonic::BIT, bytes: 2, total_operands: 2, op0: Operand::Bit(2), op1: Operand::Reg(Register::D), op2: Operand::Absent },
        0x53u8 => Instruction { mnemonic: Mnemonic::BIT, bytes: 2, total_operands: 2, op0: Operand::Bit(2), op1: Operand::Reg(Register::E), op2: Operand::Absent },
        0x54u8 => Instruction { mnemonic: Mnemonic::BIT, bytes: 2, total_operands: 2, op0: Operand::Bit(2), op1: Operand::Reg(Register::H), op2: Operand::Absent },
        0x55u8 => Instruction { mnemonic: Mnemonic::BIT, bytes: 2, total_operands: 2, op0: Operand::Bit(2), op1: Operand::Reg(Register::L), op2: Operand::Absent },
        0x56u8 => Instruction { mnemonic: Mnemonic::BIT, bytes: 2, total_operands: 2, op0: Operand::Bit(2), op1: Operand::Ind(Register::HL), op2: Operand::Absent },
        0x57u8 => Instruction { mnemonic: Mnemonic::BIT, bytes: 2, total_operands: 2, op0: Operand::Bit(2), op1: Operand::Reg(Register::A), op2: Operand::Absent },
        0x58u8 => Instruction { mnemonic: Mnemonic::BIT, bytes: 2, total_operands: 2, op0: Operand::Bit(3), op1: Operand::Reg(Register::B), op2: Operand::Absent },
        0x59u8 => Instruction { mnemonic: Mnemonic::BIT, bytes: 2, total_operands: 2, op0: Operand::Bit(3), op1: Operand::Reg(Register::C), op2: Operand::Absent },
        0x5Au8 => Instruction { mnemonic: Mnemonic::BIT, bytes: 2, total_operands: 2, op0: Operand::Bit(3), op1: Operand::Reg(Register::D), op2: Operand::Absent },
        0x5Bu8 => Instruction { mnemonic: Mnemonic::BIT, bytes: 2, total_operands: 2, op0: Operand::Bit(3), op1: Operand::Reg(Register::E), op2: Operand::Absent },
        0x5Cu8 => Instruction { mnemonic: Mnemonic::BIT, bytes: 2, total_operands: 2, op0: Operand::Bit(3), op1: Operand::Reg(Register::H), op2: Operand::Absent },
        0x5Du8 => Instruction { mnemonic: Mnemonic::BIT, bytes: 2, total_operands: 2, op0: Operand::Bit(3), op1: Operand::Reg(Register::L), op2: Operand::Absent },
        0x5Eu8 => Instruction { mnemonic: Mnemonic::BIT, bytes: 2, total_operands: 2, op0: Operand::Bit(3), op1: Operand::Ind(Register::HL), op2: Operand::Absent },
        0x5Fu8 => Instruction { mnemonic: Mnemonic::BIT, bytes: 2, total_operands: 2, op0: Operand::Bit(3), op1: Operand::Reg(Register::A), op2: Operand::Absent },
        0x60u8 => Instruction { mnemonic: Mnemonic::BIT, bytes: 2, total_operands: 2, op0: Operand::Bit(4), op1: Operand::Reg(Register::B), op2: Operand::Absent },
        0x61u8 => Instruction { mnemonic: Mnemonic::BIT, bytes: 2, total_operands: 2, op0: Operand::Bit(4), op1: Operand::Reg(Register::C), op2: Operand::Absent },
        0x62u8 => Instruction { mnemonic: Mnemonic::BIT, bytes: 2, total_operands: 2, op0: Operand::Bit(4), op1: Operand::Reg(Register::D), op2: Operand::Absent },
        0x63u8 => Instruction { mnemonic: Mnemonic::BIT, bytes: 2, total_operands: 2, op0: Operand::Bit(4), op1: Operand::Reg(Register::E), op2: Operand::Absent },
        0x64u8 => Instruction { mnemonic: Mnemonic::BIT, bytes: 2, total_operands: 2, op0: Operand::Bit(4), op1: Operand::Reg(Register::H), op2: Operand::Absent },
        0x65u8 => Instruction { mnemonic: Mnemonic::BIT, bytes: 2, total_operands: 2, op0: Operand::Bit(4), op1: Operand::Reg(Register::L), op2: Operand::Absent },
        0x66u8 => Instruction { mnemonic: Mnemonic::BIT, bytes: 2, total_operands: 2, op0: Operand::Bit(4), op1: Operand::Ind(Register::HL), op2: Operand::Absent },
        0x67u8 => Instruction { mnemonic: Mnemonic::BIT, bytes: 2, total_operands: 2, op0: Operand::Bit(4), op1: Operand::Reg(Register::A), op2: Operand::Absent },
        0x68u8 => Instruction { mnemonic: Mnemonic::BIT, bytes: 2, total_operands: 2, op0: Operand::Bit(5), op1: Operand::Reg(Register::B), op2: Operand::Absent },
        0x69u8 => Instruction { mnemonic: Mnemonic::BIT, bytes: 2, total_operands: 2, op0: Operand::Bit(5), op1: Operand::Reg(Register::C), op2: Operand::Absent },
        0x6Au8 => Instruction { mnemonic: Mnemonic::BIT, bytes: 2, total_operands: 2, op0: Operand::Bit(5), op1: Operand::Reg(Register::D), op2: Operand::Absent },
        0x6Bu8 => Instruction { mnemonic: Mnemonic::BIT, bytes: 2, total_operands: 2, op0: Operand::Bit(5), op1: Operand::Reg(Register::E), op2: Operand::Absent },
        0x6Cu8 => Instruction { mnemonic: Mnemonic::BIT, bytes: 2, total_operands: 2, op0: Operand::Bit(5), op1: Operand::Reg(Register::H), op2: Operand::Absent },
        0x6Du8 => Instruction { mnemonic: Mnemonic::BIT, bytes: 2, total_operands: 2, op0: Operand::Bit(5), op1: Operand::Reg(Register::L), op2: Operand::Absent },
        0x6Eu8 => Instruction { mnemonic: Mnemonic::BIT, bytes: 2, total_operands: 2, op0: Operand::Bit(5), op1: Operand::Ind(Register::HL), op2: Operand::Absent },
        0x6Fu8 => Instruction { mnemonic: Mnemonic::BIT, bytes: 2, total_operands: 2, op0: Operand::Bit(5), op1: Operand::Reg(Register::A), op2: Operand::Absent },
        0x70u8 => Instruction { mnemonic: Mnemonic::BIT, bytes: 2, total_operands: 2, op0: Operand::Bit(6), op1: Operand::Reg(Register::B), op2: Operand::Absent },
        0x71u8 => Instruction { mnemonic: Mnemonic::BIT, bytes: 2, total_operands: 2, op0: Operand::Bit(6), op1: Operand::Reg(Register::C), op2: Operand::Absent },
        0x72u8 => Instruction { mnemonic: Mnemonic::BIT, bytes: 2, total_operands: 2, op0: Operand::Bit(6), op1: Operand::Reg(Register::D), op2: Operand::Absent },
        0x73u8 => Instruction { mnemonic: Mnemonic::BIT, bytes: 2, total_operands: 2, op0: Operand::Bit(6), op1: Operand::Reg(Register::E), op2: Operand::Absent },
        0x74u8 => Instruction { mnemonic: Mnemonic::BIT, bytes: 2, total_operands: 2, op0: Operand::Bit(6), op1: Operand::Reg(Register::H), op2: Operand::Absent },
        0x75u8 => Instruction { mnemonic: Mnemonic::BIT, bytes: 2, total_operands: 2, op0: Operand::Bit(6), op1: Operand::Reg(Register::L), op2: Operand::Absent },
        0x76u8 => Instruction { mnemonic: Mnemonic::BIT, bytes: 2, total_operands: 2, op0: Operand::Bit(6), op1: Operand::Ind(Register::HL), op2: Operand::Absent },
        0x77u8 => Instruction { mnemonic: Mnemonic::BIT, bytes: 2, total_operands: 2, op0: Operand::Bit(6), op1: Operand::Reg(Register::A), op2: Operand::Absent },
        0x78u8 => Instruction { mnemonic: Mnemonic::BIT, bytes: 2, total_operands: 2, op0: Operand::Bit(7), op1: Operand::Reg(Register::B), op2: Operand::Absent },
        0x79u8 => Instruction { mnemonic: Mnemonic::BIT, bytes: 2, total_operands: 2, op0: Operand::Bit(7), op1: Operand::Reg(Register::C), op2: Operand::Absent },
        0x7Au8 => Instruction { mnemonic: Mnemonic::BIT, bytes: 2, total_operands: 2, op0: Operand::Bit(7), op1: Operand::Reg(Register::D), op2: Operand::Absent },
        0x7Bu8 => Instruction { mnemonic: Mnemonic::BIT, bytes: 2, total_operands: 2, op0: Operand::Bit(7), op1: Operand::Reg(Register::E), op2: Operand::Absent },
        0x7Cu8 => Instruction { mnemonic: Mnemonic::BIT, bytes: 2, total_operands: 2, op0: Operand::Bit(7), op1: Operand::Reg(Register::H), op2: Operand::Absent },
        0x7Du8 => Instruction { mnemonic: Mnemonic::BIT, bytes: 2, total_operands: 2, op0: Operand::Bit(7), op1: Operand::Reg(Register::L), op2: Operand::Absent },
        0x7Eu8 => Instruction { mnemonic: Mnemonic::BIT, bytes: 2, total_operands: 2, op0: Operand::Bit(7), op1: Operand::Ind(Register::HL), op2: Operand::Absent },
        0x7Fu8 => Instruction { mnemonic: Mnemonic::BIT, bytes: 2, total_operands: 2, op0: Operand::Bit(7), op1: Operand::Reg(Register::A), op2: Operand::Absent },
        0x80u8 => Instruction { mnemonic: Mnemonic::RES, bytes: 2, total_operands: 2, op0: Operand::Bit(0), op1: Operand::Reg(Register::B), op2: Operand::Absent },
        0x81u8 => Instruction { mnemonic: Mnemonic::RES, bytes: 2, total_operands: 2, op0: Operand::Bit(0), op1: Operand::Reg(Register::C), op2: Operand::Absent },
        0x82u8 => Instruction { mnemonic: Mnemonic::RES, bytes: 2, total_operands: 2, op0: Operand::Bit(0), op1: Operand::Reg(Register::D), op2: Operand::Absent },
        0x83u8 => Instruction { mnemonic: Mnemonic::RES, bytes: 2, total_operands: 2, op0: Operand::Bit(0), op1: Operand::Reg(Register::E), op2: Operand::Absent },
        0x84u8 => Instruction { mnemonic: Mnemonic::RES, bytes: 2, total_operands: 2, op0: Operand::Bit(0), op1: Operand::Reg(Register::H), op2: Operand::Absent },
        0x85u8 => Instruction { mnemonic: Mnemonic::RES, bytes: 2, total_operands: 2, op0: Operand::Bit(0), op1: Operand::Reg(Register::L), op2: Operand::Absent },
        0x86u8 => Instruction { mnemonic: Mnemonic::RES, bytes: 2, total_operands: 2, op0: Operand::Bit(0), op1: Operand::Ind(Register::HL), op2: Operand::Absent },
        0x87u8 => Instruction { mnemonic: Mnemonic::RES, bytes: 2, total_operands: 2, op0: Operand::Bit(0), op1: Operand::Reg(Register::A), op2: Operand::Absent },
        0x88u8 => Instruction { mnemonic: Mnemonic::RES, bytes: 2, total_operands: 2, op0: Operand::Bit(1), op1: Operand::Reg(Register::B), op2: Operand::Absent },
        0x89u8 => Instruction { mnemonic: Mnemonic::RES, bytes: 2, total_operands: 2, op0: Operand::Bit(1), op1: Operand::Reg(Register::C), op2: Operand::Absent },
        0x8Au8 => Instruction { mnemonic: Mnemonic::RES, bytes: 2, total_operands: 2, op0: Operand::Bit(1), op1: Operand::Reg(Register::D), op2: Operand::Absent },
        0x8Bu8 => Instruction { mnemonic: Mnemonic::RES, bytes: 2, total_operands: 2, op0: Operand::Bit(1), op1: Operand::Reg(Register::E), op2: Operand::Absent },
        0x8Cu8 => Instruction { mnemonic: Mnemonic::RES, bytes: 2, total_operands: 2, op0: Operand::Bit(1), op1: Operand::Reg(Register::H), op2: Operand::Absent },
        0x8Du8 => Instruction { mnemonic: Mnemonic::RES, bytes: 2, total_operands: 2, op0: Operand::Bit(1), op1: Operand::Reg(Register::L), op2: Operand::Absent },
        0x8Eu8 => Instruction { mnemonic: Mnemonic::RES, bytes: 2, total_operands: 2, op0: Operand::Bit(1), op1: Operand::Ind(Register::HL), op2: Operand::Absent },
        0x8Fu8 => Instruction { mnemonic: Mnemonic::RES, bytes: 2, total_operands: 2, op0: Operand::Bit(1), op1: Operand::Reg(Register::A), op2: Operand::Absent },
        0x90u8 => Instruction { mnemonic: Mnemonic::RES, bytes: 2, total_operands: 2, op0: Operand::Bit(2), op1: Operand::Reg(Register::B), op2: Operand::Absent },
        0x91u8 => Instruction { mnemonic: Mnemonic::RES, bytes: 2, total_operands: 2, op0: Operand::Bit(2), op1: Operand::Reg(Register::C), op2: Operand::Absent },
        0x92u8 => Instruction { mnemonic: Mnemonic::RES, bytes: 2, total_operands: 2, op0: Operand::Bit(2), op1: Operand::Reg(Register::D), op2: Operand::Absent },
        0x93u8 => Instruction { mnemonic: Mnemonic::RES, bytes: 2, total_operands: 2, op0: Operand::Bit(2), op1: Operand::Reg(Register::E), op2: Operand::Absent },
        0x94u8 => Instruction { mnemonic: Mnemonic::RES, bytes: 2, total_operands: 2, op0: Operand::Bit(2), op1: Operand::Reg(Register::H), op2: Operand::Absent },
        0x95u8 => Instruction { mnemonic: Mnemonic::RES, bytes: 2, total_operands: 2, op0: Operand::Bit(2), op1: Operand::Reg(Register::L), op2: Operand::Absent },
        0x96u8 => Instruction { mnemonic: Mnemonic::RES, bytes: 2, total_operands: 2, op0: Operand::Bit(2), op1: Operand::Ind(Register::HL), op2: Operand::Absent },
        0x97u8 => Instruction { mnemonic: Mnemonic::RES, bytes: 2, total_operands: 2, op0: Operand::Bit(2), op1: Operand::Reg(Register::A), op2: Operand::Absent },
        0x98u8 => Instruction { mnemonic: Mnemonic::RES, bytes: 2, total_operands: 2, op0: Operand::Bit(3), op1: Operand::Reg(Register::B), op2: Operand::Absent },
        0x99u8 => Instruction { mnemonic: Mnemonic::RES, bytes: 2, total_operands: 2, op0: Operand::Bit(3), op1: Operand::Reg(Register::C), op2: Operand::Absent },
        0x9Au8 => Instruction { mnemonic: Mnemonic::RES, bytes: 2, total_operands: 2, op0: Operand::Bit(3), op1: Operand::Reg(Register::D), op2: Operand::Absent },
        0x9Bu8 => Instruction { mnemonic: Mnemonic::RES, bytes: 2, total_operands: 2, op0: Operand::Bit(3), op1: Operand::Reg(Register::E), op2: Operand::Absent },
        0x9Cu8 => Instruction { mnemonic: Mnemonic::RES, bytes: 2, total_operands: 2, op0: Operand::Bit(3), op1: Operand::Reg(Register::H), op2: Operand::Absent },
        0x9Du8 => Instruction { mnemonic: Mnemonic::RES, bytes: 2, total_operands: 2, op0: Operand::Bit(3), op1: Operand::Reg(Register::L), op2: Operand::Absent },
        0x9Eu8 => Instruction { mnemonic: Mnemonic::RES, bytes: 2, total_operands: 2, op0: Operand::Bit(3), op1: Operand::Ind(Register::HL), op2: Operand::Absent },
        0x9Fu8 => Instruction { mnemonic: Mnemonic::RES, bytes: 2, total_operands: 2, op0: Operand::Bit(3), op1: Operand::Reg(Register::A), op2: Operand::Absent },
        0xA0u8 => Instruction { mnemonic: Mnemonic::RES, bytes: 2, total_operands: 2, op0: Operand::Bit(4), op1: Operand::Reg(Register::B), op2: Operand::Absent },
        0xA1u8 => Instruction { mnemonic: Mnemonic::RES, bytes: 2, total_operands: 2, op0: Operand::Bit(4), op1: Operand::Reg(Register::C), op2: Operand::Absent },
        0xA2u8 => Instruction { mnemonic: Mnemonic::RES, bytes: 2, total_operands: 2, op0: Operand::Bit(4), op1: Operand::Reg(Register::D), op2: Operand::Absent },
        0xA3u8 => Instruction { mnemonic: Mnemonic::RES, bytes: 2, total_operands: 2, op0: Operand::Bit(4), op1: Operand::Reg(Register::E), op2: Operand::Absent },
        0xA4u8 => Instruction { mnemonic: Mnemonic::RES, bytes: 2, total_operands: 2, op0: Operand::Bit(4), op1: Operand::Reg(Register::H), op2: Operand::Absent },
        0xA5u8 => Instruction { mnemonic: Mnemonic::RES, bytes: 2, total_operands: 2, op0: Operand::Bit(4), op1: Operand::Reg(Register::L), op2: Operand::Absent },
        0xA6u8 => Instruction { mnemonic: Mnemonic::RES, bytes: 2, total_operands: 2, op0: Operand::Bit(4), op1: Operand::Ind(Register::HL), op2: Operand::Absent },
        0xA7u8 => Instruction { mnemonic: Mnemonic::RES, bytes: 2, total_operands: 2, op0: Operand::Bit(4), op1: Operand::Reg(Register::A), op2: Operand::Absent },
        0xA8u8 => Instruction { mnemonic: Mnemonic::RES, bytes: 2, total_operands: 2, op0: Operand::Bit(5), op1: Operand::Reg(Register::B), op2: Operand::Absent },
        0xA9u8 => Instruction { mnemonic: Mnemonic::RES, bytes: 2, total_operands: 2, op0: Operand::Bit(5), op1: Operand::Reg(Register::C), op2: Operand::Absent },
        0xAAu8 => Instruction { mnemonic: Mnemonic::RES, bytes: 2, total_operands: 2, op0: Operand::Bit(5), op1: Operand::Reg(Register::D), op2: Operand::Absent },
        0xABu8 => Instruction { mnemonic: Mnemonic::RES, bytes: 2, total_operands: 2, op0: Operand::Bit(5), op1: Operand::Reg(Register::E), op2: Operand::Absent },
        0xACu8 => Instruction { mnemonic: Mnemonic::RES, bytes: 2, total_operands: 2, op0: Operand::Bit(5), op1: Operand::Reg(Register::H), op2: Operand::Absent },
        0xADu8 => Instruction { mnemonic: Mnemonic::RES, bytes: 2, total_operands: 2, op0: Operand::Bit(5), op1: Operand::Reg(Register::L), op2: Operand::Absent },
        0xAEu8 => Instruction { mnemonic: Mnemonic::RES, bytes: 2, total_operands: 2, op0: Operand::Bit(5), op1: Operand::Ind(Register::HL), op2: Operand::Absent },
        0xAFu8 => Instruction { mnemonic: Mnemonic::RES, bytes: 2, total_operands: 2, op0: Operand::Bit(5), op1: Operand::Reg(Register::A), op2: Operand::Absent },
        0xB0u8 => Instruction { mnemonic: Mnemonic::RES, bytes: 2, total_operands: 2, op0: Operand::Bit(6), op1: Operand::Reg(Register::B), op2: Operand::Absent },
        0xB1u8 => Instruction { mnemonic: Mnemonic::RES, bytes: 2, total_operands: 2, op0: Operand::Bit(6), op1: Operand::Reg(Register::C), op2: Operand::Absent },
        0xB2u8 => Instruction { mnemonic: Mnemonic::RES, bytes: 2, total_operands: 2, op0: Operand::Bit(6), op1: Operand::Reg(Register::D), op2: Operand::Absent },
        0xB3u8 => Instruction { mnemonic: Mnemonic::RES, bytes: 2, total_operands: 2, op0: Operand::Bit(6), op1: Operand::Reg(Register::E), op2: Operand::Absent },
        0xB4u8 => Instruction { mnemonic: Mnemonic::RES, bytes: 2, total_operands: 2, op0: Operand::Bit(6), op1: Operand::Reg(Register::H), op2: Operand::Absent },
        0xB5u8 => Instruction { mnemonic: Mnemonic::RES, bytes: 2, total_operands: 2, op0: Operand::Bit(6), op1: Operand::Reg(Register::L), op2: Operand::Absent },
        0xB6u8 => Instruction { mnemonic: Mnemonic::RES, bytes: 2, total_operands: 2, op0: Operand::Bit(6), op1: Operand::Ind(Register::HL), op2: Operand::Absent },
        0xB7u8 => Instruction { mnemonic: Mnemonic::RES, bytes: 2, total_operands: 2, op0: Operand::Bit(6), op1: Operand::Reg(Register::A), op2: Operand::Absent },
        0xB8u8 => Instruction { mnemonic: Mnemonic::RES, bytes: 2, total_operands: 2, op0: Operand::Bit(7), op1: Operand::Reg(Register::B), op2: Operand::Absent },
        0xB9u8 => Instruction { mnemonic: Mnemonic::RES, bytes: 2, total_operands: 2, op0: Operand::Bit(7), op1: Operand::Reg(Register::C), op2: Operand::Absent },
        0xBAu8 => Instruction { mnemonic: Mnemonic::RES, bytes: 2, total_operands: 2, op0: Operand::Bit(7), op1: Operand::Reg(Register::D), op2: Operand::Absent },
        0xBBu8 => Instruction { mnemonic: Mnemonic::RES, bytes: 2, total_operands: 2, op0: Operand::Bit(7), op1: Operand::Reg(Register::E), op2: Operand::Absent },
        0xBCu8 => Instruction { mnemonic: Mnemonic::RES, bytes: 2, total_operands: 2, op0: Operand::Bit(7), op1: Operand::Reg(Register::H), op2: Operand::Absent },
        0xBDu8 => Instruction { mnemonic: Mnemonic::RES, bytes: 2, total_operands: 2, op0: Operand::Bit(7), op1: Operand::Reg(Register::L), op2: Operand::Absent },
        0xBEu8 => Instruction { mnemonic: Mnemonic::RES, bytes: 2, total_operands: 2, op0: Operand::Bit(7), op1: Operand::Ind(Register::HL), op2: Operand::Absent },
        0xBFu8 => Instruction { mnemonic: Mnemonic::RES, bytes: 2, total_operands: 2, op0: Operand::Bit(7), op1: Operand::Reg(Register::A), op2: Operand::Absent },
        0xC0u8 => Instruction { mnemonic: Mnemonic::SET, bytes: 2, total_operands: 2, op0: Operand::Bit(0), op1: Operand::Reg(Register::B), op2: Operand::Absent },
        0xC1u8 => Instruction { mnemonic: Mnemonic::SET, bytes: 2, total_operands: 2, op0: Operand::Bit(0), op1: Operand::Reg(Register::C), op2: Operand::Absent },
        0xC2u8 => Instruction { mnemonic: Mnemonic::SET, bytes: 2, total_operands: 2, op0: Operand::Bit(0), op1: Operand::Reg(Register::D), op2: Operand::Absent },
        0xC3u8 => Instruction { mnemonic: Mnemonic::SET, bytes: 2, total_operands: 2, op0: Operand::Bit(0), op1: Operand::Reg(Register::E), op2: Operand::Absent },
        0xC4u8 => Instruction { mnemonic: Mnemonic::SET, bytes: 2, total_operands: 2, op0: Operand::Bit(0), op1: Operand::Reg(Register::H), op2: Operand::Absent },
        0xC5u8 => Instruction { mnemonic: Mnemonic::SET, bytes: 2, total_operands: 2, op0: Operand::Bit(0), op1: Operand::Reg(Register::L), op2: Operand::Absent },
        0xC6u8 => Instruction { mnemonic: Mnemonic::SET, bytes: 2, total_operands: 2, op0: Operand::Bit(0), op1: Operand::Ind(Register::HL), op2: Operand::Absent },
        0xC7u8 => Instruction { mnemonic: Mnemonic::SET, bytes: 2, total_operands: 2, op0: Operand::Bit(0), op1: Operand::Reg(Register::A), op2: Operand::Absent },
        0xC8u8 => Instruction { mnemonic: Mnemonic::SET, bytes: 2, total_operands: 2, op0: Operand::Bit(1), op1: Operand::Reg(Register::B), op2: Operand::Absent },
        0xC9u8 => Instruction { mnemonic: Mnemonic::SET, bytes: 2, total_operands: 2, op0: Operand::Bit(1), op1: Operand::Reg(Register::C), op2: Operand::Absent },
        0xCAu8 => Instruction { mnemonic: Mnemonic::SET, bytes: 2, total_operands: 2, op0: Operand::Bit(1), op1: Operand::Reg(Register::D), op2: Operand::Absent },
        0xCBu8 => Instruction { mnemonic: Mnemonic::SET, bytes: 2, total_operands: 2, op0: Operand::Bit(1), op1: Operand::Reg(Register::E), op2: Operand::Absent },
        0xCCu8 => Instruction { mnemonic: Mnemonic::SET, bytes: 2, total_operands: 2, op0: Operand::Bit(1), op1: Operand::Reg(Register::H), op2: Operand::Absent },
        0xCDu8 => Instruction { mnemonic: Mnemonic::SET, bytes: 2, total_operands: 2, op0: Operand::Bit(1), op1: Operand::Reg(Register::L), op2: Operand::Absent },
        0xCEu8 => Instruction { mnemonic: Mnemonic::SET, bytes: 2, total_operands: 2, op0: Operand::Bit(1), op1: Operand::Ind(Register::HL), op2: Operand::Absent },
        0xCFu8 => Instruction { mnemonic: Mnemonic::SET, bytes: 2, total_operands: 2, op0: Operand::Bit(1), op1: Operand::Reg(Register::A), op2: Operand::Absent },
        0xD0u8 => Instruction { mnemonic: Mnemonic::SET, bytes: 2, total_operands: 2, op0: Operand::Bit(2), op1: Operand::Reg(Register::B), op2: Operand::Absent },
        0xD1u8 => Instruction { mnemonic: Mnemonic::SET, bytes: 2, total_operands: 2, op0: Operand::Bit(2), op1: Operand::Reg(Register::C), op2: Operand::Absent },
        0xD2u8 => Instruction { mnemonic: Mnemonic::SET, bytes: 2, total_operands: 2, op0: Operand::Bit(2), op1: Operand::Reg(Register::D), op2: Operand::Absent },
        0xD3u8 => Instruction { mnemonic: Mnemonic::SET, bytes: 2, total_operands: 2, op0: Operand::Bit(2), op1: Operand::Reg(Register::E), op2: Operand::Absent },
        0xD4u8 => Instruction { mnemonic: Mnemonic::SET, bytes: 2, total_operands: 2, op0: Operand::Bit(2), op1: Operand::Reg(Register::H), op2: Operand::Absent },
        0xD5u8 => Instruction { mnemonic: Mnemonic::SET, bytes: 2, total_operands: 2, op0: Operand::Bit(2), op1: Operand::Reg(Register::L), op2: Operand::Absent },
        0xD6u8 => Instruction { mnemonic: Mnemonic::SET, bytes: 2, total_operands: 2, op0: Operand::Bit(2), op1: Operand::Ind(Register::HL), op2: Operand::Absent },
        0xD7u8 => Instruction { mnemonic: Mnemonic::SET, bytes: 2, total_operands: 2, op0: Operand::Bit(2), op1: Operand::Reg(Register::A), op2: Operand::Absent },
        0xD8u8 => Instruction { mnemonic: Mnemonic::SET, bytes: 2, total_operands: 2, op0: Operand::Bit(3), op1: Operand::Reg(Register::B), op2: Operand::Absent },
        0xD9u8 => Instruction { mnemonic: Mnemonic::SET, bytes: 2, total_operands: 2, op0: Operand::Bit(3), op1: Operand::Reg(Register::C), op2: Operand::Absent },
        0xDAu8 => Instruction { mnemonic: Mnemonic::SET, bytes: 2, total_operands: 2, op0: Operand::Bit(3), op1: Operand::Reg(Register::D), op2: Operand::Absent },
        0xDBu8 => Instruction { mnemonic: Mnemonic::SET, bytes: 2, total_operands: 2, op0: Operand::Bit(3), op1: Operand::Reg(Register::E), op2: Operand::Absent },
        0xDCu8 => Instruction { mnemonic: Mnemonic::SET, bytes: 2, total_operands: 2, op0: Operand::Bit(3), op1: Operand::Reg(Register::H), op2: Operand::Absent },
        0xDDu8 => Instruction { mnemonic: Mnemonic::SET, bytes: 2, total_operands: 2, op0: Operand::Bit(3), op1: Operand::Reg(Register::L), op2: Operand::Absent },
        0xDEu8 => Instruction { mnemonic: Mnemonic::SET, bytes: 2, total_operands: 2, op0: Operand::Bit(3), op1: Operand::Ind(Register::HL), op2: Operand::Absent },
        0xDFu8 => Instruction { mnemonic: Mnemonic::SET, bytes: 2, total_operands: 2, op0: Operand::Bit(3), op1: Operand::Reg(Register::A), op2: Operand::Absent },
        0xE0u8 => Instruction { mnemonic: Mnemonic::SET, bytes: 2, total_operands: 2, op0: Operand::Bit(4), op1: Operand::Reg(Register::B), op2: Operand::Absent },
        0xE1u8 => Instruction { mnemonic: Mnemonic::SET, bytes: 2, total_operands: 2, op0: Operand::Bit(4), op1: Operand::Reg(Register::C), op2: Operand::Absent },
        0xE2u8 => Instruction { mnemonic: Mnemonic::SET, bytes: 2, total_operands: 2, op0: Operand::Bit(4), op1: Operand::Reg(Register::D), op2: Operand::Absent },
        0xE3u8 => Instruction { mnemonic: Mnemonic::SET, bytes: 2, total_operands: 2, op0: Operand::Bit(4), op1: Operand::Reg(Register::E), op2: Operand::Absent },
        0xE4u8 => Instruction { mnemonic: Mnemonic::SET, bytes: 2, total_operands: 2, op0: Operand::Bit(4), op1: Operand::Reg(Register::H), op2: Operand::Absent },
        0xE5u8 => Instruction { mnemonic: Mnemonic::SET, bytes: 2, total_operands: 2, op0: Operand::Bit(4), op1: Operand::Reg(Register::L), op2: Operand::Absent },
        0xE6u8 => Instruction { mnemonic: Mnemonic::SET, bytes: 2, total_operands: 2, op0: Operand::Bit(4), op1: Operand::Ind(Register::HL), op2: Operand::Absent },
        0xE7u8 => Instruction { mnemonic: Mnemonic::SET, bytes: 2, total_operands: 2, op0: Operand::Bit(4), op1: Operand::Reg(Register::A), op2: Operand::Absent },
        0xE8u8 => Instruction { mnemonic: Mnemonic::SET, bytes: 2, total_operands: 2, op0: Operand::Bit(5), op1: Operand::Reg(Register::B), op2: Operand::Absent },
        0xE9u8 => Instruction { mnemonic: Mnemonic::SET, bytes: 2, total_operands: 2, op0: Operand::Bit(5), op1: Operand::Reg(Register::C), op2: Operand::Absent },
        0xEAu8 => Instruction { mnemonic: Mnemonic::SET, bytes: 2, total_operands: 2, op0: Operand::Bit(5), op1: Operand::Reg(Register::D), op2: Operand::Absent },
        0xEBu8 => Instruction { mnemonic: Mnemonic::SET, bytes: 2, total_operands: 2, op0: Operand::Bit(5), op1: Operand::Reg(Register::E), op2: Operand::Absent },
        0xECu8 => Instruction { mnemonic: Mnemonic::SET, bytes: 2, total_operands: 2, op0: Operand::Bit(5), op1: Operand::Reg(Register::H), op2: Operand::Absent },
        0xEDu8 => Instruction { mnemonic: Mnemonic::SET, bytes: 2, total_operands: 2, op0: Operand::Bit(5), op1: Operand::Reg(Register::L), op2: Operand::Absent },
        0xEEu8 => Instruction { mnemonic: Mnemonic::SET, bytes: 2, total_operands: 2, op0: Operand::Bit(5), op1: Operand::Ind(Register::HL), op2: Operand::Absent },
        0xEFu8 => Instruction { mnemonic: Mnemonic::SET, bytes: 2, total_operands: 2, op0: Operand::Bit(5), op1: Operand::Reg(Register::A), op2: Operand::Absent },
        0xF0u8 => Instruction { mnemonic: Mnemonic::SET, bytes: 2, total_operands: 2, op0: Operand::Bit(6), op1: Operand::Reg(Register::B), op2: Operand::Absent },
        0xF1u8 => Instruction { mnemonic: Mnemonic::SET, bytes: 2, total_operands: 2, op0: Operand::Bit(6), op1: Operand::Reg(Register::C), op2: Operand::Absent },
        0xF2u8 => Instruction { mnemonic: Mnemonic::SET, bytes: 2, total_operands: 2, op0: Operand::Bit(6), op1: Operand::Reg(Register::D), op2: Operand::Absent },
        0xF3u8 => Instruction { mnemonic: Mnemonic::SET, bytes: 2, total_operands: 2, op0: Operand::Bit(6), op1: Operand::Reg(Register::E), op2: Operand::Absent },
        0xF4u8 => Instruction { mnemonic: Mnemonic::SET, bytes: 2, total_operands: 2, op0: Operand::Bit(6), op1: Operand::Reg(Register::H), op2: Operand::Absent },
        0xF5u8 => Instruction { mnemonic: Mnemonic::SET, bytes: 2, total_operands: 2, op0: Operand::Bit(6), op1: Operand::Reg(Register::L), op2: Operand::Absent },
        0xF6u8 => Instruction { mnemonic: Mnemonic::SET, bytes: 2, total_operands: 2, op0: Operand::Bit(6), op1: Operand::Ind(Register::HL), op2: Operand::Absent },
        0xF7u8 => Instruction { mnemonic: Mnemonic::SET, bytes: 2, total_operands: 2, op0: Operand::Bit(6), op1: Operand::Reg(Register::A), op2: Operand::Absent },
        0xF8u8 => Instruction { mnemonic: Mnemonic::SET, bytes: 2, total_operands: 2, op0: Operand::Bit(7), op1: Operand::Reg(Register::B), op2: Operand::Absent },
        0xF9u8 => Instruction { mnemonic: Mnemonic::SET, bytes: 2, total_operands: 2, op0: Operand::Bit(7), op1: Operand::Reg(Register::C), op2: Operand::Absent },
        0xFAu8 => Instruction { mnemonic: Mnemonic::SET, bytes: 2, total_operands: 2, op0: Operand::Bit(7), op1: Operand::Reg(Register::D), op2: Operand::Absent },
        0xFBu8 => Instruction { mnemonic: Mnemonic::SET, bytes: 2, total_operands: 2, op0: Operand::Bit(7), op1: Operand::Reg(Register::E), op2: Operand::Absent },
        0xFCu8 => Instruction { mnemonic: Mnemonic::SET, bytes: 2, total_operands: 2, op0: Operand::Bit(7), op1: Operand::Reg(Register::H), op2: Operand::Absent },
        0xFDu8 => Instruction { mnemonic: Mnemonic::SET, bytes: 2, total_operands: 2, op0: Operand::Bit(7), op1: Operand::Reg(Register::L), op2: Operand::Absent },
        0xFEu8 => Instruction { mnemonic: Mnemonic::SET, bytes: 2, total_operands: 2, op0: Operand::Bit(7), op1: Operand::Ind(Register::HL), op2: Operand::Absent },
        0xFFu8 => Instruction { mnemonic: Mnemonic::SET, bytes: 2, total_operands: 2, op0: Operand::Bit(7), op1: Operand::Reg(Register::A), op2: Operand::Absent },
    }
}

/// Decodes an opcode after the 0xCB prefix.
pub fn decode_cb(opcode: u8) -> (r: Instruction)
    ensures
        r == cb_instruction_of(opcode),
{
    match opcode {
        0x00u8 => Instruction { mnemonic: Mnemonic::RLC, bytes: 2, total_operands: 1, op0: Operand::Reg(Register::B), op1: Operand::Absent, op2: Operand::Absent },
        0x01u8 => Instruction { mnemonic: Mnemonic::RLC, bytes: 2, total_operands: 1, op0: Operand::Reg(Register::C), op1: Operand::Absent, op2: Operand::Absent },
        0x02u8 => Instruction { mnemonic: Mnemonic::RLC, bytes: 2, total_operands: 1, op0: Operand::Reg(Register::D), op1: Operand::Absent, op2: Operand::Absent },
        0x03u8 => Instruction { mnemonic: Mnemonic::RLC, bytes: 2, total_operands: 1, op0: Operand::Reg(Register::E), op1: Operand::Absent, op2: Operand::Absent },
        0x04u8 => Instruction { mnemonic: Mnemonic::RLC, bytes: 2, total_operands: 1, op0: Operand::Reg(Register::H), op1: Operand::Absent, op2: Operand::Absent },
        0x05u8 => Instruction { mnemonic: Mnemonic::RLC, bytes: 2, total_operands: 1, op0: Operand::Reg(Register::L), op1: Operand::Absent, op2: Operand::Absent },
        0x06u8 => Instruction { mnemonic: Mnemonic::RLC, bytes: 2, total_operands: 1, op0: Operand::Ind(Register::HL), op1: Operand::Absent, op2: Operand::Absent },
        0x07u8 => Instruction { mnemonic: Mnemonic::RLC, bytes: 2, total_operands: 1, op0: Operand::Reg(Register::A), op1: Operand::Absent, op2: Operand::Absent },
        0x08u8 => Instruction { mnemonic: Mnemonic::RRC, bytes: 2, total_operands: 1, op0: Operand::Reg(Register::B), op1: Operand::Absent, op2: Operand::Absent },
        0x09u8 => Instruction { mnemonic: Mnemonic::RRC, bytes: 2, total_operands: 1, op0: Operand::Reg(Register::C), op1: Operand::Absent, op2: Operand::Absent },
        0x0Au8 => Instruction { mnemonic: Mnemonic::RRC, bytes: 2, total_operands: 1, op0: Operand::Reg(Register::D), op1: Operand::Absent, op2: Operand::Absent },
        0x0Bu8 => Instruction { mnemonic: Mnemonic::RRC, bytes: 2, total_operands: 1, op0: Operand::Reg(Register::E), op1: Operand::Absent, op2: Operand::Absent },
        0x0Cu8 => Instruction { mnemonic: Mnemonic::RRC, bytes: 2, total_operands: 1, op0: Operand::Reg(Register::H), op1: Operand::Absent, op2: Operand::Absent },
        0x0Du8 => Instruction { mnemonic: Mnemonic::RRC, bytes: 2, total_operands: 1, op0: Operand::Reg(Register::L), op1: Operand::Absent, op2: Operand::Absent },
        0x0Eu8 => Instruction { mnemonic: Mnemonic::RRC, bytes: 2, total_operands: 1, op0: Operand::Ind(Register::HL), op1: Operand::Absent, op2: Operand::Absent },
        0x0Fu8 => Instruction { mnemonic: Mnemonic::RRC, bytes: 2, total_operands: 1, op0: Operand::Reg(Register::A), op1: Operand::Absent, op2: Operand::Absent },
        0x10u8 => Instruction { mnemonic: Mnemonic::RL, bytes: 2, total_operands: 1, op0: Operand::Reg(Register::B), op1: Operand::Absent, op2: Operand::Absent },
        0x11u8 => Instruction { mnemonic: Mnemonic::RL, bytes: 2, total_operands: 1, op0: Operand::Reg(Register::C), op1: Operand::Absent, op2: Operand::Absent },
        0x12u8 => Instruction { mnemonic: Mnemonic::RL, bytes: 2, total_operands: 1, op0: Operand::Reg(Register::D), op1: Operand::Absent, op2: Operand::Absent },
        0x13u8 => Instruction { mnemonic: Mnemonic::RL, bytes: 2, total_operands: 1, op0: Operand::Reg(Register::E), op1: Operand::Absent, op2: Operand::Absent },
        0x14u8 => Instruction { mnemonic: Mnemonic::RL, bytes: 2, total_operands: 1, op0: Operand::Reg(Register::H), op1: Operand::Absent, op2: Operand::Absent },
        0x15u8 => Instruction { mnemonic: Mnemonic::RL, bytes: 2, total_operands: 1, op0: Operand::Reg(Register::L), op1: Operand::Absent, op2: Operand::Absent },
        0x16u8 => Instruction { mnemonic: Mnemonic::RL, bytes: 2, total_operands: 1, op0: Operand::Ind(Register::HL), op1: Operand::Absent, op2: Operand::Absent },
        0x17u8 => Instruction { mnemonic: Mnemonic::RL, bytes: 2, total_operands: 1, op0: Operand::Reg(Register::A), op1: Operand::Absent, op2: Operand::Absent },
        0x18u8 => Instruction { mnemonic: Mnemonic::RR, bytes: 2, total_operands: 1, op0: Operand::Reg(Register::B), op1: Operand::Absent, op2: Operand::Absent },
        0x19u8 => Instruction { mnemonic: Mnemonic::RR, bytes: 2, total_operands: 1, op0: Operand::Reg(Register::C), op1: Operand::Absent, op2: Operand::Absent },
        0x1Au8 => Instruction { mnemonic: Mnemonic::RR, bytes: 2, total_operands: 1, op0: Operand::Reg(Register::D), op1: Operand::Absent, op2: Operand::Absent },
        0x1Bu8 => Instruction { mnemonic: Mnemonic::RR, bytes: 2, total_operands: 1, op0: Operand::Reg(Register::E), op1: Operand::Absent, op2: Operand::Absent },
        0x1Cu8 => Instruction { mnemonic: Mnemonic::RR, bytes: 2, total_operands: 1, op0: Operand::Reg(Register::H), op1: Operand::Absent, op2: Operand::Absent },
        0x1Du8 => Instruction { mnemonic: Mnemonic::RR, bytes: 2, total_operands: 1, op0: Operand::Reg(Register::L), op1: Operand::Absent, op2: Operand::Absent },
        0x1Eu8 => Instruction { mnemonic: Mnemonic::RR, bytes: 2, total_operands: 1, op0: Operand::Ind(Register::HL), op1: Operand::Absent, op2: Operand::Absent },
        0x1Fu8 => Instruction { mnemonic: Mnemonic::RR, bytes: 2, total_operands: 1, op0: Operand::Reg(Register::A), op1: Operand::Absent, op2: Operand::Absent },
        0x20u8 => Instruction { mnemonic: Mnemonic::SLA, bytes: 2, total_operands: 1, op0: Operand::Reg(Register::B), op1: Operand::Absent, op2: Operand::Absent },
        0x21u8 => Instruction { mnemonic: Mnemonic::SLA, bytes: 2, total_operands: 1, op0: Operand::Reg(Register::C), op1: Operand::Absent, op2: Operand::Absent },
        0x22u8 => Instruction { mnemonic: Mnemonic::SLA, bytes: 2, total_operands: 1, op0: Operand::Reg(Register::D), op1: Operand::Absent, op2: Operand::Absent },
        0x23u8 => Instruction { mnemonic: Mnemonic::SLA, bytes: 2, total_operands: 1, op0: Operand::Reg(Register::E), op1: Operand::Absent, op2: Operand::Absent },
        0x24u8 => Instruction { mnemonic: Mnemonic::SLA, bytes: 2, total_operands: 1, op0: Operand::Reg(Register::H), op1: Operand::Absent, op2: Operand::Absent },
        0x25u8 => Instruction { mnemonic: Mnemonic::SLA, bytes: 2, total_operands: 1, op0: Operand::Reg(Register::L), op1: Operand::Absent, op2: Operand::Absent },
        0x26u8 => Instruction { mnemonic: Mnemonic::SLA, bytes: 2, total_operands: 1, op0: Operand::Ind(Register::HL), op1: Operand::Absent, op2: Operand::Absent },
        0x27u8 => Instruction { mnemonic: Mnemonic::SLA, bytes: 2, total_operands: 1, op0: Operand::Reg(Register::A), op1: Operand::Absent, op2: Operand::Absent },
        0x28u8 => Instruction { mnemonic: Mnemonic::SRA, bytes: 2, total_operands: 1, op0: Operand::Reg(Register::B), op1: Operand::Absent, op2: Operand::Absent },
        0x29u8 => Instruction { mnemonic: Mnemonic::SRA, bytes: 2, total_operands: 1, op0: Operand::Reg(Register::C), op1: Operand::Absent, op2: Operand::Absent },
        0x2Au8 => Instruction { mnemonic: Mnemonic::SRA, bytes: 2, total_operands: 1, op0: Operand::Reg(Register::D), op1: Operand::Absent, op2: Operand::Absent },
        0x2Bu8 => Instruction { mnemonic: Mnemonic::SRA, bytes: 2, total_operands: 1, op0: Operand::Reg(Register::E), op1: Operand::Absent, op2: Operand::Absent },
        0x2Cu8 => Instruction { mnemonic: Mnemonic::SRA, bytes: 2, total_operands: 1, op0: Operand::Reg(Register::H), op1: Operand::Absent, op2: Operand::Absent },
        0x2Du8 => Instruction { mnemonic: Mnemonic::SRA, bytes: 2, total_operands: 1, op0: Operand::Reg(Register::L), op1: Operand::Absent, op2: Operand::Absent },
        0x2Eu8 => Instruction { mnemonic: Mnemonic::SRA, bytes: 2, total_operands: 1, op0: Operand::Ind(Register::HL), op1: Operand::Absent, op2: Operand::Absent },
        0x2Fu8 => Instruction { mnemonic: Mnemonic::SRA, bytes: 2, total_operands: 1, op0: Operand::Reg(Register::A), op1: Operand::Absent, op2: Operand::Absent },
        0x30u8 => Instruction { mnemonic: Mnemonic::SWAP, bytes: 2, total_operands: 1, op0: Operand::Reg(Register::B), op1: Operand::Absent, op2: Operand::Absent },
        0x31u8 => Instruction { mnemonic: Mnemonic::SWAP, bytes: 2, total_operands: 1, op0: Operand::Reg(Register::C), op1: Operand::Absent, op2: Operand::Absent },
        0x32u8 => Instruction { mnemonic: Mnemonic::SWAP, bytes: 2, total_operands: 1, op0: Operand::Reg(Register::D), op1: Operand::Absent, op2: Operand::Absent },
        0x33u8 => Instruction { mnemonic: Mnemonic::SWAP, bytes: 2, total_operands: 1, op0: Operand::Reg(Register::E), op1: Operand::Absent, op2: Operand::Absent },
        0x34u8 => Instruction { mnemonic: Mnemonic::SWAP, bytes: 2, total_operands: 1, op0: Operand::Reg(Register::H), op1: Operand::Absent, op2: Operand::Absent },
        0x35u8 => Instruction { mnemonic: Mnemonic::SWAP, bytes: 2, total_operands: 1, op0: Operand::Reg(Register::L), op1: Operand::Absent, op2: Operand::Absent },
        0x36u8 => Instruction { mnemonic: Mnemonic::SWAP, bytes: 2, total_operands: 1, op0: Operand::Ind(Register::HL), op1: Operand::Absent, op2: Operand::Absent },
        0x37u8 => Instruction { mnemonic: Mnemonic::SWAP, bytes: 2, total_operands: 1, op0: Operand::Reg(Register::A), op1: Operand::Absent, op2: Operand::Absent },
        0x38u8 => Instruction { mnemonic: Mnemonic::SRL, bytes: 2, total_operands: 1, op0: Operand::Reg(Register::B), op1: Operand::Absent, op2: Operand::Absent },
        0x39u8 => Instruction { mnemonic: Mnemonic::SRL, bytes: 2, total_operands: 1, op0: Operand::Reg(Register::C), op1: Operand::Absent, op2: Operand::Absent },
        0x3Au8 => Instruction { mnemonic: Mnemonic::SRL, bytes: 2, total_operands: 1, op0: Operand::Reg(Register::D), op1: Operand::Absent, op2: Operand::Absent },
        0x3Bu8 => Instruction { mnemonic: Mnemonic::SRL, bytes: 2, total_operands: 1, op0: Operand::Reg(Register::E), op1: Operand::Absent, op2: Operand::Absent },
        0x3Cu8 => Instruction { mnemonic: Mnemonic::SRL, bytes: 2, total_operands: 1, op0: Operand::Reg(Register::H), op1: Operand::Absent, op2: Operand::Absent },
        0x3Du8 => Instruction { mnemonic: Mnemonic::SRL, bytes: 2, total_operands: 1, op0: Operand::Reg(Register::L), op1: Operand::Absent, op2: Operand::Absent },
        0x3Eu8 => Instruction { mnemonic: Mnemonic::SRL, bytes: 2, total_operands: 1, op0: Operand::Ind(Register::HL), op1: Operand::Absent, op2: Operand::Absent },
        0x3Fu8 => Instruction { mnemonic: Mnemonic::SRL, bytes: 2, total_operands: 1, op0: Operand::Reg(Register::A), op1: Operand::Absent, op2: Operand::Absent },
        0x40u8 => Instruction { mnemonic: Mnemonic::BIT, bytes: 2, total_operands: 2, op0: Operand::Bit(0), op1: Operand::Reg(Register::B), op2: Operand::Absent },
        0x41u8 => Instruction { mnemonic: Mnemonic::BIT, bytes: 2, total_operands: 2, op0: Operand::Bit(0), op1: Operand::Reg(Register::C), op2: Operand::Absent },
        0x42u8 => Instruction { mnemonic: Mnemonic::BIT, bytes: 2, total_operands: 2, op0: Operand::Bit(0), op1: Operand::Reg(Register::D), op2: Operand::Absent },
        0x43u8 => Instruction { mnemonic: Mnemonic::BIT, bytes: 2, total_operands: 2, op0: Operand::Bit(0), op1: Operand::Reg(Register::E), op2: Operand::Absent },
        0x44u8 => Instruction { mnemonic: Mnemonic::BIT, bytes: 2, total_operands: 2, op0: Operand::Bit(0), op1: Operand::Reg(Register::H), op2: Operand::Absent },
        0x45u8 => Instruction { mnemonic: Mnemonic::BIT, bytes: 2, total_operands: 2, op0: Operand::Bit(0), op1: Operand::Reg(Register::L), op2: Operand::Absent },
        0x46u8 => Instruction { mnemonic: Mnemonic::BIT, bytes: 2, total_operands: 2, op0: Operand::Bit(0), op1: Operand::Ind(Register::HL), op2: Operand::Absent },
        0x47u8 => Instruction { mnemonic: Mnemonic::BIT, bytes: 2, total_operands: 2, op0: Operand::Bit(0), op1: Operand::Reg(Register::A), op2: Operand::Absent },
        0x48u8 => Instruction { mnemonic: Mnemonic::BIT, bytes: 2, total_operands: 2, op0: Operand::Bit(1), op1: Operand::Reg(Register::B), op2: Operand::Absent },
        0x49u8 => Instruction { mnemonic: Mnemonic::BIT, bytes: 2, total_operands: 2, op0: Operand::Bit(1), op1: Operand::Reg(Register::C), op2: Operand::Absent },
        0x4Au8 => Instruction { mnemonic: Mnemonic::BIT, bytes: 2, total_operands: 2, op0: Operand::Bit(1), op1: Operand::Reg(Register::D), op2: Operand::Absent },
        0x4Bu8 => Instruction { mnemonic: Mnemonic::BIT, bytes: 2, total_operands: 2, op0: Operand::Bit(1), op1: Operand::Reg(Register::E), op2: Operand::Absent },
        0x4Cu8 => Instruction { mnemonic: Mnemonic::BIT, bytes: 2, total_operands: 2, op0: Operand::Bit(1), op1: Operand::Reg(Register::H), op2: Operand::Absent },
        0x4Du8 => Instruction { mnemonic: Mnemonic::BIT, bytes: 2, total_operands: 2, op0: Operand::Bit(1), op1: Operand::Reg(Register::L), op2: Operand::Absent },
        0x4Eu8 => Instruction { mnemonic: Mnemonic::BIT, bytes: 2, total_operands: 2, op0: Operand::Bit(1), op1: Operand::Ind(Register::HL), op2: Operand::Absent },
        0x4Fu8 => Instruction { mnemonic: Mnemonic::BIT, bytes: 2, total_operands: 2, op0: Operand::Bit(1), op1: Operand::Reg(Register::A), op2: Operand::Absent },
        0x50u8 => Instruction { mnemonic: Mnemonic::BIT, bytes: 2, total_operands: 2, op0: Operand::Bit(2), op1: Operand::Reg(Register::B), op2: Operand::Absent },
        0x51u8 => Instruction { mnemonic: Mnemonic::BIT, bytes: 2, total_operands: 2, op0: Operand::Bit(2), op1: Operand::Reg(Register::C), op2: Operand::Absent },
        0x52u8 => Instruction { mnemonic: Mnemonic::BIT, bytes: 2, total_operands: 2, op0: Operand::Bit(2), op1: Operand::Reg(Register::D), op2: Operand::Absent },
        0x53u8 => Instruction { mnemonic: Mnemonic::BIT, bytes: 2, total_operands: 2, op0: Operand::Bit(2), op1: Operand::Reg(Register::E), op2: Operand::Absent },
        0x54u8 => Instruction { mnemonic: Mnemonic::BIT, bytes: 2, total_operands: 2, op0: Operand::Bit(2), op1: Operand::Reg(Register::H), op2: Operand::Absent },
        0x55u8 => Instruction { mnemonic: Mnemonic::BIT, bytes: 2, total_operands: 2, op0: Operand::Bit(2), op1: Operand::Reg(Register::L), op2: Operand::Absent },
        0x56u8 => Instruction { mnemonic: Mnemonic::BIT, bytes: 2, total_operands: 2, op0: Operand::Bit(2), op1: Operand::Ind(Register::HL), op2: Operand::Absent },
        0x57u8 => Instruction { mnemonic: Mnemonic::BIT, bytes: 2, total_operands: 2, op0: Operand::Bit(2), op1: Operand::Reg(Register::A), op2: Operand::Absent },
        0x58u8 => Instruction { mnemonic: Mnemonic::BIT, bytes: 2, total_operands: 2, op0: Operand::Bit(3), op1: Operand::Reg(Register::B), op2: Operand::Absent },
        0x59u8 => Instruction { mnemonic: Mnemonic::BIT, bytes: 2, total_operands: 2, op0: Operand::Bit(3), op1: Operand::Reg(Register::C), op2: Operand::Absent },
        0x5Au8 => Instruction { mnemonic: Mnemonic::BIT, bytes: 2, total_operands: 2, op0: Operand::Bit(3), op1: Operand::Reg(Register::D), op2: Operand::Absent },
        0x5Bu8 => Instruction { mnemonic: Mnemonic::BIT, bytes: 2, total_operands: 2, op0: Operand::Bit(3), op1: Operand::Reg(Register::E), op2: Operand::Absent },
        0x5Cu8 => Instruction { mnemonic: Mnemonic::BIT, bytes: 2, total_operands: 2, op0: Operand::Bit(3), op1: Operand::Reg(Register::H), op2: Operand::Absent },
        0x5Du8 => Instruction { mnemonic: Mnemonic::BIT, bytes: 2, total_operands: 2, op0: Operand::Bit(3), op1: Operand::Reg(Register::L), op2: Operand::Absent },
        0x5Eu8 => Instruction { mnemonic: Mnemonic::BIT, bytes: 2, total_operands: 2, op0: Operand::Bit(3), op1: Operand::Ind(Register::HL), op2: Operand::Absent },
        0x5Fu8 => Instruction { mnemonic: Mnemonic::BIT, bytes: 2, total_operands: 2, op0: Operand::Bit(3), op1: Operand::Reg(Register::A), op2: Operand::Absent },
        0x60u8 => Instruction { mnemonic: Mnemonic::BIT, bytes: 2, total_operands: 2, op0: Operand::Bit(4), op1: Operand::Reg(Register::B), op2: Operand::Absent },
        0x61u8 => Instruction { mnemonic: Mnemonic::BIT, bytes: 2, total_operands: 2, op0: Operand::Bit(4), op1: Operand::Reg(Register::C), op2: Operand::Absent },
        0x62u8 => Instruction { mnemonic: Mnemonic::BIT, bytes: 2, total_operands: 2, op0: Operand::Bit(4), op1: Operand::Reg(Register::D), op2: Operand::Absent },
        0x63u8 => Instruction { mnemonic: Mnemonic::BIT, bytes: 2, total_operands: 2, op0: Operand::Bit(4), op1: Operand::Reg(Register::E), op2: Operand::Absent },
        0x64u8 => Instruction { mnemonic: Mnemonic::BIT, bytes: 2, total_operands: 2, op0: Operand::Bit(4), op1: Operand::Reg(Register::H), op2: Operand::Absent },
        0x65u8 => Instruction { mnemonic: Mnemonic::BIT, bytes: 2, total_operands: 2, op0: Operand::Bit(4), op1: Operand::Reg(Register::L), op2: Operand::Absent },
        0x66u8 => Instruction { mnemonic: Mnemonic::BIT, bytes: 2, total_operands: 2, op0: Operand::Bit(4), op1: Operand::Ind(Register::HL), op2: Operand::Absent },
        0x67u8 => Instruction { mnemonic: Mnemonic::BIT, bytes: 2, total_operands: 2, op0: Operand::Bit(4), op1: Operand::Reg(Register::A), op2: Operand::Absent },
        0x68u8 => Instruction { mnemonic: Mnemonic::BIT, bytes: 2, total_operands: 2, op0: Operand::Bit(5), op1: Operand::Reg(Register::B), op2: Operand::Absent },
        0x69u8 => Instruction { mnemonic: Mnemonic::BIT, bytes: 2, total_operands: 2, op0: Operand::Bit(5), op1: Operand::Reg(Register::C), op2: Operand::Absent },
        0x6Au8 => Instruction { mnemonic: Mnemonic::BIT, bytes: 2, total_operands: 2, op0: Operand::Bit(5), op1: Operand::Reg(Register::D), op2: Operand::Absent },
        0x6Bu8 => Instruction { mnemonic: Mnemonic::BIT, bytes: 2, total_operands: 2, op0: Operand::Bit(5), op1: Operand::Reg(Register::E), op2: Operand::Absent },
        0x6Cu8 => Instruction { mnemonic: Mnemonic::BIT, bytes: 2, total_operands: 2, op0: Operand::Bit(5), op1: Operand::Reg(Register::H), op2: Operand::Absent },
        0x6Du8 => Instruction { mnemonic: Mnemonic::BIT, bytes: 2, total_operands: 2, op0: Operand::Bit(5), op1: Operand::Reg(Register::L), op2: Operand::Absent },
        0x6Eu8 => Instruction { mnemonic: Mnemonic::BIT, bytes: 2, total_operands: 2, op0: Operand::Bit(5), op1: Operand::Ind(Register::HL), op2: Operand::Absent },
        0x6Fu8 => Instruction { mnemonic: Mnemonic::BIT, bytes: 2, total_operands: 2, op0: Operand::Bit(5), op1: Operand::Reg(Register::A), op2: Operand::Absent },
        0x70u8 => Instruction { mnemonic: Mnemonic::BIT, bytes: 2, total_operands: 2, op0: Operand::Bit(6), op1: Operand::Reg(Register::B), op2: Operand::Absent },
        0x71u8 => Instruction { mnemonic: Mnemonic::BIT, bytes: 2, total_operands: 2, op0: Operand::Bit(6), op1: Operand::Reg(Register::C), op2: Operand::Absent },
        0x72u8 => Instruction { mnemonic: Mnemonic::BIT, bytes: 2, total_operands: 2, op0: Operand::Bit(6), op1: Operand::Reg(Register::D), op2: Operand::Absent },
        0x73u8 => Instruction { mnemonic: Mnemonic::BIT, bytes: 2, total_operands: 2, op0: Operand::Bit(6), op1: Operand::Reg(Register::E), op2: Operand::Absent },
        0x74u8 => Instruction { mnemonic: Mnemonic::BIT, bytes: 2, total_operands: 2, op0: Operand::Bit(6), op1: Operand::Reg(Register::H), op2: Operand::Absent },
        0x75u8 => Instruction { mnemonic: Mnemonic::BIT, bytes: 2, total_operands: 2, op0: Operand::Bit(6), op1: Operand::Reg(Register::L), op2: Operand::Absent },
        0x76u8 => Instruction { mnemonic: Mnemonic::BIT, bytes: 2, total_operands: 2, op0: Operand::Bit(6), op1: Operand::Ind(Register::HL), op2: Operand::Absent },
        0x77u8 => Instruction { mnemonic: Mnemonic::BIT, bytes: 2, total_operands: 2, op0: Operand::Bit(6), op1: Operand::Reg(Register::A), op2: Operand::Absent },
        0x78u8 => Instruction { mnemonic: Mnemonic::BIT, bytes: 2, total_operands: 2, op0: Operand::Bit(7), op1: Operand::Reg(Register::B), op2: Operand::Absent },
        0x79u8 => Instruction { mnemonic: Mnemonic::BIT, bytes: 2, total_operands: 2, op0: Operand::Bit(7), op1: Operand::Reg(Register::C), op2: Operand::Absent },
        0x7Au8 => Instruction { mnemonic: Mnemonic::BIT, bytes: 2, total_operands: 2, op0: Operand::Bit(7), op1: Operand::Reg(Register::D), op2: Operand::Absent },
        0x7Bu8 => Instruction { mnemonic: Mnemonic::BIT, bytes: 2, total_operands: 2, op0: Operand::Bit(7), op1: Operand::Reg(Register::E), op2: Operand::Absent },
        0x7Cu8 => Instruction { mnemonic: Mnemonic::BIT, bytes: 2, total_operands: 2, op0: Operand::Bit(7), op1: Operand::Reg(Register::H), op2: Operand::Absent },
        0x7Du8 => Instruction { mnemonic: Mnemonic::BIT, bytes: 2, total_operands: 2, op0: Operand::Bit(7), op1: Operand::Reg(Register::L), op2: Operand::Absent },
        0x7Eu8 => Instruction { mnemonic: Mnemonic::BIT, bytes: 2, total_operands: 2, op0: Operand::Bit(7), op1: Operand::Ind(Register::HL), op2: Operand::Absent },
        0x7Fu8 => Instruction { mnemonic: Mnemonic::BIT, bytes: 2, total_operands: 2, op0: Operand::Bit(7), op1: Operand::Reg(Register::A), op2: Operand::Absent },
        0x80u8 => Instruction { mnemonic: Mnemonic::RES, bytes: 2, total_operands: 2, op0: Operand::Bit(0), op1: Operand::Reg(Register::B), op2: Operand::Absent },
        0x81u8 => Instruction { mnemonic: Mnemonic::RES, bytes: 2, total_operands: 2, op0: Operand::Bit(0), op1: Operand::Reg(Register::C), op2: Operand::Absent },
        0x82u8 => Instruction { mnemonic: Mnemonic::RES, bytes: 2, total_operands: 2, op0: Operand::Bit(0), op1: Operand::Reg(Register::D), op2: Operand::Absent },
        0x83u8 => Instruction { mnemonic: Mnemonic::RES, bytes: 2, total_operands: 2, op0: Operand::Bit(0), op1: Operand::Reg(Register::E), op2: Operand::Absent },
        0x84u8 => Instruction { mnemonic: Mnemonic::RES, bytes: 2, total_operands: 2, op0: Operand::Bit(0), op1: Operand::Reg(Register::H), op2: Operand::Absent },
        0x85u8 => Instruction { mnemonic: Mnemonic::RES, bytes: 2, total_operands: 2, op0: Operand::Bit(0), op1: Operand::Reg(Register::L), op2: Operand::Absent },
        0x86u8 => Instruction { mnemonic: Mnemonic::RES, bytes: 2, total_operands: 2, op0: Operand::Bit(0), op1: Operand::Ind(Register::HL), op2: Operand::Absent },
        0x87u8 => Instruction { mnemonic: Mnemonic::RES, bytes: 2, total_operands: 2, op0: Operand::Bit(0), op1: Operand::Reg(Register::A), op2: Operand::Absent },
        0x88u8 => Instruction { mnemonic: Mnemonic::RES, bytes: 2, total_operands: 2, op0: Operand::Bit(1), op1: Operand::Reg(Register::B), op2: Operand::Absent },
        0x89u8 => Instruction { mnemonic: Mnemonic::RES, bytes: 2, total_operands: 2, op0: Operand::Bit(1), op1: Operand::Reg(Register::C), op2: Operand::Absent },
        0x8Au8 => Instruction { mnemonic: Mnemonic::RES, bytes: 2, total_operands: 2, op0: Operand::Bit(1), op1: Operand::Reg(Register::D), op2: Operand::Absent },
        0x8Bu8 => Instruction { mnemonic: Mnemonic::RES, bytes: 2, total_operands: 2, op0: Operand::Bit(1), op1: Operand::Reg(Register::E), op2: Operand::Absent },
        0x8Cu8 => Instruction { mnemonic: Mnemonic::RES, bytes: 2, total_operands: 2, op0: Operand::Bit(1), op1: Operand::Reg(Register::H), op2: Operand::Absent },
        0x8Du8 => Instruction { mnemonic: Mnemonic::RES, bytes: 2, total_operands: 2, op0: Operand::Bit(1), op1: Operand::Reg(Register::L), op2: Operand::Absent },
        0x8Eu8 => Instruction { mnemonic: Mnemonic::RES, bytes: 2, total_operands: 2, op0: Operand::Bit(1), op1: Operand::Ind(Register::HL), op2: Operand::Absent },
        0x8Fu8 => Instruction { mnemonic: Mnemonic::RES, bytes: 2, total_operands: 2, op0: Operand::Bit(1), op1: Operand::Reg(Register::A), op2: Operand::Absent },
        0x90u8 => Instruction { mnemonic: Mnemonic::RES, bytes: 2, total_operands: 2, op0: Operand::Bit(2), op1: Operand::Reg(Register::B), op2: Operand::Absent },
        0x91u8 => Instruction { mnemonic: Mnemonic::RES, bytes: 2, total_operands: 2, op0: Operand::Bit(2), op1: Operand::Reg(Register::C), op2: Operand::Absent },
        0x92u8 => Instruction { mnemonic: Mnemonic::RES, bytes: 2, total_operands: 2, op0: Operand::Bit(2), op1: Operand::Reg(Register::D), op2: Operand::Absent },
        0x93u8 => Instruction { mnemonic: Mnemonic::RES, bytes: 2, total_operands: 2, op0: Operand::Bit(2), op1: Operand::Reg(Register::E), op2: Operand::Absent },
        0x94u8 => Instruction { mnemonic: Mnemonic::RES, bytes: 2, total_operands: 2, op0: Operand::Bit(2), op1: Operand::Reg(Register::H), op2: Operand::Absent },
        0x95u8 => Instruction { mnemonic: Mnemonic::RES, bytes: 2, total_operands: 2, op0: Operand::Bit(2), op1: Operand::Reg(Register::L), op2: Operand::Absent },
        0x96u8 => Instruction { mnemonic: Mnemonic::RES, bytes: 2, total_operands: 2, op0: Operand::Bit(2), op1: Operand::Ind(Register::HL), op2: Operand::Absent },
        0x97u8 => Instruction { mnemonic: Mnemonic::RES, bytes: 2, total_operands: 2, op0: Operand::Bit(2), op1: Operand::Reg(Register::A), op2: Operand::Absent },
        0x98u8 => Instruction { mnemonic: Mnemonic::RES, bytes: 2, total_operands: 2, op0: Operand::Bit(3), op1: Operand::Reg(Register::B), op2: Operand::Absent },
        0x99u8 => Instruction { mnemonic: Mnemonic::RES, bytes: 2, total_operands: 2, op0: Operand::Bit(3), op1: Operand::Reg(Register::C), op2: Operand::Absent },
        0x9Au8 => Instruction { mnemonic: Mnemonic::RES, bytes: 2, total_operands: 2, op0: Operand::Bit(3), op1: Operand::Reg(Register::D), op2: Operand::Absent },
        0x9Bu8 => Instruction { mnemonic: Mnemonic::RES, bytes: 2, total_operands: 2, op0: Operand::Bit(3), op1: Operand::Reg(Register::E), op2: Operand::Absent },
        0x9Cu8 => Instruction { mnemonic: Mnemonic::RES, bytes: 2, total_operands: 2, op0: Operand::Bit(3), op1: Operand::Reg(Register::H), op2: Operand::Absent },
        0x9Du8 => Instruction { mnemonic: Mnemonic::RES, bytes: 2, total_operands: 2, op0: Operand::Bit(3), op1: Operand::Reg(Register::L), op2: Operand::Absent },
        0x9Eu8 => Instruction { mnemonic: Mnemonic::RES, bytes: 2, total_operands: 2, op0: Operand::Bit(3), op1: Operand::Ind(Register::HL), op2: Operand::Absent },
        0x9Fu8 => Instruction { mnemonic: Mnemonic::RES, bytes: 2, total_operands: 2, op0: Operand::Bit(3), op1: Operand::Reg(Register::A), op2: Operand::Absent },
        0xA0u8 => Instruction { mnemonic: Mnemonic::RES, bytes: 2, total_operands: 2, op0: Operand::Bit(4), op1: Operand::Reg(Register::B), op2: Operand::Absent },
        0xA1u8 => Instruction { mnemonic: Mnemonic::RES, bytes: 2, total_operands: 2, op0: Operand::Bit(4), op1: Operand::Reg(Register::C), op2: Operand::Absent },
        0xA2u8 => Instruction { mnemonic: Mnemonic::RES, bytes: 2, total_operands: 2, op0: Operand::Bit(4), op1: Operand::Reg(Register::D), op2: Operand::Absent },
        0xA3u8 => Instruction { mnemonic: Mnemonic::RES, bytes: 2, total_operands: 2, op0: Operand::Bit(4), op1: Operand::Reg(Register::E), op2: Operand::Absent },
        0xA4u8 => Instruction { mnemonic: Mnemonic::RES, bytes: 2, total_operands: 2, op0: Operand::Bit(4), op1: Operand::Reg(Register::H), op2: Operand::Absent },
        0xA5u8 => Instruction { mnemonic: Mnemonic::RES, bytes: 2, total_operands: 2, op0: Operand::Bit(4), op1: Operand::Reg(Register::L), op2: Operand::Absent },
        0xA6u8 => Instruction { mnemonic: Mnemonic::RES, bytes: 2, total_operands: 2, op0: Operand::Bit(4), op1: Operand::Ind(Register::HL), op2: Operand::Absent },
        0xA7u8 => Instruction { mnemonic: Mnemonic::RES, bytes: 2, total_operands: 2, op0: Operand::Bit(4), op1: Operand::Reg(Register::A), op2: Operand::Absent },
        0xA8u8 => Instruction { mnemonic: Mnemonic::RES, bytes: 2, total_operands: 2, op0: Operand::Bit(5), op1: Operand::Reg(Register::B), op2: Operand::Absent },
        0xA9u8 => Instruction { mnemonic: Mnemonic::RES, bytes: 2, total_operands: 2, op0: Operand::Bit(5), op1: Operand::Reg(Register::C), op2: Operand::Absent },
        0xAAu8 => Instruction { mnemonic: Mnemonic::RES, bytes: 2, total_operands: 2, op0: Operand::Bit(5), op1: Operand::Reg(Register::D), op2: Operand::Absent },
        0xABu8 => Instruction { mnemonic: Mnemonic::RES, bytes: 2, total_operands: 2, op0: Operand::Bit(5), op1: Operand::Reg(Register::E), op2: Operand::Absent },
        0xACu8 => Instruction { mnemonic: Mnemonic::RES, bytes: 2, total_operands: 2, op0: Operand::Bit(5), op1: Operand::Reg(Register::H), op2: Operand::Absent },
        0xADu8 => Instruction { mnemonic: Mnemonic::RES, bytes: 2, total_operands: 2, op0: Operand::Bit(5), op1: Operand::Reg(Register::L), op2: Operand::Absent },
        0xAEu8 => Instruction { mnemonic: Mnemonic::RES, bytes: 2, total_operands: 2, op0: Operand::Bit(5), op1: Operand::Ind(Register::HL), op2: Operand::Absent },
        0xAFu8 => Instruction { mnemonic: Mnemonic::RES, bytes: 2, total_operands: 2, op0: Operand::Bit(5), op1: Operand::Reg(Register::A), op2: Operand::Absent },
        0xB0u8 => Instruction { mnemonic: Mnemonic::RES, bytes: 2, total_operands: 2, op0: Operand::Bit(6), op1: Operand::Reg(Register::B), op2: Operand::Absent },
        0xB1u8 => Instruction { mnemonic: Mnemonic::RES, bytes: 2, total_operands: 2, op0: Operand::Bit(6), op1: Operand::Reg(Register::C), op2: Operand::Absent },
        0xB2u8 => Instruction { mnemonic: Mnemonic::RES, bytes: 2, total_operands: 2, op0: Operand::Bit(6), op1: Operand::Reg(Register::D), op2: Operand::Absent },
        0xB3u8 => Instruction { mnemonic: Mnemonic::RES, bytes: 2, total_operands: 2, op0: Operand::Bit(6), op1: Operand::Reg(Register::E), op2: Operand::Absent },
        0xB4u8 => Instruction { mnemonic: Mnemonic::RES, bytes: 2, total_operands: 2, op0: Operand::Bit(6), op1: Operand::Reg(Register::H), op2: Operand::Absent },
        0xB5u8 => Instruction { mnemonic: Mnemonic::RES, bytes: 2, total_operands: 2, op0: Operand::Bit(6), op1: Operand::Reg(Register::L), op2: Operand::Absent },
        0xB6u8 => Instruction { mnemonic: Mnemonic::RES, bytes: 2, total_operands: 2, op0: Operand::Bit(6), op1: Operand::Ind(Register::HL), op2: Operand::Absent },
        0xB7u8 => Instruction { mnemonic: Mnemonic::RES, bytes: 2, total_operands: 2, op0: Operand::Bit(6), op1: Operand::Reg(Register::A), op2: Operand::Absent },
        0xB8u8 => Instruction { mnemonic: Mnemonic::RES, bytes: 2, total_operands: 2, op0: Operand::Bit(7), op1: Operand::Reg(Register::B), op2: Operand::Absent },
        0xB9u8 => Instruction { mnemonic: Mnemonic::RES, bytes: 2, total_operands: 2, op0: Operand::Bit(7), op1: Operand::Reg(Register::C), op2: Operand::Absent },
        0xBAu8 => Instruction { mnemonic: Mnemonic::RES, bytes: 2, total_operands: 2, op0: Operand::Bit(7), op1: Operand::Reg(Register::D), op2: Operand::Absent },
        0xBBu8 => Instruction { mnemonic: Mnemonic::RES, bytes: 2, total_operands: 2, op0: Operand::Bit(7), op1: Operand::Reg(Register::E), op2: Operand::Absent },
        0xBCu8 => Instruction { mnemonic: Mnemonic::RES, bytes: 2, total_operands: 2, op0: Operand::Bit(7), op1: Operand::Reg(Register::H), op2: Operand::Absent },
        0xBDu8 => Instruction { mnemonic: Mnemonic::RES, bytes: 2, total_operands: 2, op0: Operand::Bit(7), op1: Operand::Reg(Register::L), op2: Operand::Absent },
        0xBEu8 => Instruction { mnemonic: Mnemonic::RES, bytes: 2, total_operands: 2, op0: Operand::Bit(7), op1: Operand::Ind(Register::HL), op2: Operand::Absent },
        0xBFu8 => Instruction { mnemonic: Mnemonic::RES, bytes: 2, total_operands: 2, op0: Operand::Bit(7), op1: Operand::Reg(Register::A), op2: Operand::Absent },
        0xC0u8 => Instruction { mnemonic: Mnemonic::SET, bytes: 2, total_operands: 2, op0: Operand::Bit(0), op1: Operand::Reg(Register::B), op2: Operand::Absent },
        0xC1u8 => Instruction { mnemonic: Mnemonic::SET, bytes: 2, total_operands: 2, op0: Operand::Bit(0), op1: Operand::Reg(Register::C), op2: Operand::Absent },
        0xC2u8 => Instruction { mnemonic: Mnemonic::SET, bytes: 2, total_operands: 2, op0: Operand::Bit(0), op1: Operand::Reg(Register::D), op2: Operand::Absent },
        0xC3u8 => Instruction { mnemonic: Mnemonic::SET, bytes: 2, total_operands: 2, op0: Operand::Bit(0), op1: Operand::Reg(Register::E), op2: Operand::Absent },
        0xC4u8 => Instruction { mnemonic: Mnemonic::SET, bytes: 2, total_operands: 2, op0: Operand::Bit(0), op1: Operand::Reg(Register::H), op2: Operand::Absent },
        0xC5u8 => Instruction { mnemonic: Mnemonic::SET, bytes: 2, total_operands: 2, op0: Operand::Bit(0), op1: Operand::Reg(Register::L), op2: Operand::Absent },
        0xC6u8 => Instruction { mnemonic: Mnemonic::SET, bytes: 2, total_operands: 2, op0: Operand::Bit(0), op1: Operand::Ind(Register::HL), op2: Operand::Absent },
        0xC7u8 => Instruction { mnemonic: Mnemonic::SET, bytes: 2, total_operands: 2, op0: Operand::Bit(0), op1: Operand::Reg(Register::A), op2: Operand::Absent },
        0xC8u8 => Instruction { mnemonic: Mnemonic::SET, bytes: 2, total_operands: 2, op0: Operand::Bit(1), op1: Operand::Reg(Register::B), op2: Operand::Absent },
        0xC9u8 => Instruction { mnemonic: Mnemonic::SET, bytes: 2, total_operands: 2, op0: Operand::Bit(1), op1: Operand::Reg(Register::C), op2: Operand::Absent },
        0xCAu8 => Instruction { mnemonic: Mnemonic::SET, bytes: 2, total_operands: 2, op0: Operand::Bit(1), op1: Operand::Reg(Register::D), op2: Operand::Absent },
        0xCBu8 => Instruction { mnemonic: Mnemonic::SET, bytes: 2, total_operands: 2, op0: Operand::Bit(1), op1: Operand::Reg(Register::E), op2: Operand::Absent },
        0xCCu8 => Instruction { mnemonic: Mnemonic::SET, bytes: 2, total_operands: 2, op0: Operand::Bit(1), op1: Operand::Reg(Register::H), op2: Operand::Absent },
        0xCDu8 => Instruction { mnemonic: Mnemonic::SET, bytes: 2, total_operands: 2, op0: Operand::Bit(1), op1: Operand::Reg(Register::L), op2: Operand::Absent },
        0xCEu8 => Instruction { mnemonic: Mnemonic::SET, bytes: 2, total_operands: 2, op0: Operand::Bit(1), op1: Operand::Ind(Register::HL), op2: Operand::Absent },
        0xCFu8 => Instruction { mnemonic: Mnemonic::SET, bytes: 2, total_operands: 2, op0: Operand::Bit(1), op1: Operand::Reg(Register::A), op2: Operand::Absent },
        0xD0u8 => Instruction { mnemonic: Mnemonic::SET, bytes: 2, total_operands: 2, op0: Operand::Bit(2), op1: Operand::Reg(Register::B), op2: Operand::Absent },
        0xD1u8 => Instruction { mnemonic: Mnemonic::SET, bytes: 2, total_operands: 2, op0: Operand::Bit(2), op1: Operand::Reg(Register::C), op2: Operand::Absent },
        0xD2u8 => Instruction { mnemonic: Mnemonic::SET, bytes: 2, total_operands: 2, op0: Operand::Bit(2), op1: Operand::Reg(Register::D), op2: Operand::Absent },
        0xD3u8 => Instruction { mnemonic: Mnemonic::SET, bytes: 2, total_operands: 2, op0: Operand::Bit(2), op1: Operand::Reg(Register::E), op2: Operand::Absent },
        0xD4u8 => Instruction { mnemonic: Mnemonic::SET, bytes: 2, total_operands: 2, op0: Operand::Bit(2), op1: Operand::Reg(Register::H), op2: Operand::Absent },
        0xD5u8 => Instruction { mnemonic: Mnemonic::SET, bytes: 2, total_operands: 2, op0: Operand::Bit(2), op1: Operand::Reg(Register::L), op2: Operand::Absent },
        0xD6u8 => Instruction { mnemonic: Mnemonic::SET, bytes: 2, total_operands: 2, op0: Operand::Bit(2), op1: Operand::Ind(Register::HL), op2: Operand::Absent },
        0xD7u8 => Instruction { mnemonic: Mnemonic::SET, bytes: 2, total_operands: 2, op0: Operand::Bit(2), op1: Operand::Reg(Register::A), op2: Operand::Absent },
        0xD8u8 => Instruction { mnemonic: Mnemonic::SET, bytes: 2, total_operands: 2, op0: Operand::Bit(3), op1: Operand::Reg(Register::B), op2: Operand::Absent },
        0xD9u8 => Instruction { mnemonic: Mnemonic::SET, bytes: 2, total_operands: 2, op0: Operand::Bit(3), op1: Operand::Reg(Register::C), op2: Operand::Absent },
        0xDAu8 => Instruction { mnemonic: Mnemonic::SET, bytes: 2, total_operands: 2, op0: Operand::Bit(3), op1: Operand::Reg(Register::D), op2: Operand::Absent },
        0xDBu8 => Instruction { mnemonic: Mnemonic::SET, bytes: 2, total_operands: 2, op0: Operand::Bit(3), op1: Operand::Reg(Register::E), op2: Operand::Absent },
        0xDCu8 => Instruction { mnemonic: Mnemonic::SET, bytes: 2, total_operands: 2, op0: Operand::Bit(3), op1: Operand::Reg(Register::H), op2: Operand::Absent },
        0xDDu8 => Instruction { mnemonic: Mnemonic::SET, bytes: 2, total_operands: 2, op0: Operand::Bit(3), op1: Operand::Reg(Register::L), op2: Operand::Absent },
        0xDEu8 => Instruction { mnemonic: Mnemonic::SET, bytes: 2, total_operands: 2, op0: Operand::Bit(3), op1: Operand::Ind(Register::HL), op2: Operand::Absent },
        0xDFu8 => Instruction { mnemonic: Mnemonic::SET, bytes: 2, total_operands: 2, op0: Operand::Bit(3), op1: Operand::Reg(Register::A), op2: Operand::Absent },
        0xE0u8 => Instruction { mnemonic: Mnemonic::SET, bytes: 2, total_operands: 2, op0: Operand::Bit(4), op1: Operand::Reg(Register::B), op2: Operand::Absent },
        0xE1u8 => Instruction { mnemonic: Mnemonic::SET, bytes: 2, total_operands: 2, op0: Operand::Bit(4), op1: Operand::Reg(Register::C), op2: Operand::Absent },
        0xE2u8 => Instruction { mnemonic: Mnemonic::SET, bytes: 2, total_operands: 2, op0: Operand::Bit(4), op1: Operand::Reg(Register::D), op2: Operand::Absent },
        0xE3u8 => Instruction { mnemonic: Mnemonic::SET, bytes: 2, total_operands: 2, op0: Operand::Bit(4), op1: Operand::Reg(Register::E), op2: Operand::Absent },
        0xE4u8 => Instruction { mnemonic: Mnemonic::SET, bytes: 2, total_operands: 2, op0: Operand::Bit(4), op1: Operand::Reg(Register::H), op2: Operand::Absent },
        0xE5u8 => Instruction { mnemonic: Mnemonic::SET, bytes: 2, total_operands: 2, op0: Operand::Bit(4), op1: Operand::Reg(Register::L), op2: Operand::Absent },
        0xE6u8 => Instruction { mnemonic: Mnemonic::SET, bytes: 2, total_operands: 2, op0: Operand::Bit(4), op1: Operand::Ind(Register::HL), op2: Operand::Absent },
        0xE7u8 => Instruction { mnemonic: Mnemonic::SET, bytes: 2, total_operands: 2, op0: Operand::Bit(4), op1: Operand::Reg(Register::A), op2: Operand::Absent },
        0xE8u8 => Instruction { mnemonic: Mnemonic::SET, bytes: 2, total_operands: 2, op0: Operand::Bit(5), op1: Operand::Reg(Register::B), op2: Operand::Absent },
        0xE9u8 => Instruction { mnemonic: Mnemonic::SET, bytes: 2, total_operands: 2, op0: Operand::Bit(5), op1: Operand::Reg(Register::C), op2: Operand::Absent },
        0xEAu8 => Instruction { mnemonic: Mnemonic::SET, bytes: 2, total_operands: 2, op0: Operand::Bit(5), op1: Operand::Reg(Register::D), op2: Operand::Absent },
        0xEBu8 => Instruction { mnemonic: Mnemonic::SET, bytes: 2, total_operands: 2, op0: Operand::Bit(5), op1: Operand::Reg(Register::E), op2: Operand::Absent },
        0xECu8 => Instruction { mnemonic: Mnemonic::SET, bytes: 2, total_operands: 2, op0: Operand::Bit(5), op1: Operand::Reg(Register::H), op2: Operand::Absent },
        0xEDu8 => Instruction { mnemonic: Mnemonic::SET, bytes: 2, total_operands: 2, op0: Operand::Bit(5), op1: Operand::Reg(Register::L), op2: Operand::Absent },
        0xEEu8 => Instruction { mnemonic: Mnemonic::SET, bytes: 2, total_operands: 2, op0: Operand::Bit(5), op1: Operand::Ind(Register::HL), op2: Operand::Absent },
        0xEFu8 => Instruction { mnemonic: Mnemonic::SET, bytes: 2, total_operands: 2, op0: Operand::Bit(5), op1: Operand::Reg(Register::A), op2: Operand::Absent },
        0xF0u8 => Instruction { mnemonic: Mnemonic::SET, bytes: 2, total_operands: 2, op0: Operand::Bit(6), op1: Operand::Reg(Register::B), op2: Operand::Absent },
        0xF1u8 => Instruction { mnemonic: Mnemonic::SET, bytes: 2, total_operands: 2, op0: Operand::Bit(6), op1: Operand::Reg(Register::C), op2: Operand::Absent },
        0xF2u8 => Instruction { mnemonic: Mnemonic::SET, bytes: 2, total_operands: 2, op0: Operand::Bit(6), op1: Operand::Reg(Register::D), op2: Operand::Absent },
        0xF3u8 => Instruction { mnemonic: Mnemonic::SET, bytes: 2, total_operands: 2, op0: Operand::Bit(6), op1: Operand::Reg(Register::E), op2: Operand::Absent },
        0xF4u8 => Instruction { mnemonic: Mnemonic::SET, bytes: 2, total_operands: 2, op0: Operand::Bit(6), op1: Operand::Reg(Register::H), op2: Operand::Absent },
        0xF5u8 => Instruction { mnemonic: Mnemonic::SET, bytes: 2, total_operands: 2, op0: Operand::Bit(6), op1: Operand::Reg(Register::L), op2: Operand::Absent },
        0xF6u8 => Instruction { mnemonic: Mnemonic::SET, bytes: 2, total_operands: 2, op0: Operand::Bit(6), op1: Operand::Ind(Register::HL), op2: Operand::Absent },
        0xF7u8 => Instruction { mnemonic: Mnemonic::SET, bytes: 2, total_operands: 2, op0: Operand::Bit(6), op1: Operand::Reg(Register::A), op2: Operand::Absent },
        0xF8u8 => Instruction { mnemonic: Mnemonic::SET, bytes: 2, total_operands: 2, op0: Operand::Bit(7), op1: Operand::Reg(Register::B), op2: Operand::Absent },
        0xF9u8 => Instruction { mnemonic: Mnemonic::SET, bytes: 2, total_operands: 2, op0: Operand::Bit(7), op1: Operand::Reg(Register::C), op2: Operand::Absent },
        0xFAu8 => Instruction { mnemonic: Mnemonic::SET, bytes: 2, total_operands: 2, op0: Operand::Bit(7), op1: Operand::Reg(Register::D), op2: Operand::Absent },
        0xFBu8 => Instruction { mnemonic: Mnemonic::SET, bytes: 2, total_operands: 2, op0: Operand::Bit(7), op1: Operand::Reg(Register::E), op2: Operand::Absent },
        0xFCu8 => Instruction { mnemonic: Mnemonic::SET, bytes: 2, total_operands: 2, op0: Operand::Bit(7), op1: Operand::Reg(Register::H), op2: Operand::Absent },
        0xFDu8 => Instruction { mnemonic: Mnemonic::SET, bytes: 2, total_operands: 2, op0: Operand::Bit(7), op1: Operand::Reg(Register::L), op2: Operand::Absent },
        0xFEu8 => Instruction { mnemonic: Mnemonic::SET, bytes: 2, total_operands: 2, op0: Operand::Bit(7), op1: Operand::Ind(Register::HL), op2: Operand::Absent },
        0xFFu8 => Instruction { mnemonic: Mnemonic::SET, bytes: 2, total_operands: 2, op0: Operand::Bit(7), op1: Operand::Reg(Register::A), op2: Operand::Absent },
    }
}

} // verus!
