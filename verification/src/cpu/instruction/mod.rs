//! Instructions: an opcode, for the 0xCB page a sub-opcode, the operator
//! they select and the cycles that it takes; fetched and decoded from the
//! program counter, and executed on a context.

pub mod operand;
pub mod operator;
pub mod laws;

use vstd::prelude::*;
use crate::cpu::context::{Context, ContextState};
use crate::cpu::text::{hex_byte, push_hex_byte};
use operand::{
    AddLiteral8, Condition, OpcodeRegister, OperandType, Operand16, Operand8, Register16, Register8,
    Target16, Target8, indirect, read_indirect, read_opcode, register, read_register,
};
use operand::indirection::{Addressing, Indirection};
use operator::{Operator, and, or, xor};

verus! {

impl OpcodeRegister {
    /// The cycles that the operand adds to an instruction: none for a
    /// register, 4 for the byte at (HL).
    pub open spec fn cost(&self) -> u64 {
        match self.kind() {
            OperandType::Register => 0,
            OperandType::Indirection => 4,
        }
    }

    #[verifier::when_used_as_spec(cost)]
    pub fn cycles(&self) -> (r: u64)
        ensures
            r == self.cost(),
    {
        match self.operand_type() {
            OperandType::Register => 0,
            OperandType::Indirection => 4,
        }
    }
}

/// The operator that a one-byte opcode selects and the cycles it takes;
/// `None` for 0xCB, which prefixes an opcode of the 0xCB page.
pub open spec fn decode(opcode: u8) -> Option<(Operator, u64)> {
    let opcode_register = OpcodeRegister::from_code(opcode);
    if opcode == 0x76 {
        Some((Operator::Halt, 4))
    } else if opcode == 0x06 {
        Some((Operator::Ld(register(Register8::B), Operand8::Literal), 8))
    } else if opcode == 0x0E {
        Some((Operator::Ld(register(Register8::C), Operand8::Literal), 8))
    } else if opcode == 0x16 {
        Some((Operator::Ld(register(Register8::D), Operand8::Literal), 8))
    } else if opcode == 0x1E {
        Some((Operator::Ld(register(Register8::E), Operand8::Literal), 8))
    } else if opcode == 0x26 {
        Some((Operator::Ld(register(Register8::H), Operand8::Literal), 8))
    } else if opcode == 0x2E {
        Some((Operator::Ld(register(Register8::L), Operand8::Literal), 8))
    } else if 0x40 <= opcode <= 0x7F {
        let lhs = OpcodeRegister::from_code(opcode >> 3);
        Some((Operator::Ld(Target8::Opcode(lhs), read_opcode(opcode_register)), (4 + lhs.cycles() + opcode_register.cycles()) as u64))
    } else if opcode == 0x36 {
        Some((Operator::Ld(indirect(Addressing::HL), Operand8::Literal), 12))
    } else if opcode == 0x0A {
        Some((Operator::Ld(register(Register8::A), read_indirect(Addressing::BC)), 8))
    } else if opcode == 0x1A {
        Some((Operator::Ld(register(Register8::A), read_indirect(Addressing::DE)), 8))
    } else if opcode == 0xFA {
        Some((Operator::Ld(register(Register8::A), read_indirect(Addressing::Literal)), 16))
    } else if opcode == 0x3E {
        Some((Operator::Ld(register(Register8::A), Operand8::Literal), 8))
    } else if opcode == 0x02 {
        Some((Operator::Ld(indirect(Addressing::BC), read_register(Register8::A)), 8))
    } else if opcode == 0x12 {
        Some((Operator::Ld(indirect(Addressing::DE), read_register(Register8::A)), 8))
    } else if opcode == 0xEA {
        Some((Operator::Ld(indirect(Addressing::Literal), read_register(Register8::A)), 16))
    } else if opcode == 0xF2 {
        Some((Operator::Ld(register(Register8::A), read_indirect(Addressing::C)), 8))
    } else if opcode == 0xE2 {
        Some((Operator::Ld(indirect(Addressing::C), read_register(Register8::A)), 8))
    } else if opcode == 0x3A {
        Some((Operator::Ld(register(Register8::A), read_indirect(Addressing::HLD)), 8))
    } else if opcode == 0x32 {
        Some((Operator::Ld(indirect(Addressing::HLD), read_register(Register8::A)), 8))
    } else if opcode == 0x2A {
        Some((Operator::Ld(register(Register8::A), read_indirect(Addressing::HLI)), 8))
    } else if opcode == 0x22 {
        Some((Operator::Ld(indirect(Addressing::HLI), read_register(Register8::A)), 8))
    } else if opcode == 0xE0 {
        Some((Operator::Ld(indirect(Addressing::Literal8), read_register(Register8::A)), 12))
    } else if opcode == 0xF0 {
        Some((Operator::Ld(register(Register8::A), read_indirect(Addressing::Literal8)), 12))
    } else if opcode == 0x01 {
        Some((Operator::Ld16(Target16::Register(Register16::BC), Operand16::Literal), 12))
    } else if opcode == 0x11 {
        Some((Operator::Ld16(Target16::Register(Register16::DE), Operand16::Literal), 12))
    } else if opcode == 0x21 {
        Some((Operator::Ld16(Target16::Register(Register16::HL), Operand16::Literal), 12))
    } else if opcode == 0x31 {
        Some((Operator::Ld16(Target16::Register(Register16::SP), Operand16::Literal), 12))
    } else if opcode == 0xF9 {
        Some((Operator::Ld16(Target16::Register(Register16::SP), Operand16::Target(Target16::Register(Register16::HL))), 8))
    } else if opcode == 0xF8 {
        Some((Operator::Ld16(Target16::Register(Register16::HL), Operand16::AddLiteral8(AddLiteral8)), 12))
    } else if opcode == 0x08 {
        Some((Operator::Ld16(Target16::Indirect(Indirection { addressing: Addressing::Literal }), Operand16::Target(Target16::Register(Register16::SP))), 20))
    } else if opcode == 0xF5 {
        Some((Operator::Push(Register16::AF), 16))
    } else if opcode == 0xC5 {
        Some((Operator::Push(Register16::BC), 16))
    } else if opcode == 0xD5 {
        Some((Operator::Push(Register16::DE), 16))
    } else if opcode == 0xE5 {
        Some((Operator::Push(Register16::HL), 16))
    } else if opcode == 0xF1 {
        Some((Operator::Pop(Register16::AF), 12))
    } else if opcode == 0xC1 {
        Some((Operator::Pop(Register16::BC), 12))
    } else if opcode == 0xD1 {
        Some((Operator::Pop(Register16::DE), 12))
    } else if opcode == 0xE1 {
        Some((Operator::Pop(Register16::HL), 12))
    } else if 0x80 <= opcode <= 0x87 {
        Some((Operator::Add(register(Register8::A), read_opcode(opcode_register)), (4 + opcode_register.cycles()) as u64))
    } else if opcode == 0xC6 {
        Some((Operator::Add(register(Register8::A), Operand8::Literal), 8))
    } else if 0x88 <= opcode <= 0x8F {
        Some((Operator::Adc(register(Register8::A), read_opcode(opcode_register)), (4 + opcode_register.cycles()) as u64))
    } else if opcode == 0xCE {
        Some((Operator::Adc(register(Register8::A), Operand8::Literal), 8))
    } else if 0x80 <= opcode <= 0x97 {
        Some((Operator::Sub(read_opcode(opcode_register)), (4 + opcode_register.cycles()) as u64))
    } else if opcode == 0xD6 {
        Some((Operator::Sub(Operand8::Literal), 8))
    } else if 0x98 <= opcode <= 0x9F {
        Some((Operator::Sbc(register(Register8::A), read_opcode(opcode_register)), (4 + opcode_register.cycles()) as u64))
    } else if opcode == 0xDE {
        Some((Operator::Sbc(register(Register8::A), Operand8::Literal), 8))
    } else if 0xA0 <= opcode <= 0xA7 {
        Some((and(read_opcode(opcode_register)), (4 + opcode_register.cycles()) as u64))
    } else if opcode == 0xE6 {
        Some((and(Operand8::Literal), 8))
    } else if 0xB0 <= opcode <= 0xB7 {
        Some((or(read_opcode(opcode_register)), (4 + opcode_register.cycles()) as u64))
    } else if opcode == 0xF6 {
        Some((or(Operand8::Literal), 8))
    } else if 0xA8 <= opcode <= 0xAF {
        Some((xor(read_opcode(opcode_register)), (4 + opcode_register.cycles()) as u64))
    } else if opcode == 0xEE {
        Some((xor(Operand8::Literal), 8))
    } else if 0xB8 <= opcode <= 0xBF {
        Some((Operator::Cp(read_opcode(opcode_register)), (4 + opcode_register.cycles()) as u64))
    } else if opcode == 0xFE {
        Some((Operator::Cp(Operand8::Literal), 8))
    } else if opcode == 0x3C {
        Some((Operator::Inc(register(Register8::A)), 4))
    } else if opcode == 0x04 {
        Some((Operator::Inc(register(Register8::B)), 4))
    } else if opcode == 0x0C {
        Some((Operator::Inc(register(Register8::C)), 4))
    } else if opcode == 0x14 {
        Some((Operator::Inc(register(Register8::D)), 4))
    } else if opcode == 0x1C {
        Some((Operator::Inc(register(Register8::E)), 4))
    } else if opcode == 0x24 {
        Some((Operator::Inc(register(Register8::H)), 4))
    } else if opcode == 0x2C {
        Some((Operator::Inc(register(Register8::L)), 4))
    } else if opcode == 0x34 {
        Some((Operator::Inc(indirect(Addressing::HL)), 12))
    } else if opcode == 0x3D {
        Some((Operator::Dec(register(Register8::A)), 4))
    } else if opcode == 0x05 {
        Some((Operator::Dec(register(Register8::B)), 4))
    } else if opcode == 0x0D {
        Some((Operator::Dec(register(Register8::C)), 4))
    } else if opcode == 0x15 {
        Some((Operator::Dec(register(Register8::D)), 4))
    } else if opcode == 0x1D {
        Some((Operator::Dec(register(Register8::E)), 4))
    } else if opcode == 0x25 {
        Some((Operator::Dec(register(Register8::H)), 4))
    } else if opcode == 0x2D {
        Some((Operator::Dec(register(Register8::L)), 4))
    } else if opcode == 0x35 {
        Some((Operator::Dec(indirect(Addressing::HL)), 12))
    } else if opcode == 0x09 {
        Some((Operator::Add16(Register16::HL, Register16::BC), 8))
    } else if opcode == 0x19 {
        Some((Operator::Add16(Register16::HL, Register16::DE), 8))
    } else if opcode == 0x29 {
        Some((Operator::Add16(Register16::HL, Register16::HL), 8))
    } else if opcode == 0x39 {
        Some((Operator::Add16(Register16::HL, Register16::SP), 8))
    } else if opcode == 0xE8 {
        Some((Operator::AddSp(Operand8::Literal), 16))
    } else if opcode == 0x03 {
        Some((Operator::Inc16(Register16::BC), 8))
    } else if opcode == 0x13 {
        Some((Operator::Inc16(Register16::DE), 8))
    } else if opcode == 0x23 {
        Some((Operator::Inc16(Register16::HL), 8))
    } else if opcode == 0x33 {
        Some((Operator::Inc16(Register16::SP), 8))
    } else if opcode == 0x0B {
        Some((Operator::Dec16(Register16::BC), 8))
    } else if opcode == 0x1B {
        Some((Operator::Dec16(Register16::DE), 8))
    } else if opcode == 0x2B {
        Some((Operator::Dec16(Register16::HL), 8))
    } else if opcode == 0x3B {
        Some((Operator::Dec16(Register16::SP), 8))
    } else if opcode == 0xCB {
        None
    } else if opcode == 0x27 {
        Some((Operator::Daa, 4))
    } else if opcode == 0x2F {
        Some((Operator::Cpl, 4))
    } else if opcode == 0x3F {
        Some((Operator::Ccf, 4))
    } else if opcode == 0x37 {
        Some((Operator::Scf, 4))
    } else if opcode == 0x00 {
        Some((Operator::Nop, 4))
    } else if opcode == 0x10 {
        Some((Operator::Stop, 4))
    } else if opcode == 0xF3 {
        Some((Operator::Di, 4))
    } else if opcode == 0xFB {
        Some((Operator::Ei, 4))
    } else if opcode == 0x07 {
        Some((Operator::Rlca, 4))
    } else if opcode == 0x17 {
        Some((Operator::Rla, 4))
    } else if opcode == 0x0F {
        Some((Operator::Rrca, 4))
    } else if opcode == 0x1F {
        Some((Operator::Rra, 4))
    } else if opcode == 0xC3 {
        Some((Operator::Jp(Operand16::Literal), 12))
    } else if opcode == 0xC2 {
        Some((Operator::JpCc(Condition::NZ, Operand16::Literal), 12))
    } else if opcode == 0xCA {
        Some((Operator::JpCc(Condition::Z, Operand16::Literal), 12))
    } else if opcode == 0xD2 {
        Some((Operator::JpCc(Condition::NC, Operand16::Literal), 12))
    } else if opcode == 0xDA {
        Some((Operator::JpCc(Condition::C, Operand16::Literal), 12))
    } else if opcode == 0xE9 {
        Some((Operator::Jp(Operand16::Target(Target16::Indirect(Indirection { addressing: Addressing::HL }))), 4))
    } else if opcode == 0x18 {
        Some((Operator::Jr(Operand8::Literal), 8))
    } else if opcode == 0x20 {
        Some((Operator::JrCc(Condition::NZ, Operand8::Literal), 8))
    } else if opcode == 0x28 {
        Some((Operator::JrCc(Condition::Z, Operand8::Literal), 8))
    } else if opcode == 0x30 {
        Some((Operator::JrCc(Condition::NC, Operand8::Literal), 8))
    } else if opcode == 0x38 {
        Some((Operator::JrCc(Condition::C, Operand8::Literal), 8))
    } else if opcode == 0xCD {
        Some((Operator::Call(Operand16::Literal), 12))
    } else if opcode == 0xC4 {
        Some((Operator::CallCc(Condition::NZ, Operand16::Literal), 12))
    } else if opcode == 0xCC {
        Some((Operator::CallCc(Condition::Z, Operand16::Literal), 12))
    } else if opcode == 0xD4 {
        Some((Operator::CallCc(Condition::NC, Operand16::Literal), 12))
    } else if opcode == 0xDC {
        Some((Operator::CallCc(Condition::C, Operand16::Literal), 12))
    } else if opcode == 0xC7 {
        Some((Operator::Rst(0x00), 32))
    } else if opcode == 0xCF {
        Some((Operator::Rst(0x08), 32))
    } else if opcode == 0xD7 {
        Some((Operator::Rst(0x10), 32))
    } else if opcode == 0xDF {
        Some((Operator::Rst(0x18), 32))
    } else if opcode == 0xE7 {
        Some((Operator::Rst(0x20), 32))
    } else if opcode == 0xEF {
        Some((Operator::Rst(0x28), 32))
    } else if opcode == 0xF7 {
        Some((Operator::Rst(0x30), 32))
    } else if opcode == 0xFF {
        Some((Operator::Rst(0x38), 32))
    } else if opcode == 0xC9 {
        Some((Operator::Ret, 8))
    } else if opcode == 0xC0 {
        Some((Operator::RetCc(Condition::NZ), 8))
    } else if opcode == 0xC8 {
        Some((Operator::RetCc(Condition::Z), 8))
    } else if opcode == 0xD0 {
        Some((Operator::RetCc(Condition::NC), 8))
    } else if opcode == 0xD8 {
        Some((Operator::RetCc(Condition::C), 8))
    } else if opcode == 0xD9 {
        Some((Operator::Reti, 8))
    } else if opcode == 0xD3 || opcode == 0xDB || opcode == 0xDD || opcode == 0xE3 || opcode == 0xE4
        || opcode == 0xEB || opcode == 0xEC || opcode == 0xED || opcode == 0xF4 || opcode == 0xFC
        || opcode == 0xFD {
        Some((Operator::Unused(opcode), 0))
    } else {
        None
    }
}

/// The operator that a sub-opcode of the 0xCB page selects and the cycles it
/// takes.
pub open spec fn decode_cb(sub_opcode: u8) -> (Operator, u64) {
    let opcode_register = OpcodeRegister::from_code(sub_opcode);
    let bit_operand = sub_opcode >> 3 & 0b111;
    let operator = if 0x30 <= sub_opcode <= 0x37 {
        Operator::Swap(opcode_register)
    } else if sub_opcode <= 0x07 {
        Operator::Rlc(opcode_register)
    } else if 0x10 <= sub_opcode <= 0x17 {
        Operator::Rl(opcode_register)
    } else if 0x08 <= sub_opcode <= 0x0F {
        Operator::Rrc(opcode_register)
    } else if 0x18 <= sub_opcode <= 0x1F {
        Operator::Rr(opcode_register)
    } else if 0x20 <= sub_opcode <= 0x27 {
        Operator::Sla(opcode_register)
    } else if 0x28 <= sub_opcode <= 0x2F {
        Operator::Sra(opcode_register)
    } else if 0x38 <= sub_opcode <= 0x3F {
        Operator::Srl(opcode_register)
    } else if 0x40 <= sub_opcode <= 0x7F {
        Operator::Bit(bit_operand, opcode_register)
    } else if 0xC0 <= sub_opcode {
        Operator::SetBit(bit_operand, opcode_register)
    } else {
        Operator::Res(bit_operand, opcode_register)
    };
    (operator, opcode_register.cycles())
}

/// Decodes a one-byte opcode.
#[verifier::rlimit(30)]
pub fn decode_opcode(opcode: u8) -> (r: Option<(Operator, u64)>)
    ensures
        r == decode(opcode),
{
    let opcode_register = OpcodeRegister::from_code(opcode);
    match opcode {
        0x76 => Some((Operator::Halt, 4)),
        0x06 => Some((Operator::Ld(register(Register8::B), Operand8::Literal), 8)),
        0x0E => Some((Operator::Ld(register(Register8::C), Operand8::Literal), 8)),
        0x16 => Some((Operator::Ld(register(Register8::D), Operand8::Literal), 8)),
        0x1E => Some((Operator::Ld(register(Register8::E), Operand8::Literal), 8)),
        0x26 => Some((Operator::Ld(register(Register8::H), Operand8::Literal), 8)),
        0x2E => Some((Operator::Ld(register(Register8::L), Operand8::Literal), 8)),
        0x40..=0x7F => {
            let lhs = OpcodeRegister::from_code(opcode >> 3);
            Some((Operator::Ld(Target8::Opcode(lhs), read_opcode(opcode_register)), 4 + lhs.cycles() + opcode_register.cycles()))
        },
        0x36 => Some((Operator::Ld(indirect(Addressing::HL), Operand8::Literal), 12)),
        0x0A => Some((Operator::Ld(register(Register8::A), read_indirect(Addressing::BC)), 8)),
        0x1A => Some((Operator::Ld(register(Register8::A), read_indirect(Addressing::DE)), 8)),
        0xFA => Some((Operator::Ld(register(Register8::A), read_indirect(Addressing::Literal)), 16)),
        0x3E => Some((Operator::Ld(register(Register8::A), Operand8::Literal), 8)),
        0x02 => Some((Operator::Ld(indirect(Addressing::BC), read_register(Register8::A)), 8)),
        0x12 => Some((Operator::Ld(indirect(Addressing::DE), read_register(Register8::A)), 8)),
        0xEA => Some((Operator::Ld(indirect(Addressing::Literal), read_register(Register8::A)), 16)),
        0xF2 => Some((Operator::Ld(register(Register8::A), read_indirect(Addressing::C)), 8)),
        0xE2 => Some((Operator::Ld(indirect(Addressing::C), read_register(Register8::A)), 8)),
        0x3A => Some((Operator::Ld(register(Register8::A), read_indirect(Addressing::HLD)), 8)),
        0x32 => Some((Operator::Ld(indirect(Addressing::HLD), read_register(Register8::A)), 8)),
        0x2A => Some((Operator::Ld(register(Register8::A), read_indirect(Addressing::HLI)), 8)),
        0x22 => Some((Operator::Ld(indirect(Addressing::HLI), read_register(Register8::A)), 8)),
        0xE0 => Some((Operator::Ld(indirect(Addressing::Literal8), read_register(Register8::A)), 12)),
        0xF0 => Some((Operator::Ld(register(Register8::A), read_indirect(Addressing::Literal8)), 12)),
        0x01 => Some((Operator::Ld16(Target16::Register(Register16::BC), Operand16::Literal), 12)),
        0x11 => Some((Operator::Ld16(Target16::Register(Register16::DE), Operand16::Literal), 12)),
        0x21 => Some((Operator::Ld16(Target16::Register(Register16::HL), Operand16::Literal), 12)),
        0x31 => Some((Operator::Ld16(Target16::Register(Register16::SP), Operand16::Literal), 12)),
        0xF9 => Some((Operator::Ld16(Target16::Register(Register16::SP), Operand16::Target(Target16::Register(Register16::HL))), 8)),
        0xF8 => Some((Operator::Ld16(Target16::Register(Register16::HL), Operand16::AddLiteral8(AddLiteral8)), 12)),
        0x08 => Some((Operator::Ld16(Target16::Indirect(Indirection { addressing: Addressing::Literal }), Operand16::Target(Target16::Register(Register16::SP))), 20)),
        0xF5 => Some((Operator::Push(Register16::AF), 16)),
        0xC5 => Some((Operator::Push(Register16::BC), 16)),
        0xD5 => Some((Operator::Push(Register16::DE), 16)),
        0xE5 => Some((Operator::Push(Register16::HL), 16)),
        0xF1 => Some((Operator::Pop(Register16::AF), 12)),
        0xC1 => Some((Operator::Pop(Register16::BC), 12)),
        0xD1 => Some((Operator::Pop(Register16::DE), 12)),
        0xE1 => Some((Operator::Pop(Register16::HL), 12)),
        0x80..=0x87 => Some((Operator::Add(register(Register8::A), read_opcode(opcode_register)), 4 + opcode_register.cycles())),
        0xC6 => Some((Operator::Add(register(Register8::A), Operand8::Literal), 8)),
        0x88..=0x8F => Some((Operator::Adc(register(Register8::A), read_opcode(opcode_register)), 4 + opcode_register.cycles())),
        0xCE => Some((Operator::Adc(register(Register8::A), Operand8::Literal), 8)),
        0x80..=0x97 => Some((Operator::Sub(read_opcode(opcode_register)), 4 + opcode_register.cycles())),
        0xD6 => Some((Operator::Sub(Operand8::Literal), 8)),
        0x98..=0x9F => Some((Operator::Sbc(register(Register8::A), read_opcode(opcode_register)), 4 + opcode_register.cycles())),
        0xDE => Some((Operator::Sbc(register(Register8::A), Operand8::Literal), 8)),
        0xA0..=0xA7 => Some((and(read_opcode(opcode_register)), 4 + opcode_register.cycles())),
        0xE6 => Some((and(Operand8::Literal), 8)),
        0xB0..=0xB7 => Some((or(read_opcode(opcode_register)), 4 + opcode_register.cycles())),
        0xF6 => Some((or(Operand8::Literal), 8)),
        0xA8..=0xAF => Some((xor(read_opcode(opcode_register)), 4 + opcode_register.cycles())),
        0xEE => Some((xor(Operand8::Literal), 8)),
        0xB8..=0xBF => Some((Operator::Cp(read_opcode(opcode_register)), 4 + opcode_register.cycles())),
        0xFE => Some((Operator::Cp(Operand8::Literal), 8)),
        0x3C => Some((Operator::Inc(register(Register8::A)), 4)),
        0x04 => Some((Operator::Inc(register(Register8::B)), 4)),
        0x0C => Some((Operator::Inc(register(Register8::C)), 4)),
        0x14 => Some((Operator::Inc(register(Register8::D)), 4)),
        0x1C => Some((Operator::Inc(register(Register8::E)), 4)),
        0x24 => Some((Operator::Inc(register(Register8::H)), 4)),
        0x2C => Some((Operator::Inc(register(Register8::L)), 4)),
        0x34 => Some((Operator::Inc(indirect(Addressing::HL)), 12)),
        0x3D => Some((Operator::Dec(register(Register8::A)), 4)),
        0x05 => Some((Operator::Dec(register(Register8::B)), 4)),
        0x0D => Some((Operator::Dec(register(Register8::C)), 4)),
        0x15 => Some((Operator::Dec(register(Register8::D)), 4)),
        0x1D => Some((Operator::Dec(register(Register8::E)), 4)),
        0x25 => Some((Operator::Dec(register(Register8::H)), 4)),
        0x2D => Some((Operator::Dec(register(Register8::L)), 4)),
        0x35 => Some((Operator::Dec(indirect(Addressing::HL)), 12)),
        0x09 => Some((Operator::Add16(Register16::HL, Register16::BC), 8)),
        0x19 => Some((Operator::Add16(Register16::HL, Register16::DE), 8)),
        0x29 => Some((Operator::Add16(Register16::HL, Register16::HL), 8)),
        0x39 => Some((Operator::Add16(Register16::HL, Register16::SP), 8)),
        0xE8 => Some((Operator::AddSp(Operand8::Literal), 16)),
        0x03 => Some((Operator::Inc16(Register16::BC), 8)),
        0x13 => Some((Operator::Inc16(Register16::DE), 8)),
        0x23 => Some((Operator::Inc16(Register16::HL), 8)),
        0x33 => Some((Operator::Inc16(Register16::SP), 8)),
        0x0B => Some((Operator::Dec16(Register16::BC), 8)),
        0x1B => Some((Operator::Dec16(Register16::DE), 8)),
        0x2B => Some((Operator::Dec16(Register16::HL), 8)),
        0x3B => Some((Operator::Dec16(Register16::SP), 8)),
        0xCB => None,
        0x27 => Some((Operator::Daa, 4)),
        0x2F => Some((Operator::Cpl, 4)),
        0x3F => Some((Operator::Ccf, 4)),
        0x37 => Some((Operator::Scf, 4)),
        0x00 => Some((Operator::Nop, 4)),
        0x10 => Some((Operator::Stop, 4)),
        0xF3 => Some((Operator::Di, 4)),
        0xFB => Some((Operator::Ei, 4)),
        0x07 => Some((Operator::Rlca, 4)),
        0x17 => Some((Operator::Rla, 4)),
        0x0F => Some((Operator::Rrca, 4)),
        0x1F => Some((Operator::Rra, 4)),
        0xC3 => Some((Operator::Jp(Operand16::Literal), 12)),
        0xC2 => Some((Operator::JpCc(Condition::NZ, Operand16::Literal), 12)),
        0xCA => Some((Operator::JpCc(Condition::Z, Operand16::Literal), 12)),
        0xD2 => Some((Operator::JpCc(Condition::NC, Operand16::Literal), 12)),
        0xDA => Some((Operator::JpCc(Condition::C, Operand16::Literal), 12)),
        0xE9 => Some((Operator::Jp(Operand16::Target(Target16::Indirect(Indirection { addressing: Addressing::HL }))), 4)),
        0x18 => Some((Operator::Jr(Operand8::Literal), 8)),
        0x20 => Some((Operator::JrCc(Condition::NZ, Operand8::Literal), 8)),
        0x28 => Some((Operator::JrCc(Condition::Z, Operand8::Literal), 8)),
        0x30 => Some((Operator::JrCc(Condition::NC, Operand8::Literal), 8)),
        0x38 => Some((Operator::JrCc(Condition::C, Operand8::Literal), 8)),
        0xCD => Some((Operator::Call(Operand16::Literal), 12)),
        0xC4 => Some((Operator::CallCc(Condition::NZ, Operand16::Literal), 12)),
        0xCC => Some((Operator::CallCc(Condition::Z, Operand16::Literal), 12)),
        0xD4 => Some((Operator::CallCc(Condition::NC, Operand16::Literal), 12)),
        0xDC => Some((Operator::CallCc(Condition::C, Operand16::Literal), 12)),
        0xC7 => Some((Operator::Rst(0x00), 32)),
        0xCF => Some((Operator::Rst(0x08), 32)),
        0xD7 => Some((Operator::Rst(0x10), 32)),
        0xDF => Some((Operator::Rst(0x18), 32)),
        0xE7 => Some((Operator::Rst(0x20), 32)),
        0xEF => Some((Operator::Rst(0x28), 32)),
        0xF7 => Some((Operator::Rst(0x30), 32)),
        0xFF => Some((Operator::Rst(0x38), 32)),
        0xC9 => Some((Operator::Ret, 8)),
        0xC0 => Some((Operator::RetCc(Condition::NZ), 8)),
        0xC8 => Some((Operator::RetCc(Condition::Z), 8)),
        0xD0 => Some((Operator::RetCc(Condition::NC), 8)),
        0xD8 => Some((Operator::RetCc(Condition::C), 8)),
        0xD9 => Some((Operator::Reti, 8)),
        0xD3 | 0xDB | 0xDD | 0xE3 | 0xE4 | 0xEB | 0xEC | 0xED | 0xF4 | 0xFC | 0xFD => Some((Operator::Unused(opcode), 0)),
    }
}

/// A decoded instruction.
#[derive(Clone, Copy, Debug, PartialEq, Eq, Structural)]
pub struct Instruction {
    pub opcode: u8,
    /// The second byte of an instruction of the 0xCB page.
    pub sub_opcode: Option<u8>,
    pub operator: Operator,
    pub cycles: u64,
}

impl Instruction {
    /// The instruction's operator names a valid bit index.
    pub open spec fn wf(self) -> bool {
        self.operator.wf()
    }

    /// The instruction of the 0xCB page that follows `opcode` at the program
    /// counter, and the state after fetching its sub-opcode.
    pub open spec fn fetched_cb(s: ContextState, opcode: u8) -> (Instruction, ContextState) {
        let (sub_opcode, s1) = s.fetch();
        let (operator, cycles) = decode_cb(sub_opcode);
        (Instruction { opcode, sub_opcode: Some(sub_opcode), operator, cycles }, s1)
    }

    /// The instruction at the program counter, and the state after fetching
    /// its opcode and, on the 0xCB page, its sub-opcode.
    pub open spec fn fetched(s: ContextState) -> (Instruction, ContextState) {
        let (opcode, s1) = s.fetch();
        match decode(opcode) {
            Some((operator, cycles)) => (Instruction { opcode, sub_opcode: None, operator, cycles }, s1),
            None => Instruction::fetched_cb(s1, opcode),
        }
    }

    /// Runs the instruction's operator on the context.
    pub fn execute(&self, context: &mut Context)
        requires
            old(context).wf(),
            self.wf(),
        ensures
            final(context).wf(),
            final(context)@ == self.operator.step(old(context)@),
    {
        self.operator.execute(context)
    }

    fn next_cb(context: &mut Context, opcode: u8) -> (r: Self)
        requires
            old(context).wf(),
        ensures
            final(context).wf(),
            (r, final(context)@) == Instruction::fetched_cb(old(context)@, opcode),
            r.wf(),
    {
        let sub_opcode = context.fetch_pc();
        let opcode_register = OpcodeRegister::from_code(sub_opcode);
        let bit_operand = sub_opcode >> 3 & 0b111;
        assert(sub_opcode >> 3 & 0b111 < 8) by (bit_vector);
        Self {
            opcode,
            sub_opcode: Some(sub_opcode),
            operator: match sub_opcode {
                0x30..=0x37 => Operator::Swap(opcode_register),
                0x00..=0x07 => Operator::Rlc(opcode_register),
                0x10..=0x17 => Operator::Rl(opcode_register),
                0x08..=0x0F => Operator::Rrc(opcode_register),
                0x18..=0x1F => Operator::Rr(opcode_register),
                0x20..=0x27 => Operator::Sla(opcode_register),
                0x28..=0x2F => Operator::Sra(opcode_register),
                0x38..=0x3F => Operator::Srl(opcode_register),
                0x40..=0x7F => Operator::Bit(bit_operand, opcode_register),
                0xC0..=0xFF => Operator::SetBit(bit_operand, opcode_register),
                0x80..=0xBF => Operator::Res(bit_operand, opcode_register),
            },
            cycles: opcode_register.cycles(),
        }
    }

    /// Fetches and decodes the instruction at the program counter.
    pub fn next(context: &mut Context) -> (r: Self)
        requires
            old(context).wf(),
        ensures
            final(context).wf(),
            (r, final(context)@) == Instruction::fetched(old(context)@),
            r.wf(),
    {
        let opcode = context.fetch_pc();
        match decode_opcode(opcode) {
            Some((operator, cycles)) => {
                proof {
                    lemma_decoded_wf(opcode);
                }
                Self { opcode, sub_opcode: None, operator, cycles }
            },
            None => Self::next_cb(context, opcode),
        }
    }

    /// The instruction as text: the opcode in hexadecimal, the sub-opcode
    /// after a space where there is one, both in parentheses, then the
    /// operator, such as `(A8) XOR B` or `(CB 7C) BIT 7, H`.
    pub open spec fn text(self) -> Seq<char> {
        "("@ + hex_byte(self.opcode) + match self.sub_opcode {
            Some(sub) => " "@ + hex_byte(sub),
            None => Seq::empty(),
        } + ") "@ + self.operator.text()
    }

    pub fn to_string(&self) -> (r: String)
        requires
            self.wf(),
        ensures
            r@ == self.text(),
    {
        let mut s = String::from_str("(");
        push_hex_byte(&mut s, self.opcode);
        match self.sub_opcode {
            Some(sub) => {
                s.append(" ");
                push_hex_byte(&mut s, sub);
            },
            None => {},
        }
        s.append(") ");
        s.append(self.operator.to_string().as_str());
        s
    }
}

/// Every operator that a one-byte opcode selects names a valid bit index.
pub proof fn lemma_decoded_wf(opcode: u8)
    ensures
        decode(opcode) matches Some((op, _)) ==> op.wf(),
{
}

} // verus!

verus! {

/// Every one-byte opcode decodes, except 0xCB, which prefixes the 0xCB page.
pub proof fn lemma_decode_total(opcode: u8)
    ensures
        decode(opcode) is None <==> opcode == 0xCB,
{
}

/// Cycle counts are multiples of four; the 0xCB page charges 4 cycles for
/// the byte at (HL) and none for a register.
pub proof fn lemma_cycles(opcode: u8, sub_opcode: u8)
    ensures
        decode(opcode) matches Some((_, cycles)) ==> cycles % 4 == 0,
        decode_cb(sub_opcode).1 == (if sub_opcode % 8 == 6 { 4u64 } else { 0u64 }),
{
}

/// The block 0x40 to 0x7F loads the operand that the low three bits select
/// into the one that the next three bits select, taking 4 cycles plus 4 for
/// each (HL) operand; 0x76, which would load (HL) into itself, is HALT.
pub proof fn lemma_load_block(opcode: u8)
    requires
        0x40 <= opcode <= 0x7F,
    ensures
        opcode == 0x76 ==> decode(opcode) == Some((Operator::Halt, 4u64)),
        opcode != 0x76 ==> decode(opcode) == Some(
            (
                Operator::Ld(
                    Target8::Opcode(OpcodeRegister::of_code(opcode / 8)),
                    Operand8::Target(Target8::Opcode(OpcodeRegister::of_code(opcode))),
                ),
                (4 + OpcodeRegister::of_code(opcode / 8).cost() + OpcodeRegister::of_code(
                    opcode,
                ).cost()) as u64,
            ),
        ),
{
    assert(opcode >> 3 == opcode / 8) by (bit_vector);
}

/// The block 0x80 to 0xBF applies ADD, ADC, SUB, SBC, AND, XOR, OR and CP,
/// in that order by the middle three bits, to A and the operand that the low
/// three bits select, taking 4 cycles plus 4 for (HL).
pub proof fn lemma_alu_block(opcode: u8)
    requires
        0x80 <= opcode <= 0xBF,
    ensures
        ({
            let o = OpcodeRegister::of_code(opcode);
            let rhs = Operand8::Target(Target8::Opcode(o));
            let a = Target8::Register(Register8::A);
            let k = (opcode / 8) % 8;
            let operator = if k == 0 {
                Operator::Add(a, rhs)
            } else if k == 1 {
                Operator::Adc(a, rhs)
            } else if k == 2 {
                Operator::Sub(rhs)
            } else if k == 3 {
                Operator::Sbc(a, rhs)
            } else if k == 4 {
                Operator::And(a, rhs)
            } else if k == 5 {
                Operator::Xor(a, rhs)
            } else if k == 6 {
                Operator::Or(a, rhs)
            } else {
                Operator::Cp(rhs)
            };
            decode(opcode) == Some((operator, (4 + o.cost()) as u64))
        }),
{
}

/// The 0xCB page: rotations and shifts below 0x40 by the middle three bits
/// (RLC, RRC, RL, RR, SLA, SRA, SWAP, SRL), then BIT, RES and SET, whose bit
/// index is the middle three bits; the low three bits select the operand.
pub proof fn lemma_cb_page(sub_opcode: u8)
    ensures
        ({
            let o = OpcodeRegister::of_code(sub_opcode);
            let k = (sub_opcode / 8) % 8;
            let operator = if sub_opcode < 0x40 {
                if k == 0 {
                    Operator::Rlc(o)
                } else if k == 1 {
                    Operator::Rrc(o)
                } else if k == 2 {
                    Operator::Rl(o)
                } else if k == 3 {
                    Operator::Rr(o)
                } else if k == 4 {
                    Operator::Sla(o)
                } else if k == 5 {
                    Operator::Sra(o)
                } else if k == 6 {
                    Operator::Swap(o)
                } else {
                    Operator::Srl(o)
                }
            } else if sub_opcode < 0x80 {
                Operator::Bit(k, o)
            } else if sub_opcode < 0xC0 {
                Operator::Res(k, o)
            } else {
                Operator::SetBit(k, o)
            };
            decode_cb(sub_opcode) == (operator, o.cost())
        }),
{
    assert(sub_opcode >> 3 & 0b111 == (sub_opcode / 8) % 8) by (bit_vector);
}

} // verus!

verus! {

/// Fetching an instruction moves the program counter past its opcode bytes,
/// one byte or two on the 0xCB page, and changes nothing else.
pub proof fn lemma_fetch_advances_pc(s: ContextState)
    ensures
        ({
            let (ins, s1) = Instruction::fetched(s);
            let length = if ins.sub_opcode is Some { 2int } else { 1int };
            &&& ins.opcode == s.read(s.registers.pc)
            &&& (ins.sub_opcode is Some <==> ins.opcode == 0xCB)
            &&& s1 == s.with_registers(
                crate::cpu::registers::Registers {
                    pc: crate::cpu::registers::wrap16(s.registers.pc + length),
                    ..s.registers
                },
            )
        }),
{
    lemma_decode_total(s.read(s.registers.pc));
}

} // verus!
