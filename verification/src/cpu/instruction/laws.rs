//! Laws of the instruction set, stated over the bit fields of the opcodes and
//! over registers, flags and memory directly.

use vstd::prelude::*;
use crate::cpu::context::{ContextState, MEMORY_SIZE};
use crate::cpu::registers::{Flags, Registers};
use super::decode;
use super::operand::{
    AddLiteral8, Condition, OpcodeRegister, Operand16, Operand8, Place8, Register16, Register8,
    Target16, Target8,
};
use super::operand::indirection::{Addressing, Indirection};
use super::operand::stack_pointer::sp_plus;
use super::operator::Operator;

verus! {

/// The 8-bit register that a three-bit field names, in the order B, C, D, E,
/// H, L, (HL), A; index 6 names memory and has no register.
pub open spec fn register_at(k: int) -> Register8 {
    if k == 0 {
        Register8::B
    } else if k == 1 {
        Register8::C
    } else if k == 2 {
        Register8::D
    } else if k == 3 {
        Register8::E
    } else if k == 4 {
        Register8::H
    } else if k == 5 {
        Register8::L
    } else {
        Register8::A
    }
}

/// The register pair that a two-bit field names in loads and 16-bit
/// arithmetic: BC, DE, HL, SP.
pub open spec fn pair_at(k: int) -> Register16 {
    if k == 0 {
        Register16::BC
    } else if k == 1 {
        Register16::DE
    } else if k == 2 {
        Register16::HL
    } else {
        Register16::SP
    }
}

/// The register pair that a two-bit field names in PUSH and POP: BC, DE, HL, AF.
pub open spec fn stack_pair_at(k: int) -> Register16 {
    if k == 0 {
        Register16::BC
    } else if k == 1 {
        Register16::DE
    } else if k == 2 {
        Register16::HL
    } else {
        Register16::AF
    }
}

/// The condition that a two-bit field names: NZ, Z, NC, C.
pub open spec fn condition_at(k: int) -> Condition {
    if k == 0 {
        Condition::NZ
    } else if k == 1 {
        Condition::Z
    } else if k == 2 {
        Condition::NC
    } else {
        Condition::C
    }
}

/// INC and DEC on 8-bit operands: opcodes below 0x40 ending in 4 (INC) or 5
/// (DEC) in octal take the register that bits 3 to 5 select, in 4 cycles;
/// for field 6 they take the byte at (HL) in 12 cycles.
pub proof fn lemma_inc_dec_column(opcode: u8)
    requires
        opcode < 0x40,
        opcode % 8 == 4 || opcode % 8 == 5,
    ensures
        ({
            let k = opcode / 8;
            let t = if k == 6 {
                Target8::Indirect(Indirection { addressing: Addressing::HL })
            } else {
                Target8::Register(register_at(k as int))
            };
            let cycles: u64 = if k == 6 { 12 } else { 4 };
            decode(opcode) == Some(
                (if opcode % 8 == 4 { Operator::Inc(t) } else { Operator::Dec(t) }, cycles),
            )
        }),
{
}

/// `LD r, n`: opcodes below 0x40 ending in 6 in octal load the byte after the
/// opcode into the register that bits 3 to 5 select, in 8 cycles; for field
/// 6 into the byte at (HL), in 12 cycles.
pub proof fn lemma_load_immediate_column(opcode: u8)
    requires
        opcode < 0x40,
        opcode % 8 == 6,
    ensures
        ({
            let k = opcode / 8;
            let t = if k == 6 {
                Target8::Indirect(Indirection { addressing: Addressing::HL })
            } else {
                Target8::Register(register_at(k as int))
            };
            decode(opcode) == Some((Operator::Ld(t, Operand8::Literal), if k == 6 { 12u64 } else { 8u64 }))
        }),
{
}

/// The 16-bit columns below 0x40: `LD rr, nn` (low nibble 1, 12 cycles),
/// `INC rr` (3, 8 cycles), `ADD HL, rr` (9, 8 cycles) and `DEC rr` (0xB, 8
/// cycles), with the pair that bits 4 and 5 select.
pub proof fn lemma_pair_columns(opcode: u8)
    requires
        opcode < 0x40,
        opcode % 16 == 1 || opcode % 16 == 3 || opcode % 16 == 9 || opcode % 16 == 0xB,
    ensures
        ({
            let rr = pair_at((opcode / 16) as int);
            decode(opcode) == if opcode % 16 == 1 {
                Some(
                    (
                        Operator::Ld16(Target16::Register(rr), Operand16::Literal),
                        12u64,
                    ),
                )
            } else if opcode % 16 == 3 {
                Some((Operator::Inc16(rr), 8u64))
            } else if opcode % 16 == 9 {
                Some((Operator::Add16(Register16::HL, rr), 8u64))
            } else {
                Some((Operator::Dec16(rr), 8u64))
            }
        }),
{
}

/// The accumulator loads through memory below 0x40: low nibble 2 stores A and
/// low nibble 0xA loads A, through (BC), (DE), (HLI) and (HLD) as bits 4 and
/// 5 select, in 8 cycles.
pub proof fn lemma_accumulator_memory_column(opcode: u8)
    requires
        opcode < 0x40,
        opcode % 16 == 2 || opcode % 16 == 0xA,
    ensures
        ({
            let k = opcode / 16;
            let addressing = if k == 0 {
                Addressing::BC
            } else if k == 1 {
                Addressing::DE
            } else if k == 2 {
                Addressing::HLI
            } else {
                Addressing::HLD
            };
            let m = Target8::Indirect(Indirection { addressing });
            let a = Target8::Register(Register8::A);
            decode(opcode) == Some(
                (
                    if opcode % 16 == 2 {
                        Operator::Ld(m, Operand8::Target(a))
                    } else {
                        Operator::Ld(a, Operand8::Target(m))
                    },
                    8u64,
                ),
            )
        }),
{
}

/// The accumulator and flag operators below 0x40 ending in 7 in octal: RLCA,
/// RRCA, RLA, RRA, DAA, CPL, SCF, CCF as bits 3 to 5 select, in 4 cycles.
pub proof fn lemma_accumulator_column(opcode: u8)
    requires
        opcode < 0x40,
        opcode % 8 == 7,
    ensures
        ({
            let k = opcode / 8;
            let op = if k == 0 {
                Operator::Rlca
            } else if k == 1 {
                Operator::Rrca
            } else if k == 2 {
                Operator::Rla
            } else if k == 3 {
                Operator::Rra
            } else if k == 4 {
                Operator::Daa
            } else if k == 5 {
                Operator::Cpl
            } else if k == 6 {
                Operator::Scf
            } else {
                Operator::Ccf
            };
            decode(opcode) == Some((op, 4u64))
        }),
{
}

/// The arithmetic with an immediate operand: opcodes from 0xC0 ending in 6 in
/// octal apply ADD, ADC, SUB, SBC, AND, XOR, OR, CP as bits 3 to 5 select, to
/// A and the byte after the opcode, in 8 cycles.
pub proof fn lemma_immediate_alu_column(opcode: u8)
    requires
        opcode >= 0xC0,
        opcode % 8 == 6,
    ensures
        ({
            let k = (opcode / 8) % 8;
            let a = Target8::Register(Register8::A);
            let n = Operand8::Literal;
            let op = if k == 0 {
                Operator::Add(a, n)
            } else if k == 1 {
                Operator::Adc(a, n)
            } else if k == 2 {
                Operator::Sub(n)
            } else if k == 3 {
                Operator::Sbc(a, n)
            } else if k == 4 {
                Operator::And(a, n)
            } else if k == 5 {
                Operator::Xor(a, n)
            } else if k == 6 {
                Operator::Or(a, n)
            } else {
                Operator::Cp(n)
            };
            decode(opcode) == Some((op, 8u64))
        }),
{
}

/// PUSH and POP: from 0xC0, low nibble 5 pushes and 1 pops the pair that
/// bits 4 and 5 select (BC, DE, HL, AF), in 16 and 12 cycles.
pub proof fn lemma_stack_columns(opcode: u8)
    requires
        opcode >= 0xC0,
        opcode % 16 == 5 || opcode % 16 == 1,
    ensures
        ({
            let rr = stack_pair_at(((opcode / 16) % 4) as int);
            decode(opcode) == if opcode % 16 == 5 {
                Some((Operator::Push(rr), 16u64))
            } else {
                Some((Operator::Pop(rr), 12u64))
            }
        }),
{
}

/// The conditional jumps, calls and returns: `JR cc` at 0x20 + 8k, `RET cc`
/// at 0xC0 + 8k, `JP cc` at 0xC2 + 8k and `CALL cc` at 0xC4 + 8k, with
/// condition k in the order NZ, Z, NC, C.
pub proof fn lemma_condition_columns(k: u8)
    requires
        k < 4,
    ensures
        decode((0x20 + 8 * k) as u8) == Some((Operator::JrCc(condition_at(k as int), Operand8::Literal), 8u64)),
        decode((0xC0 + 8 * k) as u8) == Some((Operator::RetCc(condition_at(k as int)), 8u64)),
        decode((0xC2 + 8 * k) as u8) == Some(
            (Operator::JpCc(condition_at(k as int), Operand16::Literal), 12u64),
        ),
        decode((0xC4 + 8 * k) as u8) == Some(
            (Operator::CallCc(condition_at(k as int), Operand16::Literal), 12u64),
        ),
{
}

/// The restarts: 0xC7 + 8k calls address 8k, in 32 cycles.
pub proof fn lemma_restart_column(k: u8)
    requires
        k < 8,
    ensures
        decode((0xC7 + 8 * k) as u8) == Some((Operator::Rst((8 * k) as u8), 32u64)),
{
}

/// The conditions test the flags they are named for: NZ holds when Z is
/// clear, Z when it is set, NC when C is clear, C when it is set.
pub proof fn lemma_conditions(f: Flags)
    ensures
        Condition::NZ.holds(f) == !f.z,
        Condition::Z.holds(f) == f.z,
        Condition::NC.holds(f) == !f.c,
        Condition::C.holds(f) == f.c,
{
}

/// `JP cc, nn` always fetches the address after the opcode; it jumps there
/// when the flag that the condition names is as it asks, and otherwise goes
/// on after the address.
pub proof fn lemma_conditional_jump(s: ContextState)
    requires
        s.memory.len() == MEMORY_SIZE,
    ensures
        ({
            let pc = s.registers.pc;
            let f = s.registers.f;
            let target = (s.memory[pc as int] + 256 * s.memory[((pc + 1) % 65536) as int]) as u16;
            let next = ((pc + 2) % 65536) as u16;
            &&& Operator::JpCc(Condition::NZ, Operand16::Literal).step(s).registers.pc == if !f.z { target } else { next }
            &&& Operator::JpCc(Condition::Z, Operand16::Literal).step(s).registers.pc == if f.z { target } else { next }
            &&& Operator::JpCc(Condition::NC, Operand16::Literal).step(s).registers.pc == if !f.c { target } else { next }
            &&& Operator::JpCc(Condition::C, Operand16::Literal).step(s).registers.pc == if f.c { target } else { next }
        }),
{
    reveal(super::operator::jump_step);
    reveal(Operand16::load);
}

/// The operand that the low three bits of an opcode select reads B, C, D, E,
/// H, L, the byte at the address H * 256 + L, or A, and reading it changes
/// nothing.
pub proof fn lemma_opcode_operand_reads(code: u8, s: ContextState)
    ensures
        ({
            let r = s.registers;
            let k = code % 8;
            let v = if k == 0 {
                r.b
            } else if k == 1 {
                r.c
            } else if k == 2 {
                r.d
            } else if k == 3 {
                r.e
            } else if k == 4 {
                r.h
            } else if k == 5 {
                r.l
            } else if k == 6 {
                s.memory[r.h * 256 + r.l]
            } else {
                r.a
            };
            Operand8::Target(Target8::Opcode(OpcodeRegister::of_code(code))).load(s) == (v, s)
        }),
{
    reveal(Operand8::load);
    reveal(Target8::locate);
}

/// Writing the operand that the low three bits of an opcode select sets B,
/// C, D, E, H, L, the byte at the address H * 256 + L, or A, and nothing else.
pub proof fn lemma_opcode_operand_writes(code: u8, s: ContextState, v: u8)
    ensures
        ({
            let r = s.registers;
            let k = code % 8;
            Target8::Opcode(OpcodeRegister::of_code(code)).store(s, v) == if k == 0 {
                s.with_registers(Registers { b: v, ..r })
            } else if k == 1 {
                s.with_registers(Registers { c: v, ..r })
            } else if k == 2 {
                s.with_registers(Registers { d: v, ..r })
            } else if k == 3 {
                s.with_registers(Registers { e: v, ..r })
            } else if k == 4 {
                s.with_registers(Registers { h: v, ..r })
            } else if k == 5 {
                s.with_registers(Registers { l: v, ..r })
            } else if k == 6 {
                ContextState { memory: s.memory.update(r.h * 256 + r.l, v), ..s }
            } else {
                s.with_registers(Registers { a: v, ..r })
            }
        }),
{
    reveal(Target8::locate);
}

/// Where each memory operand points, and what working it out changes: (BC),
/// (DE) and (HL) all point at B * 256 + C and change nothing; (C) points at
/// 0xFF00 + C; ($FF00+n) at 0xFF00 plus the byte after the opcode, and (nn)
/// at the little-endian word after it, both moving PC past what they fetch;
/// (HLD) and (HLI) point at H * 256 + L and then move HL down or up by one,
/// wrapping.
pub proof fn lemma_indirection_addresses(s: ContextState)
    ensures
        ({
            let r = s.registers;
            let bc = (r.b * 256 + r.c) as u16;
            let hl = r.h * 256 + r.l;
            let pc = r.pc;
            let pc1 = ((pc + 1) % 65536) as u16;
            let pc2 = ((pc + 2) % 65536) as u16;
            let down = (hl + 65535) % 65536;
            let up = (hl + 1) % 65536;
            &&& Indirection { addressing: Addressing::BC }.address_of(s) == (bc, s)
            &&& Indirection { addressing: Addressing::DE }.address_of(s) == (bc, s)
            &&& Indirection { addressing: Addressing::HL }.address_of(s) == (bc, s)
            &&& Indirection { addressing: Addressing::C }.address_of(s) == ((0xFF00 + r.c) as u16, s)
            &&& Indirection { addressing: Addressing::Literal8 }.address_of(s) == (
                (0xFF00 + s.memory[pc as int]) as u16,
                s.with_registers(Registers { pc: pc1, ..r }),
            )
            &&& Indirection { addressing: Addressing::Literal }.address_of(s) == (
                (s.memory[pc as int] + 256 * s.memory[pc1 as int]) as u16,
                s.with_registers(Registers { pc: pc2, ..r }),
            )
            &&& Indirection { addressing: Addressing::HLD }.address_of(s) == (
                hl as u16,
                s.with_registers(Registers { h: (down / 256) as u8, l: (down % 256) as u8, ..r }),
            )
            &&& Indirection { addressing: Addressing::HLI }.address_of(s) == (
                hl as u16,
                s.with_registers(Registers { h: (up / 256) as u8, l: (up % 256) as u8, ..r }),
            )
        }),
{
}

/// Reading and writing (BC) reads and writes the byte at B * 256 + C.
pub proof fn lemma_bc_indirection(s: ContextState, v: u8)
    ensures
        ({
            let addr = s.registers.b * 256 + s.registers.c;
            let bc = Indirection { addressing: Addressing::BC };
            &&& bc.load8(s) == (s.memory[addr], s)
            &&& bc.store8(s, v) == ContextState { memory: s.memory.update(addr, v), ..s }
        }),
{
}

/// `SP+n` is SP plus `n` read as a signed byte, wrapped to 16 bits: plus `n`
/// below 128, minus `256 - n` from 128. Z and N are clear, H and C are the
/// carries out of bits 3 and 7 when the unsigned byte is added to SP's low
/// byte.
pub proof fn lemma_sp_plus(sp: u16, n: u8)
    ensures
        sp_plus(sp, n).0 as int == if n < 128 {
            (sp + n) % 65536
        } else {
            (sp + 65536 - (256 - n)) % 65536
        },
        sp_plus(sp, n).1 == (Flags { z: false, n: false, h: sp % 16 + n % 16 >= 16, c: sp % 256 + n >= 256 }),
{
}

/// `LD HL, SP+n` and `ADD SP, n` fetch `n` and move PC past it; the first
/// puts SP plus the signed `n` in HL and leaves SP, the second puts it in SP.
pub proof fn lemma_stack_pointer_offset(s: ContextState)
    ensures
        ({
            let r = s.registers;
            let n = s.memory[r.pc as int];
            let sum = if n < 128 { (r.sp + n) % 65536 } else { (r.sp + 65536 - (256 - n)) % 65536 };
            let f = Flags { z: false, n: false, h: r.sp % 16 + n % 16 >= 16, c: r.sp % 256 + n >= 256 };
            let pc1 = ((r.pc + 1) % 65536) as u16;
            &&& AddLiteral8.load(s) == (sum as u16, s.with_registers(Registers { pc: pc1, f, ..r }))
            &&& Operator::Ld16(Target16::Register(Register16::HL), Operand16::AddLiteral8(AddLiteral8)).step(s)
                == s.with_registers(
                Registers { pc: pc1, f, h: (sum / 256) as u8, l: (sum % 256) as u8, ..r },
            )
            &&& Operator::AddSp(Operand8::Literal).step(s) == s.with_registers(
                Registers { pc: pc1, f, sp: sum as u16, ..r },
            )
        }),
{
    reveal(Operand16::load);
    reveal(Operand8::load);
    reveal(Target16::locate);
    reveal(super::operator::add_sp_step);
    lemma_sp_plus(s.registers.sp, s.memory[s.registers.pc as int]);
}

/// A word in memory is little-endian: the byte at the address is the low
/// byte, the byte after it (wrapping) the high byte.
pub proof fn lemma_words_little_endian(s: ContextState, addr: u16, v: u16)
    requires
        s.memory.len() == MEMORY_SIZE,
    ensures
        s.read16(addr) == s.memory[addr as int] + 256 * s.memory[((addr + 1) % 65536) as int],
        s.write16(addr, v).memory == s.memory.update(addr as int, (v % 256) as u8).update(
            ((addr + 1) % 65536) as int,
            (v / 256) as u8,
        ),
{
}

/// PUSH moves SP down by two and stores the pair there, low byte first; the
/// low byte of AF is the flags, Z in bit 7, N in bit 6, H in bit 5, C in bit 4.
/// POP reads the pair from SP, low byte first, and moves SP up by two.
pub proof fn lemma_push_pop(s: ContextState)
    requires
        s.memory.len() == MEMORY_SIZE,
    ensures
        ({
            let r = s.registers;
            let sp = r.sp;
            let below = ((sp + 65534) % 65536) as int;
            let below1 = ((sp + 65535) % 65536) as int;
            let above = ((sp + 1) % 65536) as int;
            let lo = s.memory[sp as int];
            let hi = s.memory[above];
            let up = ((sp + 2) % 65536) as u16;
            let fbyte = (if r.f.z { 128int } else { 0 }) + (if r.f.n { 64int } else { 0 }) + (if r.f.h {
                32int
            } else {
                0
            }) + (if r.f.c { 16int } else { 0 });
            let pushed = |l: u8, h: u8|
                ContextState {
                    registers: Registers { sp: below as u16, ..r },
                    memory: s.memory.update(below, l).update(below1, h),
                    ..s
                };
            &&& Operator::Push(Register16::BC).step(s) == pushed(r.c, r.b)
            &&& Operator::Push(Register16::DE).step(s) == pushed(r.e, r.d)
            &&& Operator::Push(Register16::HL).step(s) == pushed(r.l, r.h)
            &&& Operator::Push(Register16::AF).step(s) == pushed(fbyte as u8, r.a)
            &&& Operator::Pop(Register16::BC).step(s) == s.with_registers(Registers { b: hi, c: lo, sp: up, ..r })
            &&& Operator::Pop(Register16::DE).step(s) == s.with_registers(Registers { d: hi, e: lo, sp: up, ..r })
            &&& Operator::Pop(Register16::HL).step(s) == s.with_registers(Registers { h: hi, l: lo, sp: up, ..r })
            &&& Operator::Pop(Register16::AF).step(s) == s.with_registers(
                Registers {
                    a: hi,
                    f: Flags {
                        z: (lo / 128) % 2 == 1,
                        n: (lo / 64) % 2 == 1,
                        h: (lo / 32) % 2 == 1,
                        c: (lo / 16) % 2 == 1,
                    },
                    sp: up,
                    ..r
                },
            )
        }),
{
    let r = s.registers;
    let below = ((r.sp + 65534) % 65536) as u16;
    assert(((below + 1) % 65536) as int == ((r.sp + 65535) % 65536) as int);
    assert(s.with_registers(Registers { sp: below, ..r }).write16(below, r.bc_value()).memory =~= s.memory.update(
        below as int,
        r.c,
    ).update(((r.sp + 65535) % 65536) as int, r.b));
    assert(s.with_registers(Registers { sp: below, ..r }).write16(below, r.de_value()).memory =~= s.memory.update(
        below as int,
        r.e,
    ).update(((r.sp + 65535) % 65536) as int, r.d));
    assert(s.with_registers(Registers { sp: below, ..r }).write16(below, r.hl_value()).memory =~= s.memory.update(
        below as int,
        r.l,
    ).update(((r.sp + 65535) % 65536) as int, r.h));
    assert(s.with_registers(Registers { sp: below, ..r }).write16(below, r.af_value()).memory =~= s.memory.update(
        below as int,
        r.f.byte(),
    ).update(((r.sp + 65535) % 65536) as int, r.a));
}

/// `JR e`: the signed offset after the opcode is added to the address after
/// it, wrapping.
pub proof fn lemma_relative_jump(s: ContextState)
    requires
        s.memory.len() == MEMORY_SIZE,
    ensures
        ({
            let r = s.registers;
            let pc = r.pc;
            let e = s.memory[pc as int];
            let pc1 = (pc + 1) % 65536;
            let pc2 = (pc + 2) % 65536;
            let target = s.memory[pc as int] + 256 * s.memory[pc1];
            let sp = r.sp;
            let below = (sp + 65534) % 65536;
            let below1 = (sp + 65535) % 65536;
            Operator::Jr(Operand8::Literal).step(s).registers.pc as int == if e < 128 {
                (pc1 + e) % 65536
            } else {
                (pc1 + 65536 - (256 - e)) % 65536
            }
        }),
{
    reveal(super::operator::relative_jump_step);
    reveal(super::operator::call_step);
    reveal(super::operator::return_step);
    reveal(Operand8::load);
    reveal(Operand16::load);
}

/// `CALL nn` pushes the address after `nn`, low byte first, and
/// jumps to `nn`.
pub proof fn lemma_call(s: ContextState)
    requires
        s.memory.len() == MEMORY_SIZE,
    ensures
        ({
            let r = s.registers;
            let pc = r.pc;
            let e = s.memory[pc as int];
            let pc1 = (pc + 1) % 65536;
            let pc2 = (pc + 2) % 65536;
            let target = s.memory[pc as int] + 256 * s.memory[pc1];
            let sp = r.sp;
            let below = (sp + 65534) % 65536;
            let below1 = (sp + 65535) % 65536;
            &&& Operator::Call(Operand16::Literal).step(s).registers.pc as int == target
            &&& Operator::Call(Operand16::Literal).step(s).registers.sp as int == below
            &&& Operator::Call(Operand16::Literal).step(s).memory[below] as int == pc2 % 256
            &&& Operator::Call(Operand16::Literal).step(s).memory[below1] as int == pc2 / 256
        }),
{
    reveal(super::operator::relative_jump_step);
    reveal(super::operator::call_step);
    reveal(super::operator::return_step);
    reveal(Operand8::load);
    reveal(Operand16::load);
}

/// `RET` pops the address it jumps to, low byte first.
pub proof fn lemma_ret(s: ContextState)
    requires
        s.memory.len() == MEMORY_SIZE,
    ensures
        ({
            let r = s.registers;
            let pc = r.pc;
            let e = s.memory[pc as int];
            let pc1 = (pc + 1) % 65536;
            let pc2 = (pc + 2) % 65536;
            let target = s.memory[pc as int] + 256 * s.memory[pc1];
            let sp = r.sp;
            let below = (sp + 65534) % 65536;
            let below1 = (sp + 65535) % 65536;
            Operator::Ret.step(s) == s.with_registers(
                Registers {
                    pc: (s.memory[sp as int] + 256 * s.memory[((sp + 1) % 65536) as int]) as u16,
                    sp: ((sp + 2) % 65536) as u16,
                    ..r
                },
            )
        }),
{
    reveal(super::operator::relative_jump_step);
    reveal(super::operator::call_step);
    reveal(super::operator::return_step);
    reveal(Operand8::load);
    reveal(Operand16::load);
}

/// `RST n` pushes PC, low byte first, and jumps to `n`.
pub proof fn lemma_restart(s: ContextState, n: u8)
    requires
        s.memory.len() == MEMORY_SIZE,
    ensures
        ({
            let r = s.registers;
            let pc = r.pc;
            let e = s.memory[pc as int];
            let pc1 = (pc + 1) % 65536;
            let pc2 = (pc + 2) % 65536;
            let target = s.memory[pc as int] + 256 * s.memory[pc1];
            let sp = r.sp;
            let below = (sp + 65534) % 65536;
            let below1 = (sp + 65535) % 65536;
            &&& Operator::Rst(n).step(s).registers.pc == n as u16
            &&& Operator::Rst(n).step(s).registers.sp as int == below
            &&& Operator::Rst(n).step(s).memory[below] as int == pc % 256
            &&& Operator::Rst(n).step(s).memory[below1] as int == pc / 256
        }),
{
}

/// The operators without operands: CPL complements A and sets N and H; SCF
/// sets C and CCF flips it, both clearing N and H; DI and EI clear and set
/// the interrupt enable; HALT and STOP set their flags; NOP and the unused
/// opcodes change nothing; RLCA rotates A left with Z cleared.
pub proof fn lemma_simple_operators(s: ContextState, op: u8)
    ensures
        ({
            let r = s.registers;
            let f = r.f;
            &&& Operator::Cpl.step(s) == s.with_registers(
                Registers { a: (255 - r.a) as u8, f: Flags { z: f.z, n: true, h: true, c: f.c }, ..r },
            )
            &&& Operator::Scf.step(s) == s.with_registers(
                Registers { f: Flags { z: f.z, n: false, h: false, c: true }, ..r },
            )
            &&& Operator::Ccf.step(s) == s.with_registers(
                Registers { f: Flags { z: f.z, n: false, h: false, c: !f.c }, ..r },
            )
            &&& Operator::Di.step(s) == ContextState { ime: false, ..s }
            &&& Operator::Ei.step(s) == ContextState { ime: true, ..s }
            &&& Operator::Halt.step(s) == ContextState { halted: true, ..s }
            &&& Operator::Stop.step(s) == ContextState { stopped: true, ..s }
            &&& Operator::Nop.step(s) == s
            &&& Operator::Unused(op).step(s) == s
            &&& Operator::Rlca.step(s) == s.with_registers(
                Registers {
                    a: ((r.a * 2) % 256 + r.a / 128) as u8,
                    f: Flags { z: false, n: false, h: false, c: r.a >= 128 },
                    ..r
                },
            )
        }),
{
}

/// The opcodes outside the regular columns.
pub proof fn lemma_other_opcodes()
    ensures
        decode(0x00) == Some((Operator::Nop, 4u64)),
        decode(0x10) == Some((Operator::Stop, 4u64)),
        decode(0x76) == Some((Operator::Halt, 4u64)),
        decode(0xF3) == Some((Operator::Di, 4u64)),
        decode(0xFB) == Some((Operator::Ei, 4u64)),
        decode(0xCB) is None,
        decode(0x08) == Some(
            (
                Operator::Ld16(
                    Target16::Indirect(Indirection { addressing: Addressing::Literal }),
                    Operand16::Target(Target16::Register(Register16::SP)),
                ),
                20u64,
            ),
        ),
        decode(0x18) == Some((Operator::Jr(Operand8::Literal), 8u64)),
        decode(0xC3) == Some((Operator::Jp(Operand16::Literal), 12u64)),
        decode(0xE9) == Some(
            (Operator::Jp(Operand16::Target(Target16::Indirect(Indirection { addressing: Addressing::HL }))), 4u64),
        ),
        decode(0xCD) == Some((Operator::Call(Operand16::Literal), 12u64)),
        decode(0xC9) == Some((Operator::Ret, 8u64)),
        decode(0xD9) == Some((Operator::Reti, 8u64)),
        decode(0xE8) == Some((Operator::AddSp(Operand8::Literal), 16u64)),
        decode(0xF8) == Some(
            (Operator::Ld16(Target16::Register(Register16::HL), Operand16::AddLiteral8(AddLiteral8)), 12u64),
        ),
        decode(0xF9) == Some(
            (
                Operator::Ld16(
                    Target16::Register(Register16::SP),
                    Operand16::Target(Target16::Register(Register16::HL)),
                ),
                8u64,
            ),
        ),
        ({
            let a = Target8::Register(Register8::A);
            let m = |addressing: Addressing| Target8::Indirect(Indirection { addressing });
            &&& decode(0xE0) == Some((Operator::Ld(m(Addressing::Literal8), Operand8::Target(a)), 12u64))
            &&& decode(0xF0) == Some((Operator::Ld(a, Operand8::Target(m(Addressing::Literal8))), 12u64))
            &&& decode(0xE2) == Some((Operator::Ld(m(Addressing::C), Operand8::Target(a)), 8u64))
            &&& decode(0xF2) == Some((Operator::Ld(a, Operand8::Target(m(Addressing::C))), 8u64))
            &&& decode(0xEA) == Some((Operator::Ld(m(Addressing::Literal), Operand8::Target(a)), 16u64))
            &&& decode(0xFA) == Some((Operator::Ld(a, Operand8::Target(m(Addressing::Literal))), 16u64))
        }),
        forall|op: u8|
            op == 0xD3 || op == 0xDB || op == 0xDD || op == 0xE3 || op == 0xE4 || op == 0xEB || op == 0xEC
                || op == 0xED || op == 0xF4 || op == 0xFC || op == 0xFD ==> decode(op) == Some(
                (Operator::Unused(op), 0u64),
            ),
{
}

} // verus!
