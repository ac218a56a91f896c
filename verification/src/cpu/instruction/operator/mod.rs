//! Operators: what an instruction does to the context, with the operands that
//! it names.

pub mod alu;
pub mod assembly;
pub mod laws;
pub mod logic;

use vstd::prelude::*;
use crate::cpu::context::{Context, ContextState};
use crate::cpu::registers::{Flags, Registers, wrap16};
use crate::cpu::instruction::operand::{
    Condition, OpcodeRegister, Operand16, Operand8, Register16, Register8, Target16, Target8,
    get16, set16,
};
use crate::cpu::instruction::operand::stack_pointer::{signed, sp_plus, add_sp};
use alu::{BinaryOp, UnaryOp, add16, bit_set, daa, sub8};
use logic::{and_value, or_value, xor_value, logic_step};

pub use logic::{and, or, xor};

verus! {

/// An operation of the CPU together with its operands.
#[derive(Clone, Copy, Debug, PartialEq, Eq, Structural)]
pub enum Operator {
    Halt,
    Stop,
    Nop,
    Di,
    Ei,
    Daa,
    Cpl,
    Ccf,
    Scf,
    Rlca,
    Rla,
    Rrca,
    Rra,
    Ld(Target8, Operand8),
    Ld16(Target16, Operand16),
    Push(Register16),
    Pop(Register16),
    Add(Target8, Operand8),
    Adc(Target8, Operand8),
    Sub(Operand8),
    Sbc(Target8, Operand8),
    And(Target8, Operand8),
    Or(Target8, Operand8),
    Xor(Target8, Operand8),
    Cp(Operand8),
    Inc(Target8),
    Dec(Target8),
    Add16(Register16, Register16),
    AddSp(Operand8),
    Inc16(Register16),
    Dec16(Register16),
    Jp(Operand16),
    JpCc(Condition, Operand16),
    Jr(Operand8),
    JrCc(Condition, Operand8),
    Call(Operand16),
    CallCc(Condition, Operand16),
    Rst(u8),
    Ret,
    RetCc(Condition),
    Reti,
    /// An opcode that the CPU does not define.
    Unused(u8),
    Swap(OpcodeRegister),
    Rlc(OpcodeRegister),
    Rl(OpcodeRegister),
    Rrc(OpcodeRegister),
    Rr(OpcodeRegister),
    Sla(OpcodeRegister),
    Sra(OpcodeRegister),
    Srl(OpcodeRegister),
    Bit(u8, OpcodeRegister),
    SetBit(u8, OpcodeRegister),
    Res(u8, OpcodeRegister),
}

/// The state with the flags replaced.
pub open spec fn with_flags(s: ContextState, f: Flags) -> ContextState {
    s.with_registers(Registers { f, ..s.registers })
}

/// The state with the program counter set to `addr`.
pub open spec fn jump_to(s: ContextState, addr: u16) -> ContextState {
    s.with_registers(Registers { pc: addr, ..s.registers })
}

/// Pushing `v`: SP moves down by two and `v` is stored little-endian at the new SP.
pub open spec fn push_value(s: ContextState, v: u16) -> ContextState {
    let sp = wrap16(s.registers.sp - 2);
    s.with_registers(Registers { sp, ..s.registers }).write16(sp, v)
}

/// Popping: the word at SP, and the state with SP moved up by two.
pub open spec fn pop_value(s: ContextState) -> (u16, ContextState) {
    let sp = s.registers.sp;
    (s.read16(sp), s.with_registers(Registers { sp: wrap16(sp + 2), ..s.registers }))
}

/// An arithmetic operator on a target: the target is located and read, the
/// operand is read, the flags are set and the result is written back.
#[verifier::opaque]
pub open spec fn binary_step(op: BinaryOp, lhs: Target8, rhs: Operand8, s: ContextState) -> ContextState {
    let (place, s1) = lhs.locate(s);
    let current = place.value(s1);
    let (n, s2) = rhs.load(s1);
    let (result, flags) = op.apply(current, n, s2.registers.f);
    place.store(with_flags(s2, flags), result)
}

/// An operator that rewrites a single target: the target is located and
/// read, the flags are set and the result is written back.
#[verifier::opaque]
pub open spec fn unary_step(op: UnaryOp, t: Target8, s: ContextState) -> ContextState {
    let (place, s1) = t.locate(s);
    let (result, flags) = op.apply(place.value(s1), s1.registers.f);
    place.store(with_flags(s1, flags), result)
}

/// A rotation of A: like the rotation of a register, but Z is always cleared.
pub open spec fn rotate_a_step(op: UnaryOp, s: ContextState) -> ContextState {
    let (r, f) = op.apply(s.registers.a, s.registers.f);
    s.with_registers(Registers { a: r, f: Flags { z: false, ..f }, ..s.registers })
}

/// Whether a jump, call or return with an optional condition is taken under `f`.
pub open spec fn taken(c: Option<Condition>, f: Flags) -> bool {
    match c {
        Some(c) => c.holds(f),
        None => true,
    }
}

/// `CP o`: the flags of `A - o`, with A unchanged.
#[verifier::opaque]
pub open spec fn compare_step(o: Operand8, s: ContextState) -> ContextState {
    let (n, s1) = o.load(s);
    with_flags(s1, sub8(s1.registers.a, n, 0).1)
}

/// `ADD lhs, rhs` on register pairs: the sum in `lhs`, with the flags of the
/// 16-bit addition.
#[verifier::opaque]
pub open spec fn add16_step(lhs: Register16, rhs: Register16, s: ContextState) -> ContextState {
    let r = s.registers;
    let (v, f) = add16(get16(r, lhs), get16(r, rhs), r.f);
    s.with_registers(set16(Registers { f, ..r }, lhs, v))
}

/// `ADD SP, o`: SP plus the signed operand, with the flags of that addition.
#[verifier::opaque]
pub open spec fn add_sp_step(o: Operand8, s: ContextState) -> ContextState {
    let (n, s1) = o.load(s);
    let (v, f) = sp_plus(s1.registers.sp, n);
    s1.with_registers(Registers { sp: v, f, ..s1.registers })
}

/// `INC rr`: the pair plus one, wrapped; no flags change.
#[verifier::opaque]
pub open spec fn inc16_step(reg: Register16, s: ContextState) -> ContextState {
    let r = s.registers;
    s.with_registers(set16(r, reg, wrap16(get16(r, reg) + 1)))
}

/// `DEC rr`: the pair minus one, wrapped; no flags change.
#[verifier::opaque]
pub open spec fn dec16_step(reg: Register16, s: ContextState) -> ContextState {
    let r = s.registers;
    s.with_registers(set16(r, reg, wrap16(get16(r, reg) - 1)))
}

/// `JP [c,] o`: the address is read, and becomes PC when the condition holds.
#[verifier::opaque]
pub open spec fn jump_step(c: Option<Condition>, o: Operand16, s: ContextState) -> ContextState {
    let (addr, s1) = o.load(s);
    if taken(c, s1.registers.f) {
        jump_to(s1, addr)
    } else {
        s1
    }
}

/// `JR [c,] o`: the signed offset is read, and added to PC when the
/// condition holds.
#[verifier::opaque]
pub open spec fn relative_jump_step(c: Option<Condition>, o: Operand8, s: ContextState) -> ContextState {
    let (n, s1) = o.load(s);
    if taken(c, s1.registers.f) {
        jump_to(s1, wrap16(s1.registers.pc + signed(n)))
    } else {
        s1
    }
}

/// `CALL [c,] o`: the address is read; when the condition holds PC is pushed
/// and the address becomes PC.
#[verifier::opaque]
pub open spec fn call_step(c: Option<Condition>, o: Operand16, s: ContextState) -> ContextState {
    let (addr, s1) = o.load(s);
    if taken(c, s1.registers.f) {
        jump_to(push_value(s1, s1.registers.pc), addr)
    } else {
        s1
    }
}

/// `RET [c]`: when the condition holds, PC is popped from the stack.
#[verifier::opaque]
pub open spec fn return_step(c: Option<Condition>, s: ContextState) -> ContextState {
    if taken(c, s.registers.f) {
        let (addr, s1) = pop_value(s);
        jump_to(s1, addr)
    } else {
        s
    }
}

impl Operator {
    /// Bit indices are below 8.
    pub open spec fn wf(self) -> bool {
        match self {
            Operator::Bit(b, _) | Operator::SetBit(b, _) | Operator::Res(b, _) => b < 8,
            _ => true,
        }
    }

    /// The state after the operator runs on `s`.
    pub open spec fn step(self, s: ContextState) -> ContextState {
        match self {
            Operator::Halt | Operator::Stop | Operator::Nop | Operator::Di | Operator::Ei
            | Operator::Daa | Operator::Cpl | Operator::Ccf | Operator::Scf | Operator::Rlca
            | Operator::Rla | Operator::Rrca | Operator::Rra | Operator::Unused(..) => self.step_misc(s),
            Operator::Ld(..) | Operator::Ld16(..) | Operator::Push(..) | Operator::Pop(..) => self.step_load(s),
            Operator::Add(..) | Operator::Adc(..) | Operator::Sub(..) | Operator::Sbc(..)
            | Operator::And(..) | Operator::Or(..) | Operator::Xor(..) | Operator::Cp(..)
            | Operator::Inc(..) | Operator::Dec(..) | Operator::Add16(..) | Operator::AddSp(..)
            | Operator::Inc16(..) | Operator::Dec16(..) => self.step_arith(s),
            Operator::Jp(..) | Operator::JpCc(..) | Operator::Jr(..) | Operator::JrCc(..)
            | Operator::Call(..) | Operator::CallCc(..) | Operator::Rst(..) | Operator::Ret
            | Operator::RetCc(..) | Operator::Reti => self.step_control(s),
            Operator::Swap(..) | Operator::Rlc(..) | Operator::Rl(..) | Operator::Rrc(..)
            | Operator::Rr(..) | Operator::Sla(..) | Operator::Sra(..) | Operator::Srl(..)
            | Operator::Bit(..) | Operator::SetBit(..) | Operator::Res(..) => self.step_cb(s),
        }
    }

    /// The state after one of the operators that need no operand runs on `s`;
    /// any other operator leaves `s` as it is.
    pub open spec fn step_misc(self, s: ContextState) -> ContextState {
        let r = s.registers;
        match self {
            Operator::Halt => ContextState { halted: true, ..s },
            Operator::Stop => ContextState { stopped: true, ..s },
            Operator::Nop => s,
            Operator::Di => ContextState { ime: false, ..s },
            Operator::Ei => ContextState { ime: true, ..s },
            Operator::Daa => {
                let (a, f) = daa(r.a, r.f);
                s.with_registers(Registers { a, f, ..r })
            },
            Operator::Cpl => s.with_registers(
                Registers { a: (255 - r.a) as u8, f: Flags { n: true, h: true, ..r.f }, ..r },
            ),
            Operator::Ccf => with_flags(s, Flags { n: false, h: false, c: !r.f.c, ..r.f }),
            Operator::Scf => with_flags(s, Flags { n: false, h: false, c: true, ..r.f }),
            Operator::Rlca => rotate_a_step(UnaryOp::Rlc, s),
            Operator::Rla => rotate_a_step(UnaryOp::Rl, s),
            Operator::Rrca => rotate_a_step(UnaryOp::Rrc, s),
            Operator::Rra => rotate_a_step(UnaryOp::Rr, s),
            Operator::Unused(_) => s,
            _ => s,
        }
    }

    /// The state after one of loads and the stack operators runs on `s`;
    /// any other operator leaves `s` as it is.
    pub open spec fn step_load(self, s: ContextState) -> ContextState {
        let r = s.registers;
        match self {
            Operator::Ld(t, o) => {
                let (v, s1) = o.load(s);
                t.store(s1, v)
            },
            Operator::Ld16(t, o) => {
                let (v, s1) = o.load(s);
                t.store(s1, v)
            },
            Operator::Push(reg) => push_value(s, get16(r, reg)),
            Operator::Pop(reg) => {
                let (v, s1) = pop_value(s);
                s1.with_registers(set16(s1.registers, reg, v))
            },
            _ => s,
        }
    }

    /// The state after one of the arithmetic and logic operators runs on `s`;
    /// any other operator leaves `s` as it is.
    pub open spec fn step_arith(self, s: ContextState) -> ContextState {
        match self {
            Operator::Add(t, o) => binary_step(BinaryOp::Add, t, o, s),
            Operator::Adc(t, o) => binary_step(BinaryOp::Adc, t, o, s),
            Operator::Sub(o) => binary_step(BinaryOp::Sub, Target8::Register(Register8::A), o, s),
            Operator::Sbc(t, o) => binary_step(BinaryOp::Sbc, t, o, s),
            Operator::And(t, o) => logic_step(|a: u8, x: u8| and_value(a, x), t, o, s),
            Operator::Or(t, o) => logic_step(|a: u8, x: u8| or_value(a, x), t, o, s),
            Operator::Xor(t, o) => logic_step(|a: u8, x: u8| xor_value(a, x), t, o, s),
            Operator::Cp(o) => compare_step(o, s),
            Operator::Inc(t) => unary_step(UnaryOp::Inc, t, s),
            Operator::Dec(t) => unary_step(UnaryOp::Dec, t, s),
            Operator::Add16(lhs, rhs) => add16_step(lhs, rhs, s),
            Operator::AddSp(o) => add_sp_step(o, s),
            Operator::Inc16(reg) => inc16_step(reg, s),
            Operator::Dec16(reg) => dec16_step(reg, s),
            _ => s,
        }
    }

    /// The state after one of jumps, calls and returns runs on `s`;
    /// any other operator leaves `s` as it is.
    pub open spec fn step_control(self, s: ContextState) -> ContextState {
        match self {
            Operator::Jp(o) => jump_step(None, o, s),
            Operator::JpCc(c, o) => jump_step(Some(c), o, s),
            Operator::Jr(o) => relative_jump_step(None, o, s),
            Operator::JrCc(c, o) => relative_jump_step(Some(c), o, s),
            Operator::Call(o) => call_step(None, o, s),
            Operator::CallCc(c, o) => call_step(Some(c), o, s),
            Operator::Rst(n) => jump_to(push_value(s, s.registers.pc), n as u16),
            Operator::Ret => return_step(None, s),
            Operator::RetCc(c) => return_step(Some(c), s),
            Operator::Reti => ContextState { ime: true, ..return_step(None, s) },
            _ => s,
        }
    }

    /// The state after one of the operators of the 0xCB page runs on `s`;
    /// any other operator leaves `s` as it is.
    pub open spec fn step_cb(self, s: ContextState) -> ContextState {
        match self {
            Operator::Swap(o) => unary_step(UnaryOp::Swap, Target8::Opcode(o), s),
            Operator::Rlc(o) => unary_step(UnaryOp::Rlc, Target8::Opcode(o), s),
            Operator::Rl(o) => unary_step(UnaryOp::Rl, Target8::Opcode(o), s),
            Operator::Rrc(o) => unary_step(UnaryOp::Rrc, Target8::Opcode(o), s),
            Operator::Rr(o) => unary_step(UnaryOp::Rr, Target8::Opcode(o), s),
            Operator::Sla(o) => unary_step(UnaryOp::Sla, Target8::Opcode(o), s),
            Operator::Sra(o) => unary_step(UnaryOp::Sra, Target8::Opcode(o), s),
            Operator::Srl(o) => unary_step(UnaryOp::Srl, Target8::Opcode(o), s),
            Operator::Bit(b, o) => {
                let (place, s1) = Target8::Opcode(o).locate(s);
                with_flags(
                    s1,
                    Flags { z: !bit_set(place.value(s1), b), n: false, h: true, ..s1.registers.f },
                )
            },
            Operator::SetBit(b, o) => unary_step(UnaryOp::SetBit(b), Target8::Opcode(o), s),
            Operator::Res(b, o) => unary_step(UnaryOp::Res(b), Target8::Opcode(o), s),
            _ => s,
        }
    }

    /// Runs the operator on the context.
    pub fn execute(&self, ctx: &mut Context)
        requires
            old(ctx).wf(),
            self.wf(),
        ensures
            final(ctx).wf(),
            final(ctx)@ == self.step(old(ctx)@),
    {
        match *self {
            Operator::Halt | Operator::Stop | Operator::Nop | Operator::Di | Operator::Ei
            | Operator::Daa | Operator::Cpl | Operator::Ccf | Operator::Scf | Operator::Rlca
            | Operator::Rla | Operator::Rrca | Operator::Rra | Operator::Unused(..) => self.execute_misc(ctx),
            Operator::Ld(..) | Operator::Ld16(..) | Operator::Push(..) | Operator::Pop(..) => self.execute_load(ctx),
            Operator::Add(..) | Operator::Adc(..) | Operator::Sub(..) | Operator::Sbc(..)
            | Operator::And(..) | Operator::Or(..) | Operator::Xor(..) | Operator::Cp(..)
            | Operator::Inc(..) | Operator::Dec(..) | Operator::Add16(..) | Operator::AddSp(..)
            | Operator::Inc16(..) | Operator::Dec16(..) => self.execute_arith(ctx),
            Operator::Jp(..) | Operator::JpCc(..) | Operator::Jr(..) | Operator::JrCc(..)
            | Operator::Call(..) | Operator::CallCc(..) | Operator::Rst(..) | Operator::Ret
            | Operator::RetCc(..) | Operator::Reti => self.execute_control(ctx),
            Operator::Swap(..) | Operator::Rlc(..) | Operator::Rl(..) | Operator::Rrc(..)
            | Operator::Rr(..) | Operator::Sla(..) | Operator::Sra(..) | Operator::Srl(..)
            | Operator::Bit(..) | Operator::SetBit(..) | Operator::Res(..) => self.execute_cb(ctx),
        }
    }

    fn execute_misc(&self, ctx: &mut Context)
        requires
            old(ctx).wf(),
        ensures
            final(ctx).wf(),
            final(ctx)@ == self.step_misc(old(ctx)@),
    {
        match *self {
            Operator::Halt => ctx.halted = true,
            Operator::Stop => ctx.stopped = true,
            Operator::Nop => {},
            Operator::Di => ctx.ime = false,
            Operator::Ei => ctx.ime = true,
            Operator::Daa => {
                let (a, f) = alu::daa_bytes(ctx.registers.a, ctx.registers.f);
                ctx.registers.a = a;
                ctx.registers.f = f;
            },
            Operator::Cpl => {
                ctx.registers.a = 255 - ctx.registers.a;
                ctx.registers.f.n = true;
                ctx.registers.f.h = true;
            },
            Operator::Ccf => {
                ctx.registers.f.n = false;
                ctx.registers.f.h = false;
                ctx.registers.f.c = !ctx.registers.f.c;
            },
            Operator::Scf => {
                ctx.registers.f.n = false;
                ctx.registers.f.h = false;
                ctx.registers.f.c = true;
            },
            Operator::Rlca => rotate_a(ctx, UnaryOp::Rlc),
            Operator::Rla => rotate_a(ctx, UnaryOp::Rl),
            Operator::Rrca => rotate_a(ctx, UnaryOp::Rrc),
            Operator::Rra => rotate_a(ctx, UnaryOp::Rr),
            Operator::Unused(_) => {},
            _ => {},
        }
    }

    fn execute_load(&self, ctx: &mut Context)
        requires
            old(ctx).wf(),
        ensures
            final(ctx).wf(),
            final(ctx)@ == self.step_load(old(ctx)@),
    {
        match *self {
            Operator::Ld(t, o) => {
                let v = o.read(ctx);
                t.write(ctx, v);
            },
            Operator::Ld16(t, o) => {
                let v = o.read(ctx);
                t.write(ctx, v);
            },
            Operator::Push(reg) => {
                let v = reg.get(&ctx.registers);
                push(ctx, v);
            },
            Operator::Pop(reg) => {
                let v = pop(ctx);
                reg.set(&mut ctx.registers, v);
            },
            _ => {},
        }
    }

    fn execute_arith(&self, ctx: &mut Context)
        requires
            old(ctx).wf(),
        ensures
            final(ctx).wf(),
            final(ctx)@ == self.step_arith(old(ctx)@),
    {
        match *self {
            Operator::Add(t, o) => binary(ctx, BinaryOp::Add, t, o),
            Operator::Adc(t, o) => binary(ctx, BinaryOp::Adc, t, o),
            Operator::Sub(o) => binary(ctx, BinaryOp::Sub, Target8::Register(Register8::A), o),
            Operator::Sbc(t, o) => binary(ctx, BinaryOp::Sbc, t, o),
            Operator::And(t, o) => logic::execute_and(ctx, t, o),
            Operator::Or(t, o) => logic::execute_or(ctx, t, o),
            Operator::Xor(t, o) => logic::execute_xor(ctx, t, o),
            Operator::Cp(o) => compare(ctx, o),
            Operator::Inc(t) => unary(ctx, UnaryOp::Inc, t),
            Operator::Dec(t) => unary(ctx, UnaryOp::Dec, t),
            Operator::Add16(lhs, rhs) => add_register16(ctx, lhs, rhs),
            Operator::AddSp(o) => add_to_sp(ctx, o),
            Operator::Inc16(reg) => increment16(ctx, reg),
            Operator::Dec16(reg) => decrement16(ctx, reg),
            _ => {},
        }
    }

    fn execute_control(&self, ctx: &mut Context)
        requires
            old(ctx).wf(),
        ensures
            final(ctx).wf(),
            final(ctx)@ == self.step_control(old(ctx)@),
    {
        match *self {
            Operator::Jp(o) => jump(ctx, None, o),
            Operator::JpCc(c, o) => jump(ctx, Some(c), o),
            Operator::Jr(o) => relative_jump(ctx, None, o),
            Operator::JrCc(c, o) => relative_jump(ctx, Some(c), o),
            Operator::Call(o) => call(ctx, None, o),
            Operator::CallCc(c, o) => call(ctx, Some(c), o),
            Operator::Rst(n) => {
                let pc = ctx.registers.pc;
                push(ctx, pc);
                ctx.registers.pc = n as u16;
            },
            Operator::Ret => ret(ctx, None),
            Operator::RetCc(c) => ret(ctx, Some(c)),
            Operator::Reti => {
                ret(ctx, None);
                ctx.ime = true;
            },
            _ => {},
        }
    }

    fn execute_cb(&self, ctx: &mut Context)
        requires
            old(ctx).wf(),
            self.wf(),
        ensures
            final(ctx).wf(),
            final(ctx)@ == self.step_cb(old(ctx)@),
    {
        match *self {
            Operator::Swap(o) => unary(ctx, UnaryOp::Swap, Target8::Opcode(o)),
            Operator::Rlc(o) => unary(ctx, UnaryOp::Rlc, Target8::Opcode(o)),
            Operator::Rl(o) => unary(ctx, UnaryOp::Rl, Target8::Opcode(o)),
            Operator::Rrc(o) => unary(ctx, UnaryOp::Rrc, Target8::Opcode(o)),
            Operator::Rr(o) => unary(ctx, UnaryOp::Rr, Target8::Opcode(o)),
            Operator::Sla(o) => unary(ctx, UnaryOp::Sla, Target8::Opcode(o)),
            Operator::Sra(o) => unary(ctx, UnaryOp::Sra, Target8::Opcode(o)),
            Operator::Srl(o) => unary(ctx, UnaryOp::Srl, Target8::Opcode(o)),
            Operator::Bit(b, o) => {
                let (v, _place) = Target8::Opcode(o).prepare_and_read(ctx);
                let set = (v >> b) & 1u8 == 1u8;
                ctx.registers.f.z = !set;
                ctx.registers.f.n = false;
                ctx.registers.f.h = true;
            },
            Operator::SetBit(b, o) => unary(ctx, UnaryOp::SetBit(b), Target8::Opcode(o)),
            Operator::Res(b, o) => unary(ctx, UnaryOp::Res(b), Target8::Opcode(o)),
            _ => {},
        }
    }
}

/// `pc` plus the signed byte `n`, wrapped to 16 bits.
fn relative(pc: u16, n: u8) -> (r: u16)
    ensures
        r == wrap16(pc + signed(n)),
{
    if n < 128 {
        pc.wrapping_add(n as u16)
    } else {
        pc.wrapping_sub(256 - n as u16)
    }
}

/// Pushes a word onto the stack.
pub fn push(ctx: &mut Context, v: u16)
    requires
        old(ctx).wf(),
    ensures
        final(ctx).wf(),
        final(ctx)@ == push_value(old(ctx)@, v),
{
    let sp = ctx.registers.sp.wrapping_sub(2);
    ctx.registers.sp = sp;
    ctx.write16(sp, v);
}

/// Pops a word from the stack.
pub fn pop(ctx: &mut Context) -> (v: u16)
    requires
        old(ctx).wf(),
    ensures
        final(ctx).wf(),
        (v, final(ctx)@) == pop_value(old(ctx)@),
{
    let sp = ctx.registers.sp;
    let v = ctx.read16(sp);
    ctx.registers.sp = sp.wrapping_add(2);
    v
}

fn test_condition(c: Option<Condition>, f: &Flags) -> (r: bool)
    ensures
        r == taken(c, *f),
{
    match c {
        Some(c) => c.test(f),
        None => true,
    }
}

fn compare(ctx: &mut Context, o: Operand8)
    requires
        old(ctx).wf(),
    ensures
        final(ctx).wf(),
        final(ctx)@ == compare_step(o, old(ctx)@),
{
    proof {
        reveal(compare_step);
    }
    let n = o.read(ctx);
    let (_, f) = alu::sub_bytes(ctx.registers.a, n, false);
    ctx.registers.f = f;
}

fn add_register16(ctx: &mut Context, lhs: Register16, rhs: Register16)
    requires
        old(ctx).wf(),
    ensures
        final(ctx).wf(),
        final(ctx)@ == add16_step(lhs, rhs, old(ctx)@),
{
    proof {
        reveal(add16_step);
    }
    let a = lhs.get(&ctx.registers);
    let x = rhs.get(&ctx.registers);
    let (v, f) = alu::add_words(a, x, ctx.registers.f);
    ctx.registers.f = f;
    lhs.set(&mut ctx.registers, v);
}

fn add_to_sp(ctx: &mut Context, o: Operand8)
    requires
        old(ctx).wf(),
    ensures
        final(ctx).wf(),
        final(ctx)@ == add_sp_step(o, old(ctx)@),
{
    proof {
        reveal(add_sp_step);
    }
    let n = o.read(ctx);
    let v = add_sp(ctx, n);
    ctx.registers.sp = v;
}

fn increment16(ctx: &mut Context, reg: Register16)
    requires
        old(ctx).wf(),
    ensures
        final(ctx).wf(),
        final(ctx)@ == inc16_step(reg, old(ctx)@),
{
    proof {
        reveal(inc16_step);
    }
    let v = reg.get(&ctx.registers);
    reg.set(&mut ctx.registers, v.wrapping_add(1));
}

fn decrement16(ctx: &mut Context, reg: Register16)
    requires
        old(ctx).wf(),
    ensures
        final(ctx).wf(),
        final(ctx)@ == dec16_step(reg, old(ctx)@),
{
    proof {
        reveal(dec16_step);
    }
    let v = reg.get(&ctx.registers);
    reg.set(&mut ctx.registers, v.wrapping_sub(1));
}

fn jump(ctx: &mut Context, c: Option<Condition>, o: Operand16)
    requires
        old(ctx).wf(),
    ensures
        final(ctx).wf(),
        final(ctx)@ == jump_step(c, o, old(ctx)@),
{
    proof {
        reveal(jump_step);
    }
    let addr = o.read(ctx);
    if test_condition(c, &ctx.registers.f) {
        ctx.registers.pc = addr;
    }
}

fn relative_jump(ctx: &mut Context, c: Option<Condition>, o: Operand8)
    requires
        old(ctx).wf(),
    ensures
        final(ctx).wf(),
        final(ctx)@ == relative_jump_step(c, o, old(ctx)@),
{
    proof {
        reveal(relative_jump_step);
    }
    let n = o.read(ctx);
    if test_condition(c, &ctx.registers.f) {
        ctx.registers.pc = relative(ctx.registers.pc, n);
    }
}

fn call(ctx: &mut Context, c: Option<Condition>, o: Operand16)
    requires
        old(ctx).wf(),
    ensures
        final(ctx).wf(),
        final(ctx)@ == call_step(c, o, old(ctx)@),
{
    proof {
        reveal(call_step);
    }
    let addr = o.read(ctx);
    if test_condition(c, &ctx.registers.f) {
        let pc = ctx.registers.pc;
        push(ctx, pc);
        ctx.registers.pc = addr;
    }
}

fn ret(ctx: &mut Context, c: Option<Condition>)
    requires
        old(ctx).wf(),
    ensures
        final(ctx).wf(),
        final(ctx)@ == return_step(c, old(ctx)@),
{
    proof {
        reveal(return_step);
    }
    if test_condition(c, &ctx.registers.f) {
        let addr = pop(ctx);
        ctx.registers.pc = addr;
    }
}

fn binary(ctx: &mut Context, op: BinaryOp, lhs: Target8, rhs: Operand8)
    requires
        old(ctx).wf(),
    ensures
        final(ctx).wf(),
        final(ctx)@ == binary_step(op, lhs, rhs, old(ctx)@),
{
    proof {
        reveal(binary_step);
    }
    let (current, place) = lhs.prepare_and_read(ctx);
    let n = rhs.read(ctx);
    let (result, flags) = op.compute(current, n, ctx.registers.f);
    ctx.set_flags(flags);
    place.put(ctx, result);
}

fn unary(ctx: &mut Context, op: UnaryOp, t: Target8)
    requires
        old(ctx).wf(),
        op.wf(),
    ensures
        final(ctx).wf(),
        final(ctx)@ == unary_step(op, t, old(ctx)@),
{
    proof {
        reveal(unary_step);
    }
    let (v, place) = t.prepare_and_read(ctx);
    let (result, flags) = op.compute(v, ctx.registers.f);
    ctx.set_flags(flags);
    place.put(ctx, result);
}

fn rotate_a(ctx: &mut Context, op: UnaryOp)
    requires
        old(ctx).wf(),
        op.wf(),
    ensures
        final(ctx).wf(),
        final(ctx)@ == rotate_a_step(op, old(ctx)@),
{
    let (r, f) = op.compute(ctx.registers.a, ctx.registers.f);
    ctx.registers.a = r;
    ctx.registers.f = Flags { z: false, ..f };
}

} // verus!

verus! {

/// What PUSH writes, POP reads back: pushing a register pair and popping it
/// into the same pair leaves every register as it was, the interrupt and
/// power state too, and the memory holding the pushed word below SP.
pub proof fn lemma_push_then_pop(reg: Register16, s: ContextState)
    requires
        s.memory.len() == crate::cpu::context::MEMORY_SIZE,
    ensures
        Operator::Pop(reg).step(Operator::Push(reg).step(s)) == s.write16(
            wrap16(s.registers.sp - 2),
            get16(s.registers, reg),
        ),
{
    let sp = wrap16(s.registers.sp - 2);
    let v = get16(s.registers, reg);
    let pushed = Operator::Push(reg).step(s);
    crate::cpu::context::lemma_read16_after_write16(
        s.with_registers(Registers { sp, ..s.registers }),
        sp,
        v,
    );
    assert(pushed.read16(sp) == v);
    assert(wrap16(sp + 2) == s.registers.sp);
    crate::cpu::registers::lemma_flags_byte_roundtrip(s.registers.f);
    crate::cpu::registers::lemma_pair_split(v, s.registers.a, s.registers.f.byte());
    crate::cpu::registers::lemma_pair_split(v, s.registers.b, s.registers.c);
    crate::cpu::registers::lemma_pair_split(v, s.registers.d, s.registers.e);
    crate::cpu::registers::lemma_pair_split(v, s.registers.h, s.registers.l);
    let popped = Operator::Pop(reg).step(pushed);
    assert(popped.registers == s.registers);
    assert(popped.memory =~= s.write16(sp, v).memory);
}

/// `XOR A` clears A: A becomes zero, Z is set, N, H and C are cleared, and
/// nothing else changes.
pub proof fn lemma_xor_a_clears_a(s: ContextState)
    ensures
        xor(Operand8::Target(Target8::Register(Register8::A))).step(s) == s.with_registers(
            Registers { a: 0, f: Flags { z: true, n: false, h: false, c: false }, ..s.registers },
        ),
{
    reveal(logic_step);
    reveal(Target8::locate);
    reveal(Operand8::load);
    let a = s.registers.a;
    assert(a ^ a == 0) by (bit_vector);
}

/// `AND A` and `OR A` keep A, set Z exactly when A is zero, and clear N and
/// C; AND sets H and OR clears it.
pub proof fn lemma_and_or_a_keep_a(s: ContextState)
    ensures
        and(Operand8::Target(Target8::Register(Register8::A))).step(s) == s.with_registers(
            Registers { f: Flags { z: s.registers.a == 0, n: false, h: true, c: false }, ..s.registers },
        ),
        or(Operand8::Target(Target8::Register(Register8::A))).step(s) == s.with_registers(
            Registers { f: Flags { z: s.registers.a == 0, n: false, h: false, c: false }, ..s.registers },
        ),
{
    reveal(logic_step);
    reveal(Target8::locate);
    reveal(Operand8::load);
    let a = s.registers.a;
    assert(a & a == a) by (bit_vector);
    assert(a | a == a) by (bit_vector);
}

} // verus!

verus! {

/// Locating a target and reading an operand leave the memory as it is.
proof fn lemma_operands_keep_memory(lhs: Target8, rhs: Operand8, s: ContextState)
    ensures
        lhs.locate(s).1.memory == s.memory,
        rhs.load(lhs.locate(s).1).1.memory == s.memory,
{
    reveal(Target8::locate);
    reveal(Operand8::load);
}

/// Storing a byte in a place and reading the place back gives the byte; the
/// flags stay as they were.
proof fn lemma_place_store(place: crate::cpu::instruction::operand::Place8, s: ContextState, v: u8)
    requires
        s.memory.len() == crate::cpu::context::MEMORY_SIZE,
    ensures
        place.value(place.store(s, v)) == v,
        place.store(s, v).registers.f == s.registers.f,
{
}

/// `AND`: the target is located and read as `a`, then the operand is read as
/// `n`; the flags become Z when `a & n` is zero, N clear, H set, C clear, and
/// then the target holds `a & n`. Its text is `AND` and the operand.
pub proof fn lemma_and_effect(lhs: Target8, rhs: Operand8, s: ContextState)
    requires
        s.memory.len() == crate::cpu::context::MEMORY_SIZE,
    ensures
        ({
            let (place, s1) = lhs.locate(s);
            let a = place.value(s1);
            let (n, s2) = rhs.load(s1);
            let flags = Flags { z: a & n == 0, n: false, h: true, c: false };
            let after = Operator::And(lhs, rhs).step(s);
            &&& after == place.store(with_flags(s2, flags), a & n)
            &&& place.value(after) == a & n
            &&& after.registers.f == flags
        }),
        Operator::And(lhs, rhs).text() == "AND"@ + (" "@ + rhs.text()),
{
    reveal(logic_step);
    lemma_operands_keep_memory(lhs, rhs, s);
    let (place, s1) = lhs.locate(s);
    let a = place.value(s1);
    let (n, s2) = rhs.load(s1);
    let flags = Flags { z: a & n == 0, n: false, h: true, c: false };
    lemma_place_store(place, with_flags(s2, flags), a & n);
}

/// `OR`: the target is located and read as `a`, then the operand is read as
/// `n`; the flags become Z when `a | n` is zero, N, H and C clear, and then
/// the target holds `a | n`. Its text is `OR` and the operand.
pub proof fn lemma_or_effect(lhs: Target8, rhs: Operand8, s: ContextState)
    requires
        s.memory.len() == crate::cpu::context::MEMORY_SIZE,
    ensures
        ({
            let (place, s1) = lhs.locate(s);
            let a = place.value(s1);
            let (n, s2) = rhs.load(s1);
            let flags = Flags { z: a | n == 0, n: false, h: false, c: false };
            let after = Operator::Or(lhs, rhs).step(s);
            &&& after == place.store(with_flags(s2, flags), a | n)
            &&& place.value(after) == a | n
            &&& after.registers.f == flags
        }),
        Operator::Or(lhs, rhs).text() == "OR"@ + (" "@ + rhs.text()),
{
    reveal(logic_step);
    lemma_operands_keep_memory(lhs, rhs, s);
    let (place, s1) = lhs.locate(s);
    let a = place.value(s1);
    let (n, s2) = rhs.load(s1);
    let flags = Flags { z: a | n == 0, n: false, h: false, c: false };
    lemma_place_store(place, with_flags(s2, flags), a | n);
}

/// `XOR`: the target is located and read as `a`, then the operand is read as
/// `n`; the flags become Z exactly when `a == n`, N, H and C clear, and then
/// the target holds `a ^ n`. Its text is `XOR` and the operand.
pub proof fn lemma_xor_effect(lhs: Target8, rhs: Operand8, s: ContextState)
    requires
        s.memory.len() == crate::cpu::context::MEMORY_SIZE,
    ensures
        ({
            let (place, s1) = lhs.locate(s);
            let a = place.value(s1);
            let (n, s2) = rhs.load(s1);
            let flags = Flags { z: a == n, n: false, h: false, c: false };
            let after = Operator::Xor(lhs, rhs).step(s);
            &&& after == place.store(with_flags(s2, flags), a ^ n)
            &&& place.value(after) == a ^ n
            &&& after.registers.f == flags
        }),
        Operator::Xor(lhs, rhs).text() == "XOR"@ + (" "@ + rhs.text()),
{
    reveal(logic_step);
    lemma_operands_keep_memory(lhs, rhs, s);
    let (place, s1) = lhs.locate(s);
    let a = place.value(s1);
    let (n, s2) = rhs.load(s1);
    assert((a ^ n == 0) == (a == n)) by (bit_vector);
    let flags = Flags { z: a == n, n: false, h: false, c: false };
    lemma_place_store(place, with_flags(s2, flags), a ^ n);
}

} // verus!
