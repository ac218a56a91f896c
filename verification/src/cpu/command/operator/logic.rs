//! The logic commands AND, OR and XOR on A.

use vstd::prelude::*;
use crate::cpu::context::Context;
use crate::cpu::registers::Flags;
use crate::cpu::instruction::operand::{Operand8, Register8, Target8};
use super::{Logic, Operator};

verus! {

fn and_u8(lhs: Target8, rhs: Operand8) -> (r: Operator)
    ensures
        r.mnemonic@ == "AND"@,
        r.logic == Logic::And,
        r.lhs == lhs,
        r.rhs == rhs,
{
    Operator { mnemonic: "AND", logic: Logic::And, lhs, rhs }
}

/// `AND rhs`: A becomes `A & rhs`; Z is set when that is zero, N and C are
/// cleared and H is set.
pub fn and(rhs: Operand8) -> (r: Operator)
    ensures
        r.mnemonic@ == "AND"@,
        r.logic == Logic::And,
        r.lhs == Target8::Register(Register8::A),
        r.rhs == rhs,
{
    and_u8(Target8::Register(Register8::A), rhs)
}

fn or_u8(lhs: Target8, rhs: Operand8) -> (r: Operator)
    ensures
        r.mnemonic@ == "OR"@,
        r.logic == Logic::Or,
        r.lhs == lhs,
        r.rhs == rhs,
{
    Operator { mnemonic: "OR", logic: Logic::Or, lhs, rhs }
}

/// `OR rhs`: A becomes `A | rhs`; Z is set when that is zero, N, H and C are
/// cleared.
pub fn or(rhs: Operand8) -> (r: Operator)
    ensures
        r.mnemonic@ == "OR"@,
        r.logic == Logic::Or,
        r.lhs == Target8::Register(Register8::A),
        r.rhs == rhs,
{
    or_u8(Target8::Register(Register8::A), rhs)
}

fn xor_u8(lhs: Target8, rhs: Operand8) -> (r: Operator)
    ensures
        r.mnemonic@ == "XOR"@,
        r.logic == Logic::Xor,
        r.lhs == lhs,
        r.rhs == rhs,
{
    Operator { mnemonic: "XOR", logic: Logic::Xor, lhs, rhs }
}

/// `XOR rhs`: A becomes `A ^ rhs`; Z is set when that is zero, N, H and C
/// are cleared.
pub fn xor(rhs: Operand8) -> (r: Operator)
    ensures
        r.mnemonic@ == "XOR"@,
        r.logic == Logic::Xor,
        r.lhs == Target8::Register(Register8::A),
        r.rhs == rhs,
{
    xor_u8(Target8::Register(Register8::A), rhs)
}

/// Executes AND: the target is read, then the operand; the result goes to
/// the target, then the flags are set.
pub fn execute_and(context: &mut Context, lhs: Target8, rhs: Operand8)
    requires
        old(context).wf(),
    ensures
        final(context).wf(),
        final(context)@ == (Operator { mnemonic: "AND", logic: Logic::And, lhs, rhs }).step(old(context)@),
{
    let (current, writer) = lhs.prepare_and_read(context);
    let result = current & rhs.read(context);
    writer.put(context, result);
    context.registers_mut().f = Flags { z: result == 0, n: false, h: true, c: false };
}

/// Executes OR in the same order as AND.
pub fn execute_or(context: &mut Context, lhs: Target8, rhs: Operand8)
    requires
        old(context).wf(),
    ensures
        final(context).wf(),
        final(context)@ == (Operator { mnemonic: "OR", logic: Logic::Or, lhs, rhs }).step(old(context)@),
{
    let (current, writer) = lhs.prepare_and_read(context);
    let result = current | rhs.read(context);
    writer.put(context, result);
    context.registers_mut().f = Flags { z: result == 0, n: false, h: false, c: false };
}

/// Executes XOR in the same order as AND.
pub fn execute_xor(context: &mut Context, lhs: Target8, rhs: Operand8)
    requires
        old(context).wf(),
    ensures
        final(context).wf(),
        final(context)@ == (Operator { mnemonic: "XOR", logic: Logic::Xor, lhs, rhs }).step(old(context)@),
{
    let (current, writer) = lhs.prepare_and_read(context);
    let result = current ^ rhs.read(context);
    writer.put(context, result);
    context.registers_mut().f = Flags { z: result == 0, n: false, h: false, c: false };
}

} // verus!
