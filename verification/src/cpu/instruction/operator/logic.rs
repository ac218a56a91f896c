//! The logic operators AND, OR and XOR, which combine A with an operand.

use vstd::prelude::*;
use crate::cpu::context::{Context, ContextState};
use crate::cpu::registers::{Flags, Registers};
use crate::cpu::instruction::operand::{Operand8, Register8, Target8};
use super::Operator;

verus! {

/// `a & x`: Z when the result is zero, N clear, H set, C clear.
pub open spec fn and_value(a: u8, x: u8) -> (u8, Flags) {
    (a & x, Flags { z: a & x == 0, n: false, h: true, c: false })
}

/// `a | x`: Z when the result is zero, N, H and C clear.
pub open spec fn or_value(a: u8, x: u8) -> (u8, Flags) {
    (a | x, Flags { z: a | x == 0, n: false, h: false, c: false })
}

/// `a ^ x`: Z when the result is zero, N, H and C clear.
pub open spec fn xor_value(a: u8, x: u8) -> (u8, Flags) {
    (a ^ x, Flags { z: a ^ x == 0, n: false, h: false, c: false })
}

pub fn and_bytes(a: u8, x: u8) -> (r: (u8, Flags))
    ensures
        r == and_value(a, x),
{
    let result = a & x;
    (result, Flags { z: result == 0, n: false, h: true, c: false })
}

pub fn or_bytes(a: u8, x: u8) -> (r: (u8, Flags))
    ensures
        r == or_value(a, x),
{
    let result = a | x;
    (result, Flags { z: result == 0, n: false, h: false, c: false })
}

pub fn xor_bytes(a: u8, x: u8) -> (r: (u8, Flags))
    ensures
        r == xor_value(a, x),
{
    let result = a ^ x;
    (result, Flags { z: result == 0, n: false, h: false, c: false })
}

/// The effect of a logic operator: the target is located and read, the
/// operand is read, the flags are set, and the result is written back to the
/// target.
#[verifier::opaque]
pub open spec fn logic_step(
    value: spec_fn(u8, u8) -> (u8, Flags),
    lhs: Target8,
    rhs: Operand8,
    s: ContextState,
) -> ContextState {
    let (place, s1) = lhs.locate(s);
    let current = place.value(s1);
    let (n, s2) = rhs.load(s1);
    let (result, flags) = value(current, n);
    place.store(s2.with_registers(Registers { f: flags, ..s2.registers }), result)
}

fn and_u8(lhs: Target8, rhs: Operand8) -> (r: Operator)
    ensures
        r == Operator::And(lhs, rhs),
{
    Operator::And(lhs, rhs)
}

/// The `AND` operator on A and `rhs`.
pub open spec fn and_operator(rhs: Operand8) -> Operator {
    Operator::And(Target8::Register(Register8::A), rhs)
}

/// `AND rhs`: A becomes `A & rhs`.
#[verifier::when_used_as_spec(and_operator)]
pub fn and(rhs: Operand8) -> (r: Operator)
    ensures
        r == and_operator(rhs),
{
    and_u8(Target8::Register(Register8::A), rhs)
}

fn or_u8(lhs: Target8, rhs: Operand8) -> (r: Operator)
    ensures
        r == Operator::Or(lhs, rhs),
{
    Operator::Or(lhs, rhs)
}

/// The `OR` operator on A and `rhs`.
pub open spec fn or_operator(rhs: Operand8) -> Operator {
    Operator::Or(Target8::Register(Register8::A), rhs)
}

/// `OR rhs`: A becomes `A | rhs`.
#[verifier::when_used_as_spec(or_operator)]
pub fn or(rhs: Operand8) -> (r: Operator)
    ensures
        r == or_operator(rhs),
{
    or_u8(Target8::Register(Register8::A), rhs)
}

fn xor_u8(lhs: Target8, rhs: Operand8) -> (r: Operator)
    ensures
        r == Operator::Xor(lhs, rhs),
{
    Operator::Xor(lhs, rhs)
}

/// The `XOR` operator on A and `rhs`.
pub open spec fn xor_operator(rhs: Operand8) -> Operator {
    Operator::Xor(Target8::Register(Register8::A), rhs)
}

/// `XOR rhs`: A becomes `A ^ rhs`.
#[verifier::when_used_as_spec(xor_operator)]
pub fn xor(rhs: Operand8) -> (r: Operator)
    ensures
        r == xor_operator(rhs),
{
    xor_u8(Target8::Register(Register8::A), rhs)
}

/// Executes `AND`: the target becomes `target & rhs`; Z is set when that is
/// zero, N and C are cleared and H is set.
pub fn execute_and(ctx: &mut Context, lhs: Target8, rhs: Operand8)
    requires
        old(ctx).wf(),
    ensures
        final(ctx).wf(),
        final(ctx)@ == logic_step(|a: u8, x: u8| and_value(a, x), lhs, rhs, old(ctx)@),
{
    proof {
        reveal(logic_step);
    }
    let (current, writer) = lhs.prepare_and_read(ctx);
    let n = rhs.read(ctx);
    let result = current & n;
    ctx.set_flags(Flags { z: result == 0, n: false, h: true, c: false });
    writer.put(ctx, result);
}

/// Executes `OR`: the target becomes `target | rhs`; Z is set when that is
/// zero, N, H and C are cleared.
pub fn execute_or(ctx: &mut Context, lhs: Target8, rhs: Operand8)
    requires
        old(ctx).wf(),
    ensures
        final(ctx).wf(),
        final(ctx)@ == logic_step(|a: u8, x: u8| or_value(a, x), lhs, rhs, old(ctx)@),
{
    proof {
        reveal(logic_step);
    }
    let (current, writer) = lhs.prepare_and_read(ctx);
    let n = rhs.read(ctx);
    let result = current | n;
    ctx.set_flags(Flags { z: result == 0, n: false, h: false, c: false });
    writer.put(ctx, result);
}

/// Executes `XOR`: the target becomes `target ^ rhs`; Z is set when that is
/// zero, N, H and C are cleared.
pub fn execute_xor(ctx: &mut Context, lhs: Target8, rhs: Operand8)
    requires
        old(ctx).wf(),
    ensures
        final(ctx).wf(),
        final(ctx)@ == logic_step(|a: u8, x: u8| xor_value(a, x), lhs, rhs, old(ctx)@),
{
    proof {
        reveal(logic_step);
    }
    let (current, writer) = lhs.prepare_and_read(ctx);
    let n = rhs.read(ctx);
    let result = current ^ n;
    ctx.set_flags(Flags { z: result == 0, n: false, h: false, c: false });
    writer.put(ctx, result);
}

} // verus!
