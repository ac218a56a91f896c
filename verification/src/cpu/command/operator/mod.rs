//! A command operator: a mnemonic and the effect it has on the context.

pub mod logic;

use vstd::prelude::*;
use crate::cpu::context::{Context, ContextState};
use crate::cpu::registers::{Flags, Registers};
use crate::cpu::instruction::operand::{Operand8, Target8};
use crate::cpu::instruction::operator::logic::{and_value, or_value, xor_value};

verus! {

/// The bitwise operation of a logic command.
#[derive(Clone, Copy, Debug, PartialEq, Eq, Structural)]
pub enum Logic {
    And,
    Or,
    Xor,
}

impl Logic {
    /// The result and the flags of the operation on `a` and `x`.
    pub open spec fn apply(self, a: u8, x: u8) -> (u8, Flags) {
        match self {
            Logic::And => and_value(a, x),
            Logic::Or => or_value(a, x),
            Logic::Xor => xor_value(a, x),
        }
    }
}

/// A command: its mnemonic and what it does.
#[derive(Clone, Copy, Debug, PartialEq, Eq)]
pub struct Operator {
    pub mnemonic: &'static str,
    pub logic: Logic,
    pub lhs: Target8,
    pub rhs: Operand8,
}

impl Operator {
    /// The effect of the command: the target is located and read, the
    /// operand is read, the result is written to the target and then the
    /// flags are set.
    pub open spec fn step(self, s: ContextState) -> ContextState {
        let (place, s1) = self.lhs.locate(s);
        let current = place.value(s1);
        let (n, s2) = self.rhs.load(s1);
        let (result, flags) = self.logic.apply(current, n);
        let s3 = place.store(s2, result);
        s3.with_registers(Registers { f: flags, ..s3.registers })
    }

    /// Runs the command on the context.
    pub fn execute(&self, context: &mut Context)
        requires
            old(context).wf(),
        ensures
            final(context).wf(),
            final(context)@ == self.step(old(context)@),
    {
        match self.logic {
            Logic::And => logic::execute_and(context, self.lhs, self.rhs),
            Logic::Or => logic::execute_or(context, self.lhs, self.rhs),
            Logic::Xor => logic::execute_xor(context, self.lhs, self.rhs),
        }
    }
}

} // verus!

verus! {

/// The command and the instruction forms of a logic operator agree: the
/// command writes the result before it sets the flags and the instruction
/// sets the flags first, and both end in the same state.
pub proof fn lemma_command_matches_instruction(lhs: Target8, rhs: Operand8, s: ContextState)
    ensures
        (Operator { mnemonic: "AND", logic: Logic::And, lhs, rhs }).step(s)
            == crate::cpu::instruction::operator::Operator::And(lhs, rhs).step(s),
        (Operator { mnemonic: "OR", logic: Logic::Or, lhs, rhs }).step(s)
            == crate::cpu::instruction::operator::Operator::Or(lhs, rhs).step(s),
        (Operator { mnemonic: "XOR", logic: Logic::Xor, lhs, rhs }).step(s)
            == crate::cpu::instruction::operator::Operator::Xor(lhs, rhs).step(s),
{
    reveal(crate::cpu::instruction::operator::logic::logic_step);
}

} // verus!
