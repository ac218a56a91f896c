//! Memory operands: the byte or word at an address that a register pair, an
//! immediate value or the high page gives.

use vstd::prelude::*;
use crate::cpu::context::{Context, ContextState};
use crate::cpu::registers::wrap16;

verus! {

/// How an [`Indirection`] finds its address.
#[derive(Clone, Copy, Debug, PartialEq, Eq, Structural)]
pub enum Addressing {
    /// The `(BC)` operand.
    BC,
    /// The `(DE)` operand; it takes its address from the BC pair.
    DE,
    /// The `(HL)` operand; it takes its address from the BC pair.
    HL,
    /// The address in the word that follows the opcode.
    Literal,
    /// `0xFF00` plus the byte that follows the opcode.
    Literal8,
    /// `0xFF00` plus register C.
    C,
    /// The address in HL, after which HL is decremented.
    HLD,
    /// The address in HL, after which HL is incremented.
    HLI,
}

/// A memory operand: the byte or word at an address worked out from the
/// registers or from the instruction stream.
#[derive(Clone, Copy, Debug, PartialEq, Eq, Structural)]
pub struct Indirection {
    pub addressing: Addressing,
}

pub fn bc() -> (r: Indirection)
    ensures
        r.addressing == Addressing::BC,
{
    Indirection { addressing: Addressing::BC }
}

pub fn de() -> (r: Indirection)
    ensures
        r.addressing == Addressing::DE,
{
    Indirection { addressing: Addressing::DE }
}

pub fn hl() -> (r: Indirection)
    ensures
        r.addressing == Addressing::HL,
{
    Indirection { addressing: Addressing::HL }
}

pub fn literal() -> (r: Indirection)
    ensures
        r.addressing == Addressing::Literal,
{
    Indirection { addressing: Addressing::Literal }
}

pub fn literal_8() -> (r: Indirection)
    ensures
        r.addressing == Addressing::Literal8,
{
    Indirection { addressing: Addressing::Literal8 }
}

pub fn c() -> (r: Indirection)
    ensures
        r.addressing == Addressing::C,
{
    Indirection { addressing: Addressing::C }
}

pub fn hld() -> (r: Indirection)
    ensures
        r.addressing == Addressing::HLD,
{
    Indirection { addressing: Addressing::HLD }
}

pub fn hli() -> (r: Indirection)
    ensures
        r.addressing == Addressing::HLI,
{
    Indirection { addressing: Addressing::HLI }
}

impl Indirection {
    /// The address, and the state after working it out.
    pub open spec fn address_of(self, s: ContextState) -> (u16, ContextState) {
        match self.addressing {
            Addressing::BC | Addressing::DE | Addressing::HL => (s.registers.bc_value(), s),
            Addressing::Literal => s.fetch16(),
            Addressing::Literal8 => {
                let (n, s1) = s.fetch();
                ((0xFF00 + n) as u16, s1)
            },
            Addressing::C => ((0xFF00 + s.registers.c) as u16, s),
            Addressing::HLD => {
                let hl = s.registers.hl_value();
                (hl, s.with_registers(s.registers.with_hl(wrap16(hl - 1))))
            },
            Addressing::HLI => {
                let hl = s.registers.hl_value();
                (hl, s.with_registers(s.registers.with_hl(wrap16(hl + 1))))
            },
        }
    }

    pub fn address(&self, ctx: &mut Context) -> (a: u16)
        requires
            old(ctx).wf(),
        ensures
            final(ctx).wf(),
            (a, final(ctx)@) == self.address_of(old(ctx)@),
    {
        match self.addressing {
            Addressing::BC | Addressing::DE | Addressing::HL => ctx.registers.bc(),
            Addressing::Literal => ctx.fetch16(),
            Addressing::Literal8 => {
                let n = ctx.fetch();
                0xFF00 + n as u16
            },
            Addressing::C => 0xFF00 + ctx.registers.c as u16,
            Addressing::HLD => {
                let hl = ctx.registers.hl();
                ctx.registers.set_hl(hl.wrapping_sub(1));
                hl
            },
            Addressing::HLI => {
                let hl = ctx.registers.hl();
                ctx.registers.set_hl(hl.wrapping_add(1));
                hl
            },
        }
    }

    /// The byte read through the operand, and the state after reading it.
    pub open spec fn load8(self, s: ContextState) -> (u8, ContextState) {
        let (addr, s1) = self.address_of(s);
        (s1.read(addr), s1)
    }

    /// The state after writing a byte through the operand.
    pub open spec fn store8(self, s: ContextState, v: u8) -> ContextState {
        let (addr, s1) = self.address_of(s);
        s1.write(addr, v)
    }

    /// The word read through the operand, and the state after reading it.
    pub open spec fn load16(self, s: ContextState) -> (u16, ContextState) {
        let (addr, s1) = self.address_of(s);
        (s1.read16(addr), s1)
    }

    /// The state after writing a word through the operand.
    pub open spec fn store16(self, s: ContextState, v: u16) -> ContextState {
        let (addr, s1) = self.address_of(s);
        s1.write16(addr, v)
    }

    pub fn read(&self, ctx: &mut Context) -> (v: u8)
        requires
            old(ctx).wf(),
        ensures
            final(ctx).wf(),
            (v, final(ctx)@) == self.load8(old(ctx)@),
    {
        let address = self.address(ctx);
        ctx.read(address)
    }

    pub fn write(&self, ctx: &mut Context, value: u8)
        requires
            old(ctx).wf(),
        ensures
            final(ctx).wf(),
            final(ctx)@ == self.store8(old(ctx)@, value),
    {
        let address = self.address(ctx);
        ctx.write(address, value);
    }

    pub fn read16(&self, ctx: &mut Context) -> (v: u16)
        requires
            old(ctx).wf(),
        ensures
            final(ctx).wf(),
            (v, final(ctx)@) == self.load16(old(ctx)@),
    {
        let address = self.address(ctx);
        ctx.read16(address)
    }

    pub fn write16(&self, ctx: &mut Context, value: u16)
        requires
            old(ctx).wf(),
        ensures
            final(ctx).wf(),
            final(ctx)@ == self.store16(old(ctx)@, value),
    {
        let address = self.address(ctx);
        ctx.write16(address, value);
    }

    /// The operand's name.
    pub open spec fn name_text(self) -> Seq<char> {
        match self.addressing {
            Addressing::BC => "BC"@,
            Addressing::DE => "DE"@,
            Addressing::HL => "HL"@,
            Addressing::Literal => "nn"@,
            Addressing::Literal8 => "$FF00+n"@,
            Addressing::C => "C"@,
            Addressing::HLD => "HLD"@,
            Addressing::HLI => "HLI"@,
        }
    }

    pub fn name(&self) -> (r: &'static str)
        ensures
            r@ == self.name_text(),
    {
        match self.addressing {
            Addressing::BC => "BC",
            Addressing::DE => "DE",
            Addressing::HL => "HL",
            Addressing::Literal => "nn",
            Addressing::Literal8 => "$FF00+n",
            Addressing::C => "C",
            Addressing::HLD => "HLD",
            Addressing::HLI => "HLI",
        }
    }

    /// The operand as written in assembly: its name in parentheses.
    pub open spec fn text(self) -> Seq<char> {
        "("@ + self.name_text() + ")"@
    }

    pub fn to_string(&self) -> (r: String)
        ensures
            r@ == self.text(),
    {
        let mut t = String::from_str("(");
        t.append(self.name());
        t.append(")");
        t
    }
}

} // verus!
