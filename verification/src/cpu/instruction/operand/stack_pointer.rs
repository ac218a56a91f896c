//! The `SP+n` operand: the stack pointer plus a signed immediate byte.

use vstd::prelude::*;
use crate::cpu::context::{Context, ContextState};
use crate::cpu::registers::{Flags, Registers, wrap16};

verus! {

/// The signed value of a byte in two's complement.
pub open spec fn signed(n: u8) -> int {
    if n < 128 {
        n as int
    } else {
        n as int - 256
    }
}

/// `SP` plus the signed byte `n`, and the flags that the addition sets: Z and N
/// clear, H and C the carries out of bits 3 and 7 of the unsigned low byte sum.
pub open spec fn sp_plus(sp: u16, n: u8) -> (u16, Flags) {
    (
        wrap16(sp + signed(n)),
        Flags { z: false, n: false, h: sp % 16 + n % 16 > 15, c: sp % 256 + n > 255 },
    )
}

/// Adds the signed byte `n` to SP without changing SP, sets the flags of the
/// addition, and returns the sum.
pub fn add_sp(ctx: &mut Context, n: u8) -> (r: u16)
    requires
        old(ctx).wf(),
    ensures
        final(ctx).wf(),
        r == sp_plus(old(ctx)@.registers.sp, n).0,
        final(ctx)@ == old(ctx)@.with_registers(
            Registers { f: sp_plus(old(ctx)@.registers.sp, n).1, ..old(ctx)@.registers },
        ),
{
    let sp = ctx.registers.sp;
    let h = sp % 16 + (n as u16) % 16 > 15;
    let c = sp % 256 + n as u16 > 255;
    let r = if n < 128 {
        sp.wrapping_add(n as u16)
    } else {
        sp.wrapping_sub(256 - n as u16)
    };
    ctx.registers.f = Flags { z: false, n: false, h, c };
    r
}

/// The `SP+n` operand.
#[derive(Clone, Copy, Debug, PartialEq, Eq, Structural)]
pub struct AddLiteral8;

pub const ADD_LITERAL_8: AddLiteral8 = AddLiteral8;

impl AddLiteral8 {
    /// Reading the operand fetches `n`, then yields `SP + n` and sets the flags
    /// of the addition.
    pub open spec fn load(self, s: ContextState) -> (u16, ContextState) {
        let (n, s1) = s.fetch();
        let (v, f) = sp_plus(s1.registers.sp, n);
        (v, s1.with_registers(Registers { f, ..s1.registers }))
    }

    pub fn read(self, ctx: &mut Context) -> (v: u16)
        requires
            old(ctx).wf(),
        ensures
            final(ctx).wf(),
            (v, final(ctx)@) == self.load(old(ctx)@),
    {
        let n = ctx.fetch();
        add_sp(ctx, n)
    }

    pub open spec fn text(self) -> Seq<char> {
        "SP+n"@
    }

    pub fn to_string(&self) -> (r: String)
        ensures
            r@ == self.text(),
    {
        String::from_str("SP+n")
    }
}

} // verus!
