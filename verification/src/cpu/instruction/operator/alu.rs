//! The arithmetic of the 8-bit and 16-bit units: each operation as a result
//! and the flags it leaves.

use vstd::prelude::*;
use crate::cpu::registers::{Flags, wrap8, wrap16};

verus! {

/// 1 when the carry flag is set, else 0.
pub open spec fn carry_in(f: Flags) -> int {
    if f.c {
        1
    } else {
        0
    }
}

/// `a + x + ci` in 8 bits: Z when the byte is zero, N clear, H on a carry out
/// of bit 3, C on a carry out of bit 7.
pub open spec fn add8(a: u8, x: u8, ci: int) -> (u8, Flags) {
    let sum = a + x + ci;
    (wrap8(sum), Flags { z: wrap8(sum) == 0, n: false, h: a % 16 + x % 16 + ci > 15, c: sum > 255 })
}

/// `a - x - ci` in 8 bits: Z when the byte is zero, N set, H on a borrow into
/// bit 3, C on a borrow into bit 7.
pub open spec fn sub8(a: u8, x: u8, ci: int) -> (u8, Flags) {
    let d = a - x - ci;
    (wrap8(d), Flags { z: wrap8(d) == 0, n: true, h: a % 16 < x % 16 + ci, c: a < x + ci })
}

pub fn add_bytes(a: u8, x: u8, carry: bool) -> (r: (u8, Flags))
    ensures
        r == add8(a, x, if carry { 1 } else { 0 }),
{
    let ci: u16 = if carry { 1 } else { 0 };
    let sum: u16 = a as u16 + x as u16 + ci;
    let r = (sum % 256) as u8;
    (r, Flags { z: r == 0, n: false, h: (a % 16) as u16 + (x % 16) as u16 + ci > 15, c: sum > 255 })
}

pub fn sub_bytes(a: u8, x: u8, carry: bool) -> (r: (u8, Flags))
    ensures
        r == sub8(a, x, if carry { 1 } else { 0 }),
{
    let ci: u16 = if carry { 1 } else { 0 };
    let d: u16 = 256 + a as u16 - x as u16 - ci;
    let r = (d % 256) as u8;
    (
        r,
        Flags {
            z: r == 0,
            n: true,
            h: ((a % 16) as u16) < (x % 16) as u16 + ci,
            c: (a as u16) < x as u16 + ci,
        },
    )
}

/// An arithmetic operation of the 8-bit unit that combines the target with a
/// second operand.
#[derive(Clone, Copy, Debug, PartialEq, Eq, Structural)]
pub enum BinaryOp {
    Add,
    Adc,
    Sub,
    Sbc,
}

impl BinaryOp {
    /// The result and the flags, given the target's value `a`, the operand
    /// `x` and the flags before.
    pub open spec fn apply(self, a: u8, x: u8, f: Flags) -> (u8, Flags) {
        match self {
            BinaryOp::Add => add8(a, x, 0),
            BinaryOp::Adc => add8(a, x, carry_in(f)),
            BinaryOp::Sub => sub8(a, x, 0),
            BinaryOp::Sbc => sub8(a, x, carry_in(f)),
        }
    }

    pub fn compute(&self, a: u8, x: u8, f: Flags) -> (r: (u8, Flags))
        ensures
            r == self.apply(a, x, f),
    {
        match self {
            BinaryOp::Add => add_bytes(a, x, false),
            BinaryOp::Adc => add_bytes(a, x, f.c),
            BinaryOp::Sub => sub_bytes(a, x, false),
            BinaryOp::Sbc => sub_bytes(a, x, f.c),
        }
    }
}

/// Whether bit `b` of `v` is set.
pub open spec fn bit_set(v: u8, b: u8) -> bool {
    (v >> b) & 1u8 == 1u8
}

/// An operation of the 8-bit unit on a single operand, which it rewrites.
#[derive(Clone, Copy, Debug, PartialEq, Eq, Structural)]
pub enum UnaryOp {
    Inc,
    Dec,
    Rlc,
    Rl,
    Rrc,
    Rr,
    Sla,
    Sra,
    Srl,
    Swap,
    SetBit(u8),
    Res(u8),
}

/// Flags for a shift or rotate: Z when the result is zero, N and H clear, C
/// the bit shifted out.
pub open spec fn shift_flags(r: int, c: bool) -> Flags {
    Flags { z: r == 0, n: false, h: false, c }
}

impl UnaryOp {
    /// A bit index, where the operation has one, is below 8.
    pub open spec fn wf(self) -> bool {
        match self {
            UnaryOp::SetBit(b) | UnaryOp::Res(b) => b < 8,
            _ => true,
        }
    }

    /// The result and the flags, given the operand's value and the flags before.
    pub open spec fn apply(self, v: u8, f: Flags) -> (u8, Flags) {
        match self {
            UnaryOp::Inc => (
                wrap8(v + 1),
                Flags { z: wrap8(v + 1) == 0, n: false, h: v % 16 == 15, c: f.c },
            ),
            UnaryOp::Dec => (wrap8(v - 1), Flags { z: wrap8(v - 1) == 0, n: true, h: v % 16 == 0, c: f.c }),
            UnaryOp::Rlc => {
                let r = (v % 128) * 2 + v / 128;
                (r as u8, shift_flags(r, v >= 128))
            },
            UnaryOp::Rl => {
                let r = (v % 128) * 2 + carry_in(f);
                (r as u8, shift_flags(r, v >= 128))
            },
            UnaryOp::Rrc => {
                let r = v / 2 + (v % 2) * 128;
                (r as u8, shift_flags(r, v % 2 == 1))
            },
            UnaryOp::Rr => {
                let r = v / 2 + carry_in(f) * 128;
                (r as u8, shift_flags(r, v % 2 == 1))
            },
            UnaryOp::Sla => {
                let r = (v % 128) * 2;
                (r as u8, shift_flags(r, v >= 128))
            },
            UnaryOp::Sra => {
                let r = v / 2 + (v / 128) * 128;
                (r as u8, shift_flags(r, v % 2 == 1))
            },
            UnaryOp::Srl => {
                let r = (v / 2) as int;
                (r as u8, shift_flags(r, v % 2 == 1))
            },
            UnaryOp::Swap => {
                let r = (v % 16) * 16 + v / 16;
                (r as u8, shift_flags(r, false))
            },
            UnaryOp::SetBit(b) => (v | (1u8 << b), f),
            UnaryOp::Res(b) => (v & !(1u8 << b), f),
        }
    }

    pub fn compute(&self, v: u8, f: Flags) -> (r: (u8, Flags))
        requires
            self.wf(),
        ensures
            r == self.apply(v, f),
    {
        let ci: u8 = if f.c { 1 } else { 0 };
        match self {
            UnaryOp::Inc => {
                let r = ((v as u16 + 1) % 256) as u8;
                (r, Flags { z: r == 0, n: false, h: v % 16 == 15, c: f.c })
            },
            UnaryOp::Dec => {
                let r = ((v as u16 + 255) % 256) as u8;
                (r, Flags { z: r == 0, n: true, h: v % 16 == 0, c: f.c })
            },
            UnaryOp::Rlc => {
                let r = (v % 128) * 2 + v / 128;
                (r, Flags { z: r == 0, n: false, h: false, c: v >= 128 })
            },
            UnaryOp::Rl => {
                let r = (v % 128) * 2 + ci;
                (r, Flags { z: r == 0, n: false, h: false, c: v >= 128 })
            },
            UnaryOp::Rrc => {
                let r = v / 2 + (v % 2) * 128;
                (r, Flags { z: r == 0, n: false, h: false, c: v % 2 == 1 })
            },
            UnaryOp::Rr => {
                let r = v / 2 + ci * 128;
                (r, Flags { z: r == 0, n: false, h: false, c: v % 2 == 1 })
            },
            UnaryOp::Sla => {
                let r = (v % 128) * 2;
                (r, Flags { z: r == 0, n: false, h: false, c: v >= 128 })
            },
            UnaryOp::Sra => {
                let r = v / 2 + (v / 128) * 128;
                (r, Flags { z: r == 0, n: false, h: false, c: v % 2 == 1 })
            },
            UnaryOp::Srl => {
                let r = v / 2;
                (r, Flags { z: r == 0, n: false, h: false, c: v % 2 == 1 })
            },
            UnaryOp::Swap => {
                let r = (v % 16) * 16 + v / 16;
                (r, Flags { z: r == 0, n: false, h: false, c: false })
            },
            UnaryOp::SetBit(b) => (v | (1u8 << *b), f),
            UnaryOp::Res(b) => (v & !(1u8 << *b), f),
        }
    }
}

/// `a + x` in 16 bits: Z kept, N clear, H on a carry out of bit 11, C on a
/// carry out of bit 15.
pub open spec fn add16(a: u16, x: u16, f: Flags) -> (u16, Flags) {
    (wrap16(a + x), Flags { z: f.z, n: false, h: a % 4096 + x % 4096 > 4095, c: a + x > 65535 })
}

pub fn add_words(a: u16, x: u16, f: Flags) -> (r: (u16, Flags))
    ensures
        r == add16(a, x, f),
{
    let sum: u32 = a as u32 + x as u32;
    (
        (sum % 65536) as u16,
        Flags { z: f.z, n: false, h: (a % 4096) as u32 + (x % 4096) as u32 > 4095, c: sum > 65535 },
    )
}

/// Decimal adjustment of A after a BCD addition or subtraction: the
/// correction 0x06 and 0x60 chosen by H, C and the digits of A, added after an
/// addition and subtracted after a subtraction. Z from the result, N kept, H
/// cleared, C set when the high digit needed correcting.
pub open spec fn daa(a: u8, f: Flags) -> (u8, Flags) {
    if !f.n {
        let hi = f.c || a > 0x99;
        let lo = f.h || a % 16 > 9;
        let adj = weight(hi, 0x60) + weight(lo, 0x06);
        let r = wrap8(a + adj);
        (r, Flags { z: r == 0, n: f.n, h: false, c: hi })
    } else {
        let adj = weight(f.c, 0x60) + weight(f.h, 0x06);
        let r = wrap8(a - adj);
        (r, Flags { z: r == 0, n: f.n, h: false, c: f.c })
    }
}

pub open spec fn weight(b: bool, w: int) -> int {
    if b {
        w
    } else {
        0
    }
}

pub fn daa_bytes(a: u8, f: Flags) -> (r: (u8, Flags))
    ensures
        r == daa(a, f),
{
    if !f.n {
        let hi = f.c || a > 0x99;
        let lo = f.h || a % 16 > 9;
        let mut adj: u16 = 0;
        if hi {
            adj = adj + 0x60;
        }
        if lo {
            adj = adj + 0x06;
        }
        let r = ((a as u16 + adj) % 256) as u8;
        (r, Flags { z: r == 0, n: f.n, h: false, c: hi })
    } else {
        let mut adj: u16 = 0;
        if f.c {
            adj = adj + 0x60;
        }
        if f.h {
            adj = adj + 0x06;
        }
        let r = ((256 + a as u16 - adj) % 256) as u8;
        (r, Flags { z: r == 0, n: f.n, h: false, c: f.c })
    }
}

} // verus!
