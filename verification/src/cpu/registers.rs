//! The register file of the CPU and its 16-bit register pairs.

use vstd::prelude::*;

verus! {

/// The integer `weight` when `b` holds, else zero.
pub open spec fn weight_if(b: bool, weight: int) -> int {
    if b {
        weight
    } else {
        0
    }
}

/// The 16-bit value whose high byte is `hi` and whose low byte is `lo`.
pub open spec fn pair(hi: u8, lo: u8) -> u16 {
    (hi as int * 256 + lo as int) as u16
}

/// The high byte of a 16-bit value.
pub open spec fn high(v: u16) -> u8 {
    (v / 256) as u8
}

/// The low byte of a 16-bit value.
pub open spec fn low(v: u16) -> u8 {
    (v % 256) as u8
}

/// `v`, wrapped to 16 bits.
pub open spec fn wrap16(v: int) -> u16 {
    (v % 65536) as u16
}

/// `v`, wrapped to 8 bits.
pub open spec fn wrap8(v: int) -> u8 {
    (v % 256) as u8
}

/// A value split into bytes and joined again is the value itself; a pair of
/// bytes joined and split gives the bytes back.
pub proof fn lemma_pair_split(v: u16, hi: u8, lo: u8)
    ensures
        pair(high(v), low(v)) == v,
        high(pair(hi, lo)) == hi,
        low(pair(hi, lo)) == lo,
{
}

/// The 16-bit word `hi * 256 + lo`, with `hi` as its high byte and `lo` as its low byte.
pub fn join(hi: u8, lo: u8) -> (r: u16)
    ensures
        r == pair(hi, lo),
{
    hi as u16 * 256 + lo as u16
}

/// The high and low bytes of a 16-bit value.
pub fn split(v: u16) -> (r: (u8, u8))
    ensures
        r.0 == high(v),
        r.1 == low(v),
{
    ((v / 256) as u8, (v % 256) as u8)
}

/// The condition flags kept in the F register.
#[derive(Clone, Copy, Debug, PartialEq, Eq, Structural)]
pub struct Flags {
    /// Zero: the last result was zero.
    pub z: bool,
    /// Subtract: the last arithmetic operation was a subtraction.
    pub n: bool,
    /// Half carry: a carry out of, or a borrow into, the low nibble.
    pub h: bool,
    /// Carry: a carry out of, or a borrow into, the whole value.
    pub c: bool,
}

impl Flags {
    /// The F register's byte: Z in bit 7, N in bit 6, H in bit 5, C in bit 4,
    /// and the low nibble zero.
    pub open spec fn byte(self) -> u8 {
        (weight_if(self.z, 128) + weight_if(self.n, 64) + weight_if(self.h, 32) + weight_if(
            self.c,
            16,
        )) as u8
    }

    /// The flags that a byte of the F register holds; its low nibble is ignored.
    pub open spec fn of_byte(b: u8) -> Flags {
        Flags { z: (b / 128) % 2 == 1, n: (b / 64) % 2 == 1, h: (b / 32) % 2 == 1, c: (b / 16) % 2 == 1 }
    }

    pub fn to_byte(&self) -> (r: u8)
        ensures
            r == self.byte(),
    {
        let mut r: u8 = 0;
        if self.z {
            r = r + 128;
        }
        if self.n {
            r = r + 64;
        }
        if self.h {
            r = r + 32;
        }
        if self.c {
            r = r + 16;
        }
        r
    }

    pub fn from_byte(b: u8) -> (r: Flags)
        ensures
            r == Flags::of_byte(b),
    {
        Flags { z: (b / 128) % 2 == 1, n: (b / 64) % 2 == 1, h: (b / 32) % 2 == 1, c: (b / 16) % 2 == 1 }
    }
}

/// Flags stored into the F register and read back are the same flags.
pub proof fn lemma_flags_byte_roundtrip(f: Flags)
    ensures
        Flags::of_byte(f.byte()) == f,
        f.byte() % 16 == 0,
{
}

/// The register file of the CPU.
#[derive(Clone, Copy, Debug, PartialEq, Eq, Structural)]
pub struct Registers {
    pub a: u8,
    pub f: Flags,
    pub b: u8,
    pub c: u8,
    pub d: u8,
    pub e: u8,
    pub h: u8,
    pub l: u8,
    pub sp: u16,
    pub pc: u16,
}

impl Registers {
    /// All registers zero and all flags clear.
    pub fn new() -> (r: Registers)
        ensures
            r == Registers::zero(),
    {
        Registers {
            a: 0,
            f: Flags { z: false, n: false, h: false, c: false },
            b: 0,
            c: 0,
            d: 0,
            e: 0,
            h: 0,
            l: 0,
            sp: 0,
            pc: 0,
        }
    }

    pub open spec fn zero() -> Registers {
        Registers {
            a: 0,
            f: Flags { z: false, n: false, h: false, c: false },
            b: 0,
            c: 0,
            d: 0,
            e: 0,
            h: 0,
            l: 0,
            sp: 0,
            pc: 0,
        }
    }

    pub open spec fn af_value(self) -> u16 {
        pair(self.a, self.f.byte())
    }

    pub open spec fn bc_value(self) -> u16 {
        pair(self.b, self.c)
    }

    pub open spec fn de_value(self) -> u16 {
        pair(self.d, self.e)
    }

    pub open spec fn hl_value(self) -> u16 {
        pair(self.h, self.l)
    }

    pub fn af(&self) -> (r: u16)
        ensures
            r == self.af_value(),
    {
        join(self.a, self.f.to_byte())
    }

    pub fn bc(&self) -> (r: u16)
        ensures
            r == self.bc_value(),
    {
        join(self.b, self.c)
    }

    pub fn de(&self) -> (r: u16)
        ensures
            r == self.de_value(),
    {
        join(self.d, self.e)
    }

    pub fn hl(&self) -> (r: u16)
        ensures
            r == self.hl_value(),
    {
        join(self.h, self.l)
    }

    pub open spec fn with_af(self, v: u16) -> Registers {
        Registers { a: high(v), f: Flags::of_byte(low(v)), ..self }
    }

    pub open spec fn with_bc(self, v: u16) -> Registers {
        Registers { b: high(v), c: low(v), ..self }
    }

    pub open spec fn with_de(self, v: u16) -> Registers {
        Registers { d: high(v), e: low(v), ..self }
    }

    pub open spec fn with_hl(self, v: u16) -> Registers {
        Registers { h: high(v), l: low(v), ..self }
    }

    pub fn set_af(&mut self, v: u16)
        ensures
            *final(self) == old(self).with_af(v),
    {
        let (hi, lo) = split(v);
        self.a = hi;
        self.f = Flags::from_byte(lo);
    }

    pub fn set_bc(&mut self, v: u16)
        ensures
            *final(self) == old(self).with_bc(v),
    {
        let (hi, lo) = split(v);
        self.b = hi;
        self.c = lo;
    }

    pub fn set_de(&mut self, v: u16)
        ensures
            *final(self) == old(self).with_de(v),
    {
        let (hi, lo) = split(v);
        self.d = hi;
        self.e = lo;
    }

    pub fn set_hl(&mut self, v: u16)
        ensures
            *final(self) == old(self).with_hl(v),
    {
        let (hi, lo) = split(v);
        self.h = hi;
        self.l = lo;
    }
}

} // verus!
